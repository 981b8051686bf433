//! The request engine of one client connection, written as a state machine.
//!
//! The engine decides; the caller performs. Each decision is an [`Action`]
//! (write bytes, read, reconnect after a pause, hand a response line back) and
//! each outcome of performing it comes back as an [`Event`]. Holding the
//! engine behind `&mut` (in practice, behind the client's lock) is what keeps
//! one request at a time on the wire.
use vstd::prelude::*;

use crate::error::ClientError;

verus! {

/// Pause between two reconnect attempts, in milliseconds.
pub const RECONNECT_INTERVAL_MS: u64 = 250;

/// The byte that ends every request and every response.
pub const LINE_END: u8 = 10;

/// Where the engine stands in the cycle of one request.
#[derive(Clone, Copy, Debug, PartialEq, Eq, Structural)]
pub enum Phase {
    /// No request in flight.
    Idle,
    /// The framed request is being written.
    Sending,
    /// Waiting for the response line.
    Receiving,
    /// The connection broke; a new one is being opened.
    Reconnecting,
}

/// What happened when the caller performed the last action.
#[derive(Debug)]
pub enum Event {
    /// The whole framed request was written.
    Written,
    /// A read returned these bytes; no bytes means the peer closed the stream.
    Received(Vec<u8>),
    /// A write or a read failed.
    Failed,
    /// A new connection to the same address is open.
    Reconnected,
    /// Opening a new connection failed.
    ReconnectFailed,
}

/// What the caller is to do next.
#[derive(Debug)]
pub enum Action {
    /// Write these bytes to the connection.
    Write(Vec<u8>),
    /// Read from the connection.
    Read,
    /// Wait this many milliseconds, then open a new connection to the same address.
    Reconnect { delay_ms: u64 },
    /// The request is done: this is its response line, terminator included.
    Deliver(Vec<u8>),
}

/// The engine's state as a mathematical value.
pub struct LinkState {
    pub phase: Phase,
    /// The framed request in flight (or the last one).
    pub frame: Seq<u8>,
    /// Bytes read from the connection and not yet handed back.
    pub unread: Seq<u8>,
}

pub enum EventModel {
    Written,
    Received(Seq<u8>),
    Failed,
    Reconnected,
    ReconnectFailed,
}

pub enum ActionModel {
    Write(Seq<u8>),
    Read,
    Reconnect(u64),
    Deliver(Seq<u8>),
}

impl View for Event {
    type V = EventModel;

    open spec fn view(&self) -> EventModel {
        match self {
            Event::Written => EventModel::Written,
            Event::Received(b) => EventModel::Received(b@),
            Event::Failed => EventModel::Failed,
            Event::Reconnected => EventModel::Reconnected,
            Event::ReconnectFailed => EventModel::ReconnectFailed,
        }
    }
}

impl View for Action {
    type V = ActionModel;

    open spec fn view(&self) -> ActionModel {
        match self {
            Action::Write(b) => ActionModel::Write(b@),
            Action::Read => ActionModel::Read,
            Action::Reconnect { delay_ms } => ActionModel::Reconnect(*delay_ms),
            Action::Deliver(b) => ActionModel::Deliver(b@),
        }
    }
}

/// A request as it goes on the wire: the payload and one line terminator.
pub open spec fn frame_of(payload: Seq<u8>) -> Seq<u8> {
    payload.push(LINE_END)
}

/// `k` is the position of the first line terminator in `s`.
pub open spec fn is_first_line_end(s: Seq<u8>, k: int) -> bool {
    &&& 0 <= k < s.len()
    &&& s[k] == LINE_END
    &&& forall|j: int| 0 <= j < k ==> s[j] != LINE_END
}

pub open spec fn has_line_end(s: Seq<u8>) -> bool {
    exists|k: int| 0 <= k < s.len() && s[k] == LINE_END
}

/// The position of the first line terminator in `s` (meaningful where there is one).
pub open spec fn first_line_end(s: Seq<u8>) -> int {
    choose|k: int| is_first_line_end(s, k)
}

/// Which events the engine expects in a phase.
pub open spec fn accepts(s: LinkState, e: EventModel) -> bool {
    match s.phase {
        Phase::Idle => false,
        Phase::Sending => e is Written || e is Failed,
        Phase::Receiving => e is Received || e is Failed,
        Phase::Reconnecting => e is Reconnected || e is ReconnectFailed,
    }
}

/// One step of the engine: the next state and the action to perform.
pub open spec fn next(s: LinkState, e: EventModel) -> (LinkState, ActionModel) {
    let broken = (LinkState { phase: Phase::Reconnecting, ..s }, ActionModel::Reconnect(0));
    match e {
        EventModel::Written => (LinkState { phase: Phase::Receiving, ..s }, ActionModel::Read),
        EventModel::Failed => broken,
        EventModel::Received(chunk) => {
            let buf = s.unread + chunk;
            if chunk.len() == 0 {
                broken
            } else if has_line_end(buf) {
                let k = first_line_end(buf);
                (
                    LinkState { phase: Phase::Idle, frame: s.frame, unread: buf.skip(k + 1) },
                    ActionModel::Deliver(buf.take(k + 1)),
                )
            } else {
                (LinkState { unread: buf, ..s }, ActionModel::Read)
            }
        },
        EventModel::ReconnectFailed => (s, ActionModel::Reconnect(RECONNECT_INTERVAL_MS)),
        EventModel::Reconnected => (
            LinkState { phase: Phase::Sending, frame: s.frame, unread: Seq::empty() },
            ActionModel::Write(s.frame),
        ),
    }
}

/// Feeds `events` to the engine from `s`, stopping at the first one it does not
/// expect (in particular once the request is done): the final state and the actions.
pub open spec fn run(s: LinkState, events: Seq<EventModel>) -> (LinkState, Seq<ActionModel>)
    decreases events.len(),
{
    if events.len() == 0 || !accepts(s, events[0]) {
        (s, Seq::empty())
    } else {
        let (s1, a) = next(s, events[0]);
        let (s2, rest) = run(s1, events.drop_first());
        (s2, seq![a] + rest)
    }
}

/// Where `k` is the first line terminator, `first_line_end` names it.
pub proof fn lemma_first_line_end_unique(s: Seq<u8>, k: int)
    requires
        is_first_line_end(s, k),
    ensures
        has_line_end(s),
        first_line_end(s) == k,
{
    let c = first_line_end(s);
    assert(is_first_line_end(s, c));
    if c < k {
        assert(s[c] != LINE_END);
    } else if k < c {
        assert(s[k] != LINE_END);
    }
}

/// `n` failed reconnect attempts in a row.
pub open spec fn failed_reconnects(n: nat) -> Seq<EventModel> {
    Seq::new(n, |i: int| EventModel::ReconnectFailed)
}

/// `n` reconnect attempts, each after the fixed pause.
pub open spec fn paced_reconnects(n: nat) -> Seq<ActionModel> {
    Seq::new(n, |i: int| ActionModel::Reconnect(RECONNECT_INTERVAL_MS))
}

/// Running the engine over `a` and then `b`, where it takes every event of `a`,
/// is running it over `a` and then, from where that ended, over `b`.
pub proof fn lemma_run_append(s: LinkState, a: Seq<EventModel>, b: Seq<EventModel>)
    requires
        run(s, a).1.len() == a.len(),
    ensures
        run(s, a + b) == (run(run(s, a).0, b).0, run(s, a).1 + run(run(s, a).0, b).1),
    decreases a.len(),
{
    if a.len() == 0 {
        assert(a + b =~= b);
        assert(run(s, a).1 + run(s, b).1 =~= run(s, b).1);
    } else {
        assert(accepts(s, a[0]));
        assert((a + b)[0] == a[0]);
        assert((a + b).drop_first() =~= a.drop_first() + b);
        let s1 = next(s, a[0]).0;
        lemma_run_append(s1, a.drop_first(), b);
        let x = next(s, a[0]).1;
        assert(seq![x] + (run(s1, a.drop_first()).1 + run(run(s1, a.drop_first()).0, b).1)
            =~= (seq![x] + run(s1, a.drop_first()).1) + run(run(s1, a.drop_first()).0, b).1);
    }
}

/// However many reconnect attempts fail in a row, the engine answers each by
/// waiting the fixed interval and trying again: it never gives up, never stops
/// pausing between attempts, and stays ready for the attempt that succeeds.
pub proof fn lemma_reconnect_retries_forever(s: LinkState, n: nat)
    requires
        s.phase == Phase::Reconnecting,
    ensures
        run(s, failed_reconnects(n)) == (s, paced_reconnects(n)),
    decreases n,
{
    let evs = failed_reconnects(n);
    if n == 0 {
        assert(paced_reconnects(n) =~= Seq::<ActionModel>::empty());
    } else {
        assert(evs.drop_first() =~= failed_reconnects((n - 1) as nat));
        lemma_reconnect_retries_forever(s, (n - 1) as nat);
        assert(seq![ActionModel::Reconnect(RECONNECT_INTERVAL_MS)] + paced_reconnects((n - 1) as nat)
            =~= paced_reconnects(n));
    }
}

/// A connection failure while a request is written or awaited, however many
/// failed reconnect attempts follow, ends in the same framed request being
/// written again on the new connection once one opens; the response handed back
/// is the first line read on that new connection, nothing of the broken one.
pub proof fn lemma_resend_after_reconnect(
    s: LinkState,
    failure: EventModel,
    n: nat,
    reply: Seq<u8>,
)
    requires
        s.phase == Phase::Sending || s.phase == Phase::Receiving,
        failure is Failed || (s.phase == Phase::Receiving && failure == EventModel::Received(
            Seq::empty(),
        )),
        has_line_end(reply),
    ensures
        ({
            let k = first_line_end(reply);
            run(
                s,
                seq![failure] + failed_reconnects(n) + seq![
                    EventModel::Reconnected,
                    EventModel::Written,
                    EventModel::Received(reply),
                ],
            ) == (LinkState { phase: Phase::Idle, frame: s.frame, unread: reply.skip(k + 1) }, seq![
                ActionModel::Reconnect(0),
            ] + paced_reconnects(n) + seq![
                ActionModel::Write(s.frame),
                ActionModel::Read,
                ActionModel::Deliver(reply.take(k + 1)),
            ])
        }),
{
    let k = first_line_end(reply);
    let r = LinkState { phase: Phase::Reconnecting, ..s };
    let a = seq![failure];
    let b = failed_reconnects(n);
    let c = seq![EventModel::Reconnected, EventModel::Written, EventModel::Received(reply)];
    assert(Seq::<u8>::empty() + reply =~= reply);
    // the failure
    assert(a.drop_first() =~= Seq::<EventModel>::empty());
    assert(a[0] == failure);
    assert(next(s, failure) == (r, ActionModel::Reconnect(0)));
    assert(run(r, a.drop_first()) == (r, Seq::<ActionModel>::empty()));
    assert(run(s, a).1 =~= seq![ActionModel::Reconnect(0)]);
    // the failed attempts
    lemma_reconnect_retries_forever(r, n);
    lemma_run_append(s, a, b);
    // the successful attempt and the resent request
    let fresh = LinkState { phase: Phase::Sending, frame: s.frame, unread: Seq::empty() };
    let got = LinkState { phase: Phase::Receiving, ..fresh };
    let done = LinkState { phase: Phase::Idle, frame: s.frame, unread: reply.skip(k + 1) };
    assert(c.drop_first() =~= seq![EventModel::Written, EventModel::Received(reply)]);
    assert(c.drop_first().drop_first() =~= seq![EventModel::Received(reply)]);
    assert(c.drop_first().drop_first().drop_first() =~= Seq::<EventModel>::empty());
    assert(run(done, Seq::empty()) == (done, Seq::<ActionModel>::empty()));
    assert(next(got, EventModel::Received(reply)) == (
        done,
        ActionModel::Deliver(reply.take(k + 1)),
    ));
    assert(run(got, seq![EventModel::Received(reply)]).1 =~= seq![
        ActionModel::Deliver(reply.take(k + 1)),
    ]);
    assert(run(fresh, c.drop_first()).1 =~= seq![
        ActionModel::Read,
        ActionModel::Deliver(reply.take(k + 1)),
    ]);
    assert(run(r, c).1 =~= seq![
        ActionModel::Write(s.frame),
        ActionModel::Read,
        ActionModel::Deliver(reply.take(k + 1)),
    ]);
    lemma_run_append(s, a + b, c);
    assert(seq![ActionModel::Reconnect(0)] + paced_reconnects(n) + run(r, c).1 =~= seq![
        ActionModel::Reconnect(0),
    ] + paced_reconnects(n) + seq![
        ActionModel::Write(s.frame),
        ActionModel::Read,
        ActionModel::Deliver(reply.take(k + 1)),
    ]);
}

/// While a request is in flight, whatever happens on the connection, every write
/// the engine asks for carries that request's frame, and a response is handed
/// back at most once, as the last action: no other request's bytes go on the
/// wire until it is done (a new request can only begin on an idle engine).
pub proof fn lemma_one_request_on_the_wire(s: LinkState, events: Seq<EventModel>)
    requires
        s.phase != Phase::Idle,
    ensures
        run(s, events).0.frame == s.frame,
        forall|i: int|
            0 <= i < run(s, events).1.len() && (#[trigger] run(s, events).1[i]) is Write
                ==> run(s, events).1[i]->Write_0 == s.frame,
        forall|i: int|
            0 <= i < run(s, events).1.len() && (#[trigger] run(s, events).1[i]) is Deliver
                ==> i == run(s, events).1.len() - 1,
    decreases events.len(),
{
    if events.len() > 0 && accepts(s, events[0]) {
        let (s1, a) = next(s, events[0]);
        let rest = events.drop_first();
        let acts = run(s, events).1;
        assert(acts == seq![a] + run(s1, rest).1);
        if s1.phase == Phase::Idle {
            assert(run(s1, rest).1.len() == 0);
            assert(acts.len() == 1);
        } else {
            lemma_one_request_on_the_wire(s1, rest);
            assert forall|i: int| 0 < i < acts.len() implies acts[i] == run(s1, rest).1[i - 1] by {}
        }
    }
}

/// The engine of one connection: the request in flight and the bytes read but
/// not yet handed back.
pub struct Link {
    phase: Phase,
    frame: Vec<u8>,
    unread: Vec<u8>,
}

impl View for Link {
    type V = LinkState;

    closed spec fn view(&self) -> LinkState {
        LinkState { phase: self.phase, frame: self.frame@, unread: self.unread@ }
    }
}

impl Link {
    /// An idle engine for a freshly opened connection.
    pub fn new() -> (r: Link)
        ensures
            r@.phase == Phase::Idle,
            r@.unread.len() == 0,
    {
        Link { phase: Phase::Idle, frame: Vec::new(), unread: Vec::new() }
    }

    pub fn phase(&self) -> (r: Phase)
        ensures
            r == self@.phase,
    {
        self.phase
    }

    /// Whether bytes read from the connection are still waiting to be handed back.
    pub fn has_unread(&self) -> (r: bool)
        ensures
            r == (self@.unread.len() > 0),
    {
        self.unread.len() > 0
    }

    /// Whether the engine expects `e` now.
    pub fn accepts(&self, e: &Event) -> (r: bool)
        ensures
            r == accepts(self@, e@),
    {
        match self.phase {
            Phase::Idle => false,
            Phase::Sending => matches!(e, Event::Written) || matches!(e, Event::Failed),
            Phase::Receiving => matches!(e, Event::Received(_)) || matches!(e, Event::Failed),
            Phase::Reconnecting => matches!(e, Event::Reconnected) || matches!(
                e,
                Event::ReconnectFailed
            ),
        }
    }

    /// Starts a request with this serialized payload. Where bytes of an earlier
    /// response are still unread the request is refused before any I/O, and the
    /// engine is left as it was; else the first action is to write the payload
    /// followed by one line terminator.
    pub fn begin(&mut self, payload: &[u8]) -> (r: Result<Action, ClientError>)
        requires
            old(self)@.phase == Phase::Idle,
            payload@.len() < usize::MAX,
        ensures
            old(self)@.unread.len() > 0 ==> r is Err && r->Err_0 is Desync && *final(self) == *old(self),
            old(self)@.unread.len() == 0 ==> r is Ok && r->Ok_0@ == ActionModel::Write(frame_of(payload@))
                && final(self)@ == (LinkState {
                phase: Phase::Sending,
                frame: frame_of(payload@),
                unread: Seq::empty(),
            }),
    {
        if self.unread.len() > 0 {
            return Err(ClientError::Desync);
        }
        let mut frame: Vec<u8> = Vec::new();
        frame.extend_from_slice(payload);
        frame.push(LINE_END);
        let copy = frame.clone();
        assert(copy@ =~= frame@);
        self.frame = copy;
        self.phase = Phase::Sending;
        assert(self.unread@ =~= Seq::empty());
        assert(frame@ =~= frame_of(payload@));
        Ok(Action::Write(frame))
    }

    /// Takes the outcome of the last action and returns the next one.
    pub fn on_event(&mut self, e: Event) -> (r: Action)
        requires
            accepts(old(self)@, e@),
        ensures
            (final(self)@, r@) == next(old(self)@, e@),
    {
        match e {
            Event::Written => {
                self.phase = Phase::Receiving;
                Action::Read
            },
            Event::Failed => {
                self.phase = Phase::Reconnecting;
                Action::Reconnect { delay_ms: 0 }
            },
            Event::Received(chunk) => {
                if chunk.len() == 0 {
                    self.phase = Phase::Reconnecting;
                    return Action::Reconnect { delay_ms: 0 };
                }
                let ghost before = self.unread@;
                let mut chunk = chunk;
                self.unread.append(&mut chunk);
                assert(self.unread@ == before + e@->Received_0);
                let n = self.unread.len();
                let mut k: usize = 0;
                while k < n
                    invariant
                        n == self.unread@.len(),
                        0 <= k <= n,
                        forall|j: int| 0 <= j < k ==> self.unread@[j] != LINE_END,
                    ensures
                        0 <= k <= n,
                        forall|j: int| 0 <= j < k ==> self.unread@[j] != LINE_END,
                        k < n ==> self.unread@[k as int] == LINE_END,
                    decreases n - k,
                {
                    if self.unread[k] == LINE_END {
                        break;
                    }
                    k = k + 1;
                }
                let ghost buf = self.unread@;
                if k == n {
                    assert(!has_line_end(buf));
                    Action::Read
                } else {
                    assert(is_first_line_end(buf, k as int));
                    proof {
                        lemma_first_line_end_unique(buf, k as int);
                    }
                    let mut line = self.unread.split_off(0);
                    self.unread = line.split_off(k + 1);
                    assert(line@ == buf.take(k + 1));
                    assert(self.unread@ == buf.skip(k + 1));
                    self.phase = Phase::Idle;
                    Action::Deliver(line)
                }
            },
            Event::ReconnectFailed => Action::Reconnect { delay_ms: RECONNECT_INTERVAL_MS },
            Event::Reconnected => {
                self.unread = Vec::new();
                self.phase = Phase::Sending;
                let copy = self.frame.clone();
                assert(copy@ =~= self.frame@);
                Action::Write(copy)
            },
        }
    }
}

} // verus!
