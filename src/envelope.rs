//! The reply envelope: a daemon answers each request with one JSON object that
//! has a single member, `Ok` holding the result or `Error` holding a message.
use std::marker::PhantomData;

use vstd::prelude::*;

use crate::error::ClientError;

verus! {

/// The members of the JSON object that `bytes` holds, as serde_json reads them:
/// each key with the raw JSON text of its value. `None` where `bytes` is not
/// one JSON object.
pub uninterp spec fn json_object_members(bytes: Seq<u8>) -> Option<Seq<(Seq<char>, Seq<char>)>>;

/// The string that the JSON text `text` denotes, as serde_json reads it.
/// `None` where `text` is not one JSON string.
pub uninterp spec fn json_string(text: Seq<char>) -> Option<Seq<char>>;

pub open spec fn members_view(v: Seq<(String, String)>) -> Seq<(Seq<char>, Seq<char>)> {
    v.map_values(|p: (String, String)| (p.0@, p.1@))
}

/// Relies on serde_json::from_slice into a map from key to
/// serde_json::value::RawValue, and on RawValue::get for each value's text.
#[verifier::external_body]
fn object_members(bytes: &[u8]) -> (r: Option<Vec<(String, String)>>)
    ensures
        json_object_members(bytes@) == (match r {
            Some(v) => Some(members_view(v@)),
            None => None,
        }),
{
    let parsed: Result<
        std::collections::BTreeMap<String, Box<serde_json::value::RawValue>>,
        serde_json::Error,
    > = serde_json::from_slice(bytes);
    parsed.ok().map(|m| m.into_iter().map(|(k, v)| (k, v.get().to_owned())).collect())
}

/// Relies on serde_json::from_str reading a String.
#[verifier::external_body]
fn string_value(text: &str) -> (r: Option<String>)
    ensures
        json_string(text@) == (match r {
            Some(m) => Some(m@),
            None => None,
        }),
{
    serde_json::from_str::<String>(text).ok()
}

pub open spec fn ok_tag() -> Seq<char> {
    seq!['O', 'k']
}

pub open spec fn error_tag() -> Seq<char> {
    seq!['E', 'r', 'r', 'o', 'r']
}

/// Which member a reply holds, with that member's raw JSON text.
#[derive(Debug)]
pub enum Envelope {
    Success(String),
    Failure(String),
}

pub enum EnvelopeModel {
    Success(Seq<char>),
    Failure(Seq<char>),
}

impl View for Envelope {
    type V = EnvelopeModel;

    open spec fn view(&self) -> EnvelopeModel {
        match self {
            Envelope::Success(t) => EnvelopeModel::Success(t@),
            Envelope::Failure(t) => EnvelopeModel::Failure(t@),
        }
    }
}

/// A reply is an object with exactly one member, named `Ok` or `Error`.
pub open spec fn envelope_of(members: Seq<(Seq<char>, Seq<char>)>) -> Option<EnvelopeModel> {
    if members.len() == 1 && members[0].0 == ok_tag() {
        Some(EnvelopeModel::Success(members[0].1))
    } else if members.len() == 1 && members[0].0 == error_tag() {
        Some(EnvelopeModel::Failure(members[0].1))
    } else {
        None
    }
}

/// What a reply payload means.
pub enum Outcome {
    /// The raw JSON text of the result.
    Value(Seq<char>),
    /// The daemon's error message.
    DaemonError(Seq<char>),
    /// Not a reply.
    Malformed,
}

pub open spec fn payload_outcome(payload: Seq<u8>) -> Outcome {
    match json_object_members(payload) {
        None => Outcome::Malformed,
        Some(ms) => match envelope_of(ms) {
            None => Outcome::Malformed,
            Some(EnvelopeModel::Success(t)) => Outcome::Value(t),
            Some(EnvelopeModel::Failure(t)) => match json_string(t) {
                Some(m) => Outcome::DaemonError(m),
                None => Outcome::Malformed,
            },
        },
    }
}

/// `r` reports the outcome `o`.
pub open spec fn reports(r: Result<String, ClientError>, o: Outcome) -> bool {
    match o {
        Outcome::Value(t) => r is Ok && r->Ok_0@ == t,
        Outcome::DaemonError(m) => r is Err && r->Err_0 is Protocol && r->Err_0->Protocol_0@ == m,
        Outcome::Malformed => r is Err && r->Err_0 is Decode,
    }
}

/// Reads the envelope from an object's members.
pub fn classify_members(members: &Vec<(String, String)>) -> (r: Option<Envelope>)
    ensures
        (match r {
            Some(e) => Some(e@),
            None => None,
        }) == envelope_of(members_view(members@)),
{
    proof {
        reveal_strlit("Ok");
        reveal_strlit("Error");
    }
    if members.len() != 1 {
        return None;
    }
    let ghost mv = members_view(members@);
    assert(mv[0] == (members@[0].0@, members@[0].1@));
    let key = &members[0].0;
    let ok = "Ok".to_owned();
    let error = "Error".to_owned();
    if *key == ok {
        assert(ok@ =~= ok_tag());
        Some(Envelope::Success(members[0].1.clone()))
    } else if *key == error {
        assert(error@ =~= error_tag());
        Some(Envelope::Failure(members[0].1.clone()))
    } else {
        assert(ok@ =~= ok_tag());
        assert(error@ =~= error_tag());
        None
    }
}

/// The error for an `Error` reply, given the message read from it, if any.
pub fn failure_from(message: Option<String>) -> (r: ClientError)
    ensures
        (match message {
            Some(m) => r is Protocol && r->Protocol_0@ == m@,
            None => r is Decode,
        }),
{
    match message {
        Some(m) => ClientError::Protocol(m),
        None => ClientError::Decode,
    }
}

/// Reads a reply payload: the raw JSON text of the result, the daemon's error
/// message, or a decode error.
pub fn decode_payload(payload: &[u8]) -> (r: Result<String, ClientError>)
    ensures
        reports(r, payload_outcome(payload@)),
{
    let members = match object_members(payload) {
        Some(m) => m,
        None => return Err(ClientError::Decode),
    };
    match classify_members(&members) {
        Some(Envelope::Success(t)) => Ok(t),
        Some(Envelope::Failure(t)) => Err(failure_from(string_value(t.as_str()))),
        None => Err(ClientError::Decode),
    }
}

/// A reply payload exactly as received, kept undecoded until the caller asks,
/// and tagged with the type the caller expects its result to have.
pub struct ResponseBuffer<T> {
    buf: Vec<u8>,
    _phantom: PhantomData<T>,
}

impl<T> View for ResponseBuffer<T> {
    type V = Seq<u8>;

    closed spec fn view(&self) -> Seq<u8> {
        self.buf@
    }
}

impl<T> ResponseBuffer<T> {
    pub fn new(buf: Vec<u8>) -> (r: ResponseBuffer<T>)
        ensures
            r@ == buf@,
    {
        ResponseBuffer { buf, _phantom: PhantomData }
    }

    /// The payload as received.
    pub fn payload(&self) -> (r: &[u8])
        ensures
            r@ == self@,
    {
        self.buf.as_slice()
    }

    /// Reads the envelope; the buffer is left as it was, so this can be asked again.
    pub fn envelope(&self) -> (r: Result<String, ClientError>)
        ensures
            reports(r, payload_outcome(self@)),
    {
        decode_payload(self.buf.as_slice())
    }
}

/// A reply whose single member is `Ok` yields that member's text as the
/// result; one whose single member is `Error` yields the daemon's message as a
/// protocol error. Neither depends on what type the caller expects.
pub proof fn lemma_reply_meaning(payload: Seq<u8>, raw: Seq<char>)
    ensures
        json_object_members(payload) == Some(seq![(ok_tag(), raw)]) ==> payload_outcome(payload)
            == Outcome::Value(raw),
        json_object_members(payload) == Some(seq![(error_tag(), raw)]) && json_string(raw) is Some
            ==> payload_outcome(payload) == Outcome::DaemonError(json_string(raw)->Some_0),
{
    assert(ok_tag() != error_tag()) by {
        assert(ok_tag().len() != error_tag().len());
    }
}

} // verus!
