//! Which socket file to connect to.
use vstd::prelude::*;

verus! {

/// Where the daemon's socket lies.
#[derive(Clone, Copy, Debug, PartialEq, Eq, Structural)]
pub enum SocketLocation {
    /// The system-wide socket.
    System,
    /// The socket under the current user's runtime directory.
    User,
}

/// Prefers the system-wide socket, falls back to the user's one, and finds
/// none where neither exists.
pub fn choose_socket(system_exists: bool, user_exists: bool) -> (r: Option<SocketLocation>)
    ensures
        system_exists ==> r == Some(SocketLocation::System),
        !system_exists && user_exists ==> r == Some(SocketLocation::User),
        !system_exists && !user_exists ==> r is None,
{
    if system_exists {
        Some(SocketLocation::System)
    } else if user_exists {
        Some(SocketLocation::User)
    } else {
        None
    }
}

} // verus!
