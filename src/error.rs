use vstd::prelude::*;

verus! {

/// Errors that a request can end with.
#[derive(Debug)]
pub enum ClientError {
    /// Bytes of an earlier response were still unread when a request began.
    Desync,
    /// The response was not a well-formed reply.
    Decode,
    /// The daemon answered with an error; its message.
    Protocol(String),
}

} // verus!
