//! Client side of a line-framed request/response protocol over a local socket:
//! the request engine, reply decoding and the choice of socket path.
pub mod envelope;
pub mod error;
pub mod link;
pub mod socket;
