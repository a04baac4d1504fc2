use vstd::prelude::*;

verus! {

/// The errors of the listener side.
#[derive(Clone, Copy, PartialEq, Eq, Structural, Debug)]
pub enum ListenError {
    /// A TLS configuration could not be turned into a crypto context.
    Config,
    /// The socket could not be bound.
    Bind,
    /// The endpoint failed while accepting.
    Transport,
}

} // verus!

verus! {

/// The errors of one HTTP/3 connection.
#[derive(Clone, Copy, PartialEq, Eq, Structural, Debug)]
pub enum ConnError {
    /// Flat byte-stream I/O was asked of a multiplexed connection.
    UnsupportedOperation,
}

} // verus!
