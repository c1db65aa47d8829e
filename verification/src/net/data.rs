use vstd::prelude::*;

verus! {

/// Messages that the server sends to the client.
#[derive(Debug)]
pub enum ServerMsg {
    /// Must stay the first variant, so that peers of any version can read it.
    VersionInfo {},
}

/// Messages that the client sends to the server.
#[derive(Debug)]
pub enum ClientMsg {
    /// Must stay the first variant, so that peers of any version can read it.
    VersionInfo {},
}

/// Signal from the owner of a connection or listener to its worker.
#[derive(Debug, Clone, Copy, PartialEq, Eq, Structural)]
pub enum ControlMsg {
    /// Stop at once; the owner is about to join the worker.
    Shutdown,
}

} // verus!
