//! One listening socket: the end that its owner holds, and the decisions of
//! the worker that accepts connections on it.

use vstd::prelude::*;
use crate::net::channel::Arrival;
use crate::net::data::ControlMsg;
use crate::net::error::{PostError, PostErrorInternal};
use crate::net::post::{delivered, drain, fail, verdict, Error};
use crate::net::worker::{Phase, Worker};

verus! {

/// The owner's end of a listener. It hands out the connections, of type `C`,
/// that a worker has accepted on the listening socket, without ever blocking.
#[verifier::reject_recursive_types(C)]
pub struct PostOffice<C> {
    ctrl: mio_extras::channel::Sender<ControlMsg>,
    recv: mio_extras::channel::Receiver<Result<C, PostErrorInternal>>,
    err: Option<PostErrorInternal>,
}

impl<C> PostOffice<C> {
    /// The terminal failure of the listener, if it has met one.
    pub closed spec fn failure(&self) -> Option<PostErrorInternal> {
        self.err
    }

    /// The owner's end of a listener whose worker holds the other ends of
    /// these two channels.
    pub fn from_channels(
        ctrl: mio_extras::channel::Sender<ControlMsg>,
        recv: mio_extras::channel::Receiver<Result<C, PostErrorInternal>>,
    ) -> (office: Self)
        ensures
            office.failure() is None,
    {
        PostOffice { ctrl, recv, err: None }
    }

    /// The category of the terminal failure, if the listener has met one.
    pub fn status(&self) -> (out: Option<PostError>)
        ensures
            out == match self.failure() {
                Some(cause) => Some(cause.category()),
                None => None,
            },
    {
        match &self.err {
            Some(cause) => Some(PostError::from(cause)),
            None => None,
        }
    }

    /// The kind of the terminal failure, if the listener has met one.
    pub fn error(&self) -> (out: Option<Error>)
        ensures
            out == match self.failure() {
                Some(cause) => Some(cause.kind()),
                None => None,
            },
    {
        match &self.err {
            Some(cause) => Some(Error::from(cause)),
            None => None,
        }
    }

    /// Records a failure that the owner met itself, such as a failed wait for
    /// readiness. An earlier failure stays.
    pub fn fail(&mut self, cause: PostErrorInternal)
        ensures
            old(self).failure() is Some ==> final(self).failure() == old(self).failure(),
            old(self).failure() is None ==> final(self).failure() == Some(cause),
    {
        fail(&mut self.err, cause);
    }

    /// Collects the connections that the worker has accepted since the last
    /// call, oldest first. A failure among them ends the collection and is
    /// recorded; a failed listener yields nothing.
    pub fn new_connections(&mut self) -> (conns: Vec<C>)
        ensures
            old(self).failure() is Some ==> conns@.len() == 0 && final(self).failure() == old(self).failure(),
            old(self).failure() is None ==> exists|log: Seq<Arrival<Result<C, PostErrorInternal>>>|
                conns@ == #[trigger] delivered(log) && final(self).failure() == verdict(log),
    {
        drain(&self.recv, &mut self.err)
    }

    /// Tells the worker to stop. A worker that is gone already is left alone.
    pub fn shutdown(&self) {
        let _ = self.ctrl.send(ControlMsg::Shutdown);
    }
}

impl Worker {
    /// Takes an accepted socket, as the connection made of it or as the reason
    /// why none could be made. A running listener passes either on to its
    /// owner and goes on listening: a connection that could not be set up is
    /// no failure of the listening socket. Any other listener drops it.
    pub fn on_accepted<C>(&self, made: Result<C, PostErrorInternal>) -> (out: Option<
        Result<C, PostErrorInternal>,
    >)
        ensures
            self.phase() == Phase::Running ==> out == Some(made),
            self.phase() != Phase::Running ==> out is None,
    {
        if self.is_running() {
            Some(made)
        } else {
            None
        }
    }
}

} // verus!
