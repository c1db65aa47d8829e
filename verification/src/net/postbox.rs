//! One connection: the end that its owner holds, and the decisions of the
//! worker that serves its socket.

use vstd::prelude::*;
use crate::net::channel::Arrival;
use crate::net::data::ControlMsg;
use crate::net::error::{PostError, PostErrorInternal};
use crate::net::frame::{frame, frame_of};
use crate::net::post::{delivered, drain, fail, settle_send, verdict, Error};
use crate::net::recv::{parse, views, Intake, RecvState};
use crate::net::worker::{incident_of, is_would_block, phase_after, Incident, Phase, Worker};

verus! {

/// The owner's end of a connection. It sends values of type `S` to the peer
/// and receives values of type `R` from it, without ever blocking, through a
/// worker that owns the socket.
#[verifier::reject_recursive_types(S)]
#[verifier::reject_recursive_types(R)]
pub struct PostBox<S, R> {
    ctrl: mio_extras::channel::Sender<ControlMsg>,
    send: mio_extras::channel::Sender<S>,
    recv: mio_extras::channel::Receiver<Result<R, PostErrorInternal>>,
    err: Option<PostErrorInternal>,
}

impl<S, R> PostBox<S, R> {
    /// The terminal failure of the connection, if it has met one.
    pub closed spec fn failure(&self) -> Option<PostErrorInternal> {
        self.err
    }

    /// The owner's end of a connection whose worker holds the other ends of
    /// these three channels.
    pub fn from_channels(
        ctrl: mio_extras::channel::Sender<ControlMsg>,
        send: mio_extras::channel::Sender<S>,
        recv: mio_extras::channel::Receiver<Result<R, PostErrorInternal>>,
    ) -> (postbox: Self)
        ensures
            postbox.failure() is None,
    {
        PostBox { ctrl, send, recv, err: None }
    }

    /// The category of the terminal failure, if the connection has met one.
    pub fn status(&self) -> (out: Option<PostError>)
        ensures
            out == match self.failure() {
                Some(cause) => Some(cause.category()),
                None => None,
            },
    {
        match &self.err {
            Some(cause) => Some(PostError::from(cause)),
            None => None,
        }
    }

    /// The kind of the terminal failure, if the connection has met one.
    pub fn error(&self) -> (out: Option<Error>)
        ensures
            out == match self.failure() {
                Some(cause) => Some(cause.kind()),
                None => None,
            },
    {
        match &self.err {
            Some(cause) => Some(Error::from(cause)),
            None => None,
        }
    }

    /// Records a failure that the owner met itself, such as a failed wait for
    /// readiness. An earlier failure stays.
    pub fn fail(&mut self, cause: PostErrorInternal)
        ensures
            old(self).failure() is Some ==> final(self).failure() == old(self).failure(),
            old(self).failure() is None ==> final(self).failure() == Some(cause),
    {
        fail(&mut self.err, cause);
    }

    /// Hands `data` to the worker, to be written to the socket behind what was
    /// sent before. A failed connection takes nothing and answers with the
    /// category of its failure. A worker that is gone makes the connection
    /// fail.
    pub fn send(&mut self, data: S) -> (out: Result<(), PostError>)
        ensures
            old(self).failure() is Some ==> final(self).failure() == old(self).failure() && out
                == Err::<(), PostError>(old(self).failure()->Some_0.category()),
            old(self).failure() is None ==> (out is Ok && final(self).failure() is None) || (out
                == Err::<(), PostError>(PostError::InternalError) && final(self).failure() == Some(
                PostErrorInternal::MioError,
            )),
    {
        match &self.err {
            Some(cause) => Err(PostError::from(cause)),
            None => {
                let sent = self.send.send(data);
                settle_send(&mut self.err, sent)
            },
        }
    }

    /// Collects what the worker has received since the last call, oldest
    /// first. A failure among it ends the collection and is recorded; a failed
    /// connection yields nothing.
    pub fn new_messages(&mut self) -> (msgs: Vec<R>)
        ensures
            old(self).failure() is Some ==> msgs@.len() == 0 && final(self).failure() == old(self).failure(),
            old(self).failure() is None ==> exists|log: Seq<Arrival<Result<R, PostErrorInternal>>>|
                msgs@ == #[trigger] delivered(log) && final(self).failure() == verdict(log),
    {
        drain(&self.recv, &mut self.err)
    }

    /// Tells the worker to stop. A worker that is gone already is left alone.
    pub fn shutdown(&self) {
        let _ = self.ctrl.send(ControlMsg::Shutdown);
    }
}

/// What a connection worker is to do with a value from its outbound queue.
#[derive(Debug)]
pub enum Outgoing {
    /// Write these bytes to the socket, all of them.
    Write(Vec<u8>),
    /// Hand this failure to the owner and touch the socket no more.
    Report(PostErrorInternal),
    /// Drop the value: the connection has failed.
    Skip,
}

/// The decisions of the worker that serves the socket of one connection.
#[derive(Debug)]
pub struct PostBoxWorker {
    life: Worker,
    recv: RecvState,
}

impl PostBoxWorker {
    #[verifier::type_invariant]
    spec fn inv(self) -> bool {
        self.recv.wf()
    }

    /// The phase the worker is in.
    pub closed spec fn phase(&self) -> Phase {
        self.life.phase()
    }

    /// The bytes received for a frame that is not complete yet.
    pub closed spec fn pending(&self) -> Seq<u8> {
        self.recv.pending()
    }

    /// The worker of a fresh connection.
    pub fn new() -> (worker: Self)
        ensures
            worker.phase() == Phase::Running,
            worker.pending() == Seq::<u8>::empty(),
    {
        PostBoxWorker { life: Worker::new(), recv: RecvState::new() }
    }

    /// Whether the worker still serves its socket.
    pub fn is_running(&self) -> (running: bool)
        ensures
            running == (self.phase() == Phase::Running),
    {
        self.life.is_running()
    }

    /// Whether the loop around the worker is to end.
    pub fn is_stopped(&self) -> (stopped: bool)
        ensures
            stopped == (self.phase() == Phase::Stopped),
    {
        self.life.is_stopped()
    }

    /// Takes note of a failure; hands it back if it is the first.
    pub fn report(&mut self, cause: PostErrorInternal) -> (out: Option<PostErrorInternal>)
        ensures
            final(self).phase() == phase_after(old(self).phase(), Incident::Failure),
            final(self).pending() == old(self).pending(),
            old(self).phase() == Phase::Running ==> out == Some(cause) && final(self).phase()
                == Phase::Draining,
            old(self).phase() != Phase::Running ==> out is None && final(self).phase() == old(self).phase(),
    {
        proof {
            use_type_invariant(&*self);
        }
        let mut life = self.life;
        let out = life.report(cause);
        self.life = life;
        out
    }

    /// Takes what the control channel handed out.
    pub fn on_control(&mut self, arrival: Arrival<ControlMsg>) -> (out: Option<PostErrorInternal>)
        ensures
            final(self).phase() == phase_after(old(self).phase(), incident_of(arrival)),
            final(self).pending() == old(self).pending(),
            match arrival {
                Arrival::Item(ControlMsg::Shutdown) => {
                    &&& final(self).phase() == Phase::Stopped
                    &&& out is None
                },
                Arrival::Empty => {
                    &&& final(self).phase() == old(self).phase()
                    &&& out is None
                },
                Arrival::Closed(gone) => {
                    &&& final(self).phase() == Phase::Stopped
                    &&& out == if old(self).phase() == Phase::Running {
                        Some(PostErrorInternal::ChannelRecv(gone))
                    } else {
                        None
                    }
                },
            },
    {
        proof {
            use_type_invariant(&*self);
        }
        let mut life = self.life;
        let out = life.on_control(arrival);
        self.life = life;
        out
    }

    /// Asks the control channel once and acts on what it hands out.
    pub fn check_control(&mut self, ctrl: &mio_extras::channel::Receiver<ControlMsg>) -> (out:
        Option<PostErrorInternal>)
        ensures
            final(self).pending() == old(self).pending(),
            final(self).phase() == old(self).phase() || final(self).phase() == Phase::Stopped,
            out is Some ==> old(self).phase() == Phase::Running && final(self).phase()
                == Phase::Stopped,
    {
        proof {
            use_type_invariant(&*self);
        }
        let mut life = self.life;
        let out = life.check_control(ctrl);
        self.life = life;
        out
    }

    /// Takes the next value from the outbound queue, as its serialized form or
    /// as the reason why it has none. A running worker frames the bytes for
    /// the socket, or reports the reason; any other worker drops the value.
    pub fn on_outbound(&mut self, value: Result<Vec<u8>, bincode::Error>) -> (out: Outgoing)
        ensures
            final(self).phase() == phase_after(
                old(self).phase(),
                if value is Err {
                    Incident::Failure
                } else {
                    Incident::Quiet
                },
            ),
            final(self).pending() == old(self).pending(),
            old(self).phase() != Phase::Running ==> out is Skip && final(self).phase() == old(self).phase(),
            old(self).phase() == Phase::Running ==> match value {
                Ok(payload) => {
                    &&& out is Write
                    &&& out->Write_0@ == frame_of(payload@)
                    &&& final(self).phase() == Phase::Running
                },
                Err(why) => {
                    &&& out == Outgoing::Report(PostErrorInternal::Serde(why))
                    &&& final(self).phase() == Phase::Draining
                },
            },
    {
        if !self.life.is_running() {
            return Outgoing::Skip;
        }
        match value {
            Ok(payload) => Outgoing::Write(frame(payload.as_slice())),
            Err(why) => match self.report(PostErrorInternal::from(why)) {
                Some(cause) => Outgoing::Report(cause),
                None => Outgoing::Skip,
            },
        }
    }

    /// Takes the end of the outbound queue: its owner is gone without a
    /// `Shutdown`. A running worker reports that as a failure.
    pub fn on_outbound_closed(&mut self, gone: std::sync::mpsc::TryRecvError) -> (out: Option<
        PostErrorInternal,
    >)
        ensures
            final(self).phase() == phase_after(old(self).phase(), Incident::Failure),
            final(self).pending() == old(self).pending(),
            old(self).phase() == Phase::Running ==> out == Some(
                PostErrorInternal::ChannelRecv(gone),
            ) && final(self).phase() == Phase::Draining,
            old(self).phase() != Phase::Running ==> out is None && final(self).phase() == old(self).phase(),
    {
        self.report(PostErrorInternal::from(gone))
    }

    /// Takes the outcome of writing a frame out in full. A failure is reported
    /// if it is the first, and ends the writing for good.
    pub fn on_written(&mut self, written: Result<(), std::io::Error>) -> (out: Option<
        PostErrorInternal,
    >)
        ensures
            final(self).phase() == phase_after(
                old(self).phase(),
                if written is Err {
                    Incident::Failure
                } else {
                    Incident::Quiet
                },
            ),
            final(self).pending() == old(self).pending(),
            written is Ok || old(self).phase() != Phase::Running ==> out is None && final(self).phase() == old(self).phase(),
            written is Err && old(self).phase() == Phase::Running ==> out == Some(
                PostErrorInternal::Io(written->Err_0),
            ) && final(self).phase() == Phase::Draining,
    {
        match written {
            Ok(()) => None,
            Err(err) => self.report(PostErrorInternal::from(err)),
        }
    }

    /// Takes a failed read or accept. A socket that would block changes
    /// nothing; any other failure is reported if it is the first.
    pub fn on_io_error(&mut self, err: std::io::Error) -> (out: Option<PostErrorInternal>)
        ensures
            final(self).pending() == old(self).pending(),
            final(self).phase() == phase_after(
                old(self).phase(),
                if is_would_block(err) {
                    Incident::Quiet
                } else {
                    Incident::Failure
                },
            ),
            out == if !is_would_block(err) && old(self).phase() == Phase::Running {
                Some(PostErrorInternal::Io(err))
            } else {
                None
            },
    {
        proof {
            use_type_invariant(&*self);
        }
        let mut life = self.life;
        let out = life.on_io_error(err);
        self.life = life;
        out
    }

    /// Takes a failed wait for readiness, which stops the worker.
    pub fn on_wait_failed(&mut self, err: std::io::Error) -> (out: Option<PostErrorInternal>)
        ensures
            final(self).phase() == phase_after(old(self).phase(), Incident::WaitFailed),
            final(self).pending() == old(self).pending(),
            final(self).phase() == Phase::Stopped,
            out == if old(self).phase() == Phase::Running {
                Some(PostErrorInternal::Io(err))
            } else {
                None
            },
    {
        proof {
            use_type_invariant(&*self);
        }
        let mut life = self.life;
        let out = life.on_wait_failed(err);
        self.life = life;
        out
    }

    /// Takes the end of the stream: the peer closed the connection, and `eof`
    /// is the error that stands for it.
    pub fn on_closed(&mut self, eof: std::io::Error) -> (out: Option<PostErrorInternal>)
        ensures
            final(self).phase() == phase_after(old(self).phase(), Incident::Failure),
            final(self).pending() == old(self).pending(),
            old(self).phase() == Phase::Running ==> out == Some(PostErrorInternal::Io(eof))
                && final(self).phase() == Phase::Draining,
            old(self).phase() != Phase::Running ==> out is None && final(self).phase() == old(self).phase(),
    {
        self.report(PostErrorInternal::from(eof))
    }

    /// Takes the bytes of one read from the socket. A running worker hands out
    /// the payloads that they complete, and whether a length prefix among them
    /// is beyond the limit; any other worker ignores them.
    pub fn on_read(&mut self, bytes: &[u8]) -> (got: Intake)
        ensures
            final(self).phase() == old(self).phase(),
            old(self).phase() != Phase::Running ==> got.payloads@.len() == 0 && !got.oversize
                && final(self).pending() == old(self).pending(),
            old(self).phase() == Phase::Running ==> {
                &&& views(got.payloads@) == parse(old(self).pending() + bytes@).payloads
                &&& got.oversize == parse(old(self).pending() + bytes@).oversize
                &&& final(self).pending() == parse(old(self).pending() + bytes@).rest
            },
    {
        proof {
            use_type_invariant(&*self);
        }
        if !self.life.is_running() {
            return Intake { payloads: Vec::new(), oversize: false };
        }
        let mut recv = RecvState::new();
        core::mem::swap(&mut self.recv, &mut recv);
        let got = recv.feed(bytes);
        self.recv = recv;
        got
    }

    /// Decides what a read leads to, once its payloads have been tried in
    /// order: `corrupt` is the reason why the first bad one is no value, and
    /// `oversize` says whether a length prefix behind them was beyond the
    /// limit. The earlier of the two, the bad payload, is what a running
    /// worker reports.
    pub fn settle(&mut self, oversize: bool, corrupt: Option<bincode::Error>) -> (out: Option<
        PostErrorInternal,
    >)
        ensures
            final(self).phase() == phase_after(
                old(self).phase(),
                if oversize || corrupt is Some {
                    Incident::Failure
                } else {
                    Incident::Quiet
                },
            ),
            final(self).pending() == old(self).pending(),
            old(self).phase() != Phase::Running || (!oversize && corrupt is None) ==> out is None
                && final(self).phase() == old(self).phase(),
            old(self).phase() == Phase::Running && corrupt is Some ==> out == Some(
                PostErrorInternal::Serde(corrupt->Some_0),
            ) && final(self).phase() == Phase::Draining,
            old(self).phase() == Phase::Running && corrupt is None && oversize ==> out == Some(
                PostErrorInternal::MsgSizeLimitExceeded,
            ) && final(self).phase() == Phase::Draining,
    {
        match corrupt {
            Some(why) => self.report(PostErrorInternal::from(why)),
            None => {
                if oversize {
                    self.report(PostErrorInternal::MsgSizeLimitExceeded)
                } else {
                    None
                }
            },
        }
    }
}

} // verus!
