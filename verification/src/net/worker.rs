//! The life of a background worker, as a state machine: it runs until its
//! first failure, then waits quietly, and stops when its owner says so. The
//! loop around it performs the reads, writes and waits on the socket; every
//! decision is taken here.

use vstd::prelude::*;
use crate::net::channel::{try_recv, Arrival};
use crate::net::data::ControlMsg;
use crate::net::error::PostErrorInternal;

verus! {

/// Where a worker stands in its life.
#[derive(Debug, Clone, Copy, PartialEq, Eq, Structural)]
pub enum Phase {
    /// Serving its socket.
    Running,
    /// Failed, or left by its peer: it touches the socket no more and only
    /// waits to be shut down.
    Draining,
    /// Done; the loop around it ends.
    Stopped,
}

/// What can reach a worker, as far as its life is concerned.
#[derive(Debug, Clone, Copy, PartialEq, Eq, Structural)]
pub enum Incident {
    /// The owner sent `Shutdown`.
    Shutdown,
    /// The owner is gone without a `Shutdown`.
    OwnerGone,
    /// Something failed for good: the socket, a frame, a queue.
    Failure,
    /// The wait for readiness failed.
    WaitFailed,
    /// Anything else: work done, or nothing to do.
    Quiet,
}

/// The phase that a worker in `phase` is in after `incident`.
pub open spec fn phase_after(phase: Phase, incident: Incident) -> Phase {
    match incident {
        Incident::Shutdown | Incident::OwnerGone | Incident::WaitFailed => Phase::Stopped,
        Incident::Failure => if phase == Phase::Running {
            Phase::Draining
        } else {
            phase
        },
        Incident::Quiet => phase,
    }
}

/// Whether a worker in `phase` hands a failure to its owner at `incident`.
pub open spec fn reported(phase: Phase, incident: Incident) -> bool {
    phase == Phase::Running && (incident == Incident::OwnerGone || incident == Incident::Failure
        || incident == Incident::WaitFailed)
}

/// The phase that a worker in `phase` is in after `incidents`, in their order.
pub open spec fn phase_after_all(phase: Phase, incidents: Seq<Incident>) -> Phase
    decreases incidents.len(),
{
    if incidents.len() == 0 {
        phase
    } else {
        phase_after_all(phase_after(phase, incidents[0]), incidents.skip(1))
    }
}

/// How many failures a worker in `phase` hands to its owner over `incidents`.
pub open spec fn reports(phase: Phase, incidents: Seq<Incident>) -> nat
    decreases incidents.len(),
{
    if incidents.len() == 0 {
        0
    } else {
        (if reported(phase, incidents[0]) {
            1nat
        } else {
            0nat
        }) + reports(phase_after(phase, incidents[0]), incidents.skip(1))
    }
}

/// Whatever happens to a worker, and in whatever order, its owner hears of
/// one failure at most; of none from a worker that is not running.
pub proof fn lemma_one_report_at_most(phase: Phase, incidents: Seq<Incident>)
    ensures
        reports(phase, incidents) <= 1,
        phase != Phase::Running ==> reports(phase, incidents) == 0,
    decreases incidents.len(),
{
    if incidents.len() > 0 {
        lemma_one_report_at_most(phase_after(phase, incidents[0]), incidents.skip(1));
    }
}

/// A worker that has stopped stays stopped.
pub proof fn lemma_stopped_for_good(incidents: Seq<Incident>)
    ensures
        phase_after_all(Phase::Stopped, incidents) == Phase::Stopped,
    decreases incidents.len(),
{
    if incidents.len() > 0 {
        lemma_stopped_for_good(incidents.skip(1));
    }
}

/// `Shutdown` stops a worker in whatever phase it finds it, and however often
/// it is sent: nothing that comes before or after changes that.
pub proof fn lemma_shutdown_stops(
    phase: Phase,
    before: Seq<Incident>,
    later: Seq<Incident>,
)
    ensures
        phase_after_all(phase, before + seq![Incident::Shutdown] + later) == Phase::Stopped,
    decreases before.len(),
{
    let all = before + seq![Incident::Shutdown] + later;
    if before.len() == 0 {
        assert(all[0] == Incident::Shutdown);
        assert(all.skip(1) =~= later);
        lemma_stopped_for_good(later);
    } else {
        assert(all[0] == before[0]);
        assert(all.skip(1) =~= before.skip(1) + seq![Incident::Shutdown] + later);
        lemma_shutdown_stops(phase_after(phase, before[0]), before.skip(1), later);
    }
}

/// Whether `err` is of the kind `WouldBlock`, by which a non-blocking socket
/// says "not now, try again": nothing is wrong with the socket then. The kind
/// is part of the error itself, as the operating system or its maker set it,
/// and the same error is always of the same kind.
/// This is what `std::io::Error::kind` tells of `err`.
pub uninterp spec fn is_would_block(err: std::io::Error) -> bool;

/// What an answer of the control channel means for the worker's life.
pub open spec fn incident_of(arrival: Arrival<ControlMsg>) -> Incident {
    match arrival {
        Arrival::Item(ControlMsg::Shutdown) => Incident::Shutdown,
        Arrival::Empty => Incident::Quiet,
        Arrival::Closed(_) => Incident::OwnerGone,
    }
}

/// The part of a worker that both kinds share: its phase, and the rule that
/// it reports one failure at most.
#[derive(Debug, Clone, Copy)]
pub struct Worker {
    phase: Phase,
}

impl Worker {
    /// The phase the worker is in.
    pub closed spec fn phase(&self) -> Phase {
        self.phase
    }

    /// A worker at the start of its life.
    pub fn new() -> (worker: Self)
        ensures
            worker.phase() == Phase::Running,
    {
        Worker { phase: Phase::Running }
    }

    /// The phase the worker is in.
    pub fn current(&self) -> (phase: Phase)
        ensures
            phase == self.phase(),
    {
        self.phase
    }

    /// Whether the worker still serves its socket.
    pub fn is_running(&self) -> (running: bool)
        ensures
            running == (self.phase() == Phase::Running),
    {
        self.phase == Phase::Running
    }

    /// Whether the loop around the worker is to end.
    pub fn is_stopped(&self) -> (stopped: bool)
        ensures
            stopped == (self.phase() == Phase::Stopped),
    {
        self.phase == Phase::Stopped
    }

    /// Takes note of a failure. A running worker hands it back, to be passed on
    /// to the owner, and starts draining; any other worker has reported its one
    /// failure or was never asked to, and hands back nothing.
    pub fn report(&mut self, cause: PostErrorInternal) -> (out: Option<PostErrorInternal>)
        ensures
            final(self).phase() == phase_after(old(self).phase(), Incident::Failure),
            out is Some == reported(old(self).phase(), Incident::Failure),
            old(self).phase() == Phase::Running ==> out == Some(cause) && final(self).phase()
                == Phase::Draining,
            old(self).phase() != Phase::Running ==> out is None && final(self).phase() == old(self).phase(),
    {
        if self.phase == Phase::Running {
            self.phase = Phase::Draining;
            Some(cause)
        } else {
            None
        }
    }

    /// Takes what the control channel handed out. `Shutdown` stops the worker
    /// in every phase, as often as it comes. A control channel without an
    /// owner stops it too, since no `Shutdown` can follow; a running worker
    /// reports that as a failure.
    pub fn on_control(&mut self, arrival: Arrival<ControlMsg>) -> (out: Option<PostErrorInternal>)
        ensures
            final(self).phase() == phase_after(old(self).phase(), incident_of(arrival)),
            out is Some == reported(old(self).phase(), incident_of(arrival)),
            match arrival {
                Arrival::Item(ControlMsg::Shutdown) => {
                    &&& final(self).phase() == Phase::Stopped
                    &&& out is None
                },
                Arrival::Empty => {
                    &&& final(self).phase() == old(self).phase()
                    &&& out is None
                },
                Arrival::Closed(gone) => {
                    &&& final(self).phase() == Phase::Stopped
                    &&& out == if old(self).phase() == Phase::Running {
                        Some(PostErrorInternal::ChannelRecv(gone))
                    } else {
                        None
                    }
                },
            },
    {
        match arrival {
            Arrival::Item(ControlMsg::Shutdown) => {
                self.phase = Phase::Stopped;
                None
            },
            Arrival::Empty => None,
            Arrival::Closed(gone) => {
                let out = self.report(PostErrorInternal::from(gone));
                self.phase = Phase::Stopped;
                out
            },
        }
    }

    /// Asks the control channel once and acts on what it hands out. Whatever
    /// that is, the worker keeps its phase or stops, and only a worker that
    /// was running reports a failure.
    pub fn check_control(&mut self, ctrl: &mio_extras::channel::Receiver<ControlMsg>) -> (out:
        Option<PostErrorInternal>)
        ensures
            final(self).phase() == old(self).phase() || final(self).phase() == Phase::Stopped,
            out is Some ==> old(self).phase() == Phase::Running && final(self).phase()
                == Phase::Stopped,
    {
        let arrival = try_recv(ctrl);
        self.on_control(arrival)
    }

    /// Takes a failed read, write, accept or wait, of which `transient` says
    /// whether the socket only had nothing to offer. That is no failure and
    /// changes nothing; anything else is reported as `report` says.
    pub fn on_io_outcome(&mut self, err: std::io::Error, transient: bool) -> (out: Option<
        PostErrorInternal,
    >)
        ensures
            final(self).phase() == phase_after(
                old(self).phase(),
                if transient {
                    Incident::Quiet
                } else {
                    Incident::Failure
                },
            ),
            out is Some == (!transient && reported(old(self).phase(), Incident::Failure)),
            transient || old(self).phase() != Phase::Running ==> out is None && final(self).phase()
                == old(self).phase(),
            !transient && old(self).phase() == Phase::Running ==> out == Some(
                PostErrorInternal::Io(err),
            ) && final(self).phase() == Phase::Draining,
    {
        if transient {
            None
        } else {
            self.report(PostErrorInternal::from(err))
        }
    }

    /// Takes a failed read, write, accept or wait. A socket that would block
    /// changes nothing; any other failure is reported as `report` says.
    pub fn on_io_error(&mut self, err: std::io::Error) -> (out: Option<PostErrorInternal>)
        ensures
            final(self).phase() == phase_after(
                old(self).phase(),
                if is_would_block(err) {
                    Incident::Quiet
                } else {
                    Incident::Failure
                },
            ),
            out == if !is_would_block(err) && old(self).phase() == Phase::Running {
                Some(PostErrorInternal::Io(err))
            } else {
                None
            },
    {
        let transient = would_block(&err);
        self.on_io_outcome(err, transient)
    }

    /// Takes a failed wait for readiness. Without it the worker can neither
    /// serve its socket nor hear its owner, so it stops; a running worker
    /// reports the failure first.
    pub fn on_wait_failed(&mut self, err: std::io::Error) -> (out: Option<PostErrorInternal>)
        ensures
            final(self).phase() == phase_after(old(self).phase(), Incident::WaitFailed),
            out is Some == reported(old(self).phase(), Incident::WaitFailed),
            final(self).phase() == Phase::Stopped,
            out == if old(self).phase() == Phase::Running {
                Some(PostErrorInternal::Io(err))
            } else {
                None
            },
    {
        let out = self.report(PostErrorInternal::from(err));
        self.phase = Phase::Stopped;
        out
    }

    /// Takes the end of the stream: the peer closed the connection, and `eof`
    /// is the error that stands for it. A running worker reports that as a
    /// failure of the socket.
    pub fn on_closed(&mut self, eof: std::io::Error) -> (out: Option<PostErrorInternal>)
        ensures
            final(self).phase() == phase_after(old(self).phase(), Incident::Failure),
            out is Some == reported(old(self).phase(), Incident::Failure),
            old(self).phase() == Phase::Running ==> out == Some(PostErrorInternal::Io(eof))
                && final(self).phase() == Phase::Draining,
            old(self).phase() != Phase::Running ==> out is None && final(self).phase() == old(self).phase(),
    {
        self.report(PostErrorInternal::from(eof))
    }
}

/// `std::io::Error::kind` names the kind of an error; this asks it whether
/// `err` is of the kind `WouldBlock`.
#[verifier::external_body]
fn would_block(err: &std::io::Error) -> (transient: bool)
    ensures
        transient == is_would_block(*err),
{
    matches!(err.kind(), std::io::ErrorKind::WouldBlock)
}

} // verus!
