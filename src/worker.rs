use vstd::prelude::*;

use crate::error::SqipError;
use crate::message::{SqipCreateMessage, SqipDoneMessage};

verus! {

/// The number of unacknowledged deliveries the worker asks the broker for.
pub const PREFETCH_COUNT: u16 = 1;

/// Where the worker stands in the life of its connection.
#[derive(Debug, Clone, Copy, PartialEq, Eq, Structural)]
pub enum Phase {
    /// Connected, with no delivery in hand.
    Idle,
    /// The job of delivery `tag` is being worked on.
    Processing { tag: u64 },
    /// The completion message of delivery `tag` is being published.
    Publishing { tag: u64 },
    /// Delivery `tag` is being acknowledged.
    Acknowledging { tag: u64 },
    /// The loop has ended for good.
    Stopped { error: SqipError },
}

/// What happened since the worker's last decision.
#[derive(Debug, Clone, Copy, PartialEq, Eq, Structural)]
pub enum WorkerEvent {
    /// A message arrived; `well_formed` tells whether its body is a valid job.
    Delivered { tag: u64, well_formed: bool },
    /// The current job produced its completion message.
    JobDone,
    /// The current job failed.
    JobFailed { error: SqipError },
    /// Publishing the completion message succeeded or failed.
    Published { ok: bool },
    /// Acknowledging the delivery succeeded or failed.
    Acked { ok: bool },
    /// The consumer stream ended or reported something other than a delivery.
    ConsumerEnded,
}

/// What the worker asks its driver to do next.
#[derive(Debug, Clone, Copy, PartialEq, Eq, Structural)]
pub enum WorkerAction {
    /// Run the job of delivery `tag`.
    Process { tag: u64 },
    /// Publish the completion message of the current job.
    Publish,
    /// Acknowledge delivery `tag`.
    Ack { tag: u64 },
    /// Hand delivery `tag` back unacknowledged, for the broker to deliver again.
    Release { tag: u64 },
    /// Wait for the next delivery.
    Wait,
    /// End the loop with `error`.
    Halt { error: SqipError },
}

/// The delivery that the worker holds and has not yet acknowledged or handed back.
pub open spec fn in_flight(p: Phase) -> Option<u64> {
    match p {
        Phase::Processing { tag } => Some(tag),
        Phase::Publishing { tag } => Some(tag),
        Phase::Acknowledging { tag } => Some(tag),
        _ => None,
    }
}

pub open spec fn halt(error: SqipError) -> (Phase, WorkerAction) {
    (Phase::Stopped { error }, WorkerAction::Halt { error })
}

/// The worker's decision table: the next phase and the action, from the phase and the event.
pub open spec fn transition(p: Phase, e: WorkerEvent) -> (Phase, WorkerAction) {
    match (p, e) {
        (Phase::Stopped { error }, _) => halt(error),
        (_, WorkerEvent::ConsumerEnded) => halt(SqipError::TransportFatal),
        (Phase::Idle, WorkerEvent::Delivered { tag, well_formed }) => if well_formed {
            (Phase::Processing { tag }, WorkerAction::Process { tag })
        } else {
            halt(SqipError::MalformedJob)
        },
        (Phase::Processing { tag }, WorkerEvent::JobDone) => (
            Phase::Publishing { tag },
            WorkerAction::Publish,
        ),
        (Phase::Processing { tag }, WorkerEvent::JobFailed { error }) => if error.spec_is_job_local() {
            (Phase::Idle, WorkerAction::Release { tag })
        } else {
            halt(error)
        },
        (Phase::Publishing { tag }, WorkerEvent::Published { ok }) => if ok {
            (Phase::Acknowledging { tag }, WorkerAction::Ack { tag })
        } else {
            halt(SqipError::TransportFatal)
        },
        (Phase::Acknowledging { tag }, WorkerEvent::Acked { ok }) => if ok {
            (Phase::Idle, WorkerAction::Wait)
        } else {
            halt(SqipError::TransportFatal)
        },
        _ => halt(SqipError::TransportFatal),
    }
}

/// The event for a delivery whose body parsed to `job`, or did not parse (`None`).
pub fn delivery_event(tag: u64, job: Option<&SqipCreateMessage>) -> (r: WorkerEvent)
    ensures
        r == (WorkerEvent::Delivered {
            tag,
            well_formed: match job {
                Some(j) => j@.valid(),
                None => false,
            },
        }),
{
    let well_formed = match job {
        Some(j) => j.is_valid(),
        None => false,
    };
    WorkerEvent::Delivered { tag, well_formed }
}

/// The event for the end of the current job.
pub fn job_event(r: &Result<SqipDoneMessage, SqipError>) -> (e: WorkerEvent)
    ensures
        e == match r {
            Ok(_) => WorkerEvent::JobDone,
            Err(error) => WorkerEvent::JobFailed { error: *error },
        },
{
    match r {
        Ok(_) => WorkerEvent::JobDone,
        Err(error) => WorkerEvent::JobFailed { error: *error },
    }
}

/// The consuming side of the worker: decides, event by event, what to do.
pub struct Worker {
    phase: Phase,
}

impl Worker {
    pub closed spec fn spec_phase(&self) -> Phase {
        self.phase
    }

    /// A worker that is connected and holds no delivery.
    pub fn new() -> (r: Self)
        ensures
            r.spec_phase() == Phase::Idle,
    {
        Worker { phase: Phase::Idle }
    }

    pub fn phase(&self) -> (r: Phase)
        ensures
            r == self.spec_phase(),
    {
        self.phase
    }

    /// The delivery currently held, if any.
    pub fn unacknowledged(&self) -> (r: Option<u64>)
        ensures
            r == in_flight(self.spec_phase()),
    {
        match self.phase {
            Phase::Processing { tag } | Phase::Publishing { tag } | Phase::Acknowledging { tag } =>
                Some(tag),
            _ => None,
        }
    }

    /// Whether the loop has ended.
    pub fn is_stopped(&self) -> (r: bool)
        ensures
            r == self.spec_phase() is Stopped,
    {
        match self.phase {
            Phase::Stopped { .. } => true,
            _ => false,
        }
    }

    /// Takes in one event and returns the action it calls for.
    pub fn step(&mut self, e: WorkerEvent) -> (r: WorkerAction)
        ensures
            (final(self).spec_phase(), r) == transition(old(self).spec_phase(), e),
    {
        let (next, action) = match (self.phase, e) {
            (Phase::Stopped { error }, _) => (Phase::Stopped { error }, WorkerAction::Halt { error }),
            (_, WorkerEvent::ConsumerEnded) => Self::halting(SqipError::TransportFatal),
            (Phase::Idle, WorkerEvent::Delivered { tag, well_formed }) => {
                if well_formed {
                    (Phase::Processing { tag }, WorkerAction::Process { tag })
                } else {
                    Self::halting(SqipError::MalformedJob)
                }
            },
            (Phase::Processing { tag }, WorkerEvent::JobDone) => (
                Phase::Publishing { tag },
                WorkerAction::Publish,
            ),
            (Phase::Processing { tag }, WorkerEvent::JobFailed { error }) => {
                if error.is_job_local() {
                    (Phase::Idle, WorkerAction::Release { tag })
                } else {
                    Self::halting(error)
                }
            },
            (Phase::Publishing { tag }, WorkerEvent::Published { ok }) => {
                if ok {
                    (Phase::Acknowledging { tag }, WorkerAction::Ack { tag })
                } else {
                    Self::halting(SqipError::TransportFatal)
                }
            },
            (Phase::Acknowledging { tag }, WorkerEvent::Acked { ok }) => {
                if ok {
                    (Phase::Idle, WorkerAction::Wait)
                } else {
                    Self::halting(SqipError::TransportFatal)
                }
            },
            _ => Self::halting(SqipError::TransportFatal),
        };
        self.phase = next;
        action
    }

    fn halting(error: SqipError) -> (r: (Phase, WorkerAction))
        ensures
            r == halt(error),
    {
        (Phase::Stopped { error }, WorkerAction::Halt { error })
    }
}

/// At most one delivery is held at a time: a job is started only when no delivery
/// is held, the started delivery is then the one held, and a delivery that arrives
/// while another is held is never worked on.
pub proof fn lemma_one_delivery_in_flight(p: Phase, e: WorkerEvent)
    ensures
        transition(p, e).1 is Process ==> in_flight(p) is None && e is Delivered
            && in_flight(transition(p, e).0) == Some(e->Delivered_tag),
        in_flight(p) is Some && e is Delivered ==> !(transition(p, e).1 is Process)
            && transition(p, e).0 is Stopped,
{
}

/// A job that fails on its own account is handed back unacknowledged, and the worker
/// stays up: it is idle again and takes on the next valid delivery.
pub proof fn lemma_job_failure_keeps_running(tag: u64, error: SqipError, next: u64)
    requires
        error.spec_is_job_local(),
    ensures
        transition(Phase::Processing { tag }, WorkerEvent::JobFailed { error }) == (
            Phase::Idle,
            WorkerAction::Release { tag },
        ),
        transition(Phase::Idle, WorkerEvent::Delivered { tag: next, well_formed: true }) == (
            Phase::Processing { tag: next },
            WorkerAction::Process { tag: next },
        ),
{
}

/// A failed attempt leaves no trace: after a delivery whose job fails on its own
/// account, the worker is back in the phase it started from, so a redelivery of the
/// same job is handled exactly as a first delivery would be, through publishing and
/// acknowledging on success.
pub proof fn lemma_redelivery_as_first(first: u64, error: SqipError, again: u64)
    requires
        error.spec_is_job_local(),
    ensures
        transition(
            transition(Phase::Idle, WorkerEvent::Delivered { tag: first, well_formed: true }).0,
            WorkerEvent::JobFailed { error },
        ).0 == Phase::Idle,
        ({
            let s1 = transition(Phase::Idle, WorkerEvent::Delivered { tag: again, well_formed: true });
            let s2 = transition(s1.0, WorkerEvent::JobDone);
            let s3 = transition(s2.0, WorkerEvent::Published { ok: true });
            let s4 = transition(s3.0, WorkerEvent::Acked { ok: true });
            s1.1 == WorkerAction::Process { tag: again } && s2.1 == WorkerAction::Publish && s3.1
                == WorkerAction::Ack { tag: again } && s4 == (Phase::Idle, WorkerAction::Wait)
        }),
{
}

/// A message body that is not a valid job stops the loop for good.
pub proof fn lemma_malformed_job_halts(tag: u64, later: WorkerEvent)
    ensures
        transition(Phase::Idle, WorkerEvent::Delivered { tag, well_formed: false }) == halt(
            SqipError::MalformedJob,
        ),
        transition(halt(SqipError::MalformedJob).0, later) == halt(SqipError::MalformedJob),
{
}

} // verus!
