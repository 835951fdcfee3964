//! The scheduler of retries and of faults that a running capture reports.
//!
//! It holds at most one pending operation. Work carries the generation of the
//! operation it belongs to, and work of an older generation is dropped.

use crate::lifecycle::RetryInstant;
use vstd::prelude::*;

verus! {

/// The identity of one attempt to capture.
#[derive(Debug, Clone, Copy, PartialEq, Eq, Structural)]
pub struct CaptureAttemptId {
    pub raw: u64,
}

impl CaptureAttemptId {
    /// The identity that follows the given count of identities.
    pub fn checked_after(current: u64) -> (id: Option<CaptureAttemptId>)
        ensures
            id == (if current < u64::MAX {
                Some(CaptureAttemptId { raw: (current + 1) as u64 })
            } else {
                None
            }),
    {
        match current.checked_add(1) {
            Some(raw) => Some(CaptureAttemptId { raw }),
            None => None,
        }
    }
}

/// A fault of a running capture.
#[derive(Debug, Clone, PartialEq, Eq)]
pub enum RuntimeCaptureFault {
    DeviceDisconnected(String),
    BackendFault(String),
}

impl RuntimeCaptureFault {
    /// The text of the fault.
    pub open spec fn text(self) -> Seq<char> {
        match self {
            RuntimeCaptureFault::DeviceDisconnected(message) => message@,
            RuntimeCaptureFault::BackendFault(message) => message@,
        }
    }

    /// A fault of the backend, told by its text.
    pub fn from_text(message: &str) -> (fault: RuntimeCaptureFault)
        ensures
            fault is BackendFault,
            fault.text() == message@,
    {
        RuntimeCaptureFault::BackendFault(message.to_string())
    }

    /// The text of the fault.
    pub fn message(&self) -> (message: String)
        ensures
            message@ == self.text(),
    {
        match self {
            RuntimeCaptureFault::DeviceDisconnected(message) => message.clone(),
            RuntimeCaptureFault::BackendFault(message) => message.clone(),
        }
    }

    /// A second copy of the fault.
    pub fn duplicate(&self) -> (copy: RuntimeCaptureFault)
        ensures
            copy == *self,
    {
        match self {
            RuntimeCaptureFault::DeviceDisconnected(message) => {
                RuntimeCaptureFault::DeviceDisconnected(message.clone())
            },
            RuntimeCaptureFault::BackendFault(message) => {
                RuntimeCaptureFault::BackendFault(message.clone())
            },
        }
    }
}

impl From<String> for RuntimeCaptureFault {
    fn from(message: String) -> (fault: RuntimeCaptureFault) {
        RuntimeCaptureFault::BackendFault(message)
    }
}

impl vstd::std_specs::convert::FromSpecImpl<String> for RuntimeCaptureFault {
    open spec fn obeys_from_spec() -> bool {
        true
    }

    open spec fn from_spec(message: String) -> RuntimeCaptureFault {
        RuntimeCaptureFault::BackendFault(message)
    }
}

/// What the scheduler hands to the operation worker.
#[derive(Debug, Clone, PartialEq, Eq)]
pub enum ScheduledOperation {
    Retry { generation: u64 },
    RuntimeFault { generation: u64, attempt_id: CaptureAttemptId, fault: RuntimeCaptureFault },
}

impl ScheduledOperation {
    /// The generation that the operation belongs to.
    pub open spec fn belongs_to(self) -> u64 {
        match self {
            ScheduledOperation::Retry { generation } => generation,
            ScheduledOperation::RuntimeFault { generation, .. } => generation,
        }
    }

    /// The generation that the operation belongs to.
    pub fn generation(&self) -> (generation: u64)
        ensures
            generation == self.belongs_to(),
    {
        match self {
            ScheduledOperation::Retry { generation } => *generation,
            ScheduledOperation::RuntimeFault { generation, .. } => *generation,
        }
    }

    /// A second copy of the operation.
    pub fn duplicate(&self) -> (copy: ScheduledOperation)
        ensures
            copy == *self,
    {
        match self {
            ScheduledOperation::Retry { generation } => {
                ScheduledOperation::Retry { generation: *generation }
            },
            ScheduledOperation::RuntimeFault { generation, attempt_id, fault } => {
                ScheduledOperation::RuntimeFault {
                    generation: *generation,
                    attempt_id: *attempt_id,
                    fault: fault.duplicate(),
                }
            },
        }
    }
}

/// What waits in the scheduler: a retry with its deadline, or something to be
/// handed on at once.
#[derive(Debug, Clone, PartialEq, Eq)]
pub enum PendingOperation {
    Retry { generation: u64, due: RetryInstant },
    Immediate(ScheduledOperation),
}

impl PendingOperation {
    /// The generation that the pending work belongs to.
    pub open spec fn belongs_to(self) -> u64 {
        match self {
            PendingOperation::Retry { generation, .. } => generation,
            PendingOperation::Immediate(operation) => operation.belongs_to(),
        }
    }

    /// The operation that the pending work becomes.
    pub open spec fn becomes(self) -> ScheduledOperation {
        match self {
            PendingOperation::Retry { generation, .. } => ScheduledOperation::Retry { generation },
            PendingOperation::Immediate(operation) => operation,
        }
    }

    /// The generation that the pending work belongs to.
    pub fn generation(&self) -> (generation: u64)
        ensures
            generation == self.belongs_to(),
    {
        match self {
            PendingOperation::Retry { generation, .. } => *generation,
            PendingOperation::Immediate(operation) => operation.generation(),
        }
    }

    /// The operation that the pending work becomes.
    pub fn operation(&self) -> (operation: ScheduledOperation)
        ensures
            operation == self.becomes(),
    {
        match self {
            PendingOperation::Retry { generation, .. } => {
                ScheduledOperation::Retry { generation: *generation }
            },
            PendingOperation::Immediate(operation) => operation.duplicate(),
        }
    }
}

/// Where a capture reports its faults: to a place apart from the scheduler, which
/// its identity tells from all others, or to the scheduler under the generation and
/// attempt that the capture belongs to.
#[derive(Debug, Clone, Copy, PartialEq, Eq, Structural)]
pub enum RuntimeFaultSink {
    Apart { identity: u64 },
    Bound { generation: u64, attempt_id: CaptureAttemptId },
}

impl RuntimeFaultSink {
    /// A sink apart from the scheduler. Whoever makes it gives it an identity that
    /// no other has.
    pub fn new(identity: u64) -> (sink: RuntimeFaultSink)
        ensures
            sink == (RuntimeFaultSink::Apart { identity }),
    {
        RuntimeFaultSink::Apart { identity }
    }

    /// The attempt that reports here; a sink apart from the scheduler has none of
    /// its own and answers zero.
    pub fn attempt_id(&self) -> (id: CaptureAttemptId)
        ensures
            id == (match *self {
                RuntimeFaultSink::Apart { .. } => CaptureAttemptId { raw: 0 },
                RuntimeFaultSink::Bound { attempt_id, .. } => attempt_id,
            }),
    {
        match self {
            RuntimeFaultSink::Apart { .. } => CaptureAttemptId { raw: 0 },
            RuntimeFaultSink::Bound { attempt_id, .. } => *attempt_id,
        }
    }

    /// Reports a fault.
    pub fn notify(&self, scheduler: &mut RetryScheduler, fault: RuntimeCaptureFault)
        ensures
            *final(scheduler) == old(scheduler).notified(*self, fault),
    {
        match self {
            RuntimeFaultSink::Apart { .. } => {},
            RuntimeFaultSink::Bound { generation, attempt_id } => {
                scheduler.notify_fault(*generation, *attempt_id, fault);
            },
        }
    }

    /// Whether two sinks report to the same place under the same names.
    pub fn same_binding(&self, other: &RuntimeFaultSink) -> (same: bool)
        ensures
            same == (*self == *other),
    {
        match (self, other) {
            (
                RuntimeFaultSink::Apart { identity },
                RuntimeFaultSink::Apart { identity: other_identity },
            ) => *identity == *other_identity,
            (
                RuntimeFaultSink::Bound { generation, attempt_id },
                RuntimeFaultSink::Bound {
                    generation: other_generation,
                    attempt_id: other_attempt_id,
                },
            ) => *generation == *other_generation && attempt_id.raw == other_attempt_id.raw,
            _ => false,
        }
    }
}

/// Why the operation lane did not take a job.
#[derive(Debug, Clone, Copy, PartialEq, Eq, Structural)]
pub enum EnqueueError {
    Full,
    Closed,
}

/// What the scheduler thread does next.
#[derive(Debug, Clone, PartialEq, Eq)]
pub enum SchedulerStep {
    /// The scheduler was stopped: the thread ends.
    Exit,
    /// Nothing is due and nothing will be: wait for a wake-up.
    Wait,
    /// Wait for a wake-up, but no longer than this many milliseconds.
    WaitMillis(u64),
    /// Hand the operation to the lane.
    Submit { operation: ScheduledOperation, wake_epoch: u64 },
}

/// What the scheduler thread does after the lane answered.
#[derive(Debug, Clone, Copy, PartialEq, Eq, Structural)]
pub enum AfterSubmit {
    Continue,
    Wait,
}

/// The state of the scheduler.
#[derive(Debug, Clone, PartialEq, Eq)]
pub struct RetryScheduler {
    pub generation: u64,
    pub pending: Option<PendingOperation>,
    pub stopped: bool,
    pub wake_epoch: u64,
    pub thread_spawned: bool,
}

/// The wake-up counter after one more wake-up: it wraps round.
pub open spec fn next_wake(epoch: u64) -> u64 {
    if epoch == u64::MAX {
        0
    } else {
        (epoch + 1) as u64
    }
}

impl RetryScheduler {
    /// Whether work of the given generation is taken.
    pub open spec fn takes(self, generation: u64) -> bool {
        !self.stopped && generation >= self.generation
    }

    /// The scheduler after it was asked to hold the given work.
    pub open spec fn holding(self, work: PendingOperation) -> RetryScheduler {
        if self.takes(work.belongs_to()) {
            RetryScheduler {
                generation: work.belongs_to(),
                pending: Some(work),
                wake_epoch: next_wake(self.wake_epoch),
                ..self
            }
        } else {
            self
        }
    }

    /// The scheduler after a sink reported a fault.
    pub open spec fn notified(
        self,
        sink: RuntimeFaultSink,
        fault: RuntimeCaptureFault,
    ) -> RetryScheduler {
        match sink {
            RuntimeFaultSink::Apart { .. } => self,
            RuntimeFaultSink::Bound { generation, attempt_id } => self.holding(
                PendingOperation::Immediate(
                    ScheduledOperation::RuntimeFault { generation, attempt_id, fault },
                ),
            ),
        }
    }

    /// The scheduler after all work before the given generation was dropped.
    pub open spec fn invalidated(self, generation: u64) -> RetryScheduler {
        if generation < self.generation {
            self
        } else {
            RetryScheduler {
                generation,
                pending: None,
                wake_epoch: next_wake(self.wake_epoch),
                ..self
            }
        }
    }

    /// The scheduler after it was told to end.
    pub open spec fn ended(self) -> RetryScheduler {
        RetryScheduler {
            stopped: true,
            pending: None,
            wake_epoch: next_wake(self.wake_epoch),
            ..self
        }
    }

    /// Pending work belongs to the current generation, and a scheduler that was
    /// stopped holds none.
    pub open spec fn well_formed(self) -> bool {
        &&& self.pending is Some ==> self.pending->0.belongs_to() == self.generation
        &&& self.stopped ==> self.pending is None
    }

    /// Whether pending work is to be handed on now.
    pub open spec fn is_due(self, now: RetryInstant) -> bool {
        match self.pending {
            Some(PendingOperation::Retry { due, .. }) => now.millis >= due.millis,
            Some(PendingOperation::Immediate(_)) => true,
            None => false,
        }
    }

    /// A scheduler with nothing to do.
    pub fn new() -> (scheduler: RetryScheduler)
        ensures
            scheduler == (RetryScheduler {
                generation: 0,
                pending: None,
                stopped: false,
                wake_epoch: 0,
                thread_spawned: false,
            }),
            scheduler.well_formed(),
    {
        RetryScheduler {
            generation: 0,
            pending: None,
            stopped: false,
            wake_epoch: 0,
            thread_spawned: false,
        }
    }

    fn wake(&mut self)
        ensures
            *final(self) == (RetryScheduler {
                wake_epoch: next_wake(old(self).wake_epoch),
                ..*old(self)
            }),
    {
        self.wake_epoch = self.wake_epoch.wrapping_add(1);
    }

    /// Plans a retry. Work of an older generation, and any work after the
    /// scheduler was stopped, is ignored.
    pub fn schedule_retry(&mut self, generation: u64, due: RetryInstant)
        ensures
            *final(self) == old(self).holding(PendingOperation::Retry { generation, due }),
    {
        if self.stopped || generation < self.generation {
            return ;
        }
        self.generation = generation;
        self.pending = Some(PendingOperation::Retry { generation, due });
        self.wake();
    }

    /// Takes the fault of a running capture, to be handed on at once. It is
    /// ignored as a retry would be.
    pub fn notify_fault(
        &mut self,
        generation: u64,
        attempt_id: CaptureAttemptId,
        fault: RuntimeCaptureFault,
    )
        ensures
            *final(self) == old(self).holding(
                PendingOperation::Immediate(
                    ScheduledOperation::RuntimeFault { generation, attempt_id, fault },
                ),
            ),
    {
        if self.stopped || generation < self.generation {
            return ;
        }
        self.generation = generation;
        self.pending = Some(
            PendingOperation::Immediate(
                ScheduledOperation::RuntimeFault { generation, attempt_id, fault },
            ),
        );
        self.wake();
    }

    /// The sink under which a capture of the given generation and attempt
    /// reports its faults.
    pub fn fault_sink(&self, generation: u64, attempt_id: CaptureAttemptId) -> (sink:
        RuntimeFaultSink)
        ensures
            sink == (RuntimeFaultSink::Bound { generation, attempt_id }),
    {
        RuntimeFaultSink::Bound { generation, attempt_id }
    }

    /// Drops pending work and moves to the given generation, unless that is an
    /// older one.
    pub fn invalidate(&mut self, generation: u64)
        ensures
            *final(self) == old(self).invalidated(generation),
    {
        if generation < self.generation {
            return ;
        }
        self.generation = generation;
        self.pending = None;
        self.wake();
    }

    /// Tells the scheduler thread that the lane may take work again.
    pub fn notify_lane_available(&mut self)
        ensures
            *final(self) == (RetryScheduler {
                wake_epoch: next_wake(old(self).wake_epoch),
                ..*old(self)
            }),
    {
        self.wake();
    }

    /// Ends the scheduler: nothing is pending and nothing is taken any more.
    pub fn stop(&mut self)
        ensures
            *final(self) == old(self).ended(),
    {
        self.stopped = true;
        self.pending = None;
        self.wake();
    }

    /// Whether the scheduler was stopped.
    pub fn is_stopped(&self) -> (stopped: bool)
        ensures
            stopped == self.stopped,
    {
        self.stopped
    }

    /// The operation that pending work becomes.
    pub fn pending_operation(&self) -> (operation: Option<ScheduledOperation>)
        ensures
            operation == (match self.pending {
                Some(pending) => Some(pending.becomes()),
                None => None,
            }),
    {
        match &self.pending {
            Some(pending) => Some(pending.operation()),
            None => None,
        }
    }

    /// Claims the one scheduler thread; answers whether it was free.
    pub fn claim_thread(&mut self) -> (claimed: bool)
        ensures
            claimed == !old(self).thread_spawned,
            *final(self) == (RetryScheduler { thread_spawned: true, ..*old(self) }),
    {
        let claimed = !self.thread_spawned;
        self.thread_spawned = true;
        claimed
    }

    /// Gives the claim back where the thread could not be started.
    pub fn release_thread(&mut self)
        ensures
            *final(self) == (RetryScheduler { thread_spawned: false, ..*old(self) }),
    {
        self.thread_spawned = false;
    }

    /// Decides what the scheduler thread does at `now`. Pending work of another
    /// generation is dropped.
    pub fn next_step(&mut self, now: RetryInstant) -> (step: SchedulerStep)
        ensures
            *final(self) == (if !old(self).stopped && old(self).pending is Some
                && old(self).pending->0.belongs_to() != old(self).generation {
                RetryScheduler { pending: None, ..*old(self) }
            } else {
                *old(self)
            }),
            step == (if old(self).stopped {
                SchedulerStep::Exit
            } else if old(self).pending is None || old(self).pending->0.belongs_to() != old(
                self,
            ).generation {
                SchedulerStep::Wait
            } else if old(self).is_due(now) {
                SchedulerStep::Submit {
                    operation: old(self).pending->0.becomes(),
                    wake_epoch: old(self).wake_epoch,
                }
            } else {
                SchedulerStep::WaitMillis((old(self).pending->0->due.millis - now.millis) as u64)
            }),
    {
        if self.stopped {
            return SchedulerStep::Exit;
        }
        let (generation, due) = match &self.pending {
            None => {
                return SchedulerStep::Wait;
            },
            Some(PendingOperation::Retry { generation, due }) => (*generation, Some(*due)),
            Some(PendingOperation::Immediate(operation)) => (operation.generation(), None),
        };
        if generation != self.generation {
            self.pending = None;
            return SchedulerStep::Wait;
        }
        if let Some(due) = due {
            if now.millis < due.millis {
                return SchedulerStep::WaitMillis(due.millis - now.millis);
            }
        }
        match &self.pending {
            Some(pending) => SchedulerStep::Submit {
                operation: pending.operation(),
                wake_epoch: self.wake_epoch,
            },
            None => SchedulerStep::Wait,
        }
    }

    /// Takes the lane's answer to a submission: work that was taken, or that a
    /// closed lane will never take, is pending no more; work that met a full
    /// lane stays, and waits for the next wake-up unless one came meanwhile.
    pub fn submitted(&mut self, wake_epoch: u64, answer: Result<(), EnqueueError>) -> (next:
        AfterSubmit)
        ensures
            answer == Err::<(), EnqueueError>(EnqueueError::Full) ==> *final(self) == *old(self),
            answer != Err::<(), EnqueueError>(EnqueueError::Full) ==> *final(self) == (
            RetryScheduler { pending: None, ..*old(self) }),
            next == (if answer == Err::<(), EnqueueError>(EnqueueError::Full) && old(self).wake_epoch
                == wake_epoch {
                AfterSubmit::Wait
            } else {
                AfterSubmit::Continue
            }),
    {
        match answer {
            Err(EnqueueError::Full) => {
                if self.wake_epoch == wake_epoch {
                    AfterSubmit::Wait
                } else {
                    AfterSubmit::Continue
                }
            },
            Ok(()) | Err(EnqueueError::Closed) => {
                self.pending = None;
                AfterSubmit::Continue
            },
        }
    }
}

/// Everything that can be asked of a scheduler keeps pending work in the current
/// generation, keeps a stopped scheduler empty, and never moves it back to an
/// older generation.
pub proof fn requests_keep_the_scheduler_in_order(
    scheduler: RetryScheduler,
    work: PendingOperation,
    sink: RuntimeFaultSink,
    fault: RuntimeCaptureFault,
    generation: u64,
)
    requires
        scheduler.well_formed(),
    ensures
        scheduler.holding(work).well_formed(),
        scheduler.notified(sink, fault).well_formed(),
        scheduler.invalidated(generation).well_formed(),
        scheduler.ended().well_formed(),
        scheduler.holding(work).generation >= scheduler.generation,
        scheduler.notified(sink, fault).generation >= scheduler.generation,
        scheduler.invalidated(generation).generation >= scheduler.generation,
        scheduler.ended().generation == scheduler.generation,
{
}

/// Work of an older generation is never taken, whatever it is.
pub proof fn older_work_is_ignored(
    scheduler: RetryScheduler,
    work: PendingOperation,
    generation: u64,
)
    requires
        generation >= scheduler.generation,
        work.belongs_to() < generation,
    ensures
        scheduler.invalidated(generation).holding(work) == scheduler.invalidated(generation),
{
}

/// Once stopped, a scheduler stays stopped and empty whatever is asked of it.
pub proof fn a_stop_is_final(
    scheduler: RetryScheduler,
    work: PendingOperation,
    sink: RuntimeFaultSink,
    fault: RuntimeCaptureFault,
    generation: u64,
)
    ensures
        scheduler.ended().holding(work) == scheduler.ended(),
        scheduler.ended().notified(sink, fault) == scheduler.ended(),
        scheduler.ended().invalidated(generation).stopped,
        scheduler.ended().invalidated(generation).pending is None,
{
}

/// Of two pieces of work of one generation the later one takes the place of the
/// earlier one: they are never both handed on.
pub proof fn later_work_replaces_earlier(
    scheduler: RetryScheduler,
    first: PendingOperation,
    second: PendingOperation,
)
    requires
        scheduler.takes(first.belongs_to()),
        first.belongs_to() == second.belongs_to(),
    ensures
        scheduler.holding(first).holding(second).pending == Some(second),
{
}

} // verus!
