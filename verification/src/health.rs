//! The health record of a capture: the first fault it met, and whether and
//! where that fault was reported.

use crate::scheduler::{CaptureAttemptId, RetryScheduler, RuntimeCaptureFault, RuntimeFaultSink};
use vstd::prelude::*;

verus! {

/// The health of one capture. A fault is kept from the moment it is met; it is
/// reported once the record is armed, and once per place it reports to.
#[derive(Debug, Clone, PartialEq, Eq)]
pub struct PipeWireHealth {
    pub sink: RuntimeFaultSink,
    pub fault: Option<RuntimeCaptureFault>,
    pub armed: bool,
    pub reported: bool,
}

impl PipeWireHealth {
    /// The attempt whose health this is, where it reports to the scheduler.
    pub open spec fn attempt(self) -> Option<CaptureAttemptId> {
        match self.sink {
            RuntimeFaultSink::Apart { .. } => None,
            RuntimeFaultSink::Bound { attempt_id, .. } => Some(attempt_id),
        }
    }

    /// Whether a fault is kept that was not reported yet.
    pub open spec fn owes_report(self) -> bool {
        self.fault is Some && !self.reported
    }

    /// The record once it is armed.
    pub open spec fn armed(self) -> PipeWireHealth {
        PipeWireHealth { armed: true, reported: self.reported || self.fault is Some, ..self }
    }

    /// The scheduler once this record is armed.
    pub open spec fn armed_scheduler(self, scheduler: RetryScheduler) -> RetryScheduler {
        if self.owes_report() {
            scheduler.notified(self.sink, self.fault->0)
        } else {
            scheduler
        }
    }

    /// The record once it reports to the given place: a fault that only another
    /// place heard of is owed again.
    pub open spec fn bound_to(self, sink: RuntimeFaultSink) -> PipeWireHealth {
        if self.sink == sink {
            self
        } else {
            PipeWireHealth { sink, reported: false, ..self }
        }
    }

    /// The record after the given fault was met: only the first one is kept.
    pub open spec fn with_fault(self, fault: RuntimeCaptureFault) -> PipeWireHealth {
        if self.fault is Some {
            self
        } else {
            PipeWireHealth { fault: Some(fault), reported: self.armed, ..self }
        }
    }

    /// A healthy record that waits to be armed.
    pub fn unarmed_with_fault_sink(sink: RuntimeFaultSink) -> (health: PipeWireHealth)
        ensures
            health == (PipeWireHealth { sink, fault: None, armed: false, reported: false }),
    {
        PipeWireHealth { sink, fault: None, armed: false, reported: false }
    }

    /// A healthy record that reports at once.
    pub fn with_fault_sink(sink: RuntimeFaultSink) -> (health: PipeWireHealth)
        ensures
            health == (PipeWireHealth { sink, fault: None, armed: true, reported: false }),
    {
        PipeWireHealth { sink, fault: None, armed: true, reported: false }
    }

    /// The attempt whose health this is, where it reports to the scheduler.
    pub fn attempt_id(&self) -> (id: Option<CaptureAttemptId>)
        ensures
            id == self.attempt(),
    {
        match self.sink {
            RuntimeFaultSink::Apart { .. } => None,
            RuntimeFaultSink::Bound { attempt_id, .. } => Some(attempt_id),
        }
    }

    /// Keeps a fault, and reports it where the record is armed. Answers whether
    /// it was the first.
    pub fn record_fatal(&mut self, scheduler: &mut RetryScheduler, fault: RuntimeCaptureFault) -> (
        first: bool)
        ensures
            first == (old(self).fault is None),
            *final(self) == old(self).with_fault(fault),
            *final(scheduler) == (if old(self).fault is None && old(self).armed {
                old(scheduler).notified(old(self).sink, fault)
            } else {
                *old(scheduler)
            }),
    {
        if self.fault.is_some() {
            return false;
        }
        if self.armed {
            self.sink.notify(scheduler, fault.duplicate());
            self.reported = true;
        } else {
            self.reported = false;
        }
        self.fault = Some(fault);
        true
    }

    /// Arms the record: a fault that was kept so far is reported now.
    pub fn arm(&mut self, scheduler: &mut RetryScheduler)
        ensures
            *final(self) == old(self).armed(),
            *final(scheduler) == old(self).armed_scheduler(*old(scheduler)),
    {
        self.armed = true;
        match &self.fault {
            Some(fault) => {
                if !self.reported {
                    self.sink.notify(scheduler, fault.duplicate());
                    self.reported = true;
                }
            },
            None => {},
        }
    }

    /// Reports to another place from now on, and arms the record.
    pub fn rebind_and_arm(&mut self, scheduler: &mut RetryScheduler, sink: RuntimeFaultSink)
        ensures
            *final(self) == old(self).bound_to(sink).armed(),
            *final(scheduler) == old(self).bound_to(sink).armed_scheduler(*old(scheduler)),
    {
        if !self.sink.same_binding(&sink) {
            self.sink = sink;
            self.reported = false;
        }
        self.arm(scheduler);
    }
}

/// A fault that was reported is not reported again, however often the record is
/// armed or bound to the place it reports to already.
pub proof fn a_fault_is_reported_once(health: PipeWireHealth, scheduler: RetryScheduler)
    ensures
        ({
            let after = health.armed_scheduler(scheduler);
            &&& health.armed().armed_scheduler(after) == after
            &&& health.armed().bound_to(health.sink).armed_scheduler(after) == after
        }),
{
}

/// Only the first fault of a capture is kept; a later one changes nothing.
pub proof fn the_first_fault_stays(
    health: PipeWireHealth,
    first: RuntimeCaptureFault,
    second: RuntimeCaptureFault,
)
    ensures
        health.with_fault(first).with_fault(second) == health.with_fault(first),
{
}

} // verus!
