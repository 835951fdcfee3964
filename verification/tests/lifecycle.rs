use lamb_daemon::lifecycle::{
    retry_delay, CaptureState, DaemonState, ErrorClass, LifecycleState, RetryInstant, RetryPolicy,
    UnixOrigin,
};
use lamb_daemon::error::LambError;
use lamb_daemon::scheduler::{
    AfterSubmit, CaptureAttemptId, EnqueueError, RetryScheduler, RuntimeCaptureFault,
    RuntimeFaultSink, ScheduledOperation, SchedulerStep,
};
use std::time::Duration;

struct SchedulerHarness {
    now_millis: u64,
    submitted: Vec<ScheduledOperation>,
    lane_full: bool,
    lifecycle: LifecycleState,
    scheduler: RetryScheduler,
    timed_waits: u64,
}

impl SchedulerHarness {
    fn new() -> Self {
        Self::build(false)
    }

    fn with_full_lane() -> Self {
        Self::build(true)
    }

    fn build(full: bool) -> Self {
        let mut scheduler = RetryScheduler::new();
        assert!(scheduler.claim_thread());
        Self {
            now_millis: 0,
            submitted: Vec::new(),
            lane_full: full,
            lifecycle: LifecycleState::ready_stopped(None),
            scheduler,
            timed_waits: 0,
        }
    }

    fn run_until_it_waits(&mut self) {
        loop {
            match self.scheduler.next_step(RetryInstant::from_millis(self.now_millis)) {
                SchedulerStep::Exit | SchedulerStep::Wait => return,
                SchedulerStep::WaitMillis(_) => {
                    self.timed_waits += 1;
                    return;
                }
                SchedulerStep::Submit { operation, wake_epoch } => {
                    let answer = if self.lane_full {
                        Err(EnqueueError::Full)
                    } else {
                        self.submitted.push(operation);
                        Ok(())
                    };
                    if self.scheduler.submitted(wake_epoch, answer) == AfterSubmit::Wait {
                        return;
                    }
                }
            }
        }
    }

    fn advance(&mut self, duration: Duration) {
        self.now_millis += u64::try_from(duration.as_millis()).unwrap();
        self.scheduler.notify_lane_available();
        self.run_until_it_waits();
    }

    fn schedule_retry(&mut self, generation: u64, due: RetryInstant) {
        self.lifecycle.generation = generation;
        self.lifecycle.retry_attempt = 1;
        self.lifecycle.next_retry_at = Some(due);
        self.scheduler.schedule_retry(generation, due);
        self.run_until_it_waits();
    }

    fn invalidate(&mut self, generation: u64) {
        self.lifecycle.generation = generation;
        self.scheduler.invalidate(generation);
        self.run_until_it_waits();
    }

    fn release_lane(&mut self) {
        self.lane_full = false;
        self.scheduler.notify_lane_available();
        self.run_until_it_waits();
    }
}

#[test]
fn runtime_fault_job_carries_generation_and_capture_attempt_identity() {
    let mut scheduler = RetryScheduler::new();
    let attempt_id = CaptureAttemptId { raw: 9 };

    scheduler
        .fault_sink(4, attempt_id)
        .notify(&mut scheduler, RuntimeCaptureFault::BackendFault("failed".to_string()));

    assert_eq!(
        scheduler.pending_operation(),
        Some(ScheduledOperation::RuntimeFault {
            generation: 4,
            attempt_id,
            fault: RuntimeCaptureFault::BackendFault("failed".to_string()),
        })
    );
}

#[test]
fn healthy_scheduler_blocks_without_timer_wakeups() {
    let mut harness = SchedulerHarness::new();
    harness.advance(Duration::from_secs(600));
    assert_eq!(harness.submitted, Vec::new());
    assert_eq!(harness.timed_waits, 0);
}

#[test]
fn retry_is_submitted_at_each_capped_deadline() {
    let mut harness = SchedulerHarness::new();
    harness.schedule_retry(7, RetryInstant::from_millis(1_000));
    harness.advance(Duration::from_millis(999));
    assert_eq!(harness.submitted, Vec::new());
    harness.advance(Duration::from_millis(1));
    assert_eq!(harness.submitted, vec![ScheduledOperation::Retry { generation: 7 }]);
}

#[test]
fn invalidated_generation_discards_waking_retry() {
    let mut harness = SchedulerHarness::new();
    harness.schedule_retry(3, RetryInstant::from_millis(1_000));
    harness.invalidate(4);
    harness.advance(Duration::from_secs(2));
    assert!(harness.submitted.is_empty());
}

#[test]
fn current_generation_work_is_accepted_after_invalidation_and_lower_work_is_rejected() {
    let mut harness = SchedulerHarness::new();
    harness.invalidate(4);
    harness.schedule_retry(3, RetryInstant::from_millis(1_000));
    harness.schedule_retry(4, RetryInstant::from_millis(2_000));
    harness.advance(Duration::from_secs(1));
    assert!(harness.submitted.is_empty());
    harness.advance(Duration::from_secs(1));
    assert_eq!(harness.submitted.remove(0), ScheduledOperation::Retry { generation: 4 });
}

#[test]
fn duplicate_pending_work_is_replaced_without_duplicate_admission() {
    let mut harness = SchedulerHarness::new();
    harness.schedule_retry(5, RetryInstant::from_millis(1_000));
    harness.schedule_retry(5, RetryInstant::from_millis(2_000));
    harness.advance(Duration::from_secs(1));
    assert!(harness.submitted.is_empty());
    harness.advance(Duration::from_secs(1));
    assert_eq!(harness.submitted, vec![ScheduledOperation::Retry { generation: 5 }]);
    harness.advance(Duration::from_secs(60));
    assert_eq!(harness.submitted.len(), 1);
}

#[test]
fn a_scheduler_handle_allows_exactly_one_worker_thread() {
    let mut scheduler = RetryScheduler::new();
    assert!(scheduler.claim_thread());
    assert!(!scheduler.claim_thread());
    scheduler.stop();
    assert!(matches!(
        scheduler.next_step(RetryInstant::from_millis(0)),
        SchedulerStep::Exit
    ));

    let mut unstarted = RetryScheduler::new();
    assert!(unstarted.claim_thread());
    unstarted.release_thread();
    assert!(unstarted.claim_thread());
}

#[test]
fn full_lane_retains_job_without_advancing_attempt() {
    let mut harness = SchedulerHarness::with_full_lane();
    harness.schedule_retry(2, RetryInstant::from_millis(1_000));
    harness.advance(Duration::from_secs(1));
    assert_eq!(harness.lifecycle.retry_attempt, 1);
    harness.release_lane();
    assert_eq!(harness.submitted.remove(0), ScheduledOperation::Retry { generation: 2 });
    assert_eq!(harness.lifecycle.retry_attempt, 1);
}

#[test]
fn backoff_sequence_caps_at_sixty_seconds() {
    let actual = (1..=8)
        .map(|attempt| Duration::from_secs(retry_delay(attempt)))
        .collect::<Vec<_>>();
    assert_eq!(
        actual,
        vec![
            Duration::from_secs(1),
            Duration::from_secs(2),
            Duration::from_secs(5),
            Duration::from_secs(10),
            Duration::from_secs(30),
            Duration::from_secs(60),
            Duration::from_secs(60),
            Duration::from_secs(60),
        ]
    );
}

#[test]
fn the_first_delay_stands_for_no_attempt_too() {
    assert_eq!(retry_delay(0), 1);
    assert_eq!(retry_delay(u32::MAX), 60);
}

#[test]
fn transient_attempt_and_clock_overflow_saturate_with_a_consistent_deadline() {
    let mut state = LifecycleState::ready_stopped(None);
    state.retry_attempt = u32::MAX;

    state.mark_transient(
        CaptureState::WaitingForDevice,
        "still unavailable".to_string(),
        RetryInstant::from_millis(u64::MAX - 1),
    );

    assert_eq!(state.retry_attempt, u32::MAX);
    assert_eq!(state.retry_policy, RetryPolicy::BoundedBackoff);
    assert_eq!(state.next_retry_at, Some(RetryInstant::from_millis(u64::MAX)));
}

#[test]
fn permanent_fault_has_manual_policy_without_retry() {
    let mut state = LifecycleState::ready_stopped(None);
    state.mark_permanent("channels conflicts with capturePorts".to_string());

    assert_eq!(state.daemon_state, DaemonState::Degraded);
    assert_eq!(state.capture_state, CaptureState::Faulted);
    assert_eq!(state.error_class, Some(ErrorClass::Permanent));
    assert_eq!(state.retry_policy, RetryPolicy::Manual);
    assert_eq!(state.retry_attempt, 0);
    assert_eq!(state.next_retry_at, None);
}

#[test]
fn successful_capture_resets_transient_retry_state() {
    let mut state = LifecycleState::ready_stopped(None);
    state.mark_transient(
        CaptureState::WaitingForDevice,
        "target missing".to_string(),
        RetryInstant::from_millis(10_000),
    );
    state.mark_running(None, Some("scarlett".to_string()));

    assert_eq!(state.daemon_state, DaemonState::Ready);
    assert_eq!(state.capture_state, CaptureState::Running);
    assert_eq!(state.error_class, None);
    assert_eq!(state.retry_policy, RetryPolicy::NoRetry);
    assert_eq!(state.retry_attempt, 0);
    assert_eq!(state.next_retry_at, None);
}

#[test]
fn transient_fault_uses_bounded_backoff_and_increments_attempts() {
    let mut state = LifecycleState::ready_stopped(Some("studio".to_string()));
    state.mark_transient(
        CaptureState::WaitingForDevice,
        "target missing".to_string(),
        RetryInstant::from_millis(10_000),
    );

    assert_eq!(state.daemon_state, DaemonState::Degraded);
    assert_eq!(state.capture_state, CaptureState::WaitingForDevice);
    assert_eq!(state.error_class, Some(ErrorClass::Transient));
    assert_eq!(state.retry_policy, RetryPolicy::BoundedBackoff);
    assert_eq!(state.retry_attempt, 1);
    assert_eq!(state.next_retry_at, Some(RetryInstant::from_millis(11_000)));
}

#[test]
fn starting_stopped_and_stopping_transitions_clear_retry_state() {
    let mut state = LifecycleState::ready_stopped(None);
    state.mark_transient(
        CaptureState::WaitingForDevice,
        "target missing".to_string(),
        RetryInstant::from_millis(10_000),
    );
    state.mark_starting(Some("studio".to_string()));
    assert_eq!(state.capture_state, CaptureState::Starting);
    assert_eq!(state.active_profile.as_deref(), Some("studio"));
    assert_eq!(state.error_class, None);
    assert_eq!(state.next_retry_at, None);

    state.mark_stopped(Some("field".to_string()));
    assert_eq!(state.daemon_state, DaemonState::Ready);
    assert_eq!(state.capture_state, CaptureState::Stopped);
    assert_eq!(state.active_profile.as_deref(), Some("field"));

    state.mark_stopping();
    assert_eq!(state.daemon_state, DaemonState::Stopping);
    assert_eq!(state.retry_policy, RetryPolicy::NoRetry);
    assert_eq!(state.next_retry_at, None);
}

#[test]
fn status_converts_retry_instant_through_the_clock() {
    let mut state = LifecycleState::ready_stopped(Some("studio".to_string()));
    state.mark_transient(
        CaptureState::WaitingForDevice,
        "target missing".to_string(),
        RetryInstant::from_millis(10_000),
    );

    let status = state.status(&UnixOrigin { seconds: 1_700_000_000, nanos: 0 });
    assert_eq!(status.next_retry_at, Some(1_700_000_011));
    assert_eq!(status.last_error.as_deref(), Some("target missing"));
    assert_eq!(status.active_profile.as_deref(), Some("studio"));
}

#[test]
fn wall_clock_seconds_round_down_and_saturate() {
    let origin = UnixOrigin { seconds: 10, nanos: 999_000_000 };
    assert_eq!(origin.unix_seconds(RetryInstant::from_millis(0)), 10);
    assert_eq!(origin.unix_seconds(RetryInstant::from_millis(1)), 11);
    let late = UnixOrigin { seconds: u64::MAX, nanos: 0 };
    assert_eq!(late.unix_seconds(RetryInstant::from_millis(1_000)), u64::MAX);
}

#[test]
fn operation_generation_overflow_is_a_control_invariant() {
    let mut state = LifecycleState::ready_stopped(None);
    assert_eq!(state.begin_operation().unwrap(), 1);
    state.generation = u64::MAX;

    let error = state.begin_operation().unwrap_err();
    assert_eq!(
        error,
        LambError::ControlInvariant("operation generation overflow".to_string())
    );
}

#[test]
fn stopping_rejects_new_published_operation_generation() {
    let mut state = LifecycleState::ready_stopped(None);
    state.mark_stopping();

    assert!(state.begin_operation().is_err());
    assert_eq!(state.generation, 0);
}

#[test]
fn instants_add_up_to_the_end_of_the_clock() {
    let instant = RetryInstant::from_millis(5);
    assert_eq!(instant.checked_add(7), Some(RetryInstant::from_millis(12)));
    assert_eq!(instant.checked_add(u64::MAX), None);
    assert_eq!(instant.as_millis(), 5);
}

#[test]
fn attempt_identities_follow_their_count_and_end() {
    assert_eq!(CaptureAttemptId::checked_after(41), Some(CaptureAttemptId { raw: 42 }));
    assert_eq!(CaptureAttemptId::checked_after(u64::MAX), None);
}

#[test]
fn sinks_are_told_apart_by_generation_and_attempt() {
    let bound = RuntimeFaultSink::Bound { generation: 3, attempt_id: CaptureAttemptId { raw: 1 } };
    let other = RuntimeFaultSink::Bound { generation: 4, attempt_id: CaptureAttemptId { raw: 1 } };
    assert!(bound.same_binding(&bound));
    assert!(!bound.same_binding(&other));
    let apart = RuntimeFaultSink::new(1);
    assert!(!bound.same_binding(&apart));
    assert!(!apart.same_binding(&bound));
    assert!(apart.same_binding(&apart.clone()));
    assert!(!apart.same_binding(&RuntimeFaultSink::new(2)));
    assert_eq!(bound.attempt_id(), CaptureAttemptId { raw: 1 });
    assert_eq!(apart.attempt_id(), CaptureAttemptId { raw: 0 });
}

#[test]
fn a_sink_apart_from_the_scheduler_leaves_it_alone() {
    let mut scheduler = RetryScheduler::new();
    RuntimeFaultSink::new(1).notify(&mut scheduler, RuntimeCaptureFault::from_text("lost"));
    assert_eq!(scheduler.pending_operation(), None);
}

#[test]
fn a_stopped_scheduler_takes_nothing_and_a_closed_lane_drops_its_work() {
    let mut scheduler = RetryScheduler::new();
    scheduler.schedule_retry(1, RetryInstant::from_millis(0));
    let SchedulerStep::Submit { wake_epoch, .. } =
        scheduler.next_step(RetryInstant::from_millis(0))
    else {
        panic!("a retry that is due is submitted");
    };
    assert_eq!(
        scheduler.submitted(wake_epoch, Err(EnqueueError::Closed)),
        AfterSubmit::Continue
    );
    assert_eq!(scheduler.pending_operation(), None);

    scheduler.stop();
    scheduler.schedule_retry(2, RetryInstant::from_millis(0));
    scheduler.notify_fault(
        2,
        CaptureAttemptId { raw: 1 },
        RuntimeCaptureFault::DeviceDisconnected("gone".to_string()),
    );
    assert!(scheduler.is_stopped());
    assert_eq!(scheduler.pending_operation(), None);
}

#[test]
fn a_wake_up_during_a_full_submission_is_not_lost() {
    let mut scheduler = RetryScheduler::new();
    scheduler.schedule_retry(1, RetryInstant::from_millis(0));
    let SchedulerStep::Submit { wake_epoch, .. } =
        scheduler.next_step(RetryInstant::from_millis(0))
    else {
        panic!("a retry that is due is submitted");
    };
    scheduler.notify_lane_available();
    assert_eq!(
        scheduler.submitted(wake_epoch, Err(EnqueueError::Full)),
        AfterSubmit::Continue
    );
    assert_eq!(
        scheduler.pending_operation(),
        Some(ScheduledOperation::Retry { generation: 1 })
    );
}

#[test]
fn wake_epochs_wrap_round() {
    let mut scheduler = RetryScheduler::new();
    scheduler.wake_epoch = u64::MAX;
    scheduler.notify_lane_available();
    assert_eq!(scheduler.wake_epoch, 0);
}
