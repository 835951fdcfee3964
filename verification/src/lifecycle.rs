//! The lifecycle of the daemon: what it is doing, what went wrong last, and
//! when it tries again.

use crate::error::{ErrorView, LambError};
use crate::text::{copy_text, text_of};
use vstd::prelude::*;

verus! {

/// Whether the daemon as a whole is in order.
#[derive(Debug, Clone, Copy, PartialEq, Eq, Structural)]
pub enum DaemonState {
    Ready,
    Degraded,
    Stopping,
}

/// What capture is doing.
#[derive(Debug, Clone, Copy, PartialEq, Eq, Structural)]
pub enum CaptureState {
    Stopped,
    Starting,
    Running,
    WaitingForDevice,
    Faulted,
}

/// How far an error reaches: a transient one may pass, a permanent one waits for
/// an operator, a fatal one ends the daemon.
#[derive(Debug, Clone, Copy, PartialEq, Eq, Structural)]
pub enum ErrorClass {
    Transient,
    Permanent,
    Fatal,
}

/// Who brings capture back after an error.
#[derive(Debug, Clone, Copy, PartialEq, Eq, Structural)]
pub enum RetryPolicy {
    NoRetry,
    Manual,
    BoundedBackoff,
}

/// A point in time on the daemon's own clock, in milliseconds since it started.
#[derive(Debug, Clone, Copy, PartialEq, Eq, Structural)]
pub struct RetryInstant {
    pub millis: u64,
}

impl RetryInstant {
    /// The instant that lies the given number of milliseconds after the start.
    pub fn from_millis(value: u64) -> (instant: RetryInstant)
        ensures
            instant.millis == value,
    {
        RetryInstant { millis: value }
    }

    /// The milliseconds between the start and this instant.
    pub fn as_millis(self) -> (millis: u64)
        ensures
            millis == self.millis,
    {
        self.millis
    }

    /// The instant `delay_millis` later, where the clock can express it.
    pub fn checked_add(self, delay_millis: u64) -> (later: Option<RetryInstant>)
        ensures
            later == (if self.millis + delay_millis <= u64::MAX {
                Some(RetryInstant { millis: (self.millis + delay_millis) as u64 })
            } else {
                None
            }),
    {
        match self.millis.checked_add(delay_millis) {
            Some(millis) => Some(RetryInstant { millis }),
            None => None,
        }
    }
}

/// Where the daemon's own clock started on the wall clock.
#[derive(Debug, Clone, Copy, PartialEq, Eq, Structural)]
pub struct UnixOrigin {
    pub seconds: u64,
    pub nanos: u32,
}

impl UnixOrigin {
    /// The whole wall-clock seconds at an instant of the daemon's clock.
    pub open spec fn second_at(self, instant: RetryInstant) -> int {
        (self.seconds * 1_000_000_000 + self.nanos + instant.millis * 1_000_000) / 1_000_000_000
    }

    /// The wall-clock second at an instant, or the largest number where it does
    /// not fit.
    pub open spec fn shown_second(self, instant: RetryInstant) -> u64 {
        if self.second_at(instant) <= u64::MAX {
            self.second_at(instant) as u64
        } else {
            u64::MAX
        }
    }

    /// Converts an instant of the daemon's clock to wall-clock seconds.
    pub fn unix_seconds(&self, instant: RetryInstant) -> (seconds: u64)
        ensures
            seconds == self.shown_second(instant),
    {
        let whole: u128 = self.seconds as u128 * 1_000_000_000 + self.nanos as u128
            + instant.millis as u128 * 1_000_000;
        let second: u128 = whole / 1_000_000_000;
        if second <= u64::MAX as u128 {
            second as u64
        } else {
            u64::MAX
        }
    }
}

/// The seconds to wait before the given attempt, counted from one.
pub open spec fn backoff_seconds(attempt: nat) -> nat {
    if attempt <= 1 {
        1
    } else if attempt == 2 {
        2
    } else if attempt == 3 {
        5
    } else if attempt == 4 {
        10
    } else if attempt == 5 {
        30
    } else {
        60
    }
}

/// The delay before the given retry attempt, in seconds.
pub fn retry_delay(attempt: u32) -> (seconds: u64)
    ensures
        seconds == backoff_seconds(attempt as nat),
{
    if attempt <= 1 {
        1
    } else if attempt == 2 {
        2
    } else if attempt == 3 {
        5
    } else if attempt == 4 {
        10
    } else if attempt == 5 {
        30
    } else {
        60
    }
}

/// The attempt counter after one more failure.
pub open spec fn next_attempt(attempt: u32) -> u32 {
    if attempt < u32::MAX {
        (attempt + 1) as u32
    } else {
        u32::MAX
    }
}

/// The instant of the given attempt when it is planned at `now`.
pub open spec fn retry_due(now: RetryInstant, attempt: u32) -> RetryInstant {
    let due = now.millis + backoff_seconds(attempt as nat) * 1_000;
    if due <= u64::MAX {
        RetryInstant { millis: due as u64 }
    } else {
        RetryInstant { millis: u64::MAX }
    }
}

/// The lifecycle as the rest of the daemon reads and moves it.
#[derive(Debug, Clone, PartialEq, Eq)]
pub struct LifecycleState {
    pub daemon_state: DaemonState,
    pub capture_state: CaptureState,
    pub error_class: Option<ErrorClass>,
    pub last_error: Option<String>,
    pub retry_policy: RetryPolicy,
    pub retry_attempt: u32,
    pub next_retry_at: Option<RetryInstant>,
    pub active_profile: Option<String>,
    pub resolved_target: Option<String>,
    pub generation: u64,
}

/// The lifecycle as clients see it, with the retry time on the wall clock.
#[derive(Debug, Clone, PartialEq, Eq)]
pub struct DaemonLifecycleStatus {
    pub daemon_state: DaemonState,
    pub capture_state: CaptureState,
    pub error_class: Option<ErrorClass>,
    pub last_error: Option<String>,
    pub retry_policy: RetryPolicy,
    pub retry_attempt: u32,
    pub next_retry_at: Option<u64>,
    pub active_profile: Option<String>,
    pub resolved_target: Option<String>,
}

/// The model of a lifecycle.
pub struct LifecycleView {
    pub daemon_state: DaemonState,
    pub capture_state: CaptureState,
    pub error_class: Option<ErrorClass>,
    pub last_error: Option<Seq<char>>,
    pub retry_policy: RetryPolicy,
    pub retry_attempt: u32,
    pub next_retry_at: Option<RetryInstant>,
    pub active_profile: Option<Seq<char>>,
    pub resolved_target: Option<Seq<char>>,
    pub generation: u64,
}

/// The model of a lifecycle status.
pub struct LifecycleStatusView {
    pub daemon_state: DaemonState,
    pub capture_state: CaptureState,
    pub error_class: Option<ErrorClass>,
    pub last_error: Option<Seq<char>>,
    pub retry_policy: RetryPolicy,
    pub retry_attempt: u32,
    pub next_retry_at: Option<u64>,
    pub active_profile: Option<Seq<char>>,
    pub resolved_target: Option<Seq<char>>,
}

impl View for LifecycleState {
    type V = LifecycleView;

    open spec fn view(&self) -> LifecycleView {
        LifecycleView {
            daemon_state: self.daemon_state,
            capture_state: self.capture_state,
            error_class: self.error_class,
            last_error: text_of(self.last_error),
            retry_policy: self.retry_policy,
            retry_attempt: self.retry_attempt,
            next_retry_at: self.next_retry_at,
            active_profile: text_of(self.active_profile),
            resolved_target: text_of(self.resolved_target),
            generation: self.generation,
        }
    }
}

impl View for DaemonLifecycleStatus {
    type V = LifecycleStatusView;

    open spec fn view(&self) -> LifecycleStatusView {
        LifecycleStatusView {
            daemon_state: self.daemon_state,
            capture_state: self.capture_state,
            error_class: self.error_class,
            last_error: text_of(self.last_error),
            retry_policy: self.retry_policy,
            retry_attempt: self.retry_attempt,
            next_retry_at: self.next_retry_at,
            active_profile: text_of(self.active_profile),
            resolved_target: text_of(self.resolved_target),
        }
    }
}

impl LifecycleView {
    /// A daemon in order that captures nothing.
    pub open spec fn ready_stopped(active_profile: Option<Seq<char>>) -> LifecycleView {
        LifecycleView {
            daemon_state: DaemonState::Ready,
            capture_state: CaptureState::Stopped,
            error_class: None,
            last_error: None,
            retry_policy: RetryPolicy::NoRetry,
            retry_attempt: 0,
            next_retry_at: None,
            active_profile,
            resolved_target: None,
            generation: 0,
        }
    }

    /// The same lifecycle without an error and without a planned retry.
    pub open spec fn cleared(self) -> LifecycleView {
        LifecycleView {
            error_class: None,
            last_error: None,
            retry_policy: RetryPolicy::NoRetry,
            retry_attempt: 0,
            next_retry_at: None,
            ..self
        }
    }

    /// The lifecycle once capture is being started.
    pub open spec fn starting(self, active_profile: Option<Seq<char>>) -> LifecycleView {
        LifecycleView {
            daemon_state: DaemonState::Ready,
            capture_state: CaptureState::Starting,
            active_profile,
            resolved_target: None,
            ..self.cleared()
        }
    }

    /// The lifecycle after an error that waits for an operator.
    pub open spec fn permanent(self, error: Seq<char>) -> LifecycleView {
        LifecycleView {
            daemon_state: DaemonState::Degraded,
            capture_state: CaptureState::Faulted,
            error_class: Some(ErrorClass::Permanent),
            last_error: Some(error),
            retry_policy: RetryPolicy::Manual,
            retry_attempt: 0,
            next_retry_at: None,
            ..self
        }
    }

    /// The lifecycle after an error that may pass: the attempt counter has grown
    /// by one and the next attempt is planned.
    pub open spec fn transient(
        self,
        capture_state: CaptureState,
        error: Seq<char>,
        now: RetryInstant,
    ) -> LifecycleView {
        LifecycleView {
            daemon_state: DaemonState::Degraded,
            capture_state,
            error_class: Some(ErrorClass::Transient),
            last_error: Some(error),
            retry_policy: RetryPolicy::BoundedBackoff,
            retry_attempt: next_attempt(self.retry_attempt),
            next_retry_at: Some(retry_due(now, next_attempt(self.retry_attempt))),
            ..self
        }
    }

    /// The lifecycle while capture runs.
    pub open spec fn running(
        self,
        active_profile: Option<Seq<char>>,
        resolved_target: Option<Seq<char>>,
    ) -> LifecycleView {
        LifecycleView {
            daemon_state: DaemonState::Ready,
            capture_state: CaptureState::Running,
            active_profile,
            resolved_target,
            ..self.cleared()
        }
    }

    /// The lifecycle after capture was stopped in order.
    pub open spec fn stopped(self, active_profile: Option<Seq<char>>) -> LifecycleView {
        LifecycleView {
            daemon_state: DaemonState::Ready,
            capture_state: CaptureState::Stopped,
            active_profile,
            resolved_target: None,
            ..self.cleared()
        }
    }

    /// The lifecycle once the daemon is going down.
    pub open spec fn stopping(self) -> LifecycleView {
        LifecycleView { daemon_state: DaemonState::Stopping, ..self.cleared() }
    }

    /// Whether a new operation may begin.
    pub open spec fn admits_operation(self) -> bool {
        self.daemon_state != DaemonState::Stopping && self.generation < u64::MAX
    }

    /// The lifecycle after an operation began.
    pub open spec fn next_operation(self) -> LifecycleView {
        LifecycleView { generation: (self.generation + 1) as u64, ..self }
    }

    /// Why no operation may begin.
    pub open spec fn refusal(self) -> ErrorView {
        if self.daemon_state == DaemonState::Stopping {
            ErrorView::Control("daemon is stopping"@)
        } else {
            ErrorView::ControlInvariant("operation generation overflow"@)
        }
    }

    /// Whether error, policy, attempt counter and deadline agree: a deadline
    /// stands exactly where the daemon itself retries a transient error, and a
    /// manual policy exactly where the error is permanent.
    pub open spec fn retry_coherent(self) -> bool {
        &&& self.error_class is Some <==> self.last_error is Some
        &&& self.error_class == None::<ErrorClass> <==> self.retry_policy == RetryPolicy::NoRetry
        &&& self.error_class == Some(ErrorClass::Transient) <==> self.retry_policy
            == RetryPolicy::BoundedBackoff
        &&& self.error_class == Some(ErrorClass::Permanent) <==> self.retry_policy
            == RetryPolicy::Manual
        &&& self.next_retry_at is Some <==> self.retry_policy == RetryPolicy::BoundedBackoff
        &&& self.retry_attempt > 0 <==> self.retry_policy == RetryPolicy::BoundedBackoff
    }

    /// The lifecycle as clients see it.
    pub open spec fn status(self, origin: UnixOrigin) -> LifecycleStatusView {
        LifecycleStatusView {
            daemon_state: self.daemon_state,
            capture_state: self.capture_state,
            error_class: self.error_class,
            last_error: self.last_error,
            retry_policy: self.retry_policy,
            retry_attempt: self.retry_attempt,
            next_retry_at: match self.next_retry_at {
                Some(at) => Some(origin.shown_second(at)),
                None => None,
            },
            active_profile: self.active_profile,
            resolved_target: self.resolved_target,
        }
    }
}

impl LifecycleState {
    /// A daemon in order that captures nothing.
    pub fn ready_stopped(active_profile: Option<String>) -> (state: LifecycleState)
        ensures
            state@ == LifecycleView::ready_stopped(text_of(active_profile)),
    {
        LifecycleState {
            daemon_state: DaemonState::Ready,
            capture_state: CaptureState::Stopped,
            error_class: None,
            last_error: None,
            retry_policy: RetryPolicy::NoRetry,
            retry_attempt: 0,
            next_retry_at: None,
            active_profile,
            resolved_target: None,
            generation: 0,
        }
    }

    /// Capture is being started.
    pub fn mark_starting(&mut self, active_profile: Option<String>)
        ensures
            final(self)@ == old(self)@.starting(text_of(active_profile)),
    {
        self.daemon_state = DaemonState::Ready;
        self.capture_state = CaptureState::Starting;
        self.clear_error_and_retry();
        self.active_profile = active_profile;
        self.resolved_target = None;
    }

    /// An error that waits for an operator.
    pub fn mark_permanent(&mut self, error: String)
        ensures
            final(self)@ == old(self)@.permanent(error@),
    {
        self.daemon_state = DaemonState::Degraded;
        self.capture_state = CaptureState::Faulted;
        self.error_class = Some(ErrorClass::Permanent);
        self.last_error = Some(error);
        self.retry_policy = RetryPolicy::Manual;
        self.retry_attempt = 0;
        self.next_retry_at = None;
    }

    /// An error that may pass: plans the next attempt.
    pub fn mark_transient(&mut self, capture_state: CaptureState, error: String, now: RetryInstant)
        ensures
            final(self)@ == old(self)@.transient(capture_state, error@, now),
    {
        self.daemon_state = DaemonState::Degraded;
        self.capture_state = capture_state;
        self.error_class = Some(ErrorClass::Transient);
        self.last_error = Some(error);
        self.retry_policy = RetryPolicy::BoundedBackoff;
        self.retry_attempt = self.retry_attempt.saturating_add(1);
        let due = match now.checked_add(retry_delay(self.retry_attempt) * 1_000) {
            Some(due) => due,
            None => RetryInstant::from_millis(u64::MAX),
        };
        self.next_retry_at = Some(due);
    }

    /// Capture runs.
    pub fn mark_running(&mut self, active_profile: Option<String>, resolved_target: Option<String>)
        ensures
            final(self)@ == old(self)@.running(text_of(active_profile), text_of(resolved_target)),
    {
        self.daemon_state = DaemonState::Ready;
        self.capture_state = CaptureState::Running;
        self.clear_error_and_retry();
        self.active_profile = active_profile;
        self.resolved_target = resolved_target;
    }

    /// Capture was stopped in order.
    pub fn mark_stopped(&mut self, active_profile: Option<String>)
        ensures
            final(self)@ == old(self)@.stopped(text_of(active_profile)),
    {
        self.daemon_state = DaemonState::Ready;
        self.capture_state = CaptureState::Stopped;
        self.clear_error_and_retry();
        self.active_profile = active_profile;
        self.resolved_target = None;
    }

    /// The daemon is going down.
    pub fn mark_stopping(&mut self)
        ensures
            final(self)@ == old(self)@.stopping(),
    {
        self.daemon_state = DaemonState::Stopping;
        self.clear_error_and_retry();
    }

    /// The lifecycle as clients see it.
    pub fn status(&self, origin: &UnixOrigin) -> (status: DaemonLifecycleStatus)
        ensures
            status@ == self@.status(*origin),
    {
        DaemonLifecycleStatus {
            daemon_state: self.daemon_state,
            capture_state: self.capture_state,
            error_class: self.error_class,
            last_error: copy_text(&self.last_error),
            retry_policy: self.retry_policy,
            retry_attempt: self.retry_attempt,
            next_retry_at: match self.next_retry_at {
                Some(at) => Some(origin.unix_seconds(at)),
                None => None,
            },
            active_profile: copy_text(&self.active_profile),
            resolved_target: copy_text(&self.resolved_target),
        }
    }

    /// Begins an operation: it gets a generation of its own, above all before it.
    pub fn begin_operation(&mut self) -> (begun: Result<u64, LambError>)
        ensures
            begun is Ok <==> old(self)@.admits_operation(),
            match begun {
                Ok(generation) => {
                    &&& final(self)@ == old(self)@.next_operation()
                    &&& generation == old(self).generation + 1
                },
                Err(error) => {
                    &&& *final(self) == *old(self)
                    &&& error@ == old(self)@.refusal()
                },
            },
    {
        if self.daemon_state == DaemonState::Stopping {
            return Err(LambError::Control("daemon is stopping".to_string()));
        }
        match self.generation.checked_add(1) {
            Some(next) => {
                self.generation = next;
                Ok(next)
            },
            None => Err(LambError::ControlInvariant("operation generation overflow".to_string())),
        }
    }

    /// A second copy of the lifecycle.
    pub fn duplicate(&self) -> (copy: LifecycleState)
        ensures
            copy == *self,
    {
        LifecycleState {
            daemon_state: self.daemon_state,
            capture_state: self.capture_state,
            error_class: self.error_class,
            last_error: copy_text(&self.last_error),
            retry_policy: self.retry_policy,
            retry_attempt: self.retry_attempt,
            next_retry_at: self.next_retry_at,
            active_profile: copy_text(&self.active_profile),
            resolved_target: copy_text(&self.resolved_target),
            generation: self.generation,
        }
    }

    fn clear_error_and_retry(&mut self)
        ensures
            final(self)@ == old(self)@.cleared(),
    {
        self.error_class = None;
        self.last_error = None;
        self.retry_policy = RetryPolicy::NoRetry;
        self.retry_attempt = 0;
        self.next_retry_at = None;
    }
}

/// The backoff never shrinks from one attempt to a later one, is never below a
/// second and never above a minute.
pub proof fn backoff_grows_to_a_minute(earlier: nat, later: nat)
    requires
        earlier <= later,
    ensures
        1 <= backoff_seconds(earlier) <= backoff_seconds(later) <= 60,
{
}

/// From the sixth attempt on the daemon waits a minute.
pub proof fn backoff_is_capped(attempt: nat)
    ensures
        attempt >= 6 <==> backoff_seconds(attempt) == 60,
{
}

/// Every way a lifecycle can move keeps error, policy, attempt counter and
/// deadline in agreement, and a fresh one starts that way.
pub proof fn transitions_keep_retry_coherence(
    state: LifecycleView,
    profile: Option<Seq<char>>,
    target: Option<Seq<char>>,
    capture_state: CaptureState,
    error: Seq<char>,
    now: RetryInstant,
)
    requires
        state.retry_coherent(),
    ensures
        LifecycleView::ready_stopped(profile).retry_coherent(),
        state.starting(profile).retry_coherent(),
        state.running(profile, target).retry_coherent(),
        state.stopped(profile).retry_coherent(),
        state.stopping().retry_coherent(),
        state.permanent(error).retry_coherent(),
        state.transient(capture_state, error, now).retry_coherent(),
        state.next_operation().retry_coherent(),
{
}

/// A transient error never plans its retry before now, and plans it at least a
/// second later unless the clock ends first.
pub proof fn transient_retry_lies_ahead(
    state: LifecycleView,
    capture_state: CaptureState,
    error: Seq<char>,
    now: RetryInstant,
)
    ensures
        ({
            let due = state.transient(capture_state, error, now).next_retry_at->0;
            &&& due.millis >= now.millis
            &&& due.millis >= now.millis + 1_000 || due.millis == u64::MAX
        }),
{
}

/// A failed attempt: what capture was left doing, why, and when.
pub struct FailedAttempt {
    pub capture_state: CaptureState,
    pub error: Seq<char>,
    pub now: RetryInstant,
}

impl LifecycleView {
    /// The lifecycle after a row of transient failures.
    pub open spec fn after_failures(self, failures: Seq<FailedAttempt>) -> LifecycleView
        decreases failures.len(),
    {
        if failures.len() == 0 {
            self
        } else {
            let last = failures.last();
            self.after_failures(failures.drop_last()).transient(
                last.capture_state,
                last.error,
                last.now,
            )
        }
    }
}

/// A row of transient failures counts each of them once, and plans the next
/// attempt by the backoff of their number.
pub proof fn failures_in_a_row_back_off(state: LifecycleView, failures: Seq<FailedAttempt>)
    requires
        failures.len() > 0,
        state.retry_attempt == 0,
    ensures
        ({
            let after = state.after_failures(failures);
            let count = if failures.len() <= u32::MAX {
                failures.len() as u32
            } else {
                u32::MAX
            };
            &&& after.retry_attempt == count
            &&& after.next_retry_at == Some(retry_due(failures.last().now, count))
            &&& after.last_error == Some(failures.last().error)
            &&& after.generation == state.generation
        }),
    decreases failures.len(),
{
    if failures.len() > 1 {
        failures_in_a_row_back_off(state, failures.drop_last());
    } else {
        assert(state.after_failures(failures.drop_last()) == state);
    }
}

/// No transition but the beginning of an operation moves the generation, and
/// that one moves it up by exactly one.
pub proof fn only_operations_move_the_generation(
    state: LifecycleView,
    profile: Option<Seq<char>>,
    target: Option<Seq<char>>,
    capture_state: CaptureState,
    error: Seq<char>,
    now: RetryInstant,
)
    ensures
        state.starting(profile).generation == state.generation,
        state.running(profile, target).generation == state.generation,
        state.stopped(profile).generation == state.generation,
        state.stopping().generation == state.generation,
        state.permanent(error).generation == state.generation,
        state.transient(capture_state, error, now).generation == state.generation,
        state.admits_operation() ==> state.next_operation().generation == state.generation + 1,
{
}

} // verus!
