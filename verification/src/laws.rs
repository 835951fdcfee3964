//! What holds of the daemon as a whole, whichever commands, retries and faults
//! come in whichever order.

use crate::attempt::AttemptErrorView;
use crate::commands::ScheduledGenerationDecision;
use crate::install::InstallRequest;
use crate::lifecycle::{CaptureState, DaemonState, ErrorClass, RetryInstant, RetryPolicy};
use crate::model::{
    ActiveCapture, ActivityPolicy, AppConfig, ContextView, PreparedLegacyConfig, ResolvedProfile,
    RunState, RuntimeView,
};
use crate::operations::OperationEntry;
use crate::scheduler::{
    CaptureAttemptId, PendingOperation, RuntimeCaptureFault, RuntimeFaultSink, ScheduledOperation,
};
use vstd::prelude::*;

verus! {

impl<B, S> RuntimeView<B, S> {
    /// Whether the health record of the capture, if one is held, reports under a
    /// generation that has begun.
    pub open spec fn reports_in_order(self) -> bool {
        match self.capture_health {
            Some(health) => match health.sink {
                RuntimeFaultSink::Bound { generation, .. } => generation
                    <= self.lifecycle.generation,
                RuntimeFaultSink::Apart { .. } => true,
            },
            None => true,
        }
    }
}

impl<B, S> ContextView<B, S> {
    /// What holds between any two steps: the lifecycle agrees with itself, the
    /// scheduler is in order and not ahead of the lifecycle, a retry is pending
    /// only as the lifecycle plans it, and a daemon that is going down has its
    /// scheduler stopped.
    pub open spec fn in_order(self) -> bool {
        &&& self.runtime.lifecycle.retry_coherent()
        &&& self.runtime.reports_in_order()
        &&& self.scheduler.well_formed()
        &&& self.scheduler.generation <= self.runtime.lifecycle.generation
        &&& self.stop ==> self.scheduler.stopped
        &&& match self.scheduler.pending {
            Some(PendingOperation::Retry { generation, due }) => {
                &&& generation == self.runtime.lifecycle.generation
                &&& self.runtime.lifecycle.next_retry_at == Some(due)
            },
            _ => true,
        }
    }
}

/// Beginning an operation, ending the daemon and going down keep the context in
/// order.
pub proof fn entries_keep_order<B, S>(ctx: ContextView<B, S>, entry: OperationEntry, message: Seq<
    char,
>)
    requires
        ctx.in_order(),
    ensures
        ctx.entry_refusal() is None ==> ctx.entered(entry).in_order(),
        ctx.ended_by(message).in_order(),
        ctx.shut_down().scheduler == ctx.scheduler,
        ctx.stop ==> ctx.shut_down().in_order(),
{
}

/// A failed attempt keeps the context in order, however it ends.
pub proof fn failures_keep_order<B, S>(
    ctx: ContextView<B, S>,
    token: u64,
    operation_generation: Option<u64>,
    error: AttemptErrorView,
    preserve_running: bool,
    now: RetryInstant,
)
    requires
        ctx.in_order(),
    ensures
        ctx.failed_command(token, operation_generation, error, preserve_running, now).0.in_order(),
        ctx.failed_attempt(error, now).0.in_order(),
        ctx.failed_retry(token, error, now).0.in_order(),
{
}

/// A fault of a running capture, and every decision about scheduled work, keep
/// the context in order.
pub proof fn faults_keep_order<B, S>(
    ctx: ContextView<B, S>,
    generation: u64,
    attempt_id: CaptureAttemptId,
    fault: RuntimeCaptureFault,
    now: RetryInstant,
)
    requires
        ctx.in_order(),
    ensures
        ctx.decided(generation).0.in_order(),
        ctx.faulted(generation, attempt_id, fault, now).0.in_order(),
{
}

/// Stopping capture on request keeps the context in order.
pub proof fn a_stop_of_capture_keeps_order<B, S>(ctx: ContextView<B, S>)
    requires
        ctx.in_order(),
        ctx.entry_refusal() is None,
    ensures
        ctx.entered(OperationEntry::Command).capture_stopped().in_order(),
{
}

/// Swapping in a capture keeps the context in order, where the capture reports
/// under the generation it is published under, or an older one.
pub proof fn publications_keep_order<B, S>(
    ctx: ContextView<B, S>,
    request: InstallRequest,
    prepared: PreparedLegacyConfig,
    active: ActiveCapture<B, S>,
    candidate: RuntimeView<B, S>,
)
    requires
        ctx.in_order(),
        candidate.lifecycle.retry_coherent(),
        ctx.runtime.lifecycle.publishes(request.operation_generation) ==> {
            &&& ctx.running_legacy(request, prepared, active).reports_in_order()
            &&& candidate.at_generation(
                ctx.runtime.lifecycle.publishing(request.operation_generation).generation,
            ).reports_in_order()
        },
    ensures
        ctx.legacy_published(request, prepared, active).0.in_order(),
        ctx.app_published(request, candidate).0.in_order(),
{
}

/// Letting go of a capture to start another keeps the context in order, unless a
/// retry is pending at that moment: that one stays pending until the new capture
/// is swapped in or fails.
pub proof fn a_start_keeps_order<B, S>(ctx: ContextView<B, S>, profile: Option<Seq<char>>)
    requires
        ctx.in_order(),
        ctx.scheduler.pending is Some ==> ctx.scheduler.pending->0 is Immediate,
    ensures
        ctx.capture_starting(profile).in_order(),
{
}

/// The start that the configuration asks for keeps the context in order, where the
/// capture reports under the generation it is published under, or an older one.
pub proof fn a_configured_start_keeps_order<B, S>(
    ctx: ContextView<B, S>,
    active: ActiveCapture<B, S>,
)
    requires
        ctx.in_order(),
        ctx.runtime.lifecycle.admits_operation(),
        active.health is Some ==> match active.health->0.sink {
            RuntimeFaultSink::Bound { generation, .. } => generation
                <= ctx.runtime.lifecycle.generation + 1,
            RuntimeFaultSink::Apart { .. } => true,
        },
    ensures
        ctx.configured_running(active).in_order(),
        ctx.configured_running(active).capture_is_running(),
{
}

/// Changing a threshold and noting an error keep the context in order.
pub proof fn threshold_changes_keep_order<B, S>(
    ctx: ContextView<B, S>,
    profile_name: Seq<char>,
    config: AppConfig,
    resolved: ResolvedProfile,
    effective: ActivityPolicy,
    error: Seq<char>,
)
    requires
        ctx.in_order(),
    ensures
        (ContextView {
            runtime: ctx.runtime.with_config(profile_name, config, resolved, effective),
            ..ctx
        }).in_order(),
        ctx.with_last_error(error).in_order(),
{
}

/// Changing a threshold neither starts nor stops anything: the capture, its
/// session's identity and its inputs stay as they were.
pub proof fn threshold_changes_spare_the_capture<B, S>(
    runtime: RuntimeView<B, S>,
    profile_name: Seq<char>,
    config: AppConfig,
    resolved: ResolvedProfile,
    effective: ActivityPolicy,
)
    ensures
        ({
            let after = runtime.with_config(profile_name, config, resolved, effective);
            &&& after.capture == runtime.capture
            &&& after.lifecycle == runtime.lifecycle
            &&& after.state == runtime.state
            &&& after.session is Some <==> runtime.session is Some
            &&& runtime.session is Some ==> {
                &&& after.session->0.identity == runtime.session->0.identity
                &&& after.session->0.resource == runtime.session->0.resource
                &&& after.session->0.configured_inputs == runtime.session->0.configured_inputs
                &&& after.session->0.resolved_live_inputs
                    == runtime.session->0.resolved_live_inputs
            }
        }),
{
}

/// An operation whose place was taken changes nothing, whatever it came to: the
/// client is told, and all that it built is given up.
pub proof fn a_superseded_operation_changes_nothing<B, S>(
    ctx: ContextView<B, S>,
    request: InstallRequest,
    error: AttemptErrorView,
    preserve_running: bool,
    prepared: PreparedLegacyConfig,
    active: ActiveCapture<B, S>,
    candidate: RuntimeView<B, S>,
    now: RetryInstant,
)
    requires
        !ctx.is_current(request.token),
    ensures
        ctx.failed_command(
            request.token,
            request.operation_generation,
            error,
            preserve_running,
            now,
        ).0 == ctx,
        ctx.legacy_published(request, prepared, active) == (
            ctx,
            ctx.superseded(),
            seq![active.held()],
        ),
        ctx.app_published(request, candidate) == (ctx, ctx.superseded(), seq![candidate.held()]),
{
}

/// A start that nothing disturbs ends with a running capture: from the entry of
/// the command to the moment the capture is swapped in, each step leads to the
/// next, and the capture runs under the generation of the command.
pub proof fn an_undisturbed_start_captures<B, S>(
    ctx: ContextView<B, S>,
    profile: Option<Seq<char>>,
    activate: bool,
    prepared: PreparedLegacyConfig,
    active: ActiveCapture<B, S>,
)
    requires
        ctx.entry_refusal() is None,
        ctx.attempts < u64::MAX,
    ensures
        ({
            let operation = ctx.next_operation();
            let request = InstallRequest {
                token: operation.token,
                operation_generation: Some(operation.generation),
                old_already_detached: true,
                force_start: true,
                activate,
            };
            let entered = ctx.entered(OperationEntry::Command);
            let starting = entered.capture_starting(profile);
            let attempting = starting.with_next_attempt();
            let (after, response, released) = attempting.legacy_published(
                request,
                prepared,
                active,
            );
            &&& entered.is_current(operation.token)
            &&& entered.runtime.lifecycle.generation == operation.generation
            &&& starting.is_current(operation.token)
            &&& starting.runtime.holds_nothing()
            &&& starting.sink_refusal(request.operation_generation) is None
            &&& attempting.is_current(operation.token)
            &&& response.ok
            &&& after.capture_is_running()
            &&& after.runtime.lifecycle.generation == ctx.runtime.lifecycle.generation + 1
            &&& after.runtime.capture == Some(active.backend)
            &&& after.runtime.session == Some(active.session)
        }),
{
}

/// A start whose attempt fails in a way that may pass leaves a retry pending that
/// the daemon itself carries out: the generation it carries is current when it
/// comes due, so it is not stale.
pub proof fn a_failed_start_is_retried<B, S>(
    ctx: ContextView<B, S>,
    profile: Option<Seq<char>>,
    error: AttemptErrorView,
    now: RetryInstant,
)
    requires
        ctx.in_order(),
        !ctx.scheduler.stopped,
        ctx.entry_refusal() is None,
        error.class == ErrorClass::Transient,
    ensures
        ({
            let operation = ctx.next_operation();
            let starting = ctx.entered(OperationEntry::Command).capture_starting(profile);
            let after = starting.failed_command(
                operation.token,
                Some(operation.generation),
                error,
                false,
                now,
            ).0;
            let generation = operation.generation;
            &&& after.scheduler.pending is Some
            &&& after.scheduler.pending->0.becomes() == (ScheduledOperation::Retry { generation })
            &&& after.decided(generation).1 == ScheduledGenerationDecision::Current
            &&& after.runtime.lifecycle.retry_attempt == 1
        }),
{
}

/// Once an operation begins, no operation that began before it is current; and
/// once the daemon is going down, none is.
pub proof fn a_new_operation_supersedes_all_before<B, S>(ctx: ContextView<B, S>, token: u64)
    requires
        ctx.entry_refusal() is None,
    ensures
        ctx.entered(OperationEntry::Command).is_current(token) <==> token == ctx.operation_epoch
            + 1,
        !ctx.entered(OperationEntry::DirectStop).is_current(token),
{
}

/// A daemon that is going down never comes back: whatever happens, it stays
/// that way, and nothing begins.
pub proof fn going_down_is_final<B, S>(
    ctx: ContextView<B, S>,
    token: u64,
    operation_generation: Option<u64>,
    error: AttemptErrorView,
    preserve_running: bool,
    generation: u64,
    attempt_id: CaptureAttemptId,
    fault: RuntimeCaptureFault,
    now: RetryInstant,
)
    requires
        ctx.stop,
    ensures
        ctx.entry_refusal() is Some,
        ctx.failed_command(token, operation_generation, error, preserve_running, now).0.stop,
        ctx.failed_attempt(error, now).0.stop,
        ctx.decided(generation).0.stop,
        ctx.faulted(generation, attempt_id, fault, now).0.stop,
        ctx.shut_down().stop,
{
}

/// While a capture runs, the failure of a reload leaves everything as it was,
/// unless the failure is one that ends the daemon.
pub proof fn a_failed_reload_spares_the_running_capture<B, S>(
    ctx: ContextView<B, S>,
    token: u64,
    operation_generation: Option<u64>,
    error: AttemptErrorView,
    now: RetryInstant,
)
    requires
        ctx.capture_is_running(),
        error.class != ErrorClass::Fatal,
    ensures
        ctx.failed_command(token, operation_generation, error, true, now).0 == ctx,
        ctx.failed_command(token, operation_generation, error, true, now).2.is_empty(),
{
}

/// An error that ends the daemon leaves the state as it was, keeps the error
/// that came first, and drops what was planned.
pub proof fn a_fatal_error_only_ends_the_daemon<B, S>(
    ctx: ContextView<B, S>,
    token: u64,
    operation_generation: Option<u64>,
    error: AttemptErrorView,
    preserve_running: bool,
    earlier: Seq<char>,
    now: RetryInstant,
)
    requires
        ctx.is_current(token),
        error.class == ErrorClass::Fatal,
    ensures
        ({
            let after = ctx.failed_command(
                token,
                operation_generation,
                error,
                preserve_running,
                now,
            ).0;
            &&& after.runtime == ctx.runtime
            &&& after.stop
            &&& after.scheduler.stopped
            &&& after.scheduler.pending is None
            &&& after.first_fatal is Some
            &&& ctx.first_fatal is Some ==> after.first_fatal == ctx.first_fatal
        }),
        ctx.ended_by(earlier).ended_by(error.message).first_fatal == ctx.ended_by(
            earlier,
        ).first_fatal,
{
}

/// The same fault reported twice counts once: the second report changes
/// nothing, so the retry counter grows by one.
pub proof fn a_repeated_fault_counts_once<B, S>(
    ctx: ContextView<B, S>,
    generation: u64,
    attempt_id: CaptureAttemptId,
    first: RuntimeCaptureFault,
    second: RuntimeCaptureFault,
    now: RetryInstant,
    later: RetryInstant,
)
    requires
        !ctx.runtime_poisoned,
    ensures
        ({
            let once = ctx.faulted(generation, attempt_id, first, now).0;
            &&& once.faulted(generation, attempt_id, second, later).0 == once
            &&& once.faulted(generation, attempt_id, second, later).1.is_empty()
        }),
{
}

/// A fault that belongs to another generation, or to another attempt than the
/// one whose capture is held, changes nothing.
pub proof fn a_foreign_fault_changes_nothing<B, S>(
    ctx: ContextView<B, S>,
    generation: u64,
    attempt_id: CaptureAttemptId,
    fault: RuntimeCaptureFault,
    now: RetryInstant,
)
    requires
        !ctx.runtime_poisoned,
        generation != ctx.runtime.lifecycle.generation || !ctx.holds_attempt(attempt_id),
    ensures
        ctx.faulted(generation, attempt_id, fault, now).0 == ctx,
        ctx.faulted(generation, attempt_id, fault, now).1.is_empty(),
{
}

/// Once a command began, retries and faults of the generations before it come to
/// nothing: the scheduler takes none, and one that was handed on already is
/// stale.
pub proof fn older_work_is_stale_after_a_command<B, S>(
    ctx: ContextView<B, S>,
    generation: u64,
    due: RetryInstant,
    attempt_id: CaptureAttemptId,
    fault: RuntimeCaptureFault,
)
    requires
        ctx.in_order(),
        ctx.entry_refusal() is None,
        generation <= ctx.runtime.lifecycle.generation,
    ensures
        ({
            let after = ctx.entered(OperationEntry::Command);
            &&& after.scheduler.holding(PendingOperation::Retry { generation, due })
                == after.scheduler
            &&& after.scheduler.notified(
                RuntimeFaultSink::Bound { generation, attempt_id },
                fault,
            ) == after.scheduler
            &&& after.decided(generation).0 == after
            &&& after.decided(generation).1 != ScheduledGenerationDecision::Current
        }),
{
}

/// When a capture is swapped in, the daemon is in order, no error stands and no
/// retry is planned.
pub proof fn a_published_capture_clears_the_error<B, S>(
    ctx: ContextView<B, S>,
    request: InstallRequest,
    prepared: PreparedLegacyConfig,
    active: ActiveCapture<B, S>,
)
    requires
        ctx.is_current(request.token),
        ctx.runtime.lifecycle.publishes(request.operation_generation),
    ensures
        ({
            let published = ctx.legacy_published(request, prepared, active);
            let lifecycle = published.0.runtime.lifecycle;
            &&& published.1.ok
            &&& published.0.capture_is_running()
            &&& lifecycle.daemon_state == DaemonState::Ready
            &&& lifecycle.error_class is None
            &&& lifecycle.last_error is None
            &&& lifecycle.retry_policy == RetryPolicy::NoRetry
            &&& lifecycle.retry_attempt == 0
            &&& lifecycle.next_retry_at is None
        }),
{
}

/// A fault that a capture met before it was swapped in is not lost, whichever way
/// the capture came: it is pending as soon as the capture is in place, and nothing
/// older is.
pub proof fn an_early_fault_is_replayed<B, S>(
    ctx: ContextView<B, S>,
    runtime: RuntimeView<B, S>,
    attempt_id: CaptureAttemptId,
)
    requires
        !ctx.scheduler.stopped,
        ctx.scheduler.generation <= runtime.lifecycle.generation,
        runtime.capture_health is Some,
        runtime.capture_health->0.owes_report(),
        runtime.capture_health->0.sink == (RuntimeFaultSink::Bound {
            generation: runtime.lifecycle.generation,
            attempt_id,
        }),
    ensures
        ctx.installed(runtime).scheduler.pending == Some(
            PendingOperation::Immediate(
                ScheduledOperation::RuntimeFault {
                    generation: runtime.lifecycle.generation,
                    attempt_id,
                    fault: runtime.capture_health->0.fault->0,
                },
            ),
        ),
        ctx.installed(runtime).holds_attempt(attempt_id),
{
}

/// The sink that an attempt is given carries the generation under which its
/// capture is swapped in, where nothing else begins meanwhile.
pub proof fn a_sink_fits_its_publication<B, S>(
    ctx: ContextView<B, S>,
    operation_generation: Option<u64>,
)
    requires
        ctx.runtime.lifecycle.publishes(operation_generation),
    ensures
        ctx.next_sink(operation_generation) is Bound,
        ctx.next_sink(operation_generation)->generation == ctx.runtime.lifecycle.publishing(
            operation_generation,
        ).generation,
{
}

/// A fault that a capture reports and that is then worked off leaves the state
/// without the capture, waiting for a retry that comes at least a second later or
/// at the end of the clock.
pub proof fn a_worked_off_fault_waits_for_its_retry<B, S>(
    ctx: ContextView<B, S>,
    generation: u64,
    attempt_id: CaptureAttemptId,
    fault: RuntimeCaptureFault,
    now: RetryInstant,
)
    requires
        ctx.in_order(),
        !ctx.stop,
        !ctx.scheduler.stopped,
        !ctx.runtime_poisoned,
        generation == ctx.runtime.lifecycle.generation,
        ctx.holds_attempt(attempt_id),
    ensures
        ({
            let (after, released) = ctx.faulted(generation, attempt_id, fault, now);
            &&& released == ctx.runtime.held()
            &&& after.runtime.holds_nothing()
            &&& after.runtime.lifecycle.generation == generation
            &&& after.runtime.lifecycle.error_class == Some(ErrorClass::Transient)
            &&& after.runtime.lifecycle.last_error == Some(fault.text())
            &&& after.scheduler.pending is Some
            &&& after.scheduler.pending->0 is Retry
            &&& after.scheduler.pending->0.belongs_to() == generation
            &&& after.scheduler.pending->0->due.millis >= now.millis + 1_000
                || after.scheduler.pending->0->due.millis == u64::MAX
        }),
{
}

/// A transient failure that becomes part of the state leaves exactly the retry
/// pending that the lifecycle plans.
pub proof fn a_transient_failure_plans_its_retry<B, S>(
    ctx: ContextView<B, S>,
    token: u64,
    operation_generation: Option<u64>,
    error: AttemptErrorView,
    now: RetryInstant,
)
    requires
        ctx.in_order(),
        ctx.is_current(token),
        !ctx.scheduler.stopped,
        error.class == ErrorClass::Transient,
        ctx.runtime.lifecycle.publishes(operation_generation),
    ensures
        ({
            let after = ctx.failed_command(token, operation_generation, error, false, now).0;
            &&& after.runtime.lifecycle.next_retry_at is Some
            &&& after.scheduler.pending == Some(
                PendingOperation::Retry {
                    generation: after.runtime.lifecycle.generation,
                    due: after.runtime.lifecycle.next_retry_at->0,
                },
            )
        }),
{
}

/// A failure that waits for an operator leaves nothing pending.
pub proof fn a_permanent_failure_plans_nothing<B, S>(
    ctx: ContextView<B, S>,
    token: u64,
    operation_generation: Option<u64>,
    error: AttemptErrorView,
    now: RetryInstant,
)
    requires
        ctx.in_order(),
        ctx.is_current(token),
        error.class == ErrorClass::Permanent,
        ctx.runtime.lifecycle.publishes(operation_generation),
    ensures
        ({
            let after = ctx.failed_command(token, operation_generation, error, false, now).0;
            &&& after.scheduler.pending is None
            &&& after.runtime.lifecycle.retry_policy == RetryPolicy::Manual
            &&& after.runtime.lifecycle.capture_state == CaptureState::Faulted
            &&& after.runtime.state == RunState::Faulted
        }),
{
}

/// Stopping capture lets go of all that was held and of nothing else, and does
/// not end the daemon.
pub proof fn a_stop_of_capture_spares_the_daemon<B, S>(ctx: ContextView<B, S>)
    requires
        ctx.entry_refusal() is None,
    ensures
        ({
            let after = ctx.entered(OperationEntry::Command).capture_stopped();
            &&& after.runtime.holds_nothing()
            &&& after.runtime.lifecycle.capture_state == CaptureState::Stopped
            &&& !after.stop
            &&& after.first_fatal == ctx.first_fatal
        }),
{
}

/// A state that someone failed on is never carried over: after any failure, fault
/// or decision that touches it, either it is as it was, or it is in order again.
pub proof fn a_retry_on_a_failed_state_is_decided<B, S>(ctx: ContextView<B, S>, generation: u64)
    requires
        ctx.runtime_poisoned,
    ensures
        ({
            let (after, decision, released) = ctx.decided(generation);
            &&& !after.runtime_poisoned
            &&& decision == ScheduledGenerationDecision::Current ==> after.runtime.holds_nothing()
                && released.is_empty()
            &&& decision == ScheduledGenerationDecision::Terminalized ==> {
                &&& after.stop
                &&& after.runtime.holds_nothing()
                &&& released == ctx.runtime.held()
                &&& after.runtime.lifecycle == ctx.runtime.lifecycle
            }
        }),
{
}

} // verus!
