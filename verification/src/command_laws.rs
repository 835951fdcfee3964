//! What holds of every operation on the daemon: of its beginning, of its failure, of
//! the stop of capture, of the retries and faults that the scheduler hands on, and
//! of the end of the daemon.

use crate::apply::{
    app_capture_recovered, app_prepare_failed, app_start_failed, begin_apply, ApplyStep,
};
use crate::attempt::{
    classify_legacy_attempt_error, classify_pipewire_resolution_error,
    classify_pipewire_startup_error, shutdown_attempt_error, CaptureAttemptError,
    PipeWireStartupError, TargetResolutionError,
};
use crate::commands::{
    admit_reload, admit_retry, begin_retry, cancel_active_calibration, configured_start_recovered,
    configured_start_result, detach_for_start, publish_runtime_fault,
    release_capture_for_shutdown, scheduled_generation_decision, stop_capture_transaction,
    validate_candidate_socket, CommandStep, ConfiguredStep, PreparedCommandConfig, RetryEntry,
    RetryStep, ScheduledGenerationDecision,
};
use crate::control::{idle_status_response, ControlResponse, DaemonStatus};
use crate::error::LambError;
use crate::install::{legacy_recovered, publish_app_candidate, Completion, InstallRequest};
use crate::lifecycle::{
    CaptureState, DaemonState, ErrorClass, LifecycleState, RetryInstant, RetryPolicy,
};
use crate::model::{
    ActiveCapture, AppRuntimeState, ConfigFamily, IdleDaemonContext, LoadedAppConfig,
    PreparedLegacyConfig, Released, ResolvedProfile, RunState,
};
use crate::operations::{
    allocate_capture_attempt_id, begin_command_operation, begin_new_operation_generation,
    begin_shutdown, command_attempt_failure, command_attempt_failure_with_generation,
    current_capture_is_running, operation_is_current, publication_generation,
    publish_capture_attempt_error, runtime_fault_sink_for_attempt, signal_fatal,
    signal_fatal_response, BegunOperation, OperationEntry,
};
use crate::scheduler::{
    CaptureAttemptId, PendingOperation, RuntimeCaptureFault, RuntimeFaultSink, ScheduledOperation,
};
use crate::session::PrivateAppCaptureAttempt;
use crate::text::text_of;
use vstd::prelude::*;

verus! {

/// After a stop of capture the daemon shows that it rests: it is idle where a profile
/// is active, stopped with the older format, and unconfigured where there is no
/// profile. All that was held is handed back and nothing is held any more, no error
/// stands, and no retry is planned.
pub proof fn a_stop_of_capture_comes_to_rest<B, S>(
    ctx: &mut IdleDaemonContext<B, S>,
    done: Completion<B, S>,
    after: &IdleDaemonContext<B, S>,
    status: DaemonStatus,
)
    requires
        !old(ctx).stop,
        old(ctx).operation_epoch < u64::MAX,
        old(ctx).runtime.lifecycle.daemon_state != DaemonState::Stopping,
        old(ctx).runtime.lifecycle.generation < u64::MAX,
        call_ensures(stop_capture_transaction::<B, S>, (ctx,), done),
        *after == *final(ctx),
        call_ensures(idle_status_response::<B, S>, (after,), status),
    ensures
        done.response.ok,
        done.response.message@ == "capture stopped"@,
        done.response.error_context.error_class is None,
        done.response.status is Some,
        done.response.status->0@ == status@,
        done.released@.len() == 1,
        done.released@[0].backend == old(ctx).runtime.capture,
        done.released@[0].session == old(ctx).runtime.session,
        old(ctx).runtime.config_family == ConfigFamily::Legacy ==> status.state
            == RunState::Stopped,
        old(ctx).runtime.config_family == ConfigFamily::App && old(ctx).runtime.active_profile
            is Some ==> status.state == RunState::Idle,
        old(ctx).runtime.config_family == ConfigFamily::App && old(ctx).runtime.active_profile
            is None ==> status.state == RunState::Unconfigured,
        status.last_error is None,
        status.sample_rate == 0,
        status.channel_count == 0,
        status.lifecycle.daemon_state == DaemonState::Ready,
        status.lifecycle.capture_state == CaptureState::Stopped,
        status.lifecycle.error_class is None,
        status.lifecycle.last_error is None,
        status.lifecycle.retry_policy == RetryPolicy::NoRetry,
        status.lifecycle.retry_attempt == 0,
        status.lifecycle.next_retry_at is None,
        status.lifecycle.resolved_target is None,
        old(ctx).runtime.active_profile is Some ==> text_of(status.lifecycle.active_profile)
            == Some(old(ctx).runtime.active_profile->0.name@),
        old(ctx).runtime.active_profile is None ==> status.lifecycle.active_profile is None,
        final(ctx).runtime.capture is None,
        final(ctx).runtime.session is None,
        final(ctx).runtime.capture_health is None,
        final(ctx).runtime.resolved_capture is None,
        final(ctx).runtime.last_error is None,
        final(ctx).runtime.config_load_error is None,
        final(ctx).runtime.config == old(ctx).runtime.config,
        final(ctx).runtime.config_family == old(ctx).runtime.config_family,
        final(ctx).runtime.prepared_legacy == old(ctx).runtime.prepared_legacy,
        final(ctx).runtime.active_profile == old(ctx).runtime.active_profile,
        final(ctx).runtime.lifecycle.generation == old(ctx).runtime.lifecycle.generation + 1,
        final(ctx).operation_epoch == old(ctx).operation_epoch + 1,
        !final(ctx).runtime_poisoned,
        !final(ctx).stop,
{
}

/// Where no operation can begin, a stop of capture changes nothing and says why.
pub proof fn a_refused_stop_of_capture_changes_nothing<B, S>(
    ctx: &mut IdleDaemonContext<B, S>,
    done: Completion<B, S>,
)
    requires
        old(ctx).stop || old(ctx).operation_epoch == u64::MAX
            || old(ctx).runtime.lifecycle.daemon_state == DaemonState::Stopping
            || old(ctx).runtime.lifecycle.generation == u64::MAX,
        call_ensures(stop_capture_transaction::<B, S>, (ctx,), done),
    ensures
        final(ctx)@ == old(ctx)@,
        !done.response.ok,
        old(ctx).stop ==> done.response.message@ == "daemon is shutting down"@
            && done.response.error_context.error_class == Some(ErrorClass::Transient),
        !old(ctx).stop ==> done.response.error_context.error_class == Some(ErrorClass::Fatal),
        !old(ctx).stop && old(ctx).operation_epoch == u64::MAX ==> done.response.message@
            == "operation epoch overflow"@,
        !old(ctx).stop && old(ctx).operation_epoch < u64::MAX
            && old(ctx).runtime.lifecycle.daemon_state == DaemonState::Stopping
            ==> done.response.message@
            == "control error: "@ + "daemon is stopping"@,
        done.released@.len() == 1,
        done.released@[0].backend is None,
        done.released@[0].session is None,
{
}

impl<B, S> AppRuntimeState<B, S> {
    /// Whether a state that says it captures holds the capture that runs.
    pub open spec fn captures_truly(self) -> bool {
        self.state == RunState::Capturing ==> {
            &&& self.capture is Some
            &&& self.session is Some
            &&& self.lifecycle.capture_state == CaptureState::Running
        }
    }
}

impl<B, S> IdleDaemonContext<B, S> {
    /// Whether a daemon that goes on and says it captures holds the capture that
    /// runs.
    pub open spec fn captures_truly(self) -> bool {
        self.stop || self.runtime.captures_truly()
    }
}

/// A status that says that the daemon captures is true: a capture is held, with its
/// session, and it runs.
pub proof fn a_capturing_status_is_true<B, S>(ctx: &IdleDaemonContext<B, S>, status: DaemonStatus)
    requires
        ctx.captures_truly(),
        call_ensures(idle_status_response::<B, S>, (ctx,), status),
        status.state == RunState::Capturing,
    ensures
        ctx.runtime.capture is Some,
        ctx.runtime.session is Some,
        status.lifecycle.capture_state == CaptureState::Running,
        status.sample_rate == ctx.runtime.session->0.sample_rate,
{
}

/// Beginning an operation, stopping capture, ending the daemon and letting go of the
/// capture for good keep it true that a daemon which says it captures does.
pub proof fn operations_keep_captures_true<B, S>(
    beginning: &mut IdleDaemonContext<B, S>,
    entry: OperationEntry,
    begun: Result<BegunOperation, CaptureAttemptError>,
    stopping: &mut IdleDaemonContext<B, S>,
    stopped: Completion<B, S>,
    ending: &mut IdleDaemonContext<B, S>,
    releasing: &mut IdleDaemonContext<B, S>,
    released: Released<B, S>,
)
    requires
        old(beginning).captures_truly(),
        call_ensures(begin_new_operation_generation::<B, S>, (beginning, entry), begun),
        old(stopping).captures_truly(),
        call_ensures(stop_capture_transaction::<B, S>, (stopping,), stopped),
        old(ending).captures_truly(),
        call_ensures(begin_shutdown::<B, S>, (ending,), ()),
        call_ensures(release_capture_for_shutdown::<B, S>, (releasing,), released),
    ensures
        final(beginning).captures_truly(),
        final(stopping).captures_truly(),
        stopped.response.ok ==> final(stopping).runtime.state != RunState::Capturing,
        final(ending).captures_truly(),
        final(releasing).captures_truly(),
        final(releasing).runtime.state != RunState::Capturing,
{
}

/// Failures, faults and decisions about scheduled work keep it true as well.
pub proof fn failures_keep_captures_true<B, S>(
    failing: &mut IdleDaemonContext<B, S>,
    token: u64,
    operation_generation: Option<u64>,
    error: CaptureAttemptError,
    preserve_running: bool,
    now: RetryInstant,
    failed: (ControlResponse, Released<B, S>),
    publishing: &mut IdleDaemonContext<B, S>,
    published: Released<B, S>,
    faulting: &mut IdleDaemonContext<B, S>,
    generation: u64,
    attempt_id: CaptureAttemptId,
    fault: RuntimeCaptureFault,
    faulted: Released<B, S>,
    deciding: &mut IdleDaemonContext<B, S>,
    decided: (ScheduledGenerationDecision, Released<B, S>),
)
    requires
        old(failing).captures_truly(),
        call_ensures(
            command_attempt_failure_with_generation::<B, S>,
            (failing, token, operation_generation, error, preserve_running, now),
            failed,
        ),
        old(publishing).captures_truly(),
        call_ensures(publish_capture_attempt_error::<B, S>, (publishing, error, now), published),
        old(faulting).captures_truly(),
        call_ensures(
            publish_runtime_fault::<B, S>,
            (faulting, generation, attempt_id, fault, now),
            faulted,
        ),
        old(deciding).captures_truly(),
        call_ensures(scheduled_generation_decision::<B, S>, (deciding, generation), decided),
    ensures
        final(failing).captures_truly(),
        final(publishing).captures_truly(),
        final(faulting).captures_truly(),
        final(deciding).captures_truly(),
{
}

/// Every way in which a capture comes into use keeps it true as well: a start that
/// found none running, a reload, and each swap of a state for another.
pub proof fn starts_keep_captures_true<B, S>(
    detaching: &mut IdleDaemonContext<B, S>,
    operation: BegunOperation,
    requested_profile: &Option<String>,
    activate: bool,
    candidate: Result<PreparedCommandConfig, CaptureAttemptError>,
    now: RetryInstant,
    detached: CommandStep<B, S>,
    reloading: &mut IdleDaemonContext<B, S>,
    reloaded: CommandStep<B, S>,
    legacy: &mut IdleDaemonContext<B, S>,
    request: InstallRequest,
    prepared: PreparedLegacyConfig,
    active: ActiveCapture<B, S>,
    recovery: Result<u64, LambError>,
    legacy_done: Completion<B, S>,
    app: &mut IdleDaemonContext<B, S>,
    built: AppRuntimeState<B, S>,
    app_done: Completion<B, S>,
    configured: &mut IdleDaemonContext<B, S>,
    configured_done: ConfiguredStep<B, S>,
)
    requires
        old(detaching).captures_truly(),
        old(detaching).runtime.lifecycle.capture_state != CaptureState::Running,
        call_ensures(
            detach_for_start::<B, S>,
            (detaching, operation, requested_profile, activate, candidate, now),
            detached,
        ),
        old(reloading).captures_truly(),
        call_ensures(
            admit_reload::<B, S>,
            (reloading, operation, candidate, now),
            reloaded,
        ),
        old(legacy).captures_truly(),
        call_ensures(
            legacy_recovered::<B, S>,
            (legacy, request, prepared, active, recovery, now),
            legacy_done,
        ),
        old(app).captures_truly(),
        built.captures_truly(),
        call_ensures(publish_app_candidate::<B, S>, (app, request, built), app_done),
        old(configured).captures_truly(),
        call_ensures(
            configured_start_recovered::<B, S>,
            (configured, active, recovery, now),
            configured_done,
        ),
    ensures
        final(detaching).captures_truly(),
        final(reloading).captures_truly(),
        final(legacy).captures_truly(),
        final(app).captures_truly(),
        final(configured).captures_truly(),
{
}

/// Applying a configuration to a state that does not say it captures leaves one that
/// says so only once the capture was taken in.
pub proof fn applying_keeps_captures_true<B, S>(
    applying: &mut AppRuntimeState<B, S>,
    loaded: LoadedAppConfig,
    profile: Result<Option<ResolvedProfile>, LambError>,
    path: &String,
    begin_attempt_generation: bool,
    current: bool,
    applied: ApplyStep<B, S>,
    recovering: &mut AppRuntimeState<B, S>,
    attempt: PrivateAppCaptureAttempt<B, S>,
    recovery: Result<u64, LambError>,
    recovered: Result<(), (Released<B, S>, LambError)>,
    preparing: &mut AppRuntimeState<B, S>,
    starting: &mut AppRuntimeState<B, S>,
    error: CaptureAttemptError,
    now: RetryInstant,
    prepared: Result<(), LambError>,
    started: Result<(), LambError>,
)
    requires
        old(applying).state != RunState::Capturing,
        call_ensures(
            begin_apply::<B, S>,
            (applying, loaded, profile, path, begin_attempt_generation, current),
            applied,
        ),
        old(recovering).captures_truly(),
        old(recovering).active_profile is Some,
        call_ensures(
            app_capture_recovered::<B, S>,
            (recovering, attempt, recovery, current),
            recovered,
        ),
        old(preparing).captures_truly(),
        call_ensures(app_prepare_failed::<B, S>, (preparing, error, now), prepared),
        old(starting).captures_truly(),
        call_ensures(app_start_failed::<B, S>, (starting, error, current, now), started),
    ensures
        final(applying).state != RunState::Capturing,
        final(recovering).captures_truly(),
        final(preparing).captures_truly(),
        final(starting).captures_truly(),
{
}

/// An operation is current exactly while no other began after it and the daemon goes
/// on; a capture runs exactly where its backend and its session are held, the
/// lifecycle says so, and nobody failed on the state.
pub proof fn what_is_current_and_what_runs<B, S>(
    ctx: &IdleDaemonContext<B, S>,
    token: u64,
    current: bool,
    running: bool,
)
    requires
        call_ensures(operation_is_current::<B, S>, (ctx, token), current),
        call_ensures(current_capture_is_running::<B, S>, (ctx,), running),
    ensures
        current <==> !ctx.stop && ctx.operation_epoch == token,
        running <==> {
            &&& !ctx.runtime_poisoned
            &&& ctx.runtime.capture is Some
            &&& ctx.runtime.session is Some
            &&& ctx.runtime.lifecycle.capture_state == CaptureState::Running
        },
{
}

/// A command begins with the next token and the next generation. Everything planned
/// before it is dropped, a capture that runs goes on, and a fault that it met and
/// that only an older generation heard of is pending again under the new one.
pub proof fn a_command_begins<B, S>(
    ctx: &mut IdleDaemonContext<B, S>,
    begun: Result<BegunOperation, CaptureAttemptError>,
)
    requires
        call_ensures(
            begin_new_operation_generation::<B, S>,
            (ctx, OperationEntry::Command),
            begun,
        ),
    ensures
        begun is Ok <==> !old(ctx).stop && old(ctx).operation_epoch < u64::MAX
            && old(ctx).runtime.lifecycle.daemon_state != DaemonState::Stopping
            && old(ctx).runtime.lifecycle.generation < u64::MAX,
        begun is Err ==> final(ctx)@ == old(ctx)@,
        begun is Ok ==> {
            &&& begun->Ok_0.token == old(ctx).operation_epoch + 1
            &&& begun->Ok_0.generation == old(ctx).runtime.lifecycle.generation + 1
            &&& final(ctx).operation_epoch == begun->Ok_0.token
            &&& final(ctx).runtime.lifecycle.generation == begun->Ok_0.generation
            &&& final(ctx).runtime.capture == old(ctx).runtime.capture
            &&& final(ctx).runtime.session == old(ctx).runtime.session
            &&& final(ctx).runtime.resolved_capture == old(ctx).runtime.resolved_capture
            &&& final(ctx).runtime.active_profile == old(ctx).runtime.active_profile
            &&& final(ctx).runtime.config == old(ctx).runtime.config
            &&& final(ctx).runtime.state == old(ctx).runtime.state
            &&& final(ctx).runtime.lifecycle.capture_state
                == old(ctx).runtime.lifecycle.capture_state
            &&& final(ctx).runtime.lifecycle.error_class == old(ctx).runtime.lifecycle.error_class
            &&& !final(ctx).stop
            &&& !final(ctx).runtime_poisoned
            &&& final(ctx).attempts == old(ctx).attempts
            &&& old(ctx).scheduler.generation <= begun->Ok_0.generation ==> {
                &&& final(ctx).scheduler.generation == begun->Ok_0.generation
                &&& (old(ctx).runtime.capture_health is None
                    || old(ctx).runtime.capture_health->0.fault is None)
                    ==> final(ctx).scheduler.pending
                    is None
            }
            &&& old(ctx).runtime.capture_health is Some
                && old(ctx).runtime.capture_health->0.sink is Bound ==> {
                let health = final(ctx).runtime.capture_health->0;
                &&& final(ctx).runtime.capture_health is Some
                &&& health.armed
                &&& health.sink is Bound
                &&& health.sink->generation == begun->Ok_0.generation
                &&& health.sink->attempt_id
                    == old(ctx).runtime.capture_health->0.sink->attempt_id
                &&& health.fault == old(ctx).runtime.capture_health->0.fault
            }
        },
{
}

/// A fault that a capture met is pending again under the generation of the command
/// that just began, so that it is not lost.
pub proof fn a_command_takes_a_standing_fault_along<B, S>(
    ctx: &mut IdleDaemonContext<B, S>,
    begun: Result<BegunOperation, CaptureAttemptError>,
)
    requires
        call_ensures(
            begin_new_operation_generation::<B, S>,
            (ctx, OperationEntry::Command),
            begun,
        ),
        begun is Ok,
        !old(ctx).scheduler.stopped,
        old(ctx).scheduler.generation <= old(ctx).runtime.lifecycle.generation,
        old(ctx).runtime.capture_health is Some,
        old(ctx).runtime.capture_health->0.fault is Some,
        old(ctx).runtime.capture_health->0.sink is Bound,
        old(ctx).runtime.capture_health->0.sink->generation
            <= old(ctx).runtime.lifecycle.generation,
    ensures
        final(ctx).scheduler.pending == Some(
            PendingOperation::Immediate(
                ScheduledOperation::RuntimeFault {
                    generation: begun->Ok_0.generation,
                    attempt_id: old(ctx).runtime.capture_health->0.sink->attempt_id,
                    fault: old(ctx).runtime.capture_health->0.fault->0,
                },
            ),
        ),
{
}

/// Once its end has begun, the daemon takes nothing more: no operation is current, no
/// scheduled work is pending or taken, and what is held stays held until it is let go
/// of for good.
pub proof fn the_daemon_goes_down<B, S>(
    ctx: &mut IdleDaemonContext<B, S>,
    ended: &IdleDaemonContext<B, S>,
    token: u64,
    current: bool,
    releasing: &mut IdleDaemonContext<B, S>,
    released: Released<B, S>,
)
    requires
        call_ensures(begin_shutdown::<B, S>, (ctx,), ()),
        *ended == *final(ctx),
        call_ensures(operation_is_current::<B, S>, (ended, token), current),
        *old(releasing) == *final(ctx),
        call_ensures(release_capture_for_shutdown::<B, S>, (releasing,), released),
    ensures
        final(ctx).stop,
        !current,
        final(ctx).scheduler.stopped,
        final(ctx).scheduler.pending is None,
        final(ctx).runtime.lifecycle.daemon_state == DaemonState::Stopping,
        final(ctx).runtime.lifecycle.error_class is None,
        final(ctx).runtime.lifecycle.next_retry_at is None,
        final(ctx).runtime.lifecycle.capture_state == old(ctx).runtime.lifecycle.capture_state,
        !final(ctx).runtime_poisoned,
        final(ctx).runtime.capture == old(ctx).runtime.capture,
        final(ctx).runtime.session == old(ctx).runtime.session,
        text_of(final(ctx).first_fatal) == text_of(old(ctx).first_fatal),
        released.backend == old(ctx).runtime.capture,
        released.session == old(ctx).runtime.session,
        final(releasing).stop,
        final(releasing).runtime.capture is None,
        final(releasing).runtime.session is None,
        final(releasing).runtime.capture_health is None,
        final(releasing).runtime.resolved_capture is None,
        final(releasing).runtime.state == RunState::Stopping,
        final(releasing).runtime.last_error is None,
        final(releasing).runtime.config_load_error is None,
        final(releasing).runtime.lifecycle.daemon_state == DaemonState::Stopping,
{
}

/// The first error that ends the daemon is the one it ends with; a later one is not.
pub proof fn the_first_fatal_error_is_kept<B, S>(
    first: &mut IdleDaemonContext<B, S>,
    message: String,
    second: &mut IdleDaemonContext<B, S>,
    later: String,
)
    requires
        call_ensures(signal_fatal::<B, S>, (first, message), ()),
        *old(second) == *final(first),
        call_ensures(signal_fatal::<B, S>, (second, later), ()),
    ensures
        final(first).stop,
        final(first).scheduler.stopped,
        final(first).scheduler.pending is None,
        final(first).runtime@ == old(first).runtime@,
        old(first).first_fatal is None ==> text_of(final(first).first_fatal) == Some(message@),
        old(first).first_fatal is Some ==> text_of(final(first).first_fatal) == text_of(
            old(first).first_fatal,
        ),
        text_of(final(second).first_fatal) == text_of(final(first).first_fatal),
{
}

/// An answer ends the daemon exactly where it tells of an error that does.
pub proof fn only_a_fatal_answer_ends_the_daemon<B, S>(
    ctx: &mut IdleDaemonContext<B, S>,
    response: &ControlResponse,
)
    requires
        call_ensures(signal_fatal_response::<B, S>, (ctx, response), ()),
    ensures
        response.error_context.error_class == Some(ErrorClass::Fatal) ==> {
            &&& final(ctx).stop
            &&& final(ctx).scheduler.stopped
            &&& old(ctx).first_fatal is None ==> text_of(final(ctx).first_fatal) == Some(
                response.message@,
            )
        },
        response.error_context.error_class != Some(ErrorClass::Fatal) ==> final(ctx)@ == old(ctx)@,
{
}

/// No two attempts have one identity: each gets the one after the last.
pub proof fn attempts_are_told_apart<B, S>(
    first: &mut IdleDaemonContext<B, S>,
    one: Result<CaptureAttemptId, CaptureAttemptError>,
    second: &mut IdleDaemonContext<B, S>,
    other: Result<CaptureAttemptId, CaptureAttemptError>,
)
    requires
        call_ensures(allocate_capture_attempt_id::<B, S>, (first,), one),
        *old(second) == *final(first),
        call_ensures(allocate_capture_attempt_id::<B, S>, (second,), other),
    ensures
        one is Ok <==> old(first).attempts < u64::MAX,
        one is Ok ==> one->Ok_0.raw == old(first).attempts + 1,
        one is Ok ==> final(first).runtime@ == old(first).runtime@,
        one is Ok && other is Ok ==> one->Ok_0.raw < other->Ok_0.raw,
        one is Err ==> {
            &&& one->Err_0.class == ErrorClass::Fatal
            &&& one->Err_0.message@ == "capture attempt identity overflow"@
            &&& final(first)@ == old(first)@
        },
{
}

/// A retry begins with the next token and leaves the generation alone.
pub proof fn a_token_alone_begins<B, S>(
    ctx: &mut IdleDaemonContext<B, S>,
    begun: Result<u64, CaptureAttemptError>,
)
    requires
        call_ensures(begin_command_operation::<B, S>, (ctx,), begun),
    ensures
        begun is Ok <==> !old(ctx).stop && old(ctx).operation_epoch < u64::MAX,
        begun is Ok ==> {
            &&& begun->Ok_0 == old(ctx).operation_epoch + 1
            &&& final(ctx).operation_epoch == begun->Ok_0
            &&& final(ctx).runtime@ == old(ctx).runtime@
            &&& final(ctx).scheduler == old(ctx).scheduler
        },
        begun is Err ==> final(ctx)@ == old(ctx)@,
        begun is Err && old(ctx).stop ==> begun->Err_0.class == ErrorClass::Transient
            && begun->Err_0.message@ == "daemon is shutting down"@,
        begun is Err && !old(ctx).stop ==> begun->Err_0.class == ErrorClass::Fatal
            && begun->Err_0.message@ == "operation epoch overflow"@,
{
}

/// The sink that an attempt reports to carries the generation under which its capture
/// is published: the two agree where nothing else begins between them.
pub proof fn a_sink_carries_the_published_generation<B, S>(
    ctx: &mut IdleDaemonContext<B, S>,
    operation_generation: Option<u64>,
    sink: Result<RuntimeFaultSink, CaptureAttemptError>,
    lifecycle: &mut LifecycleState,
    published: Result<u64, LambError>,
)
    requires
        call_ensures(
            runtime_fault_sink_for_attempt::<B, S>,
            (ctx, operation_generation),
            sink,
        ),
        *old(lifecycle) == final(ctx).runtime.lifecycle,
        call_ensures(publication_generation, (lifecycle, operation_generation), published),
        sink is Ok,
        published is Ok,
    ensures
        sink->Ok_0 is Bound,
        sink->Ok_0->generation == published->Ok_0,
        sink->Ok_0->attempt_id.raw == old(ctx).attempts + 1,
        final(lifecycle).generation == published->Ok_0,
        final(ctx).runtime@ == old(ctx).runtime@,
{
}

/// An operation publishes under its own generation exactly while that is the last, and
/// one that has none under the next one.
pub proof fn a_publication_has_its_generation(
    lifecycle: &mut LifecycleState,
    operation_generation: Option<u64>,
    published: Result<u64, LambError>,
)
    requires
        call_ensures(publication_generation, (lifecycle, operation_generation), published),
    ensures
        operation_generation is Some ==> {
            &&& published is Ok <==> old(lifecycle).generation == operation_generation->0
            &&& published is Ok ==> published->Ok_0 == operation_generation->0
            &&& final(lifecycle)@ == old(lifecycle)@
        },
        operation_generation is None ==> {
            &&& published is Ok <==> old(lifecycle).daemon_state != DaemonState::Stopping
                && old(lifecycle).generation < u64::MAX
            &&& published is Ok ==> published->Ok_0 == old(lifecycle).generation + 1
            &&& published is Ok ==> final(lifecycle).generation == published->Ok_0
            &&& published is Err ==> final(lifecycle)@ == old(lifecycle)@
        },
        final(lifecycle).capture_state == old(lifecycle).capture_state,
        final(lifecycle).error_class == old(lifecycle).error_class,
        final(lifecycle).next_retry_at == old(lifecycle).next_retry_at,
{
}

/// A failed attempt that may pass is retried by the daemon itself: the state tells of
/// the error, and exactly one retry is pending, under the generation of the
/// operation, at least a second later unless the clock ends first.
pub proof fn a_passing_failure_is_retried<B, S>(
    ctx: &mut IdleDaemonContext<B, S>,
    token: u64,
    operation_generation: Option<u64>,
    error: CaptureAttemptError,
    preserve_running: bool,
    now: RetryInstant,
    outcome: (ControlResponse, Released<B, S>),
)
    requires
        !old(ctx).stop,
        old(ctx).operation_epoch == token,
        error.class == ErrorClass::Transient,
        !preserve_running || old(ctx).runtime.capture is None,
        operation_generation is Some ==> operation_generation->0
            == old(ctx).runtime.lifecycle.generation,
        operation_generation is None ==> old(ctx).runtime.lifecycle.generation < u64::MAX
            && old(ctx).runtime.lifecycle.daemon_state != DaemonState::Stopping,
        !old(ctx).scheduler.stopped,
        old(ctx).scheduler.generation <= old(ctx).runtime.lifecycle.generation,
        call_ensures(
            command_attempt_failure_with_generation::<B, S>,
            (ctx, token, operation_generation, error, preserve_running, now),
            outcome,
        ),
    ensures
        ({
            let lifecycle = final(ctx).runtime.lifecycle;
            &&& lifecycle.generation == old(ctx).runtime.lifecycle.generation + (
            if operation_generation is Some {
                0int
            } else {
                1
            })
            &&& lifecycle.daemon_state == DaemonState::Degraded
            &&& lifecycle.capture_state == error.capture_state
            &&& lifecycle.error_class == Some(ErrorClass::Transient)
            &&& text_of(lifecycle.last_error) == Some(error.message@)
            &&& lifecycle.retry_policy == RetryPolicy::BoundedBackoff
            &&& lifecycle.retry_attempt >= 1
            &&& old(ctx).runtime.lifecycle.retry_attempt < u32::MAX ==> lifecycle.retry_attempt
                == old(ctx).runtime.lifecycle.retry_attempt + 1
            &&& lifecycle.next_retry_at is Some
            &&& lifecycle.next_retry_at->0.millis >= now.millis + 1_000
                || lifecycle.next_retry_at->0.millis == u64::MAX
            &&& final(ctx).scheduler.pending == Some(
                PendingOperation::Retry {
                    generation: lifecycle.generation,
                    due: lifecycle.next_retry_at->0,
                },
            )
        }),
        final(ctx).runtime.state == RunState::Faulted,
        text_of(final(ctx).runtime.last_error) == Some(error.message@),
        text_of(final(ctx).runtime.config_load_error) == Some(error.message@),
        final(ctx).runtime.config == old(ctx).runtime.config,
        final(ctx).runtime.active_profile == old(ctx).runtime.active_profile,
        !final(ctx).runtime_poisoned,
        !final(ctx).stop,
        !outcome.0.ok,
        outcome.0.message@ == error.message@,
        outcome.0.error_context.error_class == Some(ErrorClass::Transient),
        outcome.0.error_context.daemon_state == Some(DaemonState::Degraded),
        outcome.0.error_context.capture_state == Some(error.capture_state),
        old(ctx).runtime_poisoned ==> {
            &&& outcome.1.backend == old(ctx).runtime.capture
            &&& outcome.1.session == old(ctx).runtime.session
            &&& final(ctx).runtime.capture is None
            &&& final(ctx).runtime.session is None
        },
        !old(ctx).runtime_poisoned ==> {
            &&& outcome.1.backend is None
            &&& outcome.1.session is None
            &&& final(ctx).runtime.capture == old(ctx).runtime.capture
            &&& final(ctx).runtime.session == old(ctx).runtime.session
        },
{
}

/// A failed attempt that waits for an operator plans nothing, and drops what was
/// planned.
pub proof fn a_lasting_failure_waits_for_an_operator<B, S>(
    ctx: &mut IdleDaemonContext<B, S>,
    token: u64,
    operation_generation: Option<u64>,
    error: CaptureAttemptError,
    now: RetryInstant,
    outcome: (ControlResponse, Released<B, S>),
)
    requires
        !old(ctx).stop,
        old(ctx).operation_epoch == token,
        error.class == ErrorClass::Permanent,
        operation_generation is Some ==> operation_generation->0
            == old(ctx).runtime.lifecycle.generation,
        operation_generation is None ==> old(ctx).runtime.lifecycle.generation < u64::MAX
            && old(ctx).runtime.lifecycle.daemon_state != DaemonState::Stopping,
        old(ctx).scheduler.generation <= old(ctx).runtime.lifecycle.generation,
        call_ensures(
            command_attempt_failure_with_generation::<B, S>,
            (ctx, token, operation_generation, error, false, now),
            outcome,
        ),
    ensures
        final(ctx).scheduler.pending is None,
        final(ctx).runtime.state == RunState::Faulted,
        final(ctx).runtime.lifecycle.daemon_state == DaemonState::Degraded,
        final(ctx).runtime.lifecycle.capture_state == CaptureState::Faulted,
        final(ctx).runtime.lifecycle.error_class == Some(ErrorClass::Permanent),
        text_of(final(ctx).runtime.lifecycle.last_error) == Some(error.message@),
        final(ctx).runtime.lifecycle.retry_policy == RetryPolicy::Manual,
        final(ctx).runtime.lifecycle.retry_attempt == 0,
        final(ctx).runtime.lifecycle.next_retry_at is None,
        text_of(final(ctx).runtime.last_error) == Some(error.message@),
        text_of(final(ctx).runtime.config_load_error) == Some(error.message@),
        !final(ctx).stop,
        !outcome.0.ok,
        outcome.0.message@ == error.message@,
        outcome.0.error_context.error_class == Some(ErrorClass::Permanent),
{
}

/// A failed attempt that ends the daemon leaves the state as it was.
pub proof fn a_fatal_failure_ends_the_daemon<B, S>(
    ctx: &mut IdleDaemonContext<B, S>,
    token: u64,
    operation_generation: Option<u64>,
    error: CaptureAttemptError,
    preserve_running: bool,
    now: RetryInstant,
    outcome: (ControlResponse, Released<B, S>),
)
    requires
        !old(ctx).stop,
        old(ctx).operation_epoch == token,
        error.class == ErrorClass::Fatal,
        call_ensures(
            command_attempt_failure_with_generation::<B, S>,
            (ctx, token, operation_generation, error, preserve_running, now),
            outcome,
        ),
    ensures
        final(ctx).stop,
        final(ctx).scheduler.stopped,
        final(ctx).runtime@ == old(ctx).runtime@,
        old(ctx).first_fatal is None ==> text_of(final(ctx).first_fatal) == Some(error.message@),
        !outcome.0.ok,
        outcome.0.message@ == error.message@,
        outcome.0.error_context.error_class == Some(ErrorClass::Fatal),
        outcome.1.backend is None,
        outcome.1.session is None,
{
}

/// The failure of an operation that is to spare a running capture leaves all as it
/// was: only the client hears of it, by its own message.
pub proof fn a_spared_capture_goes_on<B, S>(
    ctx: &mut IdleDaemonContext<B, S>,
    token: u64,
    operation_generation: Option<u64>,
    error: CaptureAttemptError,
    now: RetryInstant,
    outcome: (ControlResponse, Released<B, S>),
)
    requires
        !old(ctx).stop,
        old(ctx).operation_epoch == token,
        error.class != ErrorClass::Fatal,
        !old(ctx).runtime_poisoned,
        old(ctx).runtime.capture is Some,
        old(ctx).runtime.session is Some,
        old(ctx).runtime.lifecycle.capture_state == CaptureState::Running,
        call_ensures(
            command_attempt_failure_with_generation::<B, S>,
            (ctx, token, operation_generation, error, true, now),
            outcome,
        ),
    ensures
        final(ctx)@ == old(ctx)@,
        !outcome.0.ok,
        outcome.0.message@ == error.message@,
        outcome.0.error_context.error_class == Some(error.class),
        outcome.0.error_context.capture_state == Some(CaptureState::Running),
        outcome.1.backend is None,
        outcome.1.session is None,
{
}

/// The failure of an operation whose place was taken changes nothing.
pub proof fn a_superseded_failure_changes_nothing<B, S>(
    ctx: &mut IdleDaemonContext<B, S>,
    token: u64,
    operation_generation: Option<u64>,
    error: CaptureAttemptError,
    preserve_running: bool,
    now: RetryInstant,
    outcome: (ControlResponse, Released<B, S>),
)
    requires
        old(ctx).stop || old(ctx).operation_epoch != token,
        call_ensures(
            command_attempt_failure_with_generation::<B, S>,
            (ctx, token, operation_generation, error, preserve_running, now),
            outcome,
        ),
    ensures
        final(ctx)@ == old(ctx)@,
        !outcome.0.ok,
        outcome.0.error_context.error_class == Some(ErrorClass::Transient),
        old(ctx).stop ==> outcome.0.message@ == "daemon is shutting down"@,
        !old(ctx).stop ==> outcome.0.message@ == "capture operation was superseded"@,
        outcome.1.backend is None,
        outcome.1.session is None,
{
}

/// A failure without a generation of its own is treated as one with the next
/// generation.
pub proof fn a_failure_without_a_generation_takes_the_next<B, S>(
    ctx: &mut IdleDaemonContext<B, S>,
    same: &mut IdleDaemonContext<B, S>,
    token: u64,
    error: CaptureAttemptError,
    preserve_running: bool,
    now: RetryInstant,
    outcome: (ControlResponse, Released<B, S>),
    other: (ControlResponse, Released<B, S>),
)
    requires
        *old(same) == *old(ctx),
        call_ensures(
            command_attempt_failure::<B, S>,
            (ctx, token, error, preserve_running, now),
            outcome,
        ),
        call_ensures(
            command_attempt_failure_with_generation::<B, S>,
            (same, token, None, error, preserve_running, now),
            other,
        ),
    ensures
        final(ctx)@ == final(same)@,
        outcome.0@ == other.0@,
        outcome.1 == other.1,
{
}

/// A failed attempt that no command waits for becomes part of the state under the
/// next generation, and its retry is planned where it may pass; one that ends the
/// daemon only does that.
pub proof fn a_failure_outside_commands_is_kept<B, S>(
    ctx: &mut IdleDaemonContext<B, S>,
    error: CaptureAttemptError,
    now: RetryInstant,
    released: Released<B, S>,
)
    requires
        old(ctx).runtime.lifecycle.generation < u64::MAX,
        old(ctx).runtime.lifecycle.daemon_state != DaemonState::Stopping,
        call_ensures(publish_capture_attempt_error::<B, S>, (ctx, error, now), released),
    ensures
        error.class == ErrorClass::Fatal ==> {
            &&& final(ctx).stop
            &&& final(ctx).runtime@ == old(ctx).runtime@
            &&& released.backend is None
        },
        error.class != ErrorClass::Fatal ==> {
            &&& final(ctx).stop == old(ctx).stop
            &&& final(ctx).runtime.state == RunState::Faulted
            &&& text_of(final(ctx).runtime.last_error) == Some(error.message@)
            &&& final(ctx).runtime.lifecycle.error_class == Some(error.class)
            &&& final(ctx).runtime.lifecycle.generation
                == old(ctx).runtime.lifecycle.generation + 1
            &&& error.class == ErrorClass::Transient ==> {
                &&& final(ctx).runtime.lifecycle.capture_state == error.capture_state
                &&& final(ctx).runtime.lifecycle.next_retry_at is Some
            }
            &&& error.class == ErrorClass::Permanent ==> {
                &&& final(ctx).runtime.lifecycle.capture_state == CaptureState::Faulted
                &&& final(ctx).runtime.lifecycle.next_retry_at is None
            }
        },
{
}

/// Scheduled work is carried out exactly where it belongs to the generation that the
/// daemon is in and the scheduler goes on.
pub proof fn scheduled_work_is_decided<B, S>(
    ctx: &mut IdleDaemonContext<B, S>,
    generation: u64,
    decision: (ScheduledGenerationDecision, Released<B, S>),
)
    requires
        !old(ctx).runtime_poisoned,
        call_ensures(scheduled_generation_decision::<B, S>, (ctx, generation), decision),
    ensures
        final(ctx)@ == old(ctx)@,
        decision.0 == ScheduledGenerationDecision::Terminalized <==> old(ctx).scheduler.stopped,
        decision.0 == ScheduledGenerationDecision::Current <==> !old(ctx).scheduler.stopped
            && old(ctx).runtime.lifecycle.generation == generation,
        decision.1.backend is None,
        decision.1.session is None,
{
}

/// A state that someone failed on is put in order by what is decided about scheduled
/// work: older work is stale, current work goes on only where the state is as a
/// planned retry needs it, and otherwise the capture is let go of and the daemon
/// ends.
pub proof fn scheduled_work_on_a_failed_state_is_decided<B, S>(
    ctx: &mut IdleDaemonContext<B, S>,
    generation: u64,
    decision: (ScheduledGenerationDecision, Released<B, S>),
)
    requires
        old(ctx).runtime_poisoned,
        call_ensures(scheduled_generation_decision::<B, S>, (ctx, generation), decision),
    ensures
        !final(ctx).runtime_poisoned,
        decision.0 == ScheduledGenerationDecision::Stale <==> old(ctx).runtime.lifecycle.generation
            != generation,
        decision.0 == ScheduledGenerationDecision::Current <==> {
            &&& old(ctx).runtime.lifecycle.generation == generation
            &&& !old(ctx).scheduler.stopped
            &&& old(ctx).runtime.capture is None
            &&& old(ctx).runtime.session is None
            &&& old(ctx).runtime.capture_health is None
            &&& old(ctx).runtime.resolved_capture is None
            &&& old(ctx).runtime.lifecycle.error_class == Some(ErrorClass::Transient)
            &&& old(ctx).runtime.lifecycle.retry_policy == RetryPolicy::BoundedBackoff
            &&& old(ctx).runtime.lifecycle.next_retry_at is Some
        },
        decision.0 != ScheduledGenerationDecision::Terminalized ==> {
            &&& final(ctx).runtime@ == old(ctx).runtime@
            &&& final(ctx).stop == old(ctx).stop
            &&& decision.1.backend is None
            &&& decision.1.session is None
        },
        decision.0 == ScheduledGenerationDecision::Terminalized ==> {
            &&& final(ctx).stop
            &&& final(ctx).runtime.capture is None
            &&& final(ctx).runtime.session is None
            &&& decision.1.backend == old(ctx).runtime.capture
            &&& decision.1.session == old(ctx).runtime.session
            &&& old(ctx).first_fatal is None ==> text_of(final(ctx).first_fatal) == Some(
                "runtime state lock poison violated scheduled retry invariants"@,
            )
        },
{
}

/// A retry that comes due in its own generation, with a configuration that can be
/// taken over, forces a start: it begins with the next token, publishes under a
/// generation of its own, leaves a capture that is held in place until the new one
/// runs, and writes nothing down.
pub proof fn a_retry_that_is_due_starts_capture<B, S>(
    ctx: &mut IdleDaemonContext<B, S>,
    generation: u64,
    entry: RetryEntry<B, S>,
    admitting: &mut IdleDaemonContext<B, S>,
    candidate: PreparedCommandConfig,
    now: RetryInstant,
    step: RetryStep<B, S>,
)
    requires
        !old(ctx).runtime_poisoned,
        !old(ctx).stop,
        !old(ctx).scheduler.stopped,
        old(ctx).operation_epoch < u64::MAX,
        old(ctx).runtime.lifecycle.generation == generation,
        call_ensures(begin_retry::<B, S>, (ctx, generation), entry),
        *old(admitting) == *final(ctx),
        candidate.control_socket_path@ == old(ctx).control_socket_path@,
        call_ensures(
            admit_retry::<B, S>,
            (admitting, generation, entry->token, Ok(candidate), now),
            step,
        ),
    ensures
        entry is Prepare,
        entry->token == old(ctx).operation_epoch + 1,
        final(ctx).operation_epoch == entry->token,
        final(ctx).runtime@ == old(ctx).runtime@,
        step is Install,
        step->request.token == entry->token,
        step->request.operation_generation is None,
        step->request.force_start,
        !step->request.old_already_detached,
        !step->request.activate,
        step->prepared == candidate.prepared,
        final(admitting)@ == final(ctx)@,
{
}

/// A retry of another generation, or one that finds the daemon going down, does
/// nothing.
pub proof fn a_stale_retry_does_nothing<B, S>(
    ctx: &mut IdleDaemonContext<B, S>,
    generation: u64,
    entry: RetryEntry<B, S>,
)
    requires
        !old(ctx).runtime_poisoned,
        old(ctx).stop || old(ctx).scheduler.stopped || old(ctx).runtime.lifecycle.generation
            != generation,
        call_ensures(begin_retry::<B, S>, (ctx, generation), entry),
    ensures
        final(ctx)@ == old(ctx)@,
        entry is Skip,
        entry->Skip_0.backend is None,
        entry->Skip_0.session is None,
{
}

/// A retry whose configuration cannot be read or taken over counts as one more failed
/// attempt: its error is part of the state, and the next retry is planned where it
/// may pass.
pub proof fn a_retry_that_fails_counts<B, S>(
    ctx: &mut IdleDaemonContext<B, S>,
    generation: u64,
    token: u64,
    error: CaptureAttemptError,
    now: RetryInstant,
    step: RetryStep<B, S>,
)
    requires
        !old(ctx).stop,
        old(ctx).operation_epoch == token,
        old(ctx).runtime.lifecycle.generation < u64::MAX,
        old(ctx).runtime.lifecycle.daemon_state != DaemonState::Stopping,
        call_ensures(admit_retry::<B, S>, (ctx, generation, token, Err(error), now), step),
    ensures
        step is Done,
        error.class == ErrorClass::Fatal ==> final(ctx).stop && final(ctx).runtime@
            == old(ctx).runtime@,
        error.class != ErrorClass::Fatal ==> {
            &&& !final(ctx).stop
            &&& final(ctx).runtime.state == RunState::Faulted
            &&& text_of(final(ctx).runtime.lifecycle.last_error) == Some(error.message@)
            &&& final(ctx).runtime.lifecycle.generation
                == old(ctx).runtime.lifecycle.generation + 1
            &&& final(ctx).runtime.lifecycle.error_class == Some(error.class)
            &&& error.class == ErrorClass::Transient && old(ctx).runtime.lifecycle.retry_attempt
                < u32::MAX ==> final(ctx).runtime.lifecycle.retry_attempt
                == old(ctx).runtime.lifecycle.retry_attempt + 1
        },
{
}

/// A configuration is taken over exactly where it names the control socket in use.
pub proof fn a_candidate_names_the_socket_in_use<B, S>(
    ctx: &IdleDaemonContext<B, S>,
    candidate: &PreparedCommandConfig,
    checked: Result<(), CaptureAttemptError>,
)
    requires
        call_ensures(validate_candidate_socket::<B, S>, (ctx, candidate), checked),
    ensures
        checked is Ok <==> candidate.control_socket_path@ == ctx.control_socket_path@,
        checked is Err ==> {
            &&& checked->Err_0.class == ErrorClass::Permanent
            &&& checked->Err_0.capture_state == CaptureState::Faulted
            &&& checked->Err_0.message@ == "candidate control socket "@
                + candidate.control_socket_path@ + " differs from bound socket "@
                + ctx.control_socket_path@
        },
{
}

/// The fault of the capture that is held, in the generation that the daemon is in, lets
/// go of the capture whole and plans a retry; a device that went away is waited for,
/// and any other fault is shown as one.
pub proof fn a_fault_lets_go_of_its_capture<B, S>(
    ctx: &mut IdleDaemonContext<B, S>,
    generation: u64,
    attempt_id: CaptureAttemptId,
    fault: RuntimeCaptureFault,
    now: RetryInstant,
    released: Released<B, S>,
)
    requires
        !old(ctx).stop,
        !old(ctx).runtime_poisoned,
        !old(ctx).scheduler.stopped,
        old(ctx).scheduler.generation <= generation,
        old(ctx).runtime.lifecycle.generation == generation,
        old(ctx).runtime.capture_health is Some,
        old(ctx).runtime.capture_health->0.sink is Bound,
        old(ctx).runtime.capture_health->0.sink->attempt_id == attempt_id,
        call_ensures(
            publish_runtime_fault::<B, S>,
            (ctx, generation, attempt_id, fault, now),
            released,
        ),
    ensures
        released.backend == old(ctx).runtime.capture,
        released.session == old(ctx).runtime.session,
        final(ctx).runtime.capture is None,
        final(ctx).runtime.session is None,
        final(ctx).runtime.capture_health is None,
        final(ctx).runtime.resolved_capture is None,
        final(ctx).runtime.state == RunState::Faulted,
        final(ctx).runtime.active_profile == old(ctx).runtime.active_profile,
        final(ctx).runtime.config == old(ctx).runtime.config,
        final(ctx).runtime.lifecycle.generation == generation,
        final(ctx).runtime.lifecycle.daemon_state == DaemonState::Degraded,
        final(ctx).runtime.lifecycle.error_class == Some(ErrorClass::Transient),
        final(ctx).runtime.lifecycle.retry_policy == RetryPolicy::BoundedBackoff,
        final(ctx).runtime.lifecycle.next_retry_at is Some,
        final(ctx).scheduler.pending == Some(
            PendingOperation::Retry {
                generation,
                due: final(ctx).runtime.lifecycle.next_retry_at->0,
            },
        ),
        !final(ctx).stop,
        match fault {
            RuntimeCaptureFault::DeviceDisconnected(message) => {
                &&& final(ctx).runtime.lifecycle.capture_state == CaptureState::WaitingForDevice
                &&& text_of(final(ctx).runtime.last_error) == Some(message@)
                &&& text_of(final(ctx).runtime.config_load_error) == Some(message@)
                &&& text_of(final(ctx).runtime.lifecycle.last_error) == Some(message@)
            },
            RuntimeCaptureFault::BackendFault(message) => {
                &&& final(ctx).runtime.lifecycle.capture_state == CaptureState::Faulted
                &&& text_of(final(ctx).runtime.last_error) == Some(message@)
                &&& text_of(final(ctx).runtime.config_load_error) == Some(message@)
                &&& text_of(final(ctx).runtime.lifecycle.last_error) == Some(message@)
            },
        },
{
}

/// The fault of a capture that is not the one held, or of another generation, or that
/// comes once the daemon goes down, changes nothing.
pub proof fn a_fault_of_another_capture_changes_nothing<B, S>(
    ctx: &mut IdleDaemonContext<B, S>,
    generation: u64,
    attempt_id: CaptureAttemptId,
    fault: RuntimeCaptureFault,
    now: RetryInstant,
    released: Released<B, S>,
)
    requires
        !old(ctx).runtime_poisoned,
        old(ctx).stop || old(ctx).scheduler.stopped || old(ctx).runtime.lifecycle.generation
            != generation || old(ctx).runtime.capture_health is None
                || old(ctx).runtime.capture_health->0.sink is Apart
                || old(ctx).runtime.capture_health->0.sink->attempt_id != attempt_id,
        call_ensures(
            publish_runtime_fault::<B, S>,
            (ctx, generation, attempt_id, fault, now),
            released,
        ),
    ensures
        final(ctx)@ == old(ctx)@,
        released.backend is None,
        released.session is None,
{
}

/// Giving up a calibration reaches the session that is held, and no other.
pub proof fn a_calibration_is_given_up_with_its_session<B, S>(
    ctx: &IdleDaemonContext<B, S>,
    session: Option<&S>,
)
    requires
        call_ensures(cancel_active_calibration::<B, S>, (ctx,), session),
    ensures
        session is Some <==> ctx.runtime.session is Some,
        session is Some ==> *session->0 == ctx.runtime.session->0.resource,
{
}

/// How far an error reaches that an attempt met: what an operator has to mend waits
/// for one, a broken rule ends the daemon, and everything else is tried again.
pub proof fn errors_reach_as_far_as_their_kind(error: LambError, classified: CaptureAttemptError)
    requires
        call_ensures(classify_legacy_attempt_error, (error,), classified),
    ensures
        classified.capture_state == CaptureState::Faulted,
        classified.class == ErrorClass::Permanent <==> error is Config || error is Validation,
        classified.class == ErrorClass::Fatal <==> error is DaemonFatal || error
            is CaptureInvariant || error is ControlInvariant || error is ExportInvariant,
        classified.class == ErrorClass::Transient <==> error is Capture || error is Control
            || error is Io || error is IndeterminatePublication || error
            is NonRestartableBootstrap,
{
}

/// A device that is away, or that changed while it was looked at, is waited for; a
/// sound system that is away is tried again; a selector that can never match waits
/// for an operator. The message is the reason itself.
pub proof fn a_missing_device_is_waited_for(
    error: TargetResolutionError,
    classified: CaptureAttemptError,
    started: CaptureAttemptError,
)
    requires
        call_ensures(classify_pipewire_resolution_error, (error,), classified),
        call_ensures(
            classify_pipewire_startup_error,
            (PipeWireStartupError::Resolution(error),),
            started,
        ),
    ensures
        match error {
            TargetResolutionError::TargetMissing(text) => classified.message@ == text@,
            TargetResolutionError::PortMissing(text) => classified.message@ == text@,
            TargetResolutionError::TargetChanged(text) => classified.message@ == text@,
            TargetResolutionError::BackendUnavailable(text) => classified.message@ == text@,
            TargetResolutionError::InvalidSelector(text) => classified.message@ == text@,
        },
        classified.class == ErrorClass::Permanent <==> error is InvalidSelector,
        classified.class != ErrorClass::Fatal,
        classified.capture_state == CaptureState::WaitingForDevice <==> error is TargetMissing
            || error is PortMissing || error is TargetChanged,
        classified.capture_state == CaptureState::Faulted <==> error is BackendUnavailable
            || error is InvalidSelector,
        started@ == classified@,
{
}

/// A PipeWire capture that did not start for any other reason is judged by its error.
pub proof fn a_failed_pipewire_start_is_judged_by_its_error(
    error: LambError,
    classified: CaptureAttemptError,
    started: CaptureAttemptError,
)
    requires
        call_ensures(classify_legacy_attempt_error, (error,), classified),
        call_ensures(
            classify_pipewire_startup_error,
            (PipeWireStartupError::Capture(error),),
            started,
        ),
    ensures
        started@ == classified@,
{
}

/// An attempt that the end of the daemon overtook is told so, and is no fault.
pub proof fn an_attempt_is_told_of_the_end(error: CaptureAttemptError)
    requires
        call_ensures(shutdown_attempt_error, (), error),
    ensures
        error.class == ErrorClass::Transient,
        error.capture_state == CaptureState::Stopped,
        error.message@ == "daemon is shutting down"@,
{
}

/// The start that the configuration asks for ends the daemon by its error only where
/// the error is one that does.
pub proof fn a_configured_start_rarely_ends_the_daemon<B, S>(
    ctx: &mut IdleDaemonContext<B, S>,
    error: CaptureAttemptError,
    now: RetryInstant,
    step: ConfiguredStep<B, S>,
)
    requires
        call_ensures(configured_start_result::<B, S>, (ctx, Err(error), now), step),
    ensures
        step is Finished,
        step->result is Err <==> error.class == ErrorClass::Fatal,
{
}

} // verus!
