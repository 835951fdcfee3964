//! What holds of every status and of every answer that carries one: it shows what
//! the daemon holds at that moment, field by field.

use crate::attempt::CaptureAttemptError;
use crate::control::{
    idle_status_response, CaptureArenaStatus, ControlErrorContext, ControlResponse, DaemonStatus,
};
use crate::lifecycle::{
    CaptureState, DaemonLifecycleStatus, DaemonState, ErrorClass, LifecycleState, RetryInstant,
    RetryPolicy, UnixOrigin,
};
use crate::model::{BackendKind, CaptureBackend, ConfigFamily, IdleDaemonContext, RunState};
use crate::operations::{
    command_failure_without_state_mutation, current_failure_response, fatal_failure_response,
    superseded_response,
};
use crate::text::text_of;
use vstd::prelude::*;

verus! {

/// In the older format a status names the device as it was configured and the
/// device that the running capture was found on, each from its own place: what is
/// found is shown exactly while a capture is resolved, and is never made up from
/// what was asked for.
pub proof fn a_legacy_status_shows_the_device_that_was_found<B, S>(
    ctx: &IdleDaemonContext<B, S>,
    status: DaemonStatus,
)
    requires
        call_ensures(idle_status_response::<B, S>, (ctx,), status),
        !ctx.runtime_poisoned,
        ctx.runtime.config_family == ConfigFamily::Legacy,
    ensures
        ctx.runtime.resolved_capture is None ==> status.resolved_target is None,
        ctx.runtime.resolved_capture is Some ==> text_of(status.resolved_target) == text_of(
            ctx.runtime.resolved_capture->0.resolved_target,
        ),
        ctx.runtime.prepared_legacy is None ==> status.target is None && status.format@.len() == 0,
        ctx.runtime.prepared_legacy is Some ==> {
            &&& text_of(status.target) == text_of(
                ctx.runtime.prepared_legacy->0.static_config.target,
            )
            &&& status.format@ == ctx.runtime.prepared_legacy->0.static_config.sample_format@
        },
{
}

/// With a profile-based configuration a status names the configuration file and
/// the active profile, and the format of the samples while a session is there.
pub proof fn an_app_status_shows_the_file_and_the_profile<B, S>(
    ctx: &IdleDaemonContext<B, S>,
    status: DaemonStatus,
)
    requires
        call_ensures(idle_status_response::<B, S>, (ctx,), status),
        !ctx.runtime_poisoned,
        ctx.runtime.config_family == ConfigFamily::App,
    ensures
        text_of(status.target) == Some(ctx.config_path@),
        ctx.runtime.active_profile is None ==> status.resolved_target is None,
        ctx.runtime.active_profile is Some ==> text_of(status.resolved_target) == Some(
            ctx.runtime.active_profile->0.name@,
        ),
        ctx.runtime.session is None ==> status.format@.len() == 0,
        ctx.runtime.session is Some ==> status.format@ == seq!['F', '3', '2', 'L', 'E'],
{
    reveal_strlit("F32LE");
    assert("F32LE"@ =~= seq!['F', '3', '2', 'L', 'E']);
}

/// Rate and channels of a status are those of the session, and nothing where there
/// is none. What the memory holds is left open until it is asked.
pub proof fn a_status_shows_the_session<B, S>(ctx: &IdleDaemonContext<B, S>, status: DaemonStatus)
    requires
        call_ensures(idle_status_response::<B, S>, (ctx,), status),
        !ctx.runtime_poisoned,
    ensures
        ctx.runtime.session is Some ==> {
            &&& status.sample_rate == ctx.runtime.session->0.sample_rate
            &&& status.channel_count == ctx.runtime.session->0.channel_count
        },
        ctx.runtime.session is None ==> status.sample_rate == 0 && status.channel_count == 0,
        status.active_export_count == 0,
        status.pending_recall_count == 0,
        status.buffer_capacity_frames == 0,
        status.retained_frames == 0,
        status.dropped_frames == 0,
{
}

/// The word that a status shows: that the daemon goes down before all else, then
/// that a fault stands, whether its health record or its PipeWire backend tells of
/// it, and otherwise the state that the daemon is in.
pub proof fn a_status_shows_what_matters_most<B, S>(
    ctx: &IdleDaemonContext<B, S>,
    status: DaemonStatus,
)
    requires
        call_ensures(idle_status_response::<B, S>, (ctx,), status),
        !ctx.runtime_poisoned,
    ensures
        ({
            let recorded = ctx.runtime.capture_health is Some
                && ctx.runtime.capture_health->0.fault is Some;
            let shown = ctx.runtime.capture is Some && ctx.runtime.capture->0.kind
                == BackendKind::PipeWire && ctx.runtime.capture->0.error is Some;
            &&& ctx.stop ==> status.state == RunState::Stopping
            &&& !ctx.stop && (recorded || shown) ==> status.state == RunState::Faulted
            &&& !ctx.stop && !recorded && !shown ==> status.state == ctx.runtime.state
        }),
{
}

/// The error that a status shows last: that of the capture before that of the
/// configuration, and that one before any other.
pub proof fn a_status_shows_the_nearest_error<B, S>(
    ctx: &IdleDaemonContext<B, S>,
    status: DaemonStatus,
)
    requires
        call_ensures(idle_status_response::<B, S>, (ctx,), status),
        !ctx.runtime_poisoned,
    ensures
        ({
            let runtime = ctx.runtime;
            let recorded = runtime.capture_health is Some && runtime.capture_health->0.fault
                is Some;
            let shown = runtime.capture is Some && runtime.capture->0.kind
                == BackendKind::PipeWire && runtime.capture->0.error is Some;
            &&& recorded ==> match runtime.capture_health->0.fault->0 {
                crate::scheduler::RuntimeCaptureFault::DeviceDisconnected(message) => text_of(
                    status.last_error,
                ) == Some(message@),
                crate::scheduler::RuntimeCaptureFault::BackendFault(message) => text_of(
                    status.last_error,
                ) == Some(message@),
            }
            &&& !recorded && shown ==> text_of(status.last_error) == Some(
                runtime.capture->0.error->0@,
            )
            &&& !recorded && !shown && runtime.config_load_error is Some ==> text_of(
                status.last_error,
            ) == Some(runtime.config_load_error->0@)
            &&& !recorded && !shown && runtime.config_load_error is None ==> text_of(
                status.last_error,
            ) == text_of(runtime.last_error)
        }),
{
}

/// Where neither the daemon goes down nor a fault stands, the lifecycle that a
/// status shows is the one that the daemon is in, field by field.
pub proof fn a_status_shows_the_lifecycle<B, S>(
    ctx: &IdleDaemonContext<B, S>,
    status: DaemonStatus,
)
    requires
        call_ensures(idle_status_response::<B, S>, (ctx,), status),
        !ctx.runtime_poisoned,
        !ctx.stop,
        ctx.runtime.capture_health is Some ==> ctx.runtime.capture_health->0.fault is None,
        ctx.runtime.capture is Some ==> ctx.runtime.capture->0.kind != BackendKind::PipeWire
            || ctx.runtime.capture->0.error is None,
    ensures
        status.lifecycle.daemon_state == ctx.runtime.lifecycle.daemon_state,
        status.lifecycle.capture_state == ctx.runtime.lifecycle.capture_state,
        status.lifecycle.error_class == ctx.runtime.lifecycle.error_class,
        text_of(status.lifecycle.last_error) == text_of(ctx.runtime.lifecycle.last_error),
        status.lifecycle.retry_policy == ctx.runtime.lifecycle.retry_policy,
        status.lifecycle.retry_attempt == ctx.runtime.lifecycle.retry_attempt,
        text_of(status.lifecycle.active_profile) == text_of(ctx.runtime.lifecycle.active_profile),
        text_of(status.lifecycle.resolved_target) == text_of(
            ctx.runtime.lifecycle.resolved_target,
        ),
        status.lifecycle.next_retry_at is Some <==> ctx.runtime.lifecycle.next_retry_at is Some,
{
}

/// A daemon that goes down shows neither an error nor a retry; what capture was
/// doing is still shown.
pub proof fn a_status_of_a_daemon_going_down<B, S>(
    ctx: &IdleDaemonContext<B, S>,
    status: DaemonStatus,
)
    requires
        call_ensures(idle_status_response::<B, S>, (ctx,), status),
        !ctx.runtime_poisoned,
        ctx.stop,
    ensures
        status.lifecycle.daemon_state == DaemonState::Stopping,
        status.lifecycle.capture_state == ctx.runtime.lifecycle.capture_state,
        status.lifecycle.error_class is None,
        status.lifecycle.last_error is None,
        status.lifecycle.retry_policy == RetryPolicy::NoRetry,
        status.lifecycle.retry_attempt == 0,
        status.lifecycle.next_retry_at is None,
        text_of(status.lifecycle.active_profile) == text_of(ctx.runtime.lifecycle.active_profile),
        text_of(status.lifecycle.resolved_target) == text_of(
            ctx.runtime.lifecycle.resolved_target,
        ),
{
}

/// While a fault stands that was not worked off, the lifecycle that a status shows
/// tells of it and plans nothing by itself.
pub proof fn a_status_of_a_faulted_capture<B, S>(
    ctx: &IdleDaemonContext<B, S>,
    status: DaemonStatus,
)
    requires
        call_ensures(idle_status_response::<B, S>, (ctx,), status),
        !ctx.runtime_poisoned,
        !ctx.stop,
        (ctx.runtime.capture_health is Some && ctx.runtime.capture_health->0.fault is Some) || (
        ctx.runtime.capture is Some && ctx.runtime.capture->0.kind == BackendKind::PipeWire
            && ctx.runtime.capture->0.error is Some),
    ensures
        status.lifecycle.daemon_state == DaemonState::Degraded,
        status.lifecycle.capture_state == CaptureState::Faulted,
        status.lifecycle.error_class == Some(ErrorClass::Transient),
        text_of(status.lifecycle.last_error) == text_of(status.last_error),
        status.lifecycle.last_error is Some,
        status.lifecycle.retry_policy == RetryPolicy::Manual,
        status.lifecycle.retry_attempt == 0,
        status.lifecycle.next_retry_at is None,
        text_of(status.lifecycle.active_profile) == text_of(ctx.runtime.lifecycle.active_profile),
        text_of(status.lifecycle.resolved_target) == text_of(
            ctx.runtime.lifecycle.resolved_target,
        ),
{
}

/// The status of a state that someone failed on tells nothing of that state: it
/// shows the configuration file, that the state is poisoned, and an error that
/// waits for an operator.
pub proof fn a_status_of_a_poisoned_state<B, S>(
    ctx: &IdleDaemonContext<B, S>,
    status: DaemonStatus,
)
    requires
        call_ensures(idle_status_response::<B, S>, (ctx,), status),
        ctx.runtime_poisoned,
    ensures
        status.state == RunState::Poisoned,
        text_of(status.target) == Some(ctx.config_path@),
        status.resolved_target is None,
        status.last_error is None,
        status.format@.len() == 0,
        status.sample_rate == 0,
        status.channel_count == 0,
        status.active_export_count == 0,
        status.pending_recall_count == 0,
        status.buffer_capacity_frames == 0,
        status.retained_frames == 0,
        status.dropped_frames == 0,
        status.lifecycle.daemon_state == DaemonState::Degraded,
        status.lifecycle.capture_state == CaptureState::Faulted,
        status.lifecycle.error_class == Some(ErrorClass::Permanent),
        text_of(status.lifecycle.last_error) == Some("runtime state lock poisoned"@),
        status.lifecycle.retry_policy == RetryPolicy::Manual,
        status.lifecycle.retry_attempt == 0,
        status.lifecycle.next_retry_at is None,
        status.lifecycle.active_profile is None,
        status.lifecycle.resolved_target is None,
{
}

/// What the memory of the session answers is filled in as it is answered, and
/// nothing else of a status changes. A status without an answer, and that of a
/// poisoned state, stays as it is.
pub proof fn the_memory_fills_in_its_own_part(
    status: &mut DaemonStatus,
    answer: Option<CaptureArenaStatus>,
)
    requires
        call_ensures(DaemonStatus::fill_from_arena, (status, answer), ()),
    ensures
        answer is Some && old(status).state != RunState::Poisoned ==> {
            &&& final(status).buffer_capacity_frames == answer->0.capacity_frames
            &&& final(status).retained_frames == answer->0.retained_frames
            &&& final(status).dropped_frames == answer->0.dropped_frames
            &&& final(status).active_export_count >= 1 <==> answer->0.frozen_pending
            &&& final(status).active_export_count <= 1
        },
        answer is None || old(status).state == RunState::Poisoned ==> {
            &&& final(status).buffer_capacity_frames == old(status).buffer_capacity_frames
            &&& final(status).retained_frames == old(status).retained_frames
            &&& final(status).dropped_frames == old(status).dropped_frames
            &&& final(status).active_export_count == old(status).active_export_count
        },
        final(status).state == old(status).state,
        final(status).pending_recall_count == old(status).pending_recall_count,
        text_of(final(status).target) == text_of(old(status).target),
        text_of(final(status).resolved_target) == text_of(old(status).resolved_target),
        final(status).sample_rate == old(status).sample_rate,
        final(status).channel_count == old(status).channel_count,
        final(status).format@ == old(status).format@,
        text_of(final(status).last_error) == text_of(old(status).last_error),
        final(status).lifecycle@ == old(status).lifecycle@,
{
    let before = old(status)@;
    let after = final(status)@;
    assert(after == before.with_arena(answer));
}

/// A point in time is shown as the whole second it lies in, or as the largest
/// number where the second does not fit.
pub proof fn an_instant_is_shown_by_its_second(
    origin: &UnixOrigin,
    instant: RetryInstant,
    second: u64,
)
    requires
        call_ensures(UnixOrigin::unix_seconds, (origin, instant), second),
    ensures
        ({
            let nanos = origin.seconds * 1_000_000_000 + origin.nanos + instant.millis * 1_000_000;
            &&& second * 1_000_000_000 <= nanos
            &&& second < u64::MAX ==> nanos < (second + 1) * 1_000_000_000
        }),
{
}

/// A planned retry is shown at the second that its instant lies in.
pub proof fn a_retry_is_shown_by_its_second(
    lifecycle: &LifecycleState,
    origin: &UnixOrigin,
    status: DaemonLifecycleStatus,
)
    requires
        call_ensures(LifecycleState::status, (lifecycle, origin), status),
    ensures
        status.next_retry_at is Some <==> lifecycle.next_retry_at is Some,
        lifecycle.next_retry_at is Some ==> {
            let nanos = origin.seconds * 1_000_000_000 + origin.nanos
                + lifecycle.next_retry_at->0.millis * 1_000_000;
            let second = status.next_retry_at->0;
            &&& second * 1_000_000_000 <= nanos
            &&& second < u64::MAX ==> nanos < (second + 1) * 1_000_000_000
        },
{
}

/// Only a PipeWire backend shows an error of its own.
pub proof fn only_pipewire_shows_an_error<B>(backend: &CaptureBackend<B>, error: Option<String>)
    requires
        call_ensures(CaptureBackend::<B>::runtime_error, (backend,), error),
    ensures
        backend.kind == BackendKind::PipeWire ==> text_of(error) == text_of(backend.error),
        backend.kind != BackendKind::PipeWire ==> error is None,
{
}

/// The words by which clients are shown the state of the daemon are all different.
pub proof fn states_are_told_apart(
    one: &RunState,
    other: &RunState,
    first: &'static str,
    second: &'static str,
)
    requires
        call_ensures(RunState::label, (one,), first),
        call_ensures(RunState::label, (other,), second),
    ensures
        first@ == second@ ==> *one == *other,
        *one == RunState::Unconfigured ==> first@ == "unconfigured"@,
        *one == RunState::Starting ==> first@ == "starting"@,
        *one == RunState::Capturing ==> first@ == "capturing"@,
        *one == RunState::Faulted ==> first@ == "faulted"@,
        *one == RunState::Stopped ==> first@ == "stopped"@,
        *one == RunState::Idle ==> first@ == "idle"@,
        *one == RunState::Stopping ==> first@ == "stopping"@,
        *one == RunState::Poisoned ==> first@ == "poisoned"@,
{
    reveal_strlit("unconfigured");
    reveal_strlit("starting");
    reveal_strlit("capturing");
    reveal_strlit("faulted");
    reveal_strlit("stopped");
    reveal_strlit("idle");
    reveal_strlit("stopping");
    reveal_strlit("poisoned");
    if first@ == second@ && *one != *other {
        assert(first@[0] == second@[0] && first@.len() == second@.len());
        assert(first@.last() == second@.last());
        assert(first@[2] == second@[2] || first@.len() < 3);
    }
}

/// An answer without an error says nothing about one, and carries neither audio
/// nor thresholds.
pub proof fn a_plain_answer_carries_its_status(
    ok: bool,
    message: String,
    status: DaemonStatus,
    response: ControlResponse,
)
    requires
        call_ensures(ControlResponse::plain, (ok, message, status), response),
    ensures
        response.ok == ok,
        response.message@ == message@,
        response.status is Some,
        response.status->0@ == status@,
        response.error_context.error_class is None,
        response.error_context.daemon_state is None,
        response.error_context.capture_state is None,
        response.persistence_outcome is None,
        response.threshold_report is None,
{
}

/// A refusal is never ok, and says what kind of error it was and what the daemon
/// and its capture are doing.
pub proof fn a_refusal_says_what_it_is(
    message: String,
    status: DaemonStatus,
    error_class: Option<ErrorClass>,
    daemon_state: DaemonState,
    capture_state: CaptureState,
    response: ControlResponse,
)
    requires
        call_ensures(
            ControlResponse::failure,
            (message, status, error_class, daemon_state, capture_state),
            response,
        ),
    ensures
        !response.ok,
        response.message@ == message@,
        response.status is Some,
        response.status->0@ == status@,
        response.error_context.error_class == error_class,
        response.error_context.daemon_state == Some(daemon_state),
        response.error_context.capture_state == Some(capture_state),
        response.persistence_outcome is None,
        response.threshold_report is None,
{
}

/// An operation whose place was taken is told so, as something that may pass; once
/// the daemon goes down it is told that instead. The states told are those of the
/// status.
pub proof fn a_superseded_operation_is_told<B, S>(
    ctx: &IdleDaemonContext<B, S>,
    response: ControlResponse,
    status: DaemonStatus,
)
    requires
        call_ensures(superseded_response::<B, S>, (ctx,), response),
        call_ensures(idle_status_response::<B, S>, (ctx,), status),
    ensures
        !response.ok,
        ctx.stop ==> response.message@ == "daemon is shutting down"@,
        !ctx.stop ==> response.message@ == "capture operation was superseded"@,
        response.status is Some,
        response.status->0@ == status@,
        response.error_context.error_class == Some(ErrorClass::Transient),
        response.error_context.daemon_state == Some(status.lifecycle.daemon_state),
        response.error_context.capture_state == Some(status.lifecycle.capture_state),
        response.persistence_outcome is None,
        response.threshold_report is None,
{
}

/// A failure that changes nothing is told with its own message and kind, beside the
/// states that the daemon is in.
pub proof fn an_unchanged_failure_is_told<B, S>(
    ctx: &IdleDaemonContext<B, S>,
    error: CaptureAttemptError,
    response: ControlResponse,
    status: DaemonStatus,
)
    requires
        call_ensures(command_failure_without_state_mutation::<B, S>, (ctx, error), response),
        call_ensures(idle_status_response::<B, S>, (ctx,), status),
    ensures
        !response.ok,
        response.message@ == error.message@,
        response.status is Some,
        response.status->0@ == status@,
        response.error_context.error_class == Some(error.class),
        !ctx.runtime_poisoned ==> response.error_context == (ControlErrorContext {
            error_class: Some(error.class),
            daemon_state: Some(ctx.runtime.lifecycle.daemon_state),
            capture_state: Some(ctx.runtime.lifecycle.capture_state),
        }),
        ctx.runtime_poisoned ==> response.error_context == (ControlErrorContext {
            error_class: Some(error.class),
            daemon_state: Some(DaemonState::Degraded),
            capture_state: Some(CaptureState::Faulted),
        }),
{
}

/// An error that ends the daemon is told as such.
pub proof fn a_fatal_failure_is_told<B, S>(
    ctx: &IdleDaemonContext<B, S>,
    message: String,
    response: ControlResponse,
    status: DaemonStatus,
)
    requires
        call_ensures(fatal_failure_response::<B, S>, (ctx, message), response),
        call_ensures(idle_status_response::<B, S>, (ctx,), status),
    ensures
        !response.ok,
        response.message@ == message@,
        response.status is Some,
        response.status->0@ == status@,
        response.error_context.error_class == Some(ErrorClass::Fatal),
        response.error_context.daemon_state == Some(status.lifecycle.daemon_state),
        response.error_context.capture_state == Some(status.lifecycle.capture_state),
{
}

/// A failure that became part of the state is told as the state has it.
pub proof fn a_kept_failure_is_told<B, S>(
    ctx: &IdleDaemonContext<B, S>,
    response: ControlResponse,
    status: DaemonStatus,
)
    requires
        call_ensures(current_failure_response::<B, S>, (ctx,), response),
        call_ensures(idle_status_response::<B, S>, (ctx,), status),
    ensures
        !response.ok,
        response.status is Some,
        response.status->0@ == status@,
        !ctx.runtime_poisoned ==> {
            &&& ctx.runtime.lifecycle.last_error is Some ==> response.message@
                == ctx.runtime.lifecycle.last_error->0@
            &&& ctx.runtime.lifecycle.last_error is None ==> response.message@
                == "capture command failed"@
            &&& response.error_context.error_class == ctx.runtime.lifecycle.error_class
            &&& response.error_context.daemon_state == Some(ctx.runtime.lifecycle.daemon_state)
            &&& response.error_context.capture_state == Some(ctx.runtime.lifecycle.capture_state)
        },
        ctx.runtime_poisoned ==> {
            &&& response.message@ == "runtime state lock poisoned"@
            &&& response.error_context.error_class == Some(ErrorClass::Permanent)
            &&& response.error_context.daemon_state == Some(DaemonState::Degraded)
            &&& response.error_context.capture_state == Some(CaptureState::Faulted)
        },
{
}

} // verus!
