//! What holds of every way in which a capture comes into use: a start that a client
//! asks for, a reload, a retry, and the start that the configuration asks for.

use crate::apply::{
    app_capture_recovered, app_prepare_failed, app_start_failed, begin_apply, checkpoint,
    plan_app_backend, AppBackend, ApplyStep,
};
use crate::attempt::CaptureAttemptError;
use crate::commands::{
    admit_reload, begin_configured_start, begin_reload, begin_start_capture,
    configured_start_recovered, configured_start_result, detach_for_start, finish_start_capture,
    CommandEntry, CommandStep, ConfiguredStart, ConfiguredStep, PreparedCommandConfig,
};
use crate::control::ControlResponse;
use crate::error::LambError;
use crate::install::{
    app_candidate_built, app_config_saved, begin_install, judge_recovery, legacy_recovered,
    legacy_started, publish_app_candidate, AppStep, Completion, InstallRequest, InstallStep,
    LegacyStep,
};
use crate::lifecycle::{CaptureState, DaemonState, ErrorClass, RetryInstant, RetryPolicy};
use crate::model::{
    empty_runtime, ActiveCapture, AppRuntimeState, ConfigFamily, ConfigLoadState,
    IdleDaemonContext, LoadedAppConfig, PreparedBootstrap, PreparedLegacyConfig, Released,
    ResolvedProfile, RunState,
};
use crate::operations::BegunOperation;
use crate::session::PrivateAppCaptureAttempt;
use crate::text::{decimal, text_of};
use vstd::prelude::*;

verus! {

/// A start that is forced leads on to a capture, whatever start mode the
/// configuration names: the configuration that is handed on, once its active
/// profile is known, asks for that profile to be captured, and frees the devices
/// first.
pub proof fn a_forced_start_leads_to_a_capture<B, S>(
    ctx: &mut IdleDaemonContext<B, S>,
    request: InstallRequest,
    loaded: LoadedAppConfig,
    now: RetryInstant,
    step: InstallStep<B, S>,
    state: &mut AppRuntimeState<B, S>,
    profile: ResolvedProfile,
    path: &String,
    begin_attempt_generation: bool,
    applied: ApplyStep<B, S>,
)
    requires
        !old(ctx).stop,
        old(ctx).operation_epoch == request.token,
        old(ctx).attempts < u64::MAX,
        request.operation_generation is None ==> old(ctx).runtime.lifecycle.generation < u64::MAX,
        request.force_start,
        loaded.state == ConfigLoadState::Loaded,
        begin_attempt_generation ==> old(state).lifecycle.daemon_state != DaemonState::Stopping
            && old(state).lifecycle.generation < u64::MAX,
        call_ensures(
            begin_install::<B, S>,
            (ctx, request, PreparedBootstrap::App(loaded), now),
            step,
        ),
        call_ensures(
            begin_apply::<B, S>,
            (
                state,
                step->BuildApp_loaded,
                Ok(Some(profile)),
                path,
                begin_attempt_generation,
                true,
            ),
            applied,
        ),
    ensures
        step is BuildApp,
        applied is StartCapture,
        applied->StartCapture_0.backend == old(state).capture,
        applied->StartCapture_0.session == old(state).session,
        final(state).capture is None,
        final(state).session is None,
        final(state).capture_health is None,
        final(state).active_profile == Some(profile),
        final(state).lifecycle.generation == old(state).lifecycle.generation + (
        if begin_attempt_generation {
            1int
        } else {
            0
        }),
{
}

/// Where nothing is forced, the start mode of the configuration decides: "auto"
/// captures the active profile, and any other mode leaves it at rest.
pub proof fn the_start_mode_decides_where_nothing_is_forced<B, S>(
    ctx: &mut IdleDaemonContext<B, S>,
    request: InstallRequest,
    loaded: LoadedAppConfig,
    now: RetryInstant,
    step: InstallStep<B, S>,
    state: &mut AppRuntimeState<B, S>,
    profile: ResolvedProfile,
    path: &String,
    applied: ApplyStep<B, S>,
)
    requires
        !old(ctx).stop,
        old(ctx).operation_epoch == request.token,
        old(ctx).attempts < u64::MAX,
        request.operation_generation is None ==> old(ctx).runtime.lifecycle.generation < u64::MAX,
        !request.force_start,
        loaded.state == ConfigLoadState::Loaded,
        call_ensures(
            begin_install::<B, S>,
            (ctx, request, PreparedBootstrap::App(loaded), now),
            step,
        ),
        call_ensures(
            begin_apply::<B, S>,
            (state, step->BuildApp_loaded, Ok(Some(profile)), path, false, true),
            applied,
        ),
    ensures
        step is BuildApp,
        loaded.config.daemon.start_mode@ == "auto"@ <==> applied is StartCapture,
        final(state).active_profile == Some(profile),
        final(state).capture is None,
        final(state).session is None,
        final(state).capture_health is None,
        loaded.config.daemon.start_mode@ != "auto"@ ==> {
            &&& applied->Finished_0 is Ok
            &&& final(state).state == RunState::Idle
            &&& final(state).last_error is None
            &&& final(state).config_load_error is None
            &&& final(state).lifecycle.daemon_state == DaemonState::Ready
            &&& final(state).lifecycle.capture_state == CaptureState::Stopped
            &&& final(state).lifecycle.error_class is None
            &&& final(state).lifecycle.retry_policy == RetryPolicy::NoRetry
            &&& final(state).lifecycle.next_retry_at is None
            &&& text_of(final(state).lifecycle.active_profile) == Some(profile.name@)
            &&& final(state).lifecycle.resolved_target is None
            &&& final(state).lifecycle.generation == old(state).lifecycle.generation
        },
{
}

/// Beginning to bring a configuration into use changes nothing but that the attempt
/// gets an identity of its own. What is handed on is the configuration that was
/// read, and a sink that carries the identity of the attempt and the generation
/// under which its capture would be swapped in.
pub proof fn an_install_hands_on_what_was_read<B, S>(
    ctx: &mut IdleDaemonContext<B, S>,
    request: InstallRequest,
    prepared: PreparedBootstrap,
    now: RetryInstant,
    step: InstallStep<B, S>,
)
    requires
        !old(ctx).stop,
        old(ctx).operation_epoch == request.token,
        old(ctx).attempts < u64::MAX,
        request.operation_generation is None ==> old(ctx).runtime.lifecycle.generation < u64::MAX,
        !(prepared is Faulted),
        call_ensures(begin_install::<B, S>, (ctx, request, prepared, now), step),
    ensures
        final(ctx).attempts == old(ctx).attempts + 1,
        final(ctx).runtime@ == old(ctx).runtime@,
        final(ctx).runtime_poisoned == old(ctx).runtime_poisoned,
        final(ctx).scheduler == old(ctx).scheduler,
        final(ctx).operation_epoch == old(ctx).operation_epoch,
        !final(ctx).stop,
        final(ctx).config_path@ == old(ctx).config_path@,
        final(ctx).control_socket_path@ == old(ctx).control_socket_path@,
        prepared is Legacy <==> step is StartLegacy,
        prepared is App <==> step is BuildApp,
        prepared is Legacy ==> {
            &&& step->StartLegacy_prepared == prepared->Legacy_0
            &&& step->StartLegacy_sink is Bound
            &&& step->StartLegacy_sink->attempt_id.raw == old(ctx).attempts + 1
            &&& step->StartLegacy_sink->generation == match request.operation_generation {
                Some(generation) => generation as int,
                None => old(ctx).runtime.lifecycle.generation + 1,
            }
        },
        prepared is App ==> {
            let read = prepared->App_0;
            let handed = step->BuildApp_loaded;
            &&& handed.config.profiles == read.config.profiles
            &&& handed.config.daemon.active_profile == read.config.daemon.active_profile
            &&& handed.config.daemon.control_socket_path == read.config.daemon.control_socket_path
            &&& handed.state == read.state
            &&& handed.error == read.error
            &&& !request.force_start ==> handed.config.daemon.start_mode@
                == read.config.daemon.start_mode@
            &&& step->configured_start_mode@ == read.config.daemon.start_mode@
            &&& step->BuildApp_sink is Bound
            &&& step->BuildApp_sink->attempt_id.raw == old(ctx).attempts + 1
            &&& step->BuildApp_sink->generation == match request.operation_generation {
                Some(generation) => generation as int,
                None => old(ctx).runtime.lifecycle.generation + 1,
            }
        },
{
}

/// A configuration that cannot be used is answered with its own message, as an
/// error that waits for an operator. A running capture that was not let go of stays.
pub proof fn an_unusable_configuration_is_refused<B, S>(
    ctx: &mut IdleDaemonContext<B, S>,
    request: InstallRequest,
    prepared: PreparedBootstrap,
    now: RetryInstant,
    step: InstallStep<B, S>,
)
    requires
        !old(ctx).stop,
        old(ctx).operation_epoch == request.token,
        request.operation_generation == Some(old(ctx).runtime.lifecycle.generation),
        prepared is Faulted,
        call_ensures(begin_install::<B, S>, (ctx, request, prepared, now), step),
    ensures
        step is Done,
        !step->Done_0.response.ok,
        step->Done_0.response.message@ == prepared->message@,
        step->Done_0.response.error_context.error_class == Some(ErrorClass::Permanent),
        !final(ctx).stop,
        final(ctx).attempts == old(ctx).attempts,
        ({
            let running = !old(ctx).runtime_poisoned && old(ctx).runtime.capture is Some
                && old(ctx).runtime.session is Some && old(ctx).runtime.lifecycle.capture_state
                == CaptureState::Running;
            &&& running && !request.old_already_detached ==> {
                &&& final(ctx).runtime@ == old(ctx).runtime@
                &&& final(ctx).scheduler == old(ctx).scheduler
            }
            &&& !running || request.old_already_detached ==> {
                &&& final(ctx).runtime.state == RunState::Faulted
                &&& text_of(final(ctx).runtime.last_error) == Some(prepared->message@)
                &&& text_of(final(ctx).runtime.lifecycle.last_error) == Some(prepared->message@)
                &&& final(ctx).runtime.lifecycle.retry_policy == RetryPolicy::Manual
                &&& final(ctx).runtime.lifecycle.next_retry_at is None
            }
        }),
{
}

/// Every step of an operation whose place was taken, or that the end of the daemon
/// overtook, leaves the context as it was.
pub proof fn a_superseded_install_changes_nothing<B, S>(
    ctx: &mut IdleDaemonContext<B, S>,
    request: InstallRequest,
    prepared: PreparedBootstrap,
    now: RetryInstant,
    step: InstallStep<B, S>,
)
    requires
        old(ctx).stop || old(ctx).operation_epoch != request.token,
        call_ensures(begin_install::<B, S>, (ctx, request, prepared, now), step),
    ensures
        final(ctx)@ == old(ctx)@,
        step is Done,
        !step->Done_0.response.ok,
        step->Done_0.released@.len() == 0,
        step->Done_0.response.error_context.error_class == Some(ErrorClass::Transient),
{
}

/// The start that a client asks for, from its entry to its answer, with a
/// profile-based configuration and nothing that disturbs it: each step leads to the
/// next, and at the end the daemon runs exactly the capture that was started, under
/// the next generation, with the configuration as it was read, the start mode that
/// it names put back.
pub proof fn an_undisturbed_app_start_captures<B, S>(
    entered: &mut IdleDaemonContext<B, S>,
    entry: CommandEntry,
    detached: &mut IdleDaemonContext<B, S>,
    requested_profile: &Option<String>,
    activate: bool,
    candidate: PreparedCommandConfig,
    loaded: LoadedAppConfig,
    command: CommandStep<B, S>,
    installing: &mut IdleDaemonContext<B, S>,
    install: InstallStep<B, S>,
    empty: AppRuntimeState<B, S>,
    applying: &mut AppRuntimeState<B, S>,
    profile: ResolvedProfile,
    path: &String,
    applied: ApplyStep<B, S>,
    recovering: &mut AppRuntimeState<B, S>,
    attempt: PrivateAppCaptureAttempt<B, S>,
    recovered: Result<(), (Released<B, S>, LambError)>,
    building: &mut IdleDaemonContext<B, S>,
    built: AppStep<B, S>,
    publishing: &mut IdleDaemonContext<B, S>,
    done: Completion<B, S>,
    answer: ControlResponse,
    now: RetryInstant,
)
    requires
        !old(entered).stop,
        old(entered).operation_epoch < u64::MAX,
        old(entered).attempts < u64::MAX,
        old(entered).runtime.lifecycle.daemon_state != DaemonState::Stopping,
        old(entered).runtime.lifecycle.generation < u64::MAX,
        old(entered).runtime.lifecycle.capture_state != CaptureState::Running,
        call_ensures(begin_start_capture::<B, S>, (entered,), entry),
        *old(detached) == *final(entered),
        candidate.control_socket_path@ == old(entered).control_socket_path@,
        candidate.prepared == PreparedBootstrap::App(loaded),
        loaded.state == ConfigLoadState::Loaded,
        call_ensures(
            detach_for_start::<B, S>,
            (detached, entry->Prepare_0, requested_profile, activate, Ok(candidate), now),
            command,
        ),
        *old(installing) == *final(detached),
        call_ensures(
            begin_install::<B, S>,
            (installing, command->request, command->prepared, now),
            install,
        ),
        call_ensures(
            empty_runtime::<B, S>,
            (ConfigFamily::App, install->BuildApp_loaded.config),
            empty,
        ),
        *old(applying) == empty,
        call_ensures(
            begin_apply::<B, S>,
            (applying, install->BuildApp_loaded, Ok(Some(profile)), path, true, true),
            applied,
        ),
        *old(recovering) == *final(applying),
        call_ensures(
            app_capture_recovered::<B, S>,
            (recovering, attempt, Ok(0), true),
            recovered,
        ),
        *old(building) == *final(installing),
        call_ensures(
            app_candidate_built::<B, S>,
            (
                building,
                command->request,
                *final(recovering),
                install->configured_start_mode,
                now,
            ),
            built,
        ),
        *old(publishing) == *final(building),
        activate ==> call_ensures(
            app_config_saved::<B, S>,
            (publishing, command->request, built->Save_0, Ok(()), now),
            done,
        ),
        !activate ==> call_ensures(
            publish_app_candidate::<B, S>,
            (publishing, command->request, built->Publish_0),
            done,
        ),
        call_ensures(finish_start_capture, (done.response, requested_profile), answer),
    ensures
        entry is Prepare,
        command is Install,
        command->released.backend == old(entered).runtime.capture,
        command->released.session == old(entered).runtime.session,
        install is BuildApp,
        applied is StartCapture,
        recovered is Ok,
        activate <==> built is Save,
        !activate <==> built is Publish,
        done.released@.len() == 1,
        done.released@[0].backend is None,
        done.released@[0].session is None,
        answer.ok,
        requested_profile is Some ==> answer.message@ == "capturing "@ + requested_profile->0@,
        requested_profile is None ==> answer.message@ == "capture started"@,
        answer.status is Some,
        ({
            let after = *final(publishing);
            &&& !after.stop
            &&& !after.runtime_poisoned
            &&& after.operation_epoch == old(entered).operation_epoch + 1
            &&& after.attempts == old(entered).attempts + 1
            &&& after.runtime.capture == Some(attempt.backend)
            &&& after.runtime.session == Some(attempt.session)
            &&& after.runtime.capture_health is Some <==> attempt.health is Some
            &&& attempt.health is Some ==> after.runtime.capture_health->0.armed
                && after.runtime.capture_health->0.sink == attempt.health->0.sink
                && after.runtime.capture_health->0.fault == attempt.health->0.fault
            &&& after.runtime.state == RunState::Capturing
            &&& after.runtime.config_family == ConfigFamily::App
            &&& after.runtime.prepared_legacy is None
            &&& after.runtime.active_profile == Some(profile)
            &&& after.runtime.last_error is None
            &&& after.runtime.config_load_error is None
            &&& after.runtime.config.daemon.start_mode@ == loaded.config.daemon.start_mode@
            &&& after.runtime.config.daemon.active_profile == loaded.config.daemon.active_profile
            &&& after.runtime.config.profiles == loaded.config.profiles
            &&& after.runtime.lifecycle.generation == old(entered).runtime.lifecycle.generation
                + 1
            &&& after.runtime.lifecycle.daemon_state == DaemonState::Ready
            &&& after.runtime.lifecycle.capture_state == CaptureState::Running
            &&& after.runtime.lifecycle.error_class is None
            &&& after.runtime.lifecycle.last_error is None
            &&& after.runtime.lifecycle.retry_policy == RetryPolicy::NoRetry
            &&& after.runtime.lifecycle.retry_attempt == 0
            &&& after.runtime.lifecycle.next_retry_at is None
            &&& text_of(after.runtime.lifecycle.active_profile) == Some(profile.name@)
            &&& text_of(after.runtime.lifecycle.resolved_target) == Some(profile.name@)
            &&& after@.capture_is_running()
            &&& answer.status->0@ == after@.status()
        }),
{
}

/// The same with a configuration of the older format.
pub proof fn an_undisturbed_legacy_start_captures<B, S>(
    entered: &mut IdleDaemonContext<B, S>,
    entry: CommandEntry,
    detached: &mut IdleDaemonContext<B, S>,
    requested_profile: &Option<String>,
    activate: bool,
    candidate: PreparedCommandConfig,
    prepared: PreparedLegacyConfig,
    command: CommandStep<B, S>,
    installing: &mut IdleDaemonContext<B, S>,
    install: InstallStep<B, S>,
    starting: &mut IdleDaemonContext<B, S>,
    active: ActiveCapture<B, S>,
    started: LegacyStep<B, S>,
    recovering: &mut IdleDaemonContext<B, S>,
    done: Completion<B, S>,
    answer: ControlResponse,
    now: RetryInstant,
)
    requires
        !old(entered).stop,
        old(entered).operation_epoch < u64::MAX,
        old(entered).attempts < u64::MAX,
        old(entered).runtime.lifecycle.daemon_state != DaemonState::Stopping,
        old(entered).runtime.lifecycle.generation < u64::MAX,
        old(entered).runtime.lifecycle.capture_state != CaptureState::Running,
        call_ensures(begin_start_capture::<B, S>, (entered,), entry),
        *old(detached) == *final(entered),
        candidate.control_socket_path@ == old(entered).control_socket_path@,
        candidate.prepared == PreparedBootstrap::Legacy(prepared),
        call_ensures(
            detach_for_start::<B, S>,
            (detached, entry->Prepare_0, requested_profile, activate, Ok(candidate), now),
            command,
        ),
        *old(installing) == *final(detached),
        call_ensures(
            begin_install::<B, S>,
            (installing, command->request, command->prepared, now),
            install,
        ),
        *old(starting) == *final(installing),
        call_ensures(
            legacy_started::<B, S>,
            (starting, command->request, Ok(active), now),
            started,
        ),
        *old(recovering) == *final(starting),
        call_ensures(
            legacy_recovered::<B, S>,
            (
                recovering,
                command->request,
                install->StartLegacy_prepared,
                started->Recover_0,
                Ok(0),
                now,
            ),
            done,
        ),
        call_ensures(finish_start_capture, (done.response, requested_profile), answer),
    ensures
        entry is Prepare,
        command is Install,
        command->released.backend == old(entered).runtime.capture,
        command->released.session == old(entered).runtime.session,
        install is StartLegacy,
        started == LegacyStep::<B, S>::Recover(active),
        done.released@.len() == 1,
        done.released@[0].backend is None,
        done.released@[0].session is None,
        answer.ok,
        requested_profile is Some ==> answer.message@ == "capturing "@ + requested_profile->0@,
        requested_profile is None ==> answer.message@ == "capture started"@,
        ({
            let after = *final(recovering);
            &&& !after.stop
            &&& !after.runtime_poisoned
            &&& after.runtime.capture == Some(active.backend)
            &&& after.runtime.session == Some(active.session)
            &&& after.runtime.resolved_capture == Some(active.resolved)
            &&& after.runtime.capture_health is Some <==> active.health is Some
            &&& active.health is Some ==> after.runtime.capture_health->0.armed
                && after.runtime.capture_health->0.sink == active.health->0.sink
                && after.runtime.capture_health->0.fault == active.health->0.fault
            &&& after.runtime.config_family == ConfigFamily::Legacy
            &&& after.runtime.prepared_legacy == Some(prepared)
            &&& after.runtime.active_profile is None
            &&& after.runtime.config == old(entered).runtime.config
            &&& after.runtime.state == RunState::Capturing
            &&& after.runtime.last_error is None
            &&& after.runtime.config_load_error is None
            &&& after.runtime.lifecycle.generation == old(entered).runtime.lifecycle.generation
                + 1
            &&& after.runtime.lifecycle.daemon_state == DaemonState::Ready
            &&& after.runtime.lifecycle.capture_state == CaptureState::Running
            &&& after.runtime.lifecycle.error_class is None
            &&& after.runtime.lifecycle.next_retry_at is None
            &&& after.runtime.lifecycle.active_profile is None
            &&& text_of(after.runtime.lifecycle.resolved_target) == text_of(
                active.resolved.resolved_target,
            )
            &&& after@.capture_is_running()
            &&& answer.status is Some
            &&& answer.status->0@ == after@.status()
        }),
{
}

/// A start where a capture runs already is answered as done, and the capture goes
/// on undisturbed.
pub proof fn a_start_of_a_running_capture_leaves_it<B, S>(
    ctx: &mut IdleDaemonContext<B, S>,
    entry: CommandEntry,
)
    requires
        !old(ctx).stop,
        old(ctx).operation_epoch < u64::MAX,
        old(ctx).runtime.lifecycle.daemon_state != DaemonState::Stopping,
        old(ctx).runtime.lifecycle.generation < u64::MAX,
        old(ctx).runtime.lifecycle.capture_state == CaptureState::Running,
        old(ctx).runtime.capture is Some,
        old(ctx).runtime.session is Some,
        call_ensures(begin_start_capture::<B, S>, (ctx,), entry),
    ensures
        entry is Respond,
        entry->Respond_0.ok,
        entry->Respond_0.message@ == "capture already running"@,
        entry->Respond_0.error_context.error_class is None,
        final(ctx).runtime.capture == old(ctx).runtime.capture,
        final(ctx).runtime.session == old(ctx).runtime.session,
        final(ctx).runtime.resolved_capture == old(ctx).runtime.resolved_capture,
        final(ctx).runtime.state == old(ctx).runtime.state,
        final(ctx).runtime.lifecycle.capture_state == CaptureState::Running,
        final(ctx).runtime.lifecycle.generation == old(ctx).runtime.lifecycle.generation + 1,
        final(ctx).operation_epoch == old(ctx).operation_epoch + 1,
        !final(ctx).stop,
{
}

/// What a start tells while it goes on: capture is being started, for the profile
/// that was asked for, or else for the one before; no error stands, no retry is
/// planned, and nothing of the capture before is held.
pub proof fn a_start_in_progress<B, S>(
    ctx: &mut IdleDaemonContext<B, S>,
    operation: BegunOperation,
    requested_profile: &Option<String>,
    activate: bool,
    candidate: PreparedCommandConfig,
    now: RetryInstant,
    step: CommandStep<B, S>,
)
    requires
        !old(ctx).stop,
        old(ctx).operation_epoch == operation.token,
        old(ctx).runtime.lifecycle.generation == operation.generation,
        candidate.control_socket_path@ == old(ctx).control_socket_path@,
        call_ensures(
            detach_for_start::<B, S>,
            (ctx, operation, requested_profile, activate, Ok(candidate), now),
            step,
        ),
    ensures
        step is Install,
        step->request.token == operation.token,
        step->request.operation_generation == Some(operation.generation),
        step->request.force_start,
        step->request.old_already_detached,
        step->request.activate == activate,
        step->prepared == candidate.prepared,
        step->released.backend == old(ctx).runtime.capture,
        step->released.session == old(ctx).runtime.session,
        final(ctx).runtime.capture is None,
        final(ctx).runtime.session is None,
        final(ctx).runtime.capture_health is None,
        final(ctx).runtime.resolved_capture is None,
        !final(ctx).runtime_poisoned,
        final(ctx).runtime.lifecycle.daemon_state == DaemonState::Ready,
        final(ctx).runtime.lifecycle.capture_state == CaptureState::Starting,
        final(ctx).runtime.lifecycle.error_class is None,
        final(ctx).runtime.lifecycle.last_error is None,
        final(ctx).runtime.lifecycle.retry_policy == RetryPolicy::NoRetry,
        final(ctx).runtime.lifecycle.next_retry_at is None,
        final(ctx).runtime.lifecycle.resolved_target is None,
        final(ctx).runtime.lifecycle.generation == operation.generation,
        requested_profile is Some ==> text_of(final(ctx).runtime.lifecycle.active_profile)
            == text_of(*requested_profile),
        requested_profile is None ==> text_of(final(ctx).runtime.lifecycle.active_profile)
            == text_of(old(ctx).runtime.lifecycle.active_profile),
        final(ctx).runtime.config == old(ctx).runtime.config,
        final(ctx).runtime.active_profile == old(ctx).runtime.active_profile,
        final(ctx).scheduler == old(ctx).scheduler,
{
}

/// A configuration that names another control socket than the one in use is never
/// taken over, neither by a start nor by a reload: the client is told both sockets,
/// and no capture is let go of.
pub proof fn another_control_socket_is_refused<B, S>(
    starting: &mut IdleDaemonContext<B, S>,
    reloading: &mut IdleDaemonContext<B, S>,
    operation: BegunOperation,
    requested_profile: &Option<String>,
    activate: bool,
    candidate: PreparedCommandConfig,
    now: RetryInstant,
    start: CommandStep<B, S>,
    reload: CommandStep<B, S>,
)
    requires
        !old(starting).stop,
        old(starting).operation_epoch == operation.token,
        old(starting).runtime.lifecycle.generation == operation.generation,
        !old(starting).runtime_poisoned,
        candidate.control_socket_path@ != old(starting).control_socket_path@,
        *old(reloading) == *old(starting),
        call_ensures(
            detach_for_start::<B, S>,
            (starting, operation, requested_profile, activate, Ok(candidate), now),
            start,
        ),
        call_ensures(
            admit_reload::<B, S>,
            (reloading, operation, Ok(candidate), now),
            reload,
        ),
    ensures
        start is Done,
        reload is Done,
        !start->Done_0.response.ok,
        !reload->Done_0.response.ok,
        start->Done_0.response.message@ == "candidate control socket "@
            + candidate.control_socket_path@ + " differs from bound socket "@
            + old(starting).control_socket_path@,
        reload->Done_0.response.message@ == start->Done_0.response.message@,
        start->Done_0.response.error_context.error_class == Some(ErrorClass::Permanent),
        reload->Done_0.response.error_context.error_class == Some(ErrorClass::Permanent),
        final(starting).runtime.capture == old(starting).runtime.capture,
        final(starting).runtime.session == old(starting).runtime.session,
        final(reloading).runtime.capture == old(starting).runtime.capture,
        final(reloading).runtime.session == old(starting).runtime.session,
        final(starting).control_socket_path@ == old(starting).control_socket_path@,
        old(starting).runtime.capture is Some && old(starting).runtime.session is Some
            && old(starting).runtime.lifecycle.capture_state == CaptureState::Running
            ==> final(reloading).runtime@
            == old(starting).runtime@,
{
}

/// A reload keeps the running capture until the new one is swapped in; nothing is
/// forced, and no choice of profile is written down.
pub proof fn a_reload_keeps_the_capture_meanwhile<B, S>(
    ctx: &mut IdleDaemonContext<B, S>,
    operation: BegunOperation,
    candidate: PreparedCommandConfig,
    now: RetryInstant,
    step: CommandStep<B, S>,
)
    requires
        !old(ctx).stop,
        old(ctx).operation_epoch == operation.token,
        candidate.control_socket_path@ == old(ctx).control_socket_path@,
        call_ensures(admit_reload::<B, S>, (ctx, operation, Ok(candidate), now), step),
    ensures
        final(ctx)@ == old(ctx)@,
        step is Install,
        step->request.token == operation.token,
        step->request.operation_generation == Some(operation.generation),
        !step->request.force_start,
        !step->request.old_already_detached,
        !step->request.activate,
        step->prepared == candidate.prepared,
        step->released.backend is None,
        step->released.session is None,
{
}

/// A command to reload always begins an operation of its own, unless none can begin.
pub proof fn a_reload_begins_an_operation<B, S>(
    ctx: &mut IdleDaemonContext<B, S>,
    entry: CommandEntry,
)
    requires
        !old(ctx).stop,
        old(ctx).operation_epoch < u64::MAX,
        old(ctx).runtime.lifecycle.daemon_state != DaemonState::Stopping,
        old(ctx).runtime.lifecycle.generation < u64::MAX,
        call_ensures(begin_reload::<B, S>, (ctx,), entry),
    ensures
        entry is Prepare,
        entry->Prepare_0.token == old(ctx).operation_epoch + 1,
        entry->Prepare_0.generation == old(ctx).runtime.lifecycle.generation + 1,
        final(ctx).operation_epoch == entry->Prepare_0.token,
        final(ctx).runtime.lifecycle.generation == entry->Prepare_0.generation,
        final(ctx).runtime.capture == old(ctx).runtime.capture,
        final(ctx).runtime.session == old(ctx).runtime.session,
        final(ctx).runtime.state == old(ctx).runtime.state,
        final(ctx).runtime.lifecycle.capture_state == old(ctx).runtime.lifecycle.capture_state,
        !final(ctx).runtime_poisoned,
        !final(ctx).stop,
{
}

/// Swapping in a state lets go of exactly the capture that was there, unless that
/// was let go of before; what is then held is what was built, under the generation
/// of the operation, or under the next one where it has none.
pub proof fn a_swap_replaces_the_capture<B, S>(
    ctx: &mut IdleDaemonContext<B, S>,
    request: InstallRequest,
    candidate: AppRuntimeState<B, S>,
    done: Completion<B, S>,
)
    requires
        !old(ctx).stop,
        old(ctx).operation_epoch == request.token,
        request.operation_generation is Some ==> request.operation_generation->0
            == old(ctx).runtime.lifecycle.generation,
        request.operation_generation is None ==> old(ctx).runtime.lifecycle.generation < u64::MAX
            && old(ctx).runtime.lifecycle.daemon_state != DaemonState::Stopping,
        call_ensures(publish_app_candidate::<B, S>, (ctx, request, candidate), done),
    ensures
        done.response.ok,
        done.response.message@ == "config reloaded"@,
        done.response.error_context.error_class is None,
        done.released@.len() == 1,
        !request.old_already_detached || old(ctx).runtime_poisoned ==> {
            &&& done.released@[0].backend == old(ctx).runtime.capture
            &&& done.released@[0].session == old(ctx).runtime.session
        },
        request.old_already_detached && !old(ctx).runtime_poisoned ==> {
            &&& done.released@[0].backend is None
            &&& done.released@[0].session is None
        },
        final(ctx).runtime.capture == candidate.capture,
        final(ctx).runtime.session == candidate.session,
        final(ctx).runtime.resolved_capture == candidate.resolved_capture,
        final(ctx).runtime.config == candidate.config,
        final(ctx).runtime.config_family == candidate.config_family,
        final(ctx).runtime.prepared_legacy == candidate.prepared_legacy,
        final(ctx).runtime.active_profile == candidate.active_profile,
        final(ctx).runtime.state == candidate.state,
        text_of(final(ctx).runtime.last_error) == text_of(candidate.last_error),
        text_of(final(ctx).runtime.config_load_error) == text_of(candidate.config_load_error),
        final(ctx).runtime.lifecycle.capture_state == candidate.lifecycle.capture_state,
        final(ctx).runtime.lifecycle.daemon_state == candidate.lifecycle.daemon_state,
        final(ctx).runtime.lifecycle.error_class == candidate.lifecycle.error_class,
        final(ctx).runtime.lifecycle.generation == match request.operation_generation {
            Some(generation) => generation as int,
            None => old(ctx).runtime.lifecycle.generation + 1,
        },
        final(ctx).runtime.capture_health is Some <==> candidate.capture_health is Some,
        candidate.capture_health is Some ==> final(ctx).runtime.capture_health->0.armed,
        !final(ctx).runtime_poisoned,
        !final(ctx).stop,
        final(ctx).operation_epoch == old(ctx).operation_epoch,
        final(ctx).attempts == old(ctx).attempts,
{
}

/// The same for a capture of the older format.
pub proof fn a_legacy_swap_replaces_the_capture<B, S>(
    ctx: &mut IdleDaemonContext<B, S>,
    request: InstallRequest,
    prepared: PreparedLegacyConfig,
    active: ActiveCapture<B, S>,
    now: RetryInstant,
    done: Completion<B, S>,
)
    requires
        !old(ctx).stop,
        old(ctx).operation_epoch == request.token,
        request.operation_generation is Some ==> request.operation_generation->0
            == old(ctx).runtime.lifecycle.generation,
        request.operation_generation is None ==> old(ctx).runtime.lifecycle.generation < u64::MAX
            && old(ctx).runtime.lifecycle.daemon_state != DaemonState::Stopping,
        call_ensures(
            legacy_recovered::<B, S>,
            (ctx, request, prepared, active, Ok(0), now),
            done,
        ),
    ensures
        done.response.ok,
        done.response.message@ == "config reloaded"@,
        done.released@.len() == 1,
        !request.old_already_detached || old(ctx).runtime_poisoned ==> {
            &&& done.released@[0].backend == old(ctx).runtime.capture
            &&& done.released@[0].session == old(ctx).runtime.session
        },
        request.old_already_detached && !old(ctx).runtime_poisoned ==> {
            &&& done.released@[0].backend is None
            &&& done.released@[0].session is None
        },
        final(ctx).runtime.capture == Some(active.backend),
        final(ctx).runtime.session == Some(active.session),
        final(ctx).runtime.resolved_capture == Some(active.resolved),
        final(ctx).runtime.prepared_legacy == Some(prepared),
        final(ctx).runtime.config_family == ConfigFamily::Legacy,
        final(ctx).runtime.active_profile is None,
        final(ctx).runtime.config == old(ctx).runtime.config,
        final(ctx).runtime.state == RunState::Capturing,
        final(ctx).runtime.last_error is None,
        final(ctx).runtime.config_load_error is None,
        final(ctx).runtime.lifecycle.capture_state == CaptureState::Running,
        final(ctx).runtime.lifecycle.error_class is None,
        final(ctx).runtime.lifecycle.generation == match request.operation_generation {
            Some(generation) => generation as int,
            None => old(ctx).runtime.lifecycle.generation + 1,
        },
        !final(ctx).runtime_poisoned,
{
}

/// What an operation built whose place was taken is given up whole, and nothing
/// else is touched.
pub proof fn a_superseded_swap_gives_up_what_was_built<B, S>(
    legacy: &mut IdleDaemonContext<B, S>,
    app: &mut IdleDaemonContext<B, S>,
    built: &mut IdleDaemonContext<B, S>,
    request: InstallRequest,
    prepared: PreparedLegacyConfig,
    active: ActiveCapture<B, S>,
    candidate: AppRuntimeState<B, S>,
    start_mode: String,
    now: RetryInstant,
    legacy_done: Completion<B, S>,
    app_done: Completion<B, S>,
    step: AppStep<B, S>,
)
    requires
        old(legacy).stop || old(legacy).operation_epoch != request.token,
        *old(app) == *old(legacy),
        *old(built) == *old(legacy),
        call_ensures(
            legacy_recovered::<B, S>,
            (legacy, request, prepared, active, Ok(0), now),
            legacy_done,
        ),
        call_ensures(publish_app_candidate::<B, S>, (app, request, candidate), app_done),
        call_ensures(
            app_candidate_built::<B, S>,
            (built, request, candidate, start_mode, now),
            step,
        ),
    ensures
        final(legacy)@ == old(legacy)@,
        final(app)@ == old(legacy)@,
        final(built)@ == old(legacy)@,
        !legacy_done.response.ok,
        !app_done.response.ok,
        step is Done,
        !step->Done_0.response.ok,
        legacy_done.released@.len() == 1,
        legacy_done.released@[0].backend == Some(active.backend),
        legacy_done.released@[0].session == Some(active.session),
        app_done.released@.len() == 1,
        app_done.released@[0].backend == candidate.capture,
        app_done.released@[0].session == candidate.session,
        step->Done_0.released@.len() == 1,
        step->Done_0.released@[0].backend == candidate.capture,
        step->Done_0.released@[0].session == candidate.session,
{
}

/// A state that neither captures nor rests is never swapped in: its error is that of
/// the start, what it holds is given up before anything else, and the context tells
/// of the error.
pub proof fn a_failed_candidate_is_given_up<B, S>(
    ctx: &mut IdleDaemonContext<B, S>,
    request: InstallRequest,
    candidate: AppRuntimeState<B, S>,
    start_mode: String,
    now: RetryInstant,
    step: AppStep<B, S>,
)
    requires
        !old(ctx).stop,
        old(ctx).operation_epoch == request.token,
        request.operation_generation == Some(old(ctx).runtime.lifecycle.generation),
        request.old_already_detached,
        candidate.lifecycle.capture_state != CaptureState::Running,
        candidate.lifecycle.capture_state != CaptureState::Stopped,
        candidate.lifecycle.error_class != Some(ErrorClass::Fatal),
        candidate.lifecycle.last_error is Some,
        call_ensures(
            app_candidate_built::<B, S>,
            (ctx, request, candidate, start_mode, now),
            step,
        ),
    ensures
        step is Done,
        !step->Done_0.response.ok,
        step->Done_0.response.message@ == candidate.lifecycle.last_error->0@,
        step->Done_0.released@.len() == 2,
        step->Done_0.released@[0].backend == candidate.capture,
        step->Done_0.released@[0].session == candidate.session,
        final(ctx).runtime.state == RunState::Faulted,
        text_of(final(ctx).runtime.last_error) == text_of(candidate.lifecycle.last_error),
        candidate.lifecycle.error_class == Some(ErrorClass::Permanent) ==> {
            &&& step->Done_0.response.error_context.error_class == Some(ErrorClass::Permanent)
            &&& final(ctx).runtime.lifecycle.capture_state == CaptureState::Faulted
            &&& final(ctx).runtime.lifecycle.retry_policy == RetryPolicy::Manual
        },
        candidate.lifecycle.error_class != Some(ErrorClass::Permanent) ==> {
            &&& step->Done_0.response.error_context.error_class == Some(ErrorClass::Transient)
            &&& final(ctx).runtime.lifecycle.capture_state == candidate.lifecycle.capture_state
            &&& final(ctx).runtime.lifecycle.retry_policy == RetryPolicy::BoundedBackoff
            &&& final(ctx).runtime.lifecycle.next_retry_at is Some
        },
{
}

/// A settled state goes on as it was built, with the start mode that its
/// configuration names put back; it is written down first exactly where that was
/// asked for.
pub proof fn a_settled_candidate_goes_on<B, S>(
    ctx: &mut IdleDaemonContext<B, S>,
    request: InstallRequest,
    candidate: AppRuntimeState<B, S>,
    start_mode: String,
    now: RetryInstant,
    step: AppStep<B, S>,
)
    requires
        !old(ctx).stop,
        old(ctx).operation_epoch == request.token,
        candidate.lifecycle.capture_state == CaptureState::Running
            || candidate.lifecycle.capture_state == CaptureState::Stopped,
        call_ensures(
            app_candidate_built::<B, S>,
            (ctx, request, candidate, start_mode, now),
            step,
        ),
    ensures
        final(ctx)@ == old(ctx)@,
        request.activate <==> step is Save,
        !request.activate <==> step is Publish,
        ({
            let kept = if request.activate {
                step->Save_0
            } else {
                step->Publish_0
            };
            &&& kept.config.daemon.start_mode@ == start_mode@
            &&& kept.config.daemon.active_profile == candidate.config.daemon.active_profile
            &&& kept.config.daemon.control_socket_path
                == candidate.config.daemon.control_socket_path
            &&& kept.config.profiles == candidate.config.profiles
            &&& kept.capture == candidate.capture
            &&& kept.session == candidate.session
            &&& kept.capture_health == candidate.capture_health
            &&& kept.resolved_capture == candidate.resolved_capture
            &&& kept.active_profile == candidate.active_profile
            &&& kept.state == candidate.state
            &&& kept.config_family == candidate.config_family
            &&& kept.prepared_legacy == candidate.prepared_legacy
            &&& kept.lifecycle@ == candidate.lifecycle@
            &&& text_of(kept.last_error) == text_of(candidate.last_error)
            &&& text_of(kept.config_load_error) == text_of(candidate.config_load_error)
        }),
{
}

/// A configuration that could not be written down is not swapped in: what was built
/// is given up before anything else, and the error is told.
pub proof fn an_unsaved_configuration_is_given_up<B, S>(
    ctx: &mut IdleDaemonContext<B, S>,
    request: InstallRequest,
    candidate: AppRuntimeState<B, S>,
    message: String,
    now: RetryInstant,
    done: Completion<B, S>,
)
    requires
        !old(ctx).stop,
        old(ctx).operation_epoch == request.token,
        request.operation_generation == Some(old(ctx).runtime.lifecycle.generation),
        request.old_already_detached,
        call_ensures(
            app_config_saved::<B, S>,
            (ctx, request, candidate, Err(LambError::Config(message)), now),
            done,
        ),
    ensures
        !done.response.ok,
        done.response.message@ == "configuration error: "@ + message@,
        done.response.error_context.error_class == Some(ErrorClass::Permanent),
        done.released@.len() == 2,
        done.released@[0].backend == candidate.capture,
        done.released@[0].session == candidate.session,
        final(ctx).runtime.state == RunState::Faulted,
        final(ctx).runtime.config == old(ctx).runtime.config,
{
}

/// A recovery went well exactly where it left nothing unfinished; otherwise its
/// error is the one it met, or tells how many transactions are left.
pub proof fn a_recovery_is_judged(
    kind: &str,
    recovery: Result<u64, LambError>,
    judged: Result<(), LambError>,
)
    requires
        call_ensures(judge_recovery, (kind, recovery), judged),
    ensures
        judged is Ok <==> recovery == Ok::<u64, LambError>(0),
        recovery is Err ==> judged is Err && judged->Err_0@ == recovery->Err_0@,
        recovery is Ok && recovery->Ok_0 > 0 ==> {
            &&& judged is Err
            &&& judged->Err_0 is Control
            &&& judged->Err_0->Control_0@ == kind@ + " startup recovery failed for "@ + decimal(
                recovery->Ok_0 as nat,
            ) + " transaction(s)"@
        },
{
}

/// After a recovery that failed, a capture of the older format is not swapped in: it
/// is given up before anything else, and the error is told.
pub proof fn a_failed_legacy_recovery_gives_up_the_capture<B, S>(
    ctx: &mut IdleDaemonContext<B, S>,
    request: InstallRequest,
    prepared: PreparedLegacyConfig,
    active: ActiveCapture<B, S>,
    failed: u64,
    now: RetryInstant,
    done: Completion<B, S>,
)
    requires
        !old(ctx).stop,
        old(ctx).operation_epoch == request.token,
        request.operation_generation == Some(old(ctx).runtime.lifecycle.generation),
        request.old_already_detached,
        failed > 0,
        call_ensures(
            legacy_recovered::<B, S>,
            (ctx, request, prepared, active, Ok(failed), now),
            done,
        ),
    ensures
        !done.response.ok,
        done.response.error_context.error_class == Some(ErrorClass::Transient),
        done.released@.len() == 2,
        done.released@[0].backend == Some(active.backend),
        done.released@[0].session == Some(active.session),
        final(ctx).runtime.state == RunState::Faulted,
        final(ctx).runtime.lifecycle.retry_policy == RetryPolicy::BoundedBackoff,
        final(ctx).runtime.lifecycle.next_retry_at is Some,
        final(ctx).runtime.prepared_legacy == old(ctx).runtime.prepared_legacy,
{
}

/// What applying a configuration comes to that names no capture: what was not loaded
/// leaves the daemon unconfigured with an error that waits for an operator, what
/// names no profile leaves it unconfigured and at rest. Neither leaves a capture.
pub proof fn a_configuration_without_a_capture<B, S>(
    state: &mut AppRuntimeState<B, S>,
    loaded: LoadedAppConfig,
    path: &String,
    begin_attempt_generation: bool,
    current: bool,
    step: ApplyStep<B, S>,
)
    requires
        call_ensures(
            begin_apply::<B, S>,
            (state, loaded, Ok(None), path, begin_attempt_generation, current),
            step,
        ),
    ensures
        step is Finished,
        step->Finished_0 is Ok,
        final(state).state == RunState::Unconfigured,
        final(state).active_profile is None,
        final(state).capture is None,
        final(state).session is None,
        final(state).capture_health is None,
        final(state).config == loaded.config,
        final(state).lifecycle.generation == old(state).lifecycle.generation,
        loaded.state == ConfigLoadState::Loaded ==> {
            &&& text_of(final(state).last_error) == Some("no active profile configured"@)
            &&& final(state).config_load_error is None
            &&& final(state).lifecycle.daemon_state == DaemonState::Ready
            &&& final(state).lifecycle.capture_state == CaptureState::Stopped
            &&& final(state).lifecycle.error_class is None
            &&& final(state).lifecycle.active_profile is None
        },
        loaded.state != ConfigLoadState::Loaded ==> {
            let error = if loaded.state == ConfigLoadState::Missing {
                "config file not found: "@ + path@
            } else if loaded.error is Some {
                loaded.error->0@
            } else {
                "invalid config file: "@ + path@
            };
            &&& text_of(final(state).last_error) == Some(error)
            &&& text_of(final(state).config_load_error) == Some(error)
            &&& text_of(final(state).lifecycle.last_error) == Some(error)
            &&& final(state).lifecycle.daemon_state == DaemonState::Degraded
            &&& final(state).lifecycle.capture_state == CaptureState::Faulted
            &&& final(state).lifecycle.error_class == Some(ErrorClass::Permanent)
            &&& final(state).lifecycle.retry_policy == RetryPolicy::Manual
            &&& final(state).lifecycle.next_retry_at is None
        },
{
}

/// An active profile that cannot be told is the result of applying, and leaves the
/// state alone but for the configuration itself.
pub proof fn a_profile_that_cannot_be_told_is_the_result<B, S>(
    state: &mut AppRuntimeState<B, S>,
    loaded: LoadedAppConfig,
    error: LambError,
    path: &String,
    begin_attempt_generation: bool,
    current: bool,
    step: ApplyStep<B, S>,
)
    requires
        loaded.state == ConfigLoadState::Loaded,
        call_ensures(
            begin_apply::<B, S>,
            (state, loaded, Err(error), path, begin_attempt_generation, current),
            step,
        ),
    ensures
        step is Finished,
        step->Finished_0 is Err,
        step->Finished_0->Err_0@ == error@,
        final(state).config == loaded.config,
        final(state).capture == old(state).capture,
        final(state).session == old(state).session,
        final(state).state == old(state).state,
        final(state).active_profile == old(state).active_profile,
        final(state).lifecycle@ == old(state).lifecycle@,
{
}

/// An operation whose place was taken is stopped before a capture is let go of.
pub proof fn a_superseded_apply_keeps_the_capture<B, S>(
    state: &mut AppRuntimeState<B, S>,
    loaded: LoadedAppConfig,
    profile: ResolvedProfile,
    path: &String,
    step: ApplyStep<B, S>,
    passed: Result<(), LambError>,
)
    requires
        loaded.state == ConfigLoadState::Loaded,
        loaded.config.daemon.start_mode@ == "auto"@,
        call_ensures(
            begin_apply::<B, S>,
            (state, loaded, Ok(Some(profile)), path, false, false),
            step,
        ),
        call_ensures(checkpoint, (false,), passed),
    ensures
        step is Finished,
        step->Finished_0 is Err,
        step->Finished_0->Err_0 is Control,
        step->Finished_0->Err_0->Control_0@ == "capture operation superseded"@,
        passed is Err,
        passed->Err_0@ == step->Finished_0->Err_0@,
        final(state).capture == old(state).capture,
        final(state).session == old(state).session,
        final(state).capture_health == old(state).capture_health,
        final(state).state == old(state).state,
{
}

/// A profile is captured by the sound system that it names, and by no other. One
/// that names PipeWire without saying what to capture there, or that names none of
/// the two, waits for an operator.
pub proof fn a_profile_is_captured_as_it_says(
    profile: &ResolvedProfile,
    plan: Result<AppBackend, CaptureAttemptError>,
)
    requires
        call_ensures(plan_app_backend, (profile,), plan),
    ensures
        profile.backend@ == "jack"@ ==> plan == Ok::<AppBackend, CaptureAttemptError>(
            AppBackend::Jack,
        ),
        profile.backend@ == "pipewire"@ && profile.pipewire_config is Some ==> plan == Ok::<
            AppBackend,
            CaptureAttemptError,
        >(AppBackend::PipeWire),
        profile.backend@ == "pipewire"@ && profile.pipewire_config is None ==> {
            &&& plan is Err
            &&& plan->Err_0.class == ErrorClass::Permanent
            &&& plan->Err_0.message@ == "validation error: "@
                + "pipewire profile has no pipewire config"@
        },
        profile.backend@ != "jack"@ && profile.backend@ != "pipewire"@ ==> {
            &&& plan is Err
            &&& plan->Err_0.class == ErrorClass::Permanent
            &&& plan->Err_0.capture_state == CaptureState::Faulted
            &&& plan->Err_0.message@ == "validation error: "@ + ("unknown backend: "@
                + profile.backend@)
        },
{
    reveal_strlit("jack");
    reveal_strlit("pipewire");
    assert("jack"@.len() != "pipewire"@.len());
}

/// The failure to start the capture of a profile becomes part of the state, and its
/// retry is planned where it may pass; one that ends the daemon is the result. The
/// configuration is blamed only for what it was found to lack before any backend
/// was asked for.
pub proof fn a_failed_app_start_is_told<B, S>(
    preparing: &mut AppRuntimeState<B, S>,
    starting: &mut AppRuntimeState<B, S>,
    error: CaptureAttemptError,
    now: RetryInstant,
    prepared: Result<(), LambError>,
    started: Result<(), LambError>,
)
    requires
        call_ensures(app_prepare_failed::<B, S>, (preparing, error, now), prepared),
        call_ensures(app_start_failed::<B, S>, (starting, error, true, now), started),
    ensures
        error.class == ErrorClass::Fatal ==> {
            &&& prepared is Err
            &&& started is Err
            &&& prepared->Err_0 is DaemonFatal
            &&& started->Err_0 is DaemonFatal
            &&& prepared->Err_0->DaemonFatal_0@ == error.message@
            &&& started->Err_0->DaemonFatal_0@ == error.message@
            &&& final(preparing).state == old(preparing).state
            &&& final(starting).state == old(starting).state
        },
        error.class != ErrorClass::Fatal ==> {
            &&& prepared is Ok
            &&& started is Ok
            &&& final(preparing).state == RunState::Faulted
            &&& final(starting).state == RunState::Faulted
            &&& text_of(final(preparing).last_error) == Some(error.message@)
            &&& text_of(final(starting).last_error) == Some(error.message@)
            &&& text_of(final(preparing).config_load_error) == Some(error.message@)
            &&& final(starting).config_load_error is None
            &&& text_of(final(preparing).lifecycle.last_error) == Some(error.message@)
            &&& text_of(final(starting).lifecycle.last_error) == Some(error.message@)
            &&& final(starting).lifecycle.error_class == Some(error.class)
            &&& final(preparing).lifecycle.error_class == Some(error.class)
            &&& final(starting).capture_health is None
            &&& error.class == ErrorClass::Transient ==> {
                &&& final(starting).lifecycle.capture_state == error.capture_state
                &&& final(preparing).lifecycle.capture_state == error.capture_state
                &&& final(starting).lifecycle.next_retry_at is Some
                &&& final(preparing).lifecycle.next_retry_at is Some
            }
            &&& error.class == ErrorClass::Permanent ==> {
                &&& final(starting).lifecycle.capture_state == CaptureState::Faulted
                &&& final(starting).lifecycle.next_retry_at is None
                &&& final(preparing).lifecycle.next_retry_at is None
            }
        },
{
}

/// A capture of a profile that was recovered in full becomes part of the state whole,
/// under the name of the profile; one that was not, or whose place was taken, is
/// given up whole and leaves the state as it was.
pub proof fn a_recovered_app_capture_is_taken_whole<B, S>(
    state: &mut AppRuntimeState<B, S>,
    attempt: PrivateAppCaptureAttempt<B, S>,
    recovery: Result<u64, LambError>,
    current: bool,
    finished: Result<(), (Released<B, S>, LambError)>,
)
    requires
        old(state).active_profile is Some,
        call_ensures(
            app_capture_recovered::<B, S>,
            (state, attempt, recovery, current),
            finished,
        ),
    ensures
        finished is Ok <==> recovery == Ok::<u64, LambError>(0) && current,
        finished is Ok ==> {
            &&& final(state).capture == Some(attempt.backend)
            &&& final(state).session == Some(attempt.session)
            &&& final(state).capture_health == attempt.health
            &&& final(state).state == RunState::Capturing
            &&& final(state).last_error is None
            &&& final(state).config_load_error is None
            &&& final(state).active_profile == old(state).active_profile
            &&& final(state).config == old(state).config
            &&& final(state).lifecycle.daemon_state == DaemonState::Ready
            &&& final(state).lifecycle.capture_state == CaptureState::Running
            &&& final(state).lifecycle.error_class is None
            &&& final(state).lifecycle.retry_attempt == 0
            &&& final(state).lifecycle.next_retry_at is None
            &&& text_of(final(state).lifecycle.active_profile) == Some(
                old(state).active_profile->0.name@,
            )
            &&& text_of(final(state).lifecycle.resolved_target) == Some(
                old(state).active_profile->0.name@,
            )
            &&& final(state).lifecycle.generation == old(state).lifecycle.generation
        },
        finished is Err ==> {
            &&& final(state)@ == old(state)@
            &&& finished->Err_0.0.backend == Some(attempt.backend)
            &&& finished->Err_0.0.session == Some(attempt.session)
        },
{
}

/// The start that a configuration of the older format asks for begins exactly where
/// such a configuration is there, and ends with the capture that was started; a
/// recovery that failed gives the capture up, and the daemon goes on.
pub proof fn a_configured_start_captures<B, S>(
    beginning: &mut IdleDaemonContext<B, S>,
    start: ConfiguredStart,
    starting: &mut IdleDaemonContext<B, S>,
    active: ActiveCapture<B, S>,
    started: ConfiguredStep<B, S>,
    recovering: &mut IdleDaemonContext<B, S>,
    failed: u64,
    now: RetryInstant,
    finished: ConfiguredStep<B, S>,
)
    requires
        !old(beginning).runtime_poisoned,
        old(beginning).runtime.prepared_legacy is Some,
        old(beginning).attempts < u64::MAX,
        old(beginning).runtime.lifecycle.generation < u64::MAX,
        old(beginning).runtime.lifecycle.daemon_state != DaemonState::Stopping,
        call_ensures(begin_configured_start::<B, S>, (beginning,), start),
        *old(starting) == *final(beginning),
        call_ensures(configured_start_result::<B, S>, (starting, Ok(active), now), started),
        *old(recovering) == *final(starting),
        call_ensures(
            configured_start_recovered::<B, S>,
            (recovering, started->Recover_0, Ok(failed), now),
            finished,
        ),
    ensures
        start is Start,
        start->sink is Bound,
        start->sink->generation == old(beginning).runtime.lifecycle.generation + 1,
        start->sink->attempt_id.raw == old(beginning).attempts + 1,
        started == ConfiguredStep::<B, S>::Recover(active),
        finished is Finished,
        finished->result is Ok,
        finished->released@.len() == 2,
        failed == 0 ==> {
            let after = *final(recovering);
            &&& after.runtime.capture == Some(active.backend)
            &&& after.runtime.session == Some(active.session)
            &&& after.runtime.resolved_capture == Some(active.resolved)
            &&& after.runtime.state == RunState::Capturing
            &&& after.runtime.last_error is None
            &&& after.runtime.config_load_error is None
            &&& after.runtime.prepared_legacy == old(beginning).runtime.prepared_legacy
            &&& after.runtime.config_family == old(beginning).runtime.config_family
            &&& after.runtime.lifecycle.capture_state == CaptureState::Running
            &&& after.runtime.lifecycle.daemon_state == DaemonState::Ready
            &&& after.runtime.lifecycle.error_class is None
            &&& after.runtime.lifecycle.generation
                == old(beginning).runtime.lifecycle.generation + 1
            &&& text_of(after.runtime.lifecycle.resolved_target) == text_of(
                active.resolved.resolved_target,
            )
            &&& after@.capture_is_running()
            &&& finished->released@[0].backend is None
            &&& finished->released@[0].session is None
            &&& finished->released@[1].backend is None
        },
        failed > 0 ==> {
            &&& final(recovering).runtime.state == RunState::Faulted
            &&& final(recovering).runtime.lifecycle.next_retry_at is Some
            &&& final(recovering).runtime.lifecycle.error_class == Some(ErrorClass::Transient)
            &&& finished->released@[0].backend == Some(active.backend)
            &&& finished->released@[0].session == Some(active.session)
        },
{
}

/// Without a configuration of the older format there is nothing to start here, and
/// a start that fails in a way that ends the daemon is the result and changes
/// nothing; any other failure is part of the state, and the daemon goes on.
pub proof fn a_configured_start_that_fails<B, S>(
    skipping: &mut IdleDaemonContext<B, S>,
    skipped: ConfiguredStart,
    failing: &mut IdleDaemonContext<B, S>,
    error: CaptureAttemptError,
    now: RetryInstant,
    failed: ConfiguredStep<B, S>,
)
    requires
        old(skipping).runtime.prepared_legacy is None,
        call_ensures(begin_configured_start::<B, S>, (skipping,), skipped),
        old(failing).runtime.lifecycle.generation < u64::MAX,
        old(failing).runtime.lifecycle.daemon_state != DaemonState::Stopping,
        call_ensures(configured_start_result::<B, S>, (failing, Err(error), now), failed),
    ensures
        skipped is Skip,
        final(skipping)@ == old(skipping)@,
        failed is Finished,
        error.class == ErrorClass::Fatal ==> {
            &&& failed->result is Err
            &&& failed->result->Err_0 is Capture
            &&& failed->result->Err_0->Capture_0@ == error.message@
            &&& final(failing)@ == old(failing)@
        },
        error.class != ErrorClass::Fatal ==> {
            &&& failed->result is Ok
            &&& !old(failing).stop ==> !final(failing).stop
            &&& final(failing).runtime.state == RunState::Faulted
            &&& text_of(final(failing).runtime.last_error) == Some(error.message@)
            &&& final(failing).runtime.lifecycle.error_class == Some(error.class)
            &&& final(failing).runtime.lifecycle.generation
                == old(failing).runtime.lifecycle.generation + 1
        },
{
}

/// Whatever a start of a capture comes to, its answer keeps its kind: a refusal
/// stays a refusal with its own message, and what went well is worded as a start.
pub proof fn the_answer_to_a_start_keeps_its_kind(
    response: ControlResponse,
    requested_profile: &Option<String>,
    answer: ControlResponse,
)
    requires
        call_ensures(finish_start_capture, (response, requested_profile), answer),
    ensures
        answer.ok == response.ok,
        !response.ok ==> answer.message@ == response.message@,
        answer.error_context == response.error_context,
        answer.status is Some <==> response.status is Some,
        response.status is Some ==> answer.status->0@ == response.status->0@,
{
}

} // verus!
