//! What holds of the values that are handed around: a copy is what it is a copy of, a
//! name finds what has it, and work and faults keep what they carry.

use crate::attempt::{apply_capture_attempt_error_to_state, CaptureAttemptError};
use crate::audio_laws::holds_numbers;
use crate::calibration::{input_names, session_calibration_target, SessionCalibrationTarget};
use crate::commands::{configured_start_recovered, ConfiguredStep};
use crate::config::{channel_names, profile_names};
use crate::error::LambError;
use crate::identity::{configured_identity, input_settings};
use crate::lifecycle::{
    CaptureState, DaemonState, ErrorClass, LifecycleState, RetryInstant, RetryPolicy,
};
use crate::model::{
    ActiveCapture, ActivityDetectorKind, ActivityPolicy, AppConfig, AppRuntimeState, BackendKind,
    CaptureBackend, CaptureSession, ConfiguredInputIdentity, IdleDaemonContext,
    PipeWireCaptureConfig, ProfileConfig, ResolvedExportPolicy, ResolvedLiveInputIdentity,
    ResolvedProfile, RunState,
};
use crate::operations::runtime_fault_sink_for_attempt;
use crate::scheduler::{
    CaptureAttemptId, PendingOperation, RetryScheduler, RuntimeCaptureFault, RuntimeFaultSink,
    ScheduledOperation,
};
use crate::text::{is_first_name, lemma_place_exists, lemma_place_of, place_of, text_of};
use crate::threshold::DetectorVersions;
use vstd::prelude::*;

verus! {

/// Errors that end the daemon, and errors that wait for an operator, leave capture
/// faulted, and carry their message.
pub proof fn errors_carry_their_message(
    message: String,
    fatal: CaptureAttemptError,
    permanent: CaptureAttemptError,
)
    requires
        call_ensures(CaptureAttemptError::fatal, (message,), fatal),
        call_ensures(CaptureAttemptError::permanent, (message,), permanent),
    ensures
        fatal.class == ErrorClass::Fatal,
        permanent.class == ErrorClass::Permanent,
        fatal.capture_state == CaptureState::Faulted,
        permanent.capture_state == CaptureState::Faulted,
        fatal.message@ == message@,
        permanent.message@ == message@,
{
}

/// A failed attempt leaves a state faulted, with its message and its class: one that may
/// pass is planned again, one that waits for an operator is not. What is captured and
/// configured is left alone, and one that ends the daemon changes nothing.
pub proof fn a_failed_attempt_faults_the_state<B, S>(
    runtime: &mut AppRuntimeState<B, S>,
    error: CaptureAttemptError,
    now: RetryInstant,
    applied: Result<(), CaptureAttemptError>,
)
    requires
        call_ensures(apply_capture_attempt_error_to_state::<B, S>, (runtime, error, now), applied),
    ensures
        applied is Err <==> error.class == ErrorClass::Fatal,
        applied is Err ==> applied->Err_0 == error && *final(runtime) == *old(runtime),
        applied is Ok ==> {
            &&& final(runtime).state == RunState::Faulted
            &&& text_of(final(runtime).last_error) == Some(error.message@)
            &&& text_of(final(runtime).config_load_error) == Some(error.message@)
            &&& text_of(final(runtime).lifecycle.last_error) == Some(error.message@)
            &&& final(runtime).lifecycle.error_class == Some(error.class)
            &&& final(runtime).lifecycle.daemon_state == DaemonState::Degraded
            &&& final(runtime).lifecycle.generation == old(runtime).lifecycle.generation
            &&& final(runtime).capture == old(runtime).capture
            &&& final(runtime).session == old(runtime).session
            &&& final(runtime).capture_health == old(runtime).capture_health
            &&& final(runtime).active_profile == old(runtime).active_profile
            &&& final(runtime).config == old(runtime).config
            &&& final(runtime).prepared_legacy == old(runtime).prepared_legacy
        },
        error.class == ErrorClass::Transient ==> {
            &&& final(runtime).lifecycle.capture_state == error.capture_state
            &&& final(runtime).lifecycle.retry_policy == RetryPolicy::BoundedBackoff
            &&& final(runtime).lifecycle.retry_attempt > 0
            &&& final(runtime).lifecycle.next_retry_at is Some
            &&& final(runtime).lifecycle.next_retry_at->0.millis >= now.millis
        },
        error.class == ErrorClass::Permanent ==> {
            &&& final(runtime).lifecycle.capture_state == CaptureState::Faulted
            &&& final(runtime).lifecycle.retry_policy == RetryPolicy::Manual
            &&& final(runtime).lifecycle.next_retry_at is None
        },
{
    let after = final(runtime)@;
    assert(applied is Ok ==> after.lifecycle == final(runtime).lifecycle@);
}

/// A copy of a configuration has all its settings, its profiles and their channels.
pub proof fn a_copied_configuration_is_the_same(
    config: &AppConfig,
    copy: AppConfig,
    profile: &ProfileConfig,
    profile_copy: ProfileConfig,
    place: int,
    channel: int,
)
    requires
        call_ensures(AppConfig::duplicate, (config,), copy),
        call_ensures(ProfileConfig::duplicate, (profile,), profile_copy),
    ensures
        copy.daemon.start_mode@ == config.daemon.start_mode@,
        text_of(copy.daemon.active_profile) == text_of(config.daemon.active_profile),
        copy.daemon.control_socket_path@ == config.daemon.control_socket_path@,
        copy.profiles@.len() == config.profiles@.len(),
        0 <= place < config.profiles@.len() ==> {
            &&& copy.profiles@[place].name@ == config.profiles@[place].name@
            &&& copy.profiles@[place].channels@.len() == config.profiles@[place].channels@.len()
        },
        profile_copy.name@ == profile.name@,
        profile_copy.channels@.len() == profile.channels@.len(),
        0 <= channel < profile.channels@.len() ==> {
            let was = profile.channels@[channel];
            let now = profile_copy.channels@[channel];
            &&& now.name@ == was.name@
            &&& now.activity is Some <==> was.activity is Some
            &&& now.activity is Some ==> {
                &&& now.activity->0.threshold_bits == was.activity->0.threshold_bits
                &&& now.activity->0.threshold_source == was.activity->0.threshold_source
                &&& now.activity->0.updated_at_unix_seconds
                    == was.activity->0.updated_at_unix_seconds
                &&& now.activity->0.input_id@ == was.activity->0.input_id@
                &&& text_of(now.activity->0.calibration_id) == text_of(
                    was.activity->0.calibration_id,
                )
            }
        },
{
    assert(copy@.profiles.len() == copy.profiles@.len());
    assert(config@.profiles.len() == config.profiles@.len());
    if 0 <= place < config.profiles@.len() {
        assert(copy@.profiles[place] == copy.profiles@[place]@);
        assert(config@.profiles[place] == config.profiles@[place]@);
        assert(copy.profiles@[place]@.channels.len() == copy.profiles@[place].channels@.len());
        assert(config.profiles@[place]@.channels.len() == config.profiles@[place].channels@.len());
    }
    assert(profile_copy@.channels.len() == profile_copy.channels@.len());
    assert(profile@.channels.len() == profile.channels@.len());
    if 0 <= channel < profile.channels@.len() {
        assert(profile_copy@.channels[channel] == profile_copy.channels@[channel]@);
        assert(profile@.channels[channel] == profile.channels@[channel]@);
    }
}

/// A copy of a profile has all its settings, and where its levels are numbers the two are
/// found to be the same.
pub proof fn a_copied_profile_is_the_same(
    profile: &ResolvedProfile,
    copy: ResolvedProfile,
    same: bool,
    pipewire: &PipeWireCaptureConfig,
    pipewire_copy: PipeWireCaptureConfig,
)
    requires
        call_ensures(ResolvedProfile::duplicate, (profile,), copy),
        call_ensures(ResolvedProfile::same, (profile, &copy), same),
        call_ensures(PipeWireCaptureConfig::duplicate, (pipewire,), pipewire_copy),
    ensures
        holds_numbers(*profile) ==> same,
        copy.name@ == profile.name@,
        copy.backend@ == profile.backend@,
        copy.client_name@ == profile.client_name@,
        copy.ports@ == profile.ports@,
        copy.buffer_seconds == profile.buffer_seconds,
        copy.export_policy.output_dir@ == profile.export_policy.output_dir@,
        copy.export_policy.layout == profile.export_policy.layout,
        copy.pipewire_config is Some <==> profile.pipewire_config is Some,
        text_of(pipewire_copy.target) == text_of(pipewire.target),
        text_of(pipewire_copy.latency) == text_of(pipewire.latency),
        pipewire_copy.sample_rate == pipewire.sample_rate,
        pipewire_copy.dont_remix == pipewire.dont_remix,
        pipewire_copy.capture_ports@.len() == pipewire.capture_ports@.len(),
        forall|i: int|
            0 <= i < pipewire.capture_ports@.len() ==> {
                &&& (#[trigger] pipewire_copy.capture_ports@[i]).name@
                    == pipewire.capture_ports@[i].name@
                &&& pipewire_copy.capture_ports@[i].source@ == pipewire.capture_ports@[i].source@
            },
{
    let rules = profile@.export_policy.activity.rules;
    if holds_numbers(*profile) {
        assert forall|i: int| 0 <= i < rules.len() implies crate::profile::equal_rules(
            #[trigger] rules[i],
            rules[i],
        ) by {
            let rule = profile.export_policy.activity.channels@[i];
            assert(rules[i] == rule@);
        }
    }
    let was = pipewire@.capture_ports;
    let now = pipewire_copy@.capture_ports;
    assert(was.len() == pipewire.capture_ports@.len());
    assert(now.len() == pipewire_copy.capture_ports@.len());
    assert forall|i: int| 0 <= i < pipewire.capture_ports@.len() implies {
        &&& (#[trigger] pipewire_copy.capture_ports@[i]).name@ == pipewire.capture_ports@[i].name@
        &&& pipewire_copy.capture_ports@[i].source@ == pipewire.capture_ports@[i].source@
    } by {
        assert(was[i] == (pipewire.capture_ports@[i].name@, pipewire.capture_ports@[i].source@));
        assert(now[i] == (
            pipewire_copy.capture_ports@[i].name@,
            pipewire_copy.capture_ports@[i].source@,
        ));
    }
}

/// A profile with a level that is no number is not found to be the same as any.
pub proof fn a_level_that_is_no_number_is_never_the_same(
    profile: &ResolvedProfile,
    other: &ResolvedProfile,
    index: int,
    same: bool,
    reversed: bool,
)
    requires
        0 <= index < profile.export_policy.activity.channels@.len(),
        profile.export_policy.activity.channels@[index].threshold is Some,
        profile.export_policy.activity.channels@[index].threshold->0.threshold_bits
            % 0x8000_0000_0000_0000 > 0x7FF0_0000_0000_0000,
        call_ensures(ResolvedProfile::same, (profile, other), same),
        call_ensures(ResolvedProfile::same, (other, profile), reversed),
    ensures
        !same,
        !reversed,
{
    let rules = profile@.export_policy.activity.rules;
    let against = other@.export_policy.activity.rules;
    assert(rules.len() == profile.export_policy.activity.channels@.len());
    assert(rules[index] == profile.export_policy.activity.channels@[index]@);
    if same {
        assert(crate::profile::equal_rules(rules[index], against[index]));
    }
    if reversed {
        assert(crate::profile::equal_rules(against[index], rules[index]));
    }
}

/// A copy of what is exported has all its rules.
pub proof fn a_copied_policy_is_the_same(
    policy: &ResolvedExportPolicy,
    copy: ResolvedExportPolicy,
    activity: &ActivityPolicy,
    activity_copy: ActivityPolicy,
)
    requires
        call_ensures(ResolvedExportPolicy::duplicate, (policy,), copy),
        call_ensures(ActivityPolicy::duplicate, (activity,), activity_copy),
    ensures
        copy.output_dir@ == policy.output_dir@,
        copy.layout == policy.layout,
        copy.activity.detector == policy.activity.detector,
        copy.activity.whole_export_exact_zero_gate
            == policy.activity.whole_export_exact_zero_gate,
        copy.activity.trim_leading_silence == policy.activity.trim_leading_silence,
        copy.activity.channels@ == policy.activity.channels@,
        activity_copy.detector == activity.detector,
        activity_copy.whole_export_exact_zero_gate == activity.whole_export_exact_zero_gate,
        activity_copy.trim_leading_silence == activity.trim_leading_silence,
        activity_copy.channels@ == activity.channels@,
{
}

/// A profile of a configuration is found by its name, the first where there are several;
/// so is a channel of a profile.
pub proof fn names_find_what_has_them(
    config: &AppConfig,
    name: &String,
    index: Option<usize>,
    profile: &ProfileConfig,
    channel: &String,
    place: Option<usize>,
)
    requires
        call_ensures(AppConfig::profile_index, (config, name), index),
        call_ensures(ProfileConfig::channel_index, (profile, channel), place),
    ensures
        index is Some ==> {
            &&& index->0 < config.profiles@.len()
            &&& config.profiles@[index->0 as int].name@ == name@
            &&& forall|i: int| 0 <= i < index->0 ==> (#[trigger] config.profiles@[i]).name@ != name@
        },
        index is None ==> forall|i: int|
            0 <= i < config.profiles@.len() ==> (#[trigger] config.profiles@[i]).name@ != name@,
        place is Some ==> {
            &&& place->0 < profile.channels@.len()
            &&& profile.channels@[place->0 as int].name@ == channel@
            &&& forall|i: int|
                0 <= i < place->0 ==> (#[trigger] profile.channels@[i]).name@ != channel@
        },
        place is None ==> forall|i: int|
            0 <= i < profile.channels@.len() ==> (#[trigger] profile.channels@[i]).name@
                != channel@,
{
    let profiles = profile_names(config@.profiles);
    let channels = channel_names(profile@.channels);
    assert(profiles.len() == config.profiles@.len());
    assert(channels.len() == profile.channels@.len());
    assert forall|i: int| 0 <= i < profiles.len() implies #[trigger] profiles[i]
        == config.profiles@[i].name@ by {
        assert(config@.profiles[i] == config.profiles@[i]@);
    }
    assert forall|i: int| 0 <= i < channels.len() implies #[trigger] channels[i]
        == profile.channels@[i].name@ by {
        assert(profile@.channels[i] == profile.channels@[i]@);
    }
    if index is Some {
        lemma_place_exists(profiles, name@);
        assert forall|i: int| 0 <= i < index->0 implies (#[trigger] config.profiles@[i]).name@
            != name@ by {
            assert(profiles[i] == config.profiles@[i].name@);
        }
    } else {
        assert forall|i: int| 0 <= i < config.profiles@.len() implies (
        #[trigger] config.profiles@[i]).name@ != name@ by {
            assert(profiles[i] == config.profiles@[i].name@);
            assert(!profiles.contains(name@));
        }
    }
    if place is Some {
        lemma_place_exists(channels, channel@);
        assert forall|i: int| 0 <= i < place->0 implies (#[trigger] profile.channels@[i]).name@
            != channel@ by {
            assert(channels[i] == profile.channels@[i].name@);
        }
    } else {
        assert forall|i: int| 0 <= i < profile.channels@.len() implies (
        #[trigger] profile.channels@[i]).name@ != channel@ by {
            assert(channels[i] == profile.channels@[i].name@);
            assert(!channels.contains(channel@));
        }
    }
}

/// The settings of an input are those of the channel.
pub proof fn settings_are_those_of_the_channel(
    profile: &ResolvedProfile,
    channel: &String,
    settings: Result<ConfiguredInputIdentity, LambError>,
    identity: Result<ConfiguredInputIdentity, LambError>,
)
    requires
        call_ensures(input_settings, (profile, channel), settings),
        call_ensures(configured_identity, (profile, channel, None), identity),
    ensures
        settings is Ok <==> identity is Ok,
        settings is Ok ==> settings->Ok_0@ == identity->Ok_0@,
        settings is Err ==> settings->Err_0@ == identity->Err_0@,
{
}

/// A daemon that begins is in order, captures nothing and plans nothing.
pub proof fn a_daemon_begins_in_order(active_profile: Option<String>, state: LifecycleState)
    requires
        call_ensures(LifecycleState::ready_stopped, (active_profile,), state),
    ensures
        state.daemon_state == DaemonState::Ready,
        state.capture_state == CaptureState::Stopped,
        state.error_class is None,
        state.last_error is None,
        state.retry_policy == RetryPolicy::NoRetry,
        state.retry_attempt == 0,
        state.next_retry_at is None,
        text_of(state.active_profile) == text_of(active_profile),
        state.resolved_target is None,
        state.generation == 0,
{
    assert(text_of(state.last_error) is None);
    assert(text_of(state.resolved_target) is None);
}

/// Reports have a name for the detectors that thresholds work with, and a version of each.
pub proof fn detectors_have_their_names(
    detector: ActivityDetectorKind,
    name: Option<&'static str>,
    versions: &DetectorVersions,
    version: String,
)
    requires
        call_ensures(ActivityDetectorKind::report_name, (&detector,), name),
        call_ensures(DetectorVersions::version, (versions, detector), version),
    ensures
        detector == ActivityDetectorKind::ExactZero ==> name is Some && name->0@ == "exact-zero"@
            && version@ == versions.exact_zero@,
        detector == ActivityDetectorKind::WindowedRmsPeak ==> name is Some && name->0@
            == "windowed-rms-peak"@ && version@ == versions.windowed_rms_peak@,
        detector == ActivityDetectorKind::FixedLevel || detector
            == ActivityDetectorKind::CalibratedNoiseFloor ==> name is None && version@.len() == 0,
{
}

/// A backend runs at its rate.
pub proof fn a_backend_has_its_rate<B>(backend: &CaptureBackend<B>, rate: u32)
    requires
        backend.kind != BackendKind::Fake,
        call_ensures(CaptureBackend::<B>::sample_rate, (backend,), rate),
    ensures
        rate == backend.rate,
{
}

/// A fault that is told by its text is one of the backend, and says that text.
pub proof fn faults_say_their_text(
    text: &str,
    fault: RuntimeCaptureFault,
    message: String,
    lost: String,
    lost_message: String,
)
    requires
        call_ensures(RuntimeCaptureFault::from_text, (text,), fault),
        call_ensures(RuntimeCaptureFault::message, (&fault,), message),
        call_ensures(
            RuntimeCaptureFault::message,
            (&RuntimeCaptureFault::DeviceDisconnected(lost),),
            lost_message,
        ),
    ensures
        fault is BackendFault,
        message@ == text@,
        lost_message@ == lost@,
{
}

/// Work keeps the generation that it belongs to, from where it waits to where it is done,
/// and a fault that waits is handed on as it is.
pub proof fn work_keeps_its_generation(
    waiting: &PendingOperation,
    waiting_generation: u64,
    operation: ScheduledOperation,
    generation: u64,
)
    requires
        call_ensures(PendingOperation::generation, (waiting,), waiting_generation),
        call_ensures(PendingOperation::operation, (waiting,), operation),
        call_ensures(ScheduledOperation::generation, (&operation,), generation),
    ensures
        generation == waiting_generation,
        waiting is Retry ==> operation is Retry && generation == waiting->Retry_generation,
        waiting is Immediate ==> operation == waiting->Immediate_0,
        operation is Retry ==> generation == operation->Retry_generation,
        operation is RuntimeFault ==> generation == operation->RuntimeFault_generation,
{
}

/// A new scheduler has nothing to do, binds sinks to the generation and the attempt that
/// they are for, and attempts are numbered one after the other.
pub proof fn a_scheduler_begins_with_nothing(
    scheduler: RetryScheduler,
    generation: u64,
    attempt_id: CaptureAttemptId,
    sink: RuntimeFaultSink,
    current: u64,
    next: Option<CaptureAttemptId>,
)
    requires
        call_ensures(RetryScheduler::new, (), scheduler),
        call_ensures(RetryScheduler::fault_sink, (&scheduler, generation, attempt_id), sink),
        call_ensures(CaptureAttemptId::checked_after, (current,), next),
    ensures
        scheduler.pending is None,
        !scheduler.stopped,
        scheduler.generation == 0,
        !scheduler.thread_spawned,
        sink is Bound,
        sink->generation == generation,
        sink->attempt_id.raw == attempt_id.raw,
        next is Some <==> current < u64::MAX,
        next is Some ==> next->0.raw == current + 1,
{
}

/// A session of checked inputs is made of them and of its profile.
pub proof fn an_app_session_is_its_profile<S>(
    memory: S,
    identity: u64,
    sample_rate: u32,
    frames: u64,
    profile: &ResolvedProfile,
    inputs: Vec<ConfiguredInputIdentity>,
    live: Vec<Option<ResolvedLiveInputIdentity>>,
    channel_count: u32,
    session: CaptureSession<S>,
)
    requires
        channel_count == profile.ports@.len(),
        call_ensures(
            CaptureSession::<S>::from_validated_app_runtime,
            (memory, identity, sample_rate, frames, profile, inputs, live, channel_count),
            session,
        ),
    ensures
        session.resource == memory,
        session.identity == identity,
        session.sample_rate == sample_rate,
        session.channel_count == channel_count,
        session.profile_name@ == profile.name@,
        session.policy@ == profile.export_policy@,
        session.configured_inputs == inputs,
        session.resolved_live_inputs == live,
        session.calibration_sample_frames == frames,
        !session.policy_poisoned,
        !session.workspace_poisoned,
{
}

/// A channel without a key that outlives its device cannot be calibrated, nor one that is
/// not being captured in good health, and the refusal says so.
pub proof fn a_calibration_needs_a_key_and_health<B, S>(
    ctx: &IdleDaemonContext<B, S>,
    profile_name: &String,
    channel: &String,
    known: Option<usize>,
    index: int,
    target: Result<SessionCalibrationTarget, LambError>,
)
    requires
        !ctx.runtime_poisoned,
        call_ensures(AppConfig::profile_index, (&ctx.runtime.config, profile_name), known),
        known is Some,
        ctx.runtime.active_profile is Some,
        ctx.runtime.active_profile->0.name@ == profile_name@,
        ctx.runtime.session is Some,
        ctx.runtime.session->0.profile_name@ == profile_name@,
        0 <= index < ctx.runtime.session->0.configured_inputs@.len(),
        index <= u32::MAX,
        ctx.runtime.session->0.configured_inputs@[index].name@ == channel@,
        forall|i: int|
            0 <= i < index ==> (#[trigger] ctx.runtime.session->0.configured_inputs@[i]).name@
                != channel@,
        call_ensures(session_calibration_target::<B, S>, (ctx, profile_name, channel), target),
    ensures
        ({
            let live = ctx.runtime.session->0.resolved_live_inputs@;
            let keyed = index < live.len() && live[index] is Some;
            let health = ctx.runtime.capture_health;
            let ill = ctx.stop || ctx.runtime.state != RunState::Capturing
                || ctx.runtime.capture is None || ctx.runtime.capture->0.rate
                != ctx.runtime.session->0.sample_rate || ctx.runtime.capture->0.kind
                == BackendKind::Fake || (health is Some && health->0.fault is Some) || (
            ctx.runtime.capture->0.kind == BackendKind::PipeWire && ctx.runtime.capture->0.error
                is Some);
            &&& !keyed ==> {
                &&& target is Err
                &&& target->Err_0 is Control
                &&& target->Err_0->Control_0@ == "profile "@ + profile_name@ + (" channel "@
                    + channel@ + " has no durable live key"@)
            }
            &&& keyed && ill ==> target is Err
            &&& keyed && target is Err ==> {
                &&& target->Err_0 is CaptureInvariant
                &&& target->Err_0->CaptureInvariant_0@
                    == "calibration target is not currently capturing and healthy"@
            }
        }),
{
    let names = input_names(ctx.runtime.session->0.configured_inputs@);
    assert(is_first_name(names, channel@, index)) by {
        assert forall|i: int| 0 <= i < index implies names[i] != channel@ by {
            assert(ctx.runtime.session->0.configured_inputs@[i].name@ != channel@);
        }
    }
    lemma_place_of(names, channel@, index);
    assert(place_of(profile_names(ctx.runtime.config@.profiles), profile_name@) is Some);
}

/// Where the generations or the attempts have run out no attempt is started, and that ends
/// the daemon.
pub proof fn numbers_that_run_out_end_the_daemon<B, S>(
    ctx: &mut IdleDaemonContext<B, S>,
    operation_generation: Option<u64>,
    sink: Result<RuntimeFaultSink, CaptureAttemptError>,
)
    requires
        call_ensures(runtime_fault_sink_for_attempt::<B, S>, (ctx, operation_generation), sink),
    ensures
        ({
            let no_generation = operation_generation is None
                && old(ctx).runtime.lifecycle.generation == u64::MAX;
            let no_attempt = old(ctx).attempts == u64::MAX;
            &&& sink is Err <==> no_generation || no_attempt
            &&& sink is Err ==> sink->Err_0.class == ErrorClass::Fatal && *final(ctx) == *old(ctx)
            &&& no_generation ==> sink->Err_0.message@ == "capture generation overflow"@
            &&& no_attempt && !no_generation ==> sink->Err_0.message@
                == "capture attempt identity overflow"@
        }),
{
}

/// A capture that was started for the configuration is given up where the generations have
/// run out or the daemon is going down, and that is an error of the daemon.
pub proof fn a_start_that_cannot_be_told_is_given_up<B, S>(
    ctx: &mut IdleDaemonContext<B, S>,
    active: ActiveCapture<B, S>,
    now: RetryInstant,
    step: ConfiguredStep<B, S>,
)
    requires
        !old(ctx).runtime_poisoned,
        old(ctx).runtime.lifecycle.generation == u64::MAX
            || old(ctx).runtime.lifecycle.daemon_state == DaemonState::Stopping,
        call_ensures(configured_start_recovered::<B, S>, (ctx, active, Ok(0), now), step),
    ensures
        step is Finished,
        step->result is Err,
        step->result->Err_0 is ControlInvariant,
        step->result->Err_0->ControlInvariant_0@
            == "initial capture publication generation overflow"@,
        step->released@[0].backend == Some(active.backend),
        step->released@[0].session == Some(active.session),
        final(ctx).runtime.capture == old(ctx).runtime.capture,
        final(ctx).runtime.state == old(ctx).runtime.state,
        final(ctx).stop == old(ctx).stop,
{
}

} // verus!
