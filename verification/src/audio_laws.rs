//! What holds of every command on the audio of a capture: what becomes of a write is
//! what the client is told, and a calibration measures the capture that is there.

use crate::calibration::{
    admit_calibration, begin_calibration, calibration_frames, calibration_observed,
    calibration_target_is_current, calibration_target_matches_runtime, input_names,
    session_calibration_target, SessionCalibrationTarget,
};
use crate::config::profile_names;
use crate::control::{ControlResponse, DaemonStatus};
use crate::error::LambError;
use crate::identity::configured_identity;
use crate::model::{AppRuntimeState, BackendKind, IdleDaemonContext, ResolvedProfile, RunState};
use crate::persistence::{
    admit_persistence, app_lock_error_response, app_persistence_delivered,
    app_persistence_response, enter_session_command, finish_app_clear,
    persistence_delivery_only_response, persistence_message, persistence_message_from_committed,
    persistence_response, report_error, set_app_last_error, DumpOutcome, FrameLosses,
    OutcomeSummary, SessionEntry,
};
use crate::text::{decimal, is_first_name, lemma_place_of, text_of};
use vstd::prelude::*;

verus! {

/// What a client is told has the kind of what became of the audio, and carries its
/// range of frames, its number of frames and its losses: silence is told as silence,
/// what the rules left out as left out, and nothing new as nothing new.
pub proof fn a_client_is_told_what_became_of_the_audio(
    outcome: DumpOutcome,
    sample_rate: u32,
    status: DaemonStatus,
    response: ControlResponse,
)
    requires
        call_ensures(persistence_response, (outcome, sample_rate, status), response),
    ensures
        response.ok,
        response.status is Some,
        response.status->0@ == status@,
        response.error_context.error_class is None,
        response.threshold_report is None,
        response.persistence_outcome is Some,
        response.persistence_outcome->0 is Written <==> outcome is Written,
        response.persistence_outcome->0 is SkippedSilent <==> outcome is SkippedSilent,
        response.persistence_outcome->0 is SkippedByPolicy <==> outcome is SkippedByPolicy,
        response.persistence_outcome->0 is NoNewAudio <==> outcome is NoNewAudio,
        ({
            let told = response.persistence_outcome->0;
            &&& outcome is Written ==> {
                &&& told->Written_start_frame == outcome->Written_start_frame
                &&& told->Written_end_frame == outcome->Written_end_frame
                &&& told->Written_frames == outcome->Written_frames
                &&& told->export_start_frame == outcome->export_start_frame
                &&& told->export_frames == outcome->export_frames
                &&& told->Written_sample_rate == sample_rate
                &&& told->Written_losses == outcome->Written_losses
                &&& told->output_directory@ == outcome->output_directory@
                &&& told->files@ == outcome->files@
            }
            &&& outcome is SkippedSilent ==> {
                &&& told->SkippedSilent_start_frame == outcome->SkippedSilent_start_frame
                &&& told->SkippedSilent_end_frame == outcome->SkippedSilent_end_frame
                &&& told->SkippedSilent_frames == outcome->SkippedSilent_frames
                &&& told->SkippedSilent_sample_rate == sample_rate
                &&& told->SkippedSilent_losses == outcome->SkippedSilent_losses
            }
            &&& outcome is SkippedByPolicy ==> {
                &&& told->SkippedByPolicy_start_frame == outcome->SkippedByPolicy_start_frame
                &&& told->SkippedByPolicy_end_frame == outcome->SkippedByPolicy_end_frame
                &&& told->SkippedByPolicy_frames == outcome->SkippedByPolicy_frames
                &&& told->SkippedByPolicy_sample_rate == sample_rate
                &&& told->SkippedByPolicy_losses == outcome->SkippedByPolicy_losses
            }
            &&& outcome is NoNewAudio ==> told->NoNewAudio_losses == outcome->NoNewAudio_losses
        }),
{
}

/// The message that goes with it names the same kind, and the same numbers of frames
/// and of lost frames; a loss is told exactly where there is one.
pub proof fn the_message_tells_what_became_of_the_audio(
    outcome: DumpOutcome,
    sample_rate: u32,
    status: DaemonStatus,
    response: ControlResponse,
)
    requires
        call_ensures(persistence_response, (outcome, sample_rate, status), response),
    ensures
        ({
            let lost = |losses: FrameLosses|
                if losses.lost_frames == 0 {
                    Seq::<char>::empty()
                } else {
                    "; warning: "@ + decimal(losses.lost_frames as nat)
                        + " frames lost before persistence"@
                };
            match outcome {
                DumpOutcome::Written { frames, losses, .. } => response.message@ == "written"@
                    + ": "@ + decimal(frames as nat) + " frames"@ + lost(losses),
                DumpOutcome::SkippedSilent { frames, losses, .. } => response.message@
                    == "skipped exact-zero audio"@ + ": "@ + decimal(frames as nat) + " frames"@
                    + lost(losses),
                DumpOutcome::SkippedByPolicy { frames, losses, .. } => response.message@
                    == "skipped by policy"@ + ": "@ + decimal(frames as nat) + " frames"@ + lost(
                    losses,
                ),
                DumpOutcome::NoNewAudio { losses } => response.message@ == "no new audio"@ + lost(
                    losses,
                ),
            }
        }),
{
    assert(response.message@ + Seq::<char>::empty() =~= response.message@);
}

/// The short words about an outcome read as its full answer does.
pub proof fn a_summary_reads_as_its_outcome(
    outcome: DumpOutcome,
    sample_rate: u32,
    status: DaemonStatus,
    response: ControlResponse,
    summary: OutcomeSummary,
    message: String,
)
    requires
        call_ensures(persistence_response, (outcome, sample_rate, status), response),
        match outcome {
            DumpOutcome::Written { frames, losses, .. } => summary == (OutcomeSummary::Written {
                frames,
                lost_frames: losses.lost_frames,
            }),
            DumpOutcome::SkippedSilent { frames, losses, .. } => summary == (
            OutcomeSummary::SkippedSilent { frames, lost_frames: losses.lost_frames }),
            DumpOutcome::SkippedByPolicy { frames, losses, .. } => summary == (
            OutcomeSummary::SkippedByPolicy { frames, lost_frames: losses.lost_frames }),
            DumpOutcome::NoNewAudio { losses } => summary == (OutcomeSummary::NoNewAudio {
                lost_frames: losses.lost_frames,
            }),
        },
        call_ensures(persistence_message_from_committed, (summary,), message),
    ensures
        message@ == response.message@,
{
}

/// The words for a kind of outcome go before the number of frames.
pub proof fn a_message_counts_its_frames(
    kind: &str,
    frames: u64,
    lost_frames: u64,
    message: String,
)
    requires
        call_ensures(persistence_message, (kind, frames, lost_frames), message),
    ensures
        lost_frames == 0 ==> message@ == kind@ + ": "@ + decimal(frames as nat) + " frames"@,
        lost_frames > 0 ==> message@ == kind@ + ": "@ + decimal(frames as nat) + " frames"@ + (
        "; warning: "@ + decimal(lost_frames as nat) + " frames lost before persistence"@),
{
}

/// What a write came to is answered as such and changes nothing; an error is noted and
/// told by its text.
pub proof fn a_write_is_answered<B, S>(
    ctx: &mut IdleDaemonContext<B, S>,
    result: Result<DumpOutcome, LambError>,
    sample_rate: u32,
    response: ControlResponse,
    status: DaemonStatus,
    told: ControlResponse,
)
    requires
        call_ensures(app_persistence_response::<B, S>, (ctx, result, sample_rate), response),
        status@ == old(ctx)@.status(),
        result is Ok ==> call_ensures(
            persistence_response,
            (result->Ok_0, sample_rate, status),
            told,
        ),
    ensures
        response.ok <==> result is Ok,
        result is Ok ==> response@ == told@ && final(ctx)@ == old(ctx)@,
        result is Err ==> {
            &&& response.message@ == result->Err_0@.rendered()
            &&& response.persistence_outcome is None
            &&& !old(ctx).runtime_poisoned ==> text_of(final(ctx).runtime.last_error) == Some(
                response.message@,
            )
            &&& final(ctx).runtime.capture == old(ctx).runtime.capture
            &&& final(ctx).runtime.session == old(ctx).runtime.session
            &&& final(ctx).runtime.state == old(ctx).runtime.state
        },
{
}

/// A write needs a session that nobody failed on; where it is refused, the client is
/// told why, and where it is not, nothing changes.
pub proof fn a_write_is_admitted<B, S>(
    ctx: &mut IdleDaemonContext<B, S>,
    refused: Option<ControlResponse>,
)
    requires
        call_ensures(admit_persistence::<B, S>, (ctx,), refused),
    ensures
        refused is None <==> !old(ctx).runtime_poisoned && old(ctx).runtime.session is Some
            && !old(ctx).runtime.session->0.policy_poisoned
            && !old(ctx).runtime.session->0.workspace_poisoned,
        refused is None ==> final(ctx)@ == old(ctx)@,
        refused is Some ==> !refused->0.ok,
        old(ctx).runtime_poisoned ==> refused->0.message@ == "runtime state lock poisoned"@
            && final(ctx)@ == old(ctx)@,
        !old(ctx).runtime_poisoned && old(ctx).runtime.session is None ==> refused->0.message@
            == "capture is not running"@ && final(ctx)@ == old(ctx)@,
        !old(ctx).runtime_poisoned && old(ctx).runtime.session is Some && old(
            ctx,
        ).runtime.session->0.policy_poisoned ==> {
            &&& refused->0.message@ == "control error: "@ + "session export policy lock poisoned"@
            &&& text_of(final(ctx).runtime.last_error) == Some(refused->0.message@)
        },
        !old(ctx).runtime_poisoned && old(ctx).runtime.session is Some && !old(
            ctx,
        ).runtime.session->0.policy_poisoned && old(
            ctx,
        ).runtime.session->0.workspace_poisoned ==> {
            &&& refused->0.message@ == "control error: "@ + "persistence workspace lock poisoned"@
            &&& text_of(final(ctx).runtime.last_error) == Some(refused->0.message@)
        },
        final(ctx).runtime.session == old(ctx).runtime.session,
        final(ctx).runtime.capture == old(ctx).runtime.capture,
{
}

/// A command on the audio runs on the session that is held, at its rate.
pub proof fn a_session_command_runs_on_the_session<'a, B, S>(
    ctx: &'a IdleDaemonContext<B, S>,
    entry: SessionEntry<'a, S>,
)
    requires
        call_ensures(enter_session_command::<B, S>, (ctx,), entry),
    ensures
        entry is Run <==> !ctx.runtime_poisoned && ctx.runtime.session is Some,
        entry is Run ==> {
            &&& *entry->session == ctx.runtime.session->0.resource
            &&& entry->sample_rate == ctx.runtime.session->0.sample_rate
        },
        entry is Respond ==> !entry->Respond_0.ok,
        ctx.runtime_poisoned ==> entry->Respond_0.message@ == "runtime state lock poisoned"@,
        !ctx.runtime_poisoned && ctx.runtime.session is None ==> entry->Respond_0.message@
            == "capture is not running"@,
{
}

/// Of a write whose result went to the client already an error is only noted; else the
/// client hears of it.
pub proof fn a_late_error_is_noted<B, S>(
    ctx: &mut IdleDaemonContext<B, S>,
    result: Result<(), LambError>,
    told: bool,
    response: Option<ControlResponse>,
)
    requires
        call_ensures(app_persistence_delivered::<B, S>, (ctx, result, told), response),
    ensures
        result is Ok ==> response is None && final(ctx)@ == old(ctx)@,
        result is Err ==> {
            &&& response is Some <==> !told
            &&& !told ==> !response->0.ok && response->0.message@ == result->Err_0@.rendered()
            &&& !old(ctx).runtime_poisoned ==> text_of(final(ctx).runtime.last_error) == Some(
                result->Err_0@.rendered(),
            )
            &&& old(ctx).runtime_poisoned ==> final(ctx)@ == old(ctx)@
        },
{
}

/// Clearing the audio is answered as done, or by its error, which is noted.
pub proof fn clearing_is_answered<B, S>(
    ctx: &mut IdleDaemonContext<B, S>,
    cleared: Result<(), LambError>,
    response: ControlResponse,
)
    requires
        call_ensures(finish_app_clear::<B, S>, (ctx, cleared), response),
    ensures
        response.ok <==> cleared is Ok,
        cleared is Ok ==> response.message@ == "cleared"@ && final(ctx)@ == old(ctx)@,
        cleared is Err ==> response.message@ == cleared->Err_0@.rendered(),
        cleared is Err && !old(ctx).runtime_poisoned ==> text_of(final(ctx).runtime.last_error)
            == Some(response.message@),
        response.status is Some,
        response.status->0@ == final(ctx)@.status(),
{
}

/// An error that a client met is noted and nothing else changes; a state that someone
/// failed on is left alone.
pub proof fn an_error_of_a_client_is_noted<B, S>(
    reporting: &mut IdleDaemonContext<B, S>,
    error: LambError,
    response: ControlResponse,
    noting: &mut IdleDaemonContext<B, S>,
    text: String,
)
    requires
        call_ensures(report_error::<B, S>, (reporting, error), response),
        call_ensures(set_app_last_error::<B, S>, (noting, text), ()),
    ensures
        !response.ok,
        response.message@ == error@.rendered(),
        response.error_context.error_class is None,
        response.status is Some,
        response.status->0@ == final(reporting)@.status(),
        old(noting).runtime_poisoned ==> final(noting)@ == old(noting)@,
        !old(noting).runtime_poisoned ==> {
            &&& text_of(final(noting).runtime.last_error) == Some(text@)
            &&& text_of(final(noting).runtime.config_load_error) == text_of(
                old(noting).runtime.config_load_error,
            )
            &&& final(noting).runtime.lifecycle@ == old(noting).runtime.lifecycle@
            &&& final(noting).runtime.state == old(noting).runtime.state
            &&& final(noting).runtime.capture == old(noting).runtime.capture
            &&& final(noting).runtime.session == old(noting).runtime.session
            &&& final(noting).scheduler == old(noting).scheduler
            &&& final(noting).stop == old(noting).stop
        },
{
}

/// The two refusals that need no context but a status carry it.
pub proof fn refusals_carry_the_status<B, S>(
    ctx: &IdleDaemonContext<B, S>,
    locked: ControlResponse,
    status: DaemonStatus,
    undelivered: ControlResponse,
)
    requires
        call_ensures(app_lock_error_response::<B, S>, (ctx,), locked),
        call_ensures(persistence_delivery_only_response, (status,), undelivered),
    ensures
        !locked.ok,
        locked.message@ == "runtime state lock poisoned"@,
        locked.status is Some,
        locked.status->0@ == ctx@.status(),
        !undelivered.ok,
        undelivered.message@ == "persistence commands require operation-worker delivery"@,
        undelivered.status is Some,
        undelivered.status->0@ == status@,
{
}

/// Whether every level that the rules of a profile hold is a number.
pub open spec fn holds_numbers(profile: ResolvedProfile) -> bool {
    forall|i: int|
        0 <= i < profile.export_policy.activity.channels@.len() && (
        #[trigger] profile.export_policy.activity.channels@[i]).threshold is Some
            ==> profile.export_policy.activity.channels@[i].threshold->0.threshold_bits
            % 0x8000_0000_0000_0000 <= 0x7FF0_0000_0000_0000
}

/// A profile whose levels are all numbers is the same as itself.
pub proof fn a_profile_of_numbers_is_itself(profile: &ResolvedProfile, same: bool)
    requires
        holds_numbers(*profile),
        call_ensures(ResolvedProfile::same, (profile, profile), same),
    ensures
        same,
{
    let rules = profile@.export_policy.activity.rules;
    assert forall|i: int| 0 <= i < rules.len() implies crate::profile::equal_rules(
        #[trigger] rules[i],
        rules[i],
    ) by {
        let rule = profile.export_policy.activity.channels@[i];
        assert(rules[i] == rule@);
        if rule.threshold is Some {
            let bits = rule.threshold->0.threshold_bits;
            assert(bits >= 0x8000_0000_0000_0000 ==> bits % 0x8000_0000_0000_0000 == bits
                - 0x8000_0000_0000_0000);
        }
    }
}

/// A channel can be calibrated wherever it should be: a session that captures, is
/// healthy and is held by a daemon that goes on, whose backend is the one that its
/// profile names and runs at the rate of the session, and whose inputs are those that
/// the profile configures, is what a calibration of it measures, with JACK as with
/// PipeWire. What is to be measured is told from the session field by field, and stays
/// the target as long as nothing changes.
pub proof fn a_healthy_capture_can_be_calibrated<B, S>(
    ctx: &IdleDaemonContext<B, S>,
    profile_name: &String,
    channel: &String,
    configured_at: int,
    index: int,
    same: bool,
    target: Result<SessionCalibrationTarget, LambError>,
    seconds: u32,
    begun: Result<(SessionCalibrationTarget, u64), LambError>,
    current: bool,
    matches: bool,
    serves: bool,
    usable: bool,
    observed: Result<(), LambError>,
    admitted: Result<(), LambError>,
)
    requires
        !ctx.stop,
        !ctx.runtime_poisoned,
        ctx.runtime.state == RunState::Capturing,
        0 <= configured_at < ctx.runtime.config.profiles@.len(),
        ctx.runtime.config.profiles@[configured_at].name@ == profile_name@,
        ctx.runtime.active_profile is Some,
        ctx.runtime.active_profile->0.name@ == profile_name@,
        holds_numbers(ctx.runtime.active_profile->0),
        call_ensures(
            ResolvedProfile::same,
            (&ctx.runtime.active_profile->0, &ctx.runtime.active_profile->0),
            same,
        ),
        ctx.runtime.session is Some,
        ctx.runtime.session->0.profile_name@ == profile_name@,
        ctx.runtime.capture is Some,
        ({
            let backend = ctx.runtime.capture->0;
            let named = ctx.runtime.active_profile->0.backend@;
            ||| backend.kind == BackendKind::Jack && named == "jack"@
            ||| backend.kind == BackendKind::PipeWire && named == "pipewire"@ && backend.error
                is None
        }),
        ctx.runtime.capture->0.rate == ctx.runtime.session->0.sample_rate,
        ctx.runtime.capture_health is Some ==> ctx.runtime.capture_health->0.fault is None,
        ({
            let session = ctx.runtime.session->0;
            let ports = ctx.runtime.active_profile->0.ports@;
            &&& session.channel_count == session.configured_inputs@.len()
            &&& session.configured_inputs@.len() == session.resolved_live_inputs@.len()
            &&& session.configured_inputs@.len() == ports.len()
            &&& 0 <= index < ports.len()
            &&& session.configured_inputs@[index].name@ == channel@
            &&& forall|i: int|
                0 <= i < index ==> (#[trigger] session.configured_inputs@[i]).name@ != channel@
            &&& ports[index].name@ == channel@
            &&& session.resolved_live_inputs@[index] is Some
            &&& call_ensures(
                configured_identity,
                (&ctx.runtime.active_profile->0, channel, None),
                Ok(session.configured_inputs@[index]),
            )
        }),
        call_ensures(
            session_calibration_target::<B, S>,
            (ctx, profile_name, channel),
            target,
        ),
        call_ensures(
            begin_calibration::<B, S>,
            (ctx, profile_name, channel, seconds),
            begun,
        ),
        call_ensures(
            AppRuntimeState::<B, S>::capture_matches_target,
            (&ctx.runtime, &target->Ok_0),
            serves,
        ),
        call_ensures(
            calibration_target_matches_runtime::<B, S>,
            (&ctx.runtime, &target->Ok_0),
            matches,
        ),
        call_ensures(calibration_target_is_current::<B, S>, (ctx, &target->Ok_0), current),
        call_ensures(calibration_observed::<B, S>, (ctx, &target->Ok_0, usable), observed),
        call_ensures(admit_calibration::<B, S>, (ctx, &target->Ok_0), admitted),
    ensures
        target is Ok,
        ({
            let session = ctx.runtime.session->0;
            let found = target->Ok_0;
            let wanted = session.sample_rate as int * seconds as int;
            &&& found.session == session.identity
            &&& found.channel == index
            &&& found.active_profile@ == ctx.runtime.active_profile->0@
            &&& found.configured@ == session.configured_inputs@[index]@
            &&& found.live@ == session.resolved_live_inputs@[index]->0@
            &&& found.sample_rate == session.sample_rate
            &&& found.capacity == session.calibration_sample_frames
            &&& 1 <= seconds <= 30 && 0 < wanted <= session.calibration_sample_frames ==> {
                &&& begun is Ok
                &&& begun->Ok_0.1 == wanted
                &&& begun->Ok_0.0.session == session.identity
                &&& begun->Ok_0.0.channel == index
            }
            &&& !(1 <= seconds <= 30) || !(0 < wanted <= session.calibration_sample_frames)
                ==> begun is Err
        }),
        serves,
        matches,
        current,
        observed is Ok <==> usable,
        admitted is Ok,
{
    let profile = ctx.runtime.active_profile->0;
    let session = ctx.runtime.session->0;
    a_profile_of_numbers_is_itself(&profile, same);
    let names = input_names(session.configured_inputs@);
    assert(is_first_name(names, channel@, index)) by {
        assert forall|i: int| 0 <= i < index implies names[i] != channel@ by {
            assert(session.configured_inputs@[i].name@ != channel@);
        }
    }
    lemma_place_of(names, channel@, index);
    let profiles = profile_names(ctx.runtime.config@.profiles);
    assert(profiles[configured_at] == profile_name@);
    assert(profiles.contains(profile_name@));
    crate::text::lemma_place_exists(profiles, profile_name@);
    assert(ctx.runtime.config@.has_profile(profile_name@));
}

/// A backend serves a calibration exactly where it is there, is of the kind that the
/// profile names, and runs at the rate that is measured.
pub proof fn a_backend_serves_what_its_profile_names<B, S>(
    state: &AppRuntimeState<B, S>,
    target: &SessionCalibrationTarget,
    serves: bool,
)
    requires
        call_ensures(AppRuntimeState::<B, S>::capture_matches_target, (state, target), serves),
    ensures
        serves <==> {
            &&& state.capture is Some
            &&& state.capture->0.rate == target.sample_rate
            &&& {
                ||| state.capture->0.kind == BackendKind::Jack && target.active_profile.backend@
                    == "jack"@
                ||| state.capture->0.kind == BackendKind::PipeWire
                    && target.active_profile.backend@ == "pipewire"@
            }
        },
{
}

/// A target is no longer there once anything about it changed: the daemon goes down,
/// the capture is gone, ended or faulty, or another session, profile, rate, memory or
/// input has taken the place of the one that was measured.
pub proof fn a_changed_capture_is_no_target<B, S>(
    ctx: &IdleDaemonContext<B, S>,
    target: &SessionCalibrationTarget,
    current: bool,
    observed: Result<(), LambError>,
    admitted: Result<(), LambError>,
)
    requires
        ({
            let runtime = ctx.runtime;
            let session = runtime.session->0;
            let channel = target.channel as int;
            ||| ctx.stop
            ||| ctx.runtime_poisoned
            ||| runtime.state != RunState::Capturing
            ||| runtime.session is None
            ||| runtime.capture is None
            ||| runtime.capture->0.kind == BackendKind::Fake
            ||| runtime.capture->0.rate != target.sample_rate
            ||| runtime.capture->0.kind == BackendKind::PipeWire && runtime.capture->0.error
                is Some
            ||| runtime.capture_health is Some && runtime.capture_health->0.fault is Some
            ||| runtime.active_profile is None
            ||| runtime.active_profile->0.name@ != target.active_profile.name@
            ||| runtime.active_profile->0.backend@ != target.active_profile.backend@
            ||| runtime.active_profile->0.buffer_seconds != target.active_profile.buffer_seconds
            ||| session.identity != target.session
            ||| session.profile_name@ != target.active_profile.name@
            ||| session.sample_rate != target.sample_rate
            ||| session.calibration_sample_frames != target.capacity
            ||| session.channel_count != session.configured_inputs@.len()
            ||| session.configured_inputs@.len() != session.resolved_live_inputs@.len()
            ||| session.configured_inputs@.len() != target.active_profile.ports@.len()
            ||| channel >= target.active_profile.ports@.len()
            ||| session.configured_inputs@[channel]@ != target.configured@
            ||| session.resolved_live_inputs@[channel] is None
            ||| session.resolved_live_inputs@[channel]->0@ != target.live@
        }),
        call_ensures(calibration_target_is_current::<B, S>, (ctx, target), current),
        call_ensures(calibration_observed::<B, S>, (ctx, target, true), observed),
        call_ensures(admit_calibration::<B, S>, (ctx, target), admitted),
    ensures
        !current,
        observed is Err,
        observed->Err_0 is CaptureInvariant,
        observed->Err_0->CaptureInvariant_0@ == "calibration observation was invalidated"@,
        admitted is Err,
        admitted->Err_0 is CaptureInvariant,
        admitted->Err_0->CaptureInvariant_0@ == "calibration target changed before commit"@,
{
}

/// A calibration measures the given time at the rate of its target, where that is some
/// and fits in the memory set aside.
pub proof fn a_calibration_measures_its_time(
    target: &SessionCalibrationTarget,
    seconds: u32,
    frames: Result<u64, LambError>,
)
    requires
        call_ensures(calibration_frames, (target, seconds), frames),
    ensures
        frames is Ok <==> 0 < target.sample_rate * seconds <= target.capacity,
        frames is Ok ==> frames->Ok_0 == target.sample_rate * seconds,
        frames is Err ==> frames->Err_0 is Validation && frames->Err_0->Validation_0@
            == "calibration frame count is outside startup capacity"@,
{
}

/// Why a calibration is refused, in the order in which it is looked at.
pub proof fn a_refused_calibration_says_why<B, S>(
    ctx: &IdleDaemonContext<B, S>,
    profile_name: &String,
    channel: &String,
    seconds: u32,
    begun: Result<(SessionCalibrationTarget, u64), LambError>,
)
    requires
        call_ensures(
            begin_calibration::<B, S>,
            (ctx, profile_name, channel, seconds),
            begun,
        ),
    ensures
        ({
            let runtime = ctx.runtime;
            let known = exists|i: int|
                0 <= i < runtime.config.profiles@.len() && (
                #[trigger] runtime.config.profiles@[i]).name@ == profile_name@;
            let active = runtime.active_profile is Some && runtime.active_profile->0.name@
                == profile_name@;
            let named = exists|i: int|
                0 <= i < runtime.session->0.configured_inputs@.len() && (
                #[trigger] runtime.session->0.configured_inputs@[i]).name@ == channel@;
            if !(1 <= seconds <= 30) {
                &&& begun is Err
                &&& begun->Err_0 is Validation
                &&& begun->Err_0->Validation_0@ == "calibration seconds must be within 1..=30"@
            } else if ctx.runtime_poisoned {
                &&& begun is Err
                &&& begun->Err_0 is Control
                &&& begun->Err_0->Control_0@ == "runtime state lock poisoned"@
            } else if !known {
                &&& begun is Err
                &&& begun->Err_0 is Config
                &&& begun->Err_0->Config_0@ == "profile "@ + profile_name@ + " does not exist"@
            } else if !active {
                &&& begun is Err
                &&& begun->Err_0 is Control
                &&& begun->Err_0->Control_0@ == "profile "@ + profile_name@ + " is not active"@
            } else if runtime.session is None {
                &&& begun is Err
                &&& begun->Err_0 is Control
                &&& begun->Err_0->Control_0@ == "profile "@ + profile_name@ + " is not capturing"@
            } else if runtime.session->0.profile_name@ != profile_name@ {
                &&& begun is Err
                &&& begun->Err_0 is Control
                &&& begun->Err_0->Control_0@ == "active capture session identity changed"@
            } else if !named {
                &&& begun is Err
                &&& begun->Err_0 is Config
                &&& begun->Err_0->Config_0@ == "profile "@ + profile_name@ + " has no channel "@
                    + channel@
            } else {
                &&& ctx.stop || runtime.state != RunState::Capturing ==> begun is Err
                &&& runtime.capture is None ==> begun is Err
            }
        }),
{
    let profiles = profile_names(ctx.runtime.config@.profiles);
    assert forall|i: int| 0 <= i < profiles.len() implies profiles[i]
        == ctx.runtime.config.profiles@[i].name@ by {}
    if profiles.contains(profile_name@) {
        let i = choose|i: int| 0 <= i < profiles.len() && profiles[i] == profile_name@;
        assert(ctx.runtime.config.profiles@[i].name@ == profile_name@);
    }
    if exists|i: int|
        0 <= i < ctx.runtime.config.profiles@.len() && (
        #[trigger] ctx.runtime.config.profiles@[i]).name@ == profile_name@ {
        let i = choose|i: int|
            0 <= i < ctx.runtime.config.profiles@.len() && (
            #[trigger] ctx.runtime.config.profiles@[i]).name@ == profile_name@;
        assert(profiles[i] == profile_name@);
        assert(profiles.contains(profile_name@));
    }
    let names = input_names(ctx.runtime.session->0.configured_inputs@);
    assert forall|i: int| 0 <= i < names.len() implies names[i]
        == ctx.runtime.session->0.configured_inputs@[i].name@ by {}
    if names.contains(channel@) {
        let i = choose|i: int| 0 <= i < names.len() && names[i] == channel@;
        assert(ctx.runtime.session->0.configured_inputs@[i].name@ == channel@);
    }
    reveal_strlit(" does not exist");
}

} // verus!
