//! What holds of every activity threshold: what is stored is found again, what is told
//! of it is what it amounts to, and what is in effect is what counts.

use crate::apply::{install_attempt_policy, install_effective_session_activity_policy};
use crate::calibration::{calibration_target_is_current, SessionCalibrationTarget};
use crate::config::{
    calibration_references, channel_names, lists, profile_names, ThresholdView,
};
use crate::error::LambError;
use crate::identity::{configured, configured_identity, is_first_named, live_of, port_named};
use crate::model::{
    ActivityDetectorKind, ActivityPolicy, ActivityThresholdConfig, AppConfig,
    CaptureSession, ConfiguredInputIdentity, IdleDaemonContext, ProfileConfig,
    Released, ResolvedCapturePort, ResolvedProfile, ThresholdSource,
};
use crate::session::PrivateAppCaptureAttempt;
use crate::text::{
    decimal, is_first_name, lemma_place_exists, lemma_place_of, place_of, text_of,
};
use crate::threshold::{
    begin_threshold_change, calibrated_candidate, calibration_message, channel_query, check_level,
    effective_activity, find_profile, install_threshold, manual_candidate,
    prepare_calibrated_threshold, prepare_manual_threshold, prepare_threshold_change,
    previous_generation, report_is, threshold_candidate, threshold_change_message,
    threshold_report, threshold_saved, CalibrationArtifactStatus, CalibrationEvaluation,
    CalibrationValidity, ChannelEvidence, ChannelQuery, DetectorVersions,
    GenerationLook, MeasuredThreshold, PreparedThreshold, StaleReason, ThresholdChannelReport,
    ThresholdReport,
};
use vstd::prelude::*;

verus! {

/// Whether there is a profile of the given name in a configuration.
pub open spec fn names_profile(config: AppConfig, name: Seq<char>) -> bool {
    exists|i: int| 0 <= i < config.profiles@.len() && (#[trigger] config.profiles@[i]).name@ == name
}

proof fn lemma_names_profile(config: AppConfig, name: Seq<char>)
    ensures
        config@.has_profile(name) <==> names_profile(config, name),
        config@.has_profile(name) ==> {
            let place = place_of(profile_names(config@.profiles), name)->0;
            &&& 0 <= place < config.profiles@.len()
            &&& config.profiles@[place].name@ == name
            &&& config@.profile(name) == config.profiles@[place]@
            &&& forall|i: int| 0 <= i < place ==> (#[trigger] config.profiles@[i]).name@ != name
        },
{
    let names = profile_names(config@.profiles);
    assert forall|i: int| 0 <= i < names.len() implies names[i] == config.profiles@[i].name@ by {}
    if names.contains(name) {
        lemma_place_exists(names, name);
        let place = place_of(names, name)->0;
        assert(config.profiles@[place].name@ == name);
        assert forall|i: int| 0 <= i < place implies (#[trigger] config.profiles@[i]).name@
            != name by {
            assert(names[i] != name);
        }
    }
    if names_profile(config, name) {
        let i = choose|i: int|
            0 <= i < config.profiles@.len() && (#[trigger] config.profiles@[i]).name@ == name;
        assert(names[i] == name);
        assert(names.contains(name));
    }
}

/// A threshold that was stored is the one that is found, and one that was taken away is
/// not found any more; every other threshold is found as before, and nothing else of the
/// configuration changes.
pub proof fn a_stored_threshold_is_found_again(
    config: &mut AppConfig,
    profile: &String,
    channel: &String,
    activity: Option<ActivityThresholdConfig>,
    found: Option<&ActivityThresholdConfig>,
    other_profile: &String,
    other_channel: &String,
    before: Option<&ActivityThresholdConfig>,
    after: Option<&ActivityThresholdConfig>,
)
    requires
        names_profile(*old(config), profile@),
        call_ensures(AppConfig::set_threshold_of, (config, profile, channel, activity), ()),
        call_ensures(AppConfig::threshold_of, (&*final(config), profile, channel), found),
        other_profile@ != profile@ || other_channel@ != channel@,
        call_ensures(
            AppConfig::threshold_of,
            (&*old(config), other_profile, other_channel),
            before,
        ),
        call_ensures(
            AppConfig::threshold_of,
            (&*final(config), other_profile, other_channel),
            after,
        ),
    ensures
        found is Some <==> activity is Some,
        found is Some ==> found->0@ == activity->0@,
        after is Some <==> before is Some,
        after is Some ==> after->0@ == before->0@,
        final(config).daemon.start_mode@ == old(config).daemon.start_mode@,
        text_of(final(config).daemon.active_profile) == text_of(old(config).daemon.active_profile),
        final(config).daemon.control_socket_path@ == old(config).daemon.control_socket_path@,
        final(config).profiles@.len() == old(config).profiles@.len(),
        forall|i: int|
            0 <= i < final(config).profiles@.len() ==> (#[trigger] final(config).profiles@[i]).name@
                == old(config).profiles@[i].name@,
{
    let earlier = *old(config);
    let later = *final(config);
    lemma_names_profile(earlier, profile@);
    let view = crate::config::activity_of(activity);
    crate::config::a_set_threshold_is_found(earlier@, profile@, channel@, view);
    crate::config::other_thresholds_stay(
        earlier@,
        profile@,
        channel@,
        view,
        other_profile@,
        other_channel@,
    );
    assert(later@.profiles.len() == earlier@.profiles.len());
    assert forall|i: int| 0 <= i < later.profiles@.len() implies (
    #[trigger] later.profiles@[i]).name@ == earlier.profiles@[i].name@ by {
        assert(later@.profiles[i] == later.profiles@[i]@);
        assert(earlier@.profiles[i] == earlier.profiles@[i]@);
    }
}

/// The stored threshold of a channel is the one that stands under the first channel of
/// that name, in the first profile of its name.
pub proof fn a_threshold_stands_under_its_channel(
    config: &AppConfig,
    profile: &String,
    channel: &String,
    p: int,
    c: int,
    found: Option<&ActivityThresholdConfig>,
)
    requires
        0 <= p < config.profiles@.len(),
        config.profiles@[p].name@ == profile@,
        forall|i: int| 0 <= i < p ==> (#[trigger] config.profiles@[i]).name@ != profile@,
        0 <= c < config.profiles@[p].channels@.len(),
        config.profiles@[p].channels@[c].name@ == channel@,
        forall|i: int|
            0 <= i < c ==> (#[trigger] config.profiles@[p].channels@[i]).name@ != channel@,
        call_ensures(AppConfig::threshold_of, (config, profile, channel), found),
    ensures
        found is Some <==> config.profiles@[p].channels@[c].activity is Some,
        found is Some ==> found->0@ == config.profiles@[p].channels@[c].activity->0@,
{
    let names = profile_names(config@.profiles);
    assert forall|i: int| 0 <= i < p implies names[i] != profile@ by {
        assert(config.profiles@[i].name@ != profile@);
    }
    assert(is_first_name(names, profile@, p));
    lemma_place_of(names, profile@, p);
    let stored = config.profiles@[p]@;
    assert(config@.profile(profile@) == stored);
    let channels = channel_names(stored.channels);
    assert forall|i: int| 0 <= i < c implies channels[i] != channel@ by {
        assert(config.profiles@[p].channels@[i].name@ != channel@);
    }
    assert(channels[c] == channel@);
    assert(is_first_name(channels, channel@, c));
    lemma_place_of(channels, channel@, c);
    assert(stored.channels[c] == config.profiles@[p].channels@[c]@);
}

/// A profile is found exactly where there is one of its name.
pub proof fn a_profile_is_found_by_its_name<'a>(
    config: &'a AppConfig,
    name: &String,
    profile: Result<&'a ProfileConfig, LambError>,
)
    requires
        call_ensures(find_profile, (config, name), profile),
    ensures
        profile is Ok <==> names_profile(*config, name@),
        profile is Ok ==> profile->Ok_0.name@ == name@,
        profile is Err ==> profile->Err_0 is Config && profile->Err_0->Config_0@ == "profile "@
            + name@ + " does not exist"@,
{
    lemma_names_profile(*config, name@);
}

/// Every calibration that a stored threshold refers to is listed, once, and none that
/// no threshold refers to.
pub proof fn references_are_those_of_the_thresholds(
    config: &AppConfig,
    references: Vec<(String, String)>,
    p: int,
    c: int,
    listed: int,
)
    requires
        call_ensures(calibration_references, (config,), references),
    ensures
        0 <= p < config.profiles@.len() && 0 <= c < config.profiles@[p].channels@.len()
            && config.profiles@[p].channels@[c].activity is Some
            && config.profiles@[p].channels@[c].activity->0.calibration_id is Some ==> {
            let stored = config.profiles@[p].channels@[c].activity->0;
            exists|i: int|
                0 <= i < references@.len() && (#[trigger] references@[i]).0@ == stored.input_id@
                    && references@[i].1@ == stored.calibration_id->0@
        },
        0 <= listed < references@.len() ==> exists|i: int, j: int|
            0 <= i < config.profiles@.len() && 0 <= j < config.profiles@[i].channels@.len() && (
            #[trigger] config.profiles@[i].channels@[j]).activity is Some
                && config.profiles@[i].channels@[j].activity->0.input_id@
                == references@[listed].0@ && text_of(
                config.profiles@[i].channels@[j].activity->0.calibration_id,
            ) == Some(references@[listed].1@),
        forall|i: int, j: int|
            #![trigger references@[i], references@[j]]
            0 <= i < j < references@.len() ==> references@[i].0@ != references@[j].0@
                || references@[i].1@ != references@[j].1@,
{
    let view = config@;
    if 0 <= p < config.profiles@.len() && 0 <= c < config.profiles@[p].channels@.len()
        && config.profiles@[p].channels@[c].activity is Some
        && config.profiles@[p].channels@[c].activity->0.calibration_id is Some {
        let stored = config.profiles@[p].channels@[c].activity->0;
        assert(view.profiles[p] == config.profiles@[p]@);
        assert(view.profiles[p].channels[c] == config.profiles@[p].channels@[c]@);
        assert(view.refers_at(p, c, stored.input_id@, stored.calibration_id->0@));
        assert(view.refers_to(stored.input_id@, stored.calibration_id->0@));
        assert(lists(references@, stored.input_id@, stored.calibration_id->0@));
    }
    if 0 <= listed < references@.len() {
        let a = references@[listed].0@;
        let b = references@[listed].1@;
        assert(lists(references@, a, b));
        assert(view.refers_to(a, b));
        let (i, j) = choose|i: int, j: int| #[trigger] view.refers_at(i, j, a, b);
        assert(view.profiles[i] == config.profiles@[i]@);
        assert(view.profiles[i].channels[j] == config.profiles@[i].channels@[j]@);
        assert(config.profiles@[i].channels@[j].activity is Some);
    }
}

/// Whether every port of a profile can be configured: PipeWire takes any source, and
/// JACK one that names a client.
pub open spec fn ports_can_be_configured(profile: ResolvedProfile) -> bool {
    ||| profile.backend@ == "pipewire"@
    ||| profile.backend@ == "jack"@ && forall|i: int|
        0 <= i < profile.ports@.len() ==> (#[trigger] profile.ports@[i]).source@.contains(':')
}

/// The settings of every port of such a profile are in order.
pub proof fn lemma_ports_are_configured(profile: ResolvedProfile, index: int)
    requires
        ports_can_be_configured(profile),
        0 <= index < profile.ports@.len(),
    ensures
        configured(profile, profile.ports@[index].name@) is Ok,
        configured(profile, profile.ports@[index].name@)->Ok_0.name
            == profile.ports@[index].name@,
{
    let name = profile.ports@[index].name@;
    let names = profile.ports@.map_values(|port: ResolvedCapturePort| port.name@);
    assert(names[index] == name);
    assert(names.contains(name));
    lemma_place_exists(names, name);
    let first = place_of(names, name)->0;
    assert(is_first_named(profile.ports@, name, first)) by {
        assert forall|i: int| 0 <= i < first implies (#[trigger] profile.ports@[i]).name@
            != name by {
            assert(names[i] != name);
        }
    }
    let chosen = choose|i: int| is_first_named(profile.ports@, name, i);
    assert(is_first_named(profile.ports@, name, chosen));
    assert(port_named(profile.ports@, name) == Some(profile.ports@[chosen]));
    if profile.backend@ == "jack"@ {
        reveal_strlit("jack");
        reveal_strlit("pipewire");
        assert("jack"@.len() != "pipewire"@.len());
        assert(profile.ports@[chosen].source@.contains(':'));
    }
}

/// Whether the store of calibrations has told all that it can be asked.
pub open spec fn evidence_is_there(evidence: Seq<ChannelEvidence>) -> bool {
    forall|i: int|
        0 <= i < evidence.len() ==> {
            &&& (#[trigger] evidence[i]).input_id is Ok
            &&& evidence[i].inspection is Ok
            &&& evidence[i].validity is Ok
        }
}

/// The thresholds of a profile are told wherever they can be: its detector is one that
/// thresholds work with, its ports can be configured, and the store has answered. There
/// is one report for each port, in order; and a profile is told to capture exactly where
/// it is the active one and the session is its own.
pub proof fn thresholds_are_told<S>(
    profile: &ProfileConfig,
    profile_name: &String,
    resolved: &ResolvedProfile,
    active_profile: Option<&ResolvedProfile>,
    session: Option<&CaptureSession<S>>,
    evidence: &Vec<ChannelEvidence>,
    versions: &DetectorVersions,
    now: u64,
    report: Result<ThresholdReport, LambError>,
)
    requires
        evidence@.len() == resolved.ports@.len(),
        resolved.export_policy.activity.detector == ActivityDetectorKind::ExactZero
            || resolved.export_policy.activity.detector == ActivityDetectorKind::WindowedRmsPeak,
        ports_can_be_configured(*resolved),
        evidence_is_there(evidence@),
        call_ensures(
            threshold_report::<S>,
            (
                profile,
                profile_name,
                resolved,
                active_profile,
                session,
                evidence,
                versions,
                now,
            ),
            report,
        ),
    ensures
        report is Ok,
        report->Ok_0.profile@ == profile_name@,
        report->Ok_0.message@ == "threshold report"@,
        report->Ok_0.active_profile <==> active_profile is Some && active_profile->0.name@
            == profile_name@,
        report->Ok_0.capturing <==> active_profile is Some && active_profile->0.name@
            == profile_name@ && session is Some && session->0.profile_name@ == profile_name@,
        report->Ok_0.channels@.len() == resolved.ports@.len(),
        forall|i: int|
            0 <= i < resolved.ports@.len() ==> {
                let told = #[trigger] report->Ok_0.channels@[i];
                &&& told.channel@ == resolved.ports@[i].name@
                &&& told.detector == resolved.export_policy.activity.detector
                &&& told.detector == ActivityDetectorKind::ExactZero ==> told.detector_version@
                    == versions.exact_zero@
                &&& told.detector == ActivityDetectorKind::WindowedRmsPeak
                    ==> told.detector_version@ == versions.windowed_rms_peak@
                &&& told.configured_input.input_id@ == evidence@[i].input_id->Ok_0@
            },
{
    assert forall|i: int| 0 <= i < resolved.ports@.len() implies configured(
        *resolved,
        (#[trigger] resolved.ports@[i]).name@,
    ) is Ok && evidence@[i].input_id is Ok && evidence@[i].inspection is Ok
        && evidence@[i].validity is Ok by {
        lemma_ports_are_configured(*resolved, i);
        assert(evidence@[i].input_id is Ok);
    }
}

/// A detector that thresholds do not work with is refused before all else.
pub proof fn an_unsupported_detector_is_refused<S>(
    profile: &ProfileConfig,
    profile_name: &String,
    resolved: &ResolvedProfile,
    active_profile: Option<&ResolvedProfile>,
    session: Option<&CaptureSession<S>>,
    evidence: &Vec<ChannelEvidence>,
    versions: &DetectorVersions,
    now: u64,
    report: Result<ThresholdReport, LambError>,
)
    requires
        evidence@.len() == resolved.ports@.len(),
        resolved.export_policy.activity.detector == ActivityDetectorKind::FixedLevel
            || resolved.export_policy.activity.detector
            == ActivityDetectorKind::CalibratedNoiseFloor,
        call_ensures(
            threshold_report::<S>,
            (
                profile,
                profile_name,
                resolved,
                active_profile,
                session,
                evidence,
                versions,
                now,
            ),
            report,
        ),
    ensures
        report is Err,
        report->Err_0 is Validation,
        report->Err_0->Validation_0@
            == "resolved profile contains an unsupported activity detector"@,
{
}

/// What is told of one channel is what its stored threshold amounts to. Without one,
/// there is nothing to tell and nothing in effect. One that was set by hand counts
/// exactly for the input it was set for. One that was calibrated counts only while the
/// profile is captured with the input as it is configured, and only as long as the store
/// of calibrations says so; what its files are is told either way.
pub proof fn a_channel_is_told_as_it_counts<S>(
    profile: &ProfileConfig,
    profile_name: &String,
    resolved: &ResolvedProfile,
    active_profile: Option<&ResolvedProfile>,
    session: Option<&CaptureSession<S>>,
    evidence: &Vec<ChannelEvidence>,
    versions: &DetectorVersions,
    now: u64,
    report: Result<ThresholdReport, LambError>,
    index: int,
    channel: &String,
    stored: Option<&ActivityThresholdConfig>,
    input: ConfiguredInputIdentity,
)
    requires
        evidence@.len() == resolved.ports@.len(),
        call_ensures(
            threshold_report::<S>,
            (
                profile,
                profile_name,
                resolved,
                active_profile,
                session,
                evidence,
                versions,
                now,
            ),
            report,
        ),
        report is Ok,
        0 <= index < resolved.ports@.len(),
        channel@ == resolved.ports@[index].name@,
        call_ensures(ProfileConfig::threshold_of, (profile, channel), stored),
        call_ensures(configured_identity, (resolved, channel, None), Ok(input)),
    ensures
        ({
            let told = report->Ok_0.channels@[index];
            let known = evidence@[index];
            let seen = session->0;
            let capturing = active_profile is Some && active_profile->0.name@ == profile_name@
                && session is Some && seen.profile_name@ == profile_name@;
            let same_input = index < seen.configured_inputs@.len()
                && seen.configured_inputs@[index]@ == input@;
            let manual = stored is Some && stored->0.threshold_source == ThresholdSource::Manual;
            let calibrated = stored is Some && stored->0.threshold_source
                == ThresholdSource::Calibrated;
            &&& told.configured_input.backend == input.backend
            &&& told.configured_input.selector@ == input.selector@
            &&& told.configured_input.source@ == input.source@
            &&& told.configured_identity_matches is Some <==> capturing
            &&& capturing ==> told.configured_identity_matches == Some(same_input)
            &&& capturing && index < seen.resolved_live_inputs@.len() ==> live_of(
                told.current_live_identity,
            ) == live_of(seen.resolved_live_inputs@[index])
            &&& !capturing || index >= seen.resolved_live_inputs@.len()
                ==> told.current_live_identity is None
            &&& stored is None ==> {
                &&& told.stored is None
                &&& told.artifact_status is NotConfigured
                &&& told.calibration_evaluation is NotResolved
                &&& told.effective_threshold_bits is None
            }
            &&& stored is Some ==> {
                &&& told.stored is Some
                &&& told.stored->0.threshold_bits == stored->0.threshold_bits
                &&& told.stored->0.source == stored->0.threshold_source
                &&& told.stored->0.updated_at_unix_seconds == stored->0.updated_at_unix_seconds
                &&& text_of(told.stored->0.calibration_id) == text_of(stored->0.calibration_id)
                &&& now >= stored->0.updated_at_unix_seconds ==> told.stored->0.age_seconds
                    == Some((now - stored->0.updated_at_unix_seconds) as u64)
                &&& now < stored->0.updated_at_unix_seconds ==> told.stored->0.age_seconds is None
            }
            &&& manual ==> told.artifact_status is NotApplicable
            &&& manual && stored->0.input_id@ == known.input_id->Ok_0@ ==> {
                &&& told.calibration_evaluation is Valid
                &&& told.effective_threshold_bits == Some(stored->0.threshold_bits)
            }
            &&& manual && stored->0.input_id@ != known.input_id->Ok_0@ ==> {
                &&& told.calibration_evaluation == (CalibrationEvaluation::Stale {
                    reason: StaleReason::InputMismatch,
                })
                &&& told.effective_threshold_bits is None
            }
            &&& calibrated && known.inspection == Ok::<CalibrationArtifactStatus, LambError>(
                CalibrationArtifactStatus::Complete,
            ) ==> told.artifact_status is Complete
            &&& calibrated && known.inspection is Ok && known.inspection->Ok_0 is Stale ==> {
                &&& told.artifact_status is Stale
                &&& told.artifact_status->reason == known.inspection->Ok_0->Stale_0
            }
            &&& calibrated && !capturing ==> {
                &&& told.calibration_evaluation is NotResolved
                &&& told.effective_threshold_bits is None
            }
            &&& calibrated && capturing && !same_input ==> {
                &&& told.calibration_evaluation == (CalibrationEvaluation::Stale {
                    reason: StaleReason::InputMismatch,
                })
                &&& told.effective_threshold_bits is None
            }
            &&& calibrated && capturing && same_input && known.validity == Ok::<
                CalibrationValidity,
                LambError,
            >(CalibrationValidity::Valid) ==> {
                &&& told.calibration_evaluation is Valid
                &&& told.effective_threshold_bits == Some(stored->0.threshold_bits)
            }
            &&& calibrated && capturing && same_input && known.validity is Ok
                && known.validity->Ok_0 is Stale ==> {
                &&& told.calibration_evaluation == (CalibrationEvaluation::Stale {
                    reason: known.validity->Ok_0->Stale_0,
                })
                &&& told.effective_threshold_bits is None
            }
        }),
{
    let told = report->Ok_0.channels@[index];
    assert(told.channel@ == resolved.ports@[index].name@);
}

/// The store of calibrations is asked about the files of a threshold that was calibrated,
/// and about its use only where the session has the input as it is configured.
pub proof fn the_store_is_asked_what_a_report_needs<S>(
    profile: &ProfileConfig,
    session: Option<&CaptureSession<S>>,
    input: &ConfiguredInputIdentity,
    index: usize,
    query: ChannelQuery,
    stored: Option<&ActivityThresholdConfig>,
)
    requires
        call_ensures(channel_query::<S>, (profile, session, input, index), query),
        call_ensures(ProfileConfig::threshold_of, (profile, &input.name), stored),
    ensures
        query.inspect <==> stored is Some && stored->0.threshold_source
            == ThresholdSource::Calibrated,
        query.validate <==> query.inspect && session is Some && index
            < session->0.configured_inputs@.len() && session->0.configured_inputs@[index as int]@
            == input@,
{
}

/// The rules in effect are those of the profile, in order and by name, where a channel
/// whose threshold does not count has none; rules and report that do not fit together
/// are refused.
pub proof fn rules_without_a_level_in_effect_have_none(
    scope: &str,
    policy: &ActivityPolicy,
    report: &Vec<ThresholdChannelReport>,
    effective: Result<ActivityPolicy, LambError>,
)
    requires
        call_ensures(effective_activity, (scope, policy, report), effective),
    ensures
        effective is Ok <==> policy.channels@.len() == report@.len() && forall|i: int|
            0 <= i < policy.channels@.len() ==> (#[trigger] policy.channels@[i]).name@
                == report@[i].channel@,
        effective is Ok ==> {
            &&& effective->Ok_0.detector == policy.detector
            &&& effective->Ok_0.whole_export_exact_zero_gate == policy.whole_export_exact_zero_gate
            &&& effective->Ok_0.trim_leading_silence == policy.trim_leading_silence
            &&& effective->Ok_0.channels@.len() == policy.channels@.len()
            &&& forall|i: int|
                0 <= i < policy.channels@.len() ==> {
                    let rule = #[trigger] effective->Ok_0.channels@[i];
                    &&& rule.name@ == policy.channels@[i].name@
                    &&& rule.mode == policy.channels@[i].mode
                    &&& report@[i].effective_threshold_bits is Some ==> rule.threshold
                        == policy.channels@[i].threshold
                    &&& report@[i].effective_threshold_bits is None ==> rule.threshold is None
                }
        },
        effective is Err ==> effective->Err_0 is ControlInvariant,
        effective is Err && policy.channels@.len() != report@.len()
            ==> effective->Err_0->ControlInvariant_0@ == scope@
            + " activity policy/report channel count changed"@,
        effective is Err && policy.channels@.len() == report@.len()
            ==> effective->Err_0->ControlInvariant_0@ == scope@
            + " activity policy/report channel order changed"@,
{
}

/// A level can be set where it is a number from minus 120 up to zero: as bit patterns,
/// zero itself, and from minus zero up in magnitude to minus 120.
pub proof fn levels_reach_from_minus_120_to_zero(bits: u64, checked: Result<(), LambError>)
    requires
        call_ensures(check_level, (bits,), checked),
    ensures
        checked is Ok <==> bits == 0 || 0x8000_0000_0000_0000 <= bits <= 0xC05E_0000_0000_0000,
        checked is Err ==> checked->Err_0 is Validation && checked->Err_0->Validation_0@
            == "threshold dBFS must be finite and within [-120.0, 0.0]"@,
{
}

/// A level that was set by hand is found as such: the level, for the input, at the time;
/// it keeps the calibration of the threshold before it exactly where that was for the
/// same input. One that was taken away is not found.
pub proof fn a_level_set_by_hand_is_found(
    config: &AppConfig,
    profile_name: &String,
    channel: &String,
    level: Option<u64>,
    input_id: &String,
    now: u64,
    candidate: AppConfig,
    before: Option<&ActivityThresholdConfig>,
    found: Option<&ActivityThresholdConfig>,
)
    requires
        names_profile(*config, profile_name@),
        call_ensures(
            manual_candidate,
            (config, profile_name, channel, level, input_id, now),
            candidate,
        ),
        call_ensures(AppConfig::threshold_of, (config, profile_name, channel), before),
        call_ensures(AppConfig::threshold_of, (&candidate, profile_name, channel), found),
    ensures
        found is Some <==> level is Some,
        found is Some ==> {
            &&& found->0.threshold_bits == level->0
            &&& found->0.threshold_source == ThresholdSource::Manual
            &&& found->0.updated_at_unix_seconds == now
            &&& found->0.input_id@ == input_id@
            &&& before is Some && before->0.input_id@ == input_id@ ==> text_of(
                found->0.calibration_id,
            ) == text_of(before->0.calibration_id)
            &&& before is None || before->0.input_id@ != input_id@ ==> found->0.calibration_id
                is None
        },
{
    lemma_names_profile(*config, profile_name@);
    crate::config::a_set_threshold_is_found(
        config@,
        profile_name@,
        channel@,
        crate::threshold::manual_threshold(
            config@.threshold(profile_name@, channel@),
            level,
            input_id@,
            now,
        ),
    );
}

/// A level that was measured is found as such, and names its calibration, which is then
/// the one that the next takes the place of.
pub proof fn a_measured_level_is_found(
    config: &AppConfig,
    profile_name: &String,
    channel: &String,
    threshold_bits: u64,
    input_id: &String,
    calibration_id: &String,
    created_at: u64,
    candidate: AppConfig,
    found: Option<&ActivityThresholdConfig>,
    previous: Option<(String, String)>,
)
    requires
        names_profile(*config, profile_name@),
        call_ensures(
            calibrated_candidate,
            (
                config,
                profile_name,
                channel,
                threshold_bits,
                input_id,
                calibration_id,
                created_at,
            ),
            candidate,
        ),
        call_ensures(AppConfig::threshold_of, (&candidate, profile_name, channel), found),
        call_ensures(previous_generation, (&candidate, profile_name, channel), previous),
    ensures
        found is Some,
        found->0.threshold_bits == threshold_bits,
        found->0.threshold_source == ThresholdSource::Calibrated,
        found->0.updated_at_unix_seconds == created_at,
        found->0.input_id@ == input_id@,
        text_of(found->0.calibration_id) == Some(calibration_id@),
        previous is Some,
        (previous->0).0@ == input_id@,
        (previous->0).1@ == calibration_id@,
{
    lemma_names_profile(*config, profile_name@);
    crate::config::a_set_threshold_is_found(
        config@,
        profile_name@,
        channel@,
        Some(
            ThresholdView {
                threshold_bits,
                threshold_source: ThresholdSource::Calibrated,
                updated_at_unix_seconds: created_at,
                input_id: input_id@,
                calibration_id: Some(calibration_id@),
            },
        ),
    );
}

/// The calibration that a new one takes the place of is the one that the stored threshold
/// names, whoever set its level since.
pub proof fn the_calibration_before_is_the_stored_one(
    config: &AppConfig,
    profile_name: &String,
    channel: &String,
    stored: Option<&ActivityThresholdConfig>,
    previous: Option<(String, String)>,
)
    requires
        call_ensures(AppConfig::threshold_of, (config, profile_name, channel), stored),
        call_ensures(previous_generation, (config, profile_name, channel), previous),
    ensures
        previous is Some <==> stored is Some && stored->0.calibration_id is Some,
        previous is Some ==> {
            &&& (previous->0).0@ == stored->0.input_id@
            &&& (previous->0).1@ == stored->0.calibration_id->0@
        },
{
}

/// A changed threshold comes into use once it was written down, and not before: the
/// configuration is the new one, the settings of the active profile are the new ones, and
/// so are the rules of its session, of which nothing else changes. Neither a capture nor
/// another profile is touched.
pub proof fn a_saved_threshold_comes_into_use<B, S>(
    ctx: &mut IdleDaemonContext<B, S>,
    profile_name: &String,
    prepared: PreparedThreshold,
    saved: Result<(), LambError>,
    done: Result<(ThresholdReport, Option<Vec<(String, String)>>), LambError>,
)
    requires
        call_ensures(threshold_saved::<B, S>, (ctx, profile_name, prepared, saved), done),
    ensures
        done is Ok <==> saved is Ok,
        saved is Err ==> done->Err_0 == saved->Err_0 && final(ctx)@ == old(ctx)@,
        saved is Ok ==> {
            let active = old(ctx).runtime.active_profile is Some
                && old(ctx).runtime.active_profile->0.name@ == profile_name@;
            let captured = active && old(ctx).runtime.session is Some
                && old(ctx).runtime.session->0.profile_name@ == profile_name@;
            let session = final(ctx).runtime.session->0;
            let before = old(ctx).runtime.session->0;
            &&& done->Ok_0.0 == prepared.report
            &&& done->Ok_0.1 == prepared.references
            &&& final(ctx).runtime.config == prepared.candidate
            &&& active ==> final(ctx).runtime.active_profile == Some(prepared.resolved)
            &&& !active ==> final(ctx).runtime.active_profile == old(ctx).runtime.active_profile
            &&& !captured ==> final(ctx).runtime.session == old(ctx).runtime.session
            &&& captured ==> {
                &&& final(ctx).runtime.session is Some
                &&& session.policy.activity == prepared.effective
                &&& session.policy.output_dir == before.policy.output_dir
                &&& session.policy.layout == before.policy.layout
                &&& session.identity == before.identity
                &&& session.resource == before.resource
                &&& session.sample_rate == before.sample_rate
                &&& session.channel_count == before.channel_count
                &&& session.profile_name == before.profile_name
                &&& session.configured_inputs == before.configured_inputs
                &&& session.resolved_live_inputs == before.resolved_live_inputs
                &&& session.calibration_sample_frames == before.calibration_sample_frames
            }
            &&& final(ctx).runtime.capture == old(ctx).runtime.capture
            &&& final(ctx).runtime.state == old(ctx).runtime.state
            &&& final(ctx).runtime.lifecycle@ == old(ctx).runtime.lifecycle@
            &&& final(ctx).scheduler == old(ctx).scheduler
            &&& final(ctx).stop == old(ctx).stop
        },
{
}

/// To take a threshold into use is what saving it does.
pub proof fn saving_takes_a_threshold_into_use<B, S>(
    installing: &mut IdleDaemonContext<B, S>,
    saving: &mut IdleDaemonContext<B, S>,
    profile_name: &String,
    prepared: PreparedThreshold,
    done: Result<(ThresholdReport, Option<Vec<(String, String)>>), LambError>,
)
    requires
        *old(installing) == *old(saving),
        call_ensures(
            install_threshold::<B, S>,
            (
                installing,
                profile_name,
                prepared.candidate,
                prepared.resolved,
                prepared.effective,
            ),
            (),
        ),
        call_ensures(threshold_saved::<B, S>, (saving, profile_name, prepared, Ok(())), done),
    ensures
        final(installing)@ == final(saving)@,
{
}

/// A threshold can be changed where its profile is there and nobody failed on the state.
pub proof fn a_change_needs_its_profile<'a, B, S>(
    ctx: &'a IdleDaemonContext<B, S>,
    profile_name: &String,
    profile: Result<&'a ProfileConfig, LambError>,
)
    requires
        call_ensures(begin_threshold_change::<B, S>, (ctx, profile_name), profile),
    ensures
        profile is Ok <==> !ctx.runtime_poisoned && names_profile(
            ctx.runtime.config,
            profile_name@,
        ),
        profile is Ok ==> profile->Ok_0.name@ == profile_name@,
        ctx.runtime_poisoned ==> profile->Err_0 is Control && profile->Err_0->Control_0@
            == "runtime state lock poisoned"@,
        !ctx.runtime_poisoned && profile is Err ==> profile->Err_0 is Config,
{
    lemma_names_profile(ctx.runtime.config, profile_name@);
}

/// A level is set by hand only for a channel whose input can be told; what is set is what
/// a direct change of the configuration sets.
pub proof fn a_change_by_hand_needs_its_channel(
    config: &AppConfig,
    profile_name: &String,
    channel: &String,
    resolved: &ResolvedProfile,
    level: Option<u64>,
    input_id: Result<String, LambError>,
    now: u64,
    candidate: Result<AppConfig, LambError>,
    direct: AppConfig,
    settings: Result<ConfiguredInputIdentity, LambError>,
)
    requires
        call_ensures(
            threshold_candidate,
            (config, profile_name, channel, resolved, level, input_id, now),
            candidate,
        ),
        input_id is Ok ==> call_ensures(
            manual_candidate,
            (config, profile_name, channel, level, &input_id->Ok_0, now),
            direct,
        ),
        call_ensures(configured_identity, (resolved, channel, None), settings),
    ensures
        candidate is Ok <==> settings is Ok && input_id is Ok,
        candidate is Ok ==> candidate->Ok_0@ == direct@,
        settings is Err ==> candidate->Err_0@ == settings->Err_0@,
        settings is Ok && input_id is Err ==> candidate->Err_0@ == input_id->Err_0@,
{
}

/// Whether the rules of a profile are those of its ports, in order.
pub open spec fn rules_are_those_of_the_ports(profile: ResolvedProfile) -> bool {
    &&& profile.export_policy.activity.channels@.len() == profile.ports@.len()
    &&& forall|i: int|
        0 <= i < profile.ports@.len() ==> (
        #[trigger] profile.export_policy.activity.channels@[i]).name@ == profile.ports@[i].name@
}

/// A change of a threshold by hand is prepared wherever nothing stands in its way. What is
/// then written down is the changed configuration: the level is found in it as it was
/// set, or not at all where it was taken away. Calibrations are cleaned up exactly where a
/// threshold was taken away.
pub proof fn a_change_by_hand_is_prepared<B, S>(
    ctx: &IdleDaemonContext<B, S>,
    profile_name: &String,
    channel: &String,
    resolved: ResolvedProfile,
    level: Option<u64>,
    input_id: String,
    validated: ResolvedProfile,
    evidence: &Vec<ChannelEvidence>,
    versions: &DetectorVersions,
    now: u64,
    prepared: Result<PreparedThreshold, LambError>,
    settings: ConfiguredInputIdentity,
    found: Option<&ActivityThresholdConfig>,
)
    requires
        !ctx.runtime_poisoned,
        names_profile(ctx.runtime.config, profile_name@),
        call_ensures(configured_identity, (&resolved, channel, None), Ok(settings)),
        evidence@.len() == validated.ports@.len(),
        validated.export_policy.activity.detector == ActivityDetectorKind::ExactZero
            || validated.export_policy.activity.detector == ActivityDetectorKind::WindowedRmsPeak,
        ports_can_be_configured(validated),
        evidence_is_there(evidence@),
        rules_are_those_of_the_ports(validated),
        ctx.runtime.session is Some ==> !ctx.runtime.session->0.policy_poisoned,
        call_ensures(
            prepare_manual_threshold::<B, S>,
            (
                ctx,
                profile_name,
                channel,
                Ok(resolved),
                level,
                Ok(input_id),
                Ok(validated),
                evidence,
                versions,
                now,
            ),
            prepared,
        ),
        call_ensures(
            AppConfig::threshold_of,
            (&prepared->Ok_0.candidate, profile_name, channel),
            found,
        ),
    ensures
        prepared is Ok,
        prepared->Ok_0.resolved == validated,
        prepared->Ok_0.references is Some <==> level is None,
        prepared->Ok_0.report.profile@ == profile_name@,
        prepared->Ok_0.report.channels@.len() == validated.ports@.len(),
        prepared->Ok_0.candidate.daemon.start_mode@ == ctx.runtime.config.daemon.start_mode@,
        found is Some <==> level is Some,
        found is Some ==> {
            &&& found->0.threshold_bits == level->0
            &&& found->0.threshold_source == ThresholdSource::Manual
            &&& found->0.updated_at_unix_seconds == now
            &&& found->0.input_id@ == input_id@
        },
        forall|i: int|
            0 <= i < validated.ports@.len() ==> {
                let rule = #[trigger] prepared->Ok_0.effective.channels@[i];
                &&& rule.name@ == validated.ports@[i].name@
                &&& prepared->Ok_0.report.channels@[i].effective_threshold_bits is None
                    ==> rule.threshold is None
                &&& prepared->Ok_0.report.channels@[i].effective_threshold_bits is Some
                    ==> rule.threshold
                    == validated.export_policy.activity.channels@[i].threshold
            },
{
    let config = ctx.runtime.config@;
    lemma_names_profile(ctx.runtime.config, profile_name@);
    let stored = crate::threshold::manual_threshold(
        config.threshold(profile_name@, channel@),
        level,
        input_id@,
        now,
    );
    let candidate = config.with_threshold(profile_name@, channel@, stored);
    crate::config::a_set_threshold_is_found(config, profile_name@, channel@, stored);
    assert(profile_names(candidate.profiles) =~= profile_names(config.profiles));
    assert(candidate.has_profile(profile_name@));
    assert forall|i: int| 0 <= i < validated.ports@.len() implies configured(
        validated,
        (#[trigger] validated.ports@[i]).name@,
    ) is Ok && evidence@[i].input_id is Ok && evidence@[i].inspection is Ok
        && evidence@[i].validity is Ok by {
        lemma_ports_are_configured(validated, i);
        assert(evidence@[i].input_id is Ok);
    }
    assert(crate::threshold::rules_follow_ports(validated));
}

/// A change by hand that something stands in the way of says what, in the order in which
/// it is looked at.
pub proof fn a_refused_change_by_hand_says_why<B, S>(
    ctx: &IdleDaemonContext<B, S>,
    profile_name: &String,
    channel: &String,
    resolved: Result<ResolvedProfile, LambError>,
    level: Option<u64>,
    input_id: Result<String, LambError>,
    validated: Result<ResolvedProfile, LambError>,
    evidence: &Vec<ChannelEvidence>,
    versions: &DetectorVersions,
    now: u64,
    prepared: Result<PreparedThreshold, LambError>,
    settings: Result<ConfiguredInputIdentity, LambError>,
)
    requires
        validated is Ok ==> evidence@.len() == validated->Ok_0.ports@.len(),
        call_ensures(
            prepare_manual_threshold::<B, S>,
            (
                ctx,
                profile_name,
                channel,
                resolved,
                level,
                input_id,
                validated,
                evidence,
                versions,
                now,
            ),
            prepared,
        ),
        resolved is Ok ==> call_ensures(
            configured_identity,
            (&resolved->Ok_0, channel, None),
            settings,
        ),
    ensures
        ({
            let known = names_profile(ctx.runtime.config, profile_name@);
            if ctx.runtime_poisoned {
                &&& prepared is Err
                &&& prepared->Err_0 is Control
                &&& prepared->Err_0->Control_0@ == "runtime state lock poisoned"@
            } else if !known {
                &&& prepared is Err
                &&& prepared->Err_0 is Config
                &&& prepared->Err_0->Config_0@ == "profile "@ + profile_name@
                    + " does not exist"@
            } else if resolved is Err {
                prepared is Err && prepared->Err_0@ == resolved->Err_0@
            } else if settings is Err {
                prepared is Err && prepared->Err_0@ == settings->Err_0@
            } else if input_id is Err {
                prepared is Err && prepared->Err_0@ == input_id->Err_0@
            } else if validated is Err {
                prepared is Err && prepared->Err_0@ == validated->Err_0@
            } else {
                &&& validated->Ok_0.export_policy.activity.detector
                    == ActivityDetectorKind::FixedLevel ==> prepared is Err
                &&& validated->Ok_0.export_policy.activity.channels@.len()
                    != validated->Ok_0.ports@.len() ==> prepared is Err
            }
        }),
{
    lemma_names_profile(ctx.runtime.config, profile_name@);
}

/// A measured threshold is prepared wherever what was measured is still there and nothing
/// else stands in its way: it is found in the changed configuration as it was measured,
/// no calibration is cleaned up by the way, and the one before it is handed out to be
/// removed exactly where there is one and it was found.
pub proof fn a_measured_threshold_is_prepared<B, S>(
    ctx: &IdleDaemonContext<B, S>,
    target: &SessionCalibrationTarget,
    current: bool,
    measured: &MeasuredThreshold,
    look: GenerationLook,
    validated: ResolvedProfile,
    evidence: &Vec<ChannelEvidence>,
    versions: &DetectorVersions,
    prepared: Result<(PreparedThreshold, Option<(String, String)>), LambError>,
    before: Option<(String, String)>,
    found: Option<&ActivityThresholdConfig>,
)
    requires
        call_ensures(calibration_target_is_current::<B, S>, (ctx, target), current),
        current,
        names_profile(ctx.runtime.config, target.active_profile.name@),
        call_ensures(
            previous_generation,
            (&ctx.runtime.config, &target.active_profile.name, &target.configured.name),
            before,
        ),
        before is Some ==> !(look is Failed),
        evidence@.len() == validated.ports@.len(),
        validated.export_policy.activity.detector == ActivityDetectorKind::ExactZero
            || validated.export_policy.activity.detector == ActivityDetectorKind::WindowedRmsPeak,
        ports_can_be_configured(validated),
        evidence_is_there(evidence@),
        rules_are_those_of_the_ports(validated),
        ctx.runtime.session is Some ==> !ctx.runtime.session->0.policy_poisoned,
        call_ensures(
            prepare_calibrated_threshold::<B, S>,
            (ctx, target, measured, look, Ok(validated), evidence, versions),
            prepared,
        ),
        call_ensures(
            AppConfig::threshold_of,
            (
                &prepared->Ok_0.0.candidate,
                &target.active_profile.name,
                &target.configured.name,
            ),
            found,
        ),
    ensures
        prepared is Ok,
        prepared->Ok_0.0.resolved == validated,
        prepared->Ok_0.0.references is None,
        found is Some,
        found->0.threshold_bits == measured.threshold_bits,
        found->0.threshold_source == ThresholdSource::Calibrated,
        found->0.updated_at_unix_seconds == measured.created_at,
        found->0.input_id@ == measured.input_id@,
        text_of(found->0.calibration_id) == Some(measured.calibration_id@),
        prepared->Ok_0.1 is Some <==> before is Some && look is Recorded,
        prepared->Ok_0.1 is Some ==> {
            &&& (prepared->Ok_0.1->0).0@ == (before->0).0@
            &&& (prepared->Ok_0.1->0).1@ == (before->0).1@
        },
{
    let config = ctx.runtime.config@;
    let name = target.active_profile.name@;
    let channel = target.configured.name@;
    lemma_names_profile(ctx.runtime.config, name);
    let stored = Some(measured.stored());
    let candidate = config.with_threshold(name, channel, stored);
    crate::config::a_set_threshold_is_found(config, name, channel, stored);
    assert(profile_names(candidate.profiles) =~= profile_names(config.profiles));
    assert(candidate.has_profile(name));
    assert forall|i: int| 0 <= i < validated.ports@.len() implies configured(
        validated,
        (#[trigger] validated.ports@[i]).name@,
    ) is Ok && evidence@[i].input_id is Ok && evidence@[i].inspection is Ok
        && evidence@[i].validity is Ok by {
        lemma_ports_are_configured(validated, i);
        assert(evidence@[i].input_id is Ok);
    }
    assert(crate::threshold::rules_follow_ports(validated));
}

/// A measured threshold whose target changed meanwhile is refused before all else; so is
/// one whose calibration before it cannot be looked at.
pub proof fn a_measured_threshold_needs_its_target<B, S>(
    ctx: &IdleDaemonContext<B, S>,
    target: &SessionCalibrationTarget,
    current: bool,
    measured: &MeasuredThreshold,
    look: GenerationLook,
    validated: Result<ResolvedProfile, LambError>,
    evidence: &Vec<ChannelEvidence>,
    versions: &DetectorVersions,
    prepared: Result<(PreparedThreshold, Option<(String, String)>), LambError>,
    before: Option<(String, String)>,
)
    requires
        validated is Ok ==> evidence@.len() == validated->Ok_0.ports@.len(),
        call_ensures(calibration_target_is_current::<B, S>, (ctx, target), current),
        call_ensures(
            previous_generation,
            (&ctx.runtime.config, &target.active_profile.name, &target.configured.name),
            before,
        ),
        call_ensures(
            prepare_calibrated_threshold::<B, S>,
            (ctx, target, measured, look, validated, evidence, versions),
            prepared,
        ),
    ensures
        !current ==> {
            &&& prepared is Err
            &&& prepared->Err_0 is CaptureInvariant
            &&& prepared->Err_0->CaptureInvariant_0@ == "calibration target changed before commit"@
        },
        current && before is Some && look is Failed ==> prepared is Err && prepared->Err_0@
            == look->Failed_0@,
        current && !(before is Some && look is Failed) && !names_profile(
            ctx.runtime.config,
            target.active_profile.name@,
        ) ==> prepared is Err && prepared->Err_0 is Config,
        current && !(before is Some && look is Failed) && names_profile(
            ctx.runtime.config,
            target.active_profile.name@,
        ) && validated is Err ==> prepared is Err && prepared->Err_0@ == validated->Err_0@,
{
    lemma_names_profile(ctx.runtime.config, target.active_profile.name@);
}

/// A report on a change takes the changed profile for the active one exactly where it is
/// the active one, and the session for its own exactly where it is.
pub proof fn a_change_is_reported_as_if_in_use<B, S>(
    ctx: &IdleDaemonContext<B, S>,
    profile_name: &String,
    candidate: AppConfig,
    resolved: ResolvedProfile,
    evidence: &Vec<ChannelEvidence>,
    versions: &DetectorVersions,
    now: u64,
    clean_up: bool,
    prepared: Result<PreparedThreshold, LambError>,
)
    requires
        resolved.name@ == profile_name@,
        evidence@.len() == resolved.ports@.len(),
        call_ensures(
            prepare_threshold_change::<B, S>,
            (ctx, profile_name, candidate, resolved, evidence, versions, now, clean_up),
            prepared,
        ),
        prepared is Ok,
    ensures
        prepared->Ok_0.candidate == candidate,
        prepared->Ok_0.resolved == resolved,
        prepared->Ok_0.references is Some <==> clean_up,
        prepared->Ok_0.report.active_profile <==> ctx.runtime.active_profile is Some
            && ctx.runtime.active_profile->0.name@ == profile_name@,
        prepared->Ok_0.report.capturing <==> ctx.runtime.active_profile is Some
            && ctx.runtime.active_profile->0.name@ == profile_name@ && ctx.runtime.session is Some
            && ctx.runtime.session->0.profile_name@ == profile_name@,
        names_profile(candidate, profile_name@),
        prepared->Ok_0.effective.detector == resolved.export_policy.activity.detector,
{
    lemma_names_profile(candidate, profile_name@);
}

/// The answer to a change says whether a threshold was set or taken away, and what is left
/// to clean up if anything is.
pub proof fn a_change_is_answered_as_such(
    is_set: bool,
    cleanup: Option<Result<u64, LambError>>,
    message: String,
    pending: &Option<String>,
    calibrated: String,
)
    requires
        call_ensures(threshold_change_message, (is_set, cleanup), message),
        call_ensures(calibration_message, (pending,), calibrated),
    ensures
        ({
            let done = if is_set {
                "threshold updated"@
            } else {
                "threshold reset"@
            };
            &&& cleanup is None || cleanup->0 == Ok::<u64, LambError>(0) ==> message@ == done
            &&& cleanup is Some && cleanup->0 is Ok && cleanup->0->Ok_0 > 0 ==> message@ == done
                + "; calibration cleanup pending for "@ + decimal(cleanup->0->Ok_0 as nat)
                + " path(s)"@
            &&& cleanup is Some && cleanup->0 is Err ==> message@ == done
                + "; calibration cleanup warning: "@ + cleanup->0->Err_0@.rendered()
        }),
        *pending is None ==> calibrated@ == "threshold calibrated"@,
        *pending is Some ==> calibrated@
            == "threshold calibrated; old calibration cleanup pending: "@ + pending->0@,
{
}

/// A new session gets the rules in effect, and nothing else of it changes: a rule keeps
/// its threshold exactly where what is stored for its channel counts. Of a session that is
/// not captured by its own profile's rules nothing is made.
pub proof fn a_session_gets_the_rules_in_effect<S>(
    config: &AppConfig,
    resolved: &ResolvedProfile,
    session: CaptureSession<S>,
    evidence: &Vec<ChannelEvidence>,
    versions: &DetectorVersions,
    now: u64,
    installed: Result<CaptureSession<S>, (CaptureSession<S>, LambError)>,
    index: int,
    channel: &String,
    stored: Option<&ActivityThresholdConfig>,
)
    requires
        evidence@.len() == resolved.ports@.len(),
        call_ensures(
            install_effective_session_activity_policy::<S>,
            (config, resolved, session, evidence, versions, now),
            installed,
        ),
        0 <= index < resolved.ports@.len(),
        channel@ == resolved.ports@[index].name@,
        call_ensures(AppConfig::threshold_of, (config, &resolved.name, channel), stored),
    ensures
        installed is Err ==> installed->Err_0.0 == session,
        installed is Ok ==> {
            let after = installed->Ok_0;
            let rule = after.policy.activity.channels@[index];
            let asked = resolved.export_policy.activity.channels@[index];
            &&& after.identity == session.identity
            &&& after.resource == session.resource
            &&& after.sample_rate == session.sample_rate
            &&& after.channel_count == session.channel_count
            &&& after.profile_name == session.profile_name
            &&& after.configured_inputs == session.configured_inputs
            &&& after.resolved_live_inputs == session.resolved_live_inputs
            &&& after.policy.output_dir == session.policy.output_dir
            &&& after.policy.layout == session.policy.layout
            &&& after.policy.activity.detector == resolved.export_policy.activity.detector
            &&& after.policy.activity.channels@.len() == resolved.ports@.len()
            &&& rule.name@ == channel@
            &&& rule.mode == asked.mode
            &&& rule.threshold is None || rule.threshold == asked.threshold
            &&& stored is None ==> rule.threshold is None
            &&& stored is Some && stored->0.threshold_source == ThresholdSource::Manual ==> {
                &&& stored->0.input_id@ == evidence@[index].input_id->Ok_0@ ==> rule.threshold
                    == asked.threshold
                &&& stored->0.input_id@ != evidence@[index].input_id->Ok_0@ ==> rule.threshold
                    is None
            }
            &&& stored is Some && stored->0.threshold_source == ThresholdSource::Calibrated
                && session.profile_name@ != resolved.name@ ==> rule.threshold is None
            &&& stored is Some && stored->0.threshold_source == ThresholdSource::Calibrated
                && evidence@[index].validity is Ok && evidence@[index].validity->Ok_0 is Stale
                ==> rule.threshold is None
        },
{
    if installed is Ok {
        lemma_names_profile(*config, resolved.name@);
        let after = installed->Ok_0;
        let report = choose|report: ThresholdReport|
            {
                &&& #[trigger] report_is(
                    report,
                    config@.profile(resolved.name@),
                    resolved.name@,
                    *resolved,
                    Some(*resolved),
                    Some(session),
                    evidence@,
                    *versions,
                    now,
                )
                &&& crate::threshold::activity_in_effect(
                    after.policy.activity,
                    resolved.export_policy.activity,
                    report.channels@,
                )
            };
        assert(report_is(
            report,
            config@.profile(resolved.name@),
            resolved.name@,
            *resolved,
            Some(*resolved),
            Some(session),
            evidence@,
            *versions,
            now,
        ));
        let told = report.channels@[index];
        assert(told.channel@ == resolved.ports@[index].name@);
        let rule = after.policy.activity.channels@[index];
        assert(rule.name@ == resolved.export_policy.activity.channels@[index].name@);
    }
}

/// An attempt gets the same rules for its session and keeps its backend; where it cannot,
/// or its place was taken, all of it is given up.
pub proof fn an_attempt_gets_the_rules_of_its_session<B, S>(
    config: &AppConfig,
    resolved: &ResolvedProfile,
    attempt: PrivateAppCaptureAttempt<B, S>,
    evidence: &Vec<ChannelEvidence>,
    versions: &DetectorVersions,
    now: u64,
    current: bool,
    installed: Result<PrivateAppCaptureAttempt<B, S>, (Released<B, S>, LambError)>,
)
    requires
        evidence@.len() == resolved.ports@.len(),
        call_ensures(
            install_attempt_policy::<B, S>,
            (config, resolved, attempt, evidence, versions, now, current),
            installed,
        ),
    ensures
        !current ==> {
            &&& installed is Err
            &&& installed->Err_0.1 is Control
            &&& installed->Err_0.1->Control_0@ == "capture operation superseded"@
        },
        installed is Err ==> {
            &&& installed->Err_0.0.backend == Some(attempt.backend)
            &&& installed->Err_0.0.session == Some(attempt.session)
        },
        installed is Ok ==> {
            &&& installed->Ok_0.backend == attempt.backend
            &&& installed->Ok_0.health == attempt.health
            &&& installed->Ok_0.session.identity == attempt.session.identity
            &&& installed->Ok_0.session.resource == attempt.session.resource
            &&& installed->Ok_0.session.configured_inputs == attempt.session.configured_inputs
        },
        current && names_profile(*config, resolved.name@) && evidence_is_there(evidence@)
            && ports_can_be_configured(*resolved) && rules_are_those_of_the_ports(*resolved)
            && !attempt.session.policy_poisoned && (
        resolved.export_policy.activity.detector == ActivityDetectorKind::ExactZero
            || resolved.export_policy.activity.detector == ActivityDetectorKind::WindowedRmsPeak)
            ==> installed is Ok,
{
    lemma_names_profile(*config, resolved.name@);
    if evidence_is_there(evidence@) && ports_can_be_configured(*resolved) {
        assert forall|i: int| 0 <= i < resolved.ports@.len() implies configured(
            *resolved,
            (#[trigger] resolved.ports@[i]).name@,
        ) is Ok && evidence@[i].input_id is Ok && evidence@[i].inspection is Ok
            && evidence@[i].validity is Ok by {
            lemma_ports_are_configured(*resolved, i);
            assert(evidence@[i].input_id is Ok);
        }
    }
    if rules_are_those_of_the_ports(*resolved) {
        assert(crate::threshold::rules_follow_ports(*resolved));
    }
}

} // verus!
