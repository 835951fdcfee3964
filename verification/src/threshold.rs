//! Activity thresholds: what clients are told about them, which of them are in
//! effect, and how a new one comes into use.

use crate::calibration::{admit_calibration, SessionCalibrationTarget};
use crate::config::{
    calibration_references, lists, no_repeats, ConfigView, ProfileView, ThresholdView,
};
use crate::error::{ErrorView, LambError};
use crate::identity::{configured, configured_identity, live_of, ConfiguredView, LiveView};
use crate::model::{
    ActivityChannel, ActivityDetectorKind, ActivityPolicy, ActivityThresholdConfig, AppConfig,
    CaptureSession, ConfiguredDeviceSelector, ConfiguredInputIdentity, ContextView,
    IdleDaemonContext, InputBackend, ProfileConfig, ResolvedExportPolicy,
    ResolvedLiveInputIdentity, ResolvedProfile, RuntimeView, ThresholdSource,
};
use crate::profile::SIGN_BIT;
use crate::text::{copy_text, decimal, join, render_decimal, text_of};
use vstd::prelude::*;

verus! {

/// Why a calibration no longer counts.
#[derive(Debug, Clone, PartialEq, Eq)]
pub enum StaleReason {
    /// It was made for another input.
    InputMismatch,
    /// The live device cannot be told.
    MissingLiveIdentity,
    /// It was made with another device.
    LiveIdentityMismatch,
    /// It was made for another detector.
    DetectorMismatch,
    /// It is too old.
    Expired,
    /// Its files are gone.
    MissingState,
    /// Its files cannot be read.
    CorruptMetadata,
    /// The store of calibrations says why.
    Told(String),
}

impl StaleReason {
    /// A second copy of the reason.
    pub fn duplicate(&self) -> (copy: StaleReason)
        ensures
            copy == *self,
    {
        match self {
            StaleReason::InputMismatch => StaleReason::InputMismatch,
            StaleReason::MissingLiveIdentity => StaleReason::MissingLiveIdentity,
            StaleReason::LiveIdentityMismatch => StaleReason::LiveIdentityMismatch,
            StaleReason::DetectorMismatch => StaleReason::DetectorMismatch,
            StaleReason::Expired => StaleReason::Expired,
            StaleReason::MissingState => StaleReason::MissingState,
            StaleReason::CorruptMetadata => StaleReason::CorruptMetadata,
            StaleReason::Told(text) => StaleReason::Told(text.clone()),
        }
    }
}

/// What the store of calibrations says about the files of one.
#[derive(Debug, Clone, PartialEq, Eq)]
pub enum CalibrationArtifactStatus {
    Complete,
    Stale(StaleReason),
}

/// What the store of calibrations says about using one now.
#[derive(Debug, Clone, PartialEq, Eq)]
pub enum CalibrationValidity {
    Valid,
    Stale(StaleReason),
}

/// What is known of one channel from outside: the identity of its input or why
/// the input is refused, and what the store of calibrations says where it is asked.
#[derive(Debug, PartialEq, Eq)]
pub struct ChannelEvidence {
    pub input_id: Result<String, LambError>,
    pub inspection: Result<CalibrationArtifactStatus, LambError>,
    pub validity: Result<CalibrationValidity, LambError>,
}

/// The versions of the detectors that thresholds work with.
#[derive(Debug, Clone, PartialEq, Eq)]
pub struct DetectorVersions {
    pub exact_zero: String,
    pub windowed_rms_peak: String,
}

impl DetectorVersions {
    /// The version of a detector; one that thresholds do not work with has none.
    pub open spec fn version_of(self, detector: ActivityDetectorKind) -> Seq<char> {
        match detector {
            ActivityDetectorKind::ExactZero => self.exact_zero@,
            ActivityDetectorKind::WindowedRmsPeak => self.windowed_rms_peak@,
            _ => Seq::empty(),
        }
    }

    /// The version of a detector.
    pub fn version(&self, detector: ActivityDetectorKind) -> (version: String)
        ensures
            version@ == self.version_of(detector),
    {
        match detector {
            ActivityDetectorKind::ExactZero => self.exact_zero.clone(),
            ActivityDetectorKind::WindowedRmsPeak => self.windowed_rms_peak.clone(),
            _ => {
                let none = String::new();
                proof {
                    assert(none@ =~= Seq::<char>::empty());
                }
                none
            },
        }
    }
}

/// What is stored for a channel.
#[derive(Debug, Clone, PartialEq, Eq)]
pub struct StoredThresholdReport {
    pub threshold_bits: u64,
    pub source: ThresholdSource,
    pub updated_at_unix_seconds: u64,
    pub age_seconds: Option<u64>,
    pub calibration_id: Option<String>,
}

/// What a report says about the files of a calibration.
#[derive(Debug, Clone, PartialEq, Eq)]
pub enum CalibrationReportStatus {
    NotConfigured,
    NotApplicable,
    Complete,
    Stale { reason: StaleReason },
}

/// What a report says about the use of a threshold.
#[derive(Debug, Clone, PartialEq, Eq)]
pub enum CalibrationEvaluation {
    NotResolved,
    Valid,
    Stale { reason: StaleReason },
}

/// How the input of a channel is configured.
#[derive(Debug, Clone, PartialEq, Eq)]
pub struct ConfiguredInputReport {
    pub backend: InputBackend,
    pub selector: ConfiguredDeviceSelector,
    pub source: String,
    pub input_id: String,
}

/// What clients are told about one channel.
#[derive(Debug, Clone, PartialEq, Eq)]
pub struct ThresholdChannelReport {
    pub channel: String,
    pub detector: ActivityDetectorKind,
    pub detector_version: String,
    pub configured_input: ConfiguredInputReport,
    pub stored: Option<StoredThresholdReport>,
    pub artifact_status: CalibrationReportStatus,
    pub current_live_identity: Option<ResolvedLiveInputIdentity>,
    pub configured_identity_matches: Option<bool>,
    pub calibration_evaluation: CalibrationEvaluation,
    pub effective_threshold_bits: Option<u64>,
}

/// What a client is told about the thresholds of a profile.
#[derive(Debug, Clone, PartialEq, Eq)]
pub struct ThresholdReport {
    pub profile: String,
    pub active_profile: bool,
    pub capturing: bool,
    pub channels: Vec<ThresholdChannelReport>,
    pub message: String,
}

/// Whether the files of a calibration are looked at for a report.
pub open spec fn needs_inspection(threshold: Option<ThresholdView>) -> bool {
    threshold is Some && threshold->0.threshold_source == ThresholdSource::Calibrated
}

/// Whether the use of a calibration is judged for a report: only while the
/// profile captures, and only where the input is the one that the session has.
pub open spec fn needs_validation(
    threshold: Option<ThresholdView>,
    matches: Option<bool>,
) -> bool {
    needs_inspection(threshold) && matches == Some(true)
}

/// What is stored, as it is reported.
pub open spec fn stored_report_is(
    report: Option<StoredThresholdReport>,
    threshold: Option<ThresholdView>,
    now: u64,
) -> bool {
    match (report, threshold) {
        (Some(report), Some(threshold)) => {
            &&& report.threshold_bits == threshold.threshold_bits
            &&& report.source == threshold.threshold_source
            &&& report.updated_at_unix_seconds == threshold.updated_at_unix_seconds
            &&& report.age_seconds == (if now >= threshold.updated_at_unix_seconds {
                Some((now - threshold.updated_at_unix_seconds) as u64)
            } else {
                None
            })
            &&& text_of(report.calibration_id) == threshold.calibration_id
        },
        (None, None) => true,
        _ => false,
    }
}

/// What a report says about the files of a calibration.
pub open spec fn artifact_report(
    threshold: Option<ThresholdView>,
    inspection: Result<CalibrationArtifactStatus, LambError>,
) -> CalibrationReportStatus {
    match threshold {
        None => CalibrationReportStatus::NotConfigured,
        Some(threshold) => if threshold.threshold_source == ThresholdSource::Manual {
            CalibrationReportStatus::NotApplicable
        } else {
            match inspection {
                Ok(CalibrationArtifactStatus::Complete) => CalibrationReportStatus::Complete,
                Ok(CalibrationArtifactStatus::Stale(reason)) => CalibrationReportStatus::Stale {
                    reason,
                },
                Err(_) => CalibrationReportStatus::NotConfigured,
            }
        },
    }
}

/// What a report says about the use of a threshold, and the level in effect. A
/// threshold set by hand counts for the input it was set for. One that was
/// calibrated counts while the profile captures that input, and the store of
/// calibrations agrees.
pub open spec fn evaluation(
    threshold: Option<ThresholdView>,
    input_id: Seq<char>,
    matches: Option<bool>,
    validity: Result<CalibrationValidity, LambError>,
) -> (CalibrationEvaluation, Option<u64>) {
    match threshold {
        None => (CalibrationEvaluation::NotResolved, None),
        Some(threshold) => if threshold.threshold_source == ThresholdSource::Manual {
            if threshold.input_id == input_id {
                (CalibrationEvaluation::Valid, Some(threshold.threshold_bits))
            } else {
                (CalibrationEvaluation::Stale { reason: StaleReason::InputMismatch }, None)
            }
        } else if matches is None {
            (CalibrationEvaluation::NotResolved, None)
        } else if matches == Some(false) {
            (CalibrationEvaluation::Stale { reason: StaleReason::InputMismatch }, None)
        } else {
            match validity {
                Ok(CalibrationValidity::Valid) => (
                    CalibrationEvaluation::Valid,
                    Some(threshold.threshold_bits),
                ),
                Ok(CalibrationValidity::Stale(reason)) => (
                    CalibrationEvaluation::Stale { reason },
                    None,
                ),
                Err(_) => (CalibrationEvaluation::NotResolved, None),
            }
        },
    }
}

/// The session that a report speaks of: the one that captures the profile.
pub open spec fn reported_session<S>(
    profile_name: Seq<char>,
    active_profile: Option<ResolvedProfile>,
    session: Option<CaptureSession<S>>,
) -> Option<CaptureSession<S>> {
    if is_active(profile_name, active_profile) && session is Some && session->0.profile_name@
        == profile_name {
        session
    } else {
        None
    }
}

/// Whether the profile is the active one.
pub open spec fn is_active(
    profile_name: Seq<char>,
    active_profile: Option<ResolvedProfile>,
) -> bool {
    active_profile is Some && active_profile->0.name@ == profile_name
}

/// Whether the session has the configured input at the given place; nothing is
/// said where nothing is captured.
pub open spec fn identity_matches<S>(
    session: Option<CaptureSession<S>>,
    index: int,
    input: ConfiguredView,
) -> Option<bool> {
    match session {
        Some(session) => Some(
            index < session.configured_inputs@.len() && session.configured_inputs@[index]@ == input,
        ),
        None => None,
    }
}

/// The live input that the session has at the given place.
pub open spec fn live_at<S>(session: Option<CaptureSession<S>>, index: int) -> Option<LiveView> {
    match session {
        Some(session) => if index < session.resolved_live_inputs@.len() {
            live_of(session.resolved_live_inputs@[index])
        } else {
            None
        },
        None => None,
    }
}

/// The error that keeps one channel from being reported, if any.
pub open spec fn channel_error<S>(
    profile: ProfileView,
    resolved: ResolvedProfile,
    session: Option<CaptureSession<S>>,
    evidence: Seq<ChannelEvidence>,
    index: int,
) -> Option<ErrorView> {
    let threshold = profile.threshold(resolved.ports@[index].name@);
    match configured(resolved, resolved.ports@[index].name@) {
        Err(error) => Some(error),
        Ok(input) => if evidence[index].input_id is Err {
            Some(evidence[index].input_id->Err_0@)
        } else if needs_inspection(threshold) && evidence[index].inspection is Err {
            Some(evidence[index].inspection->Err_0@)
        } else if needs_validation(threshold, identity_matches(session, index, input))
            && evidence[index].validity is Err {
            Some(evidence[index].validity->Err_0@)
        } else {
            None
        },
    }
}

/// Whether this is what clients are told about the channel at the given place.
pub open spec fn channel_report_is<S>(
    report: ThresholdChannelReport,
    profile: ProfileView,
    resolved: ResolvedProfile,
    session: Option<CaptureSession<S>>,
    evidence: Seq<ChannelEvidence>,
    versions: DetectorVersions,
    now: u64,
    index: int,
) -> bool {
    let port = resolved.ports@[index];
    let input = configured(resolved, port.name@)->Ok_0;
    let threshold = profile.threshold(port.name@);
    let matches = identity_matches(session, index, input);
    &&& configured(resolved, port.name@) is Ok
    &&& evidence[index].input_id is Ok
    &&& report.channel@ == port.name@
    &&& report.detector == resolved.export_policy.activity.detector
    &&& report.detector_version@ == versions.version_of(
        resolved.export_policy.activity.detector,
    )
    &&& report.configured_input.backend == input.backend
    &&& report.configured_input.selector@ == input.selector
    &&& report.configured_input.source@ == input.source
    &&& report.configured_input.input_id@ == evidence[index].input_id->Ok_0@
    &&& stored_report_is(report.stored, threshold, now)
    &&& report.artifact_status == artifact_report(threshold, evidence[index].inspection)
    &&& live_of(report.current_live_identity) == live_at(session, index)
    &&& report.configured_identity_matches == matches
    &&& (report.calibration_evaluation, report.effective_threshold_bits) == evaluation(
        threshold,
        evidence[index].input_id->Ok_0@,
        matches,
        evidence[index].validity,
    )
}

/// Whether the detector of a profile is one that thresholds work with.
pub open spec fn detector_supported(detector: ActivityDetectorKind) -> bool {
    detector == ActivityDetectorKind::ExactZero || detector == ActivityDetectorKind::WindowedRmsPeak
}

/// The error about a profile that there is not.
pub open spec fn no_such_profile(profile: Seq<char>) -> ErrorView {
    ErrorView::Config("profile "@ + profile + " does not exist"@)
}

/// Finds a profile of a configuration.
pub fn find_profile<'a>(config: &'a AppConfig, name: &String) -> (profile: Result<
    &'a ProfileConfig,
    LambError,
>)
    ensures
        match profile {
            Ok(profile) => config@.has_profile(name@) && profile@ == config@.profile(name@),
            Err(error) => !config@.has_profile(name@) && error@ == no_such_profile(name@),
        },
{
    match config.profile_index(name) {
        Some(index) => Ok(&config.profiles[index]),
        None => {
            let message = join("profile ", name.as_str());
            Err(LambError::Config(join(message.as_str(), " does not exist")))
        },
    }
}

fn stored_report(threshold: Option<&ActivityThresholdConfig>, now: u64) -> (report: Option<
    StoredThresholdReport,
>)
    ensures
        stored_report_is(
            report,
            match threshold {
                Some(threshold) => Some(threshold@),
                None => None,
            },
            now,
        ),
{
    match threshold {
        Some(threshold) => Some(
            StoredThresholdReport {
                threshold_bits: threshold.threshold_bits,
                source: threshold.threshold_source,
                updated_at_unix_seconds: threshold.updated_at_unix_seconds,
                age_seconds: now.checked_sub(threshold.updated_at_unix_seconds),
                calibration_id: copy_text(&threshold.calibration_id),
            },
        ),
        None => None,
    }
}

/// Reports one channel.
fn channel_report<S>(
    profile: &ProfileConfig,
    resolved: &ResolvedProfile,
    session: Option<&CaptureSession<S>>,
    evidence: &Vec<ChannelEvidence>,
    versions: &DetectorVersions,
    now: u64,
    index: usize,
) -> (report: Result<ThresholdChannelReport, LambError>)
    requires
        index < resolved.ports.len(),
        evidence.len() == resolved.ports.len(),
    ensures
        ({
            let seen = match session {
                Some(session) => Some(*session),
                None => None,
            };
            match report {
                Ok(report) => {
                    &&& channel_error(profile@, *resolved, seen, evidence@, index as int) is None
                    &&& channel_report_is(
                        report,
                        profile@,
                        *resolved,
                        seen,
                        evidence@,
                        *versions,
                        now,
                        index as int,
                    )
                },
                Err(error) => channel_error(profile@, *resolved, seen, evidence@, index as int)
                    == Some(error@),
            }
        }),
{
    let port = &resolved.ports[index];
    let known = &evidence[index];
    let (refusal, input_id) = match &known.input_id {
        Ok(input_id) => (None, input_id.clone()),
        Err(refusal) => (Some(refusal.duplicate()), String::new()),
    };
    let input = match configured_identity(resolved, &port.name, refusal) {
        Ok(input) => input,
        Err(error) => {
            return Err(error);
        },
    };
    let threshold = profile.threshold_of(&port.name);
    let stored = stored_report(threshold, now);
    let artifact_status = match threshold {
        None => CalibrationReportStatus::NotConfigured,
        Some(threshold) => match threshold.threshold_source {
            ThresholdSource::Manual => CalibrationReportStatus::NotApplicable,
            ThresholdSource::Calibrated => match &known.inspection {
                Err(error) => {
                    return Err(error.duplicate());
                },
                Ok(CalibrationArtifactStatus::Complete) => CalibrationReportStatus::Complete,
                Ok(CalibrationArtifactStatus::Stale(reason)) => CalibrationReportStatus::Stale {
                    reason: reason.duplicate(),
                },
            },
        },
    };
    let matches = match session {
        Some(session) => Some(
            index < session.configured_inputs.len() && session.configured_inputs[index].same(
                &input,
            ),
        ),
        None => None,
    };
    let current_live_identity = match session {
        Some(session) => if index < session.resolved_live_inputs.len() {
            match &session.resolved_live_inputs[index] {
                Some(live) => Some(live.duplicate()),
                None => None,
            }
        } else {
            None
        },
        None => None,
    };
    let (calibration_evaluation, effective_threshold_bits) = match threshold {
        None => (CalibrationEvaluation::NotResolved, None),
        Some(threshold) => match threshold.threshold_source {
            ThresholdSource::Manual => {
                if threshold.input_id == input_id {
                    (CalibrationEvaluation::Valid, Some(threshold.threshold_bits))
                } else {
                    (CalibrationEvaluation::Stale { reason: StaleReason::InputMismatch }, None)
                }
            },
            ThresholdSource::Calibrated => match matches {
                None => (CalibrationEvaluation::NotResolved, None),
                Some(false) => (
                    CalibrationEvaluation::Stale { reason: StaleReason::InputMismatch },
                    None,
                ),
                Some(true) => match &known.validity {
                    Err(error) => {
                        return Err(error.duplicate());
                    },
                    Ok(CalibrationValidity::Valid) => (
                        CalibrationEvaluation::Valid,
                        Some(threshold.threshold_bits),
                    ),
                    Ok(CalibrationValidity::Stale(reason)) => (
                        CalibrationEvaluation::Stale { reason: reason.duplicate() },
                        None,
                    ),
                },
            },
        },
    };
    Ok(
        ThresholdChannelReport {
            channel: port.name.clone(),
            detector: resolved.export_policy.activity.detector,
            detector_version: versions.version(resolved.export_policy.activity.detector),
            configured_input: ConfiguredInputReport {
                backend: input.backend,
                selector: input.selector,
                source: input.source,
                input_id,
            },
            stored,
            artifact_status,
            current_live_identity,
            configured_identity_matches: matches,
            calibration_evaluation,
            effective_threshold_bits,
        },
    )
}

/// Whether this is what clients are told about the thresholds of a profile.
pub open spec fn report_is<S>(
    report: ThresholdReport,
    profile: ProfileView,
    profile_name: Seq<char>,
    resolved: ResolvedProfile,
    active_profile: Option<ResolvedProfile>,
    session: Option<CaptureSession<S>>,
    evidence: Seq<ChannelEvidence>,
    versions: DetectorVersions,
    now: u64,
) -> bool {
    let capturing = reported_session(profile_name, active_profile, session);
    &&& report.profile@ == profile_name
    &&& report.active_profile == is_active(profile_name, active_profile)
    &&& report.capturing == (capturing is Some)
    &&& report.message@ == "threshold report"@
    &&& report.channels@.len() == resolved.ports@.len()
    &&& forall|i: int|
        0 <= i < report.channels@.len() ==> channel_report_is(
            #[trigger] report.channels@[i],
            profile,
            resolved,
            capturing,
            evidence,
            versions,
            now,
            i,
        )
}

/// Whether this is the error that keeps a profile from being reported: that of
/// the detector, or of the first channel that cannot be reported.
pub open spec fn report_error_is<S>(
    error: ErrorView,
    profile: ProfileView,
    profile_name: Seq<char>,
    resolved: ResolvedProfile,
    active_profile: Option<ResolvedProfile>,
    session: Option<CaptureSession<S>>,
    evidence: Seq<ChannelEvidence>,
) -> bool {
    let capturing = reported_session(profile_name, active_profile, session);
    if !detector_supported(resolved.export_policy.activity.detector) {
        error == ErrorView::Validation(
            "resolved profile contains an unsupported activity detector"@,
        )
    } else {
        exists|i: int|
            #![trigger resolved.ports@[i]]
            {
                &&& 0 <= i < resolved.ports@.len()
                &&& channel_error(profile, resolved, capturing, evidence, i) == Some(error)
                &&& forall|j: int|
                    #![trigger resolved.ports@[j]]
                    0 <= j < i ==> channel_error(profile, resolved, capturing, evidence, j) is None
            }
    }
}

/// Whether a profile can be reported: its detector is one that thresholds work
/// with, and no channel has an error.
pub open spec fn reportable<S>(
    profile: ProfileView,
    profile_name: Seq<char>,
    resolved: ResolvedProfile,
    active_profile: Option<ResolvedProfile>,
    session: Option<CaptureSession<S>>,
    evidence: Seq<ChannelEvidence>,
) -> bool {
    let capturing = reported_session(profile_name, active_profile, session);
    &&& detector_supported(resolved.export_policy.activity.detector)
    &&& forall|i: int|
        #![trigger resolved.ports@[i]]
        0 <= i < resolved.ports@.len() ==> channel_error(
            profile,
            resolved,
            capturing,
            evidence,
            i,
        ) is None
}

/// Tells clients about the thresholds of a profile. `resolved` is the profile
/// with its settings resolved, `evidence` what is known of each of its ports.
pub fn threshold_report<S>(
    profile: &ProfileConfig,
    profile_name: &String,
    resolved: &ResolvedProfile,
    active_profile: Option<&ResolvedProfile>,
    session: Option<&CaptureSession<S>>,
    evidence: &Vec<ChannelEvidence>,
    versions: &DetectorVersions,
    now: u64,
) -> (report: Result<ThresholdReport, LambError>)
    requires
        evidence.len() == resolved.ports.len(),
    ensures
        match report {
            Ok(report) => {
                &&& reportable(
                    profile@,
                    profile_name@,
                    *resolved,
                    opt_deref(active_profile),
                    opt_deref(session),
                    evidence@,
                )
                &&& report_is(
                    report,
                    profile@,
                    profile_name@,
                    *resolved,
                    opt_deref(active_profile),
                    opt_deref(session),
                    evidence@,
                    *versions,
                    now,
                )
            },
            Err(error) => report_error_is(
                error@,
                profile@,
                profile_name@,
                *resolved,
                opt_deref(active_profile),
                opt_deref(session),
                evidence@,
            ),
        },
{
    let requested_active = match active_profile {
        Some(active) => active.name == *profile_name,
        None => false,
    };
    let capturing = match session {
        Some(session) => if requested_active && session.profile_name == *profile_name {
            Some(session)
        } else {
            None
        },
        None => None,
    };
    let supported = match resolved.export_policy.activity.detector {
        ActivityDetectorKind::ExactZero | ActivityDetectorKind::WindowedRmsPeak => true,
        ActivityDetectorKind::FixedLevel | ActivityDetectorKind::CalibratedNoiseFloor => false,
    };
    if !supported {
        return Err(
            LambError::Validation(
                "resolved profile contains an unsupported activity detector".to_string(),
            ),
        );
    }
    let ghost seen = reported_session(profile_name@, opt_deref(active_profile), opt_deref(session));
    proof {
        assert(seen == opt_deref(capturing));
    }
    let mut channels: Vec<ThresholdChannelReport> = Vec::new();
    let mut i: usize = 0;
    while i < resolved.ports.len()
        invariant
            i <= resolved.ports.len(),
            evidence.len() == resolved.ports.len(),
            channels.len() == i,
            seen == opt_deref(capturing),
            forall|j: int|
                0 <= j < i ==> channel_report_is(
                    #[trigger] channels@[j],
                    profile@,
                    *resolved,
                    seen,
                    evidence@,
                    *versions,
                    now,
                    j,
                ),
            forall|j: int|
                #![trigger resolved.ports@[j]]
                0 <= j < i ==> channel_error(profile@, *resolved, seen, evidence@, j) is None,
            detector_supported(resolved.export_policy.activity.detector),
            seen == reported_session(profile_name@, opt_deref(active_profile), opt_deref(session)),
        decreases resolved.ports.len() - i,
    {
        match channel_report(profile, resolved, capturing, evidence, versions, now, i) {
            Ok(report) => channels.push(report),
            Err(error) => {
                proof {
                    assert(resolved.ports@[i as int] == resolved.ports@[i as int]);
                }
                return Err(error);
            },
        }
        i = i + 1;
    }
    Ok(
        ThresholdReport {
            profile: profile_name.clone(),
            active_profile: requested_active,
            capturing: capturing.is_some(),
            channels,
            message: "threshold report".to_string(),
        },
    )
}

/// The value behind an optional reference.
pub open spec fn opt_deref<T>(value: Option<&T>) -> Option<T> {
    match value {
        Some(value) => Some(*value),
        None => None,
    }
}

/// Which parts of the store of calibrations a report asks about one channel.
#[derive(Debug, Clone, Copy, PartialEq, Eq, Structural)]
pub struct ChannelQuery {
    pub inspect: bool,
    pub validate: bool,
}

/// Tells which parts of the store of calibrations a report asks about one
/// channel whose input is known.
pub fn channel_query<S>(
    profile: &ProfileConfig,
    session: Option<&CaptureSession<S>>,
    input: &ConfiguredInputIdentity,
    index: usize,
) -> (query: ChannelQuery)
    ensures
        query.inspect == needs_inspection(profile@.threshold(input.name@)),
        query.validate == needs_validation(
            profile@.threshold(input.name@),
            identity_matches(opt_deref(session), index as int, input@),
        ),
{
    let calibrated = match profile.threshold_of(&input.name) {
        Some(threshold) => threshold.threshold_source == ThresholdSource::Calibrated,
        None => false,
    };
    let matches = match session {
        Some(session) => index < session.configured_inputs.len()
            && session.configured_inputs[index].same(input),
        None => false,
    };
    ChannelQuery { inspect: calibrated, validate: calibrated && matches }
}

/// Whether the rules of a policy and the channels of a report stand in the same
/// order under the same names.
pub open spec fn names_agree(
    policy: Seq<ActivityChannel>,
    report: Seq<ThresholdChannelReport>,
) -> bool {
    forall|i: int|
        0 <= i < policy.len() ==> (#[trigger] policy[i]).name@ == report[i].channel@
}

/// Whether these are the rules in effect: a channel whose threshold does not
/// count has none.
pub open spec fn rules_in_effect(
    effective: Seq<ActivityChannel>,
    policy: Seq<ActivityChannel>,
    report: Seq<ThresholdChannelReport>,
) -> bool {
    &&& effective.len() == policy.len()
    &&& forall|i: int|
        0 <= i < effective.len() ==> {
            &&& (#[trigger] effective[i]).name@ == policy[i].name@
            &&& effective[i].mode == policy[i].mode
            &&& effective[i].threshold == (if report[i].effective_threshold_bits is None {
                None
            } else {
                policy[i].threshold
            })
        }
}

/// Whether these are the activity rules in effect, in a policy that is otherwise
/// the given one.
pub open spec fn activity_in_effect(
    effective: ActivityPolicy,
    policy: ActivityPolicy,
    report: Seq<ThresholdChannelReport>,
) -> bool {
    &&& effective.detector == policy.detector
    &&& effective.whole_export_exact_zero_gate == policy.whole_export_exact_zero_gate
    &&& effective.trim_leading_silence == policy.trim_leading_silence
    &&& rules_in_effect(effective.channels@, policy.channels@, report)
}

/// The activity rules in effect, given the report on the thresholds behind them.
pub fn effective_activity(
    scope: &str,
    policy: &ActivityPolicy,
    report: &Vec<ThresholdChannelReport>,
) -> (effective: Result<ActivityPolicy, LambError>)
    ensures
        match effective {
            Ok(effective) => {
                &&& policy.channels.len() == report.len()
                &&& names_agree(policy.channels@, report@)
                &&& activity_in_effect(effective, *policy, report@)
            },
            Err(error) => if policy.channels.len() != report.len() {
                error@ == ErrorView::ControlInvariant(
                    scope@ + " activity policy/report channel count changed"@,
                )
            } else {
                &&& !names_agree(policy.channels@, report@)
                &&& error@ == ErrorView::ControlInvariant(
                    scope@ + " activity policy/report channel order changed"@,
                )
            },
        },
{
    if policy.channels.len() != report.len() {
        return Err(
            LambError::ControlInvariant(
                join(scope, " activity policy/report channel count changed"),
            ),
        );
    }
    let mut channels: Vec<ActivityChannel> = Vec::new();
    let mut i: usize = 0;
    while i < policy.channels.len()
        invariant
            i <= policy.channels.len(),
            policy.channels.len() == report.len(),
            channels.len() == i,
            forall|j: int|
                0 <= j < i ==> (#[trigger] policy.channels@[j]).name@ == report@[j].channel@,
            forall|j: int|
                0 <= j < i ==> {
                    &&& (#[trigger] channels@[j]).name@ == policy.channels@[j].name@
                    &&& channels@[j].mode == policy.channels@[j].mode
                    &&& channels@[j].threshold == (if report@[j].effective_threshold_bits is None {
                        None
                    } else {
                        policy.channels@[j].threshold
                    })
                },
        decreases policy.channels.len() - i,
    {
        let rule = &policy.channels[i];
        if rule.name != report[i].channel {
            proof {
                assert(policy.channels@[i as int].name@ != report@[i as int].channel@);
            }
            return Err(
                LambError::ControlInvariant(
                    join(scope, " activity policy/report channel order changed"),
                ),
            );
        }
        let mut in_effect = rule.duplicate();
        if report[i].effective_threshold_bits.is_none() {
            in_effect.threshold = None;
        }
        channels.push(in_effect);
        i = i + 1;
    }
    Ok(
        ActivityPolicy {
            detector: policy.detector,
            channels,
            whole_export_exact_zero_gate: policy.whole_export_exact_zero_gate,
            trim_leading_silence: policy.trim_leading_silence,
        },
    )
}

/// The bit pattern of the number 120.
pub const LOWEST_LEVEL_BITS: u64 = 0x405E_0000_0000_0000;

/// Whether a bit pattern stands for a level from minus 120 decibels up to zero.
/// In the encoding of 64-bit floating-point numbers the highest bit is the sign,
/// and the others grow with the magnitude, up to and beyond infinity.
pub open spec fn level_in_range(bits: u64) -> bool {
    bits == 0 || (bits >= SIGN_BIT && bits - SIGN_BIT <= LOWEST_LEVEL_BITS)
}

/// Checks the level of a threshold that is to be set.
pub fn check_level(bits: u64) -> (checked: Result<(), LambError>)
    ensures
        match checked {
            Ok(()) => level_in_range(bits),
            Err(error) => !level_in_range(bits) && error@ == ErrorView::Validation(
                "threshold dBFS must be finite and within [-120.0, 0.0]"@,
            ),
        },
{
    if bits == 0 || (bits >= SIGN_BIT && bits - SIGN_BIT <= LOWEST_LEVEL_BITS) {
        Ok(())
    } else {
        Err(
            LambError::Validation(
                "threshold dBFS must be finite and within [-120.0, 0.0]".to_string(),
            ),
        )
    }
}

/// The threshold that setting a level by hand stores. It keeps the calibration
/// of the threshold before it, where that was for the same input.
pub open spec fn manual_threshold(
    previous: Option<ThresholdView>,
    level: Option<u64>,
    input_id: Seq<char>,
    now: u64,
) -> Option<ThresholdView> {
    match level {
        Some(threshold_bits) => Some(
            ThresholdView {
                threshold_bits,
                threshold_source: ThresholdSource::Manual,
                updated_at_unix_seconds: now,
                input_id,
                calibration_id: if previous is Some && previous->0.input_id == input_id {
                    previous->0.calibration_id
                } else {
                    None
                },
            },
        ),
        None => None,
    }
}

/// The configuration with the threshold of a channel set by hand, or taken away.
pub fn manual_candidate(
    config: &AppConfig,
    profile_name: &String,
    channel: &String,
    level: Option<u64>,
    input_id: &String,
    now: u64,
) -> (candidate: AppConfig)
    ensures
        candidate@ == config@.with_threshold(
            profile_name@,
            channel@,
            manual_threshold(
                config@.threshold(profile_name@, channel@),
                level,
                input_id@,
                now,
            ),
        ),
{
    let calibration_id = match config.threshold_of(profile_name, channel) {
        Some(previous) => if previous.input_id == *input_id {
            copy_text(&previous.calibration_id)
        } else {
            None
        },
        None => None,
    };
    let activity = match level {
        Some(threshold_bits) => Some(
            ActivityThresholdConfig {
                threshold_bits,
                threshold_source: ThresholdSource::Manual,
                updated_at_unix_seconds: now,
                input_id: input_id.clone(),
                calibration_id,
            },
        ),
        None => None,
    };
    let mut candidate = config.duplicate();
    candidate.set_threshold_of(profile_name, channel, activity);
    candidate
}

/// The configuration with the threshold of a channel as it was calibrated.
pub fn calibrated_candidate(
    config: &AppConfig,
    profile_name: &String,
    channel: &String,
    threshold_bits: u64,
    input_id: &String,
    calibration_id: &String,
    created_at: u64,
) -> (candidate: AppConfig)
    ensures
        candidate@ == config@.with_threshold(
            profile_name@,
            channel@,
            Some(
                ThresholdView {
                    threshold_bits,
                    threshold_source: ThresholdSource::Calibrated,
                    updated_at_unix_seconds: created_at,
                    input_id: input_id@,
                    calibration_id: Some(calibration_id@),
                },
            ),
        ),
{
    let mut candidate = config.duplicate();
    candidate.set_threshold_of(
        profile_name,
        channel,
        Some(
            ActivityThresholdConfig {
                threshold_bits,
                threshold_source: ThresholdSource::Calibrated,
                updated_at_unix_seconds: created_at,
                input_id: input_id.clone(),
                calibration_id: Some(calibration_id.clone()),
            },
        ),
    );
    candidate
}

/// The calibration that a new one of the same channel takes the place of: the
/// input it was for, and its name.
pub fn previous_generation(config: &AppConfig, profile_name: &String, channel: &String) -> (previous:
    Option<(String, String)>)
    ensures
        ({
            let threshold = config@.threshold(profile_name@, channel@);
            match previous {
                Some((input_id, calibration_id)) => {
                    &&& threshold is Some
                    &&& threshold->0.input_id == input_id@
                    &&& threshold->0.calibration_id == Some(calibration_id@)
                },
                None => threshold is None || threshold->0.calibration_id is None,
            }
        }),
{
    match config.threshold_of(profile_name, channel) {
        Some(threshold) => match &threshold.calibration_id {
            Some(calibration_id) => Some((threshold.input_id.clone(), calibration_id.clone())),
            None => None,
        },
        None => None,
    }
}

impl<B, S> RuntimeView<B, S> {
    /// Whether the profile is active.
    pub open spec fn profile_active(self, profile_name: Seq<char>) -> bool {
        is_active(profile_name, self.active_profile)
    }

    /// Whether the session captures the profile.
    pub open spec fn captures_profile(self, profile_name: Seq<char>) -> bool {
        reported_session(profile_name, self.active_profile, self.session) is Some
    }

    /// The state after a changed threshold was taken into use: the configuration
    /// is the new one, and where the profile is active so are its settings and
    /// the rules of its session.
    pub open spec fn with_config(
        self,
        profile_name: Seq<char>,
        config: AppConfig,
        resolved: ResolvedProfile,
        effective: ActivityPolicy,
    ) -> RuntimeView<B, S> {
        RuntimeView {
            config,
            active_profile: if self.profile_active(profile_name) {
                Some(resolved)
            } else {
                self.active_profile
            },
            session: if self.captures_profile(profile_name) {
                Some(
                    CaptureSession {
                        policy: ResolvedExportPolicy {
                            activity: effective,
                            ..self.session->0.policy
                        },
                        ..self.session->0
                    },
                )
            } else {
                self.session
            },
            ..self
        }
    }
}

/// Takes a changed threshold into use, once the configuration with it was
/// written down.
pub fn install_threshold<B, S>(
    ctx: &mut IdleDaemonContext<B, S>,
    profile_name: &String,
    candidate: AppConfig,
    resolved: ResolvedProfile,
    effective: ActivityPolicy,
)
    ensures
        final(ctx)@ == (ContextView {
            runtime: old(ctx)@.runtime.with_config(profile_name@, candidate, resolved, effective),
            ..old(ctx)@
        }),
{
    let active = match &ctx.runtime.active_profile {
        Some(profile) => profile.name == *profile_name,
        None => false,
    };
    if active {
        if let Some(mut session) = ctx.runtime.session.take() {
            if session.profile_name == *profile_name {
                session.policy.activity = effective;
            }
            ctx.runtime.session = Some(session);
        }
        ctx.runtime.active_profile = Some(resolved);
    }
    ctx.runtime.config = candidate;
}

/// A changed threshold that is ready to be written down and taken into use.
#[derive(Debug, Clone, PartialEq, Eq)]
pub struct PreparedThreshold {
    pub candidate: AppConfig,
    pub resolved: ResolvedProfile,
    pub report: ThresholdReport,
    pub effective: ActivityPolicy,
    /// The calibrations that are still referred to, where the others are to be
    /// cleaned up.
    pub references: Option<Vec<(String, String)>>,
}

/// Takes the outcome of writing down the configuration with a changed threshold.
/// Where it was written, the threshold is taken into use, and the report on it is
/// handed out with the calibrations that are still referred to, where the others
/// are to be cleaned up. Where it was not, nothing changes and nothing is cleaned
/// up.
pub fn threshold_saved<B, S>(
    ctx: &mut IdleDaemonContext<B, S>,
    profile_name: &String,
    prepared: PreparedThreshold,
    saved: Result<(), LambError>,
) -> (done: Result<(ThresholdReport, Option<Vec<(String, String)>>), LambError>)
    ensures
        match saved {
            Ok(()) => {
                &&& final(ctx)@ == (ContextView {
                    runtime: old(ctx)@.runtime.with_config(
                        profile_name@,
                        prepared.candidate,
                        prepared.resolved,
                        prepared.effective,
                    ),
                    ..old(ctx)@
                })
                &&& done == Ok::<_, LambError>((prepared.report, prepared.references))
            },
            Err(error) => {
                &&& final(ctx)@ == old(ctx)@
                &&& done == Err::<(ThresholdReport, Option<Vec<(String, String)>>), _>(error)
            },
        },
{
    match saved {
        Ok(()) => {
            install_threshold(
                ctx,
                profile_name,
                prepared.candidate,
                prepared.resolved,
                prepared.effective,
            );
            Ok((prepared.report, prepared.references))
        },
        Err(error) => Err(error),
    }
}

/// Whether a list holds exactly the calibrations that a configuration refers to.
pub open spec fn are_references(references: Seq<(String, String)>, config: ConfigView) -> bool {
    &&& no_repeats(references)
    &&& forall|input_id: Seq<char>, calibration_id: Seq<char>| #[trigger]
        lists(references, input_id, calibration_id) <==> config.refers_to(input_id, calibration_id)
}

/// Begins to change a threshold of a profile.
pub fn begin_threshold_change<'a, B, S>(
    ctx: &'a IdleDaemonContext<B, S>,
    profile_name: &String,
) -> (profile: Result<&'a ProfileConfig, LambError>)
    ensures
        match profile {
            Ok(profile) => {
                &&& !ctx.runtime_poisoned
                &&& ctx.runtime.config@.has_profile(profile_name@)
                &&& profile@ == ctx.runtime.config@.profile(profile_name@)
            },
            Err(error) => if ctx.runtime_poisoned {
                error@ == ErrorView::Control("runtime state lock poisoned"@)
            } else {
                &&& !ctx.runtime.config@.has_profile(profile_name@)
                &&& error@ == no_such_profile(profile_name@)
            },
        },
{
    if ctx.runtime_poisoned {
        return Err(LambError::Control("runtime state lock poisoned".to_string()));
    }
    find_profile(&ctx.runtime.config, profile_name)
}

/// The configuration that a threshold set by hand, or taken away, leads to. The
/// channel has to be one of the resolved profile; `input_id` is the identity of
/// its input, or why the input is refused.
pub fn threshold_candidate(
    config: &AppConfig,
    profile_name: &String,
    channel: &String,
    resolved: &ResolvedProfile,
    level: Option<u64>,
    input_id: Result<String, LambError>,
    now: u64,
) -> (candidate: Result<AppConfig, LambError>)
    ensures
        match candidate {
            Ok(candidate) => {
                &&& configured(*resolved, channel@) is Ok
                &&& input_id is Ok
                &&& candidate@ == config@.with_threshold(
                    profile_name@,
                    channel@,
                    manual_threshold(
                        config@.threshold(profile_name@, channel@),
                        level,
                        input_id->Ok_0@,
                        now,
                    ),
                )
            },
            Err(error) => match configured(*resolved, channel@) {
                Err(refusal) => error@ == refusal,
                Ok(_) => input_id is Err && error@ == input_id->Err_0@,
            },
        },
{
    let (refusal, input_id) = match input_id {
        Ok(input_id) => (None, input_id),
        Err(refusal) => (Some(refusal), String::new()),
    };
    match configured_identity(resolved, channel, refusal) {
        Ok(_) => Ok(manual_candidate(config, profile_name, channel, level, &input_id, now)),
        Err(error) => Err(error),
    }
}

impl<B, S> RuntimeView<B, S> {
    /// The profile that a report on a changed threshold takes for the active one.
    pub open spec fn profile_after_change(
        self,
        profile_name: Seq<char>,
        resolved: ResolvedProfile,
    ) -> Option<ResolvedProfile> {
        if self.profile_active(profile_name) {
            Some(resolved)
        } else {
            self.active_profile
        }
    }

    /// The session that a report on a changed threshold takes for the capturing
    /// one.
    pub open spec fn session_after_change(self, profile_name: Seq<char>) -> Option<
        CaptureSession<S>,
    > {
        if self.captures_profile(profile_name) {
            self.session
        } else {
            None
        }
    }
}

/// Whether the rules of a profile stand in the order of its ports.
pub open spec fn rules_follow_ports(resolved: ResolvedProfile) -> bool {
    forall|i: int|
        0 <= i < resolved.export_policy.activity.channels@.len() ==> (
        #[trigger] resolved.export_policy.activity.channels@[i]).name@ == resolved.ports@[i].name@
}

/// The error about an export policy that someone failed on.
pub open spec fn policy_poison_error() -> ErrorView {
    ErrorView::Control("session export policy lock poisoned"@)
}

impl<B, S> ContextView<B, S> {
    /// Whether a profile can be reported as it is after a change of its thresholds.
    pub open spec fn change_reportable(
        self,
        profile_name: Seq<char>,
        candidate: ConfigView,
        resolved: ResolvedProfile,
        evidence: Seq<ChannelEvidence>,
    ) -> bool {
        reportable(
            candidate.profile(profile_name),
            profile_name,
            resolved,
            self.runtime.profile_after_change(profile_name, resolved),
            self.runtime.session_after_change(profile_name),
            evidence,
        )
    }

    /// Whether the export policy that a change would go to is one that someone
    /// failed on.
    pub open spec fn change_meets_poison(self, profile_name: Seq<char>) -> bool {
        let session = self.runtime.session_after_change(profile_name);
        session is Some && session->0.policy_poisoned
    }

    /// Whether this is a change of a threshold that is ready to be written down:
    /// reported as if it were in use, with the rules that would be in effect.
    pub open spec fn change_prepared(
        self,
        prepared: PreparedThreshold,
        profile_name: Seq<char>,
        candidate: ConfigView,
        resolved: ResolvedProfile,
        evidence: Seq<ChannelEvidence>,
        versions: DetectorVersions,
        now: u64,
        clean_up: bool,
    ) -> bool {
        &&& candidate.has_profile(profile_name)
        &&& prepared.candidate@ == candidate
        &&& prepared.resolved == resolved
        &&& self.change_reportable(profile_name, candidate, resolved, evidence)
        &&& report_is(
            prepared.report,
            candidate.profile(profile_name),
            profile_name,
            resolved,
            self.runtime.profile_after_change(profile_name, resolved),
            self.runtime.session_after_change(profile_name),
            evidence,
            versions,
            now,
        )
        &&& resolved.export_policy.activity.channels@.len() == resolved.ports@.len()
        &&& rules_follow_ports(resolved)
        &&& !self.change_meets_poison(profile_name)
        &&& activity_in_effect(
            prepared.effective,
            resolved.export_policy.activity,
            prepared.report.channels@,
        )
        &&& match prepared.references {
            Some(references) => clean_up && are_references(references@, candidate),
            None => !clean_up,
        }
    }

    /// Whether this is the error that keeps a change of a threshold from being
    /// prepared.
    pub open spec fn change_error_is(
        self,
        error: ErrorView,
        profile_name: Seq<char>,
        candidate: ConfigView,
        resolved: ResolvedProfile,
        evidence: Seq<ChannelEvidence>,
    ) -> bool {
        if !candidate.has_profile(profile_name) {
            error == no_such_profile(profile_name)
        } else if !self.change_reportable(profile_name, candidate, resolved, evidence) {
            report_error_is(
                error,
                candidate.profile(profile_name),
                profile_name,
                resolved,
                self.runtime.profile_after_change(profile_name, resolved),
                self.runtime.session_after_change(profile_name),
                evidence,
            )
        } else if resolved.export_policy.activity.channels@.len() != resolved.ports@.len() {
            error == ErrorView::ControlInvariant(
                "candidate"@ + " activity policy/report channel count changed"@,
            )
        } else if !rules_follow_ports(resolved) {
            error == ErrorView::ControlInvariant(
                "candidate"@ + " activity policy/report channel order changed"@,
            )
        } else {
            self.change_meets_poison(profile_name) && error == policy_poison_error()
        }
    }
}

/// Prepares a changed threshold: reports on it as if it were in use, and works
/// out which rules would be in effect.
pub fn prepare_threshold_change<B, S>(
    ctx: &IdleDaemonContext<B, S>,
    profile_name: &String,
    candidate: AppConfig,
    resolved: ResolvedProfile,
    evidence: &Vec<ChannelEvidence>,
    versions: &DetectorVersions,
    now: u64,
    clean_up: bool,
) -> (prepared: Result<PreparedThreshold, LambError>)
    requires
        evidence.len() == resolved.ports.len(),
    ensures
        match prepared {
            Ok(prepared) => {
                &&& prepared.candidate == candidate
                &&& ctx@.change_prepared(
                    prepared,
                    profile_name@,
                    candidate@,
                    resolved,
                    evidence@,
                    *versions,
                    now,
                    clean_up,
                )
            },
            Err(error) => ctx@.change_error_is(
                error@,
                profile_name@,
                candidate@,
                resolved,
                evidence@,
            ),
        },
{
    let requested_active = match &ctx.runtime.active_profile {
        Some(profile) => profile.name == *profile_name,
        None => false,
    };
    let active = if requested_active {
        Some(&resolved)
    } else {
        ctx.runtime.active_profile.as_ref()
    };
    let session = match &ctx.runtime.session {
        Some(session) => if requested_active && session.profile_name == *profile_name {
            Some(session)
        } else {
            None
        },
        None => None,
    };
    proof {
        assert(opt_deref(active) == ctx@.runtime.profile_after_change(profile_name@, resolved));
        assert(opt_deref(session) == ctx@.runtime.session_after_change(profile_name@));
    }
    let profile = match find_profile(&candidate, profile_name) {
        Ok(profile) => profile,
        Err(error) => {
            return Err(error);
        },
    };
    let report = match threshold_report(
        profile,
        profile_name,
        &resolved,
        active,
        session,
        evidence,
        versions,
        now,
    ) {
        Ok(report) => report,
        Err(error) => {
            return Err(error);
        },
    };
    let effective = match effective_activity("candidate", &resolved.export_policy.activity, &report.channels) {
        Ok(effective) => effective,
        Err(error) => {
            proof {
                if resolved.export_policy.activity.channels.len() == resolved.ports.len() && rules_follow_ports(
                    resolved,
                ) {
                    assert(names_agree(resolved.export_policy.activity.channels@, report.channels@));
                }
            }
            return Err(error);
        },
    };
    proof {
        assert forall|i: int| 0 <= i < resolved.export_policy.activity.channels@.len() implies (
        #[trigger] resolved.export_policy.activity.channels@[i]).name@ == resolved.ports@[i].name@ by {
            assert(report.channels@[i].channel@ == resolved.ports@[i].name@);
        }
    }
    if let Some(session) = session {
        if session.policy_poisoned {
            return Err(LambError::Control("session export policy lock poisoned".to_string()));
        }
    }
    let references = if clean_up {
        Some(calibration_references(&candidate))
    } else {
        None
    };
    Ok(PreparedThreshold { candidate, resolved, report, effective, references })
}

impl<B, S> ContextView<B, S> {
    /// Why a threshold cannot be set by hand, or taken away, before it is reported
    /// on, if so. `resolved` is the profile as it is, `validated` the one that the
    /// changed configuration makes.
    pub open spec fn manual_refusal(
        self,
        profile_name: Seq<char>,
        channel: Seq<char>,
        resolved: Result<ResolvedProfile, LambError>,
        input_id: Result<String, LambError>,
        validated: Result<ResolvedProfile, LambError>,
    ) -> Option<ErrorView> {
        if self.runtime_poisoned {
            Some(ErrorView::Control("runtime state lock poisoned"@))
        } else if !self.runtime.config@.has_profile(profile_name) {
            Some(no_such_profile(profile_name))
        } else {
            match resolved {
                Err(error) => Some(error@),
                Ok(resolved) => match configured(resolved, channel) {
                    Err(error) => Some(error),
                    Ok(_) => match input_id {
                        Err(error) => Some(error@),
                        Ok(_) => match validated {
                            Err(error) => Some(error@),
                            Ok(_) => None,
                        },
                    },
                },
            }
        }
    }
}

/// Prepares a threshold that is set by hand, or taken away, from the state as it
/// is to what is written down. `resolved` is the profile as it is, `validated` what
/// checking the changed configuration came to, with the profile that it makes.
/// Calibrations are cleaned up exactly where a threshold is taken away.
pub fn prepare_manual_threshold<B, S>(
    ctx: &IdleDaemonContext<B, S>,
    profile_name: &String,
    channel: &String,
    resolved: Result<ResolvedProfile, LambError>,
    level: Option<u64>,
    input_id: Result<String, LambError>,
    validated: Result<ResolvedProfile, LambError>,
    evidence: &Vec<ChannelEvidence>,
    versions: &DetectorVersions,
    now: u64,
) -> (prepared: Result<PreparedThreshold, LambError>)
    requires
        validated is Ok ==> evidence.len() == validated->Ok_0.ports.len(),
    ensures
        ({
            let config = ctx@.runtime.config@;
            let candidate = config.with_threshold(
                profile_name@,
                channel@,
                manual_threshold(
                    config.threshold(profile_name@, channel@),
                    level,
                    input_id->Ok_0@,
                    now,
                ),
            );
            match ctx@.manual_refusal(profile_name@, channel@, resolved, input_id, validated) {
                Some(refusal) => prepared is Err && prepared->Err_0@ == refusal,
                None => match prepared {
                    Ok(prepared) => ctx@.change_prepared(
                        prepared,
                        profile_name@,
                        candidate,
                        validated->Ok_0,
                        evidence@,
                        *versions,
                        now,
                        level is None,
                    ),
                    Err(error) => ctx@.change_error_is(
                        error@,
                        profile_name@,
                        candidate,
                        validated->Ok_0,
                        evidence@,
                    ),
                },
            }
        }),
{
    if let Err(error) = begin_threshold_change(ctx, profile_name) {
        return Err(error);
    }
    let resolved = match resolved {
        Ok(resolved) => resolved,
        Err(error) => {
            return Err(error);
        },
    };
    let candidate = match threshold_candidate(
        &ctx.runtime.config,
        profile_name,
        channel,
        &resolved,
        level,
        input_id,
        now,
    ) {
        Ok(candidate) => candidate,
        Err(error) => {
            return Err(error);
        },
    };
    match validated {
        Ok(validated) => prepare_threshold_change(
            ctx,
            profile_name,
            candidate,
            validated,
            evidence,
            versions,
            now,
            level.is_none(),
        ),
        Err(error) => Err(error),
    }
}

/// What a measurement came to: the level, and the names and time under which its
/// calibration is kept.
#[derive(Debug, Clone, PartialEq, Eq)]
pub struct MeasuredThreshold {
    pub threshold_bits: u64,
    pub input_id: String,
    pub calibration_id: String,
    pub created_at: u64,
}

impl MeasuredThreshold {
    /// The threshold that the measurement stores.
    pub open spec fn stored(self) -> ThresholdView {
        ThresholdView {
            threshold_bits: self.threshold_bits,
            threshold_source: ThresholdSource::Calibrated,
            updated_at_unix_seconds: self.created_at,
            input_id: self.input_id@,
            calibration_id: Some(self.calibration_id@),
        }
    }
}

/// What a look at the calibration came to that a new one takes the place of.
#[derive(Debug, Clone, PartialEq, Eq)]
pub enum GenerationLook {
    Recorded,
    /// It is gone already.
    Missing,
    Failed(LambError),
}

impl<B, S> ContextView<B, S> {
    /// The calibration that a new one of the measured channel takes the place of:
    /// the input it was for, and its name.
    pub open spec fn replaced_generation(self, target: SessionCalibrationTarget) -> Option<
        (Seq<char>, Seq<char>),
    > {
        match self.runtime.config@.threshold(
            target.active_profile.name@,
            target.configured.name@,
        ) {
            Some(threshold) => match threshold.calibration_id {
                Some(calibration_id) => Some((threshold.input_id, calibration_id)),
                None => None,
            },
            None => None,
        }
    }

    /// Why a measured threshold cannot be taken, before it is reported on, if so:
    /// what was measured is no longer there, the calibration before it cannot be
    /// looked at, or the changed configuration is refused.
    pub open spec fn calibrated_refusal(
        self,
        target: SessionCalibrationTarget,
        look: GenerationLook,
        validated: Result<ResolvedProfile, LambError>,
    ) -> Option<ErrorView> {
        if !self.serves(target) {
            Some(ErrorView::CaptureInvariant("calibration target changed before commit"@))
        } else if self.replaced_generation(target) is Some && look is Failed {
            Some(look->Failed_0@)
        } else if !self.runtime.config@.has_profile(target.active_profile.name@) {
            Some(no_such_profile(target.active_profile.name@))
        } else {
            match validated {
                Err(error) => Some(error@),
                Ok(_) => None,
            }
        }
    }
}

/// Prepares a measured threshold, from the state as it is to what is written down;
/// refused where what was measured is no longer there. `look` is what a look at the
/// calibration before it came to, where there is one, `validated` what checking the
/// changed configuration came to, with the profile that it makes. Hands out the
/// calibration before it as well, where it is to be removed.
pub fn prepare_calibrated_threshold<B, S>(
    ctx: &IdleDaemonContext<B, S>,
    target: &SessionCalibrationTarget,
    measured: &MeasuredThreshold,
    look: GenerationLook,
    validated: Result<ResolvedProfile, LambError>,
    evidence: &Vec<ChannelEvidence>,
    versions: &DetectorVersions,
) -> (prepared: Result<(PreparedThreshold, Option<(String, String)>), LambError>)
    requires
        validated is Ok ==> evidence.len() == validated->Ok_0.ports.len(),
    ensures
        ({
            let profile_name = target.active_profile.name@;
            let candidate = ctx@.runtime.config@.with_threshold(
                profile_name,
                target.configured.name@,
                Some(measured.stored()),
            );
            match ctx@.calibrated_refusal(*target, look, validated) {
                Some(refusal) => prepared is Err && prepared->Err_0@ == refusal,
                None => match prepared {
                    Ok((prepared, previous)) => {
                        &&& ctx@.change_prepared(
                            prepared,
                            profile_name,
                            candidate,
                            validated->Ok_0,
                            evidence@,
                            *versions,
                            measured.created_at,
                            false,
                        )
                        &&& match previous {
                            Some((input_id, calibration_id)) => look is Recorded
                                && ctx@.replaced_generation(*target) == Some(
                                (input_id@, calibration_id@),
                            ),
                            None => !(look is Recorded) || ctx@.replaced_generation(
                                *target,
                            ) is None,
                        }
                    },
                    Err(error) => ctx@.change_error_is(
                        error@,
                        profile_name,
                        candidate,
                        validated->Ok_0,
                        evidence@,
                    ),
                },
            }
        }),
{
    if let Err(error) = admit_calibration(ctx, target) {
        return Err(error);
    }
    let profile_name = &target.active_profile.name;
    let channel = &target.configured.name;
    let previous = match previous_generation(&ctx.runtime.config, profile_name, channel) {
        Some(previous) => match look {
            GenerationLook::Recorded => Some(previous),
            GenerationLook::Missing => None,
            GenerationLook::Failed(error) => {
                return Err(error);
            },
        },
        None => None,
    };
    if let Err(error) = find_profile(&ctx.runtime.config, profile_name) {
        return Err(error);
    }
    let validated = match validated {
        Ok(validated) => validated,
        Err(error) => {
            return Err(error);
        },
    };
    let candidate = calibrated_candidate(
        &ctx.runtime.config,
        profile_name,
        channel,
        measured.threshold_bits,
        &measured.input_id,
        &measured.calibration_id,
        measured.created_at,
    );
    match prepare_threshold_change(
        ctx,
        profile_name,
        candidate,
        validated,
        evidence,
        versions,
        measured.created_at,
        false,
    ) {
        Ok(prepared) => Ok((prepared, previous)),
        Err(error) => Err(error),
    }
}

/// The message of a changed threshold: whether it was set or taken away, and
/// where calibrations were cleaned up, what is left of that.
pub open spec fn change_message(is_set: bool, cleanup: Option<Result<u64, LambError>>) -> Seq<char> {
    let done = if is_set {
        "threshold updated"@
    } else {
        "threshold reset"@
    };
    match cleanup {
        None => done,
        Some(Ok(pending)) => if pending == 0 {
            done
        } else {
            done + "; calibration cleanup pending for "@ + decimal(pending as nat) + " path(s)"@
        },
        Some(Err(error)) => done + "; calibration cleanup warning: "@ + error@.rendered(),
    }
}

/// Words the message of a changed threshold. Calibrations are cleaned up only
/// where a threshold was taken away.
pub fn threshold_change_message(is_set: bool, cleanup: Option<Result<u64, LambError>>) -> (message:
    String)
    ensures
        message@ == change_message(is_set, cleanup),
{
    let done = if is_set {
        "threshold updated".to_string()
    } else {
        "threshold reset".to_string()
    };
    match cleanup {
        None => done,
        Some(Ok(pending)) => {
            if pending == 0 {
                done
            } else {
                let mut message = join(done.as_str(), "; calibration cleanup pending for ");
                let number = render_decimal(pending);
                message = join(message.as_str(), number.as_str());
                join(message.as_str(), " path(s)")
            }
        },
        Some(Err(error)) => {
            let message = join(done.as_str(), "; calibration cleanup warning: ");
            let reason = error.to_text();
            join(message.as_str(), reason.as_str())
        },
    }
}

/// Words the message of a calibration; `pending` is the path of the calibration
/// before it where that could not be removed.
pub fn calibration_message(pending: &Option<String>) -> (message: String)
    ensures
        message@ == (match *pending {
            Some(path) => "threshold calibrated; old calibration cleanup pending: "@ + path@,
            None => "threshold calibrated"@,
        }),
{
    match pending {
        Some(path) => join(
            "threshold calibrated; old calibration cleanup pending: ",
            path.as_str(),
        ),
        None => "threshold calibrated".to_string(),
    }
}

/// While a profile is not captured, no calibrated threshold of it is in effect.
pub proof fn calibrated_thresholds_need_a_capture(
    threshold: ThresholdView,
    input_id: Seq<char>,
    validity: Result<CalibrationValidity, LambError>,
)
    requires
        threshold.threshold_source == ThresholdSource::Calibrated,
    ensures
        evaluation(Some(threshold), input_id, None, validity).1 is None,
        evaluation(Some(threshold), input_id, Some(false), validity).1 is None,
{
}

/// A level is in effect exactly where the evaluation says that the threshold
/// counts, and it is the stored one.
pub proof fn the_level_in_effect_is_the_stored_one(
    threshold: Option<ThresholdView>,
    input_id: Seq<char>,
    matches: Option<bool>,
    validity: Result<CalibrationValidity, LambError>,
)
    ensures
        ({
            let (verdict, level) = evaluation(threshold, input_id, matches, validity);
            &&& level is Some <==> verdict is Valid
            &&& level is Some ==> threshold is Some && level == Some(threshold->0.threshold_bits)
        }),
{
}

/// Setting a level by hand for the input that a calibration was made for keeps
/// the reference to that calibration; for another input it does not.
pub proof fn a_manual_level_keeps_its_calibration(
    previous: ThresholdView,
    level: u64,
    input_id: Seq<char>,
    now: u64,
)
    ensures
        manual_threshold(Some(previous), Some(level), input_id, now)->0.calibration_id == (
        if previous.input_id == input_id {
            previous.calibration_id
        } else {
            None
        }),
{
}

} // verus!
