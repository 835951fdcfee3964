use lamb_daemon::calibration::{
    admit_calibration, begin_calibration, calibration_frames, calibration_observed,
    calibration_target_is_current, session_calibration_target, SessionCalibrationTarget,
};
use lamb_daemon::config::calibration_references;
use lamb_daemon::control::{
    idle_status_response, CaptureArenaStatus, ControlRequest, ControlResponse, ThresholdRequest,
};
use lamb_daemon::error::LambError;
use lamb_daemon::health::PipeWireHealth;
use lamb_daemon::identity::{
    configured_identities, configured_identity, jack_live_identities, pipewire_live_identities,
    session_input_is_coherent, validate_app_session_inputs, ResolvedSourcePort, ResolvedTarget,
};
use lamb_daemon::lifecycle::{CaptureState, DaemonState, LifecycleState, UnixOrigin};
use lamb_daemon::model::{
    ActivityChannel, ActivityDetectorKind, ActivityPolicy, ActivityThresholdConfig, AppConfig,
    AppRuntimeState, BackendKind, CaptureBackend, CaptureSession, ChannelConfig,
    ChannelExportMode, ConfigFamily, ConfiguredDeviceSelector, ConfiguredInputIdentity,
    DaemonConfig, IdleDaemonContext, InputBackend, LiveDeviceKeyKind, PipeWireCaptureConfig,
    ProfileConfig, ResolvedCapturePort, ResolvedExportPolicy, ResolvedLayout,
    ResolvedLiveInputIdentity, ResolvedProfile, RunState, ThresholdSource,
};
use lamb_daemon::persistence::{
    admit_persistence, app_persistence_delivered, app_persistence_response, enter_session_command, finish_app_clear,
    persistence_message, persistence_message_from_committed, DumpOutcome, FrameLosses,
    OutcomeSummary, PersistenceOutcomeResponse, SessionEntry,
};
use lamb_daemon::requests::{
    busy_response, finish_app_threshold, handle_app_threshold, handle_idle_request, route_job,
    route_client_request, ClientRoute, ExportCommand, JobRoute, OperationJob, RequestRoute,
    ThresholdRoute,
};
use lamb_daemon::scheduler::{EnqueueError, RetryScheduler, RuntimeCaptureFault, RuntimeFaultSink};
use lamb_daemon::session::{open_app_session, AppSource, StartedAppCapture};
use lamb_daemon::threshold::{
    begin_threshold_change, calibrated_candidate, calibration_message, channel_query, check_level,
    effective_activity, find_profile, prepare_calibrated_threshold, prepare_manual_threshold,
    previous_generation, threshold_candidate, threshold_change_message, threshold_report,
    threshold_saved, CalibrationArtifactStatus, CalibrationEvaluation, CalibrationReportStatus,
    CalibrationValidity, ChannelEvidence, DetectorVersions, GenerationLook, MeasuredThreshold,
    PreparedThreshold, StaleReason, ThresholdReport,
};
use std::cell::RefCell;
use std::collections::VecDeque;

type Ctx = IdleDaemonContext<(), ()>;
type Session = CaptureSession<()>;

fn text(value: &str) -> String {
    value.to_string()
}

fn bits(level: f64) -> u64 {
    level.to_bits()
}

fn input_id(input: &ConfiguredInputIdentity) -> String {
    format!("{:0>64}", format!("{}-{}", input.name, input.source))
}

fn threshold_test_config(ports: &[(&str, &str)]) -> AppConfig {
    AppConfig {
        daemon: DaemonConfig {
            start_mode: text("manual"),
            active_profile: None,
            control_socket_path: text("/tmp/lamb-test-control.sock"),
        },
        profiles: vec![ProfileConfig {
            name: text("studio"),
            channels: ports
                .iter()
                .map(|(name, _)| ChannelConfig { name: text(name), activity: None })
                .collect(),
        }],
    }
}

fn policy(detector: ActivityDetectorKind, channels: Vec<ActivityChannel>) -> ResolvedExportPolicy {
    ResolvedExportPolicy {
        output_dir: text("/tmp/out"),
        layout: ResolvedLayout::CommandDefault,
        activity: ActivityPolicy {
            detector,
            channels,
            whole_export_exact_zero_gate: true,
            trim_leading_silence: false,
        },
    }
}

/// What the settings of a profile amount to, with the thresholds that its
/// configuration stores.
fn validate_profile(
    config: &AppConfig,
    name: &str,
    ports: &[(&str, &str)],
) -> ResolvedProfile {
    let profile = config.profiles.iter().find(|profile| profile.name == name).unwrap();
    ResolvedProfile {
        name: text(name),
        backend: text("jack"),
        client_name: text("lamb"),
        ports: ports
            .iter()
            .map(|(name, source)| ResolvedCapturePort { name: text(name), source: text(source) })
            .collect(),
        buffer_seconds: 1,
        export_policy: policy(
            ActivityDetectorKind::WindowedRmsPeak,
            ports
                .iter()
                .map(|(name, _)| ActivityChannel {
                    name: text(name),
                    mode: ChannelExportMode::Auto,
                    threshold: profile
                        .channels
                        .iter()
                        .find(|channel| channel.name == *name)
                        .and_then(|channel| channel.activity.clone()),
                })
                .collect(),
        ),
        pipewire_config: None,
    }
}

fn detector_versions() -> DetectorVersions {
    DetectorVersions {
        exact_zero: text("exact-zero-v1"),
        windowed_rms_peak: text("windowed-rms-peak-v1"),
    }
}

fn evidence_for(resolved: &ResolvedProfile) -> Vec<ChannelEvidence> {
    resolved
        .ports
        .iter()
        .map(|port| ChannelEvidence {
            input_id: Ok(input_id(&configured_identity(resolved, &port.name, None).unwrap())),
            inspection: Ok(CalibrationArtifactStatus::Stale(StaleReason::MissingState)),
            validity: Ok(CalibrationValidity::Stale(StaleReason::MissingState)),
        })
        .collect()
}

fn stored(
    level: f64,
    source: ThresholdSource,
    updated: u64,
    input: String,
    calibration: Option<&str>,
) -> Option<ActivityThresholdConfig> {
    Some(ActivityThresholdConfig {
        threshold_bits: bits(level),
        threshold_source: source,
        updated_at_unix_seconds: updated,
        input_id: input,
        calibration_id: calibration.map(text),
    })
}

fn app_session(resolved: &ResolvedProfile, sample_rate: u32, frames: u64) -> Session {
    let started = StartedAppCapture {
        source: AppSource::Jack,
        sample_rate,
        identity: 7,
        calibration_sample_frames: frames,
        health: None,
        input_refusals: Vec::new(),
        live_refusals: Vec::new(),
        backend: (),
        memory: (),
    };
    open_app_session(resolved, started, true).unwrap().session
}

fn mutation_context(
    config: AppConfig,
    active_profile: Option<ResolvedProfile>,
    session: Option<Session>,
) -> Ctx {
    let capturing = session.is_some();
    IdleDaemonContext {
        config_path: text("/tmp/lamb.toml"),
        control_socket_path: text("/tmp/control.sock"),
        calibration_root: text("/tmp/calibration"),
        runtime: AppRuntimeState {
            config,
            config_family: ConfigFamily::App,
            prepared_legacy: None,
            resolved_capture: None,
            lifecycle: LifecycleState::ready_stopped(None),
            state: if capturing { RunState::Capturing } else { RunState::Idle },
            last_error: None,
            config_load_error: None,
            active_profile,
            capture: session.as_ref().map(|session| CaptureBackend {
                kind: BackendKind::Jack,
                rate: session.sample_rate,
                error: None,
                resource: (),
            }),
            capture_health: None,
            session,
        },
        runtime_poisoned: false,
        clock_origin: UnixOrigin { seconds: 0, nanos: 0 },
        scheduler: RetryScheduler::new(),
        operation_epoch: 0,
        attempts: 0,
        stop: false,
        first_fatal: None,
    }
}

/// Changes a threshold from beginning to end; the disk takes every write.
fn mutate_threshold(
    ctx: &mut Ctx,
    profile: &str,
    channel: &str,
    level: Option<f64>,
    now: u64,
    ports: &[(&str, &str)],
    cleanup: impl FnOnce(&[(String, String)]) -> Result<u64, LambError>,
) -> Result<(String, ThresholdReport), LambError> {
    mutate_threshold_with(ctx, profile, channel, level, now, ports, |_| Ok(()), cleanup)
}

#[allow(clippy::too_many_arguments)]
fn mutate_threshold_with(
    ctx: &mut Ctx,
    profile: &str,
    channel: &str,
    level: Option<f64>,
    now: u64,
    ports: &[(&str, &str)],
    save: impl FnOnce(&AppConfig) -> Result<(), LambError>,
    cleanup: impl FnOnce(&[(String, String)]) -> Result<u64, LambError>,
) -> Result<(String, ThresholdReport), LambError> {
    let profile = text(profile);
    let channel = text(channel);
    begin_threshold_change(ctx, &profile)?;
    let resolved = validate_profile(&ctx.runtime.config, &profile, ports);
    let id = configured_identity(&resolved, &channel, None).map(|input| input_id(&input));
    let candidate = threshold_candidate(
        &ctx.runtime.config,
        &profile,
        &channel,
        &resolved,
        level.map(bits),
        id.clone(),
        now,
    );
    let validated = candidate.map(|candidate| validate_profile(&candidate, &profile, ports));
    let evidence = validated.as_ref().map(evidence_for).unwrap_or_default();
    let prepared = prepare_manual_threshold(
        ctx,
        &profile,
        &channel,
        Ok(resolved),
        level.map(bits),
        id,
        validated,
        &evidence,
        &detector_versions(),
        now,
    )?;
    let saved = save(&prepared.candidate);
    let (report, references) = threshold_saved(ctx, &profile, prepared, saved)?;
    let cleaned = references.map(|references| cleanup(&references));
    Ok((threshold_change_message(level.is_some(), cleaned), report))
}

const MIC: &[(&str, &str)] = &[("mic", "system:capture_1")];

fn no_cleanup(_: &[(String, String)]) -> Result<u64, LambError> {
    panic!("setting a level must not clean calibrations up")
}

fn activity<'a>(ctx: &'a Ctx, channel: &str) -> Option<&'a ActivityThresholdConfig> {
    ctx.runtime.config.threshold_of(&text("studio"), &text(channel))
}

#[test]
fn inactive_set_uses_fixed_clock_and_commits_exact_candidate_and_report() {
    let mut ctx = mutation_context(threshold_test_config(MIC), None, None);
    let mut disk = None;
    let (message, report) = mutate_threshold_with(
        &mut ctx,
        "studio",
        "mic",
        Some(-42.5),
        1_234,
        MIC,
        |candidate| {
            disk = Some(candidate.clone());
            Ok(())
        },
        no_cleanup,
    )
    .unwrap();
    assert_eq!(message, "threshold updated");
    assert!(!report.active_profile);
    assert!(!report.capturing);
    assert_eq!(report.channels[0].effective_threshold_bits, Some(bits(-42.5)));
    let persisted = disk.unwrap();
    assert_eq!(persisted, ctx.runtime.config);
    let threshold = persisted.profiles[0].channels[0].activity.as_ref().unwrap();
    assert_eq!(threshold.threshold_bits, bits(-42.5));
    assert_eq!(threshold.updated_at_unix_seconds, 1_234);
    assert_eq!(threshold.threshold_source, ThresholdSource::Manual);
    assert_eq!(threshold.input_id.len(), 64);

    let mut disk = None;
    let (_, reset_report) = mutate_threshold_with(
        &mut ctx,
        "studio",
        "mic",
        None,
        1_235,
        MIC,
        |candidate| {
            disk = Some(candidate.clone());
            Ok(())
        },
        |referenced| {
            assert!(referenced.is_empty());
            Ok(0)
        },
    )
    .unwrap();
    assert!(!reset_report.active_profile);
    assert!(reset_report.channels[0].stored.is_none());
    let persisted = disk.unwrap();
    assert!(persisted.profiles[0].channels[0].activity.is_none());
    assert!(activity(&ctx, "mic").is_none());
}

#[test]
fn active_idle_reset_commits_before_cleanup_and_reports_pending_as_success() {
    let mut config = threshold_test_config(MIC);
    let resolved = validate_profile(&config, "studio", MIC);
    let input = configured_identity(&resolved, &text("mic"), None).unwrap();
    config.profiles[0].channels[0].activity = stored(
        -50.0,
        ThresholdSource::Manual,
        100,
        input_id(&input),
        Some("old-generation"),
    );
    let resolved = validate_profile(&config, "studio", MIC);
    let mut ctx = mutation_context(config, Some(resolved), None);

    let (_, set_report) =
        mutate_threshold(&mut ctx, "studio", "mic", Some(-40.0), 150, MIC, no_cleanup).unwrap();
    assert!(set_report.active_profile);
    assert!(!set_report.capturing);
    assert_eq!(set_report.channels[0].effective_threshold_bits, Some(bits(-40.0)));

    let disk = RefCell::new(None);
    let (message, report) = mutate_threshold_with(
        &mut ctx,
        "studio",
        "mic",
        None,
        200,
        MIC,
        |candidate| {
            *disk.borrow_mut() = Some(candidate.clone());
            Ok(())
        },
        |referenced| {
            assert!(referenced.is_empty());
            let persisted = disk.borrow();
            let persisted: &AppConfig = persisted.as_ref().unwrap();
            assert!(persisted.profiles[0].channels[0].activity.is_none());
            Ok(1)
        },
    )
    .unwrap();
    assert_eq!(message, "threshold reset; calibration cleanup pending for 1 path(s)");
    assert!(report.active_profile);
    assert!(!report.capturing);
    assert!(report.channels[0].stored.is_none());
    assert!(activity(&ctx, "mic").is_none());
    assert_eq!(
        ctx.runtime.active_profile.as_ref().unwrap().export_policy.activity,
        validate_profile(&ctx.runtime.config, "studio", MIC).export_policy.activity
    );
}

#[test]
fn manual_set_retains_only_a_same_configured_input_generation() {
    let mut config = threshold_test_config(MIC);
    let resolved = validate_profile(&config, "studio", MIC);
    let input = configured_identity(&resolved, &text("mic"), None).unwrap();
    config.profiles[0].channels[0].activity = stored(
        -55.0,
        ThresholdSource::Calibrated,
        10,
        input_id(&input),
        Some("same-input"),
    );
    let mut ctx = mutation_context(config, None, None);
    mutate_threshold(&mut ctx, "studio", "mic", Some(-40.0), 20, MIC, no_cleanup).unwrap();
    assert_eq!(activity(&ctx, "mic").unwrap().calibration_id.as_deref(), Some("same-input"));

    ctx.runtime.config.profiles[0].channels[0].activity.as_mut().unwrap().input_id =
        "0".repeat(64);
    mutate_threshold(&mut ctx, "studio", "mic", Some(-39.0), 21, MIC, no_cleanup).unwrap();
    assert_eq!(activity(&ctx, "mic").unwrap().calibration_id, None);
}

#[test]
fn active_set_preserves_session_identity_and_filters_untouched_stale_calibration() {
    let ports = &[("mic", "system:capture_1"), ("room", "system:capture_2")];
    let mut config = threshold_test_config(ports);
    let initial = validate_profile(&config, "studio", ports);
    let room = configured_identity(&initial, &text("room"), None).unwrap();
    config.profiles[0].channels[1].activity = stored(
        -60.0,
        ThresholdSource::Calibrated,
        100,
        input_id(&room),
        Some("missing-generation"),
    );
    let active = validate_profile(&config, "studio", ports);
    let session = app_session(&active, 100, 100);
    let mut ctx = mutation_context(config, Some(active), Some(session));

    mutate_threshold(&mut ctx, "studio", "mic", Some(-35.0), 200, ports, no_cleanup).unwrap();

    let installed = ctx.runtime.session.as_ref().unwrap();
    assert_eq!(installed.identity, 7);
    let rules = &installed.policy.activity.channels;
    assert_eq!(rules[0].threshold.as_ref().unwrap().threshold_bits, bits(-35.0));
    assert!(rules[1].threshold.is_none());
    let settings = &ctx.runtime.active_profile.as_ref().unwrap().export_policy.activity;
    assert_eq!(
        settings.channels[1].threshold.as_ref().unwrap().calibration_id.as_deref(),
        Some("missing-generation")
    );
    assert_eq!(
        activity(&ctx, "room").unwrap().calibration_id.as_deref(),
        Some("missing-generation")
    );
}

#[test]
fn reset_retains_candidate_references_across_profiles_and_cleanup_error_is_warning() {
    let mut config = threshold_test_config(MIC);
    config.profiles.push(ProfileConfig {
        name: text("other"),
        channels: vec![ChannelConfig { name: text("room"), activity: None }],
    });
    let studio = validate_profile(&config, "studio", MIC);
    let other = validate_profile(&config, "other", &[("room", "system:capture_2")]);
    let studio_input = configured_identity(&studio, &text("mic"), None).unwrap();
    let other_input = configured_identity(&other, &text("room"), None).unwrap();
    config.profiles[0].channels[0].activity = stored(
        -45.0,
        ThresholdSource::Manual,
        1,
        input_id(&studio_input),
        Some("removed"),
    );
    config.profiles[1].channels[0].activity = stored(
        -55.0,
        ThresholdSource::Manual,
        2,
        input_id(&other_input),
        Some("retained-manual"),
    );
    let mut ctx = mutation_context(config, None, None);

    let (message, report) =
        mutate_threshold(&mut ctx, "studio", "mic", None, 3, MIC, |referenced| {
            assert_eq!(referenced, &[(input_id(&other_input), text("retained-manual"))]);
            Err(LambError::Control(text("injected cleanup failure")))
        })
        .unwrap();

    assert!(message.contains("cleanup warning"));
    assert!(message.contains("injected cleanup failure"));
    assert_eq!(
        message,
        "threshold reset; calibration cleanup warning: control error: injected cleanup failure"
    );
    assert!(report.channels[0].stored.is_none());
    assert!(activity(&ctx, "mic").is_none());
}

#[test]
fn a_calibration_that_two_thresholds_name_is_listed_once() {
    let mut config = threshold_test_config(&[
        ("mic", "system:capture_1"),
        ("room", "system:capture_2"),
        ("hall", "system:capture_3"),
    ]);
    let activity = |calibration| {
        stored(-45.0, ThresholdSource::Manual, 1, text("input"), Some(calibration))
    };
    config.profiles[0].channels[0].activity = activity("shared");
    config.profiles[0].channels[1].activity = activity("own");
    config.profiles[0].channels[2].activity = activity("shared");
    assert_eq!(
        calibration_references(&config),
        vec![(text("input"), text("shared")), (text("input"), text("own"))]
    );
}

#[test]
fn set_rejects_every_non_finite_and_out_of_range_value_server_side() {
    let mut ctx = mutation_context(threshold_test_config(MIC), None, None);
    for value in [f64::NAN, f64::INFINITY, f64::NEG_INFINITY, -120.1, 0.1] {
        let error = check_level(bits(value)).unwrap_err();
        assert!(error.to_text().contains("finite and within [-120.0, 0.0]"));
        let request = ThresholdRequest::SetLevel {
            profile: text("studio"),
            channel: text("mic"),
            dbfs_bits: bits(value),
        };
        let ThresholdRoute::Respond(response) = handle_app_threshold(&mut ctx, request) else {
            panic!("a level out of range is refused");
        };
        assert!(!response.ok);
        assert_eq!(
            response.message,
            "validation error: threshold dBFS must be finite and within [-120.0, 0.0]"
        );
    }
    for value in [0.0, -0.0, -1e-300, -42.0, -120.0] {
        assert!(check_level(bits(value)).is_ok(), "{value}");
    }
}

#[test]
fn every_bit_pattern_is_judged_as_its_number_is() {
    let mut pattern: u64 = 1;
    for _ in 0..200_000 {
        pattern = pattern.wrapping_mul(6_364_136_223_846_793_005).wrapping_add(1_442_695_040_888_963_407);
        let value = f64::from_bits(pattern);
        let in_range = value.is_finite() && (-120.0..=0.0).contains(&value);
        assert_eq!(check_level(pattern).is_ok(), in_range, "{value}");
    }
}

fn report(
    config: &AppConfig,
    resolved: &ResolvedProfile,
    active: Option<&ResolvedProfile>,
    session: Option<&Session>,
    evidence: &Vec<ChannelEvidence>,
    now: u64,
) -> Result<ThresholdReport, LambError> {
    let profile = find_profile(config, &text("studio"))?;
    threshold_report(
        profile,
        &text("studio"),
        resolved,
        active,
        session,
        evidence,
        &detector_versions(),
        now,
    )
}

#[test]
fn threshold_report_distinguishes_active_idle_from_another_profile_capture() {
    let mut config = threshold_test_config(MIC);
    let studio = validate_profile(&config, "studio", MIC);
    let evidence = evidence_for(&studio);

    let idle = report(&config, &studio, Some(&studio), None, &evidence, 10).unwrap();
    assert!(idle.active_profile);
    assert!(!idle.capturing);
    assert!(idle.channels[0].current_live_identity.is_none());
    assert_eq!(idle.channels[0].calibration_evaluation, CalibrationEvaluation::NotResolved);

    let mut copy = config.profiles[0].clone();
    copy.name = text("other");
    config.profiles.push(copy);
    let other = validate_profile(&config, "other", MIC);
    let other_session = app_session(&other, 100, 100);
    let other_capture =
        report(&config, &studio, Some(&other), Some(&other_session), &evidence, 10).unwrap();
    assert!(!other_capture.active_profile);
    assert!(!other_capture.capturing);
    assert!(other_capture.channels[0].current_live_identity.is_none());
    assert_eq!(other_capture.channels[0].configured_identity_matches, None);
}

#[test]
fn threshold_report_uses_the_resolved_exact_zero_detector_contract() {
    let config = threshold_test_config(MIC);
    let mut resolved = validate_profile(&config, "studio", MIC);
    resolved.export_policy.activity.detector = ActivityDetectorKind::ExactZero;
    let evidence = evidence_for(&resolved);

    let told = report(&config, &resolved, None, None, &evidence, 10).unwrap();
    assert_eq!(told.channels[0].detector.report_name(), Some("exact-zero"));
    assert_eq!(told.channels[0].detector_version, "exact-zero-v1");
    assert_eq!(told.message, "threshold report");

    resolved.export_policy.activity.detector = ActivityDetectorKind::FixedLevel;
    assert_eq!(
        report(&config, &resolved, None, None, &evidence, 10).unwrap_err().to_text(),
        "validation error: resolved profile contains an unsupported activity detector"
    );
    assert_eq!(ActivityDetectorKind::WindowedRmsPeak.report_name(), Some("windowed-rms-peak"));
}

#[test]
fn inactive_threshold_report_inspects_artifacts_in_profile_port_order_without_live_validity() {
    let ports = &[
        ("right", "system:capture_2"),
        ("left", "system:capture_1"),
        ("dry", "system:capture_3"),
    ];
    let mut config = threshold_test_config(ports);
    let resolved = validate_profile(&config, "studio", ports);
    let right = configured_identity(&resolved, &text("right"), None).unwrap();
    let left = configured_identity(&resolved, &text("left"), None).unwrap();
    config.profiles[0].channels[0].activity =
        stored(-45.0, ThresholdSource::Manual, 90, input_id(&right), None);
    config.profiles[0].channels[1].activity = stored(
        -50.0,
        ThresholdSource::Calibrated,
        100,
        input_id(&left),
        Some("left-complete"),
    );
    let mut evidence = evidence_for(&resolved);
    evidence[1].inspection = Ok(CalibrationArtifactStatus::Complete);
    evidence[1].validity = Err(LambError::Io(text("must not be asked")));

    let told = report(&config, &resolved, None, None, &evidence, 110).unwrap();
    assert_eq!(
        told.channels.iter().map(|channel| channel.channel.as_str()).collect::<Vec<_>>(),
        vec!["right", "left", "dry"]
    );
    assert_eq!(told.channels[0].artifact_status, CalibrationReportStatus::NotApplicable);
    assert_eq!(told.channels[0].calibration_evaluation, CalibrationEvaluation::Valid);
    assert_eq!(told.channels[0].effective_threshold_bits, Some(bits(-45.0)));
    assert_eq!(told.channels[1].artifact_status, CalibrationReportStatus::Complete);
    assert_eq!(told.channels[1].calibration_evaluation, CalibrationEvaluation::NotResolved);
    assert_eq!(told.channels[1].effective_threshold_bits, None);
    assert_eq!(told.channels[1].stored.as_ref().unwrap().age_seconds, Some(10));
    assert_eq!(told.channels[2].artifact_status, CalibrationReportStatus::NotConfigured);
    assert_eq!(told.channels[2].calibration_evaluation, CalibrationEvaluation::NotResolved);
    assert_eq!(told.channels[2].effective_threshold_bits, None);

    evidence[1].inspection = Ok(CalibrationArtifactStatus::Stale(StaleReason::Expired));
    let late = 100 + 30 * 24 * 60 * 60 + 1;
    let expired = report(&config, &resolved, None, None, &evidence, late).unwrap();
    assert_eq!(
        expired.channels[1].artifact_status,
        CalibrationReportStatus::Stale { reason: StaleReason::Expired }
    );
    assert_eq!(expired.channels[1].calibration_evaluation, CalibrationEvaluation::NotResolved);

    config.profiles[0].channels[1].activity.as_mut().unwrap().calibration_id =
        Some(text("missing-generation"));
    evidence[1].inspection = Ok(CalibrationArtifactStatus::Stale(StaleReason::MissingState));
    let missing = report(&config, &resolved, None, None, &evidence, 110).unwrap();
    assert_eq!(
        missing.channels[1].artifact_status,
        CalibrationReportStatus::Stale { reason: StaleReason::MissingState }
    );

    config.profiles[0].channels[1].activity.as_mut().unwrap().calibration_id =
        Some(text("left-complete"));
    evidence[1].inspection = Ok(CalibrationArtifactStatus::Stale(StaleReason::DetectorMismatch));
    let detector_mismatch = report(&config, &resolved, None, None, &evidence, 110).unwrap();
    assert_eq!(
        detector_mismatch.channels[1].artifact_status,
        CalibrationReportStatus::Stale { reason: StaleReason::DetectorMismatch }
    );
    assert_eq!(
        detector_mismatch.channels[1].detector_version,
        detector_versions().windowed_rms_peak
    );

    evidence[1].inspection = Ok(CalibrationArtifactStatus::Stale(StaleReason::CorruptMetadata));
    let corrupt = report(&config, &resolved, None, None, &evidence, 110).unwrap();
    assert_eq!(
        corrupt.channels[1].artifact_status,
        CalibrationReportStatus::Stale { reason: StaleReason::CorruptMetadata }
    );
    assert_eq!(corrupt.channels[1].calibration_evaluation, CalibrationEvaluation::NotResolved);
}

#[test]
fn a_calibration_that_cannot_be_inspected_keeps_the_report_from_being_told() {
    let mut config = threshold_test_config(MIC);
    config.profiles[0].channels[0].activity =
        stored(-50.0, ThresholdSource::Calibrated, 100, text("input"), Some("kept"));
    let resolved = validate_profile(&config, "studio", MIC);
    let mut evidence = evidence_for(&resolved);
    let early = report(&config, &resolved, None, None, &evidence, 90).unwrap();
    assert_eq!(early.channels[0].stored.as_ref().unwrap().age_seconds, None);
    evidence[0].inspection = Err(LambError::Io(text("/tmp/calibration: unreadable")));
    assert_eq!(
        report(&config, &resolved, None, None, &evidence, 90).unwrap_err(),
        LambError::Io(text("/tmp/calibration: unreadable"))
    );
}

#[test]
fn active_threshold_report_validates_exact_session_identity_rate_and_manual_diagnostics() {
    let mut config = threshold_test_config(MIC);
    let resolved = validate_profile(&config, "studio", MIC);
    let input = configured_identity(&resolved, &text("mic"), None).unwrap();
    config.profiles[0].channels[0].activity = stored(
        -50.0,
        ThresholdSource::Calibrated,
        100,
        input_id(&input),
        Some("active-valid"),
    );
    let resolved = validate_profile(&config, "studio", MIC);
    let mut session = app_session(&resolved, 100, 100);
    let mut evidence = evidence_for(&resolved);
    evidence[0].inspection = Ok(CalibrationArtifactStatus::Complete);
    evidence[0].validity = Ok(CalibrationValidity::Valid);
    let profile = find_profile(&config, &text("studio")).unwrap();
    let query = channel_query(profile, Some(&session), &input, 0);
    assert!(query.inspect && query.validate);

    let told =
        report(&config, &resolved, Some(&resolved), Some(&session), &evidence, 110).unwrap();
    assert_eq!(told.channels[0].artifact_status, CalibrationReportStatus::Complete);
    assert_eq!(told.channels[0].configured_identity_matches, Some(true));
    assert_eq!(told.channels[0].calibration_evaluation, CalibrationEvaluation::Valid);
    assert_eq!(told.channels[0].effective_threshold_bits, Some(bits(-50.0)));
    assert_eq!(told.channels[0].current_live_identity.as_ref().unwrap().key_value, "system");

    session.resolved_live_inputs[0] = None;
    evidence[0].validity = Ok(CalibrationValidity::Stale(StaleReason::MissingLiveIdentity));
    let no_live =
        report(&config, &resolved, Some(&resolved), Some(&session), &evidence, 110).unwrap();
    assert_eq!(
        no_live.channels[0].calibration_evaluation,
        CalibrationEvaluation::Stale { reason: StaleReason::MissingLiveIdentity }
    );
    assert_eq!(no_live.channels[0].effective_threshold_bits, None);

    session.resolved_live_inputs[0] = Some(ResolvedLiveInputIdentity {
        backend: InputBackend::Jack,
        key_kind: LiveDeviceKeyKind::JackSourceClient,
        key_value: text("other"),
        resolved_source: text("other:capture_1"),
    });
    evidence[0].validity = Ok(CalibrationValidity::Stale(StaleReason::LiveIdentityMismatch));
    let live_mismatch =
        report(&config, &resolved, Some(&resolved), Some(&session), &evidence, 110).unwrap();
    assert_eq!(
        live_mismatch.channels[0].calibration_evaluation,
        CalibrationEvaluation::Stale { reason: StaleReason::LiveIdentityMismatch }
    );
    assert_eq!(
        live_mismatch.channels[0].current_live_identity.as_ref().unwrap().key_value,
        "other"
    );

    evidence[0].validity = Err(LambError::Io(text("/tmp/calibration: unreadable")));
    assert!(report(&config, &resolved, Some(&resolved), Some(&session), &evidence, 110).is_err());

    session.configured_inputs[0] = ConfiguredInputIdentity {
        backend: InputBackend::Jack,
        selector: ConfiguredDeviceSelector::JackSourceClient(text("other")),
        name: text("mic"),
        source: text("other:capture_1"),
    };
    assert!(!channel_query(profile, Some(&session), &input, 0).validate);
    let mismatch =
        report(&config, &resolved, Some(&resolved), Some(&session), &evidence, 110).unwrap();
    assert_eq!(mismatch.channels[0].configured_identity_matches, Some(false));
    assert_eq!(
        mismatch.channels[0].calibration_evaluation,
        CalibrationEvaluation::Stale { reason: StaleReason::InputMismatch }
    );

    config.profiles[0].channels[0].activity.as_mut().unwrap().threshold_source =
        ThresholdSource::Manual;
    session.configured_inputs[0] = input;
    let manual =
        report(&config, &resolved, Some(&resolved), Some(&session), &evidence, 110).unwrap();
    assert!(manual.channels[0].current_live_identity.is_some());
    assert_eq!(manual.channels[0].artifact_status, CalibrationReportStatus::NotApplicable);
    assert_eq!(manual.channels[0].calibration_evaluation, CalibrationEvaluation::Valid);
    assert_eq!(manual.channels[0].effective_threshold_bits, Some(bits(-50.0)));
}

#[test]
fn rules_and_reports_that_do_not_belong_together_are_refused() {
    let config = threshold_test_config(MIC);
    let resolved = validate_profile(&config, "studio", MIC);
    let evidence = evidence_for(&resolved);
    let told = report(&config, &resolved, None, None, &evidence, 10).unwrap();
    let mut policy = resolved.export_policy.activity.clone();
    policy.channels[0].name = text("other");
    assert_eq!(
        effective_activity("session", &policy, &told.channels).unwrap_err(),
        LambError::ControlInvariant(text("session activity policy/report channel order changed"))
    );
    policy.channels.clear();
    assert_eq!(
        effective_activity("candidate", &policy, &told.channels).unwrap_err(),
        LambError::ControlInvariant(text(
            "candidate activity policy/report channel count changed"
        ))
    );
}

fn mic_policy() -> ResolvedExportPolicy {
    policy(
        ActivityDetectorKind::ExactZero,
        vec![ActivityChannel {
            name: text("mic"),
            mode: ChannelExportMode::Always,
            threshold: None,
        }],
    )
}

#[test]
fn app_session_identity_helpers_preserve_profile_port_order_and_no_durable_key() {
    let profile = ResolvedProfile {
        name: text("studio"),
        backend: text("pipewire"),
        client_name: text("lamb"),
        ports: vec![
            ResolvedCapturePort { name: text("left"), source: text("source_FL") },
            ResolvedCapturePort { name: text("right"), source: text("source_FR") },
        ],
        buffer_seconds: 1,
        export_policy: mic_policy(),
        pipewire_config: Some(PipeWireCaptureConfig {
            target: None,
            capture_ports: Vec::new(),
            sample_rate: 100,
            dont_remix: true,
            latency: None,
        }),
    };
    let target = ResolvedTarget {
        id: Some(77),
        name: text("ephemeral-name"),
        channels: 2,
        sample_rate: 100,
        source_ports: vec![
            ResolvedSourcePort { name: text("resolved_FL") },
            ResolvedSourcePort { name: text("resolved_FR") },
        ],
        durable_live_key: Some((LiveDeviceKeyKind::ObjectPath, text("/devices/mic"))),
    };

    let configured = configured_identities(&profile, &Vec::new()).unwrap();
    let live = pipewire_live_identities(&profile, &target, &Vec::new()).unwrap();
    assert_eq!(configured.len(), 2);
    assert_eq!(configured[0].name, "left");
    assert_eq!(configured[1].name, "right");
    assert_eq!(configured[0].backend, InputBackend::PipeWire);
    assert_eq!(configured[0].selector, ConfiguredDeviceSelector::PipeWireAuto);
    assert_eq!(
        live[0].as_ref().map(|identity| (
            &identity.key_kind,
            &identity.key_value,
            &identity.resolved_source
        )),
        Some((
            &LiveDeviceKeyKind::ObjectPath,
            &text("/devices/mic"),
            &text("resolved_FL")
        ))
    );
    assert_eq!(live[1].as_ref().unwrap().resolved_source, "resolved_FR");

    let no_key = ResolvedTarget { durable_live_key: None, ..target };
    assert_eq!(pipewire_live_identities(&profile, &no_key, &Vec::new()).unwrap(), vec![None, None]);

    let narrower = ResolvedTarget { channels: 1, ..no_key };
    assert_eq!(
        pipewire_live_identities(&profile, &narrower, &Vec::new()).unwrap_err().to_text(),
        "capture error: configured PipeWire inputs do not match resolved capture sources"
    );
}

#[test]
fn a_configured_target_is_taken_without_the_white_space_around_it() {
    let mut profile = ResolvedProfile {
        backend: text("pipewire"),
        pipewire_config: Some(PipeWireCaptureConfig {
            target: Some(text(" \tstudio input\u{2003}\n")),
            capture_ports: Vec::new(),
            sample_rate: 100,
            dont_remix: true,
            latency: None,
        }),
        ..validate_profile(&threshold_test_config(MIC), "studio", MIC)
    };
    let input = configured_identity(&profile, &text("mic"), None).unwrap();
    assert_eq!(
        input.selector,
        ConfiguredDeviceSelector::PipeWireTarget(text("studio input"))
    );
    profile.pipewire_config.as_mut().unwrap().target = Some(text("   "));
    let input = configured_identity(&profile, &text("mic"), None).unwrap();
    assert_eq!(input.selector, ConfiguredDeviceSelector::PipeWireAuto);
    profile.backend = text("alsa");
    assert_eq!(
        configured_identity(&profile, &text("mic"), None).unwrap_err().to_text(),
        "validation error: unsupported backend alsa"
    );
    profile.backend = text("jack");
    profile.ports[0].source = text("nobody");
    assert_eq!(
        configured_identity(&profile, &text("mic"), None).unwrap_err().to_text(),
        "validation error: JACK source must be a complete client:port"
    );
}

#[test]
fn app_session_constructor_retains_startup_capacity_and_ordered_identities() {
    let ports = &[("right", "system:capture_2"), ("left", "system:capture_1")];
    let config = threshold_test_config(ports);
    let profile = validate_profile(&config, "studio", ports);
    let session = app_session(&profile, 100, 3_000);

    assert_eq!(session.calibration_sample_frames, 3_000);
    assert_eq!(session.policy, profile.export_policy);
    assert_eq!(session.configured_inputs[0].name, "right");
    assert_eq!(session.configured_inputs[1].name, "left");
    assert_eq!(
        session.resolved_live_inputs[0]
            .as_ref()
            .map(|identity| (&identity.key_value, &identity.resolved_source)),
        Some((&text("system"), &text("system:capture_2")))
    );
    assert_eq!(
        session.resolved_live_inputs[1].as_ref().unwrap().resolved_source,
        "system:capture_1"
    );
}

#[test]
fn app_session_constructor_rejects_per_index_identity_incoherence() {
    let ports = &[("left", "system:capture_1"), ("right", "other:capture_2")];
    let jack = validate_profile(&threshold_test_config(ports), "studio", ports);
    let valid = jack_live_identities(&jack, &Vec::new()).unwrap();
    assert!(validate_app_session_inputs(&jack, &Vec::new(), &valid).is_ok());

    let mut swapped = valid.clone();
    swapped.swap(0, 1);
    assert!(validate_app_session_inputs(&jack, &Vec::new(), &swapped).is_err());

    let mut wrong_backend = valid.clone();
    wrong_backend[0].as_mut().unwrap().backend = InputBackend::PipeWire;
    assert!(validate_app_session_inputs(&jack, &Vec::new(), &wrong_backend).is_err());

    let mut wrong_source = valid.clone();
    wrong_source[0].as_mut().unwrap().resolved_source = text("system:capture_9");
    assert!(validate_app_session_inputs(&jack, &Vec::new(), &wrong_source).is_err());

    let mut wrong_kind = valid.clone();
    wrong_kind[0].as_mut().unwrap().key_kind = LiveDeviceKeyKind::NodeName;
    assert!(validate_app_session_inputs(&jack, &Vec::new(), &wrong_kind).is_err());

    let mut wrong_client = valid.clone();
    wrong_client[0].as_mut().unwrap().key_value = text("unrelated");
    assert!(validate_app_session_inputs(&jack, &Vec::new(), &wrong_client).is_err());

    let mut missing = valid.clone();
    missing[0] = None;
    assert_eq!(
        validate_app_session_inputs(&jack, &Vec::new(), &missing).unwrap_err().to_text(),
        "capture error: configured and resolved session input ordering is incoherent"
    );
    assert!(validate_app_session_inputs(&jack, &Vec::new(), &valid[..1].to_vec()).is_err());

    let pipewire = ResolvedProfile {
        name: text("pipewire"),
        backend: text("pipewire"),
        ports: vec![ResolvedCapturePort { name: text("mic"), source: text("source_FL") }],
        export_policy: mic_policy(),
        pipewire_config: Some(PipeWireCaptureConfig {
            target: None,
            capture_ports: Vec::new(),
            sample_rate: 100,
            dont_remix: true,
            latency: None,
        }),
        ..jack
    };
    assert!(validate_app_session_inputs(&pipewire, &Vec::new(), &vec![None]).is_ok());
    let valid_pipewire = ResolvedLiveInputIdentity {
        backend: InputBackend::PipeWire,
        key_kind: LiveDeviceKeyKind::NodeName,
        key_value: text("node"),
        resolved_source: text("source_FL"),
    };
    let valid = vec![Some(valid_pipewire.clone())];
    assert!(validate_app_session_inputs(&pipewire, &Vec::new(), &valid).is_ok());
    let mut unrelated = valid_pipewire.clone();
    unrelated.resolved_source = text("source_FR");
    let configured = configured_identity(&pipewire, &text("mic"), None).unwrap();
    assert!(!session_input_is_coherent(&configured, &Some(unrelated.clone())));
    let unrelated = vec![Some(unrelated)];
    assert!(validate_app_session_inputs(&pipewire, &Vec::new(), &unrelated).is_err());
    let mut invalid = valid_pipewire;
    invalid.key_kind = LiveDeviceKeyKind::JackSourceClient;
    let invalid = vec![Some(invalid)];
    assert!(validate_app_session_inputs(&pipewire, &Vec::new(), &invalid).is_err());
}

fn calibration_test_context(sample_rate: u32, maximum_seconds: u32, durable: bool) -> Ctx {
    let mut config = threshold_test_config(&[]);
    config.daemon.active_profile = None;
    let mut profile = validate_profile(&config, "studio", MIC);
    let frames = u64::from(sample_rate) * u64::from(maximum_seconds);
    let session = app_session(&profile, sample_rate, frames);
    let mut ctx = mutation_context(config, None, Some(session));
    if !durable {
        profile.backend = text("pipewire");
        let session = ctx.runtime.session.as_mut().unwrap();
        session.configured_inputs = configured_identities(&profile, &Vec::new()).unwrap();
        session.resolved_live_inputs = vec![None];
        ctx.runtime.capture.as_mut().unwrap().kind = BackendKind::PipeWire;
    }
    ctx.runtime.active_profile = Some(profile);
    ctx
}

fn target_error(ctx: &Ctx, profile: &str, channel: &str) -> String {
    session_calibration_target(ctx, &text(profile), &text(channel)).err().unwrap().to_text()
}

#[test]
fn session_target_reports_exact_profile_channel_capture_and_live_key_errors() {
    let mut ctx = calibration_test_context(3, 30, true);

    assert_eq!(
        target_error(&ctx, "undefined", "mic"),
        "configuration error: profile undefined does not exist"
    );
    ctx.runtime
        .config
        .profiles
        .push(ProfileConfig { name: text("other"), channels: Vec::new() });
    assert_eq!(
        target_error(&ctx, "other", "mic"),
        "control error: profile other is not active"
    );
    assert_eq!(
        target_error(&ctx, "studio", "missing"),
        "configuration error: profile studio has no channel missing"
    );
    let session = ctx.runtime.session.take();
    assert_eq!(
        target_error(&ctx, "studio", "mic"),
        "control error: profile studio is not capturing"
    );
    ctx.runtime.session = session;

    let no_key = calibration_test_context(3, 30, false);
    assert_eq!(
        target_error(&no_key, "studio", "mic"),
        "control error: profile studio channel mic has no durable live key"
    );

    ctx.runtime.session.as_mut().unwrap().profile_name = text("replaced");
    assert_eq!(
        target_error(&ctx, "studio", "mic"),
        "control error: active capture session identity changed"
    );
    ctx.runtime_poisoned = true;
    assert_eq!(
        target_error(&ctx, "studio", "mic"),
        "control error: runtime state lock poisoned"
    );
}

#[test]
fn observation_uses_exact_one_thirty_and_startup_capacity_arithmetic() {
    let ctx = calibration_test_context(3, 30, true);
    let target = session_calibration_target(&ctx, &text("studio"), &text("mic")).unwrap();
    assert_eq!(target.sample_rate, 3);
    assert_eq!(target.capacity, 90);

    let (_, frames) = begin_calibration(&ctx, &text("studio"), &text("mic"), 1).unwrap();
    assert_eq!(frames, 3);
    let (_, frames) = begin_calibration(&ctx, &text("studio"), &text("mic"), 30).unwrap();
    assert_eq!(frames, 90);
    for seconds in [0, 31] {
        assert_eq!(
            begin_calibration(&ctx, &text("studio"), &text("mic"), seconds).unwrap_err(),
            LambError::Validation(text("calibration seconds must be within 1..=30"))
        );
    }
    assert_eq!(
        calibration_frames(&target, 31).unwrap_err().to_text(),
        "validation error: calibration frame count is outside startup capacity"
    );
}

/// A capture whose channel already has a calibrated threshold.
struct CalibratedReplacementFixture {
    ctx: Ctx,
    old_config: AppConfig,
    old_active_profile: ResolvedProfile,
    old_session: Session,
}

fn calibrated_replacement_fixture() -> CalibratedReplacementFixture {
    let mut config = threshold_test_config(MIC);
    let initial = validate_profile(&config, "studio", MIC);
    let configured = configured_identity(&initial, &text("mic"), None).unwrap();
    config.profiles[0].channels[0].activity = stored(
        -8.0618,
        ThresholdSource::Calibrated,
        900,
        input_id(&configured),
        Some("old-authoritative"),
    );
    let active = validate_profile(&config, "studio", MIC);
    let session = app_session(&active, 3, 90);
    CalibratedReplacementFixture {
        old_session: app_session(&active, 3, 90),
        ctx: mutation_context(config.clone(), Some(active.clone()), Some(session)),
        old_config: config,
        old_active_profile: active,
    }
}

impl CalibratedReplacementFixture {
    fn assert_old_session(&self) {
        let installed = self.ctx.runtime.session.as_ref().unwrap();
        let old = &self.old_session;
        assert_eq!(installed.identity, old.identity);
        assert_eq!(installed.sample_rate, old.sample_rate);
        assert_eq!(installed.channel_count, old.channel_count);
        assert_eq!(installed.profile_name, old.profile_name);
        assert_eq!(installed.policy, old.policy);
        assert_eq!(installed.configured_inputs, old.configured_inputs);
        assert_eq!(installed.resolved_live_inputs, old.resolved_live_inputs);
        assert_eq!(installed.calibration_sample_frames, old.calibration_sample_frames);
    }

    fn assert_old_authority(&self) {
        assert_eq!(self.ctx.runtime.config, self.old_config);
        assert_eq!(self.ctx.runtime.active_profile.as_ref(), Some(&self.old_active_profile));
        self.assert_old_session();
        assert_eq!(
            previous_generation(&self.ctx.runtime.config, &text("studio"), &text("mic"))
                .unwrap()
                .1,
            "old-authoritative"
        );
    }

    fn assert_observation_succeeds(&self) {
        let (target, frames) =
            begin_calibration(&self.ctx, &text("studio"), &text("mic"), 1).unwrap();
        assert_eq!(frames, 3);
        assert!(calibration_observed(&self.ctx, &target, true).is_ok());
    }
}

#[test]
fn initially_stopped_calibration_is_rejected_before_arena_admission() {
    let mut fixture = calibrated_replacement_fixture();
    fixture.ctx.stop = true;
    assert_eq!(
        begin_calibration(&fixture.ctx, &text("studio"), &text("mic"), 1).unwrap_err().to_text(),
        "capture error: calibration target is not currently capturing and healthy"
    );
    fixture.assert_old_authority();

    fixture.ctx.stop = false;
    fixture.assert_observation_succeeds();
    fixture.assert_old_authority();
}

#[test]
fn initially_invalid_calibration_target_matrix_never_admits_arena_work() {
    for invalidity in ["health", "attachment", "state", "identity"] {
        let mut fixture = calibrated_replacement_fixture();
        match invalidity {
            "health" => {
                let mut health = PipeWireHealth::with_fault_sink(RuntimeFaultSink::new(1));
                assert!(health.record_fatal(
                    &mut fixture.ctx.scheduler,
                    RuntimeCaptureFault::from_text("pre-published capture fault"),
                ));
                fixture.ctx.runtime.capture_health = Some(health);
            }
            "attachment" => fixture.ctx.runtime.capture = None,
            "state" => fixture.ctx.runtime.state = RunState::Idle,
            "identity" => {
                let active = fixture.ctx.runtime.active_profile.as_mut().unwrap();
                active.client_name = text("replacement-client");
                active.ports[0].source = text("other:capture_9");
            }
            _ => unreachable!(),
        }
        let runtime_before = |ctx: &Ctx| {
            (
                ctx.runtime.state,
                ctx.runtime.active_profile.clone(),
                ctx.runtime.capture_health.clone(),
                ctx.runtime.capture.is_some(),
            )
        };
        let before = runtime_before(&fixture.ctx);
        assert_eq!(
            begin_calibration(&fixture.ctx, &text("studio"), &text("mic"), 1)
                .unwrap_err()
                .to_text(),
            "capture error: calibration target is not currently capturing and healthy",
            "invalidity {invalidity}"
        );
        assert_eq!(fixture.ctx.runtime.config, fixture.old_config);
        fixture.assert_old_session();
        assert_eq!(runtime_before(&fixture.ctx), before);

        fixture.ctx.runtime.state = RunState::Capturing;
        fixture.ctx.runtime.capture_health = None;
        fixture.ctx.runtime.capture = Some(CaptureBackend {
            kind: BackendKind::Jack,
            rate: 3,
            error: None,
            resource: (),
        });
        fixture.ctx.runtime.active_profile = Some(fixture.old_active_profile.clone());
        fixture.assert_observation_succeeds();
        fixture.assert_old_authority();
    }
}

#[test]
fn observation_aborts_when_health_or_active_identity_changes() {
    for invalidate in ["health", "identity"] {
        let mut ctx = calibration_test_context(3, 30, true);
        let target = session_calibration_target(&ctx, &text("studio"), &text("mic")).unwrap();
        assert!(calibration_observed(&ctx, &target, true).is_ok());
        if invalidate == "health" {
            let mut health = PipeWireHealth::with_fault_sink(RuntimeFaultSink::new(1));
            assert!(health.record_fatal(
                &mut ctx.scheduler,
                RuntimeCaptureFault::from_text("capture health fault"),
            ));
            ctx.runtime.capture_health = Some(health);
        } else {
            ctx.runtime.active_profile = None;
        }
        assert!(!calibration_target_is_current(&ctx, &target), "{invalidate}");
        assert!(matches!(
            calibration_observed(&ctx, &target, true),
            Err(LambError::CaptureInvariant(_))
        ));
    }
}

#[test]
fn a_measurement_counts_only_for_the_session_and_rate_it_began_with() {
    let mut ctx = calibration_test_context(3, 30, true);
    let target = session_calibration_target(&ctx, &text("studio"), &text("mic")).unwrap();
    assert!(calibration_observed(&ctx, &target, false).is_err());
    assert!(admit_calibration(&ctx, &target).is_ok());

    ctx.runtime.session.as_mut().unwrap().identity = 8;
    assert_eq!(
        calibration_observed(&ctx, &target, true).unwrap_err().to_text(),
        "capture error: calibration observation was invalidated"
    );
    assert_eq!(
        admit_calibration(&ctx, &target).unwrap_err().to_text(),
        "capture error: calibration target changed before commit"
    );
    ctx.runtime.session.as_mut().unwrap().identity = 7;
    assert!(calibration_target_is_current(&ctx, &target));
    ctx.runtime.capture.as_mut().unwrap().rate = 4;
    assert!(!calibration_target_is_current(&ctx, &target));
}

#[test]
fn observation_aborts_when_same_named_resolved_profile_is_replaced() {
    let mut ctx = calibration_test_context(3, 30, true);
    let target = session_calibration_target(&ctx, &text("studio"), &text("mic")).unwrap();
    let mut replacement = ctx.runtime.active_profile.clone().unwrap();
    replacement.client_name = text("replacement-client");
    replacement.ports[0].source = text("other:capture_9");
    ctx.runtime.active_profile = Some(replacement);
    assert!(!calibration_target_is_current(&ctx, &target));
    assert!(matches!(
        calibration_observed(&ctx, &target, true),
        Err(LambError::CaptureInvariant(_))
    ));
}

#[test]
fn every_setting_of_a_profile_counts_for_a_calibration() {
    let changes: Vec<fn(&mut ResolvedProfile)> = vec![
        |profile| profile.client_name = text("other"),
        |profile| profile.buffer_seconds = 2,
        |profile| profile.export_policy.output_dir = text("/tmp/elsewhere"),
        |profile| profile.export_policy.layout = ResolvedLayout::FlatDetailed,
        |profile| profile.export_policy.activity.detector = ActivityDetectorKind::ExactZero,
        |profile| profile.export_policy.activity.whole_export_exact_zero_gate = false,
        |profile| profile.export_policy.activity.trim_leading_silence = true,
        |profile| profile.export_policy.activity.channels[0].mode = ChannelExportMode::Never,
        |profile| {
            let rule = &mut profile.export_policy.activity.channels[0];
            rule.threshold.as_mut().unwrap().updated_at_unix_seconds = 11;
        },
        |profile| profile.pipewire_config.as_mut().unwrap().latency = Some(text("128/48000")),
        |profile| {
            profile.pipewire_config.as_mut().unwrap().capture_ports =
                vec![ResolvedCapturePort { name: text("mic"), source: text("source_FL") }];
        },
    ];
    for (place, change) in changes.into_iter().enumerate() {
        let mut ctx = calibration_test_context(3, 30, true);
        let active = ctx.runtime.active_profile.as_mut().unwrap();
        active.export_policy.activity.channels[0].threshold =
            stored(-40.0, ThresholdSource::Manual, 10, text("input"), None);
        active.pipewire_config = Some(PipeWireCaptureConfig {
            target: None,
            capture_ports: Vec::new(),
            sample_rate: 3,
            dont_remix: true,
            latency: None,
        });
        let target = session_calibration_target(&ctx, &text("studio"), &text("mic")).unwrap();
        assert!(calibration_target_is_current(&ctx, &target));
        change(ctx.runtime.active_profile.as_mut().unwrap());
        assert!(!calibration_target_is_current(&ctx, &target), "change {place}");
    }
}

#[test]
fn levels_are_compared_as_numbers() {
    let samples = [0.0, -0.0, -40.0, -120.0, f64::NEG_INFINITY, f64::NAN];
    for first in samples {
        for second in samples {
            let mut one = validate_profile(&threshold_test_config(MIC), "studio", MIC);
            let mut two = one.clone();
            one.export_policy.activity.channels[0].threshold =
                stored(first, ThresholdSource::Manual, 10, text("input"), None);
            two.export_policy.activity.channels[0].threshold =
                stored(second, ThresholdSource::Manual, 10, text("input"), None);
            assert_eq!(one.same(&two), first == second, "{first} and {second}");
        }
    }
}

#[test]
fn direct_stop_during_prepared_generation_aborts_before_config_commit() {
    let mut fixture = calibrated_replacement_fixture();
    let (target, frames) =
        begin_calibration(&fixture.ctx, &text("studio"), &text("mic"), 1).unwrap();
    assert_eq!(frames, 3);
    assert_eq!(fixture.old_session.configured_inputs[0].backend, InputBackend::Jack);
    assert_eq!(
        fixture.old_session.resolved_live_inputs[0].as_ref().unwrap().backend,
        InputBackend::Jack
    );
    assert!(calibration_observed(&fixture.ctx, &target, true).is_ok());
    let recorded = || GenerationLook::Recorded;
    assert!(prepare_calibrated(&fixture.ctx, &target, -2.0, 1_000, recorded()).is_ok());

    let RequestRoute::Respond(response) =
        handle_idle_request(&mut fixture.ctx, ControlRequest::Stop)
    else {
        panic!("a stop is answered at once");
    };
    assert!(response.ok);
    assert_eq!(response.message, "stopping");
    assert!(fixture.ctx.stop);
    let error =
        prepare_calibrated(&fixture.ctx, &target, -2.0, 1_000, recorded()).unwrap_err();
    assert!(error.to_text().contains("calibration target changed before commit"));
    assert_eq!(admit_calibration(&fixture.ctx, &target).unwrap_err(), error);

    fixture.assert_old_authority();
    assert_eq!(fixture.ctx.runtime.state, RunState::Capturing);
    assert!(fixture.ctx.runtime.last_error.is_none());
    assert!(fixture.ctx.runtime.capture_health.is_none());
}

/// Prepares a calibrated threshold; the changed configuration is always accepted.
fn prepare_calibrated(
    ctx: &Ctx,
    target: &SessionCalibrationTarget,
    level: f64,
    created_at: u64,
    look: GenerationLook,
) -> Result<(PreparedThreshold, Option<(String, String)>), LambError> {
    let measured = MeasuredThreshold {
        threshold_bits: bits(level),
        input_id: input_id(&target.configured),
        calibration_id: text("generation-1"),
        created_at,
    };
    let candidate = calibrated_candidate(
        &ctx.runtime.config,
        &text("studio"),
        &text("mic"),
        measured.threshold_bits,
        &measured.input_id,
        &measured.calibration_id,
        created_at,
    );
    let resolved = validate_profile(&candidate, "studio", MIC);
    let mut evidence = evidence_for(&resolved);
    evidence[0].inspection = Ok(CalibrationArtifactStatus::Complete);
    evidence[0].validity = Ok(CalibrationValidity::Valid);
    prepare_calibrated_threshold(
        ctx,
        target,
        &measured,
        look,
        Ok(resolved),
        &evidence,
        &detector_versions(),
    )
}

/// Calibrates a channel from its measurement to the outcome of the write.
fn calibrate(
    ctx: &mut Ctx,
    level: f64,
    created_at: u64,
    saved: Result<(), LambError>,
) -> Result<ThresholdReport, LambError> {
    let profile = text("studio");
    let target = session_calibration_target(ctx, &profile, &text("mic")).unwrap();
    let (prepared, _) =
        prepare_calibrated(ctx, &target, level, created_at, GenerationLook::Missing)?;
    assert!(prepared.references.is_none());
    threshold_saved(ctx, &profile, prepared, saved).map(|(report, references)| {
        assert!(references.is_none());
        report
    })
}

#[test]
fn a_measured_threshold_is_taken_only_while_its_target_serves() {
    let mut ctx = calibration_test_context(3, 30, true);
    let target = session_calibration_target(&ctx, &text("studio"), &text("mic")).unwrap();
    let failed = || GenerationLook::Failed(LambError::Io(text("unreadable")));
    let (prepared, previous) = prepare_calibrated(&ctx, &target, -2.0, 1_000, failed()).unwrap();
    assert!(prepared.references.is_none());
    assert_eq!(previous, None);

    calibrate(&mut ctx, -2.0, 1_000, Ok(())).unwrap();
    let target = session_calibration_target(&ctx, &text("studio"), &text("mic")).unwrap();
    let (_, previous) =
        prepare_calibrated(&ctx, &target, -3.0, 1_001, GenerationLook::Recorded).unwrap();
    assert_eq!(previous, Some((input_id(&target.configured), text("generation-1"))));
    let (_, previous) =
        prepare_calibrated(&ctx, &target, -3.0, 1_001, GenerationLook::Missing).unwrap();
    assert_eq!(previous, None);
    assert_eq!(
        prepare_calibrated(&ctx, &target, -3.0, 1_001, failed()).unwrap_err(),
        LambError::Io(text("unreadable"))
    );

    ctx.runtime.session.as_mut().unwrap().policy_poisoned = true;
    assert_eq!(
        prepare_calibrated(&ctx, &target, -3.0, 1_001, GenerationLook::Missing)
            .unwrap_err()
            .to_text(),
        "control error: session export policy lock poisoned"
    );
    ctx.runtime.active_profile.as_mut().unwrap().buffer_seconds = 9;
    assert_eq!(
        prepare_calibrated(&ctx, &target, -3.0, 1_001, failed()).unwrap_err().to_text(),
        "capture error: calibration target changed before commit"
    );
}

#[test]
fn an_export_policy_that_someone_failed_on_keeps_a_change_from_the_disk() {
    let config = threshold_test_config(MIC);
    let active = validate_profile(&config, "studio", MIC);
    let mut session = app_session(&active, 100, 100);
    session.policy_poisoned = true;
    let mut ctx = mutation_context(config.clone(), Some(active), Some(session));
    let error = mutate_threshold_with(
        &mut ctx,
        "studio",
        "mic",
        Some(-40.0),
        20,
        MIC,
        |_| panic!("nothing is written down"),
        no_cleanup,
    )
    .unwrap_err();
    assert_eq!(error.to_text(), "control error: session export policy lock poisoned");
    assert_eq!(ctx.runtime.config, config);

    let refused = admit_persistence(&mut ctx).unwrap();
    assert!(!refused.ok);
    assert_eq!(refused.message, "control error: session export policy lock poisoned");
    assert_eq!(
        ctx.runtime.last_error.as_deref(),
        Some("control error: session export policy lock poisoned")
    );
    let session = ctx.runtime.session.as_mut().unwrap();
    session.policy_poisoned = false;
    session.workspace_poisoned = true;
    assert_eq!(
        admit_persistence(&mut ctx).unwrap().message,
        "control error: persistence workspace lock poisoned"
    );
    ctx.runtime.session.as_mut().unwrap().workspace_poisoned = false;
    assert!(admit_persistence(&mut ctx).is_none());
    ctx.runtime.session = None;
    assert_eq!(admit_persistence(&mut ctx).unwrap().message, "capture is not running");
    ctx.runtime_poisoned = true;
    assert_eq!(admit_persistence(&mut ctx).unwrap().message, "runtime state lock poisoned");
}

#[test]
fn the_status_of_a_poisoned_state_shows_no_audio() {
    let mut ctx = legacy_idle_context(None, false);
    ctx.runtime_poisoned = true;
    let mut status = idle_status_response(&ctx);
    let before = status.clone();
    status.fill_from_arena(Some(CaptureArenaStatus {
        capacity_frames: 500,
        retained_frames: 200,
        dropped_frames: 3,
        frozen_pending: true,
    }));
    assert_eq!(status, before);
    assert_eq!(status.buffer_capacity_frames, 0);
}

#[test]
fn live_calibration_commits_config_and_future_policy() {
    let mut ctx = calibration_test_context(3, 30, true);
    let profile = text("studio");
    let channel = text("mic");
    assert_eq!(previous_generation(&ctx.runtime.config, &profile, &channel), None);

    let report = calibrate(&mut ctx, -2.041200637817383, 1_000, Ok(())).unwrap();

    assert!(report.capturing);
    let stored = report.channels[0].stored.as_ref().unwrap();
    assert_eq!(stored.source, ThresholdSource::Calibrated);
    assert_eq!(stored.updated_at_unix_seconds, 1_000);
    assert_eq!(
        report.channels[0].effective_threshold_bits,
        Some(bits(-2.041200637817383))
    );
    assert_eq!(stored.calibration_id.as_deref(), Some("generation-1"));
    let (_, calibration_id) =
        previous_generation(&ctx.runtime.config, &profile, &channel).unwrap();
    assert_eq!(calibration_id, "generation-1");
    let session = ctx.runtime.session.as_ref().unwrap();
    assert_eq!(
        session.policy.activity.channels[0]
            .threshold
            .as_ref()
            .unwrap()
            .calibration_id
            .as_deref(),
        Some("generation-1")
    );
    assert_eq!(
        session.policy,
        ctx.runtime.active_profile.as_ref().unwrap().export_policy
    );
    assert_eq!(calibration_message(&None), "threshold calibrated");
    assert_eq!(
        calibration_message(&Some(text("/tmp/old"))),
        "threshold calibrated; old calibration cleanup pending: /tmp/old"
    );
}

#[test]
fn a_calibration_that_cannot_be_written_down_changes_nothing() {
    let mut ctx = calibration_test_context(3, 30, true);
    let config = ctx.runtime.config.clone();
    let active = ctx.runtime.active_profile.clone();
    let policy = ctx.runtime.session.as_ref().unwrap().policy.clone();
    let refusal = LambError::Io(text("/tmp/lamb.toml: no space"));
    assert_eq!(
        calibrate(&mut ctx, -2.0, 1_000, Err(refusal.clone())).unwrap_err(),
        refusal
    );
    assert_eq!(ctx.runtime.config, config);
    assert_eq!(ctx.runtime.active_profile, active);
    assert_eq!(ctx.runtime.session.as_ref().unwrap().policy, policy);
}

#[test]
fn failed_atomic_save_changes_no_disk_runtime_or_policy_and_skips_cleanup() {
    let config = threshold_test_config(MIC);
    let active = validate_profile(&config, "studio", MIC);
    let session = app_session(&active, 100, 100);
    let mut ctx = mutation_context(config.clone(), Some(active), Some(session));
    let before_policy = ctx.runtime.session.as_ref().unwrap().policy.activity.clone();

    let error = mutate_threshold_with(
        &mut ctx,
        "studio",
        "mic",
        None,
        999,
        MIC,
        |_| Err(LambError::Control(text("injected atomic save failure"))),
        |_| panic!("nothing is cleaned up"),
    )
    .unwrap_err();

    assert!(error.to_text().contains("injected atomic save failure"));
    assert_eq!(ctx.runtime.config, config);
    assert_eq!(ctx.runtime.session.as_ref().unwrap().policy.activity, before_policy);
}

#[test]
fn indeterminate_reset_publication_installs_nothing_and_leaves_disk_authority_uncertain() {
    let mut config = threshold_test_config(MIC);
    let resolved = validate_profile(&config, "studio", MIC);
    let input = configured_identity(&resolved, &text("mic"), None).unwrap();
    config.profiles[0].channels[0].activity = stored(
        -45.0,
        ThresholdSource::Manual,
        10,
        input_id(&input),
        Some("retained-until-known"),
    );
    let active = validate_profile(&config, "studio", MIC);
    let session = app_session(&active, 100, 100);
    let before_policy = session.policy.activity.clone();
    let mut ctx = mutation_context(config.clone(), Some(active.clone()), Some(session));
    let mut disk = config.clone();

    let error = mutate_threshold_with(
        &mut ctx,
        "studio",
        "mic",
        None,
        20,
        MIC,
        |candidate| {
            disk = candidate.clone();
            Err(LambError::IndeterminatePublication(text(
                "injected post-publication uncertainty",
            )))
        },
        |_| panic!("nothing is cleaned up"),
    )
    .unwrap_err();

    assert!(matches!(error, LambError::IndeterminatePublication(_)));
    assert_eq!(ctx.runtime.config, config);
    assert_eq!(ctx.runtime.active_profile, Some(active));
    let session = ctx.runtime.session.as_ref().unwrap();
    assert_eq!(session.identity, 7);
    assert_eq!(session.policy.activity, before_policy);
    assert!(disk.profiles[0].channels[0].activity.is_none());
    assert_ne!(disk, config);
}

#[test]
fn an_input_that_is_refused_as_a_whole_is_told_after_its_settings() {
    let ports = &[("left", "system:capture_1"), ("right", "system:capture_2")];
    let config = threshold_test_config(ports);
    let profile = validate_profile(&config, "studio", ports);
    let refusal = LambError::Validation(text("input source is too long"));
    let second = vec![None, Some(refusal.clone())];
    assert_eq!(
        configured_identity(&profile, &text("left"), Some(refusal.clone())).unwrap_err(),
        refusal
    );
    assert_eq!(configured_identities(&profile, &second).unwrap_err(), refusal);
    assert_eq!(jack_live_identities(&profile, &second).unwrap_err(), refusal);
    let live = jack_live_identities(&profile, &vec![None, None]).unwrap();
    assert_eq!(validate_app_session_inputs(&profile, &second, &live).unwrap_err(), refusal);

    let mut evidence = evidence_for(&profile);
    evidence[1].input_id = Err(refusal.clone());
    assert_eq!(report(&config, &profile, None, None, &evidence, 10).unwrap_err(), refusal);
    let candidate = |resolved: &ResolvedProfile| {
        threshold_candidate(
            &config,
            &text("studio"),
            &text("left"),
            resolved,
            Some(bits(-40.0)),
            Err(refusal.clone()),
            10,
        )
        .unwrap_err()
    };
    assert_eq!(candidate(&profile), refusal);

    let mut incomplete = profile.clone();
    incomplete.ports[0].source = text("nobody");
    let complete = "validation error: JACK source must be a complete client:port";
    let all = vec![Some(refusal.clone()), Some(refusal.clone())];
    assert_eq!(jack_live_identities(&incomplete, &all).unwrap_err().to_text(), complete);
    assert_eq!(configured_identities(&incomplete, &all).unwrap_err().to_text(), complete);
    assert_eq!(candidate(&incomplete).to_text(), complete);

    let pipewire = ResolvedProfile { backend: text("pipewire"), ..profile };
    let mut target = ResolvedTarget {
        id: None,
        name: text("device"),
        channels: 2,
        sample_rate: 100,
        source_ports: vec![
            ResolvedSourcePort { name: text("FL") },
            ResolvedSourcePort { name: text("FR") },
        ],
        durable_live_key: Some((LiveDeviceKeyKind::NodeName, text("device"))),
    };
    assert_eq!(pipewire_live_identities(&pipewire, &target, &second).unwrap_err(), refusal);
    target.durable_live_key = None;
    assert!(pipewire_live_identities(&pipewire, &target, &second).is_ok());
}

fn legacy_idle_context(capture_health: Option<PipeWireHealth>, stopped: bool) -> Ctx {
    let session = CaptureSession {
        identity: 1,
        sample_rate: 100,
        channel_count: 1,
        profile_name: text("legacy"),
        policy: policy(ActivityDetectorKind::ExactZero, Vec::new()),
        policy_poisoned: false,
        workspace_poisoned: false,
        configured_inputs: Vec::new(),
        resolved_live_inputs: Vec::new(),
        calibration_sample_frames: 0,
        resource: (),
    };
    let mut ctx = mutation_context(threshold_test_config(&[]), None, Some(session));
    ctx.runtime.config_family = ConfigFamily::Legacy;
    ctx.runtime.capture = None;
    ctx.runtime.capture_health = capture_health;
    ctx.runtime.lifecycle.mark_running(None, None);
    ctx.stop = stopped;
    ctx
}

#[test]
fn every_legacy_threshold_operation_returns_the_exact_unsupported_response() {
    let mut ctx = legacy_idle_context(None, false);
    let requests = [
        ThresholdRequest::Calibrate { profile: text("studio"), channel: text("mic"), seconds: 5 },
        ThresholdRequest::SetLevel {
            profile: text("studio"),
            channel: text("mic"),
            dbfs_bits: bits(-42.0),
        },
        ThresholdRequest::Show { profile: text("studio") },
        ThresholdRequest::Reset { profile: text("studio"), channel: text("mic") },
    ];
    for request in requests {
        let RequestRoute::Respond(response) =
            handle_idle_request(&mut ctx, ControlRequest::Threshold { request })
        else {
            panic!("the older format has no thresholds");
        };
        assert!(!response.ok);
        assert_eq!(
            response.message,
            "profile threshold commands are unsupported for legacy configuration"
        );
        assert_eq!(response.threshold_report, None);
    }
}

/// Answers a request about a profile that is not configured.
fn answer_unconfigured(ctx: &mut Ctx, request: ThresholdRequest) -> ControlResponse {
    let error = match handle_app_threshold(ctx, request) {
        ThresholdRoute::Respond(response) => return response,
        ThresholdRoute::Show { profile } => {
            find_profile(&ctx.runtime.config, &profile).unwrap_err()
        }
        ThresholdRoute::Change { profile, .. } => {
            begin_threshold_change(ctx, &profile).err().unwrap()
        }
        ThresholdRoute::Calibrate { profile, channel, seconds } => {
            begin_calibration(ctx, &profile, &channel, seconds).err().unwrap()
        }
    };
    finish_app_threshold(ctx, Err(error))
}

#[test]
fn app_threshold_errors_do_not_fall_back_to_legacy_and_calibrate_rechecks_bounds() {
    let mut config = threshold_test_config(&[]);
    config.profiles.clear();
    let mut ctx = mutation_context(config, None, None);
    let requests = [
        ThresholdRequest::Calibrate { profile: text("missing"), channel: text("mic"), seconds: 5 },
        ThresholdRequest::SetLevel {
            profile: text("missing"),
            channel: text("mic"),
            dbfs_bits: bits(-42.0),
        },
        ThresholdRequest::Show { profile: text("missing") },
        ThresholdRequest::Reset { profile: text("missing"), channel: text("mic") },
    ];
    for request in requests {
        let response = answer_unconfigured(&mut ctx, request);
        assert!(!response.ok);
        assert_ne!(
            response.message,
            "profile threshold commands are unsupported for legacy configuration"
        );
        assert_eq!(response.message, "configuration error: profile missing does not exist");
        assert_eq!(ctx.runtime.last_error.as_deref(), Some(response.message.as_str()));
    }

    for seconds in [0, 31] {
        let request = ThresholdRequest::Calibrate {
            profile: text("missing"),
            channel: text("mic"),
            seconds,
        };
        let ThresholdRoute::Respond(response) = handle_app_threshold(&mut ctx, request) else {
            panic!("the length is refused");
        };
        assert!(!response.ok);
        assert_eq!(
            response.message,
            "validation error: calibration seconds must be within 1..=30"
        );
    }
}

#[test]
fn missing_config_uses_shared_bounded_listener_and_preserves_originating_diagnostic() {
    let diagnostic = text("config file not found: /tmp/missing.toml");
    let mut ctx = mutation_context(threshold_test_config(&[]), None, None);
    ctx.runtime.last_error = Some(diagnostic.clone());
    ctx.runtime.config_load_error = Some(diagnostic.clone());

    let status = idle_status_response(&ctx);
    assert_eq!(status.last_error.as_deref(), Some(diagnostic.as_str()));

    let request = ThresholdRequest::Show { profile: text("studio") };
    let ThresholdRoute::Respond(rejected) = handle_app_threshold(&mut ctx, request) else {
        panic!("a configuration that cannot be used stands in the way");
    };
    assert!(!rejected.ok);
    assert_eq!(rejected.message, diagnostic);
    assert_eq!(rejected.status.unwrap().last_error.as_deref(), Some(diagnostic.as_str()));
    assert_eq!(busy_response(&ctx).message, "operation queue is busy or shutting down");

    let ClientRoute::Respond(stop) = route_client_request(&mut ctx, ControlRequest::Stop) else {
        panic!("a stop is answered at once");
    };
    assert!(stop.ok);
    assert_eq!(stop.message, "stopping");
    let queued = ControlRequest::Threshold {
        request: ThresholdRequest::Show { profile: text("queued") },
    };
    let JobRoute::Cancel(Some(cancelled)) = route_job(&ctx, OperationJob::Client(queued)) else {
        panic!("no job is carried out any more");
    };
    assert!(!cancelled.ok);
    assert_eq!(cancelled.message, "shutting down");
}

#[test]
fn threshold_operations_queue_in_order_while_status_routes_directly() {
    let mut ctx = mutation_context(threshold_test_config(MIC), None, None);
    let expected = [
        ThresholdRequest::Calibrate { profile: text("studio"), channel: text("mic"), seconds: 5 },
        ThresholdRequest::SetLevel {
            profile: text("studio"),
            channel: text("mic"),
            dbfs_bits: bits(-42.0),
        },
        ThresholdRequest::Show { profile: text("studio") },
        ThresholdRequest::Reset { profile: text("studio"), channel: text("mic") },
    ];
    let mut lane = VecDeque::new();
    for request in &expected {
        let request = ControlRequest::Threshold { request: request.clone() };
        match route_client_request(&mut ctx, request) {
            ClientRoute::Enqueue(request) => lane.push_back(OperationJob::Client(request)),
            ClientRoute::Respond(_) => panic!("a threshold request waits its turn"),
        }
    }
    let ClientRoute::Respond(status) = route_client_request(&mut ctx, ControlRequest::Status)
    else {
        panic!("the status is answered at once");
    };
    assert!(status.ok);
    assert_eq!(status.message, "status");
    assert_eq!(status.threshold_report, None);

    for request in expected {
        let job = lane.pop_front().unwrap();
        assert_eq!(
            route_job(&ctx, job),
            JobRoute::Handle(ControlRequest::Threshold { request })
        );
    }
}

#[test]
fn saturated_or_closed_threshold_lane_returns_the_bounded_busy_response() {
    let mut ctx = mutation_context(threshold_test_config(MIC), None, None);
    let mut lane: VecDeque<OperationJob> = VecDeque::new();
    let mut closed = false;
    let route = |ctx: &mut Ctx, lane: &mut VecDeque<OperationJob>, closed: bool, request| {
        match route_client_request(ctx, ControlRequest::Threshold { request }) {
            ClientRoute::Respond(_) => panic!("thresholds wait their turn"),
            ClientRoute::Enqueue(request) => {
                let answer = if closed {
                    Err(EnqueueError::Closed)
                } else if lane.len() == 1 {
                    Err(EnqueueError::Full)
                } else {
                    lane.push_back(OperationJob::Client(request));
                    Ok(())
                };
                answer.err().map(|_| busy_response(ctx))
            }
        }
    };
    let calibrate =
        ThresholdRequest::Calibrate { profile: text("studio"), channel: text("mic"), seconds: 5 };
    assert!(route(&mut ctx, &mut lane, closed, calibrate).is_none());
    let taken = lane.pop_front().unwrap();
    assert!(matches!(route_job(&ctx, taken), JobRoute::Handle(_)));
    let set = ThresholdRequest::SetLevel {
        profile: text("studio"),
        channel: text("mic"),
        dbfs_bits: bits(-42.0),
    };
    assert!(route(&mut ctx, &mut lane, closed, set).is_none());
    let show = ThresholdRequest::Show { profile: text("studio") };
    let full = route(&mut ctx, &mut lane, closed, show).unwrap();
    assert!(!full.ok);
    assert_eq!(full.message, "operation queue is busy or shutting down");

    closed = true;
    let reset = ThresholdRequest::Reset { profile: text("studio"), channel: text("mic") };
    let refused = route(&mut ctx, &mut lane, closed, reset).unwrap();
    assert!(!refused.ok);
    assert_eq!(refused.message, "operation queue is busy or shutting down");
}

#[test]
fn pipewire_runtime_fault_changes_legacy_and_profile_status_to_faulted() {
    let mut elsewhere = RetryScheduler::new();
    let mut health = PipeWireHealth::with_fault_sink(RuntimeFaultSink::new(1));
    assert!(health.record_fatal(
        &mut elsewhere,
        RuntimeCaptureFault::from_text("PipeWire core/proxy error: server disconnected"),
    ));

    let legacy = legacy_idle_context(Some(health.clone()), false);
    let mut profile = mutation_context(threshold_test_config(&[]), None, None);
    profile.runtime.state = RunState::Capturing;
    profile.runtime.capture_health = Some(health);

    for status in [idle_status_response(&legacy), idle_status_response(&profile)] {
        assert_eq!(status.state.label(), "faulted");
        assert_eq!(
            status.last_error.as_deref(),
            Some("PipeWire core/proxy error: server disconnected")
        );
    }
}

#[test]
fn normal_pipewire_stop_is_not_reported_as_a_fault() {
    let legacy = legacy_idle_context(Some(PipeWireHealth::with_fault_sink(RuntimeFaultSink::new(1))), true);

    let status = idle_status_response(&legacy);
    assert_eq!(status.state.label(), "stopping");
    assert_eq!(status.last_error, None);
}

#[test]
fn status_releases_runtime_lock_and_uses_one_stop_snapshot_before_arena_status() {
    let mut ctx = legacy_idle_context(None, false);
    let mut status = idle_status_response(&ctx);
    ctx.stop = true;
    status.fill_from_arena(Some(CaptureArenaStatus {
        capacity_frames: 500,
        retained_frames: 200,
        dropped_frames: 3,
        frozen_pending: true,
    }));
    assert_eq!(
        (status.state.label(), status.lifecycle.daemon_state),
        ("capturing", DaemonState::Ready),
        "old and additive status must use the same pre-stop snapshot"
    );
    assert_eq!(status.buffer_capacity_frames, 500);
    assert_eq!(status.retained_frames, 200);
    assert_eq!(status.dropped_frames, 3);
    assert_eq!(status.active_export_count, 1);
    assert_eq!(status.sample_rate, 100);
}

#[test]
fn a_session_that_does_not_answer_counts_as_empty() {
    let ctx = legacy_idle_context(None, false);
    let mut status = idle_status_response(&ctx);
    status.fill_from_arena(None);
    assert_eq!(status.buffer_capacity_frames, 0);
    assert_eq!(status.active_export_count, 0);
    assert_eq!(status.channel_count, 1);
}

#[test]
fn a_poisoned_status_shows_the_configuration_path_and_nothing_else() {
    let mut ctx = legacy_idle_context(None, false);
    ctx.runtime_poisoned = true;
    let status = idle_status_response(&ctx);
    assert_eq!(status.state.label(), "poisoned");
    assert_eq!(status.target.as_deref(), Some("/tmp/lamb.toml"));
    assert_eq!(status.lifecycle.capture_state, CaptureState::Faulted);
    assert_eq!(
        status.lifecycle.last_error.as_deref(),
        Some("runtime state lock poisoned")
    );
}

#[test]
fn app_status_reports_pending_frozen_epoch() {
    let mut ctx = legacy_idle_context(None, false);
    ctx.runtime.config_family = ConfigFamily::App;
    ctx.runtime.lifecycle = LifecycleState::ready_stopped(None);
    ctx.runtime.session.as_mut().unwrap().profile_name = text("test");
    let arena = |frozen_pending| CaptureArenaStatus {
        capacity_frames: 100,
        retained_frames: 3,
        dropped_frames: 0,
        frozen_pending,
    };
    let mut status = idle_status_response(&ctx);
    status.fill_from_arena(Some(arena(true)));
    assert_eq!(status.active_export_count, 1);
    let mut status = idle_status_response(&ctx);
    status.fill_from_arena(Some(arena(false)));
    assert_eq!(status.active_export_count, 0);
}

#[test]
fn app_recall_reports_poisoned_runtime_lock_as_internal_error() {
    let mut ctx = legacy_idle_context(None, false);
    ctx.runtime_poisoned = true;
    let SessionEntry::Respond(response) = enter_session_command(&ctx) else {
        panic!("nothing is written from a state that someone failed on");
    };
    assert!(!response.ok);
    assert_eq!(response.message, "runtime state lock poisoned");
}

#[test]
fn app_dump_reports_poisoned_runtime_lock_as_internal_error() {
    let mut ctx = legacy_idle_context(None, false);
    ctx.runtime_poisoned = true;
    let response = admit_persistence(&mut ctx).unwrap();
    assert!(!response.ok);
    assert_eq!(response.message, "runtime state lock poisoned");
}

#[test]
fn audio_is_asked_of_the_session_that_captures() {
    let mut ctx = legacy_idle_context(None, false);
    assert!(matches!(
        enter_session_command(&ctx),
        SessionEntry::Run { sample_rate: 100, .. }
    ));
    ctx.runtime.session = None;
    let SessionEntry::Respond(response) = enter_session_command(&ctx) else {
        panic!("nothing is captured");
    };
    assert_eq!(response.message, "capture is not running");

    assert_eq!(
        route_job(&ctx, OperationJob::Client(ControlRequest::Recall)),
        JobRoute::Persist(ExportCommand::Recall)
    );
    assert_eq!(
        route_job(&ctx, OperationJob::Client(ControlRequest::Dump)),
        JobRoute::Persist(ExportCommand::Dump)
    );
    let RequestRoute::Respond(response) = handle_idle_request(&mut ctx, ControlRequest::Dump)
    else {
        panic!("audio is handed out by the operation worker alone");
    };
    assert_eq!(response.message, "persistence commands require operation-worker delivery");
}

fn losses(lost_frames: u64) -> FrameLosses {
    FrameLosses {
        lost_frames,
        retention_lost_frames: lost_frames,
        cleared_frames: 0,
        capture_dropped_frames: 0,
    }
}

#[test]
fn clients_are_told_what_became_of_their_audio() {
    let mut ctx = legacy_idle_context(None, false);
    let written = DumpOutcome::Written {
        start_frame: 10,
        end_frame: 60,
        frames: 50,
        export_start_frame: 12,
        export_frames: 40,
        losses: losses(7),
        output_directory: text("/tmp/out"),
        files: vec![text("mic.wav")],
    };
    let response = app_persistence_response(&mut ctx, Ok(written), 100);
    assert!(response.ok);
    assert_eq!(
        response.message,
        "written: 50 frames; warning: 7 frames lost before persistence"
    );
    assert_eq!(
        response.persistence_outcome,
        Some(PersistenceOutcomeResponse::Written {
            start_frame: 10,
            end_frame: 60,
            frames: 50,
            export_start_frame: 12,
            export_frames: 40,
            sample_rate: 100,
            losses: losses(7),
            output_directory: text("/tmp/out"),
            files: vec![text("mic.wav")],
        })
    );
    let silent = DumpOutcome::SkippedSilent {
        start_frame: 0,
        end_frame: 5,
        frames: 5,
        losses: losses(0),
    };
    assert_eq!(
        app_persistence_response(&mut ctx, Ok(silent), 100).message,
        "skipped exact-zero audio: 5 frames"
    );
    let nothing = DumpOutcome::NoNewAudio { losses: losses(0) };
    assert_eq!(app_persistence_response(&mut ctx, Ok(nothing), 100).message, "no new audio");
    assert_eq!(
        persistence_message_from_committed(OutcomeSummary::NoNewAudio { lost_frames: 3 }),
        "no new audio; warning: 3 frames lost before persistence"
    );
    assert_eq!(persistence_message("skipped by policy", 2, 0), "skipped by policy: 2 frames");

    let failed = LambError::Control(text("disk full"));
    let response = app_persistence_response(&mut ctx, Err(failed), 100);
    assert!(!response.ok);
    assert_eq!(response.message, "control error: disk full");
    assert_eq!(ctx.runtime.last_error.as_deref(), Some("control error: disk full"));
}

#[test]
fn a_client_who_was_told_already_is_not_told_again() {
    let mut ctx = legacy_idle_context(None, false);
    assert!(app_persistence_delivered(&mut ctx, Ok(()), true).is_none());
    let late = app_persistence_delivered(&mut ctx, Err(LambError::Io(text("late"))), true);
    assert!(late.is_none());
    assert_eq!(ctx.runtime.last_error.as_deref(), Some("late"));
    let early = app_persistence_delivered(&mut ctx, Err(LambError::Io(text("early"))), false);
    assert_eq!(early.unwrap().message, "early");

    assert_eq!(finish_app_clear(&mut ctx, Ok(())).message, "cleared");
    assert!(!finish_app_clear(&mut ctx, Err(LambError::Io(text("stuck")))).ok);
    assert_eq!(ctx.runtime.last_error.as_deref(), Some("stuck"));
}
