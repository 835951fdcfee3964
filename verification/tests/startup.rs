use lamb_daemon::bootstrap::{
    bootstrap_config, config_family, expand_control_socket_path, inspect_config,
    named_control_socket, prepare_bootstrap_config, prepare_command_config, run_from_config_path,
    select_profile, startup_references, BootstrapConfig, ConfigRead, DaemonAction, DaemonEvent,
    ParsedConfig,
};
use lamb_daemon::error::LambError;
use lamb_daemon::legacy::{
    app_runtime_params, fake_chunk_frames, prepare_legacy_config, validate_runtime_environment,
};
use lamb_daemon::lifecycle::{RetryInstant, UnixOrigin};
use lamb_daemon::listener::{finish_idle_listener, next_shutdown_step, ShutdownStep};
use lamb_daemon::model::{
    ActivityDetectorKind, ActivityPolicy, ActivityThresholdConfig, AppConfig,
    CaptureRuntimeParams, ChannelConfig, ConfigFamily, ConfigLoadState, DaemonConfig, LambConfig,
    LoadedAppConfig, PreparedBootstrap, ProfileConfig, ResolvedExportPolicy, ResolvedLayout,
    ResolvedProfile, RuntimeDefaults, ThresholdSource,
};
use lamb_daemon::recovery::{log_recovery_summary, RecoveryIssue, RecoveryScanSummary};
use lamb_daemon::scheduler::RuntimeCaptureFault;
use lamb_daemon::socket::{
    check_socket_place, confirm_pinned, decide_cleanup, decide_stale_socket,
    decide_staging_cleanup, inspect_stale_socket, judge_wake, nul_terminated_path,
    private_socket_name, publish_socket, staged_identity, validate_unix_socket_path, PathLook,
    PathMetadata, ProbeAnswer, RenameOutcome, SocketIdentity, StaleStep, WakeOutcome,
};
use lamb_daemon::text::trim;

fn text(value: &str) -> String {
    value.to_string()
}

fn app_config(profiles: &[&str]) -> AppConfig {
    AppConfig {
        daemon: DaemonConfig {
            start_mode: text("manual"),
            active_profile: None,
            control_socket_path: text("%t/lamb/control.sock"),
        },
        profiles: profiles
            .iter()
            .map(|name| ProfileConfig { name: text(name), channels: Vec::new() })
            .collect(),
    }
}

fn loaded(config: AppConfig) -> PreparedBootstrap {
    PreparedBootstrap::App(LoadedAppConfig {
        config,
        state: ConfigLoadState::Loaded,
        error: None,
    })
}

#[test]
fn a_version_at_the_top_level_tells_the_older_format() {
    let source = inspect_config(ConfigRead::Text(text(
        "configVersion = 1\ncontrolSocketPath = \"/run/lamb.sock\"\n",
    )))
    .unwrap();
    assert_eq!(source.family, ConfigFamily::Legacy);
    assert_eq!(source.legacy_socket.as_deref(), Some("/run/lamb.sock"));

    let nested = inspect_config(ConfigRead::Text(text("[daemon]\nconfigVersion = 1\n"))).unwrap();
    assert_eq!(nested.family, ConfigFamily::App);

    let broken = inspect_config(ConfigRead::Text(text("configVersion = "))).unwrap();
    assert_eq!(broken.family, ConfigFamily::App);
    assert_eq!(broken.legacy_socket, None);

    let number = inspect_config(ConfigRead::Text(text(
        "configVersion = 1\ncontrolSocketPath = 7\n",
    )))
    .unwrap();
    assert_eq!(number.family, ConfigFamily::Legacy);
    assert_eq!(number.legacy_socket, None);

    let missing = inspect_config(ConfigRead::Missing).unwrap();
    assert_eq!(missing.family, ConfigFamily::App);
    assert_eq!(missing.text, None);
}

#[test]
fn a_top_level_is_read_by_its_first_entry_of_a_name() {
    let table = Some(vec![
        (text("controlSocketPath"), Some(text("/first"))),
        (text("configVersion"), None),
    ]);
    assert_eq!(config_family(&table), ConfigFamily::Legacy);
    assert_eq!(named_control_socket(&table).as_deref(), Some("/first"));
    assert_eq!(config_family(&None), ConfigFamily::App);
    assert_eq!(named_control_socket(&Some(Vec::new())), None);
}

#[test]
fn an_unreadable_configuration_is_not_mended_by_a_restart() {
    let error =
        inspect_config(ConfigRead::Failed(LambError::Io(text("/etc/lamb.toml: denied"))))
            .unwrap_err();
    assert_eq!(error.to_text(), "/etc/lamb.toml: denied");
    assert_eq!(error.process_exit_code(), 78);
}

#[test]
fn the_runtime_directory_is_put_in_wherever_it_is_left_open() {
    let dir = Some(text("/run/user/1000"));
    assert_eq!(
        expand_control_socket_path("%t/lamb/%t.sock", &dir).unwrap(),
        "/run/user/1000/lamb//run/user/1000.sock"
    );
    assert_eq!(expand_control_socket_path("%%t%", &dir).unwrap(), "%/run/user/1000%");
    assert_eq!(expand_control_socket_path("/run/a.sock", &None).unwrap(), "/run/a.sock");
    assert_eq!(expand_control_socket_path("", &None).unwrap(), "");
    assert_eq!(
        expand_control_socket_path("%t/a.sock", &None).unwrap_err(),
        LambError::Validation(text("XDG_RUNTIME_DIR does not exist"))
    );
}

#[test]
fn the_control_socket_is_the_named_one_or_the_usual_one() {
    let path = text("/etc/lamb.toml");
    let usual = text("%t/usual.sock");
    let dir = Some(text("/run"));
    let legacy = inspect_config(ConfigRead::Text(text(
        "configVersion = 1\ncontrolSocketPath = \"%t/legacy.sock\"\n",
    )))
    .unwrap();
    let bootstrap =
        bootstrap_config(&path, legacy, Some(text("/ignored")), &usual, &dir).unwrap();
    assert_eq!(bootstrap.control_socket_path, "/run/legacy.sock");

    let app = inspect_config(ConfigRead::Text(text("[daemon]\n"))).unwrap();
    let bootstrap =
        bootstrap_config(&path, app.clone(), Some(text("/app.sock")), &usual, &dir).unwrap();
    assert_eq!(bootstrap.control_socket_path, "/app.sock");
    let bootstrap = bootstrap_config(&path, app, None, &usual, &dir).unwrap();
    assert_eq!(bootstrap.control_socket_path, "/run/usual.sock");

    let missing = inspect_config(ConfigRead::Missing).unwrap();
    let error =
        bootstrap_config(&path, missing, Some(text("/ignored")), &usual, &None).unwrap_err();
    assert_eq!(error.process_exit_code(), 78);
    assert_eq!(error.to_text(), "validation error: XDG_RUNTIME_DIR does not exist");
}

#[test]
fn mistakes_in_a_configuration_are_kept_to_be_shown() {
    let bootstrap = BootstrapConfig {
        config_path: text("/etc/lamb.toml"),
        text: None,
        family: ConfigFamily::Legacy,
        control_socket_path: text("/run/lamb.sock"),
    };
    let mistake = || LambError::Config(text("no such key"));
    let prepared = prepare_bootstrap_config(
        &bootstrap,
        ParsedConfig::Legacy(Err(mistake())),
        app_config(&[]),
    );
    let PreparedBootstrap::Faulted { family, message, .. } = prepared else {
        panic!("a mistake in the older format is a fault");
    };
    assert_eq!(family, ConfigFamily::Legacy);
    assert_eq!(message, "configuration error: no such key");

    let prepared =
        prepare_bootstrap_config(&bootstrap, ParsedConfig::App(Err(mistake())), app_config(&[]));
    let PreparedBootstrap::App(kept) = prepared else {
        panic!("a mistake in a profile-based configuration is kept with it");
    };
    assert_eq!(kept.state, ConfigLoadState::Invalid);
    assert_eq!(kept.error.as_deref(), Some("configuration error: no such key"));

    let prepared =
        prepare_bootstrap_config(&bootstrap, ParsedConfig::Absent, app_config(&[]));
    assert!(matches!(
        prepared,
        PreparedBootstrap::Faulted { message, .. }
            if message == "config file not found: /etc/lamb.toml"
    ));
    let app = BootstrapConfig { family: ConfigFamily::App, ..bootstrap };
    let prepared = prepare_bootstrap_config(&app, ParsedConfig::Absent, app_config(&[]));
    assert!(matches!(
        prepared,
        PreparedBootstrap::App(LoadedAppConfig { state: ConfigLoadState::Missing, .. })
    ));
}

#[test]
fn a_requested_profile_becomes_the_active_one() {
    let path = text("/etc/lamb.toml");
    let selected = prepare_command_config(
        loaded(app_config(&["field", "studio"])),
        &Some(text("\n studio\t")),
        &path,
    )
    .unwrap();
    let PreparedBootstrap::App(selected) = selected else {
        panic!("the format stays");
    };
    assert_eq!(selected.config.daemon.active_profile.as_deref(), Some("studio"));

    let unchanged =
        prepare_command_config(loaded(app_config(&["field"])), &Some(text("  ")), &path).unwrap();
    let PreparedBootstrap::App(unchanged) = unchanged else {
        panic!("the format stays");
    };
    assert_eq!(unchanged.config.daemon.active_profile, None);

    let error = select_profile(loaded(app_config(&["field"])), Some(text("studio")), &path)
        .unwrap_err();
    assert_eq!(error.message, "profile studio does not exist");

    let missing = PreparedBootstrap::App(LoadedAppConfig {
        config: app_config(&[]),
        state: ConfigLoadState::Missing,
        error: None,
    });
    let error = select_profile(missing, None, &path).unwrap_err();
    assert_eq!(error.message, "config file not found: /etc/lamb.toml");
}

#[test]
fn startup_reconciliation_keeps_manual_and_calibrated_references_and_skips_invalid_config() {
    let input = format!("{:0>64}", "mic-system:capture_1");
    let mut config = app_config(&["studio"]);
    config.profiles[0].channels.push(ChannelConfig {
        name: text("mic"),
        activity: Some(ActivityThresholdConfig {
            threshold_bits: (-50.0_f64).to_bits(),
            threshold_source: ThresholdSource::Manual,
            updated_at_unix_seconds: 10,
            input_id: input.clone(),
            calibration_id: Some(text("manual-retained")),
        }),
    });
    let loaded = LoadedAppConfig { config, state: ConfigLoadState::Loaded, error: None };
    let references = startup_references(&loaded).unwrap();
    assert!(references.contains(&(input.clone(), text("manual-retained"))));
    assert!(!references.contains(&(input, text("orphan"))));
    assert_eq!(references.len(), 1);

    let invalid = LoadedAppConfig {
        config: app_config(&[]),
        state: ConfigLoadState::Invalid,
        error: Some(text("unparseable")),
    };
    assert_eq!(startup_references(&invalid), None);
}

#[test]
fn every_calibration_that_a_threshold_names_is_kept_at_startup() {
    let mut config = app_config(&["studio"]);
    for (name, source, calibration) in [
        ("mic", ThresholdSource::Manual, Some("manual-kept")),
        ("room", ThresholdSource::Calibrated, Some("calibrated-kept")),
        ("hall", ThresholdSource::Manual, None),
    ] {
        config.profiles[0].channels.push(ChannelConfig {
            name: text(name),
            activity: Some(ActivityThresholdConfig {
                threshold_bits: 0,
                threshold_source: source,
                updated_at_unix_seconds: 1,
                input_id: text("input"),
                calibration_id: calibration.map(text),
            }),
        });
    }
    let mut loaded = LoadedAppConfig { config, state: ConfigLoadState::Loaded, error: None };
    assert_eq!(
        startup_references(&loaded),
        Some(vec![
            (text("input"), text("manual-kept")),
            (text("input"), text("calibrated-kept")),
        ])
    );
    loaded.state = ConfigLoadState::Invalid;
    assert_eq!(startup_references(&loaded), None);
}

type Action = DaemonAction<(), ()>;

fn next(event: DaemonEvent<(), ()>) -> Action {
    run_from_config_path(&text("/etc/lamb.toml"), event)
}

fn bound(
    prepared: PreparedBootstrap,
    bound: Result<(), LambError>,
    calibration_root: Result<String, LambError>,
) -> DaemonEvent<(), ()> {
    DaemonEvent::SocketBound {
        bootstrap: BootstrapConfig {
            config_path: text("/etc/lamb.toml"),
            text: None,
            family: ConfigFamily::App,
            control_socket_path: text("/run/lamb.sock"),
        },
        prepared,
        bound,
        calibration_root,
        default_config: app_config(&[]),
        clock_origin: UnixOrigin { seconds: 5, nanos: 0 },
        attempts: 0,
    }
}

fn exit_error(action: Action) -> LambError {
    match action {
        DaemonAction::Exit { result: Err(error), .. } => error,
        _ => panic!("the daemon ends with an error"),
    }
}

#[test]
fn the_daemon_comes_up_from_its_configuration_to_its_listener() {
    let DaemonAction::ReadConfig { path } = next(DaemonEvent::Started) else {
        panic!("the configuration is read first");
    };
    assert_eq!(path, "/etc/lamb.toml");
    let DaemonAction::ParseConfig(source) =
        next(DaemonEvent::ConfigRead(ConfigRead::Text(text("[daemon]\n"))))
    else {
        panic!("the configuration is parsed next");
    };
    let DaemonAction::BindSocket { bootstrap, prepared } = next(DaemonEvent::ConfigParsed {
        source,
        parsed: ParsedConfig::App(Ok(app_config(&["studio"]))),
        app_socket: Some(text("%t/lamb.sock")),
        default_socket: text("/usual"),
        runtime_dir: Some(text("/run")),
        fallback: app_config(&[]),
    }) else {
        panic!("the socket is bound next");
    };
    assert_eq!(bootstrap.control_socket_path, "/run/lamb.sock");
    let DaemonAction::ApplyConfig { ctx, loaded, sink } = next(DaemonEvent::SocketBound {
        bootstrap,
        prepared,
        bound: Ok(()),
        calibration_root: Ok(text("/var/lamb")),
        default_config: app_config(&[]),
        clock_origin: UnixOrigin { seconds: 5, nanos: 0 },
        attempts: 0,
    }) else {
        panic!("a profile-based configuration is applied next");
    };
    assert_eq!(ctx.control_socket_path, "/run/lamb.sock");
    assert_eq!(loaded.config.profiles.len(), 1);
    assert_eq!(sink.attempt_id().raw, 1);
    let DaemonAction::AttemptStart { ctx, .. } = next(DaemonEvent::ConfigApplied {
        ctx,
        applied: Err(LambError::Config(text("profile studio does not exist"))),
        now: RetryInstant::from_millis(0),
    }) else {
        panic!("a mistake in the configuration does not end the daemon");
    };
    assert_eq!(ctx.runtime.state.label(), "faulted");
    assert_eq!(
        ctx.runtime.last_error.as_deref(),
        Some("configuration error: profile studio does not exist")
    );
    let DaemonAction::Listen(_) =
        next(DaemonEvent::StartAttempted { ctx, attempted: Ok(()) })
    else {
        panic!("clients are served next");
    };
    assert!(matches!(
        next(DaemonEvent::ListenerEnded(Ok(()))),
        DaemonAction::Exit { result: Ok(()), .. }
    ));
}

#[test]
fn what_goes_wrong_before_the_socket_is_bound_is_not_mended_by_a_restart() {
    let no = || LambError::Control(text("no"));
    let unread = exit_error(next(DaemonEvent::ConfigRead(ConfigRead::Failed(no()))));
    assert_eq!(unread.process_exit_code(), 78);
    let unbound = exit_error(next(bound(
        PreparedBootstrap::App(LoadedAppConfig {
            config: app_config(&[]),
            state: ConfigLoadState::Missing,
            error: None,
        }),
        Err(no()),
        Ok(text("/var/lamb")),
    )));
    assert_eq!(unbound.process_exit_code(), 78);
    assert_eq!(unbound.to_text(), "control error: no");

    let unplaced = exit_error(next(bound(loaded(app_config(&[])), Ok(()), Err(no()))));
    assert_eq!(unplaced, no());
    let ended = exit_error(next(DaemonEvent::ListenerEnded(Err(no()))));
    assert_eq!(ended.process_exit_code(), 1);
}

#[test]
fn a_broken_invariant_while_the_daemon_comes_up_ends_it() {
    let DaemonAction::ApplyConfig { ctx, .. } =
        next(bound(loaded(app_config(&[])), Ok(()), Ok(text("/var/lamb"))))
    else {
        panic!("a profile-based configuration is applied");
    };
    let error = exit_error(next(DaemonEvent::ConfigApplied {
        ctx,
        applied: Err(LambError::ControlInvariant(text("rules changed"))),
        now: RetryInstant::from_millis(0),
    }));
    assert_eq!(error, LambError::Capture(text("control error: rules changed")));
}

#[test]
fn attempts_are_counted_over_the_whole_process() {
    let after = |attempts| match bound(loaded(app_config(&[])), Ok(()), Ok(text("/var/lamb"))) {
        DaemonEvent::SocketBound {
            bootstrap,
            prepared,
            bound,
            calibration_root,
            default_config,
            clock_origin,
            ..
        } => next(DaemonEvent::SocketBound {
            bootstrap,
            prepared,
            bound,
            calibration_root,
            default_config,
            clock_origin,
            attempts,
        }),
        _ => panic!("the socket was bound"),
    };
    let DaemonAction::ApplyConfig { ctx, sink, .. } = after(41) else {
        panic!("a profile-based configuration is applied");
    };
    assert_eq!(sink.attempt_id().raw, 42);
    assert_eq!(ctx.attempts, 42);
    assert_eq!(
        exit_error(after(u64::MAX)),
        LambError::Capture(text("capture attempt identity overflow"))
    );
}

#[test]
fn a_configuration_that_cannot_be_used_still_comes_up() {
    let fault = PreparedBootstrap::Faulted {
        family: ConfigFamily::Legacy,
        fallback_app_config: app_config(&[]),
        message: text("schema fault"),
    };
    let DaemonAction::AttemptStart { ctx, .. } =
        next(bound(fault, Ok(()), Ok(text("/var/lamb"))))
    else {
        panic!("the daemon comes up");
    };
    assert_eq!(ctx.runtime.state.label(), "faulted");
    assert_eq!(ctx.runtime.config_load_error.as_deref(), Some("schema fault"));
    let error = exit_error(next(DaemonEvent::StartAttempted {
        ctx,
        attempted: Err(LambError::Capture(text("no more attempts"))),
    }));
    assert_eq!(error.to_text(), "capture error: no more attempts");
}

#[test]
fn fatal_listener_failure_exits_1_and_removes_socket() {
    let error = LambError::ControlInvariant(text("injected fatal listener failure"));
    assert_eq!(error.process_exit_code(), 1);
    assert_eq!(error.to_text(), "control error: injected fatal listener failure");
    let identity = SocketIdentity { dev: 1, ino: 2 };
    let own = PathLook::Found(PathMetadata { is_socket: true, dev: 1, ino: 2 });
    assert_eq!(decide_cleanup(identity, own), Ok(true));
}

#[test]
fn the_listener_ends_in_order_with_the_first_error() {
    let steps = |panicked| {
        let mut steps = Vec::new();
        let mut last = None;
        while let Some(step) = next_shutdown_step(last, panicked) {
            steps.push(step);
            last = Some(step);
        }
        steps
    };
    assert_eq!(
        steps(false),
        vec![
            ShutdownStep::JoinScheduler,
            ShutdownStep::CloseLane,
            ShutdownStep::JoinWorker,
            ShutdownStep::ReleaseCapture,
            ShutdownStep::CleanSocket,
        ]
    );
    assert_eq!(steps(true)[3], ShutdownStep::CancelLeftovers);

    let unclean = || Err(LambError::Io(text("busy")));
    assert_eq!(finish_idle_listener(&None, false, false, Ok(())), Ok(()));
    assert_eq!(
        finish_idle_listener(&None, false, false, unclean()).unwrap_err().to_text(),
        "busy"
    );
    assert_eq!(
        finish_idle_listener(&None, false, true, unclean()).unwrap_err().to_text(),
        "control error: operation worker panicked"
    );
    assert_eq!(
        finish_idle_listener(&None, true, true, unclean()).unwrap_err().to_text(),
        "control error: retry scheduler panicked"
    );
    assert_eq!(
        finish_idle_listener(&Some(text("first cause")), true, true, unclean()).unwrap_err(),
        LambError::Control(text("first cause"))
    );
}

#[test]
fn socket_paths_are_short_and_hold_no_nul() {
    let longest = vec![b'a'; 107];
    assert!(validate_unix_socket_path(&longest, "").is_ok());
    let error = validate_unix_socket_path(&vec![b'a'; 108], "/a/b").unwrap_err();
    assert_eq!(
        error.to_text(),
        "control error: control socket path exceeds Linux sockaddr_un.sun_path capacity \
         (108 > 107 bytes): /a/b"
    );
    let error = validate_unix_socket_path(&vec![b'a', 0], "").unwrap_err();
    assert_eq!(error.to_text(), "control error: control socket path contains NUL");

    assert_eq!(nul_terminated_path(&b"/x".to_vec()).unwrap(), b"/x\0");
    assert!(nul_terminated_path(&vec![0]).is_err());
    assert!(check_socket_place(true, true).is_ok());
    assert_eq!(
        check_socket_place(false, true).unwrap_err().to_text(),
        "control error: control socket path has no parent"
    );
    assert_eq!(
        check_socket_place(true, false).unwrap_err().to_text(),
        "control error: control socket path has no file name"
    );
}

#[test]
fn private_names_carry_sixteen_hexadecimal_digits() {
    for random in [0_u64, 1, 0xdead_beef, u64::MAX, 0x0123_4567_89ab_cdef] {
        assert_eq!(private_socket_name(random), format!(".lamb-{random:016x}"));
    }
}

fn found(is_socket: bool, dev: u64, ino: u64) -> PathLook {
    PathLook::Found(PathMetadata { is_socket, dev, ino })
}

#[test]
fn socket_owner_refuses_regular_stale_path() {
    let StaleStep::Refuse(error) = inspect_stale_socket(found(false, 1, 2), "/run/a") else {
        panic!("what is no socket stays");
    };
    assert_eq!(
        error.to_text(),
        "control error: refusing to replace non-socket control path /run/a"
    );
    assert!(matches!(inspect_stale_socket(PathLook::Absent, "/run/a"), StaleStep::Free));
}

#[test]
fn a_stale_socket_is_removed_only_where_nobody_listens() {
    let identity = SocketIdentity { dev: 1, ino: 2 };
    assert_eq!(
        inspect_stale_socket(found(true, 1, 2), "/run/a"),
        StaleStep::Probe(identity)
    );
    let decide = |answer, look| decide_stale_socket(identity, answer, look, "/run/a");
    assert_eq!(decide(ProbeAnswer::Refused, found(true, 1, 2)), Ok(true));
    assert_eq!(decide(ProbeAnswer::Refused, PathLook::Absent), Ok(false));
    assert_eq!(
        decide(ProbeAnswer::Refused, found(true, 1, 3)).unwrap_err().to_text(),
        "control error: control socket changed while checking stale path /run/a"
    );
    assert_eq!(
        decide(ProbeAnswer::Live, found(true, 1, 2)).unwrap_err().to_text(),
        "control error: control socket already has a live listener at /run/a"
    );
    assert_eq!(
        decide(ProbeAnswer::Accepted, found(true, 1, 2)).unwrap_err().to_text(),
        "control error: refusing control socket with unexpected probe response at /run/a"
    );
    let failed = LambError::Io(text("probe"));
    assert_eq!(decide(ProbeAnswer::Failed(failed.clone()), PathLook::Absent), Err(failed));
}

#[test]
fn socket_owner_does_not_unlink_replacement_path() {
    let identity = SocketIdentity { dev: 1, ino: 2 };
    assert_eq!(decide_cleanup(identity, found(false, 1, 2)), Ok(false));
    assert_eq!(decide_cleanup(identity, found(true, 9, 2)), Ok(false));
    assert_eq!(decide_cleanup(identity, PathLook::Absent), Ok(false));
    assert!(decide_cleanup(identity, PathLook::Failed(LambError::Io(text("x")))).is_err());
    assert!(decide_staging_cleanup(Some(identity), found(true, 1, 2)));
    assert!(!decide_staging_cleanup(Some(identity), found(true, 1, 3)));
    assert!(decide_staging_cleanup(None, found(true, 5, 5)));
    assert!(!decide_staging_cleanup(None, found(false, 5, 5)));
}

#[test]
fn a_socket_is_published_only_as_the_one_that_was_set_up() {
    let look = |is_socket| Ok(PathMetadata { is_socket, dev: 4, ino: 5 });
    let identity = staged_identity(look(true), "/run/.lamb").unwrap();
    assert_eq!(identity, SocketIdentity { dev: 4, ino: 5 });
    assert_eq!(
        staged_identity(look(false), "/run/.lamb").unwrap_err().to_text(),
        "control error: private control path is not a socket at /run/.lamb"
    );
    let gone = LambError::Io(text("/run/.lamb: no such file"));
    assert_eq!(staged_identity(Err(gone.clone()), "/run/.lamb").unwrap_err(), gone);
    let metadata = PathMetadata { is_socket: true, dev: 4, ino: 5 };
    assert!(confirm_pinned(identity, metadata, "/run/.lamb").is_ok());
    let other = PathMetadata { is_socket: true, dev: 4, ino: 6 };
    assert_eq!(
        confirm_pinned(identity, other, "/run/.lamb").unwrap_err().to_text(),
        "control error: private control socket changed before pinning at /run/.lamb"
    );
    assert!(publish_socket(RenameOutcome::Moved, "/run/a").is_ok());
    assert_eq!(
        publish_socket(RenameOutcome::Occupied, "/run/a").unwrap_err().to_text(),
        "control error: control path changed during socket publication at /run/a"
    );
}

#[test]
fn nonblocking_wake_tolerates_refused_stale_socket() {
    for outcome in [
        WakeOutcome::Connected,
        WakeOutcome::InProgress,
        WakeOutcome::AlreadyConnecting,
        WakeOutcome::BacklogFull,
        WakeOutcome::Refused,
    ] {
        assert!(judge_wake(outcome).is_ok());
    }
    assert!(judge_wake(WakeOutcome::Failed(LambError::Io(text("x")))).is_err());
}

fn legacy(backend: &str, socket: &str) -> LambConfig {
    LambConfig {
        backend: text(backend),
        target: None,
        channels: None,
        channel_map: None,
        capture_ports: Vec::new(),
        seconds: 1,
        sample_rate: 48_000,
        sample_format: text("F32LE"),
        chunk_frames: None,
        output_dir: text("/tmp"),
        control_socket_path: text(socket),
        memory_max: None,
        headroom_bits: 0,
        split_when_over_bytes: 0,
    }
}

#[test]
fn a_capture_needs_its_environment() {
    let dir = Some(text("/run"));
    let check = |cfg: &LambConfig, dir: &Option<String>, reachable| {
        validate_runtime_environment(cfg, dir, "/run/pipewire-0", reachable)
            .map_err(|error| error.to_text())
    };
    assert_eq!(
        check(&legacy("fake", "/run/a"), &None, false),
        Err(text("validation error: XDG_RUNTIME_DIR does not exist"))
    );
    assert_eq!(check(&legacy("fake", "/elsewhere/a"), &dir, false), Ok(()));
    assert_eq!(
        check(&legacy("fake", "%t/a"), &dir, false),
        Err(text("validation error: control socket path resolves outside runtime directory"))
    );
    assert_eq!(check(&legacy("fake", "/run/%t"), &dir, false), Ok(()));
    assert_eq!(
        check(&legacy("pipewire", "/run/a"), &dir, false),
        Err(text("validation error: PipeWire socket not reachable at /run/pipewire-0"))
    );
    assert_eq!(check(&legacy("pipewire", "/run/a"), &dir, true), Ok(()));
}

#[test]
fn the_operator_hears_of_writes_that_were_left_unfinished() {
    let mut summary = RecoveryScanSummary {
        discovered: 0,
        completed: 0,
        rolled_back: 0,
        pending: 0,
        failed: 0,
        issues: Vec::new(),
    };
    assert!(log_recovery_summary(&summary).is_empty());
    summary.issues.push(RecoveryIssue { path: text("/rec/a"), error: text("no space") });
    assert!(log_recovery_summary(&summary).is_empty());
    summary.discovered = 10;
    summary.completed = 4;
    summary.rolled_back = 3;
    summary.pending = 2;
    summary.failed = 1;
    assert_eq!(
        log_recovery_summary(&summary),
        vec![
            text(
                "lamb: startup recovery: 10 discovered, 4 completed, 3 rolled back, 2 pending, \
                 1 failed"
            ),
            text("lamb: warning: recovery of /rec/a: no space"),
        ]
    );
}

#[test]
fn white_space_is_removed_at_both_ends_only() {
    for sample in ["", " ", "a", "  a b\t\n", "\u{a0}x\u{3000}", "\u{85}y\u{2028}", "\u{200b}z "] {
        assert_eq!(trim(sample), sample.trim());
    }
}

fn silence() -> ResolvedExportPolicy {
    ResolvedExportPolicy {
        output_dir: text("/tmp/out"),
        layout: ResolvedLayout::CommandDefault,
        activity: ActivityPolicy {
            detector: ActivityDetectorKind::ExactZero,
            channels: Vec::new(),
            whole_export_exact_zero_gate: true,
            trim_leading_silence: false,
        },
    }
}

const DEFAULTS: RuntimeDefaults = RuntimeDefaults {
    io_buffer_bytes_per_channel: 4096,
    maximum_path_bytes: 512,
    capture_queue_slots: 8,
    capture_worker_stack_bytes: 65_536,
    control_queue_capacity: 2,
    worker_stack_bytes: 32_768,
};

fn assert_defaults(params: &CaptureRuntimeParams) {
    assert_eq!(params.io_buffer_bytes_per_channel, 4096);
    assert_eq!(params.maximum_path_bytes, 512);
    assert_eq!(params.capture_queue_slots, 8);
    assert_eq!(params.capture_worker_stack_bytes, 65_536);
    assert_eq!(params.control_queue_capacity, 2);
    assert_eq!(params.worker_stack_bytes, 32_768);
}

#[test]
fn the_stand_in_capture_hands_over_twenty_five_frames_unless_told_otherwise() {
    let mut cfg = legacy("fake", "/run/lamb.sock");
    cfg.chunk_frames = None;
    let prepared = prepare_legacy_config(cfg.clone(), Ok(()), Ok(silence()), DEFAULTS).unwrap();
    assert_eq!(fake_chunk_frames(&prepared), 25);
    assert_eq!(prepared.session_export_policy, silence());
    assert_eq!(prepared.runtime_params.maximum_calibration_seconds, 0);
    assert_defaults(&prepared.runtime_params);
    cfg.chunk_frames = Some(7);
    let prepared = prepare_legacy_config(cfg, Ok(()), Ok(silence()), DEFAULTS).unwrap();
    assert_eq!(fake_chunk_frames(&prepared), 7);
}

#[test]
fn a_profile_sets_memory_aside_for_half_a_minute_of_calibration() {
    let profile = ResolvedProfile {
        name: text("studio"),
        backend: text("jack"),
        client_name: text("lamb"),
        ports: Vec::new(),
        buffer_seconds: 90,
        export_policy: silence(),
        pipewire_config: None,
    };
    let params = app_runtime_params(&profile, 4096, DEFAULTS);
    assert_eq!(params.seconds, 90);
    assert_eq!(f64::from_bits(params.headroom_bits), 1.2);
    assert_eq!(params.split_when_over_bytes, 4096);
    assert_eq!(params.maximum_calibration_seconds, 30);
    assert_eq!(params.chunk_frames_override, None);
    assert_eq!(params.memory_max, None);
    assert_defaults(&params);
}

#[test]
fn a_bare_text_is_a_fault_of_the_backend() {
    let fault = RuntimeCaptureFault::from(text("stream lost"));
    assert_eq!(fault, RuntimeCaptureFault::BackendFault(text("stream lost")));
}
