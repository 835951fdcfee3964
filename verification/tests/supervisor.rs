use lamb_daemon::apply::{
    app_capture_recovered, app_prepare_failed, app_start_failed, begin_apply,
    install_attempt_policy, plan_app_backend,
    ApplyStep,
};
use lamb_daemon::attempt::{
    apply_capture_attempt_error_to_state, classify_pipewire_resolution_error,
    classify_pipewire_startup_error, CaptureAttemptError, PipeWireStartupError,
    TargetResolutionError,
};
use lamb_daemon::bootstrap::{
    bootstrap_config, build_idle_context, confirm_command_config, finish_idle_context,
    inspect_config, prepare_bootstrap_config, prepare_command_config, startup_apply_failed,
    BootstrapConfig, BuildStep, ConfigRead, ParsedConfig,
};
use lamb_daemon::commands::{
    admit_reload, admit_retry, begin_configured_start, begin_reload, begin_retry,
    begin_start_capture, configured_start_recovered, configured_start_result, detach_for_start,
    finish_start_capture, publish_runtime_fault, release_capture_for_shutdown,
    scheduled_generation_decision, stop_capture_transaction, CommandEntry, CommandStep,
    ConfiguredStart, ConfiguredStep, PreparedCommandConfig, RetryEntry, RetryStep,
    ScheduledGenerationDecision,
};
use lamb_daemon::control::{idle_status_response, ControlRequest, ControlResponse};
use lamb_daemon::error::LambError;
use lamb_daemon::health::PipeWireHealth;
use lamb_daemon::install::{
    app_candidate_built, app_candidate_failed, app_config_saved, begin_install, legacy_recovered,
    legacy_started, publish_app_candidate, AppStep, Completion, InstallRequest, InstallStep,
    LegacyStep,
};
use lamb_daemon::legacy::{
    assemble_legacy_capture, legacy_channel_count, prepare_legacy_config,
    resolve_legacy_capture_with,
};
use lamb_daemon::lifecycle::{
    CaptureState, DaemonState, ErrorClass, LifecycleState, RetryInstant, RetryPolicy, UnixOrigin,
};
use lamb_daemon::model::{
    drop_capture_then_session, empty_runtime, ActiveCapture, ActivityChannel, ActivityDetectorKind,
    ActivityPolicy, AppConfig, AppRuntimeState, BackendKind, CaptureBackend, CaptureSession,
    ChannelConfig, ChannelExportMode, ConfigFamily, ConfigLoadState, DaemonConfig,
    IdleDaemonContext, LambConfig, LoadedAppConfig, PreparedBootstrap, PreparedLegacyConfig,
    ProfileConfig, Released, ResolvedCapturePort, ResolvedCaptureState, ResolvedExportPolicy,
    ResolvedLayout, ResolvedProfile, RunState, RuntimeDefaults,
};
use lamb_daemon::operations::{
    begin_command_operation, begin_new_operation_generation, begin_shutdown,
    command_attempt_failure, command_attempt_failure_with_generation, operation_is_current,
    publish_capture_attempt_error, signal_fatal, signal_fatal_response, OperationEntry,
};
use lamb_daemon::requests::{
    handle_idle_request, route_client_request, route_job, ClientRoute, JobRoute, OperationJob,
    RequestRoute,
};
use lamb_daemon::scheduler::{
    AfterSubmit, CaptureAttemptId, EnqueueError, RuntimeCaptureFault, RuntimeFaultSink,
    ScheduledOperation, SchedulerStep,
};
use lamb_daemon::session::{
    open_app_session, AppSource, PrivateAppCaptureAttempt, StartedAppCapture,
};
use lamb_daemon::threshold::{
    CalibrationArtifactStatus, CalibrationValidity, ChannelEvidence, DetectorVersions,
};
use lamb_daemon::identity::{jack_live_identities, ResolvedSourcePort, ResolvedTarget};
use std::cell::{Cell, RefCell};
use std::collections::VecDeque;
use std::rc::Rc;

#[derive(Debug, Clone, Copy, PartialEq, Eq)]
enum ProbeResource {
    Backend,
    Session,
    Arena,
    Workspace,
    Descriptor,
}

const SESSION_RESOURCES: [ProbeResource; 4] = [
    ProbeResource::Session,
    ProbeResource::Arena,
    ProbeResource::Workspace,
    ProbeResource::Descriptor,
];

#[derive(Debug, Default)]
struct Counters {
    live: [Cell<usize>; 5],
    dropped: RefCell<Vec<ProbeResource>>,
}

impl Counters {
    fn slot(resource: ProbeResource) -> usize {
        match resource {
            ProbeResource::Backend => 0,
            ProbeResource::Session => 1,
            ProbeResource::Arena => 2,
            ProbeResource::Workspace => 3,
            ProbeResource::Descriptor => 4,
        }
    }

    fn lease(self: &Rc<Self>, resource: ProbeResource) -> Lease {
        let live = &self.live[Self::slot(resource)];
        live.set(live.get() + 1);
        Lease { counters: Rc::clone(self), resource }
    }

    fn live(&self, resource: ProbeResource) -> usize {
        self.live[Self::slot(resource)].get()
    }

    fn counts(&self) -> [usize; 5] {
        [
            self.live[0].get(),
            self.live[1].get(),
            self.live[2].get(),
            self.live[3].get(),
            self.live[4].get(),
        ]
    }

    fn dropped(&self) -> Vec<ProbeResource> {
        self.dropped.borrow().clone()
    }
}

#[derive(Debug)]
struct Lease {
    counters: Rc<Counters>,
    resource: ProbeResource,
}

impl Drop for Lease {
    fn drop(&mut self) {
        let live = &self.counters.live[Counters::slot(self.resource)];
        live.set(live.get() - 1);
        self.counters.dropped.borrow_mut().push(self.resource);
    }
}

type Backend = Option<Lease>;
type Memory = Vec<Lease>;
type Ctx = IdleDaemonContext<Backend, Memory>;
type Runtime = AppRuntimeState<Backend, Memory>;
type Active = ActiveCapture<Backend, Memory>;

const SOCKET: &str = "/tmp/lamb-test.sock";

fn fake_text() -> String {
    r#"
configVersion = 1
user = "test"
backend = "fake"
channels = 2
channelMap = ["left", "right"]
seconds = 5
sampleRate = 48000
sampleFormat = "F32LE"
dontRemix = true
outputDir = "/tmp/lamb-test-out"
maxActiveSnapshots = 1
allowQueuedRecall = false
controlSocketPath = "/tmp/lamb-test.sock"
controlPermissions = "0600"

[memory]
headroom = 1.2

[export]
mode = "per-channel"
format = "wav"
splitWhenOverBytes = 1073741824
"#
    .to_string()
}

fn pipewire_text() -> String {
    r#"
configVersion = 1
user = "test"
backend = "pipewire"
target = "studio-input"
capturePorts = [
  { source = "capture_AUX0", name = "mic" },
  { source = "capture_AUX1", name = "gtr" },
  { source = "capture_AUX2", name = "percL" },
  { source = "capture_AUX3", name = "percR" },
]
seconds = 30
sampleRate = 44100
sampleFormat = "F32LE"
dontRemix = true
outputDir = "/tmp/lamb-test-out"
maxActiveSnapshots = 1
allowQueuedRecall = false
controlSocketPath = "/tmp/lamb-test.sock"
controlPermissions = "0600"

[memory]
headroom = 1.2

[export]
mode = "per-channel"
format = "wav"
splitWhenOverBytes = 1073741824
"#
    .to_string()
}

fn app_text(start_mode: &str, socket: &str) -> String {
    format!("[daemon]\nstartMode = \"{start_mode}\"\ncontrolSocketPath = \"{socket}\"\n")
}

fn parse_legacy(text: &str) -> LambConfig {
    let value = toml::from_str::<toml::Value>(text).unwrap();
    let string = |key: &str| value.get(key).and_then(|v| v.as_str()).unwrap_or("").to_string();
    let number = |key: &str| value.get(key).and_then(|v| v.as_integer());
    LambConfig {
        backend: string("backend"),
        target: value.get("target").and_then(|v| v.as_str()).map(str::to_string),
        channels: number("channels").map(|n| u32::try_from(n).unwrap()),
        channel_map: value.get("channelMap").and_then(|v| v.as_array()).map(|names| {
            names.iter().map(|name| name.as_str().unwrap().to_string()).collect()
        }),
        capture_ports: value
            .get("capturePorts")
            .and_then(|v| v.as_array())
            .map(|ports| {
                ports
                    .iter()
                    .map(|port| port.get("name").unwrap().as_str().unwrap().to_string())
                    .collect()
            })
            .unwrap_or_default(),
        seconds: u32::try_from(number("seconds").unwrap()).unwrap(),
        sample_rate: u32::try_from(number("sampleRate").unwrap()).unwrap(),
        sample_format: string("sampleFormat"),
        chunk_frames: None,
        output_dir: string("outputDir"),
        control_socket_path: string("controlSocketPath"),
        memory_max: None,
        headroom_bits: 1.2_f64.to_bits(),
        split_when_over_bytes: 1_073_741_824,
    }
}

fn export_policy(names: Vec<String>) -> ResolvedExportPolicy {
    ResolvedExportPolicy {
        output_dir: "/tmp/out".to_string(),
        layout: ResolvedLayout::CommandDefault,
        activity: ActivityPolicy {
            detector: ActivityDetectorKind::ExactZero,
            channels: names
                .into_iter()
                .map(|name| ActivityChannel {
                    name,
                    mode: ChannelExportMode::Always,
                    threshold: None,
                })
                .collect(),
            whole_export_exact_zero_gate: true,
            trim_leading_silence: false,
        },
    }
}

const DEFAULTS: RuntimeDefaults = RuntimeDefaults {
    io_buffer_bytes_per_channel: 4096,
    maximum_path_bytes: 512,
    capture_queue_slots: 8,
    capture_worker_stack_bytes: 64 * 1024,
    control_queue_capacity: 2,
    worker_stack_bytes: 64 * 1024,
};

fn check_static(cfg: &LambConfig) -> Result<(), LambError> {
    if cfg.channels.is_some() && !cfg.capture_ports.is_empty() {
        return Err(LambError::Validation("channels conflicts with capturePorts".to_string()));
    }
    Ok(())
}

fn session_policy(cfg: &LambConfig) -> Result<ResolvedExportPolicy, LambError> {
    if cfg.output_dir.split('/').any(|part| part == "..") {
        return Err(LambError::Validation("output directory leaves its root".to_string()));
    }
    let names = if cfg.capture_ports.is_empty() {
        cfg.channel_map.clone().unwrap_or_default()
    } else {
        cfg.capture_ports.clone()
    };
    Ok(export_policy(names))
}

fn prepare_legacy(cfg: LambConfig) -> Result<PreparedLegacyConfig, LambError> {
    let ports = Ok(cfg.capture_ports.len() as u64);
    legacy_channel_count(&cfg, check_static(&cfg), ports)?;
    let policy = session_policy(&cfg);
    prepare_legacy_config(cfg, Ok(()), policy, DEFAULTS)
}

fn default_app_config() -> AppConfig {
    AppConfig {
        daemon: DaemonConfig {
            start_mode: "manual".to_string(),
            active_profile: None,
            control_socket_path: SOCKET.to_string(),
        },
        profiles: Vec::new(),
    }
}

fn parse_app(text: &str) -> Result<AppConfig, LambError> {
    let value = toml::from_str::<toml::Value>(text)
        .map_err(|error| LambError::Config(error.to_string()))?;
    let daemon = value.get("daemon");
    let string = |key: &str| {
        daemon.and_then(|table| table.get(key)).and_then(|v| v.as_str()).map(str::to_string)
    };
    Ok(AppConfig {
        daemon: DaemonConfig {
            start_mode: string("startMode").unwrap_or_else(|| "manual".to_string()),
            active_profile: string("activeProfile"),
            control_socket_path: string("controlSocketPath")
                .unwrap_or_else(|| SOCKET.to_string()),
        },
        profiles: Vec::new(),
    })
}

fn studio_config(start_mode: &str) -> AppConfig {
    AppConfig {
        daemon: DaemonConfig {
            start_mode: start_mode.to_string(),
            active_profile: Some("studio".to_string()),
            control_socket_path: SOCKET.to_string(),
        },
        profiles: vec![ProfileConfig {
            name: "studio".to_string(),
            channels: vec![ChannelConfig { name: "mic".to_string(), activity: None }],
        }],
    }
}

fn studio_profile() -> ResolvedProfile {
    ResolvedProfile {
        name: "studio".to_string(),
        backend: "jack".to_string(),
        client_name: "lamb-test".to_string(),
        ports: vec![ResolvedCapturePort {
            name: "mic".to_string(),
            source: "system:capture_1".to_string(),
        }],
        buffer_seconds: 1,
        export_policy: export_policy(vec!["mic".to_string()]),
        pipewire_config: None,
    }
}

fn resolve_active(config: &AppConfig) -> Result<Option<ResolvedProfile>, LambError> {
    match config.daemon.active_profile.as_deref() {
        None => Ok(None),
        Some("studio") => Ok(Some(studio_profile())),
        Some(name) => Err(LambError::Config(format!("profile {name} does not exist"))),
    }
}

fn detector_versions() -> DetectorVersions {
    DetectorVersions {
        exact_zero: "exact-zero-v1".to_string(),
        windowed_rms_peak: "windowed-rms-peak-v1".to_string(),
    }
}

fn no_evidence(profile: &ResolvedProfile) -> Vec<ChannelEvidence> {
    profile
        .ports
        .iter()
        .map(|port| ChannelEvidence {
            input_id: Ok(format!("input-{}", port.name)),
            inspection: Ok(CalibrationArtifactStatus::Complete),
            validity: Ok(CalibrationValidity::Valid),
        })
        .collect()
}

fn test_resolved_target(channels: u32, sample_rate: u32) -> ResolvedTarget {
    ResolvedTarget {
        id: Some(70),
        name: "studio-input".to_string(),
        channels,
        sample_rate,
        source_ports: (0..channels)
            .map(|index| ResolvedSourcePort { name: format!("capture_AUX{index}") })
            .collect(),
        durable_live_key: None,
    }
}

fn test_session(memory: Memory) -> CaptureSession<Memory> {
    CaptureSession {
        identity: 1,
        sample_rate: 100,
        channel_count: 1,
        profile_name: "legacy".to_string(),
        policy: export_policy(Vec::new()),
        policy_poisoned: false,
        workspace_poisoned: false,
        configured_inputs: Vec::new(),
        resolved_live_inputs: Vec::new(),
        calibration_sample_frames: 0,
        resource: memory,
    }
}

fn probe_backend(lease: Lease) -> CaptureBackend<Backend> {
    CaptureBackend { kind: BackendKind::Fake, rate: 0, error: None, resource: Some(lease) }
}

fn capture_with_resources(counters: &Rc<Counters>) -> Active {
    ActiveCapture {
        backend: probe_backend(counters.lease(ProbeResource::Backend)),
        session: test_session(SESSION_RESOURCES.iter().map(|r| counters.lease(*r)).collect()),
        health: None,
        resolved: ResolvedCaptureState {
            channel_count: 1,
            sample_rate: 100,
            resolved_target: Some("probe".to_string()),
        },
    }
}

fn test_active_capture() -> Active {
    let prepared = prepare_legacy(parse_legacy(&fake_text())).unwrap();
    let resolved =
        resolve_legacy_capture_with(&prepared, Err(LambError::Capture(String::new()))).unwrap();
    assemble_legacy_capture(&prepared, resolved, None, Vec::new(), 1, None)
}

fn transient(state: CaptureState, message: &str) -> CaptureAttemptError {
    CaptureAttemptError {
        class: ErrorClass::Transient,
        capture_state: state,
        message: message.to_string(),
    }
}

fn missing_target() -> CaptureAttemptError {
    transient(CaptureState::WaitingForDevice, "selected PipeWire target is missing")
}

fn fatal(message: &str) -> CaptureAttemptError {
    CaptureAttemptError {
        class: ErrorClass::Fatal,
        capture_state: CaptureState::Faulted,
        message: message.to_string(),
    }
}

fn permanent(message: &str) -> CaptureAttemptError {
    CaptureAttemptError {
        class: ErrorClass::Permanent,
        capture_state: CaptureState::Faulted,
        message: message.to_string(),
    }
}

/// What stands outside the daemon: the disk, the devices, the clock, and what
/// happens meanwhile.
struct World {
    disk: Option<String>,
    outcomes: VecDeque<Result<Active, CaptureAttemptError>>,
    app_outcomes: VecDeque<CaptureAttemptError>,
    recoveries: VecDeque<Result<u64, LambError>>,
    resources: Rc<Counters>,
    calls: usize,
    constructed: usize,
    disk_reads: usize,
    saves: usize,
    saved: Option<AppConfig>,
    recovered: usize,
    save_results: VecDeque<Result<(), LambError>>,
    sinks: Vec<RuntimeFaultSink>,
    now_millis: u64,
    early_fault: Option<RuntimeCaptureFault>,
    with_health: bool,
    loaded: Option<LoadedAppConfig>,
    meanwhile: Option<Box<dyn FnOnce(&mut Ctx)>>,
    after_save: Option<Box<dyn FnOnce(&mut Ctx)>>,
}

impl World {
    fn new() -> Self {
        World {
            disk: Some(fake_text()),
            outcomes: VecDeque::new(),
            app_outcomes: VecDeque::new(),
            recoveries: VecDeque::new(),
            resources: Rc::new(Counters::default()),
            calls: 0,
            constructed: 0,
            disk_reads: 0,
            saves: 0,
            saved: None,
            recovered: 0,
            save_results: VecDeque::new(),
            sinks: Vec::new(),
            now_millis: 0,
            early_fault: None,
            with_health: false,
            loaded: None,
            meanwhile: None,
            after_save: None,
        }
    }

    fn now(&self) -> RetryInstant {
        RetryInstant::from_millis(self.now_millis)
    }

    fn read_config(
        &mut self,
        path: &String,
        requested: &Option<String>,
    ) -> Result<PreparedCommandConfig, CaptureAttemptError> {
        self.disk_reads += 1;
        let read = match &self.disk {
            Some(text) => ConfigRead::Text(text.clone()),
            None => ConfigRead::Missing,
        };
        let source = inspect_config(read).unwrap();
        let text = source.text.clone();
        let family = source.family;
        let app = text.as_deref().map(parse_app);
        let app_socket = match &app {
            Some(Ok(config)) => Some(config.daemon.control_socket_path.clone()),
            _ => None,
        };
        let bootstrap =
            bootstrap_config(path, source, app_socket, &SOCKET.to_string(), &None).unwrap();
        let parsed = match (family, text.as_deref()) {
            (_, None) => ParsedConfig::Absent,
            (ConfigFamily::Legacy, Some(text)) => {
                ParsedConfig::Legacy(prepare_legacy(parse_legacy(text)))
            }
            (ConfigFamily::App, Some(_)) => ParsedConfig::App(app.unwrap()),
        };
        let prepared = prepare_bootstrap_config(&bootstrap, parsed, default_app_config());
        let selected = prepare_command_config(prepared, requested, path)?;
        let resolved = match &selected {
            PreparedBootstrap::App(loaded) => resolve_active(&loaded.config).map(|_| ()),
            _ => Ok(()),
        };
        confirm_command_config(selected, bootstrap.control_socket_path, resolved)
    }

    fn start(&mut self, sink: RuntimeFaultSink) -> Result<Active, CaptureAttemptError> {
        self.calls += 1;
        self.sinks.push(sink);
        let outcome = self.outcomes.pop_front().expect("scripted capture outcome");
        let mut health = None;
        if self.with_health || self.early_fault.is_some() {
            let mut unarmed = PipeWireHealth::unarmed_with_fault_sink(sink);
            if let Some(fault) = self.early_fault.take() {
                let mut elsewhere = lamb_daemon::scheduler::RetryScheduler::new();
                assert!(unarmed.record_fatal(&mut elsewhere, fault));
                assert_eq!(elsewhere.pending_operation(), None);
            }
            health = Some(unarmed);
        }
        outcome.map(|mut active| {
            self.constructed += 1;
            if health.is_some() {
                active.health = health;
            }
            active
        })
    }

    fn recover(&mut self) -> Result<u64, LambError> {
        self.recovered += 1;
        self.recoveries.pop_front().unwrap_or(Ok(0))
    }

    fn interfere(&mut self, ctx: &mut Ctx) {
        if let Some(meanwhile) = self.meanwhile.take() {
            meanwhile(ctx);
        }
    }

    fn apply_app(
        &mut self,
        state: &mut Runtime,
        loaded: LoadedAppConfig,
        path: &String,
        sink: RuntimeFaultSink,
        first: bool,
        current: &dyn Fn() -> bool,
    ) -> Result<(), (Released<Backend, Memory>, LambError)> {
        let nothing = || Released { backend: None, session: None };
        let active = resolve_active(&loaded.config);
        let config = loaded.config.clone();
        match begin_apply(state, loaded, active, path, first, current()) {
            ApplyStep::Finished(result) => result.map_err(|error| (nothing(), error)),
            ApplyStep::StartCapture(released) => {
                drop(released);
                let profile = state.active_profile.clone().unwrap();
                self.calls += 1;
                self.sinks.push(sink);
                if let Some(error) = self.app_outcomes.pop_front() {
                    return app_prepare_failed(state, error, self.now())
                        .map_err(|error| (nothing(), error));
                }
                if let Err(error) = plan_app_backend(&profile) {
                    return app_start_failed(state, error, current(), self.now())
                        .map_err(|error| (nothing(), error));
                }
                let health = self.early_fault.take().map(|fault| {
                    let mut health = PipeWireHealth::unarmed_with_fault_sink(sink);
                    let mut elsewhere = lamb_daemon::scheduler::RetryScheduler::new();
                    assert!(health.record_fatal(&mut elsewhere, fault));
                    health
                });
                let started = StartedAppCapture {
                    source: AppSource::Prepared {
                        kind: BackendKind::Jack,
                        live: jack_live_identities(&profile, &Vec::new()).unwrap(),
                    },
                    sample_rate: 100,
                    identity: sink.attempt_id().raw,
                    calibration_sample_frames: 3_000,
                    health,
                    input_refusals: Vec::new(),
                    live_refusals: Vec::new(),
                    backend: Some(self.resources.lease(ProbeResource::Backend)),
                    memory: SESSION_RESOURCES.iter().map(|r| self.resources.lease(*r)).collect(),
                };
                let attempt = match open_app_session(&profile, started, current()) {
                    Ok(attempt) => attempt,
                    Err(failed) => return Err((nothing(), failed.error)),
                };
                let attempt = install_attempt_policy(
                    &config,
                    &profile,
                    attempt,
                    &no_evidence(&profile),
                    &detector_versions(),
                    1_000,
                    current(),
                )?;
                let recovery = self.recover();
                app_capture_recovered(state, attempt, recovery, current())
            }
        }
    }

    fn install(
        &mut self,
        ctx: &mut Ctx,
        request: InstallRequest,
        prepared: PreparedBootstrap,
    ) -> ControlResponse {
        match begin_install(ctx, request, prepared, self.now()) {
            InstallStep::Done(done) => settle(done),
            InstallStep::StartLegacy { prepared, sink } => {
                let outcome = self.start(sink);
                self.interfere(ctx);
                match legacy_started(ctx, request, outcome, self.now()) {
                    LegacyStep::Done(done) => settle(done),
                    LegacyStep::Recover(active) => {
                        let recovery = self.recover();
                        settle(legacy_recovered(
                            ctx,
                            request,
                            prepared,
                            active,
                            recovery,
                            self.now(),
                        ))
                    }
                }
            }
            InstallStep::BuildApp { loaded, configured_start_mode, sink } => {
                let mut candidate: Runtime = empty_runtime(ConfigFamily::App, default_app_config());
                let path = ctx.config_path.clone();
                let built = self.apply_app(&mut candidate, loaded, &path, sink, false, &|| {
                    operation_is_current(ctx, request.token)
                });
                match built {
                    Err((given_up, error)) => {
                        settle(app_candidate_failed(ctx, request, given_up, error, self.now()))
                    }
                    Ok(()) => self.finish_candidate(ctx, request, candidate, configured_start_mode),
                }
            }
        }
    }

    fn finish_candidate(
        &mut self,
        ctx: &mut Ctx,
        request: InstallRequest,
        candidate: Runtime,
        configured_start_mode: String,
    ) -> ControlResponse {
        self.interfere(ctx);
        match app_candidate_built(ctx, request, candidate, configured_start_mode, self.now()) {
            AppStep::Done(done) => settle(done),
            AppStep::Publish(candidate) => settle(publish_app_candidate(ctx, request, candidate)),
            AppStep::Save(candidate) => {
                self.saves += 1;
                let saved = self.save_results.pop_front().unwrap_or(Ok(()));
                if saved.is_ok() {
                    self.saved = Some(candidate.config.clone());
                }
                if let Some(after_save) = self.after_save.take() {
                    after_save(ctx);
                }
                settle(app_config_saved(ctx, request, candidate, saved, self.now()))
            }
        }
    }

    fn start_capture(
        &mut self,
        ctx: &mut Ctx,
        profile: Option<String>,
        activate: bool,
    ) -> ControlResponse {
        let operation = match begin_start_capture(ctx) {
            CommandEntry::Respond(response) => return response,
            CommandEntry::Prepare(operation) => operation,
        };
        let path = ctx.config_path.clone();
        let candidate = self.read_config(&path, &profile);
        match detach_for_start(ctx, operation, &profile, activate, candidate, self.now()) {
            CommandStep::Done(done) => settle(done),
            CommandStep::Install { request, prepared, released } => {
                drop(released);
                let response = self.install(ctx, request, prepared);
                finish_start_capture(response, &profile)
            }
        }
    }

    fn reload(&mut self, ctx: &mut Ctx) -> ControlResponse {
        self.reload_with_hook(ctx, |_| {})
    }

    fn reload_with_hook(
        &mut self,
        ctx: &mut Ctx,
        after_entry: impl FnOnce(&mut Ctx),
    ) -> ControlResponse {
        let operation = match begin_reload(ctx) {
            CommandEntry::Respond(response) => return response,
            CommandEntry::Prepare(operation) => operation,
        };
        after_entry(ctx);
        let path = ctx.config_path.clone();
        let candidate = self.read_config(&path, &None);
        match admit_reload(ctx, operation, candidate, self.now()) {
            CommandStep::Done(done) => settle(done),
            CommandStep::Install { request, prepared, released } => {
                drop(released);
                self.install(ctx, request, prepared)
            }
        }
    }

    fn retry(&mut self, ctx: &mut Ctx, generation: u64) {
        let token = match begin_retry(ctx, generation) {
            RetryEntry::Skip(released) => {
                drop(released);
                return;
            }
            RetryEntry::Prepare { token } => token,
        };
        let path = ctx.config_path.clone();
        let candidate = match self.loaded.clone() {
            Some(loaded) => Ok(PreparedCommandConfig {
                prepared: PreparedBootstrap::App(loaded),
                control_socket_path: ctx.control_socket_path.clone(),
            }),
            None => self.read_config(&path, &None),
        };
        match admit_retry(ctx, generation, token, candidate, self.now()) {
            RetryStep::Done(released) => drop(released),
            RetryStep::Install { request, prepared } => {
                let response = self.install(ctx, request, prepared);
                signal_fatal_response(ctx, &response);
            }
        }
    }

    fn configured_start(&mut self, ctx: &mut Ctx) -> Result<(), LambError> {
        match begin_configured_start(ctx) {
            ConfiguredStart::Skip => Ok(()),
            ConfiguredStart::Fail(error) => Err(error),
            ConfiguredStart::Start { sink } => {
                let outcome = self.start(sink);
                let step = match configured_start_result(ctx, outcome, self.now()) {
                    ConfiguredStep::Recover(active) => {
                        let recovery = self.recover();
                        configured_start_recovered(ctx, active, recovery, self.now())
                    }
                    finished => finished,
                };
                match step {
                    ConfiguredStep::Finished { result, released } => {
                        drop(released);
                        result
                    }
                    ConfiguredStep::Recover(_) => unreachable!("the attempt is over"),
                }
            }
        }
    }

    fn job(&mut self, ctx: &mut Ctx, job: OperationJob) -> Option<ControlResponse> {
        match route_job(ctx, job) {
            JobRoute::Cancel(response) => response,
            JobRoute::Persist(_) => panic!("no audio is written here"),
            JobRoute::Retry { generation } => {
                self.retry(ctx, generation);
                None
            }
            JobRoute::Fault { generation, attempt_id, fault } => {
                drop(publish_runtime_fault(ctx, generation, attempt_id, fault, self.now()));
                None
            }
            JobRoute::Handle(request) => {
                let response = match handle_idle_request(ctx, request) {
                    RequestRoute::Respond(response) => response,
                    RequestRoute::Done(done) => settle(done),
                    RequestRoute::StartCapture { profile, activate } => {
                        self.start_capture(ctx, profile, activate)
                    }
                    RequestRoute::Reload => self.reload(ctx),
                    RequestRoute::Clear | RequestRoute::Threshold(_) => {
                        panic!("not part of these scenarios")
                    }
                };
                signal_fatal_response(ctx, &response);
                Some(response)
            }
        }
    }
}

/// Lets the scheduler hand on what is due, and the worker do it.
fn run_scheduler(world: &mut World, ctx: &mut Ctx) {
    while let SchedulerStep::Submit { operation, wake_epoch } =
        ctx.scheduler.next_step(world.now())
    {
        assert_eq!(ctx.scheduler.submitted(wake_epoch, Ok(())), AfterSubmit::Continue);
        ctx.scheduler.notify_lane_available();
        world.job(ctx, OperationJob::Internal(operation));
    }
}

fn settle(done: Completion<Backend, Memory>) -> ControlResponse {
    for released in done.released {
        drop(released);
    }
    done.response
}

fn legacy_context(config_path: &str) -> Ctx {
    let bootstrap = BootstrapConfig {
        config_path: config_path.to_string(),
        text: Some(fake_text()),
        family: ConfigFamily::Legacy,
        control_socket_path: SOCKET.to_string(),
    };
    let prepared =
        PreparedBootstrap::Legacy(prepare_legacy(parse_legacy(&fake_text())).unwrap());
    build_ready(bootstrap, prepared)
}

fn build_ready(bootstrap: BootstrapConfig, prepared: PreparedBootstrap) -> Ctx {
    match build_idle_context(
        bootstrap,
        prepared,
        "/tmp/lamb-test-calibration".to_string(),
        default_app_config(),
        UnixOrigin { seconds: 0, nanos: 0 },
        0,
    ) {
        BuildStep::Ready(ctx) => ctx,
        _ => panic!("no profile-based configuration here"),
    }
}

fn build_app(world: &mut World, config: AppConfig) -> Result<Ctx, LambError> {
    let bootstrap = BootstrapConfig {
        config_path: "/tmp/lamb.toml".to_string(),
        text: None,
        family: ConfigFamily::App,
        control_socket_path: SOCKET.to_string(),
    };
    let loaded = LoadedAppConfig { config, state: ConfigLoadState::Loaded, error: None };
    let step = build_idle_context(
        bootstrap,
        PreparedBootstrap::App(loaded),
        "/tmp/lamb-test-calibration".to_string(),
        default_app_config(),
        UnixOrigin { seconds: 0, nanos: 0 },
        0,
    );
    let BuildStep::ApplyApp { mut ctx, loaded, sink } = step else {
        panic!("a profile-based configuration is applied");
    };
    world.loaded = Some(loaded.clone());
    let path = ctx.config_path.clone();
    if let Err((given_up, error)) =
        world.apply_app(&mut ctx.runtime, loaded, &path, sink, true, &|| true)
    {
        drop(given_up);
        let (result, released) = startup_apply_failed(&mut ctx, error, world.now());
        drop(released);
        result?;
    }
    finish_idle_context(&mut ctx);
    Ok(ctx)
}

struct SupervisorHarness {
    ctx: Ctx,
    world: World,
}

#[derive(Debug, Clone, PartialEq, Eq)]
struct Snapshot {
    prepared: Option<PreparedLegacyConfig>,
    backend: bool,
    session: Option<u64>,
    lifecycle: LifecycleState,
    family: ConfigFamily,
    state: RunState,
    status: String,
}

impl SupervisorHarness {
    fn stopped() -> Self {
        let mut ctx = legacy_context("/tmp/lamb.toml");
        ctx.runtime.state = RunState::Stopped;
        ctx.runtime.lifecycle.mark_stopped(None);
        SupervisorHarness { ctx, world: World::new() }
    }

    fn stopped_with(outcomes: Vec<Result<Active, CaptureAttemptError>>) -> Self {
        let mut harness = Self::stopped();
        harness.world.outcomes = VecDeque::from(outcomes);
        harness
    }

    fn running() -> Self {
        let mut harness = Self::stopped();
        let active = capture_with_resources(&harness.world.resources);
        publish_directly(&mut harness.ctx, active, None);
        harness
    }

    fn snapshot(&self) -> Snapshot {
        let status = idle_status_response(&self.ctx);
        Snapshot {
            prepared: self.ctx.runtime.prepared_legacy.clone(),
            backend: self.ctx.runtime.capture.is_some(),
            session: self.ctx.runtime.session.as_ref().map(|session| session.identity),
            lifecycle: self.ctx.runtime.lifecycle.clone(),
            family: self.ctx.runtime.config_family,
            state: self.ctx.runtime.state,
            status: format!("{status:?}"),
        }
    }

    fn lifecycle(&self) -> &LifecycleState {
        &self.ctx.runtime.lifecycle
    }

    fn start_capture(&mut self) -> ControlResponse {
        self.world.start_capture(&mut self.ctx, None, false)
    }

    fn stop_capture(&mut self) -> ControlResponse {
        settle(stop_capture_transaction(&mut self.ctx))
    }

    fn reload(&mut self) -> ControlResponse {
        self.world.reload(&mut self.ctx)
    }

    fn reload_with_text(&mut self, text: &str) -> ControlResponse {
        self.world.disk = Some(text.to_string());
        self.reload()
    }
}

fn publish_directly(ctx: &mut Ctx, active: Active, health: Option<PipeWireHealth>) {
    let target = active.resolved.resolved_target.clone();
    ctx.runtime.capture = Some(active.backend);
    ctx.runtime.session = Some(active.session);
    ctx.runtime.capture_health = health;
    ctx.runtime.resolved_capture = Some(active.resolved);
    ctx.runtime.state = RunState::Capturing;
    ctx.runtime.lifecycle.mark_running(None, target);
}

fn assert_preserved_with_one_generation_advance(before: &Snapshot, after: &Snapshot) {
    assert_eq!(
        after.lifecycle.generation,
        before.lifecycle.generation.checked_add(1).unwrap()
    );
    let mut normalized = after.clone();
    normalized.lifecycle.generation = before.lifecycle.generation;
    assert_eq!(&normalized, before);
}

const LANE_CAPACITY: usize = 4;

/// The daemon with its scheduler, its line of jobs and its worker, driven step by
/// step.
struct RetryOperationHarness {
    ctx: Ctx,
    world: World,
    lane: VecDeque<OperationJob>,
    observed: Vec<&'static str>,
    completed: usize,
    timed_waits: usize,
    lane_capacity: usize,
    submissions: usize,
}

impl RetryOperationHarness {
    fn new(outcomes: Vec<Result<Active, CaptureAttemptError>>) -> Self {
        let mut ctx = legacy_context("/tmp/lamb.toml");
        ctx.runtime.state = RunState::Stopped;
        ctx.runtime.lifecycle.mark_stopped(None);
        assert_eq!(ctx.runtime.lifecycle.begin_operation().unwrap(), 1);
        assert!(ctx.scheduler.claim_thread());
        let mut world = World::new();
        world.outcomes = VecDeque::from(outcomes);
        world.with_health = true;
        let mut harness = RetryOperationHarness {
            ctx,
            world,
            lane: VecDeque::new(),
            observed: Vec::new(),
            completed: 0,
            timed_waits: 0,
            lane_capacity: LANE_CAPACITY,
            submissions: 0,
        };
        assert!(harness.status_via_socket().ok);
        harness
    }

    fn with_probe_attempts(attempts: usize) -> Self {
        let mut harness = Self::new(Vec::new());
        for _ in 0..attempts {
            let active = capture_with_resources(&harness.world.resources);
            harness.world.outcomes.push_back(Ok(active));
        }
        harness
    }

    fn status_via_socket(&mut self) -> ControlResponse {
        match route_client_request(&mut self.ctx, ControlRequest::Status) {
            ClientRoute::Respond(response) => response,
            ClientRoute::Enqueue(_) => panic!("the status is answered at once"),
        }
    }

    /// Lets the scheduler hand on what is due.
    fn schedule(&mut self) {
        loop {
            match self.ctx.scheduler.next_step(self.world.now()) {
                SchedulerStep::Exit | SchedulerStep::Wait => return,
                SchedulerStep::WaitMillis(_) => {
                    self.timed_waits += 1;
                    return;
                }
                SchedulerStep::Submit { operation, wake_epoch } => {
                    self.submissions += 1;
                    let answer = if self.lane.len() < self.lane_capacity {
                        self.lane.push_back(OperationJob::Internal(operation));
                        Ok(())
                    } else {
                        Err(EnqueueError::Full)
                    };
                    if self.ctx.scheduler.submitted(wake_epoch, answer) == AfterSubmit::Wait {
                        return;
                    }
                }
            }
        }
    }

    /// Lets the scheduler and the worker go on until both have nothing to do.
    fn run(&mut self) -> Vec<ControlResponse> {
        let mut responses = Vec::new();
        self.schedule();
        while let Some(job) = self.lane.pop_front() {
            self.ctx.scheduler.notify_lane_available();
            self.observed.push(match &job {
                OperationJob::Internal(ScheduledOperation::Retry { .. }) => "retry",
                OperationJob::Internal(ScheduledOperation::RuntimeFault { .. }) => "runtime-fault",
                OperationJob::Client(ControlRequest::StartCapture { .. }) => "start-capture",
                OperationJob::Client(ControlRequest::StopCapture) => "stop-capture",
                OperationJob::Client(_) => "client",
            });
            if let Some(response) = self.world.job(&mut self.ctx, job) {
                responses.push(response);
            }
            self.completed += 1;
            self.schedule();
        }
        responses
    }

    fn enqueue_internal(&mut self, operation: ScheduledOperation) {
        match operation {
            ScheduledOperation::Retry { generation } => {
                let now = self.world.now();
                self.ctx.scheduler.schedule_retry(generation, now);
            }
            ScheduledOperation::RuntimeFault { generation, attempt_id, fault } => {
                self.ctx.scheduler.notify_fault(generation, attempt_id, fault);
            }
        }
        self.schedule();
    }

    fn enqueue_request(&mut self, request: ControlRequest) {
        match route_client_request(&mut self.ctx, request) {
            ClientRoute::Respond(_) => panic!("the request waits its turn"),
            ClientRoute::Enqueue(request) => self.lane.push_back(OperationJob::Client(request)),
        }
    }

    fn request(&mut self, request: ControlRequest) -> ControlResponse {
        self.enqueue_request(request);
        self.run().pop().unwrap()
    }

    fn stop_capture(&mut self) {
        let response = self.request(ControlRequest::StopCapture);
        assert!(response.ok, "{}", response.message);
        self.observed.clear();
        self.completed = 0;
    }

    fn attempt_initial_start(&mut self) {
        let response =
            self.request(ControlRequest::StartCapture { profile: None, activate: false });
        assert!(
            response.ok || response.status.is_some(),
            "start response must preserve control-plane status: {}",
            response.message
        );
        self.observed.clear();
        self.completed = 0;
    }

    fn advance_to_next_retry(&mut self) {
        let due = self
            .ctx
            .runtime
            .lifecycle
            .next_retry_at
            .expect("transient lifecycle has a retry deadline");
        self.world.now_millis = due.as_millis();
        self.run();
    }

    fn lifecycle(&self) -> &LifecycleState {
        &self.ctx.runtime.lifecycle
    }

    fn record_fault(&mut self, fault: RuntimeCaptureFault) -> bool {
        let mut health = self.ctx.runtime.capture_health.take().expect("published health");
        let first = health.record_fatal(&mut self.ctx.scheduler, fault);
        self.ctx.runtime.capture_health = Some(health);
        first
    }
}

#[test]
fn resolving_four_pipewire_ports_preserves_static_config() {
    let prepared = prepare_legacy(parse_legacy(&pipewire_text())).unwrap();
    let before = prepared.static_config.clone();
    let resolved = resolve_legacy_capture_with(
        &prepared,
        Ok((test_resolved_target(4, 44_100), Vec::new())),
    )
    .unwrap();

    assert_eq!(resolved.state.channel_count, 4);
    assert_eq!(resolved.state.sample_rate, 44_100);
    assert_eq!(resolved.state.resolved_target.as_deref(), Some("studio-input (70)"));
    assert_eq!(prepared.static_config, before);
    assert_eq!(prepared.static_config.channels, None);
}

#[test]
fn retry_and_client_capture_commands_share_fifo_order() {
    let mut harness =
        RetryOperationHarness::new(vec![Ok(test_active_capture()), Ok(test_active_capture())]);
    harness.enqueue_internal(ScheduledOperation::Retry { generation: 1 });
    harness.enqueue_request(ControlRequest::StartCapture { profile: None, activate: false });
    let responses = harness.run();
    assert!(responses.iter().all(|response| response.ok));
    assert_eq!(harness.completed, 2);
    assert_eq!(harness.observed, vec!["retry", "start-capture"]);
}

#[test]
fn stale_retry_is_noop_after_stop_capture() {
    let mut harness = RetryOperationHarness::new(Vec::new());
    harness.stop_capture();
    let calls_before = harness.world.calls;
    harness.enqueue_internal(ScheduledOperation::Retry { generation: 1 });
    harness.run();
    assert_eq!(harness.world.calls, calls_before);
    assert_eq!(harness.lifecycle().capture_state, CaptureState::Stopped);
}

#[test]
fn integrated_scheduler_and_worker_reject_stale_fault_notification_and_publication() {
    let mut harness = RetryOperationHarness::new(Vec::new());
    let old_generation = harness.lifecycle().generation;
    let attempt_id = CaptureAttemptId { raw: 1 };
    let sink = harness.ctx.scheduler.fault_sink(old_generation, attempt_id);
    harness.stop_capture();

    sink.notify(
        &mut harness.ctx.scheduler,
        RuntimeCaptureFault::BackendFault("stale notification".to_string()),
    );
    harness.run();
    assert_eq!(harness.ctx.scheduler.pending_operation(), None);

    harness.enqueue_internal(ScheduledOperation::RuntimeFault {
        generation: old_generation,
        attempt_id,
        fault: RuntimeCaptureFault::BackendFault("stale publication".to_string()),
    });
    harness.run();
    let lifecycle = harness.lifecycle();
    assert_eq!(lifecycle.capture_state, CaptureState::Stopped);
    assert_eq!(lifecycle.error_class, None);
    assert_eq!(lifecycle.retry_policy, RetryPolicy::NoRetry);
}

#[test]
fn pipewire_resolution_errors_map_without_rendered_string_classification() {
    let cases = [
        (
            TargetResolutionError::TargetMissing("missing target".to_string()),
            ErrorClass::Transient,
            CaptureState::WaitingForDevice,
        ),
        (
            TargetResolutionError::PortMissing("missing port".to_string()),
            ErrorClass::Transient,
            CaptureState::WaitingForDevice,
        ),
        (
            TargetResolutionError::BackendUnavailable("daemon absent".to_string()),
            ErrorClass::Transient,
            CaptureState::Faulted,
        ),
        (
            TargetResolutionError::TargetChanged("startup race".to_string()),
            ErrorClass::Transient,
            CaptureState::WaitingForDevice,
        ),
        (
            TargetResolutionError::InvalidSelector("bad selector".to_string()),
            ErrorClass::Permanent,
            CaptureState::Faulted,
        ),
    ];

    for (error, class, capture_state) in cases {
        let classified = classify_pipewire_resolution_error(error);
        assert_eq!(classified.class, class);
        assert_eq!(classified.capture_state, capture_state);
    }
}

#[test]
fn legacy_second_handshake_resolution_variants_reach_supervisor_as_waiting_transient() {
    for startup_error in [
        TargetResolutionError::TargetMissing("vanished target".to_string()),
        TargetResolutionError::PortMissing("vanished port".to_string()),
        TargetResolutionError::TargetChanged("changed identity".to_string()),
    ] {
        let mut harness = SupervisorHarness::stopped();
        let prepared = prepare_legacy(parse_legacy(&pipewire_text())).unwrap();
        let target = Ok((test_resolved_target(1, 48_000), Vec::new()));
        assert!(resolve_legacy_capture_with(&prepared, target).is_ok());
        let attempt_error =
            classify_pipewire_startup_error(PipeWireStartupError::Resolution(startup_error));
        let now = harness.world.now();
        drop(publish_capture_attempt_error(&mut harness.ctx, attempt_error, now));

        let lifecycle = harness.lifecycle();
        assert_eq!(lifecycle.capture_state, CaptureState::WaitingForDevice);
        assert_eq!(lifecycle.error_class, Some(ErrorClass::Transient));
        assert_eq!(lifecycle.retry_policy, RetryPolicy::BoundedBackoff);
    }

    let mut harness = SupervisorHarness::stopped();
    let prepared = prepare_legacy(parse_legacy(&pipewire_text())).unwrap();
    let target = Ok((test_resolved_target(1, 48_000), Vec::new()));
    assert!(resolve_legacy_capture_with(&prepared, target).is_ok());
    let attempt_error = classify_pipewire_startup_error(PipeWireStartupError::Capture(
        LambError::Capture("stream open failed".to_string()),
    ));
    let now = harness.world.now();
    drop(publish_capture_attempt_error(&mut harness.ctx, attempt_error, now));
    let lifecycle = harness.lifecycle();
    assert_eq!(lifecycle.capture_state, CaptureState::Faulted);
    assert_eq!(lifecycle.error_class, Some(ErrorClass::Transient));
    assert_eq!(lifecycle.retry_policy, RetryPolicy::BoundedBackoff);
}

#[test]
fn pipewire_disconnect_enqueues_recovery_without_status_request() {
    let mut harness = RetryOperationHarness::new(Vec::new());
    let resources = Rc::new(Counters::default());
    let generation = harness.lifecycle().generation;
    let attempt_id = CaptureAttemptId { raw: 2 };
    let health =
        PipeWireHealth::with_fault_sink(harness.ctx.scheduler.fault_sink(generation, attempt_id));
    publish_directly(&mut harness.ctx, capture_with_resources(&resources), Some(health));

    assert!(harness.record_fault(RuntimeCaptureFault::DeviceDisconnected(
        "selected PipeWire device disconnected".to_string(),
    )));
    harness.run();
    assert_eq!(harness.completed, 1);

    let lifecycle = harness.lifecycle();
    assert_eq!(lifecycle.generation, generation);
    assert_eq!(lifecycle.capture_state, CaptureState::WaitingForDevice);
    assert_eq!(lifecycle.error_class, Some(ErrorClass::Transient));
    assert_eq!(lifecycle.retry_attempt, 1);
    assert_eq!(lifecycle.next_retry_at, Some(RetryInstant::from_millis(1_000)));
    assert_eq!(harness.world.calls, 0);
    assert_eq!(resources.live(ProbeResource::Backend), 0);
    assert_eq!(resources.live(ProbeResource::Session), 0);
    assert!(harness.ctx.runtime.capture.is_none());
    assert!(harness.ctx.runtime.session.is_none());
    assert!(harness.ctx.runtime.resolved_capture.is_none());
}

#[test]
fn old_generation_pipewire_fault_is_ignored() {
    let mut harness = RetryOperationHarness::new(Vec::new());
    let old_generation = harness.lifecycle().generation;
    let mut health = PipeWireHealth::with_fault_sink(
        harness.ctx.scheduler.fault_sink(old_generation, CaptureAttemptId { raw: 3 }),
    );
    harness.stop_capture();

    assert!(health.record_fatal(
        &mut harness.ctx.scheduler,
        RuntimeCaptureFault::BackendFault("old backend failed".to_string()),
    ));
    harness.run();

    assert_eq!(harness.ctx.scheduler.pending_operation(), None);
    let lifecycle = harness.lifecycle();
    assert_eq!(lifecycle.capture_state, CaptureState::Stopped);
    assert_eq!(lifecycle.error_class, None);
    assert_eq!(lifecycle.retry_attempt, 0);
}

#[test]
fn duplicate_pipewire_fault_does_not_double_advance_backoff() {
    let mut harness = RetryOperationHarness::new(Vec::new());
    let generation = harness.lifecycle().generation;
    let attempt_id = CaptureAttemptId { raw: 4 };
    let health =
        PipeWireHealth::with_fault_sink(harness.ctx.scheduler.fault_sink(generation, attempt_id));
    publish_directly(&mut harness.ctx, test_active_capture(), Some(health));

    assert!(harness.record_fault(RuntimeCaptureFault::BackendFault("first fault".to_string())));
    assert!(!harness
        .record_fault(RuntimeCaptureFault::BackendFault("duplicate fault".to_string())));
    harness.run();

    let lifecycle = harness.lifecycle();
    assert_eq!(lifecycle.capture_state, CaptureState::Faulted);
    assert_eq!(lifecycle.retry_attempt, 1);
    assert_eq!(lifecycle.next_retry_at, Some(RetryInstant::from_millis(1_000)));
}

#[test]
fn same_generation_fault_from_different_attempt_cannot_detach_active_capture() {
    let mut harness = RetryOperationHarness::new(Vec::new());
    let resources = Rc::new(Counters::default());
    let generation = harness.lifecycle().generation;
    let stale_attempt = CaptureAttemptId { raw: 40 };
    let active_attempt = CaptureAttemptId { raw: 41 };
    let health = PipeWireHealth::with_fault_sink(
        harness.ctx.scheduler.fault_sink(generation, active_attempt),
    );
    publish_directly(&mut harness.ctx, capture_with_resources(&resources), Some(health));
    let now = harness.world.now();

    drop(publish_runtime_fault(
        &mut harness.ctx,
        generation,
        stale_attempt,
        RuntimeCaptureFault::BackendFault("stale attempt".to_string()),
        now,
    ));
    assert_eq!(resources.live(ProbeResource::Backend), 1);
    assert_eq!(harness.lifecycle().capture_state, CaptureState::Running);

    drop(publish_runtime_fault(
        &mut harness.ctx,
        generation,
        active_attempt,
        RuntimeCaptureFault::BackendFault("active attempt".to_string()),
        now,
    ));
    assert_eq!(resources.live(ProbeResource::Backend), 0);
    assert_eq!(harness.lifecycle().retry_attempt, 1);
}

#[test]
fn duplicate_already_admitted_fault_jobs_advance_backoff_once() {
    let mut harness = RetryOperationHarness::new(Vec::new());
    let generation = harness.lifecycle().generation;
    let attempt_id = CaptureAttemptId { raw: 42 };
    let health =
        PipeWireHealth::with_fault_sink(harness.ctx.scheduler.fault_sink(generation, attempt_id));
    publish_directly(&mut harness.ctx, test_active_capture(), Some(health));
    let fault = RuntimeCaptureFault::BackendFault("duplicate admitted fault".to_string());
    let now = harness.world.now();

    drop(publish_runtime_fault(&mut harness.ctx, generation, attempt_id, fault.clone(), now));
    drop(publish_runtime_fault(&mut harness.ctx, generation, attempt_id, fault, now));

    assert_eq!(harness.lifecycle().retry_attempt, 1);
}

#[test]
fn scheduler_lane_worker_fifo_enforces_attempt_identity_and_duplicate_noop() {
    let mut harness = SupervisorHarness::running();
    let generation = harness.lifecycle().generation;
    let matching = CaptureAttemptId { raw: 43 };
    let mismatched = CaptureAttemptId { raw: 44 };
    let mut health = PipeWireHealth::unarmed_with_fault_sink(
        harness.ctx.scheduler.fault_sink(generation, matching),
    );
    health.arm(&mut harness.ctx.scheduler);
    harness.ctx.runtime.capture_health = Some(health);

    let mut lane = VecDeque::new();
    for (attempt_id, message) in [
        (mismatched, "mismatched"),
        (matching, "matching"),
        (matching, "duplicate matching"),
    ] {
        let scheduler = &mut harness.ctx.scheduler;
        let fault = RuntimeCaptureFault::BackendFault(message.to_string());
        scheduler.notify_fault(generation, attempt_id, fault.clone());
        let SchedulerStep::Submit { operation, wake_epoch } =
            scheduler.next_step(harness.world.now())
        else {
            panic!("a fault is handed on at once");
        };
        assert_eq!(
            operation,
            ScheduledOperation::RuntimeFault { generation, attempt_id, fault }
        );
        lane.push_back(OperationJob::Internal(operation));
        assert_eq!(scheduler.submitted(wake_epoch, Ok(())), AfterSubmit::Continue);
    }
    assert_eq!(lane.len(), 3);

    let mut states = Vec::new();
    while let Some(job) = lane.pop_front() {
        harness.world.job(&mut harness.ctx, job);
        states.push((
            harness.lifecycle().capture_state,
            harness.lifecycle().retry_attempt,
            harness.world.resources.live(ProbeResource::Backend),
        ));
    }
    assert_eq!(states[0], (CaptureState::Running, 0, 1));
    assert_eq!(states[1], (CaptureState::Faulted, 1, 0));
    assert_eq!(states[2], (CaptureState::Faulted, 1, 0));
    assert_eq!(harness.world.calls, 0);
}

#[test]
fn configured_initial_legacy_publication_invalidates_then_replays_unarmed_fault() {
    let mut harness = RetryOperationHarness::new(vec![Ok(test_active_capture())]);
    harness.world.early_fault = Some(RuntimeCaptureFault::BackendFault(
        "fault recorded before publication".to_string(),
    ));

    harness.world.configured_start(&mut harness.ctx).unwrap();
    let mut published = harness.ctx.runtime.capture_health.clone().unwrap();
    harness.run();
    assert_eq!(harness.completed, 1);
    assert_eq!(harness.lifecycle().capture_state, CaptureState::Faulted);
    assert_eq!(harness.lifecycle().retry_attempt, 1);

    let pending_before_repeat = harness.ctx.scheduler.pending_operation();
    published.arm(&mut harness.ctx.scheduler);
    let generation = harness.lifecycle().generation;
    let attempt_id = published.attempt_id().unwrap();
    let sink = harness.ctx.scheduler.fault_sink(generation, attempt_id);
    published.rebind_and_arm(&mut harness.ctx.scheduler, sink);
    assert_eq!(harness.ctx.scheduler.pending_operation(), pending_before_repeat);
}

#[test]
fn legacy_command_publication_invalidates_then_replays_unarmed_fault() {
    let mut harness = RetryOperationHarness::new(vec![Ok(test_active_capture())]);
    harness.world.early_fault = Some(RuntimeCaptureFault::BackendFault(
        "fault recorded before publication".to_string(),
    ));

    let response = harness.world.start_capture(&mut harness.ctx, None, false);

    assert!(response.ok, "{}", response.message);
    assert!(harness.ctx.runtime.capture_health.is_some());

    harness.run();
    assert_eq!(harness.lifecycle().capture_state, CaptureState::Faulted);
    assert_eq!(harness.lifecycle().retry_attempt, 1);
}

#[test]
fn legacy_start_receives_current_generation_fault_sink() {
    let mut harness = SupervisorHarness::stopped_with(vec![Ok(test_active_capture())]);

    let response = harness.start_capture();
    assert!(response.ok, "{}", response.message);
    let generation = harness.lifecycle().generation;
    let sink = harness.world.sinks.pop().unwrap();
    let attempt_id = sink.attempt_id();
    sink.notify(
        &mut harness.ctx.scheduler,
        RuntimeCaptureFault::BackendFault("generation-bound fault".to_string()),
    );

    assert_eq!(
        harness.ctx.scheduler.pending_operation(),
        Some(ScheduledOperation::RuntimeFault {
            generation,
            attempt_id,
            fault: RuntimeCaptureFault::BackendFault("generation-bound fault".to_string()),
        })
    );
}

#[test]
fn missing_target_enters_waiting_for_device() {
    let mut harness = RetryOperationHarness::new(vec![Err(missing_target())]);
    harness.attempt_initial_start();

    let lifecycle = harness.lifecycle();
    assert_eq!(lifecycle.daemon_state, DaemonState::Degraded);
    assert_eq!(lifecycle.capture_state, CaptureState::WaitingForDevice);
    assert_eq!(lifecycle.error_class, Some(ErrorClass::Transient));
    assert_eq!(lifecycle.retry_policy, RetryPolicy::BoundedBackoff);
    assert_eq!(lifecycle.retry_attempt, 1);
    assert_eq!(
        lifecycle.next_retry_at,
        Some(harness.world.now().checked_add(1_000).unwrap())
    );
}

#[test]
fn transient_deadlines_follow_one_two_five_ten_thirty_sixty() {
    let mut outcomes: Vec<Result<Active, CaptureAttemptError>> =
        (0..6).map(|_| Err(missing_target())).collect();
    outcomes.push(Ok(test_active_capture()));
    let mut harness = RetryOperationHarness::new(outcomes);
    harness.attempt_initial_start();

    for (index, expected_seconds) in [1_u64, 2, 5, 10, 30, 60].into_iter().enumerate() {
        assert_eq!(harness.lifecycle().retry_attempt, u32::try_from(index + 1).unwrap());
        assert_eq!(
            harness.lifecycle().next_retry_at,
            Some(harness.world.now().checked_add(expected_seconds * 1_000).unwrap())
        );
        assert_eq!(harness.world.resources.counts(), [0; 5]);
        harness.advance_to_next_retry();
        assert_eq!(harness.completed, index + 1);
        assert!(harness.status_via_socket().ok);
        assert_eq!(harness.world.resources.counts(), [0; 5]);
    }
    assert_eq!(harness.world.calls, 7);
    assert_eq!(harness.lifecycle().capture_state, CaptureState::Running);
    assert!(harness.status_via_socket().ok);
    assert_eq!(harness.world.resources.counts(), [0; 5]);
}

#[test]
fn failed_attempts_release_all_resource_counters() {
    let mut harness = RetryOperationHarness::with_probe_attempts(0);
    let first = capture_with_resources(&harness.world.resources);
    harness.world.outcomes.push_back(Ok(first));
    harness.world.recoveries.push_back(Err(LambError::Capture(
        "injected post-construction recovery failure".to_string(),
    )));
    harness.attempt_initial_start();
    assert_eq!(harness.world.resources.counts(), [0; 5]);
    let second = capture_with_resources(&harness.world.resources);
    harness.world.outcomes.push_back(Ok(second));
    harness.advance_to_next_retry();
    assert_eq!(harness.completed, 1);
    assert_eq!(harness.world.resources.counts(), [1; 5]);
    harness.stop_capture();
    assert_eq!(harness.world.resources.counts(), [0; 5]);
}

#[test]
fn missing_target_pre_resolution_constructs_no_attempt_resources() {
    let mut harness = RetryOperationHarness::new(vec![Err(missing_target())]);
    harness.attempt_initial_start();

    assert_eq!(harness.world.constructed, 0);
    assert_eq!(harness.world.resources.counts(), [0; 5]);
    assert_eq!(harness.lifecycle().capture_state, CaptureState::WaitingForDevice);
}

#[test]
fn successful_retry_resets_attempt_and_deadline() {
    let mut harness =
        RetryOperationHarness::new(vec![Err(missing_target()), Ok(test_active_capture())]);
    harness.attempt_initial_start();
    harness.advance_to_next_retry();

    let lifecycle = harness.lifecycle();
    assert_eq!(lifecycle.daemon_state, DaemonState::Ready);
    assert_eq!(lifecycle.capture_state, CaptureState::Running);
    assert_eq!(lifecycle.error_class, None);
    assert_eq!(lifecycle.last_error, None);
    assert_eq!(lifecycle.retry_policy, RetryPolicy::NoRetry);
    assert_eq!(lifecycle.retry_attempt, 0);
    assert_eq!(lifecycle.next_retry_at, None);
}

#[test]
fn runtime_disconnect_retries_without_status_poll() {
    let mut harness = RetryOperationHarness::with_probe_attempts(1);
    harness.attempt_initial_start();
    assert_eq!(harness.world.resources.counts(), [1; 5]);

    assert!(harness.record_fault(RuntimeCaptureFault::DeviceDisconnected(
        "PipeWire stream unconnected".to_string(),
    )));
    harness.run();
    assert_eq!(harness.completed, 1);
    assert_eq!(harness.lifecycle().capture_state, CaptureState::WaitingForDevice);
    assert_eq!(harness.world.resources.counts(), [0; 5]);

    let active = capture_with_resources(&harness.world.resources);
    harness.world.outcomes.push_back(Ok(active));
    harness.advance_to_next_retry();
    assert_eq!(harness.completed, 2);
    assert_eq!(harness.lifecycle().capture_state, CaptureState::Running);
    assert_eq!(harness.world.calls, 2);
}

#[test]
fn healthy_capture_has_no_scheduler_wakeups_or_extra_attempts() {
    let mut harness = RetryOperationHarness::with_probe_attempts(1);
    harness.attempt_initial_start();
    let calls = harness.world.calls;
    let timed_waits = harness.timed_waits;
    let resources = harness.world.resources.counts();

    harness.world.now_millis += 600_000;
    harness.run();

    assert_eq!(harness.lifecycle().capture_state, CaptureState::Running);
    assert_eq!(harness.world.calls, calls);
    assert_eq!(harness.timed_waits, timed_waits);
    assert_eq!(harness.world.resources.counts(), resources);
    assert_eq!(harness.ctx.scheduler.pending_operation(), None);
    assert!(!harness.ctx.scheduler.claim_thread());
    assert!(harness.status_via_socket().ok);
}

#[test]
fn production_scheduler_executes_exact_capped_backoff_once_per_failed_attempt() {
    let outcomes = (0..8)
        .map(|_| Err(transient(CaptureState::WaitingForDevice, "device unavailable")))
        .collect();
    let mut harness = RetryOperationHarness::new(outcomes);

    harness.attempt_initial_start();
    let expected = [1_u64, 2, 5, 10, 30, 60, 60, 60];
    for (index, seconds) in expected.into_iter().enumerate() {
        let lifecycle = harness.lifecycle();
        assert_eq!(lifecycle.retry_attempt, u32::try_from(index + 1).unwrap());
        assert_eq!(
            lifecycle.next_retry_at.unwrap().as_millis() - harness.world.now_millis,
            seconds * 1_000
        );
        if index + 1 < expected.len() {
            harness.advance_to_next_retry();
            assert_eq!(harness.completed, index + 1);
        }
    }
    assert_eq!(harness.world.calls, expected.len());
    assert!(!harness.ctx.scheduler.claim_thread());
}

#[test]
fn production_scheduler_success_cancels_and_resets_retry_state() {
    let mut harness = RetryOperationHarness::new(vec![
        Err(transient(CaptureState::WaitingForDevice, "device unavailable")),
        Ok(test_active_capture()),
    ]);
    harness.attempt_initial_start();
    harness.advance_to_next_retry();

    let lifecycle = harness.lifecycle();
    assert_eq!(lifecycle.capture_state, CaptureState::Running);
    assert_eq!(lifecycle.error_class, None);
    assert_eq!(lifecycle.retry_attempt, 0);
    assert_eq!(lifecycle.next_retry_at, None);
    assert_eq!(harness.ctx.scheduler.pending_operation(), None);
}

#[test]
fn production_scheduler_permanent_reclassification_cancels_retry() {
    let mut harness = RetryOperationHarness::new(vec![
        Err(transient(CaptureState::WaitingForDevice, "device unavailable")),
        Err(permanent("profile invalid")),
    ]);
    harness.attempt_initial_start();
    harness.advance_to_next_retry();

    let lifecycle = harness.lifecycle();
    assert_eq!(lifecycle.capture_state, CaptureState::Faulted);
    assert_eq!(lifecycle.error_class, Some(ErrorClass::Permanent));
    assert_eq!(lifecycle.retry_policy, RetryPolicy::Manual);
    assert_eq!(lifecycle.retry_attempt, 0);
    assert_eq!(lifecycle.next_retry_at, None);
    assert_eq!(harness.ctx.scheduler.pending_operation(), None);
}

#[test]
fn production_lane_full_retry_is_retained_admitted_once_and_stop_discards_it() {
    let filler = || {
        OperationJob::Internal(ScheduledOperation::RuntimeFault {
            generation: 1,
            attempt_id: CaptureAttemptId { raw: 5 },
            fault: RuntimeCaptureFault::BackendFault("filler".to_string()),
        })
    };
    let mut harness = RetryOperationHarness::new(Vec::new());
    harness.lane_capacity = 1;
    harness.lane.push_back(filler());
    harness.ctx.scheduler.schedule_retry(1, RetryInstant::from_millis(1_000));
    harness.schedule();
    assert_eq!(harness.submissions, 0);
    harness.world.now_millis = 1_000;
    harness.schedule();
    assert_eq!(harness.submissions, 1);
    assert_eq!(
        harness.ctx.scheduler.pending_operation(),
        Some(ScheduledOperation::Retry { generation: 1 })
    );

    harness.ctx.scheduler.notify_lane_available();
    harness.schedule();
    assert_eq!(harness.submissions, 2);
    harness.lane.pop_front().unwrap();
    harness.ctx.scheduler.notify_lane_available();
    harness.schedule();
    assert_eq!(harness.submissions, 3);
    assert_eq!(
        harness.lane.pop_front(),
        Some(OperationJob::Internal(ScheduledOperation::Retry { generation: 1 }))
    );
    harness.schedule();
    assert_eq!(harness.submissions, 3);
    assert_eq!(harness.ctx.scheduler.pending_operation(), None);

    let mut stopped = RetryOperationHarness::new(Vec::new());
    stopped.lane_capacity = 1;
    stopped.lane.push_back(filler());
    stopped.ctx.scheduler.schedule_retry(2, RetryInstant::from_millis(1_000));
    stopped.world.now_millis = 1_000;
    stopped.schedule();
    assert_eq!(stopped.submissions, 1);
    stopped.ctx.scheduler.stop();
    stopped.lane.pop_front().unwrap();
    stopped.ctx.scheduler.notify_lane_available();
    stopped.schedule();
    assert_eq!(stopped.submissions, 1);
    assert_eq!(stopped.ctx.scheduler.pending_operation(), None);
}

#[test]
fn initial_app_transient_failure_schedules_and_retries_through_the_production_path() {
    let mut world = World::new();
    for _ in 0..2 {
        world.app_outcomes.push_back(transient(
            CaptureState::WaitingForDevice,
            "app device unavailable",
        ));
    }
    let mut ctx = build_app(&mut world, studio_config("auto")).unwrap();

    let initial = ctx.runtime.lifecycle.clone();
    assert_eq!(initial.daemon_state, DaemonState::Degraded);
    assert_eq!(initial.capture_state, CaptureState::WaitingForDevice);
    assert_eq!(initial.error_class, Some(ErrorClass::Transient));
    assert_eq!(initial.retry_policy, RetryPolicy::BoundedBackoff);
    assert_eq!(initial.retry_attempt, 1);
    assert_eq!(initial.next_retry_at, Some(RetryInstant::from_millis(1_000)));
    assert_eq!(initial.generation, 1);
    assert!(ctx.runtime.capture.is_none());
    assert!(ctx.runtime.session.is_none());
    assert_eq!(
        ctx.scheduler.pending_operation(),
        Some(ScheduledOperation::Retry { generation: 1 })
    );

    world.now_millis = 1_000;
    run_scheduler(&mut world, &mut ctx);
    assert_eq!(world.calls, 2);
    assert_eq!(ctx.runtime.lifecycle.retry_attempt, 2);
    assert_eq!(
        ctx.runtime.lifecycle.next_retry_at,
        Some(RetryInstant::from_millis(3_000))
    );
    assert_eq!(ctx.runtime.lifecycle.generation, 2);
}

#[test]
fn a_preparation_that_fails_shows_as_an_error_of_the_configuration() {
    let mut world = World::new();
    world
        .app_outcomes
        .push_back(transient(CaptureState::WaitingForDevice, "app device unavailable"));
    let ctx = build_app(&mut world, studio_config("auto")).unwrap();
    assert_eq!(ctx.runtime.config_load_error.as_deref(), Some("app device unavailable"));

    let mut state: Runtime = empty_runtime(ConfigFamily::App, default_app_config());
    let now = RetryInstant::from_millis(0);
    let away = || transient(CaptureState::WaitingForDevice, "device is away");
    assert!(app_start_failed(&mut state, away(), true, now).is_ok());
    assert_eq!(state.last_error.as_deref(), Some("device is away"));
    assert_eq!(state.config_load_error, None);
    assert!(app_start_failed(&mut state, away(), false, now).is_err());
    assert!(app_prepare_failed(&mut state, away(), now).is_ok());
    assert_eq!(state.config_load_error.as_deref(), Some("device is away"));
    assert_eq!(
        app_prepare_failed(&mut state, fatal("no more"), now).unwrap_err(),
        LambError::DaemonFatal("no more".to_string())
    );
}

#[test]
fn production_scheduler_retries_app_construction_recovery_and_publication() {
    let mut world = World::new();
    world
        .app_outcomes
        .push_back(transient(CaptureState::WaitingForDevice, "app device unavailable"));
    let mut ctx = build_app(&mut world, studio_config("auto")).unwrap();

    world.now_millis = 1_000;
    run_scheduler(&mut world, &mut ctx);

    assert_eq!(world.calls, 2);
    assert_eq!(world.recovered, 1);
    assert_eq!(ctx.runtime.lifecycle.capture_state, CaptureState::Running);
    assert_eq!(ctx.runtime.lifecycle.retry_attempt, 0);
    assert_eq!(ctx.runtime.lifecycle.next_retry_at, None);
    assert!(ctx.runtime.capture.is_some());
    assert!(ctx.runtime.session.is_some());
    drop(release_capture_for_shutdown(&mut ctx));
    assert_eq!(world.resources.live(ProbeResource::Backend), 0);
    assert_eq!(world.resources.live(ProbeResource::Session), 0);
}

#[test]
fn coherent_poisoned_retry_executes_once_and_publishes_success() {
    let mut world = World::new();
    world
        .app_outcomes
        .push_back(transient(CaptureState::WaitingForDevice, "app device unavailable"));
    let mut ctx = build_app(&mut world, studio_config("auto")).unwrap();
    ctx.runtime_poisoned = true;

    world.now_millis = 1_000;
    run_scheduler(&mut world, &mut ctx);

    let lifecycle = &ctx.runtime.lifecycle;
    assert_eq!(world.calls, 2);
    assert_eq!(world.recovered, 1);
    assert_eq!(lifecycle.capture_state, CaptureState::Running);
    assert_eq!(lifecycle.error_class, None);
    assert_eq!(lifecycle.retry_attempt, 0);
    assert_eq!(lifecycle.next_retry_at, None);
    assert_eq!(ctx.scheduler.pending_operation(), None);
    assert!(!ctx.runtime_poisoned);
    run_scheduler(&mut world, &mut ctx);
    assert_eq!(world.calls, 2);
    drop(release_capture_for_shutdown(&mut ctx));
    assert_eq!(
        &world.resources.dropped()[..2],
        &[ProbeResource::Backend, ProbeResource::Session]
    );
}

#[test]
fn poisoned_retry_with_active_ownership_terminalizes_and_cleans_backend_first() {
    let mut world = World::new();
    world
        .app_outcomes
        .push_back(transient(CaptureState::WaitingForDevice, "app device unavailable"));
    let mut ctx = build_app(&mut world, studio_config("auto")).unwrap();
    let old_generation = ctx.runtime.lifecycle.generation;
    let old_attempt_id = CaptureAttemptId { raw: 6 };
    let old_sink = ctx.scheduler.fault_sink(old_generation, old_attempt_id);
    let stale = capture_with_resources(&world.resources);
    ctx.runtime.capture = Some(stale.backend);
    ctx.runtime.session = Some(stale.session);
    ctx.runtime_poisoned = true;

    world.now_millis = 1_000;
    world.retry(&mut ctx, old_generation);

    assert_eq!(world.calls, 1);
    assert_eq!(ctx.runtime.lifecycle.generation, old_generation);
    assert_eq!(ctx.runtime.lifecycle.error_class, Some(ErrorClass::Transient));
    assert_eq!(ctx.runtime.lifecycle.retry_policy, RetryPolicy::BoundedBackoff);
    assert_eq!(ctx.runtime.lifecycle.retry_attempt, 1);
    assert!(ctx.runtime.lifecycle.next_retry_at.is_some());
    assert!(ctx.runtime.capture.is_none());
    assert!(ctx.runtime.session.is_none());
    let terminal = ctx.runtime.lifecycle.clone();
    assert!(ctx.stop);
    assert_eq!(
        ctx.first_fatal.as_deref(),
        Some("runtime state lock poison violated scheduled retry invariants")
    );
    assert_eq!(ctx.scheduler.pending_operation(), None);
    assert_eq!(
        &world.resources.dropped()[..2],
        &[ProbeResource::Backend, ProbeResource::Session]
    );

    old_sink.notify(
        &mut ctx.scheduler,
        RuntimeCaptureFault::BackendFault("compromised sink".to_string()),
    );
    ctx.scheduler.schedule_retry(old_generation, RetryInstant::from_millis(1_001));
    ctx.scheduler.notify_fault(
        old_generation,
        old_attempt_id,
        RuntimeCaptureFault::DeviceDisconnected("compromised fault".to_string()),
    );
    world.job(
        &mut ctx,
        OperationJob::Internal(ScheduledOperation::Retry { generation: old_generation }),
    );
    world.job(
        &mut ctx,
        OperationJob::Internal(ScheduledOperation::RuntimeFault {
            generation: old_generation,
            attempt_id: old_attempt_id,
            fault: RuntimeCaptureFault::BackendFault("queued old fault".to_string()),
        }),
    );
    assert_eq!(ctx.scheduler.pending_operation(), None);
    assert_eq!(ctx.runtime.lifecycle, terminal);
    assert_eq!(world.calls, 1);
    assert_eq!(world.resources.counts(), [0; 5]);
}

#[test]
fn incoherent_poison_generation_overflow_stops_and_rejects_equal_generation_work() {
    let mut harness = SupervisorHarness::stopped();
    let resources = Rc::new(Counters::default());
    let stale = capture_with_resources(&resources);
    harness.ctx.runtime.lifecycle.generation = u64::MAX;
    harness.ctx.runtime.lifecycle.mark_transient(
        CaptureState::WaitingForDevice,
        "overflow retry".to_string(),
        RetryInstant::from_millis(0),
    );
    harness.ctx.runtime.capture = Some(stale.backend);
    harness.ctx.runtime.session = Some(stale.session);
    harness.ctx.runtime_poisoned = true;
    harness.ctx.scheduler.invalidate(u64::MAX);
    let old_attempt_id = CaptureAttemptId { raw: 7 };
    let old_fault_sink = harness.ctx.scheduler.fault_sink(u64::MAX, old_attempt_id);

    let (decision, released) = scheduled_generation_decision(&mut harness.ctx, u64::MAX);
    drop(released);
    assert_eq!(decision, ScheduledGenerationDecision::Terminalized);
    assert_eq!(harness.lifecycle().generation, u64::MAX);
    assert_eq!(harness.lifecycle().error_class, Some(ErrorClass::Transient));
    assert_eq!(harness.lifecycle().retry_policy, RetryPolicy::BoundedBackoff);
    assert_eq!(harness.lifecycle().retry_attempt, 1);
    assert!(harness.lifecycle().next_retry_at.is_some());
    assert!(harness.ctx.runtime.capture.is_none());
    assert!(harness.ctx.runtime.session.is_none());
    let terminal = harness.lifecycle().clone();
    assert!(harness.ctx.stop);
    assert_eq!(
        harness.ctx.first_fatal.as_deref(),
        Some("runtime state lock poison violated scheduled retry invariants")
    );
    assert_eq!(&resources.dropped()[..2], &[ProbeResource::Backend, ProbeResource::Session]);

    old_fault_sink.notify(
        &mut harness.ctx.scheduler,
        RuntimeCaptureFault::BackendFault("overflow sink".to_string()),
    );
    harness.ctx.scheduler.schedule_retry(u64::MAX, RetryInstant::from_millis(1));
    harness.ctx.scheduler.notify_fault(
        u64::MAX,
        old_attempt_id,
        RuntimeCaptureFault::DeviceDisconnected("overflow fault".to_string()),
    );
    assert_eq!(harness.ctx.scheduler.pending_operation(), None);

    harness
        .world
        .outcomes
        .push_back(Err(transient(CaptureState::WaitingForDevice, "must not run")));
    harness.world.job(
        &mut harness.ctx,
        OperationJob::Internal(ScheduledOperation::Retry { generation: u64::MAX }),
    );
    harness.world.job(
        &mut harness.ctx,
        OperationJob::Internal(ScheduledOperation::RuntimeFault {
            generation: u64::MAX,
            attempt_id: old_attempt_id,
            fault: RuntimeCaptureFault::BackendFault("queued overflow fault".to_string()),
        }),
    );
    assert_eq!(harness.world.calls, 0);
    assert_eq!(harness.lifecycle(), &terminal);
    assert_eq!(harness.ctx.scheduler.pending_operation(), None);
    assert_eq!(resources.live(ProbeResource::Backend), 0);
    assert_eq!(resources.live(ProbeResource::Session), 0);
}

#[test]
fn publish_capture_attempt_error_recovers_poison_and_retains_retry_authority() {
    let mut harness = SupervisorHarness::stopped();
    harness.ctx.runtime_poisoned = true;
    let now = harness.world.now();

    drop(publish_capture_attempt_error(
        &mut harness.ctx,
        transient(CaptureState::WaitingForDevice, "retry publication"),
        now,
    ));

    let lifecycle = harness.lifecycle();
    assert_eq!(lifecycle.error_class, Some(ErrorClass::Transient));
    assert_eq!(lifecycle.retry_policy, RetryPolicy::BoundedBackoff);
    assert_eq!(lifecycle.retry_attempt, 1);
    assert!(lifecycle.next_retry_at.is_some());
    assert_eq!(
        harness.ctx.scheduler.pending_operation(),
        Some(ScheduledOperation::Retry { generation: lifecycle.generation })
    );
    assert!(!harness.ctx.runtime_poisoned);
}

#[test]
fn command_attempt_failure_recovers_poison_and_retains_retry_authority() {
    let mut harness = SupervisorHarness::stopped();
    let operation =
        begin_new_operation_generation(&mut harness.ctx, OperationEntry::Command).unwrap();
    let resources = Rc::new(Counters::default());
    let stale = capture_with_resources(&resources);
    harness.ctx.runtime.capture = Some(stale.backend);
    harness.ctx.runtime.session = Some(stale.session);
    harness.ctx.runtime_poisoned = true;
    let now = harness.world.now();

    let (response, released) = command_attempt_failure_with_generation(
        &mut harness.ctx,
        operation.token,
        Some(operation.generation),
        transient(CaptureState::WaitingForDevice, "retry command failure"),
        false,
        now,
    );
    drop(released);

    assert!(!response.ok);
    let lifecycle = harness.lifecycle();
    assert_eq!(lifecycle.generation, operation.generation);
    assert_eq!(lifecycle.error_class, Some(ErrorClass::Transient));
    assert_eq!(lifecycle.retry_policy, RetryPolicy::BoundedBackoff);
    assert_eq!(lifecycle.retry_attempt, 1);
    assert!(lifecycle.next_retry_at.is_some());
    assert!(harness.ctx.scheduler.pending_operation().is_some());
    assert!(!harness.ctx.runtime_poisoned);
    assert!(harness.ctx.runtime.capture.is_none());
    assert!(harness.ctx.runtime.session.is_none());
    assert_eq!(&resources.dropped()[..2], &[ProbeResource::Backend, ProbeResource::Session]);
}

#[test]
fn permanent_capture_attempt_error_recovers_poison_without_retry_authority() {
    let mut harness = SupervisorHarness::stopped();
    harness.ctx.runtime_poisoned = true;
    let now = harness.world.now();

    drop(publish_capture_attempt_error(
        &mut harness.ctx,
        permanent("permanent publication"),
        now,
    ));

    let lifecycle = harness.lifecycle();
    assert_eq!(lifecycle.error_class, Some(ErrorClass::Permanent));
    assert_eq!(lifecycle.retry_policy, RetryPolicy::Manual);
    assert_eq!(lifecycle.retry_attempt, 0);
    assert_eq!(lifecycle.next_retry_at, None);
    assert_eq!(harness.ctx.scheduler.pending_operation(), None);
    assert!(!harness.ctx.runtime_poisoned);
}

#[test]
fn successful_retry_publication_recovers_poison_and_publishes_once() {
    let mut harness = SupervisorHarness::stopped();
    let resources = Rc::new(Counters::default());
    harness.world.outcomes.push_back(Ok(capture_with_resources(&resources)));
    harness.world.meanwhile = Some(Box::new(|ctx| ctx.runtime_poisoned = true));

    let response = harness.reload();

    assert!(response.ok);
    assert_eq!(harness.lifecycle().capture_state, CaptureState::Running);
    assert_eq!(harness.lifecycle().error_class, None);
    assert_eq!(harness.lifecycle().retry_attempt, 0);
    assert_eq!(harness.lifecycle().next_retry_at, None);
    assert!(harness.ctx.runtime.capture.is_some());
    assert!(harness.ctx.runtime.session.is_some());
    assert!(!harness.ctx.runtime_poisoned);
    drop(release_capture_for_shutdown(&mut harness.ctx));
    assert_eq!(&resources.dropped()[..2], &[ProbeResource::Backend, ProbeResource::Session]);
}

#[test]
fn invalid_reload_while_running_preserves_active_session_and_lifecycle() {
    let mut harness = SupervisorHarness::running();
    let before = harness.snapshot();
    let response = harness.reload_with_text("not valid toml");

    assert!(!response.ok);
    assert_eq!(response.error_context.error_class, Some(ErrorClass::Permanent));
    assert_preserved_with_one_generation_advance(&before, &harness.snapshot());
}

#[test]
fn running_reload_start_failure_preserves_complete_authority() {
    let mut harness = SupervisorHarness::running();
    harness
        .world
        .outcomes
        .push_back(Err(transient(CaptureState::WaitingForDevice, "replacement unavailable")));
    let before = harness.snapshot();
    let response = harness.reload_with_text(&fake_text());

    assert!(!response.ok);
    assert_eq!(response.error_context.error_class, Some(ErrorClass::Transient));
    assert_preserved_with_one_generation_advance(&before, &harness.snapshot());
}

#[test]
fn running_reload_recovery_failure_preserves_complete_authority() {
    let mut harness = SupervisorHarness::running();
    harness.world.outcomes.push_back(Ok(test_active_capture()));
    harness
        .world
        .recoveries
        .push_back(Err(LambError::Control("replacement recovery failed".to_string())));
    let before = harness.snapshot();
    let response = harness.reload();

    assert!(!response.ok);
    assert_preserved_with_one_generation_advance(&before, &harness.snapshot());
}

#[test]
fn direct_stop_invalidates_reload_before_disk_preparation() {
    let mut harness = SupervisorHarness::running();
    harness.world.outcomes.push_back(Ok(test_active_capture()));
    let response = harness.world.reload_with_hook(&mut harness.ctx, begin_shutdown);

    assert!(!response.ok);
    assert_eq!(response.message, "daemon is shutting down");
    assert_eq!(harness.lifecycle().daemon_state, DaemonState::Stopping);
    assert_eq!(harness.world.calls, 0);
}

#[test]
fn invalid_reload_while_stopped_enters_permanent_fault() {
    let mut harness = SupervisorHarness::stopped();
    let response = harness.reload_with_text("not valid toml");
    assert!(!response.ok);
    assert_eq!(harness.lifecycle().daemon_state, DaemonState::Degraded);
    assert_eq!(harness.lifecycle().capture_state, CaptureState::Faulted);
    assert_eq!(harness.lifecycle().retry_policy, RetryPolicy::Manual);
}

#[test]
fn changed_socket_reload_preserves_running_authority_and_faults_stopped() {
    let text = fake_text().replace("/tmp/lamb-test.sock", "/tmp/a-different-lamb.sock");

    let mut running = SupervisorHarness::running();
    let before = running.snapshot();
    let running_response = running.reload_with_text(&text);
    assert!(!running_response.ok);
    assert_eq!(
        running_response.message,
        "candidate control socket /tmp/a-different-lamb.sock differs from bound socket \
         /tmp/lamb-test.sock"
    );
    assert_eq!(running_response.error_context.error_class, Some(ErrorClass::Permanent));
    assert_preserved_with_one_generation_advance(&before, &running.snapshot());

    let mut stopped = SupervisorHarness::stopped();
    let stopped_response = stopped.reload_with_text(&text);
    assert!(!stopped_response.ok);
    assert_eq!(stopped.lifecycle().daemon_state, DaemonState::Degraded);
    assert_eq!(stopped.lifecycle().retry_policy, RetryPolicy::Manual);
}

#[test]
fn same_socket_allows_app_to_legacy_and_legacy_to_app_switches() {
    let mut harness = SupervisorHarness::running();
    let to_app = harness.reload_with_text(&app_text("manual", SOCKET));
    assert!(to_app.ok, "{}", to_app.message);
    assert_eq!(harness.ctx.runtime.config_family, ConfigFamily::App);
    assert_eq!(harness.lifecycle().capture_state, CaptureState::Stopped);
    assert_eq!(harness.world.resources.counts(), [0; 5]);

    harness.world.outcomes.push_back(Ok(test_active_capture()));
    let to_legacy = harness.reload_with_text(&fake_text());
    assert!(to_legacy.ok, "{}", to_legacy.message);
    assert_eq!(harness.ctx.runtime.config_family, ConfigFamily::Legacy);
    assert_eq!(harness.lifecycle().capture_state, CaptureState::Running);
}

fn test_app_candidate(running: bool, counters: &Rc<Counters>) -> Runtime {
    let mut candidate: Runtime = empty_runtime(ConfigFamily::App, default_app_config());
    candidate.config.daemon.start_mode = if running { "auto" } else { "manual" }.to_string();
    if running {
        let active = capture_with_resources(counters);
        candidate.capture = Some(active.backend);
        candidate.session = Some(active.session);
        candidate.state = RunState::Capturing;
        candidate
            .lifecycle
            .mark_running(Some("studio".to_string()), Some("test-app".to_string()));
    } else {
        candidate.state = RunState::Idle;
        candidate.lifecycle.mark_stopped(Some("studio".to_string()));
    }
    candidate
}

fn studio_candidate(counters: &Rc<Counters>) -> Runtime {
    let mut candidate = test_app_candidate(true, counters);
    candidate.config.daemon.active_profile = Some("studio".to_string());
    candidate.config.daemon.control_socket_path = SOCKET.to_string();
    candidate
}

fn plain_request(token: u64) -> InstallRequest {
    InstallRequest {
        token,
        operation_generation: None,
        old_already_detached: false,
        force_start: false,
        activate: false,
    }
}

#[test]
fn app_manual_and_auto_reload_publish_expected_lifecycle() {
    let mut manual = SupervisorHarness::stopped();
    let resources = Rc::new(Counters::default());
    let manual_token = begin_command_operation(&mut manual.ctx).unwrap();
    let manual_response = manual.world.finish_candidate(
        &mut manual.ctx,
        plain_request(manual_token),
        test_app_candidate(false, &resources),
        "manual".to_string(),
    );
    assert!(manual_response.ok);
    assert_eq!(manual.lifecycle().daemon_state, DaemonState::Ready);
    assert_eq!(manual.lifecycle().capture_state, CaptureState::Stopped);

    let mut auto = SupervisorHarness::stopped();
    let auto_token = begin_command_operation(&mut auto.ctx).unwrap();
    let auto_response = auto.world.finish_candidate(
        &mut auto.ctx,
        plain_request(auto_token),
        test_app_candidate(true, &resources),
        "auto".to_string(),
    );
    assert!(auto_response.ok);
    assert_eq!(auto.lifecycle().daemon_state, DaemonState::Ready);
    assert_eq!(auto.lifecycle().capture_state, CaptureState::Running);
}

fn studio_loaded(start_mode: &str) -> PreparedBootstrap {
    PreparedBootstrap::App(LoadedAppConfig {
        config: studio_config(start_mode),
        state: ConfigLoadState::Loaded,
        error: None,
    })
}

#[test]
fn production_path_app_auto_candidate_prepares_recovers_and_publishes_running() {
    let mut harness = SupervisorHarness::stopped();
    let token = begin_command_operation(&mut harness.ctx).unwrap();

    let response =
        harness.world.install(&mut harness.ctx, plain_request(token), studio_loaded("auto"));

    assert!(response.ok, "{}", response.message);
    assert_eq!(harness.ctx.runtime.config_family, ConfigFamily::App);
    assert_eq!(harness.lifecycle().daemon_state, DaemonState::Ready);
    assert_eq!(harness.lifecycle().capture_state, CaptureState::Running);
    assert!(harness.ctx.runtime.capture.is_some());
    let session = harness.ctx.runtime.session.as_ref().unwrap();
    assert!(!session.policy_poisoned);
    assert_eq!(harness.world.resources.live(ProbeResource::Backend), 1);
    drop(release_capture_for_shutdown(&mut harness.ctx));
    assert_eq!(harness.world.resources.live(ProbeResource::Backend), 0);
}

#[test]
fn app_command_publication_invalidates_then_replays_unarmed_fault() {
    let mut harness = RetryOperationHarness::new(Vec::new());
    harness.world.early_fault = Some(RuntimeCaptureFault::BackendFault(
        "app fault recorded before publication".to_string(),
    ));
    let token = begin_command_operation(&mut harness.ctx).unwrap();

    let response =
        harness.world.install(&mut harness.ctx, plain_request(token), studio_loaded("auto"));

    assert!(response.ok, "{}", response.message);
    assert!(harness.ctx.runtime.capture_health.is_some());
    harness.run();
    assert_eq!(harness.completed, 1);
    assert_eq!(harness.lifecycle().capture_state, CaptureState::Faulted);
    assert_eq!(harness.lifecycle().retry_attempt, 1);
}

#[test]
fn production_path_app_recovery_failure_rejects_before_publication_backend_first() {
    let mut harness = SupervisorHarness::stopped();
    harness.world.recoveries.push_back(Ok(1));
    let token = begin_command_operation(&mut harness.ctx).unwrap();

    let response =
        harness.world.install(&mut harness.ctx, plain_request(token), studio_loaded("auto"));

    assert!(!response.ok);
    assert!(response.message.contains("app startup recovery failed"));
    assert!(response.message.contains("for 1 transaction(s)"));
    assert!(harness.ctx.runtime.capture.is_none());
    assert!(harness.ctx.runtime.session.is_none());
    assert_eq!(harness.world.resources.live(ProbeResource::Backend), 0);
    assert_eq!(harness.world.resources.live(ProbeResource::Session), 0);
    assert_eq!(harness.world.resources.dropped()[0], ProbeResource::Backend);
    assert_eq!(harness.world.resources.dropped()[1], ProbeResource::Session);
}

#[test]
fn stale_app_candidate_after_direct_stop_does_not_deadlock_or_publish() {
    let mut harness = SupervisorHarness::stopped();
    let resources = Rc::new(Counters::default());
    let token = begin_command_operation(&mut harness.ctx).unwrap();
    harness.world.meanwhile = Some(Box::new(begin_shutdown));
    let response = harness.world.finish_candidate(
        &mut harness.ctx,
        plain_request(token),
        test_app_candidate(true, &resources),
        "auto".to_string(),
    );

    assert!(!response.ok);
    assert_eq!(harness.lifecycle().daemon_state, DaemonState::Stopping);
    assert_eq!(
        resources.dropped(),
        vec![
            ProbeResource::Backend,
            ProbeResource::Session,
            ProbeResource::Arena,
            ProbeResource::Workspace,
            ProbeResource::Descriptor,
        ]
    );
    assert!(harness.ctx.runtime.session.is_none());
}

#[test]
fn direct_stop_after_start_persistence_keeps_durable_selection_but_not_runtime_candidate() {
    let mut harness = SupervisorHarness::stopped();
    let resources = Rc::new(Counters::default());
    let token = begin_command_operation(&mut harness.ctx).unwrap();
    harness.world.after_save = Some(Box::new(begin_shutdown));
    let request = InstallRequest {
        old_already_detached: true,
        force_start: true,
        activate: true,
        ..plain_request(token)
    };
    let response = harness.world.finish_candidate(
        &mut harness.ctx,
        request,
        studio_candidate(&resources),
        "auto".to_string(),
    );

    assert!(!response.ok);
    assert_eq!(harness.world.saves, 1);
    let saved = harness.world.saved.as_ref().unwrap();
    assert_eq!(saved.daemon.active_profile.as_deref(), Some("studio"));
    assert!(harness.ctx.runtime.session.is_none());
    assert_eq!(harness.lifecycle().daemon_state, DaemonState::Stopping);
    assert_eq!(resources.counts(), [0; 5]);
}

#[test]
fn direct_stop_before_active_profile_save_admission_leaves_disk_unchanged() {
    let mut harness = SupervisorHarness::stopped();
    let resources = Rc::new(Counters::default());
    let token = begin_command_operation(&mut harness.ctx).unwrap();
    harness.world.meanwhile = Some(Box::new(begin_shutdown));
    let request = InstallRequest {
        old_already_detached: true,
        force_start: true,
        activate: true,
        ..plain_request(token)
    };
    let response = harness.world.finish_candidate(
        &mut harness.ctx,
        request,
        studio_candidate(&resources),
        "auto".to_string(),
    );

    assert!(!response.ok);
    assert_eq!(harness.world.saves, 0);
    assert!(harness.world.saved.is_none());
    assert_eq!(harness.lifecycle().daemon_state, DaemonState::Stopping);
    assert_eq!(resources.live(ProbeResource::Backend), 0);
}

#[test]
fn a_failed_save_gives_the_candidate_up() {
    let mut harness = SupervisorHarness::stopped();
    let resources = Rc::new(Counters::default());
    let token = begin_command_operation(&mut harness.ctx).unwrap();
    harness
        .world
        .save_results
        .push_back(Err(LambError::Io("/tmp/lamb.toml: read-only".to_string())));
    let request = InstallRequest { activate: true, ..plain_request(token) };
    let response = harness.world.finish_candidate(
        &mut harness.ctx,
        request,
        test_app_candidate(true, &resources),
        "auto".to_string(),
    );
    assert!(!response.ok);
    assert_eq!(response.message, "/tmp/lamb.toml: read-only");
    assert_eq!(response.error_context.error_class, Some(ErrorClass::Transient));
    assert_eq!(resources.counts(), [0; 5]);
    assert!(harness.ctx.runtime.session.is_none());
}

#[test]
fn explicit_start_while_running_is_noop_without_reading_disk() {
    let mut harness = SupervisorHarness::running();
    let before = harness.snapshot();
    harness.world.disk = Some("not valid toml".to_string());

    let response = harness.start_capture();

    assert!(response.ok);
    assert_eq!(response.message, "capture already running");
    assert_eq!(harness.world.disk_reads, 0);
    assert_preserved_with_one_generation_advance(&before, &harness.snapshot());
}

#[test]
fn running_start_advances_generation_at_entry_and_rejects_old_fault_and_retry() {
    let mut harness = SupervisorHarness::running();
    let old_generation = harness.lifecycle().generation;
    let old_attempt_id = CaptureAttemptId { raw: 8 };
    let old_sink = harness.ctx.scheduler.fault_sink(old_generation, old_attempt_id);
    harness.ctx.runtime.capture_health = Some(PipeWireHealth::with_fault_sink(old_sink));
    let before = harness.snapshot();

    assert!(harness.start_capture().ok);
    assert_eq!(harness.lifecycle().generation, old_generation + 1);

    old_sink.notify(
        &mut harness.ctx.scheduler,
        RuntimeCaptureFault::BackendFault("old sink".to_string()),
    );
    let now = harness.world.now();
    drop(publish_runtime_fault(
        &mut harness.ctx,
        old_generation,
        old_attempt_id,
        RuntimeCaptureFault::BackendFault("old publication".to_string()),
        now,
    ));
    harness.world.retry(&mut harness.ctx, old_generation);
    assert_eq!(harness.world.calls, 0);
    assert_eq!(harness.ctx.scheduler.pending_operation(), None);
    assert_preserved_with_one_generation_advance(&before, &harness.snapshot());

    let mut health = harness.ctx.runtime.capture_health.take().unwrap();
    assert!(health.record_fatal(
        &mut harness.ctx.scheduler,
        RuntimeCaptureFault::BackendFault("fault after no-op start".to_string()),
    ));
    assert_eq!(
        harness.ctx.scheduler.pending_operation(),
        Some(ScheduledOperation::RuntimeFault {
            generation: old_generation + 1,
            attempt_id: old_attempt_id,
            fault: RuntimeCaptureFault::BackendFault("fault after no-op start".to_string()),
        })
    );
}

#[test]
fn preserve_running_reload_advances_at_entry_and_rejects_old_fault_and_retry() {
    let mut harness = SupervisorHarness::running();
    let old_generation = harness.lifecycle().generation;
    let old_attempt_id = CaptureAttemptId { raw: 9 };
    let old_sink = harness.ctx.scheduler.fault_sink(old_generation, old_attempt_id);
    harness.ctx.runtime.capture_health = Some(PipeWireHealth::with_fault_sink(old_sink));
    let before = harness.snapshot();
    harness.world.disk = Some("not valid toml".to_string());

    let response = harness.world.reload_with_hook(&mut harness.ctx, |ctx| {
        assert_eq!(ctx.runtime.lifecycle.generation, old_generation + 1);
    });
    assert!(!response.ok);

    old_sink.notify(
        &mut harness.ctx.scheduler,
        RuntimeCaptureFault::DeviceDisconnected("old sink".to_string()),
    );
    harness.world.retry(&mut harness.ctx, old_generation);
    assert_eq!(harness.world.calls, 0);
    assert_eq!(harness.ctx.scheduler.pending_operation(), None);
    assert_preserved_with_one_generation_advance(&before, &harness.snapshot());

    let fault = RuntimeCaptureFault::DeviceDisconnected("fault after failed reload".to_string());
    let health = harness.ctx.runtime.capture_health.as_mut().unwrap();
    assert!(health.record_fatal(&mut harness.ctx.scheduler, fault.clone()));
    assert_eq!(
        harness.ctx.scheduler.pending_operation(),
        Some(ScheduledOperation::RuntimeFault {
            generation: old_generation + 1,
            attempt_id: old_attempt_id,
            fault,
        })
    );
}

#[test]
fn failed_running_reload_startup_callback_preserves_old_capture_and_queues_no_fault() {
    let mut harness = SupervisorHarness::running();
    harness.world.early_fault =
        Some(RuntimeCaptureFault::BackendFault("candidate callback fault".to_string()));
    harness
        .world
        .outcomes
        .push_back(Err(transient(CaptureState::Faulted, "candidate startup failed")));
    let before = harness.snapshot();

    let response = harness.reload();

    assert!(!response.ok);
    assert!(harness.world.early_fault.is_none());
    assert_preserved_with_one_generation_advance(&before, &harness.snapshot());
    assert_eq!(harness.ctx.scheduler.pending_operation(), None);
}

#[test]
fn stop_capture_advances_at_entry_and_rejects_old_fault_and_retry() {
    let mut harness = SupervisorHarness::running();
    let old_generation = harness.lifecycle().generation;
    let old_attempt_id = CaptureAttemptId { raw: 10 };
    let old_sink = harness.ctx.scheduler.fault_sink(old_generation, old_attempt_id);
    assert!(harness.stop_capture().ok);
    assert_eq!(harness.lifecycle().generation, old_generation + 1);

    old_sink.notify(
        &mut harness.ctx.scheduler,
        RuntimeCaptureFault::BackendFault("old sink".to_string()),
    );
    let now = harness.world.now();
    drop(publish_runtime_fault(
        &mut harness.ctx,
        old_generation,
        old_attempt_id,
        RuntimeCaptureFault::BackendFault("old publication".to_string()),
        now,
    ));
    harness.world.retry(&mut harness.ctx, old_generation);
    assert_eq!(harness.world.calls, 0);
    assert_eq!(harness.ctx.scheduler.pending_operation(), None);
    assert_eq!(harness.lifecycle().capture_state, CaptureState::Stopped);
}

#[test]
fn poisoned_runtime_direct_stop_returns_coherent_stopping_status_and_clears_poison() {
    let mut harness = SupervisorHarness::running();
    harness.ctx.runtime_poisoned = true;

    let RequestRoute::Respond(response) =
        handle_idle_request(&mut harness.ctx, ControlRequest::Stop)
    else {
        panic!("a stop is answered at once");
    };

    assert!(response.ok);
    let status = response.status.unwrap();
    assert_eq!(status.lifecycle.daemon_state, DaemonState::Stopping);
    assert_eq!(status.lifecycle.capture_state, CaptureState::Running);
    assert!(!harness.ctx.runtime_poisoned);
    drop(release_capture_for_shutdown(&mut harness.ctx));
    assert_eq!(harness.world.resources.counts(), [0; 5]);
}

#[test]
fn direct_stop_route_wakes_scheduler_without_closing_operation_lane() {
    let mut harness = SupervisorHarness::running();
    let generation = harness.lifecycle().generation;

    let ClientRoute::Respond(response) =
        route_client_request(&mut harness.ctx, ControlRequest::Stop)
    else {
        panic!("a stop is answered at once");
    };

    assert!(response.ok);
    assert!(harness.ctx.scheduler.is_stopped());
    assert_eq!(harness.lifecycle().generation, generation + 1);
    assert_eq!(harness.lifecycle().daemon_state, DaemonState::Stopping);
    drop(release_capture_for_shutdown(&mut harness.ctx));
    assert_eq!(harness.world.resources.counts(), [0; 5]);
}

#[test]
fn stop_capture_releases_capture_without_stopping_daemon() {
    let mut harness = SupervisorHarness::running();
    harness.stop_capture();
    assert_eq!(harness.lifecycle().capture_state, CaptureState::Stopped);
    assert!(!harness.ctx.stop);
    assert_eq!(harness.world.resources.counts(), [0; 5]);
}

#[test]
fn corrected_legacy_reload_starts_capture() {
    let mut harness = SupervisorHarness::stopped_with(vec![Ok(test_active_capture())]);
    let response = harness.reload_with_text(&fake_text());
    assert!(response.ok);
    assert_eq!(harness.lifecycle().daemon_state, DaemonState::Ready);
    assert_eq!(harness.lifecycle().capture_state, CaptureState::Running);
}

#[test]
fn explicit_start_permanent_error_is_structured_and_not_terminal() {
    let mut harness = SupervisorHarness::stopped_with(vec![Err(permanent("invalid profile"))]);
    let response = harness.start_capture();
    assert!(!response.ok);
    assert_eq!(response.error_context.error_class, Some(ErrorClass::Permanent));
    assert_eq!(harness.lifecycle().retry_policy, RetryPolicy::Manual);
    let status = response.status.unwrap();
    assert_eq!(status.lifecycle.daemon_state, DaemonState::Degraded);
    assert_eq!(status.lifecycle.capture_state, CaptureState::Faulted);
    assert_eq!(status.lifecycle.retry_policy, RetryPolicy::Manual);
    assert_eq!(status.lifecycle.last_error.as_deref(), Some("invalid profile"));
    assert!(!harness.ctx.stop);
}

#[test]
fn explicit_start_transient_error_is_structured_and_not_terminal() {
    let mut harness = SupervisorHarness::stopped_with(vec![Err(transient(
        CaptureState::WaitingForDevice,
        "target missing",
    ))]);
    let response = harness.start_capture();
    assert!(!response.ok);
    assert_eq!(response.error_context.error_class, Some(ErrorClass::Transient));
    assert_eq!(harness.lifecycle().capture_state, CaptureState::WaitingForDevice);
    let status = response.status.unwrap();
    assert_eq!(status.lifecycle.daemon_state, DaemonState::Degraded);
    assert_eq!(status.lifecycle.capture_state, CaptureState::WaitingForDevice);
    assert_eq!(status.lifecycle.retry_policy, RetryPolicy::BoundedBackoff);
    assert_eq!(status.lifecycle.retry_attempt, 1);
    assert_eq!(status.lifecycle.next_retry_at, Some(1));
    assert_eq!(status.lifecycle.last_error.as_deref(), Some("target missing"));
    assert!(!harness.ctx.stop);
}

#[test]
fn operator_generation_overflow_is_fatal_without_retry_or_other_mutation() {
    let mut harness = SupervisorHarness::stopped();
    harness.ctx.runtime.lifecycle.generation = u64::MAX;
    let before = harness.snapshot();

    let response = harness.start_capture();

    assert!(!response.ok);
    assert_eq!(response.error_context.error_class, Some(ErrorClass::Fatal));
    assert_eq!(harness.snapshot(), before);
    assert_eq!(harness.ctx.scheduler.pending_operation(), None);
}

#[test]
fn fatal_capture_attempt_state_application_rejects_without_mutation() {
    let mut harness = SupervisorHarness::stopped();
    let before = harness.snapshot();
    let now = harness.world.now();

    let rejected = apply_capture_attempt_error_to_state(
        &mut harness.ctx.runtime,
        fatal("fatal state application"),
        now,
    );

    assert_eq!(rejected, Err(fatal("fatal state application")));
    assert_eq!(harness.snapshot(), before);
    assert!(!harness.ctx.stop);
}

#[test]
fn publish_generation_overflow_cleans_poisoned_resources_then_signals_fatal() {
    let mut harness = SupervisorHarness::stopped();
    let resources = Rc::new(Counters::default());
    let stale = capture_with_resources(&resources);
    harness.ctx.runtime.lifecycle.generation = u64::MAX;
    harness.ctx.runtime.capture = Some(stale.backend);
    harness.ctx.runtime.session = Some(stale.session);
    harness.ctx.runtime_poisoned = true;
    let now = harness.world.now();

    drop(publish_capture_attempt_error(
        &mut harness.ctx,
        transient(CaptureState::WaitingForDevice, "candidate unavailable"),
        now,
    ));

    assert_eq!(harness.lifecycle().generation, u64::MAX);
    assert_eq!(harness.lifecycle().error_class, None);
    assert_ne!(harness.lifecycle().retry_policy, RetryPolicy::Manual);
    assert!(harness.ctx.runtime.capture.is_none());
    assert!(harness.ctx.runtime.session.is_none());
    assert!(harness.ctx.stop);
    assert!(harness.ctx.scheduler.is_stopped());
    assert!(harness.ctx.first_fatal.as_deref().unwrap().contains("generation overflow"));
    assert_eq!(resources.live(ProbeResource::Backend), 0);
    assert_eq!(resources.live(ProbeResource::Session), 0);
    assert_eq!(&resources.dropped()[..2], &[ProbeResource::Backend, ProbeResource::Session]);
}

#[test]
fn recovered_poison_generation_overflow_returns_fatal_and_retains_first_cause() {
    let mut harness = SupervisorHarness::stopped();
    let token = begin_command_operation(&mut harness.ctx).unwrap();
    harness.ctx.first_fatal = Some("earlier fatal cause".to_string());
    let resources = Rc::new(Counters::default());
    let stale = capture_with_resources(&resources);
    harness.ctx.runtime.lifecycle.generation = u64::MAX;
    harness.ctx.runtime.capture = Some(stale.backend);
    harness.ctx.runtime.session = Some(stale.session);
    harness.ctx.runtime_poisoned = true;
    let now = harness.world.now();

    let (response, released) = command_attempt_failure(
        &mut harness.ctx,
        token,
        transient(CaptureState::WaitingForDevice, "candidate unavailable"),
        false,
        now,
    );
    drop(released);

    assert!(!response.ok);
    assert_eq!(response.error_context.error_class, Some(ErrorClass::Fatal));
    assert!(response.message.contains("generation overflow"));
    assert_eq!(harness.ctx.first_fatal.as_deref(), Some("earlier fatal cause"));
    assert!(harness.ctx.stop);
    assert_eq!(resources.counts(), [0; 5]);
    assert_eq!(harness.lifecycle().error_class, None);
    assert_ne!(harness.lifecycle().retry_policy, RetryPolicy::Manual);
}

#[test]
fn stale_fatal_attempt_is_superseded_without_signalling() {
    let mut harness = SupervisorHarness::stopped();
    let stale_token = begin_command_operation(&mut harness.ctx).unwrap();
    let _current_token = begin_command_operation(&mut harness.ctx).unwrap();
    let now = harness.world.now();

    let (response, _) =
        command_attempt_failure(&mut harness.ctx, stale_token, fatal("stale fatal"), false, now);

    assert_eq!(response.error_context.error_class, Some(ErrorClass::Transient));
    assert!(!harness.ctx.stop);
    assert!(harness.ctx.first_fatal.is_none());
}

#[test]
fn internal_retry_fatal_install_response_signals_shutdown() {
    let mut harness = SupervisorHarness::stopped_with(vec![Err(fatal("fatal retry install"))]);
    let generation = harness.lifecycle().generation;

    harness.world.retry(&mut harness.ctx, generation);

    assert!(harness.ctx.stop);
    assert_eq!(harness.ctx.first_fatal.as_deref(), Some("fatal retry install"));
    assert!(harness.ctx.scheduler.is_stopped());
    assert_eq!(harness.ctx.scheduler.pending_operation(), None);
    let lifecycle = harness.lifecycle();
    assert_eq!(lifecycle.error_class, None);
    assert_ne!(lifecycle.retry_policy, RetryPolicy::Manual);
}

#[test]
fn stop_generation_prevents_stale_reload_completion_from_publishing() {
    let mut harness = SupervisorHarness::running();
    harness.world.outcomes.push_back(Ok(test_active_capture()));
    harness.world.meanwhile = Some(Box::new(|ctx| {
        assert!(settle(stop_capture_transaction(ctx)).ok);
    }));
    let stale = harness.reload();

    assert!(!stale.ok);
    assert_eq!(stale.message, "capture operation was superseded");
    assert_eq!(harness.lifecycle().capture_state, CaptureState::Stopped);
    assert!(harness.ctx.runtime.session.is_none());
}

#[test]
fn stale_start_after_stop_capture_does_not_publish() {
    let mut harness = SupervisorHarness::stopped_with(vec![Ok(test_active_capture())]);
    harness.world.meanwhile = Some(Box::new(|ctx| {
        assert!(settle(stop_capture_transaction(ctx)).ok);
    }));
    assert!(!harness.start_capture().ok);
    assert_eq!(harness.lifecycle().capture_state, CaptureState::Stopped);
}

#[test]
fn stale_start_after_reload_does_not_replace_new_authority() {
    let resources = Rc::new(Counters::default());
    let replaced = Rc::new(Counters::default());
    let mut harness =
        SupervisorHarness::stopped_with(vec![Ok(capture_with_resources(&replaced))]);
    let mut newer = capture_with_resources(&resources);
    newer.session.identity = 2;
    harness.world.meanwhile = Some(Box::new(move |ctx| {
        let mut other = World::new();
        other.outcomes.push_back(Ok(newer));
        assert!(other.reload(ctx).ok);
    }));

    assert!(!harness.start_capture().ok);
    assert_eq!(resources.counts(), [1; 5]);
    assert_eq!(replaced.counts(), [0; 5]);
    assert_eq!(harness.ctx.runtime.session.as_ref().unwrap().identity, 2);
    assert_eq!(harness.lifecycle().capture_state, CaptureState::Running);
}

#[test]
fn stale_start_after_direct_stop_does_not_publish() {
    let mut harness = SupervisorHarness::stopped_with(vec![Ok(test_active_capture())]);
    harness.world.meanwhile = Some(Box::new(begin_shutdown));

    assert!(!harness.start_capture().ok);
    assert_eq!(harness.lifecycle().daemon_state, DaemonState::Stopping);
    assert!(harness.ctx.runtime.session.is_none());
}

#[test]
fn stale_reload_after_newer_reload_does_not_replace_new_authority() {
    let resources = Rc::new(Counters::default());
    let mut harness = SupervisorHarness::running();
    harness.world.outcomes.push_back(Ok(test_active_capture()));
    let mut newer = capture_with_resources(&resources);
    newer.session.identity = 2;
    harness.world.meanwhile = Some(Box::new(move |ctx| {
        let mut other = World::new();
        other.outcomes.push_back(Ok(newer));
        assert!(other.reload(ctx).ok);
    }));

    assert!(!harness.reload().ok);
    assert_eq!(resources.counts(), [1; 5]);
    assert_eq!(harness.ctx.runtime.session.as_ref().unwrap().identity, 2);
}

#[test]
fn failed_capture_attempt_publishes_no_active_resources() {
    let prepared = prepare_legacy(parse_legacy(&pipewire_text())).unwrap();
    let counters = Rc::new(Counters::default());
    let attempt = |_resolved| -> Result<(), LambError> {
        let _backend = counters.lease(ProbeResource::Backend);
        let _session = counters.lease(ProbeResource::Session);
        let _arena = counters.lease(ProbeResource::Arena);
        let _workspace = counters.lease(ProbeResource::Workspace);
        let _descriptor = counters.lease(ProbeResource::Descriptor);
        Err(LambError::Capture("injected attempt failure".to_string()))
    };
    let result = resolve_legacy_capture_with(
        &prepared,
        Ok((test_resolved_target(4, 44_100), Vec::new())),
    )
    .and_then(attempt);
    assert!(result.is_err());
    assert_eq!(counters.live(ProbeResource::Backend), 0);
    assert_eq!(counters.live(ProbeResource::Session), 0);
    assert_eq!(counters.live(ProbeResource::Arena), 0);
    assert_eq!(counters.live(ProbeResource::Workspace), 0);
    assert_eq!(counters.live(ProbeResource::Descriptor), 0);
}

#[test]
fn late_listener_setup_failure_drops_real_attempt_before_worker_publication() {
    let prepared = prepare_legacy(parse_legacy(&fake_text())).unwrap();
    let counters = Rc::new(Counters::default());
    let worker_published = Cell::new(false);
    let resolved =
        resolve_legacy_capture_with(&prepared, Err(LambError::Capture(String::new()))).unwrap();
    let active: Active = assemble_legacy_capture(
        &prepared,
        resolved,
        Some(counters.lease(ProbeResource::Backend)),
        SESSION_RESOURCES.iter().map(|resource| counters.lease(*resource)).collect(),
        1,
        Some(PipeWireHealth::unarmed_with_fault_sink(RuntimeFaultSink::new(1))),
    );
    assert_eq!(active.backend.kind, BackendKind::Fake);
    assert!(active.health.is_none());
    assert_eq!(active.resolved.channel_count, 2);
    assert_eq!(active.resolved.sample_rate, 48_000);

    let finish = |active: Active| -> Result<(), LambError> {
        assert_eq!(active.session.channel_count, active.resolved.channel_count);
        assert_eq!(active.session.sample_rate, active.resolved.sample_rate);
        assert_eq!(prepared.static_config.backend, "fake");
        Err(LambError::Control("injected final listener setup failure".to_string()))?;
        worker_published.set(true);
        Ok(())
    };
    let error = finish(active).unwrap_err();

    assert!(matches!(&error, LambError::Control(_)));
    assert_eq!(error.process_exit_code(), 1);
    assert!(!worker_published.get());
    assert_eq!(counters.counts(), [0; 5]);
    let dropped = counters.dropped();
    assert_eq!(dropped.len(), 5);
    assert_eq!(dropped.first(), Some(&ProbeResource::Backend));
}

#[test]
fn legacy_attempt_passes_resolved_runtime_dimensions_to_builder() {
    let prepared = prepare_legacy(parse_legacy(&pipewire_text())).unwrap();
    let state = resolve_legacy_capture_with(
        &prepared,
        Ok((test_resolved_target(4, 44_100), Vec::new())),
    )
    .map(|resolved| resolved.state)
    .unwrap();
    assert_eq!(state.channel_count, 4);
    assert_eq!(state.sample_rate, 44_100);
}

#[test]
fn legacy_pipewire_preparation_accepts_capture_ports_without_channels() {
    let cfg = parse_legacy(&pipewire_text());
    let before = cfg.clone();
    let prepared = prepare_legacy(cfg).unwrap();

    assert_eq!(prepared.static_config, before);
    assert_eq!(prepared.static_config.channels, None);
    assert_eq!(prepared.session_export_policy.activity.channels.len(), before.capture_ports.len());
    assert_eq!(prepared.runtime_params.seconds, 30);
    assert_eq!(prepared.runtime_params.maximum_calibration_seconds, 0);
}

#[test]
fn legacy_preparation_rejects_explicit_channels_with_capture_ports() {
    let mut cfg = parse_legacy(&pipewire_text());
    cfg.channels = Some(4);
    let error = prepare_legacy(cfg).unwrap_err();
    assert!(error.to_text().contains("channels conflicts with capturePorts"));
}

#[test]
fn legacy_policy_error_occurs_during_preparation() {
    let mut cfg = parse_legacy(&fake_text());
    cfg.output_dir = "/tmp/root/../escape".to_string();
    assert!(prepare_legacy(cfg).is_err());
}

#[test]
fn legacy_backends_that_are_not_known_are_refused() {
    let mut cfg = parse_legacy(&fake_text());
    cfg.backend = "oss".to_string();
    assert_eq!(
        prepare_legacy(cfg).unwrap_err(),
        LambError::Validation("unsupported legacy backend oss".to_string())
    );
    let mut cfg = parse_legacy(&fake_text());
    cfg.channels = None;
    assert_eq!(legacy_channel_count(&cfg, Ok(()), Ok(9)), Ok(2));
    cfg.backend = "pipewire".to_string();
    assert_eq!(legacy_channel_count(&cfg, Ok(()), Ok(9)), Ok(9));
    assert_eq!(
        legacy_channel_count(&cfg, Ok(()), Ok(1 << 40)).unwrap_err().to_text(),
        "validation error: capturePorts exceeds supported channel count"
    );
}

#[test]
fn app_context_records_post_bind_initialization_error_instead_of_returning_it() {
    let mut config = default_app_config();
    config.daemon.active_profile = Some("missing-profile".to_string());
    let mut world = World::new();

    let ctx = build_app(&mut world, config)
        .expect("post-bind app initialization faults must remain inspectable");
    assert_eq!(ctx.runtime.state, RunState::Faulted);
    assert_eq!(ctx.runtime.lifecycle.daemon_state, DaemonState::Degraded);
    assert_eq!(ctx.runtime.lifecycle.capture_state, CaptureState::Faulted);
    assert_eq!(ctx.runtime.lifecycle.error_class, Some(ErrorClass::Permanent));
    assert_eq!(ctx.runtime.lifecycle.retry_policy, RetryPolicy::Manual);
    assert_eq!(ctx.runtime.lifecycle.retry_attempt, 0);
    assert_eq!(ctx.runtime.lifecycle.next_retry_at, None);
    assert!(ctx.runtime.last_error.as_deref().unwrap().contains("missing-profile"));
    assert!(ctx.runtime.capture.is_none());
    assert!(ctx.runtime.session.is_none());
    assert_eq!(ctx.scheduler.pending_operation(), None);
}

#[test]
fn permanent_prepared_fault_never_invokes_legacy_starter() {
    let mut ctx = build_ready(
        BootstrapConfig {
            config_path: "/tmp/lamb.toml".to_string(),
            text: None,
            family: ConfigFamily::Legacy,
            control_socket_path: SOCKET.to_string(),
        },
        PreparedBootstrap::Faulted {
            family: ConfigFamily::Legacy,
            fallback_app_config: default_app_config(),
            message: "schema fault".to_string(),
        },
    );
    let mut world = World::new();

    world.configured_start(&mut ctx).unwrap();

    assert_eq!(world.calls, 0);
    assert!(ctx.runtime.capture.is_none());
    assert!(ctx.runtime.session.is_none());
    assert_eq!(ctx.runtime.lifecycle.error_class, Some(ErrorClass::Permanent));
}

#[test]
fn legacy_recovery_failure_cleans_attempt_before_degraded_publication() {
    let mut ctx = legacy_context("/tmp/lamb.toml");
    let counters = Rc::new(Counters::default());
    let mut world = World::new();
    let mut active = capture_with_resources(&counters);
    active.session.resource.truncate(1);
    counters.dropped.borrow_mut().clear();
    world.outcomes.push_back(Ok(active));
    world
        .recoveries
        .push_back(Err(LambError::Control("injected startup recovery failure".to_string())));

    world.configured_start(&mut ctx).unwrap();

    assert!(world.recoveries.is_empty());
    assert_eq!(counters.live(ProbeResource::Backend), 0);
    assert_eq!(counters.live(ProbeResource::Session), 0);
    assert_eq!(counters.dropped(), vec![ProbeResource::Backend, ProbeResource::Session]);
    assert!(ctx.runtime.capture.is_none());
    assert!(ctx.runtime.session.is_none());
    assert_eq!(ctx.runtime.lifecycle.daemon_state, DaemonState::Degraded);
    assert!(ctx.runtime.last_error.as_deref().unwrap().contains("startup recovery failure"));
}

#[test]
fn a_configured_start_ends_the_daemon_only_on_a_fatal_error() {
    let mut ctx = legacy_context("/tmp/lamb.toml");
    let mut world = World::new();
    world.outcomes.push_back(Err(fatal("broken invariant")));
    assert_eq!(
        world.configured_start(&mut ctx),
        Err(LambError::Capture("broken invariant".to_string()))
    );

    let mut ctx = legacy_context("/tmp/lamb.toml");
    let mut world = World::new();
    world.outcomes.push_back(Ok(test_active_capture()));
    world.configured_start(&mut ctx).unwrap();
    assert_eq!(ctx.runtime.lifecycle.capture_state, CaptureState::Running);
    assert_eq!(ctx.runtime.lifecycle.generation, 1);

    let mut ctx = legacy_context("/tmp/lamb.toml");
    let mut world = World::new();
    ctx.runtime.lifecycle.generation = u64::MAX;
    assert_eq!(
        world.configured_start(&mut ctx),
        Err(LambError::Capture("capture generation overflow".to_string()))
    );
}

#[test]
fn attempt_identities_run_out_with_a_fatal_error() {
    let mut harness = SupervisorHarness::stopped();
    harness.ctx.attempts = u64::MAX;
    let response = harness.start_capture();
    assert!(!response.ok);
    assert_eq!(response.message, "capture attempt identity overflow");
    assert_eq!(response.error_context.error_class, Some(ErrorClass::Fatal));
    assert!(harness.ctx.stop);
}

#[test]
fn operation_epochs_run_out_with_a_fatal_error() {
    let mut harness = SupervisorHarness::stopped();
    harness.ctx.operation_epoch = u64::MAX;
    let error = begin_command_operation(&mut harness.ctx).unwrap_err();
    assert_eq!(error, fatal("operation epoch overflow"));
    let generation = harness.lifecycle().generation;
    harness.world.retry(&mut harness.ctx, generation);
    assert_eq!(harness.ctx.first_fatal.as_deref(), Some("operation epoch overflow"));
    let mut stopped = SupervisorHarness::stopped();
    begin_shutdown(&mut stopped.ctx);
    let error = begin_command_operation(&mut stopped.ctx).unwrap_err();
    assert_eq!(error.message, "daemon is shutting down");
    assert_eq!(error.capture_state, CaptureState::Stopped);
}

#[test]
fn the_first_fatal_error_is_kept() {
    let mut harness = SupervisorHarness::stopped();
    signal_fatal(&mut harness.ctx, "first".to_string());
    signal_fatal(&mut harness.ctx, "second".to_string());
    assert_eq!(harness.ctx.first_fatal.as_deref(), Some("first"));
    assert!(harness.ctx.stop);
    assert!(harness.ctx.scheduler.is_stopped());
}

struct OrderedDropProbe {
    name: &'static str,
    order: Rc<RefCell<Vec<&'static str>>>,
}

impl Drop for OrderedDropProbe {
    fn drop(&mut self) {
        self.order.borrow_mut().push(self.name);
    }
}

#[test]
fn stopped_ownership_drops_backend_before_final_session() {
    let order = Rc::new(RefCell::new(Vec::new()));
    let backend = OrderedDropProbe { name: "backend", order: Rc::clone(&order) };
    let session = OrderedDropProbe { name: "session", order: Rc::clone(&order) };

    drop_capture_then_session(Some(backend), Some(session));

    assert_eq!(*order.borrow(), vec!["backend", "session"]);
}

#[test]
fn private_app_post_backend_failure_drops_backend_before_session_and_retains_nothing() {
    let counters = Rc::new(Counters::default());
    let attempt = PrivateAppCaptureAttempt {
        backend: probe_backend(counters.lease(ProbeResource::Backend)),
        session: test_session(vec![counters.lease(ProbeResource::Session)]),
        health: None,
    };
    let profile = studio_profile();
    let mut evidence = no_evidence(&profile);
    evidence[0].input_id =
        Err(LambError::Control("injected post-backend policy failure".to_string()));

    let result = install_attempt_policy(
        &studio_config("auto"),
        &profile,
        attempt,
        &evidence,
        &detector_versions(),
        1_000,
        true,
    );
    let (released, error) = result.unwrap_err();
    assert_eq!(error.to_text(), "control error: injected post-backend policy failure");
    drop(released);

    assert_eq!(counters.live(ProbeResource::Backend), 0);
    assert_eq!(counters.live(ProbeResource::Session), 0);
    assert_eq!(counters.dropped(), vec![ProbeResource::Backend, ProbeResource::Session]);
}

#[test]
fn poisoned_stop_capture_releases_ownership_backend_first_before_reporting_success() {
    let counters = Rc::new(Counters::default());
    let mut ctx = legacy_context("/tmp/lamb.toml");
    ctx.runtime.prepared_legacy = None;
    ctx.runtime.config_family = ConfigFamily::App;
    ctx.runtime.state = RunState::Capturing;
    ctx.runtime.lifecycle.mark_running(None, None);
    ctx.runtime.capture = Some(probe_backend(counters.lease(ProbeResource::Backend)));
    ctx.runtime.session = Some(test_session(vec![counters.lease(ProbeResource::Session)]));
    ctx.runtime_poisoned = true;

    let RequestRoute::Done(done) = handle_idle_request(&mut ctx, ControlRequest::StopCapture)
    else {
        panic!("a stop of capture is carried out at once");
    };
    let response = settle(done);

    assert!(response.ok, "stop response must reflect completed teardown");
    assert_eq!(response.message, "capture stopped");
    let status = response.status.expect("successful stop must include status");
    assert_eq!(status.state.label(), "unconfigured");
    assert_eq!(status.lifecycle.daemon_state, DaemonState::Ready);
    assert_eq!(status.lifecycle.capture_state, CaptureState::Stopped);
    assert_eq!(status.lifecycle.error_class, None);
    assert_eq!(status.lifecycle.retry_policy, RetryPolicy::NoRetry);
    assert_eq!(status.lifecycle.retry_attempt, 0);
    assert_eq!(status.lifecycle.next_retry_at, None);
    assert_eq!(status.last_error, None);
    assert!(!ctx.runtime_poisoned);
    assert!(ctx.runtime.capture.is_none());
    assert!(ctx.runtime.session.is_none());
    assert_eq!(counters.dropped(), vec![ProbeResource::Backend, ProbeResource::Session]);
}

#[test]
fn a_start_names_the_profile_it_captures() {
    let mut harness = SupervisorHarness::stopped_with(vec![Ok(test_active_capture())]);
    let response =
        harness.world.start_capture(&mut harness.ctx, Some("studio".to_string()), false);
    assert!(response.ok, "{}", response.message);
    assert_eq!(response.message, "capturing studio");

    let mut harness = SupervisorHarness::stopped_with(vec![Ok(test_active_capture())]);
    assert_eq!(harness.start_capture().message, "capture started");
}

#[test]
fn a_start_of_a_profile_that_is_not_configured_is_refused_by_name() {
    let mut harness = SupervisorHarness::stopped();
    harness.world.disk = Some(app_text("manual", SOCKET));
    let response =
        harness.world.start_capture(&mut harness.ctx, Some("  studio ".to_string()), false);
    assert!(!response.ok);
    assert_eq!(response.message, "profile studio does not exist");
    harness.world.disk = None;
    let response = harness.start_capture();
    assert_eq!(response.message, "config file not found: /tmp/lamb.toml");
}

#[test]
fn a_started_jack_capture_needs_a_jack_profile() {
    let counters = Rc::new(Counters::default());
    let mut profile = studio_profile();
    profile.backend = "pipewire".to_string();
    let started = StartedAppCapture {
        source: AppSource::Jack,
        sample_rate: 100,
        identity: 1,
        calibration_sample_frames: 0,
        health: None,
        input_refusals: Vec::new(),
        live_refusals: Vec::new(),
        backend: Some(counters.lease(ProbeResource::Backend)),
        memory: vec![counters.lease(ProbeResource::Session)],
    };
    let failed = open_app_session(&profile, started, true).unwrap_err();
    assert_eq!(
        failed.error,
        LambError::Capture("JACK live identities require a JACK profile".to_string())
    );
    drop(failed);
    assert_eq!(counters.dropped(), vec![ProbeResource::Backend, ProbeResource::Session]);
}

#[test]
fn profiles_ask_for_a_backend_that_there_is() {
    let mut profile = studio_profile();
    assert!(plan_app_backend(&profile).is_ok());
    profile.backend = "pipewire".to_string();
    assert_eq!(
        plan_app_backend(&profile).unwrap_err().message,
        "validation error: pipewire profile has no pipewire config"
    );
    profile.backend = "alsa".to_string();
    let error = plan_app_backend(&profile).unwrap_err();
    assert_eq!(error.message, "validation error: unknown backend: alsa");
    assert_eq!(error.class, ErrorClass::Permanent);
}

#[test]
fn a_recovery_that_fails_on_a_poisoned_state_puts_it_in_order() {
    let mut ctx = legacy_context("/tmp/lamb.toml");
    ctx.runtime_poisoned = true;
    let active = test_active_capture();
    let refused = Err(LambError::Control("no recovery".to_string()));
    let now = RetryInstant::from_millis(0);
    let ConfiguredStep::Finished { result, .. } =
        configured_start_recovered(&mut ctx, active, refused, now)
    else {
        panic!("the attempt is over");
    };
    assert!(result.is_ok());
    assert!(!ctx.runtime_poisoned);
    assert_eq!(ctx.runtime.last_error.as_deref(), Some("control error: no recovery"));
    assert_eq!(ctx.runtime.lifecycle.retry_attempt, 1);
}
