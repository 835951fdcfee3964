//! The data the daemon works on: configuration as far as it is read, captures
//! with their sessions, and the context that holds all of it.

use crate::health::PipeWireHealth;
use crate::lifecycle::{LifecycleState, LifecycleView, UnixOrigin};
use crate::scheduler::RetryScheduler;
use crate::text::text_of;
use vstd::prelude::*;

verus! {

/// Which of the two configuration formats is in use.
#[derive(Debug, Clone, Copy, PartialEq, Eq, Structural)]
pub enum ConfigFamily {
    App,
    Legacy,
}

/// The one-word state that clients are shown.
#[derive(Debug, Clone, Copy, PartialEq, Eq, Structural)]
pub enum RunState {
    Unconfigured,
    Starting,
    Capturing,
    Faulted,
    Stopped,
    Idle,
    Stopping,
    Poisoned,
}

impl RunState {
    /// The word that clients are shown.
    pub open spec fn word(self) -> Seq<char> {
        match self {
            RunState::Unconfigured => "unconfigured"@,
            RunState::Starting => "starting"@,
            RunState::Capturing => "capturing"@,
            RunState::Faulted => "faulted"@,
            RunState::Stopped => "stopped"@,
            RunState::Idle => "idle"@,
            RunState::Stopping => "stopping"@,
            RunState::Poisoned => "poisoned"@,
        }
    }

    /// The word that clients are shown.
    pub fn label(&self) -> (label: &'static str)
        ensures
            label@ == self.word(),
    {
        match self {
            RunState::Unconfigured => "unconfigured",
            RunState::Starting => "starting",
            RunState::Capturing => "capturing",
            RunState::Faulted => "faulted",
            RunState::Stopped => "stopped",
            RunState::Idle => "idle",
            RunState::Stopping => "stopping",
            RunState::Poisoned => "poisoned",
        }
    }
}

/// How a threshold came to be.
#[derive(Debug, Clone, Copy, PartialEq, Eq, Structural)]
pub enum ThresholdSource {
    Manual,
    Calibrated,
}

/// A stored activity threshold. The level is the bit pattern of a 64-bit
/// floating-point number of decibels.
#[derive(Debug, Clone, PartialEq, Eq)]
pub struct ActivityThresholdConfig {
    pub threshold_bits: u64,
    pub threshold_source: ThresholdSource,
    pub updated_at_unix_seconds: u64,
    pub input_id: String,
    pub calibration_id: Option<String>,
}

/// The settings of one named channel.
#[derive(Debug, Clone, PartialEq, Eq)]
pub struct ChannelConfig {
    pub name: String,
    pub activity: Option<ActivityThresholdConfig>,
}

/// One named profile, as far as thresholds are concerned.
#[derive(Debug, Clone, PartialEq, Eq)]
pub struct ProfileConfig {
    pub name: String,
    pub channels: Vec<ChannelConfig>,
}

/// The daemon section of the configuration.
#[derive(Debug, Clone, PartialEq, Eq)]
pub struct DaemonConfig {
    pub start_mode: String,
    pub active_profile: Option<String>,
    pub control_socket_path: String,
}

/// The profile-based configuration, as far as the daemon reads it.
#[derive(Debug, Clone, PartialEq, Eq)]
pub struct AppConfig {
    pub daemon: DaemonConfig,
    pub profiles: Vec<ProfileConfig>,
}

/// How the detector of activity works.
#[derive(Debug, Clone, Copy, PartialEq, Eq, Structural)]
pub enum ActivityDetectorKind {
    ExactZero,
    WindowedRmsPeak,
    FixedLevel,
    CalibratedNoiseFloor,
}

impl ActivityDetectorKind {
    /// The name under which reports show the detector, where it has one.
    pub open spec fn shown_name(self) -> Option<Seq<char>> {
        match self {
            ActivityDetectorKind::ExactZero => Some("exact-zero"@),
            ActivityDetectorKind::WindowedRmsPeak => Some("windowed-rms-peak"@),
            _ => None,
        }
    }

    /// The name under which reports show the detector, where it has one.
    pub fn report_name(&self) -> (name: Option<&'static str>)
        ensures
            match name {
                Some(name) => self.shown_name() == Some(name@),
                None => self.shown_name() is None,
            },
    {
        match self {
            ActivityDetectorKind::ExactZero => Some("exact-zero"),
            ActivityDetectorKind::WindowedRmsPeak => Some("windowed-rms-peak"),
            _ => None,
        }
    }
}

/// Whether a channel is written.
#[derive(Debug, Clone, Copy, PartialEq, Eq, Structural)]
pub enum ChannelExportMode {
    Always,
    /// Only where there is activity on it.
    Auto,
    Never,
}

/// The activity rule of one channel: its name, whether it is written, and the
/// threshold above which it counts as active, where it has one.
#[derive(Debug, Clone, PartialEq, Eq)]
pub struct ActivityChannel {
    pub name: String,
    pub mode: ChannelExportMode,
    pub threshold: Option<ActivityThresholdConfig>,
}

/// The activity rules of all channels.
#[derive(Debug, Clone, PartialEq, Eq)]
pub struct ActivityPolicy {
    pub detector: ActivityDetectorKind,
    pub channels: Vec<ActivityChannel>,
    pub whole_export_exact_zero_gate: bool,
    pub trim_leading_silence: bool,
}

/// How the files of one export are laid out.
#[derive(Debug, Clone, Copy, PartialEq, Eq, Structural)]
pub enum ResolvedLayout {
    /// As the command that exports has it.
    CommandDefault,
    FlatDetailed,
    TimestampDirectory,
}

/// Where audio is written, how its files are laid out, and which of it is left
/// out.
#[derive(Debug, Clone, PartialEq, Eq)]
pub struct ResolvedExportPolicy {
    pub output_dir: String,
    pub layout: ResolvedLayout,
    pub activity: ActivityPolicy,
}

/// One port that a profile captures.
#[derive(Debug, Clone, PartialEq, Eq)]
pub struct ResolvedCapturePort {
    pub name: String,
    pub source: String,
}

/// The PipeWire part of a profile.
#[derive(Debug, Clone, PartialEq, Eq)]
pub struct PipeWireCaptureConfig {
    pub target: Option<String>,
    pub capture_ports: Vec<ResolvedCapturePort>,
    pub sample_rate: u32,
    pub dont_remix: bool,
    pub latency: Option<String>,
}

/// A profile with all its settings resolved.
#[derive(Debug, Clone, PartialEq, Eq)]
pub struct ResolvedProfile {
    pub name: String,
    pub backend: String,
    pub client_name: String,
    pub ports: Vec<ResolvedCapturePort>,
    pub buffer_seconds: u32,
    pub export_policy: ResolvedExportPolicy,
    pub pipewire_config: Option<PipeWireCaptureConfig>,
}

/// Which sound system an input belongs to.
#[derive(Debug, Clone, Copy, PartialEq, Eq, Structural)]
pub enum InputBackend {
    PipeWire,
    Jack,
}

/// How the device of an input is selected.
#[derive(Debug, Clone, PartialEq, Eq)]
pub enum ConfiguredDeviceSelector {
    PipeWireTarget(String),
    PipeWireAuto,
    JackSourceClient(String),
}

/// An input as it is configured.
#[derive(Debug, Clone, PartialEq, Eq)]
pub struct ConfiguredInputIdentity {
    pub backend: InputBackend,
    pub selector: ConfiguredDeviceSelector,
    pub name: String,
    pub source: String,
}

/// What kind of key tells a live device from all others.
#[derive(Debug, Clone, Copy, PartialEq, Eq, Structural)]
pub enum LiveDeviceKeyKind {
    NodeName,
    ObjectPath,
    JackSourceClient,
}

/// An input as it was found on the running system.
#[derive(Debug, Clone, PartialEq, Eq)]
pub struct ResolvedLiveInputIdentity {
    pub backend: InputBackend,
    pub key_kind: LiveDeviceKeyKind,
    pub key_value: String,
    pub resolved_source: String,
}

/// The older single-purpose configuration, as far as the daemon reads it. The
/// memory headroom is the bit pattern of a 64-bit floating-point number.
#[derive(Debug, Clone, PartialEq, Eq)]
pub struct LambConfig {
    pub backend: String,
    pub target: Option<String>,
    pub channels: Option<u32>,
    pub channel_map: Option<Vec<String>>,
    pub capture_ports: Vec<String>,
    pub seconds: u32,
    pub sample_rate: u32,
    pub sample_format: String,
    pub chunk_frames: Option<u32>,
    pub output_dir: String,
    pub control_socket_path: String,
    pub memory_max: Option<u64>,
    pub headroom_bits: u64,
    pub split_when_over_bytes: u64,
}

/// What the capture runtime is dimensioned by.
#[derive(Debug, Clone, Copy, PartialEq, Eq, Structural)]
pub struct CaptureRuntimeParams {
    pub seconds: u32,
    pub chunk_frames_override: Option<u32>,
    pub memory_max: Option<u64>,
    pub headroom_bits: u64,
    pub split_when_over_bytes: u64,
    pub io_buffer_bytes_per_channel: u64,
    pub maximum_path_bytes: u64,
    pub maximum_calibration_seconds: u32,
    pub capture_queue_slots: u64,
    pub capture_worker_stack_bytes: u64,
    pub control_queue_capacity: u64,
    pub worker_stack_bytes: u64,
}

/// The sizes that every capture runtime has alike, whatever is configured.
#[derive(Debug, Clone, Copy, PartialEq, Eq, Structural)]
pub struct RuntimeDefaults {
    pub io_buffer_bytes_per_channel: u64,
    pub maximum_path_bytes: u64,
    pub capture_queue_slots: u64,
    pub capture_worker_stack_bytes: u64,
    pub control_queue_capacity: u64,
    pub worker_stack_bytes: u64,
}

/// A checked configuration of the older format, ready to be started.
#[derive(Debug, Clone, PartialEq, Eq)]
pub struct PreparedLegacyConfig {
    pub static_config: LambConfig,
    pub session_export_policy: ResolvedExportPolicy,
    pub runtime_params: CaptureRuntimeParams,
}

/// What a capture turned out to be once its device was found.
#[derive(Debug, Clone, PartialEq, Eq)]
pub struct ResolvedCaptureState {
    pub channel_count: u32,
    pub sample_rate: u32,
    pub resolved_target: Option<String>,
}

/// Which backend captures.
#[derive(Debug, Clone, Copy, PartialEq, Eq, Structural)]
pub enum BackendKind {
    Fake,
    Jack,
    PipeWire,
}

/// A running backend: what the daemon reads of it, and the resource itself.
#[derive(Debug)]
pub struct CaptureBackend<B> {
    pub kind: BackendKind,
    pub rate: u32,
    pub error: Option<String>,
    pub resource: B,
}

impl<B> CaptureBackend<B> {
    /// The error of the backend as far as that kind of backend has one.
    pub open spec fn shown_error(self) -> Option<Seq<char>> {
        match self.kind {
            BackendKind::PipeWire => text_of(self.error),
            _ => None,
        }
    }

    /// The error that a PipeWire backend met; other backends have none.
    pub fn runtime_error(&self) -> (error: Option<String>)
        ensures
            text_of(error) == self.shown_error(),
    {
        match self.kind {
            BackendKind::PipeWire => crate::text::copy_text(&self.error),
            _ => None,
        }
    }

    /// The sample rate of a backend that a profile can use.
    pub fn sample_rate(&self) -> (rate: u32)
        requires
            self.kind != BackendKind::Fake,
        ensures
            rate == self.rate,
    {
        self.rate
    }
}

/// The session of one capture: what the daemon reads of it, and the resource
/// itself. The identity tells sessions apart. `policy_poisoned` and
/// `workspace_poisoned` tell that whoever held the export policy, or the memory that
/// writes are prepared in, failed while doing so.
#[derive(Debug)]
pub struct CaptureSession<S> {
    pub identity: u64,
    pub sample_rate: u32,
    pub channel_count: u32,
    pub profile_name: String,
    pub policy: ResolvedExportPolicy,
    pub policy_poisoned: bool,
    pub workspace_poisoned: bool,
    pub configured_inputs: Vec<ConfiguredInputIdentity>,
    pub resolved_live_inputs: Vec<Option<ResolvedLiveInputIdentity>>,
    pub calibration_sample_frames: u64,
    pub resource: S,
}

impl ResolvedCaptureState {
    /// A second copy of what a capture turned out to be.
    pub fn duplicate(&self) -> (copy: ResolvedCaptureState)
        ensures
            copy == *self,
    {
        ResolvedCaptureState {
            channel_count: self.channel_count,
            sample_rate: self.sample_rate,
            resolved_target: crate::text::copy_text(&self.resolved_target),
        }
    }
}

/// How loading the profile-based configuration went.
#[derive(Debug, Clone, Copy, PartialEq, Eq, Structural)]
pub enum ConfigLoadState {
    Loaded,
    Missing,
    Invalid,
}

/// The profile-based configuration as it was loaded.
#[derive(Debug, Clone, PartialEq, Eq)]
pub struct LoadedAppConfig {
    pub config: AppConfig,
    pub state: ConfigLoadState,
    pub error: Option<String>,
}

/// A configuration that was read and checked, or the reason why it cannot be
/// used.
#[derive(Debug, Clone, PartialEq, Eq)]
pub enum PreparedBootstrap {
    App(LoadedAppConfig),
    Legacy(PreparedLegacyConfig),
    Faulted { family: ConfigFamily, fallback_app_config: AppConfig, message: String },
}

/// A capture that was started and is not yet part of the daemon's state.
#[derive(Debug)]
pub struct ActiveCapture<B, S> {
    pub backend: CaptureBackend<B>,
    pub session: CaptureSession<S>,
    pub health: Option<PipeWireHealth>,
    pub resolved: ResolvedCaptureState,
}

impl<B, S> ActiveCapture<B, S> {
    /// What is let go of when the capture is given up.
    pub open spec fn held(self) -> Released<B, S> {
        Released { backend: Some(self.backend), session: Some(self.session) }
    }

    /// Gives the capture up.
    pub fn release(self) -> (released: Released<B, S>)
        ensures
            released == self.held(),
    {
        Released { backend: Some(self.backend), session: Some(self.session) }
    }
}

/// A backend and a session that the daemon has let go of. The backend is the
/// first field, so that it is dropped before its session.
#[derive(Debug)]
pub struct Released<B, S> {
    pub backend: Option<CaptureBackend<B>>,
    pub session: Option<CaptureSession<S>>,
}

impl<B, S> Released<B, S> {
    /// Nothing was let go of.
    pub open spec fn is_empty(self) -> bool {
        self.backend is None && self.session is None
    }
}

/// Lets go of a backend and then of its session.
pub fn drop_capture_then_session<B, S>(backend: Option<B>, session: Option<S>) -> (order: (
    bool,
    bool,
))
    ensures
        order == (backend is Some, session is Some),
{
    let dropped_backend = drop_one(backend);
    let dropped_session = drop_one(session);
    (dropped_backend, dropped_session)
}

fn drop_one<T>(value: Option<T>) -> (held: bool)
    ensures
        held == (value is Some),
{
    value.is_some()
}

/// What the daemon is doing and with what.
#[derive(Debug)]
pub struct AppRuntimeState<B, S> {
    pub config: AppConfig,
    pub config_family: ConfigFamily,
    pub prepared_legacy: Option<PreparedLegacyConfig>,
    pub resolved_capture: Option<ResolvedCaptureState>,
    pub lifecycle: LifecycleState,
    pub state: RunState,
    pub last_error: Option<String>,
    pub config_load_error: Option<String>,
    pub active_profile: Option<ResolvedProfile>,
    pub capture: Option<CaptureBackend<B>>,
    pub capture_health: Option<PipeWireHealth>,
    pub session: Option<CaptureSession<S>>,
}

/// The model of what the daemon is doing: the same, with texts by their
/// characters.
#[verifier::reject_recursive_types(B)]
#[verifier::reject_recursive_types(S)]
pub struct RuntimeView<B, S> {
    pub config: AppConfig,
    pub config_family: ConfigFamily,
    pub prepared_legacy: Option<PreparedLegacyConfig>,
    pub resolved_capture: Option<ResolvedCaptureState>,
    pub lifecycle: LifecycleView,
    pub state: RunState,
    pub last_error: Option<Seq<char>>,
    pub config_load_error: Option<Seq<char>>,
    pub active_profile: Option<ResolvedProfile>,
    pub capture: Option<CaptureBackend<B>>,
    pub capture_health: Option<PipeWireHealth>,
    pub session: Option<CaptureSession<S>>,
}

impl<B, S> View for AppRuntimeState<B, S> {
    type V = RuntimeView<B, S>;

    open spec fn view(&self) -> RuntimeView<B, S> {
        RuntimeView {
            config: self.config,
            config_family: self.config_family,
            prepared_legacy: self.prepared_legacy,
            resolved_capture: self.resolved_capture,
            lifecycle: self.lifecycle@,
            state: self.state,
            last_error: text_of(self.last_error),
            config_load_error: text_of(self.config_load_error),
            active_profile: self.active_profile,
            capture: self.capture,
            capture_health: self.capture_health,
            session: self.session,
        }
    }
}

/// Everything the daemon holds. `runtime_poisoned` tells that whoever held the
/// runtime state last failed while doing so; `attempts` counts the attempt
/// identities that the process handed out so far.
#[derive(Debug)]
pub struct IdleDaemonContext<B, S> {
    pub config_path: String,
    pub control_socket_path: String,
    pub calibration_root: String,
    pub runtime: AppRuntimeState<B, S>,
    pub runtime_poisoned: bool,
    pub clock_origin: UnixOrigin,
    pub scheduler: RetryScheduler,
    pub operation_epoch: u64,
    pub attempts: u64,
    pub stop: bool,
    pub first_fatal: Option<String>,
}

/// The model of everything the daemon holds.
#[verifier::reject_recursive_types(B)]
#[verifier::reject_recursive_types(S)]
pub struct ContextView<B, S> {
    pub config_path: Seq<char>,
    pub control_socket_path: Seq<char>,
    pub calibration_root: Seq<char>,
    pub runtime: RuntimeView<B, S>,
    pub runtime_poisoned: bool,
    pub clock_origin: UnixOrigin,
    pub scheduler: RetryScheduler,
    pub operation_epoch: u64,
    pub attempts: u64,
    pub stop: bool,
    pub first_fatal: Option<Seq<char>>,
}

impl<B, S> View for IdleDaemonContext<B, S> {
    type V = ContextView<B, S>;

    open spec fn view(&self) -> ContextView<B, S> {
        ContextView {
            config_path: self.config_path@,
            control_socket_path: self.control_socket_path@,
            calibration_root: self.calibration_root@,
            runtime: self.runtime@,
            runtime_poisoned: self.runtime_poisoned,
            clock_origin: self.clock_origin,
            scheduler: self.scheduler,
            operation_epoch: self.operation_epoch,
            attempts: self.attempts,
            stop: self.stop,
            first_fatal: text_of(self.first_fatal),
        }
    }
}

impl<B, S> RuntimeView<B, S> {
    /// The same state without a capture.
    pub open spec fn detached(self) -> RuntimeView<B, S> {
        RuntimeView {
            capture: None,
            session: None,
            capture_health: None,
            resolved_capture: None,
            ..self
        }
    }

    /// What the state lets go of when its capture is taken out.
    pub open spec fn held(self) -> Released<B, S> {
        Released { backend: self.capture, session: self.session }
    }

    /// Whether no part of a capture is held.
    pub open spec fn holds_nothing(self) -> bool {
        &&& self.capture is None
        &&& self.session is None
        &&& self.capture_health is None
        &&& self.resolved_capture is None
    }
}

impl<B, S> AppRuntimeState<B, S> {
    /// A state that holds the given configuration and captures nothing.
    pub open spec fn is_empty_for(self, family: ConfigFamily, config: AppConfig) -> bool {
        &&& self@.config_family == family
        &&& self@.config == config
        &&& self@.prepared_legacy is None
        &&& self@.lifecycle == LifecycleView::ready_stopped(None)
        &&& self@.state == RunState::Unconfigured
        &&& self@.last_error is None
        &&& self@.config_load_error is None
        &&& self@.active_profile is None
        &&& self@.holds_nothing()
    }
}

/// Takes the capture out of a state.
pub fn take_active_capture<B, S>(runtime: &mut AppRuntimeState<B, S>) -> (released: Released<B, S>)
    ensures
        released == old(runtime)@.held(),
        final(runtime)@ == old(runtime)@.detached(),
{
    let backend = runtime.capture.take();
    let session = runtime.session.take();
    runtime.capture_health = None;
    runtime.resolved_capture = None;
    Released { backend, session }
}

/// A state that holds the given configuration and captures nothing.
pub fn empty_runtime<B, S>(family: ConfigFamily, config: AppConfig) -> (runtime: AppRuntimeState<
    B,
    S,
>)
    ensures
        runtime.is_empty_for(family, config),
{
    AppRuntimeState {
        config,
        config_family: family,
        prepared_legacy: None,
        resolved_capture: None,
        lifecycle: LifecycleState::ready_stopped(None),
        state: RunState::Unconfigured,
        last_error: None,
        config_load_error: None,
        active_profile: None,
        capture: None,
        capture_health: None,
        session: None,
    }
}

} // verus!
