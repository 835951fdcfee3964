//! The older configuration format: checking it, and finding out what its capture
//! turns out to be.

use crate::bootstrap::{
    expand_control_socket_path, expanded_socket, mentions_runtime_dir, no_runtime_dir,
};
use crate::error::{ErrorView, LambError};
use crate::health::PipeWireHealth;
use crate::identity::ResolvedTarget;
use crate::model::{
    ActiveCapture, BackendKind, CaptureBackend, CaptureRuntimeParams, CaptureSession, LambConfig,
    PreparedLegacyConfig, ResolvedCaptureState, ResolvedExportPolicy, ResolvedProfile,
    RuntimeDefaults,
};
use crate::profile::PolicyView;
use crate::text::{decimal, join, render_decimal, text_is, text_of};
use vstd::prelude::*;
use vstd::string::*;

verus! {

/// What the capture runtime of a configuration of the older format is
/// dimensioned by. Nothing is set aside for calibration.
pub fn legacy_runtime_params(cfg: &LambConfig, defaults: RuntimeDefaults) -> (params:
    CaptureRuntimeParams)
    ensures
        params == (CaptureRuntimeParams {
            seconds: cfg.seconds,
            chunk_frames_override: cfg.chunk_frames,
            memory_max: cfg.memory_max,
            headroom_bits: cfg.headroom_bits,
            split_when_over_bytes: cfg.split_when_over_bytes,
            io_buffer_bytes_per_channel: defaults.io_buffer_bytes_per_channel,
            maximum_path_bytes: defaults.maximum_path_bytes,
            maximum_calibration_seconds: 0,
            capture_queue_slots: defaults.capture_queue_slots,
            capture_worker_stack_bytes: defaults.capture_worker_stack_bytes,
            control_queue_capacity: defaults.control_queue_capacity,
            worker_stack_bytes: defaults.worker_stack_bytes,
        }),
{
    CaptureRuntimeParams {
        seconds: cfg.seconds,
        chunk_frames_override: cfg.chunk_frames,
        memory_max: cfg.memory_max,
        headroom_bits: cfg.headroom_bits,
        split_when_over_bytes: cfg.split_when_over_bytes,
        io_buffer_bytes_per_channel: defaults.io_buffer_bytes_per_channel,
        maximum_path_bytes: defaults.maximum_path_bytes,
        maximum_calibration_seconds: 0,
        capture_queue_slots: defaults.capture_queue_slots,
        capture_worker_stack_bytes: defaults.capture_worker_stack_bytes,
        control_queue_capacity: defaults.control_queue_capacity,
        worker_stack_bytes: defaults.worker_stack_bytes,
    }
}

/// The bit pattern of the number 1.2: the memory headroom of a profile.
pub const PROFILE_HEADROOM_BITS: u64 = 0x3FF3_3333_3333_3333;

/// The longest calibration that memory is set aside for, in seconds.
pub const MAXIMUM_CALIBRATION_SECONDS: u32 = 30;

/// What the capture runtime of a profile is dimensioned by.
pub fn app_runtime_params(
    profile: &ResolvedProfile,
    split_default_bytes: u64,
    defaults: RuntimeDefaults,
) -> (params: CaptureRuntimeParams)
    ensures
        params == (CaptureRuntimeParams {
            seconds: profile.buffer_seconds,
            chunk_frames_override: None,
            memory_max: None,
            headroom_bits: PROFILE_HEADROOM_BITS,
            split_when_over_bytes: split_default_bytes,
            io_buffer_bytes_per_channel: defaults.io_buffer_bytes_per_channel,
            maximum_path_bytes: defaults.maximum_path_bytes,
            maximum_calibration_seconds: 30,
            capture_queue_slots: defaults.capture_queue_slots,
            capture_worker_stack_bytes: defaults.capture_worker_stack_bytes,
            control_queue_capacity: defaults.control_queue_capacity,
            worker_stack_bytes: defaults.worker_stack_bytes,
        }),
{
    CaptureRuntimeParams {
        seconds: profile.buffer_seconds,
        chunk_frames_override: None,
        memory_max: None,
        headroom_bits: PROFILE_HEADROOM_BITS,
        split_when_over_bytes: split_default_bytes,
        io_buffer_bytes_per_channel: defaults.io_buffer_bytes_per_channel,
        maximum_path_bytes: defaults.maximum_path_bytes,
        maximum_calibration_seconds: MAXIMUM_CALIBRATION_SECONDS,
        capture_queue_slots: defaults.capture_queue_slots,
        capture_worker_stack_bytes: defaults.capture_worker_stack_bytes,
        control_queue_capacity: defaults.control_queue_capacity,
        worker_stack_bytes: defaults.worker_stack_bytes,
    }
}

/// Puts the runtime directory into the control socket of a configuration that
/// leaves it open.
pub fn expand_runtime_paths(cfg: LambConfig, runtime_dir: &Option<String>) -> (expanded: Result<
    LambConfig,
    LambError,
>)
    ensures
        match expanded {
            Ok(after) => {
                &&& expanded_socket(cfg.control_socket_path@, text_of(*runtime_dir)) == Some(
                    after.control_socket_path@,
                )
                &&& after == (LambConfig { control_socket_path: after.control_socket_path, ..cfg })
            },
            Err(error) => {
                &&& expanded_socket(cfg.control_socket_path@, text_of(*runtime_dir)) is None
                &&& error@ == no_runtime_dir()
            },
        },
{
    let mut cfg = cfg;
    match expand_control_socket_path(cfg.control_socket_path.as_str(), runtime_dir) {
        Ok(path) => {
            cfg.control_socket_path = path;
            Ok(cfg)
        },
        Err(error) => Err(error),
    }
}

/// The error about a backend that the older format does not know.
pub open spec fn unsupported_legacy_backend(backend: Seq<char>) -> ErrorView {
    ErrorView::Validation("unsupported legacy backend "@ + backend)
}

/// The number of channels that a configuration of the older format asks for, or
/// why there is none. `ports` is the number of capture ports where they could be
/// told.
pub open spec fn legacy_channels(cfg: LambConfig, ports: Result<u64, LambError>) -> Result<
    u32,
    ErrorView,
> {
    if cfg.backend@ == "pipewire"@ {
        match ports {
            Ok(count) => if count <= u32::MAX {
                Ok(count as u32)
            } else {
                Err(ErrorView::Validation("capturePorts exceeds supported channel count"@))
            },
            Err(error) => Err(error@),
        }
    } else if cfg.backend@ == "fake"@ {
        match cfg.channels {
            Some(channels) => Ok(channels),
            None => Ok(2),
        }
    } else {
        Err(unsupported_legacy_backend(cfg.backend@))
    }
}

/// Tells the number of channels that a configuration of the older format asks
/// for. A mistake that its own check finds comes before all else.
pub fn legacy_channel_count(
    cfg: &LambConfig,
    static_check: Result<(), LambError>,
    ports: Result<u64, LambError>,
) -> (count: Result<u32, LambError>)
    ensures
        match static_check {
            Err(mistake) => count is Err && count->Err_0@ == mistake@,
            Ok(()) => match count {
                Ok(count) => legacy_channels(*cfg, ports) == Ok::<u32, ErrorView>(count),
                Err(error) => legacy_channels(*cfg, ports) == Err::<u32, ErrorView>(error@),
            },
        },
{
    if let Err(mistake) = static_check {
        return Err(mistake);
    }
    if text_is(&cfg.backend, "pipewire") {
        return match ports {
            Ok(count) => {
                if count <= u32::MAX as u64 {
                    Ok(count as u32)
                } else {
                    Err(
                        LambError::Validation(
                            "capturePorts exceeds supported channel count".to_string(),
                        ),
                    )
                }
            },
            Err(error) => Err(error),
        };
    }
    if text_is(&cfg.backend, "fake") {
        return match cfg.channels {
            Some(channels) => Ok(channels),
            None => Ok(2),
        };
    }
    Err(LambError::Validation(join("unsupported legacy backend ", cfg.backend.as_str())))
}

/// Prepares a configuration of the older format whose channels are known.
/// `plan_check` tells whether its memory can be set aside, `policy` which export
/// policy its session has.
pub fn prepare_legacy_config(
    cfg: LambConfig,
    plan_check: Result<(), LambError>,
    policy: Result<ResolvedExportPolicy, LambError>,
    defaults: RuntimeDefaults,
) -> (prepared: Result<PreparedLegacyConfig, LambError>)
    ensures
        match prepared {
            Ok(prepared) => {
                &&& plan_check is Ok
                &&& policy is Ok
                &&& prepared.static_config == cfg
                &&& prepared.session_export_policy == policy->Ok_0
                &&& prepared.runtime_params == (CaptureRuntimeParams {
                    seconds: cfg.seconds,
                    chunk_frames_override: cfg.chunk_frames,
                    memory_max: cfg.memory_max,
                    headroom_bits: cfg.headroom_bits,
                    split_when_over_bytes: cfg.split_when_over_bytes,
                    io_buffer_bytes_per_channel: defaults.io_buffer_bytes_per_channel,
                    maximum_path_bytes: defaults.maximum_path_bytes,
                    maximum_calibration_seconds: 0,
                    capture_queue_slots: defaults.capture_queue_slots,
                    capture_worker_stack_bytes: defaults.capture_worker_stack_bytes,
                    control_queue_capacity: defaults.control_queue_capacity,
                    worker_stack_bytes: defaults.worker_stack_bytes,
                })
            },
            Err(error) => match plan_check {
                Err(refusal) => error == refusal,
                Ok(()) => policy is Err && error == policy->Err_0,
            },
        },
{
    if let Err(refusal) = plan_check {
        return Err(refusal);
    }
    match policy {
        Ok(session_export_policy) => {
            let runtime_params = legacy_runtime_params(&cfg, defaults);
            Ok(PreparedLegacyConfig { static_config: cfg, session_export_policy, runtime_params })
        },
        Err(error) => Err(error),
    }
}

/// What captures for a configuration of the older format.
#[derive(Debug, Clone, PartialEq, Eq)]
pub enum ResolvedLegacyBackend {
    Fake,
    PipeWire(ResolvedTarget),
}

/// What the capture of a configuration of the older format turns out to be.
#[derive(Debug, Clone, PartialEq, Eq)]
pub struct ResolvedLegacyCapture {
    pub state: ResolvedCaptureState,
    pub channel_names: Vec<String>,
    pub backend: ResolvedLegacyBackend,
}

/// How a device is shown that was found: its name, and its number where it has
/// one.
pub open spec fn shown_target(target: ResolvedTarget) -> Seq<char> {
    match target.id {
        Some(id) => target.name@ + " ("@ + decimal(id as nat) + ")"@,
        None => target.name@,
    }
}

/// What a capture from a device turns out to be that was found.
pub fn resolved_from_target(target: &ResolvedTarget) -> (state: ResolvedCaptureState)
    ensures
        state.channel_count == target.channels,
        state.sample_rate == target.sample_rate,
        text_of(state.resolved_target) == Some(shown_target(*target)),
{
    let shown = match target.id {
        Some(id) => {
            let mut shown = join(target.name.as_str(), " (");
            let number = render_decimal(id as u64);
            shown = join(shown.as_str(), number.as_str());
            join(shown.as_str(), ")")
        },
        None => target.name.clone(),
    };
    ResolvedCaptureState {
        channel_count: target.channels,
        sample_rate: target.sample_rate,
        resolved_target: Some(shown),
    }
}

/// A second copy of a list of texts.
fn copy_texts(texts: &Vec<String>) -> (copy: Vec<String>)
    ensures
        copy@ == texts@,
{
    let mut copy: Vec<String> = Vec::new();
    let mut i: usize = 0;
    while i < texts.len()
        invariant
            i <= texts.len(),
            copy@ == texts@.take(i as int),
        decreases texts.len() - i,
    {
        copy.push(texts[i].clone());
        i = i + 1;
        proof {
            assert(copy@ =~= texts@.take(i as int));
        }
    }
    proof {
        assert(copy@ =~= texts@);
    }
    copy
}

/// Finds out what the capture of a configuration of the older format turns out
/// to be. `found` is the device that PipeWire finds and the names of its
/// channels; only a configuration for PipeWire asks for it. The configuration
/// itself stays as it is.
pub fn resolve_legacy_capture_with(
    prepared: &PreparedLegacyConfig,
    found: Result<(ResolvedTarget, Vec<String>), LambError>,
) -> (resolved: Result<ResolvedLegacyCapture, LambError>)
    ensures
        ({
            let cfg = prepared.static_config;
            if cfg.backend@ == "fake"@ {
                &&& resolved is Ok
                &&& resolved->Ok_0.backend is Fake
                &&& resolved->Ok_0.state.channel_count == (match cfg.channels {
                    Some(channels) => channels,
                    None => 2,
                })
                &&& resolved->Ok_0.state.sample_rate == cfg.sample_rate
                &&& text_of(resolved->Ok_0.state.resolved_target) == Some("fake"@)
                &&& resolved->Ok_0.channel_names@ == (match cfg.channel_map {
                    Some(names) => names@,
                    None => Seq::empty(),
                })
            } else if cfg.backend@ == "pipewire"@ {
                match found {
                    Ok((target, names)) => {
                        &&& resolved is Ok
                        &&& resolved->Ok_0.backend == ResolvedLegacyBackend::PipeWire(target)
                        &&& resolved->Ok_0.channel_names == names
                        &&& resolved->Ok_0.state.channel_count == target.channels
                        &&& resolved->Ok_0.state.sample_rate == target.sample_rate
                        &&& text_of(resolved->Ok_0.state.resolved_target) == Some(
                            shown_target(target),
                        )
                    },
                    Err(error) => resolved is Err && resolved->Err_0 == error,
                }
            } else {
                &&& resolved is Err
                &&& resolved->Err_0@ == unsupported_legacy_backend(cfg.backend@)
            }
        }),
{
    let cfg = &prepared.static_config;
    if text_is(&cfg.backend, "fake") {
        let channel_count: u32 = match cfg.channels {
            Some(channels) => channels,
            None => 2,
        };
        let channel_names = match &cfg.channel_map {
            Some(names) => copy_texts(names),
            None => {
                let names: Vec<String> = Vec::new();
                proof {
                    assert(names@ =~= Seq::<String>::empty());
                }
                names
            },
        };
        return Ok(
            ResolvedLegacyCapture {
                state: ResolvedCaptureState {
                    channel_count,
                    sample_rate: cfg.sample_rate,
                    resolved_target: Some(cfg.backend.clone()),
                },
                channel_names,
                backend: ResolvedLegacyBackend::Fake,
            },
        );
    }
    if text_is(&cfg.backend, "pipewire") {
        return match found {
            Ok((target, channel_names)) => {
                let state = resolved_from_target(&target);
                Ok(
                    ResolvedLegacyCapture {
                        state,
                        channel_names,
                        backend: ResolvedLegacyBackend::PipeWire(target),
                    },
                )
            },
            Err(error) => Err(error),
        };
    }
    Err(LambError::Validation(join("unsupported legacy backend ", cfg.backend.as_str())))
}

/// The frames that the stand-in capture hands over at a time, where its
/// configuration leaves them open.
pub const FAKE_CHUNK_FRAMES: u32 = 25;

/// How many frames the stand-in capture hands over at a time.
pub fn fake_chunk_frames(prepared: &PreparedLegacyConfig) -> (frames: u32)
    ensures
        frames == (match prepared.static_config.chunk_frames {
            Some(frames) => frames,
            None => 25,
        }),
{
    match prepared.static_config.chunk_frames {
        Some(frames) => frames,
        None => FAKE_CHUNK_FRAMES,
    }
}

/// Whether this is the started capture of a configuration of the older format.
pub open spec fn is_legacy_capture<B, S>(
    active: ActiveCapture<B, S>,
    kind: BackendKind,
    state: ResolvedCaptureState,
    backend: B,
    memory: S,
    identity: u64,
    policy: PolicyView,
    health: Option<PipeWireHealth>,
) -> bool {
    &&& active.backend.kind == kind
    &&& active.backend.rate == state.sample_rate
    &&& active.backend.error is None
    &&& active.backend.resource == backend
    &&& active.session.identity == identity
    &&& active.session.sample_rate == state.sample_rate
    &&& active.session.channel_count == state.channel_count
    &&& active.session.profile_name@ == "legacy"@
    &&& active.session.policy@ == policy
    &&& !active.session.policy_poisoned
    &&& !active.session.workspace_poisoned
    &&& active.session.configured_inputs@.len() == 0
    &&& active.session.resolved_live_inputs@.len() == 0
    &&& active.session.calibration_sample_frames == 0
    &&& active.session.resource == memory
    &&& active.resolved == state
    &&& active.health == (if kind == BackendKind::PipeWire {
        health
    } else {
        None
    })
}

/// Puts together the capture of a configuration of the older format whose backend
/// was started. Only a PipeWire backend has a health record.
pub fn assemble_legacy_capture<B, S>(
    prepared: &PreparedLegacyConfig,
    resolved: ResolvedLegacyCapture,
    backend: B,
    memory: S,
    identity: u64,
    health: Option<PipeWireHealth>,
) -> (active: ActiveCapture<B, S>)
    ensures
        ({
            let kind = if resolved.backend is Fake {
                BackendKind::Fake
            } else {
                BackendKind::PipeWire
            };
            &&& is_legacy_capture(
                active,
                kind,
                resolved.state,
                backend,
                memory,
                identity,
                prepared.session_export_policy@,
                health,
            )
        }),
{
    let kind = match resolved.backend {
        ResolvedLegacyBackend::Fake => BackendKind::Fake,
        ResolvedLegacyBackend::PipeWire(_) => BackendKind::PipeWire,
    };
    let session = CaptureSession::from_legacy_runtime(
        memory,
        identity,
        prepared.session_export_policy.duplicate(),
        &resolved.state,
    );
    ActiveCapture {
        backend: CaptureBackend {
            kind,
            rate: resolved.state.sample_rate,
            error: None,
            resource: backend,
        },
        session,
        health: match kind {
            BackendKind::PipeWire => health,
            _ => None,
        },
        resolved: resolved.state,
    }
}

/// The error about a control socket that lies outside the runtime directory.
pub open spec fn socket_outside_runtime_dir() -> ErrorView {
    ErrorView::Validation("control socket path resolves outside runtime directory"@)
}

/// Why a capture of the older format cannot be started where it would run, if
/// so. `pipewire_socket` is the path at which PipeWire listens, and whether there
/// is anything.
pub open spec fn environment_refusal(
    cfg: LambConfig,
    runtime_dir: Option<Seq<char>>,
    pipewire_socket: Seq<char>,
    pipewire_reachable: bool,
) -> Option<ErrorView> {
    match runtime_dir {
        None => Some(no_runtime_dir()),
        Some(dir) => if !dir.is_prefix_of(cfg.control_socket_path@) && mentions_runtime_dir(
            cfg.control_socket_path@,
        ) {
            Some(socket_outside_runtime_dir())
        } else if cfg.backend@ == "pipewire"@ && !pipewire_reachable {
            Some(ErrorView::Validation("PipeWire socket not reachable at "@ + pipewire_socket))
        } else {
            None
        },
    }
}

/// Whether a text begins with another one.
fn begins_with(text: &str, start: &str) -> (begins: bool)
    ensures
        begins == start@.is_prefix_of(text@),
{
    let length: usize = start.unicode_len();
    if text.unicode_len() < length {
        return false;
    }
    let mut i: usize = 0;
    while i < length
        invariant
            length == start@.len(),
            length <= text@.len(),
            i <= length,
            forall|j: int| 0 <= j < i ==> text@[j] == start@[j],
        decreases length - i,
    {
        if text.get_char(i) != start.get_char(i) {
            proof {
                if start@.is_prefix_of(text@) {
                    assert(text@.subrange(0, length as int)[i as int] == start@[i as int]);
                }
            }
            return false;
        }
        i = i + 1;
    }
    proof {
        assert(start@ =~= text@.subrange(0, length as int));
    }
    true
}

/// Checks that a capture of the older format can be started where it would run.
pub fn validate_runtime_environment(
    cfg: &LambConfig,
    runtime_dir: &Option<String>,
    pipewire_socket: &str,
    pipewire_reachable: bool,
) -> (checked: Result<(), LambError>)
    ensures
        ({
            let refusal = environment_refusal(
                *cfg,
                text_of(*runtime_dir),
                pipewire_socket@,
                pipewire_reachable,
            );
            match checked {
                Ok(()) => refusal is None,
                Err(error) => refusal == Some(error@),
            }
        }),
{
    let dir = match runtime_dir {
        Some(dir) => dir,
        None => {
            return Err(LambError::Validation("XDG_RUNTIME_DIR does not exist".to_string()));
        },
    };
    if !begins_with(cfg.control_socket_path.as_str(), dir.as_str())
        && crate::bootstrap::leaves_runtime_dir_open(cfg.control_socket_path.as_str()) {
        return Err(
            LambError::Validation(
                "control socket path resolves outside runtime directory".to_string(),
            ),
        );
    }
    if text_is(&cfg.backend, "pipewire") && !pipewire_reachable {
        return Err(
            LambError::Validation(join("PipeWire socket not reachable at ", pipewire_socket)),
        );
    }
    Ok(())
}

} // verus!
