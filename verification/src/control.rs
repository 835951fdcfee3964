//! What clients ask of the daemon and what they are answered.

use crate::lifecycle::{
    CaptureState, DaemonLifecycleStatus, DaemonState, ErrorClass, LifecycleState,
    LifecycleStatusView, LifecycleView, RetryPolicy,
};
use crate::model::{ConfigFamily, ContextView, IdleDaemonContext, RunState, RuntimeView};
use crate::persistence::PersistenceOutcomeResponse;
use crate::text::{copy_text, text_of};
use crate::threshold::ThresholdReport;
use vstd::prelude::*;

verus! {

/// What a client asks about activity thresholds. A level is the bit pattern of
/// a 64-bit floating-point number of decibels.
#[derive(Debug, Clone, PartialEq, Eq)]
pub enum ThresholdRequest {
    Show { profile: String },
    SetLevel { profile: String, channel: String, dbfs_bits: u64 },
    Reset { profile: String, channel: String },
    Calibrate { profile: String, channel: String, seconds: u32 },
}

/// What a client asks.
#[derive(Debug, Clone, PartialEq, Eq)]
pub enum ControlRequest {
    Status,
    Stop,
    StartCapture { profile: Option<String>, activate: bool },
    StopCapture,
    Recall,
    Clear,
    Dump,
    Reload,
    Threshold { request: ThresholdRequest },
}

/// What the memory of a capture session holds, in frames.
#[derive(Debug, Clone, Copy, PartialEq, Eq, Structural)]
pub struct CaptureArenaStatus {
    pub capacity_frames: u64,
    pub retained_frames: u64,
    pub dropped_frames: u64,
    pub frozen_pending: bool,
}

/// The state of the daemon as clients see it. Lengths of time are given in
/// frames at the sample rate.
#[derive(Debug, Clone, PartialEq, Eq)]
pub struct DaemonStatus {
    pub state: RunState,
    pub active_export_count: u32,
    pub pending_recall_count: u32,
    pub buffer_capacity_frames: u64,
    pub retained_frames: u64,
    pub dropped_frames: u64,
    pub target: Option<String>,
    pub resolved_target: Option<String>,
    pub sample_rate: u32,
    pub channel_count: u32,
    pub format: String,
    pub last_error: Option<String>,
    pub lifecycle: DaemonLifecycleStatus,
}

/// The model of a status.
pub struct StatusView {
    pub state: RunState,
    pub active_export_count: u32,
    pub pending_recall_count: u32,
    pub buffer_capacity_frames: u64,
    pub retained_frames: u64,
    pub dropped_frames: u64,
    pub target: Option<Seq<char>>,
    pub resolved_target: Option<Seq<char>>,
    pub sample_rate: u32,
    pub channel_count: u32,
    pub format: Seq<char>,
    pub last_error: Option<Seq<char>>,
    pub lifecycle: LifecycleStatusView,
}

impl View for DaemonStatus {
    type V = StatusView;

    open spec fn view(&self) -> StatusView {
        StatusView {
            state: self.state,
            active_export_count: self.active_export_count,
            pending_recall_count: self.pending_recall_count,
            buffer_capacity_frames: self.buffer_capacity_frames,
            retained_frames: self.retained_frames,
            dropped_frames: self.dropped_frames,
            target: text_of(self.target),
            resolved_target: text_of(self.resolved_target),
            sample_rate: self.sample_rate,
            channel_count: self.channel_count,
            format: self.format@,
            last_error: text_of(self.last_error),
            lifecycle: self.lifecycle@,
        }
    }
}

impl StatusView {
    /// The status once the memory of the session was asked. A session that did
    /// not answer counts as empty, and the status of a state that someone failed on
    /// tells of none.
    pub open spec fn with_arena(self, answer: Option<CaptureArenaStatus>) -> StatusView {
        match answer {
            Some(arena) if self.state != RunState::Poisoned => StatusView {
                active_export_count: if arena.frozen_pending {
                    1
                } else {
                    0
                },
                buffer_capacity_frames: arena.capacity_frames,
                retained_frames: arena.retained_frames,
                dropped_frames: arena.dropped_frames,
                ..self
            },
            _ => self,
        }
    }
}

impl DaemonStatus {
    /// Fills in what the memory of the session answered.
    pub fn fill_from_arena(&mut self, answer: Option<CaptureArenaStatus>)
        ensures
            final(self)@ == old(self)@.with_arena(answer),
    {
        if self.state == RunState::Poisoned {
            return ;
        }
        if let Some(arena) = answer {
            self.active_export_count = if arena.frozen_pending {
                1
            } else {
                0
            };
            self.buffer_capacity_frames = arena.capacity_frames;
            self.retained_frames = arena.retained_frames;
            self.dropped_frames = arena.dropped_frames;
        }
    }
}

impl<B, S> RuntimeView<B, S> {
    /// The fault that the capture met, if any: the one its health record keeps,
    /// or else the one its backend shows.
    pub open spec fn capture_fault(self) -> Option<Seq<char>> {
        if self.capture_health is Some && self.capture_health->0.fault is Some {
            Some(self.capture_health->0.fault->0.text())
        } else if self.capture is Some {
            self.capture->0.shown_error()
        } else {
            None
        }
    }
}

impl LifecycleView {
    /// The lifecycle that a status shows while a capture fault stands that was
    /// not worked off yet.
    pub open spec fn faulted(self, fault: Seq<char>) -> LifecycleView {
        LifecycleView {
            daemon_state: DaemonState::Degraded,
            capture_state: CaptureState::Faulted,
            error_class: Some(ErrorClass::Transient),
            last_error: Some(fault),
            retry_policy: RetryPolicy::Manual,
            retry_attempt: 0,
            next_retry_at: None,
            ..self
        }
    }
}

/// The text of the first of three that there is.
pub open spec fn first_text(
    first: Option<Seq<char>>,
    second: Option<Seq<char>>,
    third: Option<Seq<char>>,
) -> Option<Seq<char>> {
    if first is Some {
        first
    } else if second is Some {
        second
    } else {
        third
    }
}

impl<B, S> ContextView<B, S> {
    /// The lifecycle that a status shows.
    pub open spec fn shown_lifecycle(self) -> LifecycleView {
        if self.runtime_poisoned {
            LifecycleView::ready_stopped(None).permanent("runtime state lock poisoned"@)
        } else if self.stop {
            self.runtime.lifecycle.stopping()
        } else if self.runtime.capture_fault() is Some {
            self.runtime.lifecycle.faulted(self.runtime.capture_fault()->0)
        } else {
            self.runtime.lifecycle
        }
    }

    /// The status before the memory of the session was asked.
    pub open spec fn status(self) -> StatusView {
        let runtime = self.runtime;
        if self.runtime_poisoned {
            StatusView {
                state: RunState::Poisoned,
                active_export_count: 0,
                pending_recall_count: 0,
                buffer_capacity_frames: 0,
                retained_frames: 0,
                dropped_frames: 0,
                target: Some(self.config_path),
                resolved_target: None,
                sample_rate: 0,
                channel_count: 0,
                format: Seq::empty(),
                last_error: None,
                lifecycle: self.shown_lifecycle().status(self.clock_origin),
            }
        } else {
            StatusView {
                state: if self.stop {
                    RunState::Stopping
                } else if runtime.capture_fault() is Some {
                    RunState::Faulted
                } else {
                    runtime.state
                },
                active_export_count: 0,
                pending_recall_count: 0,
                buffer_capacity_frames: 0,
                retained_frames: 0,
                dropped_frames: 0,
                target: match runtime.config_family {
                    ConfigFamily::Legacy => match runtime.prepared_legacy {
                        Some(prepared) => text_of(prepared.static_config.target),
                        None => None,
                    },
                    ConfigFamily::App => Some(self.config_path),
                },
                resolved_target: match runtime.config_family {
                    ConfigFamily::Legacy => match runtime.resolved_capture {
                        Some(resolved) => text_of(resolved.resolved_target),
                        None => None,
                    },
                    ConfigFamily::App => match runtime.active_profile {
                        Some(profile) => Some(profile.name@),
                        None => None,
                    },
                },
                sample_rate: match runtime.session {
                    Some(session) => session.sample_rate,
                    None => 0,
                },
                channel_count: match runtime.session {
                    Some(session) => session.channel_count,
                    None => 0,
                },
                format: match runtime.config_family {
                    ConfigFamily::Legacy => match runtime.prepared_legacy {
                        Some(prepared) => prepared.static_config.sample_format@,
                        None => Seq::empty(),
                    },
                    ConfigFamily::App => if runtime.session is Some {
                        "F32LE"@
                    } else {
                        Seq::empty()
                    },
                },
                last_error: first_text(
                    runtime.capture_fault(),
                    runtime.config_load_error,
                    runtime.last_error,
                ),
                lifecycle: self.shown_lifecycle().status(self.clock_origin),
            }
        }
    }
}

/// The fault that the capture met, if any.
fn capture_fault_of<B, S>(ctx: &IdleDaemonContext<B, S>) -> (fault: Option<String>)
    ensures
        text_of(fault) == ctx@.runtime.capture_fault(),
{
    if let Some(health) = &ctx.runtime.capture_health {
        if let Some(fault) = &health.fault {
            return Some(fault.message());
        }
    }
    match &ctx.runtime.capture {
        Some(backend) => backend.runtime_error(),
        None => None,
    }
}

fn first_of(first: Option<String>, second: &Option<String>, third: &Option<String>) -> (text:
    Option<String>)
    ensures
        text_of(text) == first_text(text_of(first), text_of(*second), text_of(*third)),
{
    if first.is_some() {
        first
    } else if second.is_some() {
        copy_text(second)
    } else {
        copy_text(third)
    }
}

/// The status of the daemon, taken at one moment. What the memory of the session
/// holds is asked afterwards and filled in then.
pub fn idle_status_response<B, S>(ctx: &IdleDaemonContext<B, S>) -> (status: DaemonStatus)
    ensures
        status@ == ctx@.status(),
{
    if ctx.runtime_poisoned {
        let mut lifecycle = LifecycleState::ready_stopped(None);
        lifecycle.mark_permanent("runtime state lock poisoned".to_string());
        return DaemonStatus {
            state: RunState::Poisoned,
            active_export_count: 0,
            pending_recall_count: 0,
            buffer_capacity_frames: 0,
            retained_frames: 0,
            dropped_frames: 0,
            target: Some(ctx.config_path.clone()),
            resolved_target: None,
            sample_rate: 0,
            channel_count: 0,
            format: String::new(),
            last_error: None,
            lifecycle: lifecycle.status(&ctx.clock_origin),
        };
    }
    let runtime = &ctx.runtime;
    let fault = capture_fault_of(ctx);
    let mut lifecycle = runtime.lifecycle.duplicate();
    let state = if ctx.stop {
        lifecycle.mark_stopping();
        RunState::Stopping
    } else {
        match &fault {
            Some(error) => {
                lifecycle.daemon_state = DaemonState::Degraded;
                lifecycle.capture_state = CaptureState::Faulted;
                lifecycle.error_class = Some(ErrorClass::Transient);
                lifecycle.last_error = Some(error.clone());
                lifecycle.retry_policy = RetryPolicy::Manual;
                lifecycle.retry_attempt = 0;
                lifecycle.next_retry_at = None;
                RunState::Faulted
            },
            None => runtime.state,
        }
    };
    let last_error = first_of(fault, &runtime.config_load_error, &runtime.last_error);
    let (sample_rate, channel_count): (u32, u32) = match &runtime.session {
        Some(session) => (session.sample_rate, session.channel_count),
        None => (0, 0),
    };
    let (target, resolved_target, format) = match runtime.config_family {
        ConfigFamily::Legacy => (
            match &runtime.prepared_legacy {
                Some(prepared) => copy_text(&prepared.static_config.target),
                None => None,
            },
            match &runtime.resolved_capture {
                Some(resolved) => copy_text(&resolved.resolved_target),
                None => None,
            },
            match &runtime.prepared_legacy {
                Some(prepared) => prepared.static_config.sample_format.clone(),
                None => String::new(),
            },
        ),
        ConfigFamily::App => (
            Some(ctx.config_path.clone()),
            match &runtime.active_profile {
                Some(profile) => Some(profile.name.clone()),
                None => None,
            },
            if runtime.session.is_some() {
                "F32LE".to_string()
            } else {
                String::new()
            },
        ),
    };
    DaemonStatus {
        state,
        active_export_count: 0,
        pending_recall_count: 0,
        buffer_capacity_frames: 0,
        retained_frames: 0,
        dropped_frames: 0,
        target,
        resolved_target,
        sample_rate,
        channel_count,
        format,
        last_error,
        lifecycle: lifecycle.status(&ctx.clock_origin),
    }
}

/// What a failure says beyond its message.
#[derive(Debug, Clone, Copy, PartialEq, Eq, Structural)]
pub struct ControlErrorContext {
    pub error_class: Option<ErrorClass>,
    pub daemon_state: Option<DaemonState>,
    pub capture_state: Option<CaptureState>,
}

impl ControlErrorContext {
    /// A context that says nothing.
    pub open spec fn silent() -> ControlErrorContext {
        ControlErrorContext { error_class: None, daemon_state: None, capture_state: None }
    }
}

/// What a client is answered.
#[derive(Debug, Clone, PartialEq, Eq)]
pub struct ControlResponse {
    pub ok: bool,
    pub message: String,
    pub status: Option<DaemonStatus>,
    pub error_context: ControlErrorContext,
    pub persistence_outcome: Option<PersistenceOutcomeResponse>,
    pub threshold_report: Option<ThresholdReport>,
}

/// The model of an answer.
pub struct ResponseView {
    pub ok: bool,
    pub message: Seq<char>,
    pub status: Option<StatusView>,
    pub error_context: ControlErrorContext,
    pub persistence_outcome: Option<PersistenceOutcomeResponse>,
    pub threshold_report: Option<ThresholdReport>,
}

impl View for ControlResponse {
    type V = ResponseView;

    open spec fn view(&self) -> ResponseView {
        ResponseView {
            ok: self.ok,
            message: self.message@,
            status: match self.status {
                Some(status) => Some(status@),
                None => None,
            },
            error_context: self.error_context,
            persistence_outcome: self.persistence_outcome,
            threshold_report: self.threshold_report,
        }
    }
}

impl ResponseView {
    /// An answer with a message and a status, and nothing else.
    pub open spec fn plain(ok: bool, message: Seq<char>, status: StatusView) -> ResponseView {
        ResponseView {
            ok,
            message,
            status: Some(status),
            error_context: ControlErrorContext::silent(),
            persistence_outcome: None,
            threshold_report: None,
        }
    }

    /// A refusal that says what kind of error it was and what the daemon is
    /// doing.
    pub open spec fn failure(
        message: Seq<char>,
        status: StatusView,
        error_class: Option<ErrorClass>,
        daemon_state: DaemonState,
        capture_state: CaptureState,
    ) -> ResponseView {
        ResponseView {
            ok: false,
            message,
            status: Some(status),
            error_context: ControlErrorContext {
                error_class,
                daemon_state: Some(daemon_state),
                capture_state: Some(capture_state),
            },
            persistence_outcome: None,
            threshold_report: None,
        }
    }

    /// Whether the answer reports an error that ends the daemon.
    pub open spec fn is_fatal(self) -> bool {
        self.error_context.error_class == Some(ErrorClass::Fatal)
    }
}

impl ControlResponse {
    /// An answer with a message and a status, and nothing else.
    pub fn plain(ok: bool, message: String, status: DaemonStatus) -> (response: ControlResponse)
        ensures
            response@ == ResponseView::plain(ok, message@, status@),
    {
        ControlResponse {
            ok,
            message,
            status: Some(status),
            error_context: ControlErrorContext {
                error_class: None,
                daemon_state: None,
                capture_state: None,
            },
            persistence_outcome: None,
            threshold_report: None,
        }
    }

    /// A refusal that says what kind of error it was and what the daemon is
    /// doing.
    pub fn failure(
        message: String,
        status: DaemonStatus,
        error_class: Option<ErrorClass>,
        daemon_state: DaemonState,
        capture_state: CaptureState,
    ) -> (response: ControlResponse)
        ensures
            response@ == ResponseView::failure(
                message@,
                status@,
                error_class,
                daemon_state,
                capture_state,
            ),
    {
        ControlResponse {
            ok: false,
            message,
            status: Some(status),
            error_context: ControlErrorContext {
                error_class,
                daemon_state: Some(daemon_state),
                capture_state: Some(capture_state),
            },
            persistence_outcome: None,
            threshold_report: None,
        }
    }
}

/// While a capture fault stands and the daemon is not going down, a status shows
/// it: the state is faulted, and the fault is the last error.
pub proof fn a_standing_fault_is_shown<B, S>(ctx: ContextView<B, S>)
    requires
        !ctx.runtime_poisoned,
        !ctx.stop,
        ctx.runtime.capture_fault() is Some,
    ensures
        ctx.status().state == RunState::Faulted,
        ctx.status().last_error == ctx.runtime.capture_fault(),
        ctx.status().lifecycle.capture_state == CaptureState::Faulted,
        ctx.status().lifecycle.last_error == ctx.runtime.capture_fault(),
{
}

/// A daemon that is going down says so in both places of its status.
pub proof fn a_stopping_daemon_says_so<B, S>(ctx: ContextView<B, S>)
    requires
        !ctx.runtime_poisoned,
        ctx.stop,
    ensures
        ctx.status().state == RunState::Stopping,
        ctx.status().lifecycle.daemon_state == DaemonState::Stopping,
        ctx.status().lifecycle.next_retry_at is None,
{
}

} // verus!
