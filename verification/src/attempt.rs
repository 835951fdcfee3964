//! Failed attempts to capture, and how far each reaches.

use crate::error::{ErrorView, LambError};
use crate::lifecycle::{CaptureState, ErrorClass, LifecycleView, RetryInstant};
use crate::model::{AppRuntimeState, RunState, RuntimeView};
use vstd::prelude::*;

verus! {

/// A failed attempt to capture.
#[derive(Debug, Clone, PartialEq, Eq)]
pub struct CaptureAttemptError {
    pub class: ErrorClass,
    pub capture_state: CaptureState,
    pub message: String,
}

/// The model of a failed attempt.
pub struct AttemptErrorView {
    pub class: ErrorClass,
    pub capture_state: CaptureState,
    pub message: Seq<char>,
}

impl View for CaptureAttemptError {
    type V = AttemptErrorView;

    open spec fn view(&self) -> AttemptErrorView {
        AttemptErrorView {
            class: self.class,
            capture_state: self.capture_state,
            message: self.message@,
        }
    }
}

impl AttemptErrorView {
    /// An error that ends the daemon.
    pub open spec fn fatal(message: Seq<char>) -> AttemptErrorView {
        AttemptErrorView {
            class: ErrorClass::Fatal,
            capture_state: CaptureState::Faulted,
            message,
        }
    }

    /// An error that waits for an operator.
    pub open spec fn permanent(message: Seq<char>) -> AttemptErrorView {
        AttemptErrorView {
            class: ErrorClass::Permanent,
            capture_state: CaptureState::Faulted,
            message,
        }
    }

    /// What an attempt is told once the daemon is going down.
    pub open spec fn shutdown() -> AttemptErrorView {
        AttemptErrorView {
            class: ErrorClass::Transient,
            capture_state: CaptureState::Stopped,
            message: "daemon is shutting down"@,
        }
    }
}

impl CaptureAttemptError {
    /// An error that ends the daemon.
    pub fn fatal(message: String) -> (error: CaptureAttemptError)
        ensures
            error@ == AttemptErrorView::fatal(message@),
    {
        CaptureAttemptError {
            class: ErrorClass::Fatal,
            capture_state: CaptureState::Faulted,
            message,
        }
    }

    /// An error that waits for an operator.
    pub fn permanent(message: String) -> (error: CaptureAttemptError)
        ensures
            error@ == AttemptErrorView::permanent(message@),
    {
        CaptureAttemptError {
            class: ErrorClass::Permanent,
            capture_state: CaptureState::Faulted,
            message,
        }
    }
}

/// What an attempt is told once the daemon is going down.
pub fn shutdown_attempt_error() -> (error: CaptureAttemptError)
    ensures
        error@ == AttemptErrorView::shutdown(),
{
    CaptureAttemptError {
        class: ErrorClass::Transient,
        capture_state: CaptureState::Stopped,
        message: "daemon is shutting down".to_string(),
    }
}

impl ErrorView {
    /// How far an error reaches that an attempt to capture met: a mistake in the
    /// configuration waits for an operator, a broken invariant ends the daemon,
    /// anything else may pass.
    pub open spec fn attempt_class(self) -> ErrorClass {
        match self {
            ErrorView::Config(_) | ErrorView::Validation(_) => ErrorClass::Permanent,
            ErrorView::DaemonFatal(_) | ErrorView::CaptureInvariant(_)
            | ErrorView::ControlInvariant(_) | ErrorView::ExportInvariant(_) => ErrorClass::Fatal,
            _ => ErrorClass::Transient,
        }
    }

    /// The failed attempt that an error makes.
    pub open spec fn attempt_error(self) -> AttemptErrorView {
        AttemptErrorView {
            class: self.attempt_class(),
            capture_state: CaptureState::Faulted,
            message: self.rendered(),
        }
    }
}

/// Tells how far an error reaches that an attempt to capture met.
pub fn classify_legacy_attempt_error(error: LambError) -> (classified: CaptureAttemptError)
    ensures
        classified@ == error@.attempt_error(),
{
    let class = match &error {
        LambError::Config(_) | LambError::Validation(_) => ErrorClass::Permanent,
        LambError::DaemonFatal(_) | LambError::CaptureInvariant(_)
        | LambError::ControlInvariant(_) | LambError::ExportInvariant(_) => ErrorClass::Fatal,
        _ => ErrorClass::Transient,
    };
    CaptureAttemptError { class, capture_state: CaptureState::Faulted, message: error.to_text() }
}

/// Why the device of a capture was not found, with the rendered reason.
#[derive(Debug, Clone, PartialEq, Eq)]
pub enum TargetResolutionError {
    TargetMissing(String),
    PortMissing(String),
    TargetChanged(String),
    BackendUnavailable(String),
    InvalidSelector(String),
}

impl TargetResolutionError {
    /// The rendered reason.
    pub open spec fn reason(self) -> Seq<char> {
        match self {
            TargetResolutionError::TargetMissing(text) => text@,
            TargetResolutionError::PortMissing(text) => text@,
            TargetResolutionError::TargetChanged(text) => text@,
            TargetResolutionError::BackendUnavailable(text) => text@,
            TargetResolutionError::InvalidSelector(text) => text@,
        }
    }

    /// The failed attempt that this makes: a device that is away is waited for,
    /// a sound system that is away is tried again, and a selector that can never
    /// match waits for an operator.
    pub open spec fn attempt_error(self) -> AttemptErrorView {
        AttemptErrorView {
            class: if self is InvalidSelector {
                ErrorClass::Permanent
            } else {
                ErrorClass::Transient
            },
            capture_state: if self is BackendUnavailable || self is InvalidSelector {
                CaptureState::Faulted
            } else {
                CaptureState::WaitingForDevice
            },
            message: self.reason(),
        }
    }
}

/// Tells how far it reaches that the device of a capture was not found.
pub fn classify_pipewire_resolution_error(error: TargetResolutionError) -> (classified:
    CaptureAttemptError)
    ensures
        classified@ == error.attempt_error(),
{
    match error {
        TargetResolutionError::TargetMissing(message)
        | TargetResolutionError::PortMissing(message)
        | TargetResolutionError::TargetChanged(message) => CaptureAttemptError {
            class: ErrorClass::Transient,
            capture_state: CaptureState::WaitingForDevice,
            message,
        },
        TargetResolutionError::BackendUnavailable(message) => CaptureAttemptError {
            class: ErrorClass::Transient,
            capture_state: CaptureState::Faulted,
            message,
        },
        TargetResolutionError::InvalidSelector(message) => CaptureAttemptError {
            class: ErrorClass::Permanent,
            capture_state: CaptureState::Faulted,
            message,
        },
    }
}

/// Why a PipeWire capture did not start.
#[derive(Debug, Clone, PartialEq, Eq)]
pub enum PipeWireStartupError {
    Resolution(TargetResolutionError),
    Capture(LambError),
}

impl PipeWireStartupError {
    /// The failed attempt that this makes.
    pub open spec fn attempt_error(self) -> AttemptErrorView {
        match self {
            PipeWireStartupError::Resolution(error) => error.attempt_error(),
            PipeWireStartupError::Capture(error) => error@.attempt_error(),
        }
    }
}

/// Tells how far it reaches that a PipeWire capture did not start.
pub fn classify_pipewire_startup_error(error: PipeWireStartupError) -> (classified:
    CaptureAttemptError)
    ensures
        classified@ == error.attempt_error(),
{
    match error {
        PipeWireStartupError::Resolution(error) => classify_pipewire_resolution_error(error),
        PipeWireStartupError::Capture(error) => classify_legacy_attempt_error(error),
    }
}

impl LifecycleView {
    /// The lifecycle after a failed attempt that does not end the daemon.
    pub open spec fn failed(self, error: AttemptErrorView, now: RetryInstant) -> LifecycleView {
        match error.class {
            ErrorClass::Transient => self.transient(error.capture_state, error.message, now),
            _ => self.permanent(error.message),
        }
    }
}

impl<B, S> RuntimeView<B, S> {
    /// The state after a failed attempt that does not end the daemon.
    pub open spec fn failed(self, error: AttemptErrorView, now: RetryInstant) -> RuntimeView<B, S> {
        RuntimeView {
            state: RunState::Faulted,
            last_error: Some(error.message),
            config_load_error: Some(error.message),
            lifecycle: self.lifecycle.failed(error, now),
            ..self
        }
    }
}

/// Writes a failed attempt into the state. One that ends the daemon is handed
/// back, and leaves the state as it was.
pub fn apply_capture_attempt_error_to_state<B, S>(
    runtime: &mut AppRuntimeState<B, S>,
    error: CaptureAttemptError,
    now: RetryInstant,
) -> (applied: Result<(), CaptureAttemptError>)
    ensures
        match applied {
            Ok(()) => error.class != ErrorClass::Fatal && final(runtime)@ == old(runtime)@.failed(
                error@,
                now,
            ),
            Err(rejected) => error.class == ErrorClass::Fatal && rejected == error
                && *final(runtime) == *old(runtime),
        },
{
    if error.class == ErrorClass::Fatal {
        return Err(error);
    }
    runtime.state = RunState::Faulted;
    runtime.last_error = Some(error.message.clone());
    runtime.config_load_error = Some(error.message.clone());
    if error.class == ErrorClass::Transient {
        runtime.lifecycle.mark_transient(error.capture_state, error.message, now);
    } else {
        runtime.lifecycle.mark_permanent(error.message);
    }
    Ok(())
}

} // verus!
