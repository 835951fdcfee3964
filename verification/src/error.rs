//! Errors of the daemon and how they read.

use crate::text::join;
use vstd::prelude::*;

verus! {

/// What went wrong, with the text that explains it.
#[derive(Debug, Clone, PartialEq, Eq)]
pub enum LambError {
    Config(String),
    Validation(String),
    Capture(String),
    CaptureInvariant(String),
    Control(String),
    ControlInvariant(String),
    /// A broken rule of the export, already rendered.
    ExportInvariant(String),
    /// A failure that ends the daemon, already rendered.
    DaemonFatal(String),
    /// An input or output failure, already rendered with its path.
    Io(String),
    /// A write of which it is not known whether it took place, already
    /// rendered.
    IndeterminatePublication(String),
    /// A failure before the control socket is up that a restart cannot mend,
    /// with the rendered cause.
    NonRestartableBootstrap(String),
}

/// The model of an error: its kind and its explanation.
pub enum ErrorView {
    Config(Seq<char>),
    Validation(Seq<char>),
    Capture(Seq<char>),
    CaptureInvariant(Seq<char>),
    Control(Seq<char>),
    ControlInvariant(Seq<char>),
    ExportInvariant(Seq<char>),
    DaemonFatal(Seq<char>),
    Io(Seq<char>),
    IndeterminatePublication(Seq<char>),
    NonRestartableBootstrap(Seq<char>),
}

impl View for LambError {
    type V = ErrorView;

    open spec fn view(&self) -> ErrorView {
        match self {
            LambError::Config(text) => ErrorView::Config(text@),
            LambError::Validation(text) => ErrorView::Validation(text@),
            LambError::Capture(text) => ErrorView::Capture(text@),
            LambError::CaptureInvariant(text) => ErrorView::CaptureInvariant(text@),
            LambError::Control(text) => ErrorView::Control(text@),
            LambError::ControlInvariant(text) => ErrorView::ControlInvariant(text@),
            LambError::ExportInvariant(text) => ErrorView::ExportInvariant(text@),
            LambError::DaemonFatal(text) => ErrorView::DaemonFatal(text@),
            LambError::Io(text) => ErrorView::Io(text@),
            LambError::IndeterminatePublication(text) => ErrorView::IndeterminatePublication(
                text@,
            ),
            LambError::NonRestartableBootstrap(text) => ErrorView::NonRestartableBootstrap(text@),
        }
    }
}

impl ErrorView {
    /// The text that a reader sees: the explanation behind the name of the part
    /// of the daemon that failed.
    pub open spec fn rendered(self) -> Seq<char> {
        match self {
            ErrorView::Config(text) => "configuration error: "@ + text,
            ErrorView::Validation(text) => "validation error: "@ + text,
            ErrorView::Capture(text) | ErrorView::CaptureInvariant(text) => "capture error: "@
                + text,
            ErrorView::Control(text) | ErrorView::ControlInvariant(text) => "control error: "@
                + text,
            ErrorView::ExportInvariant(text) | ErrorView::DaemonFatal(text) | ErrorView::Io(text)
            | ErrorView::IndeterminatePublication(text) | ErrorView::NonRestartableBootstrap(
                text,
            ) => text,
        }
    }

    /// The status with which a process that ends on this error exits.
    pub open spec fn exit_code(self) -> int {
        match self {
            ErrorView::NonRestartableBootstrap(_) => 78,
            _ => 1,
        }
    }
}

impl LambError {
    /// Renders the error for a reader.
    pub fn to_text(&self) -> (text: String)
        ensures
            text@ == self@.rendered(),
    {
        match self {
            LambError::Config(text) => join("configuration error: ", text.as_str()),
            LambError::Validation(text) => join("validation error: ", text.as_str()),
            LambError::Capture(text) => join("capture error: ", text.as_str()),
            LambError::CaptureInvariant(text) => join("capture error: ", text.as_str()),
            LambError::Control(text) => join("control error: ", text.as_str()),
            LambError::ControlInvariant(text) => join("control error: ", text.as_str()),
            LambError::ExportInvariant(text) => text.clone(),
            LambError::DaemonFatal(text) => text.clone(),
            LambError::Io(text) => text.clone(),
            LambError::IndeterminatePublication(text) => text.clone(),
            LambError::NonRestartableBootstrap(text) => text.clone(),
        }
    }

    /// A second copy of the error.
    pub fn duplicate(&self) -> (copy: LambError)
        ensures
            copy == *self,
    {
        match self {
            LambError::Config(text) => LambError::Config(text.clone()),
            LambError::Validation(text) => LambError::Validation(text.clone()),
            LambError::Capture(text) => LambError::Capture(text.clone()),
            LambError::CaptureInvariant(text) => LambError::CaptureInvariant(text.clone()),
            LambError::Control(text) => LambError::Control(text.clone()),
            LambError::ControlInvariant(text) => LambError::ControlInvariant(text.clone()),
            LambError::ExportInvariant(text) => LambError::ExportInvariant(text.clone()),
            LambError::DaemonFatal(text) => LambError::DaemonFatal(text.clone()),
            LambError::Io(text) => LambError::Io(text.clone()),
            LambError::IndeterminatePublication(text) => LambError::IndeterminatePublication(
                text.clone(),
            ),
            LambError::NonRestartableBootstrap(text) => LambError::NonRestartableBootstrap(
                text.clone(),
            ),
        }
    }

    /// Marks an error as one that a restart of the daemon cannot mend.
    pub fn non_restartable_bootstrap(error: LambError) -> (marked: LambError)
        ensures
            marked@ == ErrorView::NonRestartableBootstrap(error@.rendered()),
    {
        LambError::NonRestartableBootstrap(error.to_text())
    }

    /// The exit status of a process that ends on this error.
    pub fn process_exit_code(&self) -> (code: i32)
        ensures
            code == self@.exit_code(),
    {
        match self {
            LambError::NonRestartableBootstrap(_) => 78,
            _ => 1,
        }
    }
}

} // verus!
