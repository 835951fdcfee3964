//! The end of the listener: in what order its parts are taken down, and what the
//! daemon ends with.

use crate::error::{ErrorView, LambError};
use crate::text::text_of;
use vstd::prelude::*;

verus! {

/// The steps by which the listener is taken down.
#[derive(Debug, Clone, Copy, PartialEq, Eq, Structural)]
pub enum ShutdownStep {
    /// The scheduler is stopped and its thread ends, so that it hands nothing on
    /// any more.
    JoinScheduler,
    /// The line of jobs is closed.
    CloseLane,
    /// The operation worker ends.
    JoinWorker,
    /// What is left in line after the worker broke down is cancelled.
    CancelLeftovers,
    /// The capture is let go of.
    ReleaseCapture,
    /// The control socket is removed.
    CleanSocket,
}

impl ShutdownStep {
    /// The number of steps before this one.
    pub open spec fn rank(self) -> int {
        match self {
            ShutdownStep::JoinScheduler => 0,
            ShutdownStep::CloseLane => 1,
            ShutdownStep::JoinWorker => 2,
            ShutdownStep::CancelLeftovers => 3,
            ShutdownStep::ReleaseCapture => 4,
            ShutdownStep::CleanSocket => 5,
        }
    }
}

/// The step that follows, if any. Leftovers are cancelled only where the worker
/// broke down: otherwise it has worked them off.
pub open spec fn following(last: Option<ShutdownStep>, worker_panicked: bool) -> Option<
    ShutdownStep,
> {
    match last {
        None => Some(ShutdownStep::JoinScheduler),
        Some(ShutdownStep::JoinScheduler) => Some(ShutdownStep::CloseLane),
        Some(ShutdownStep::CloseLane) => Some(ShutdownStep::JoinWorker),
        Some(ShutdownStep::JoinWorker) => if worker_panicked {
            Some(ShutdownStep::CancelLeftovers)
        } else {
            Some(ShutdownStep::ReleaseCapture)
        },
        Some(ShutdownStep::CancelLeftovers) => Some(ShutdownStep::ReleaseCapture),
        Some(ShutdownStep::ReleaseCapture) => Some(ShutdownStep::CleanSocket),
        Some(ShutdownStep::CleanSocket) => None,
    }
}

/// Tells which step follows when the listener is taken down.
pub fn next_shutdown_step(last: Option<ShutdownStep>, worker_panicked: bool) -> (next: Option<
    ShutdownStep,
>)
    ensures
        next == following(last, worker_panicked),
{
    match last {
        None => Some(ShutdownStep::JoinScheduler),
        Some(ShutdownStep::JoinScheduler) => Some(ShutdownStep::CloseLane),
        Some(ShutdownStep::CloseLane) => Some(ShutdownStep::JoinWorker),
        Some(ShutdownStep::JoinWorker) => {
            if worker_panicked {
                Some(ShutdownStep::CancelLeftovers)
            } else {
                Some(ShutdownStep::ReleaseCapture)
            }
        },
        Some(ShutdownStep::CancelLeftovers) => Some(ShutdownStep::ReleaseCapture),
        Some(ShutdownStep::ReleaseCapture) => Some(ShutdownStep::CleanSocket),
        Some(ShutdownStep::CleanSocket) => None,
    }
}

/// What the daemon ends with: the fatal error that ended it, or the first thing
/// that went wrong on the way down.
pub open spec fn ending(
    fatal: Option<Seq<char>>,
    scheduler_panicked: bool,
    worker_panicked: bool,
    cleanup: Result<(), LambError>,
) -> Option<ErrorView> {
    if fatal is Some {
        Some(ErrorView::Control(fatal->0))
    } else if scheduler_panicked {
        Some(ErrorView::Control("retry scheduler panicked"@))
    } else if worker_panicked {
        Some(ErrorView::Control("operation worker panicked"@))
    } else {
        match cleanup {
            Ok(()) => None,
            Err(error) => Some(error@),
        }
    }
}

/// Tells what the daemon ends with.
pub fn finish_idle_listener(
    fatal: &Option<String>,
    scheduler_panicked: bool,
    worker_panicked: bool,
    cleanup: Result<(), LambError>,
) -> (result: Result<(), LambError>)
    ensures
        match result {
            Ok(()) => ending(text_of(*fatal), scheduler_panicked, worker_panicked, cleanup) is None,
            Err(error) => ending(text_of(*fatal), scheduler_panicked, worker_panicked, cleanup)
                == Some(error@),
        },
{
    if let Some(message) = fatal {
        return Err(LambError::Control(message.clone()));
    }
    if scheduler_panicked {
        return Err(LambError::Control("retry scheduler panicked".to_string()));
    }
    if worker_panicked {
        return Err(LambError::Control("operation worker panicked".to_string()));
    }
    cleanup
}

/// The steps come in one order: the capture is let go of only after nobody can
/// start one any more, and the socket is removed last.
pub proof fn the_listener_is_taken_down_in_order(
    last: Option<ShutdownStep>,
    worker_panicked: bool,
)
    ensures
        match (last, following(last, worker_panicked)) {
            (Some(last), Some(next)) => last.rank() < next.rank(),
            (None, Some(next)) => next.rank() == 0,
            (Some(last), None) => last == ShutdownStep::CleanSocket,
            (None, None) => false,
        },
{
}

/// Whatever ends the daemon by a fatal error exits with the status of an error
/// that a restart may mend.
pub proof fn a_fatal_end_may_be_restarted(
    fatal: Seq<char>,
    scheduler_panicked: bool,
    worker_panicked: bool,
    cleanup: Result<(), LambError>,
)
    ensures
        ending(Some(fatal), scheduler_panicked, worker_panicked, cleanup)->0.exit_code() == 1,
        ending(Some(fatal), scheduler_panicked, worker_panicked, cleanup)->0.rendered()
            == "control error: "@ + fatal,
{
}

} // verus!
