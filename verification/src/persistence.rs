//! What became of audio that a client asked to have written, and what the client
//! is told.

use crate::control::{idle_status_response, ControlResponse, DaemonStatus, ResponseView};
use crate::error::{ErrorView, LambError};
use crate::model::{CaptureSession, ContextView, IdleDaemonContext, RuntimeView};
use crate::text::{decimal, join, render_decimal};
use vstd::prelude::*;

verus! {

/// Frames that never reached a file: how many in all, and by the reason they were
/// lost.
#[derive(Debug, Clone, Copy, PartialEq, Eq, Structural)]
pub struct FrameLosses {
    pub lost_frames: u64,
    pub retention_lost_frames: u64,
    pub cleared_frames: u64,
    pub capture_dropped_frames: u64,
}

/// What became of the audio.
#[derive(Debug, Clone, PartialEq, Eq)]
pub enum DumpOutcome {
    Written {
        start_frame: u64,
        end_frame: u64,
        frames: u64,
        export_start_frame: u64,
        export_frames: u64,
        losses: FrameLosses,
        output_directory: String,
        files: Vec<String>,
    },
    SkippedSilent { start_frame: u64, end_frame: u64, frames: u64, losses: FrameLosses },
    SkippedByPolicy { start_frame: u64, end_frame: u64, frames: u64, losses: FrameLosses },
    NoNewAudio { losses: FrameLosses },
}

/// What became of the audio, as clients are told. A duration is the number of
/// frames over the sample rate.
#[derive(Debug, Clone, PartialEq, Eq)]
pub enum PersistenceOutcomeResponse {
    Written {
        start_frame: u64,
        end_frame: u64,
        frames: u64,
        export_start_frame: u64,
        export_frames: u64,
        sample_rate: u32,
        losses: FrameLosses,
        output_directory: String,
        files: Vec<String>,
    },
    SkippedSilent {
        start_frame: u64,
        end_frame: u64,
        frames: u64,
        sample_rate: u32,
        losses: FrameLosses,
    },
    SkippedByPolicy {
        start_frame: u64,
        end_frame: u64,
        frames: u64,
        sample_rate: u32,
        losses: FrameLosses,
    },
    NoNewAudio { losses: FrameLosses },
}

/// What became of the audio, in a few words: how much it was, and how much was
/// lost.
#[derive(Debug, Clone, Copy, PartialEq, Eq, Structural)]
pub enum OutcomeSummary {
    Written { frames: u64, lost_frames: u64 },
    SkippedSilent { frames: u64, lost_frames: u64 },
    SkippedByPolicy { frames: u64, lost_frames: u64 },
    NoNewAudio { lost_frames: u64 },
}

/// The words about frames that were lost.
pub open spec fn loss_warning(lost_frames: u64) -> Seq<char> {
    "; warning: "@ + decimal(lost_frames as nat) + " frames lost before persistence"@
}

/// The message about audio of which something became: what, how much, and what
/// was lost if anything was.
pub open spec fn outcome_message(kind: Seq<char>, frames: u64, lost_frames: u64) -> Seq<char> {
    let told = kind + ": "@ + decimal(frames as nat) + " frames"@;
    if lost_frames == 0 {
        told
    } else {
        told + loss_warning(lost_frames)
    }
}

/// The message that a client is told.
pub open spec fn summary_message(summary: OutcomeSummary) -> Seq<char> {
    match summary {
        OutcomeSummary::Written { frames, lost_frames } => outcome_message(
            "written"@,
            frames,
            lost_frames,
        ),
        OutcomeSummary::SkippedSilent { frames, lost_frames } => outcome_message(
            "skipped exact-zero audio"@,
            frames,
            lost_frames,
        ),
        OutcomeSummary::SkippedByPolicy { frames, lost_frames } => outcome_message(
            "skipped by policy"@,
            frames,
            lost_frames,
        ),
        OutcomeSummary::NoNewAudio { lost_frames } => if lost_frames == 0 {
            "no new audio"@
        } else {
            "no new audio"@ + loss_warning(lost_frames)
        },
    }
}

fn append_loss_warning(told: String, lost_frames: u64) -> (message: String)
    ensures
        message@ == told@ + loss_warning(lost_frames),
{
    let number = render_decimal(lost_frames);
    let mut warning = join("; warning: ", number.as_str());
    warning = join(warning.as_str(), " frames lost before persistence");
    join(told.as_str(), warning.as_str())
}

/// Words the message about audio of which something became.
pub fn persistence_message(kind: &str, frames: u64, lost_frames: u64) -> (message: String)
    ensures
        message@ == outcome_message(kind@, frames, lost_frames),
{
    let number = render_decimal(frames);
    let mut told = join(kind, ": ");
    told = join(told.as_str(), number.as_str());
    told = join(told.as_str(), " frames");
    if lost_frames == 0 {
        told
    } else {
        append_loss_warning(told, lost_frames)
    }
}

/// Words the message that a client is told.
pub fn persistence_message_from_committed(summary: OutcomeSummary) -> (message: String)
    ensures
        message@ == summary_message(summary),
{
    match summary {
        OutcomeSummary::Written { frames, lost_frames } => {
            persistence_message("written", frames, lost_frames)
        },
        OutcomeSummary::SkippedSilent { frames, lost_frames } => {
            persistence_message("skipped exact-zero audio", frames, lost_frames)
        },
        OutcomeSummary::SkippedByPolicy { frames, lost_frames } => {
            persistence_message("skipped by policy", frames, lost_frames)
        },
        OutcomeSummary::NoNewAudio { lost_frames } => {
            if lost_frames == 0 {
                "no new audio".to_string()
            } else {
                append_loss_warning("no new audio".to_string(), lost_frames)
            }
        },
    }
}

impl DumpOutcome {
    /// What became of the audio, in a few words.
    pub open spec fn summary(self) -> OutcomeSummary {
        match self {
            DumpOutcome::Written { frames, losses, .. } => OutcomeSummary::Written {
                frames,
                lost_frames: losses.lost_frames,
            },
            DumpOutcome::SkippedSilent { frames, losses, .. } => OutcomeSummary::SkippedSilent {
                frames,
                lost_frames: losses.lost_frames,
            },
            DumpOutcome::SkippedByPolicy { frames, losses, .. } => {
                OutcomeSummary::SkippedByPolicy { frames, lost_frames: losses.lost_frames }
            },
            DumpOutcome::NoNewAudio { losses } => OutcomeSummary::NoNewAudio {
                lost_frames: losses.lost_frames,
            },
        }
    }

    /// What became of the audio, as clients are told.
    pub open spec fn told(self, sample_rate: u32) -> PersistenceOutcomeResponse {
        match self {
            DumpOutcome::Written {
                start_frame,
                end_frame,
                frames,
                export_start_frame,
                export_frames,
                losses,
                output_directory,
                files,
            } => PersistenceOutcomeResponse::Written {
                start_frame,
                end_frame,
                frames,
                export_start_frame,
                export_frames,
                sample_rate,
                losses,
                output_directory,
                files,
            },
            DumpOutcome::SkippedSilent { start_frame, end_frame, frames, losses } => {
                PersistenceOutcomeResponse::SkippedSilent {
                    start_frame,
                    end_frame,
                    frames,
                    sample_rate,
                    losses,
                }
            },
            DumpOutcome::SkippedByPolicy { start_frame, end_frame, frames, losses } => {
                PersistenceOutcomeResponse::SkippedByPolicy {
                    start_frame,
                    end_frame,
                    frames,
                    sample_rate,
                    losses,
                }
            },
            DumpOutcome::NoNewAudio { losses } => PersistenceOutcomeResponse::NoNewAudio { losses },
        }
    }
}

/// What a client is told about audio that was asked for and of which something
/// became.
pub fn persistence_response(outcome: DumpOutcome, sample_rate: u32, status: DaemonStatus) -> (response:
    ControlResponse)
    ensures
        response@ == (ResponseView {
            persistence_outcome: Some(outcome.told(sample_rate)),
            ..ResponseView::plain(true, summary_message(outcome.summary()), status@)
        }),
{
    let (summary, told) = match outcome {
        DumpOutcome::Written {
            start_frame,
            end_frame,
            frames,
            export_start_frame,
            export_frames,
            losses,
            output_directory,
            files,
        } => (
            OutcomeSummary::Written { frames, lost_frames: losses.lost_frames },
            PersistenceOutcomeResponse::Written {
                start_frame,
                end_frame,
                frames,
                export_start_frame,
                export_frames,
                sample_rate,
                losses,
                output_directory,
                files,
            },
        ),
        DumpOutcome::SkippedSilent { start_frame, end_frame, frames, losses } => (
            OutcomeSummary::SkippedSilent { frames, lost_frames: losses.lost_frames },
            PersistenceOutcomeResponse::SkippedSilent {
                start_frame,
                end_frame,
                frames,
                sample_rate,
                losses,
            },
        ),
        DumpOutcome::SkippedByPolicy { start_frame, end_frame, frames, losses } => (
            OutcomeSummary::SkippedByPolicy { frames, lost_frames: losses.lost_frames },
            PersistenceOutcomeResponse::SkippedByPolicy {
                start_frame,
                end_frame,
                frames,
                sample_rate,
                losses,
            },
        ),
        DumpOutcome::NoNewAudio { losses } => (
            OutcomeSummary::NoNewAudio { lost_frames: losses.lost_frames },
            PersistenceOutcomeResponse::NoNewAudio { losses },
        ),
    };
    let mut response = ControlResponse::plain(
        true,
        persistence_message_from_committed(summary),
        status,
    );
    response.persistence_outcome = Some(told);
    response
}

/// What a command on the audio of a capture comes to first.
#[derive(Debug)]
pub enum SessionEntry<'a, S> {
    Respond(ControlResponse),
    /// Carry the command out on the session.
    Run { session: &'a S, sample_rate: u32 },
}

impl<B, S> ContextView<B, S> {
    /// What a client is told whose command finds no capture to work on.
    pub open spec fn session_refusal(self) -> Option<ResponseView> {
        if self.runtime_poisoned {
            Some(ResponseView::plain(false, "runtime state lock poisoned"@, self.status()))
        } else if self.runtime.session is None {
            Some(ResponseView::plain(false, "capture is not running"@, self.status()))
        } else {
            None
        }
    }

    /// The context after an error was noted that a client met.
    pub open spec fn with_last_error(self, error: Seq<char>) -> ContextView<B, S> {
        if self.runtime_poisoned {
            self
        } else {
            ContextView {
                runtime: RuntimeView { last_error: Some(error), ..self.runtime },
                ..self
            }
        }
    }
}

/// What a client is told whose command finds a state that someone failed on.
pub fn app_lock_error_response<B, S>(ctx: &IdleDaemonContext<B, S>) -> (response: ControlResponse)
    ensures
        response@ == ResponseView::plain(
            false,
            "runtime state lock poisoned"@,
            ctx@.status(),
        ),
{
    let status = idle_status_response(ctx);
    ControlResponse::plain(false, "runtime state lock poisoned".to_string(), status)
}

/// Enters a command on the audio of the capture: writing it, or clearing it.
pub fn enter_session_command<'a, B, S>(ctx: &'a IdleDaemonContext<B, S>) -> (entry: SessionEntry<
    'a,
    S,
>)
    ensures
        match ctx@.session_refusal() {
            Some(refusal) => entry is Respond && entry->Respond_0@ == refusal,
            None => {
                &&& entry is Run
                &&& *entry->session == ctx.runtime.session->0.resource
                &&& entry->sample_rate == ctx.runtime.session->0.sample_rate
            },
        },
{
    if ctx.runtime_poisoned {
        return SessionEntry::Respond(app_lock_error_response(ctx));
    }
    match &ctx.runtime.session {
        Some(session) => SessionEntry::Run {
            session: &session.resource,
            sample_rate: session.sample_rate,
        },
        None => {
            let status = idle_status_response(ctx);
            SessionEntry::Respond(
                ControlResponse::plain(false, "capture is not running".to_string(), status),
            )
        },
    }
}

impl<S> CaptureSession<S> {
    /// Why the audio of a session cannot be written, if so: someone failed on what
    /// the write needs.
    pub open spec fn write_refusal(self) -> Option<ErrorView> {
        if self.policy_poisoned {
            Some(ErrorView::Control("session export policy lock poisoned"@))
        } else if self.workspace_poisoned {
            Some(ErrorView::Control("persistence workspace lock poisoned"@))
        } else {
            None
        }
    }
}

/// Admits a command to write audio. Answers what the client is told where it
/// cannot be carried out.
pub fn admit_persistence<B, S>(ctx: &mut IdleDaemonContext<B, S>) -> (refused: Option<
    ControlResponse,
>)
    ensures
        ({
            let before = old(ctx)@;
            match before.session_refusal() {
                Some(refusal) => {
                    &&& final(ctx)@ == before
                    &&& refused is Some
                    &&& refused->0@ == refusal
                },
                None => match before.runtime.session->0.write_refusal() {
                    Some(error) => {
                        let after = before.with_last_error(error.rendered());
                        &&& final(ctx)@ == after
                        &&& refused is Some
                        &&& refused->0@ == ResponseView::plain(
                            false,
                            error.rendered(),
                            after.status(),
                        )
                    },
                    None => final(ctx)@ == before && refused is None,
                },
            }
        }),
{
    if let SessionEntry::Respond(response) = enter_session_command(ctx) {
        return Some(response);
    }
    let error = match &ctx.runtime.session {
        Some(session) => if session.policy_poisoned {
            LambError::Control("session export policy lock poisoned".to_string())
        } else if session.workspace_poisoned {
            LambError::Control("persistence workspace lock poisoned".to_string())
        } else {
            return None;
        },
        None => {
            return None;
        },
    };
    Some(report_error(ctx, error))
}

/// Notes an error that a client met.
pub fn set_app_last_error<B, S>(ctx: &mut IdleDaemonContext<B, S>, error: String)
    ensures
        final(ctx)@ == old(ctx)@.with_last_error(error@),
{
    if !ctx.runtime_poisoned {
        ctx.runtime.last_error = Some(error);
    }
}

/// Notes an error that a client met, and tells the client.
pub fn report_error<B, S>(ctx: &mut IdleDaemonContext<B, S>, error: LambError) -> (response:
    ControlResponse)
    ensures
        ({
            let after = old(ctx)@.with_last_error(error@.rendered());
            &&& final(ctx)@ == after
            &&& response@ == ResponseView::plain(false, error@.rendered(), after.status())
        }),
{
    let message = error.to_text();
    set_app_last_error(ctx, message.clone());
    let status = idle_status_response(ctx);
    ControlResponse::plain(false, message, status)
}

/// Takes the outcome of writing audio, and tells the client.
pub fn app_persistence_response<B, S>(
    ctx: &mut IdleDaemonContext<B, S>,
    result: Result<DumpOutcome, LambError>,
    sample_rate: u32,
) -> (response: ControlResponse)
    ensures
        match result {
            Ok(outcome) => {
                &&& final(ctx)@ == old(ctx)@
                &&& response@ == (ResponseView {
                    persistence_outcome: Some(outcome.told(sample_rate)),
                    ..ResponseView::plain(
                        true,
                        summary_message(outcome.summary()),
                        old(ctx)@.status(),
                    )
                })
            },
            Err(error) => {
                let after = old(ctx)@.with_last_error(error@.rendered());
                &&& final(ctx)@ == after
                &&& response@ == ResponseView::plain(false, error@.rendered(), after.status())
            },
        },
{
    match result {
        Ok(outcome) => {
            let status = idle_status_response(ctx);
            persistence_response(outcome, sample_rate, status)
        },
        Err(error) => report_error(ctx, error),
    }
}

/// Takes the outcome of a write whose result is handed to the client while it is
/// made durable. Where the client was told already, an error is only noted.
pub fn app_persistence_delivered<B, S>(
    ctx: &mut IdleDaemonContext<B, S>,
    result: Result<(), LambError>,
    told: bool,
) -> (response: Option<ControlResponse>)
    ensures
        match result {
            Ok(()) => final(ctx)@ == old(ctx)@ && response is None,
            Err(error) => {
                let after = old(ctx)@.with_last_error(error@.rendered());
                &&& final(ctx)@ == after
                &&& match response {
                    Some(response) => !told && response@ == ResponseView::plain(
                        false,
                        error@.rendered(),
                        after.status(),
                    ),
                    None => told,
                }
            },
        },
{
    match result {
        Ok(()) => None,
        Err(error) => {
            let response = report_error(ctx, error);
            if told {
                None
            } else {
                Some(response)
            }
        },
    }
}

/// Takes the outcome of clearing the audio of the capture, and tells the client.
pub fn finish_app_clear<B, S>(
    ctx: &mut IdleDaemonContext<B, S>,
    cleared: Result<(), LambError>,
) -> (response: ControlResponse)
    ensures
        match cleared {
            Ok(()) => {
                &&& final(ctx)@ == old(ctx)@
                &&& response@ == ResponseView::plain(true, "cleared"@, old(ctx)@.status())
            },
            Err(error) => {
                let after = old(ctx)@.with_last_error(error@.rendered());
                &&& final(ctx)@ == after
                &&& response@ == ResponseView::plain(false, error@.rendered(), after.status())
            },
        },
{
    match cleared {
        Ok(()) => {
            let status = idle_status_response(ctx);
            ControlResponse::plain(true, "cleared".to_string(), status)
        },
        Err(error) => report_error(ctx, error),
    }
}

/// What a client is told who asks for audio where only the operation worker can
/// hand it out.
pub fn persistence_delivery_only_response(status: DaemonStatus) -> (response: ControlResponse)
    ensures
        response@ == ResponseView::plain(
            false,
            "persistence commands require operation-worker delivery"@,
            status@,
        ),
{
    ControlResponse::plain(
        false,
        "persistence commands require operation-worker delivery".to_string(),
        status,
    )
}

/// A client hears of lost frames exactly where there are any.
pub proof fn a_loss_is_always_told(kind: Seq<char>, frames: u64, lost_frames: u64)
    ensures
        lost_frames == 0 ==> outcome_message(kind, frames, lost_frames) == kind + ": "@ + decimal(
            frames as nat,
        ) + " frames"@,
        lost_frames > 0 ==> outcome_message(kind, frames, lost_frames).len() > outcome_message(
            kind,
            frames,
            0,
        ).len(),
{
    reveal_strlit("; warning: ");
}

} // verus!
