//! Requests of clients and jobs of the operation worker: which are answered at
//! once, which wait their turn, and which are turned away.

use crate::commands::stop_capture_transaction;
use crate::control::{
    idle_status_response, ControlRequest, ControlResponse, ResponseView, ThresholdRequest,
};
use crate::error::{ErrorView, LambError};
use crate::install::Completion;
use crate::model::{ConfigFamily, ContextView, IdleDaemonContext, RuntimeView};
use crate::operations::{begin_shutdown, OperationEntry};
use crate::persistence::{persistence_delivery_only_response, report_error};
use crate::scheduler::{CaptureAttemptId, RuntimeCaptureFault, ScheduledOperation};
use crate::threshold::{check_level, level_in_range, ThresholdReport};
use vstd::prelude::*;

verus! {

/// What becomes of a request when it comes in.
#[derive(Debug, Clone, PartialEq, Eq)]
pub enum ClientRoute {
    Respond(ControlResponse),
    /// Put the request in line for the operation worker.
    Enqueue(ControlRequest),
}

impl<B, S> ContextView<B, S> {
    /// The context once the daemon was told to end by a client.
    pub open spec fn going_down(self) -> ContextView<B, S> {
        if self.entry_refusal() is None {
            self.entered(OperationEntry::DirectStop)
        } else {
            ContextView {
                stop: true,
                scheduler: self.scheduler.ended(),
                runtime: RuntimeView {
                    lifecycle: self.runtime.lifecycle.stopping(),
                    ..self.runtime
                },
                runtime_poisoned: false,
                ..self
            }
        }
    }
}

fn respond<B, S>(ctx: &IdleDaemonContext<B, S>, ok: bool, message: &str) -> (response:
    ControlResponse)
    ensures
        response@ == ResponseView::plain(ok, message@, ctx@.status()),
{
    let status = idle_status_response(ctx);
    ControlResponse::plain(ok, message.to_string(), status)
}

/// Takes a request as it comes in. The status and the end of the daemon are
/// answered at once, past all that waits; everything else waits its turn.
pub fn route_client_request<B, S>(
    ctx: &mut IdleDaemonContext<B, S>,
    request: ControlRequest,
) -> (route: ClientRoute)
    ensures
        match request {
            ControlRequest::Status => {
                &&& final(ctx)@ == old(ctx)@
                &&& route is Respond
                &&& route->Respond_0@ == ResponseView::plain(true, "status"@, old(ctx)@.status())
            },
            ControlRequest::Stop => {
                let after = old(ctx)@.going_down();
                &&& final(ctx)@ == after
                &&& route is Respond
                &&& route->Respond_0@ == ResponseView::plain(true, "stopping"@, after.status())
            },
            _ => final(ctx)@ == old(ctx)@ && route == ClientRoute::Enqueue(request),
        },
{
    match request {
        ControlRequest::Status => ClientRoute::Respond(respond(ctx, true, "status")),
        ControlRequest::Stop => {
            begin_shutdown(ctx);
            ClientRoute::Respond(respond(ctx, true, "stopping"))
        },
        request => ClientRoute::Enqueue(request),
    }
}

/// What a client is told whose request finds the line full or closed.
pub fn busy_response<B, S>(ctx: &IdleDaemonContext<B, S>) -> (response: ControlResponse)
    ensures
        response@ == ResponseView::plain(
            false,
            "operation queue is busy or shutting down"@,
            ctx@.status(),
        ),
{
    respond(ctx, false, "operation queue is busy or shutting down")
}

/// What a client is told whose request was in line when the daemon went down.
pub fn cancelled_response<B, S>(ctx: &IdleDaemonContext<B, S>) -> (response: ControlResponse)
    ensures
        response@ == ResponseView::plain(false, "shutting down"@, ctx@.status()),
{
    respond(ctx, false, "shutting down")
}

/// A command to write audio: the last of it, or all of it.
#[derive(Debug, Clone, Copy, PartialEq, Eq, Structural)]
pub enum ExportCommand {
    Recall,
    Dump,
}

/// A job of the operation worker.
#[derive(Debug, Clone, PartialEq, Eq)]
pub enum OperationJob {
    Client(ControlRequest),
    Internal(ScheduledOperation),
}

/// What the operation worker does with a job.
#[derive(Debug, Clone, PartialEq, Eq)]
pub enum JobRoute {
    /// The daemon is going down: tell the client, if one waits.
    Cancel(Option<ControlResponse>),
    /// Write audio, and hand the result to the client.
    Persist(ExportCommand),
    /// Handle the request, and answer the client.
    Handle(ControlRequest),
    Retry { generation: u64 },
    Fault { generation: u64, attempt_id: CaptureAttemptId, fault: RuntimeCaptureFault },
}

/// Takes a job from the line. Once the daemon is going down no job is carried
/// out.
pub fn route_job<B, S>(ctx: &IdleDaemonContext<B, S>, job: OperationJob) -> (route: JobRoute)
    ensures
        if ctx.stop {
            match job {
                OperationJob::Client(_) => {
                    &&& route is Cancel
                    &&& route->Cancel_0 is Some
                    &&& route->Cancel_0->0@ == ResponseView::plain(
                        false,
                        "shutting down"@,
                        ctx@.status(),
                    )
                },
                OperationJob::Internal(_) => route == JobRoute::Cancel(None),
            }
        } else {
            match job {
                OperationJob::Client(ControlRequest::Recall) => route == JobRoute::Persist(
                    ExportCommand::Recall,
                ),
                OperationJob::Client(ControlRequest::Dump) => route == JobRoute::Persist(
                    ExportCommand::Dump,
                ),
                OperationJob::Client(request) => route == JobRoute::Handle(request),
                OperationJob::Internal(ScheduledOperation::Retry { generation }) => route == (
                JobRoute::Retry { generation }),
                OperationJob::Internal(
                    ScheduledOperation::RuntimeFault { generation, attempt_id, fault },
                ) => route == (JobRoute::Fault { generation, attempt_id, fault }),
            }
        },
{
    if ctx.stop {
        return match job {
            OperationJob::Client(_) => JobRoute::Cancel(Some(cancelled_response(ctx))),
            OperationJob::Internal(_) => JobRoute::Cancel(None),
        };
    }
    match job {
        OperationJob::Client(ControlRequest::Recall) => JobRoute::Persist(ExportCommand::Recall),
        OperationJob::Client(ControlRequest::Dump) => JobRoute::Persist(ExportCommand::Dump),
        OperationJob::Client(request) => JobRoute::Handle(request),
        OperationJob::Internal(ScheduledOperation::Retry { generation }) => {
            JobRoute::Retry { generation }
        },
        OperationJob::Internal(
            ScheduledOperation::RuntimeFault { generation, attempt_id, fault },
        ) => JobRoute::Fault { generation, attempt_id, fault },
    }
}

/// What handling a request comes to.
#[derive(Debug)]
pub enum RequestRoute<B, S> {
    Respond(ControlResponse),
    /// The request is carried out: drop what was let go of.
    Done(Completion<B, S>),
    StartCapture { profile: Option<String>, activate: bool },
    Reload,
    Clear,
    Threshold(ThresholdRequest),
}

/// The message about thresholds of the older format, which has none.
pub open spec fn thresholds_unsupported() -> Seq<char> {
    "profile threshold commands are unsupported for legacy configuration"@
}

/// Handles a request whose turn it is, as far as that goes without work outside.
pub fn handle_idle_request<B, S>(
    ctx: &mut IdleDaemonContext<B, S>,
    request: ControlRequest,
) -> (route: RequestRoute<B, S>)
    ensures
        ({
            let before = old(ctx)@;
            let legacy = !before.runtime_poisoned && before.runtime.config_family
                == ConfigFamily::Legacy;
            match request {
                ControlRequest::Threshold { request } => {
                    &&& final(ctx)@ == before
                    &&& if legacy {
                        &&& route is Respond
                        &&& route->Respond_0@ == ResponseView::plain(
                            false,
                            thresholds_unsupported(),
                            before.status(),
                        )
                    } else {
                        route == RequestRoute::<B, S>::Threshold(request)
                    }
                },
                ControlRequest::Status => {
                    &&& final(ctx)@ == before
                    &&& route is Respond
                    &&& route->Respond_0@ == ResponseView::plain(true, "status"@, before.status())
                },
                ControlRequest::Stop => {
                    &&& final(ctx)@ == before.going_down()
                    &&& route is Respond
                    &&& route->Respond_0@ == ResponseView::plain(
                        true,
                        "stopping"@,
                        before.going_down().status(),
                    )
                },
                ControlRequest::StartCapture { profile, activate } => {
                    &&& final(ctx)@ == before
                    &&& route == (RequestRoute::<B, S>::StartCapture { profile, activate })
                },
                ControlRequest::StopCapture => match before.entry_refusal() {
                    Some(error) => {
                        &&& final(ctx)@ == before
                        &&& route is Done
                        &&& route->Done_0.is(
                            before.unchanged_failure(error),
                            seq![before.nothing()],
                        )
                    },
                    None => {
                        let after = before.entered(OperationEntry::Command).capture_stopped();
                        &&& final(ctx)@ == after
                        &&& route is Done
                        &&& route->Done_0.is(
                            ResponseView::plain(true, "capture stopped"@, after.status()),
                            seq![before.runtime.held()],
                        )
                    },
                },
                ControlRequest::Recall | ControlRequest::Dump => {
                    &&& final(ctx)@ == before
                    &&& route is Respond
                    &&& route->Respond_0@ == ResponseView::plain(
                        false,
                        "persistence commands require operation-worker delivery"@,
                        before.status(),
                    )
                },
                ControlRequest::Clear => final(ctx)@ == before && route is Clear,
                ControlRequest::Reload => final(ctx)@ == before && route is Reload,
            }
        }),
{
    match request {
        ControlRequest::Threshold { request } => {
            if !ctx.runtime_poisoned && ctx.runtime.config_family == ConfigFamily::Legacy {
                RequestRoute::Respond(
                    respond(
                        ctx,
                        false,
                        "profile threshold commands are unsupported for legacy configuration",
                    ),
                )
            } else {
                RequestRoute::Threshold(request)
            }
        },
        ControlRequest::Status => RequestRoute::Respond(respond(ctx, true, "status")),
        ControlRequest::Stop => {
            begin_shutdown(ctx);
            RequestRoute::Respond(respond(ctx, true, "stopping"))
        },
        ControlRequest::StartCapture { profile, activate } => {
            RequestRoute::StartCapture { profile, activate }
        },
        ControlRequest::StopCapture => RequestRoute::Done(stop_capture_transaction(ctx)),
        ControlRequest::Recall | ControlRequest::Dump => RequestRoute::Respond(
            persistence_delivery_only_response(idle_status_response(ctx)),
        ),
        ControlRequest::Clear => RequestRoute::Clear,
        ControlRequest::Reload => RequestRoute::Reload,
    }
}

/// What a request about thresholds comes to first.
#[derive(Debug, Clone, PartialEq, Eq)]
pub enum ThresholdRoute {
    Respond(ControlResponse),
    Show { profile: String },
    /// Set a level by hand, or take the threshold away.
    Change { profile: String, channel: String, level: Option<u64> },
    Calibrate { profile: String, channel: String, seconds: u32 },
}

impl ThresholdRequest {
    /// Why a request cannot be carried out whatever the configuration is, if so.
    pub open spec fn refusal(self) -> Option<ErrorView> {
        match self {
            ThresholdRequest::SetLevel { dbfs_bits, .. } => if level_in_range(dbfs_bits) {
                None
            } else {
                Some(
                    ErrorView::Validation(
                        "threshold dBFS must be finite and within [-120.0, 0.0]"@,
                    ),
                )
            },
            ThresholdRequest::Calibrate { seconds, .. } => {
                if crate::calibration::seconds_in_range(seconds) {
                    None
                } else {
                    Some(crate::calibration::seconds_out_of_range())
                }
            },
            _ => None,
        }
    }

    /// What a request comes to that can be carried out.
    pub open spec fn carried_out(self) -> ThresholdRoute {
        match self {
            ThresholdRequest::Show { profile } => ThresholdRoute::Show { profile },
            ThresholdRequest::SetLevel { profile, channel, dbfs_bits } => {
                ThresholdRoute::Change { profile, channel, level: Some(dbfs_bits) }
            },
            ThresholdRequest::Reset { profile, channel } => {
                ThresholdRoute::Change { profile, channel, level: None }
            },
            ThresholdRequest::Calibrate { profile, channel, seconds } => {
                ThresholdRoute::Calibrate { profile, channel, seconds }
            },
        }
    }
}

impl<B, S> ContextView<B, S> {
    /// The error about the configuration that stands in the way of every request
    /// on it, if any.
    pub open spec fn standing_config_error(self) -> Option<Seq<char>> {
        if self.runtime_poisoned {
            None
        } else {
            self.runtime.config_load_error
        }
    }
}

/// What a client is told while the configuration cannot be used.
pub fn config_load_failure_response<B, S>(ctx: &IdleDaemonContext<B, S>) -> (response: Option<
    ControlResponse,
>)
    ensures
        match ctx@.standing_config_error() {
            Some(error) => {
                &&& response is Some
                &&& response->0@ == ResponseView::plain(false, error, ctx@.status())
            },
            None => response is None,
        },
{
    if ctx.runtime_poisoned {
        return None;
    }
    match &ctx.runtime.config_load_error {
        Some(error) => Some(respond(ctx, false, error.as_str())),
        None => None,
    }
}

/// Takes a request about thresholds, as far as that goes without work outside.
pub fn handle_app_threshold<B, S>(
    ctx: &mut IdleDaemonContext<B, S>,
    request: ThresholdRequest,
) -> (route: ThresholdRoute)
    ensures
        match old(ctx)@.standing_config_error() {
            Some(error) => {
                &&& final(ctx)@ == old(ctx)@
                &&& route is Respond
                &&& route->Respond_0@ == ResponseView::plain(false, error, old(ctx)@.status())
            },
            None => match request.refusal() {
                Some(refusal) => {
                    let after = old(ctx)@.with_last_error(refusal.rendered());
                    &&& final(ctx)@ == after
                    &&& route is Respond
                    &&& route->Respond_0@ == ResponseView::plain(
                        false,
                        refusal.rendered(),
                        after.status(),
                    )
                },
                None => final(ctx)@ == old(ctx)@ && route == request.carried_out(),
            },
        },
{
    if let Some(response) = config_load_failure_response(ctx) {
        return ThresholdRoute::Respond(response);
    }
    match request {
        ThresholdRequest::Show { profile } => ThresholdRoute::Show { profile },
        ThresholdRequest::SetLevel { profile, channel, dbfs_bits } => {
            match check_level(dbfs_bits) {
                Ok(()) => ThresholdRoute::Change { profile, channel, level: Some(dbfs_bits) },
                Err(error) => ThresholdRoute::Respond(report_error(ctx, error)),
            }
        },
        ThresholdRequest::Reset { profile, channel } => {
            ThresholdRoute::Change { profile, channel, level: None }
        },
        ThresholdRequest::Calibrate { profile, channel, seconds } => {
            if seconds < 1 || seconds > 30 {
                let error = LambError::Validation(
                    "calibration seconds must be within 1..=30".to_string(),
                );
                ThresholdRoute::Respond(report_error(ctx, error))
            } else {
                ThresholdRoute::Calibrate { profile, channel, seconds }
            }
        },
    }
}

/// Takes the outcome of a request about thresholds, and tells the client.
pub fn finish_app_threshold<B, S>(
    ctx: &mut IdleDaemonContext<B, S>,
    result: Result<(String, ThresholdReport), LambError>,
) -> (response: ControlResponse)
    ensures
        match result {
            Ok((message, report)) => {
                &&& final(ctx)@ == old(ctx)@
                &&& response@ == (ResponseView {
                    threshold_report: Some(report),
                    ..ResponseView::plain(true, message@, old(ctx)@.status())
                })
            },
            Err(error) => {
                let after = old(ctx)@.with_last_error(error@.rendered());
                &&& final(ctx)@ == after
                &&& response@ == ResponseView::plain(false, error@.rendered(), after.status())
            },
        },
{
    match result {
        Ok((message, report)) => {
            let status = idle_status_response(ctx);
            let mut response = ControlResponse::plain(true, message, status);
            response.threshold_report = Some(report);
            response
        },
        Err(error) => report_error(ctx, error),
    }
}

/// Once a client was answered that the daemon ends, every client after it is
/// turned away, and every status says that the daemon is going down.
pub proof fn after_a_stop_all_are_turned_away<B, S>(ctx: ContextView<B, S>)
    ensures
        ctx.going_down().stop,
        ctx.going_down().scheduler.stopped,
        ctx.going_down().entry_refusal() is Some,
        ctx.going_down().status().state == crate::model::RunState::Stopping,
        ctx.going_down().status().lifecycle.daemon_state
            == crate::lifecycle::DaemonState::Stopping,
        ctx.going_down().runtime.held() == ctx.runtime.held(),
{
}

} // verus!
