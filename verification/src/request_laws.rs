//! What holds of every request and job: which are carried out, which wait, and which
//! are turned away; and of the scheduler and the health records behind them.

use crate::control::{
    idle_status_response, ControlRequest, ControlResponse, DaemonStatus, ThresholdRequest,
};
use crate::error::LambError;
use crate::health::PipeWireHealth;
use crate::lifecycle::{
    retry_delay, CaptureState, DaemonState, ErrorClass, LifecycleState, RetryInstant, RetryPolicy,
};
use crate::listener::{finish_idle_listener, next_shutdown_step, ShutdownStep};
use crate::model::{ConfigFamily, IdleDaemonContext, RunState};
use crate::recovery::{log_recovery_summary, RecoveryScanSummary};
use crate::requests::{
    busy_response, cancelled_response, config_load_failure_response, finish_app_threshold,
    handle_app_threshold, handle_idle_request, route_client_request, route_job, ClientRoute,
    ExportCommand, JobRoute, OperationJob, RequestRoute, ThresholdRoute,
};
use crate::scheduler::{
    AfterSubmit, CaptureAttemptId, EnqueueError, PendingOperation, RetryScheduler,
    RuntimeCaptureFault, RuntimeFaultSink, ScheduledOperation, SchedulerStep,
};
use crate::text::{decimal, text_of, texts_of};
use crate::threshold::ThresholdReport;
use vstd::prelude::*;

verus! {

/// A status is answered at once and changes nothing; a stop of the daemon is answered
/// at once and takes effect at once; every other request waits its turn, as it came.
pub proof fn requests_wait_their_turn<B, S>(
    ctx: &mut IdleDaemonContext<B, S>,
    request: ControlRequest,
    route: ClientRoute,
    after: &IdleDaemonContext<B, S>,
    status: DaemonStatus,
)
    requires
        call_ensures(route_client_request::<B, S>, (ctx, request), route),
        *after == *final(ctx),
        call_ensures(idle_status_response::<B, S>, (after,), status),
    ensures
        request is Status || request is Stop <==> route is Respond,
        !(request is Status) && !(request is Stop) ==> {
            &&& route == ClientRoute::Enqueue(request)
            &&& final(ctx)@ == old(ctx)@
        },
        request is Status ==> {
            &&& route->Respond_0.ok
            &&& route->Respond_0.message@ == "status"@
            &&& route->Respond_0.status is Some
            &&& route->Respond_0.status->0@ == status@
            &&& final(ctx)@ == old(ctx)@
        },
        request is Stop ==> {
            &&& route->Respond_0.ok
            &&& route->Respond_0.message@ == "stopping"@
            &&& route->Respond_0.status is Some
            &&& route->Respond_0.status->0@ == status@
            &&& status.state == RunState::Stopping
            &&& status.lifecycle.daemon_state == DaemonState::Stopping
            &&& final(ctx).stop
            &&& final(ctx).scheduler.stopped
            &&& final(ctx).scheduler.pending is None
            &&& final(ctx).runtime.capture == old(ctx).runtime.capture
            &&& final(ctx).runtime.session == old(ctx).runtime.session
        },
{
}

/// Once the daemon goes down no job is carried out, and a client that waits is told;
/// until then each job goes to where its kind is carried out, as it came.
pub proof fn jobs_are_carried_out_while_the_daemon_goes_on<B, S>(
    ctx: &IdleDaemonContext<B, S>,
    job: OperationJob,
    route: JobRoute,
)
    requires
        call_ensures(route_job::<B, S>, (ctx, job), route),
    ensures
        ctx.stop <==> route is Cancel,
        ctx.stop && job is Client ==> {
            &&& route->Cancel_0 is Some
            &&& !route->Cancel_0->0.ok
            &&& route->Cancel_0->0.message@ == "shutting down"@
        },
        ctx.stop && job is Internal ==> route->Cancel_0 is None,
        !ctx.stop ==> match job {
            OperationJob::Client(ControlRequest::Recall) => route == JobRoute::Persist(
                ExportCommand::Recall,
            ),
            OperationJob::Client(ControlRequest::Dump) => route == JobRoute::Persist(
                ExportCommand::Dump,
            ),
            OperationJob::Client(request) => route == JobRoute::Handle(request),
            OperationJob::Internal(ScheduledOperation::Retry { generation }) => route is Retry
                && route->Retry_generation == generation,
            OperationJob::Internal(
                ScheduledOperation::RuntimeFault { generation, attempt_id, fault },
            ) => {
                &&& route is Fault
                &&& route->Fault_generation == generation
                &&& route->attempt_id == attempt_id
                &&& route->fault == fault
            },
        },
{
}

/// A request whose turn it is leads to what it asks for, with what it carries; only a
/// stop, of capture or of the daemon, changes anything at this point. Thresholds are
/// refused with the older format, and audio is handed out elsewhere.
pub proof fn requests_lead_to_what_they_ask_for<B, S>(
    ctx: &mut IdleDaemonContext<B, S>,
    request: ControlRequest,
    route: RequestRoute<B, S>,
)
    requires
        call_ensures(handle_idle_request::<B, S>, (ctx, request), route),
    ensures
        match request {
            ControlRequest::Status => {
                &&& route is Respond
                &&& route->Respond_0.ok
                &&& route->Respond_0.message@ == "status"@
                &&& final(ctx)@ == old(ctx)@
            },
            ControlRequest::Stop => {
                &&& route is Respond
                &&& route->Respond_0.ok
                &&& route->Respond_0.message@ == "stopping"@
                &&& final(ctx).stop
                &&& final(ctx).scheduler.stopped
                &&& final(ctx).runtime.capture == old(ctx).runtime.capture
            },
            ControlRequest::StartCapture { profile, activate } => {
                &&& route is StartCapture
                &&& route->profile == profile
                &&& route->activate == activate
                &&& final(ctx)@ == old(ctx)@
            },
            ControlRequest::StopCapture => {
                &&& route is Done
                &&& route->Done_0.response.ok ==> {
                    &&& final(ctx).runtime.capture is None
                    &&& final(ctx).runtime.session is None
                    &&& final(ctx).runtime.state != RunState::Capturing
                    &&& final(ctx).runtime.lifecycle.capture_state == CaptureState::Stopped
                    &&& route->Done_0.released@[0].backend == old(ctx).runtime.capture
                    &&& route->Done_0.released@[0].session == old(ctx).runtime.session
                    &&& !final(ctx).stop
                }
                &&& !route->Done_0.response.ok ==> final(ctx)@ == old(ctx)@
                &&& !old(ctx).stop && old(ctx).operation_epoch < u64::MAX
                    && old(ctx).runtime.lifecycle.generation < u64::MAX
                    && old(ctx).runtime.lifecycle.daemon_state != DaemonState::Stopping
                    ==> route->Done_0.response.ok
            },
            ControlRequest::Recall | ControlRequest::Dump => {
                &&& route is Respond
                &&& !route->Respond_0.ok
                &&& route->Respond_0.message@
                    == "persistence commands require operation-worker delivery"@
                &&& final(ctx)@ == old(ctx)@
            },
            ControlRequest::Clear => route is Clear && final(ctx)@ == old(ctx)@,
            ControlRequest::Reload => route is Reload && final(ctx)@ == old(ctx)@,
            ControlRequest::Threshold { request } => {
                &&& final(ctx)@ == old(ctx)@
                &&& !old(ctx).runtime_poisoned && old(ctx).runtime.config_family
                    == ConfigFamily::Legacy ==> {
                    &&& route is Respond
                    &&& !route->Respond_0.ok
                    &&& route->Respond_0.message@
                        == "profile threshold commands are unsupported for legacy configuration"@
                }
                &&& old(ctx).runtime_poisoned || old(ctx).runtime.config_family
                    == ConfigFamily::App ==> route is Threshold && route->Threshold_0 == request
            },
        },
{
}

/// A client that finds the line full or closed, or that is still in it when the daemon
/// goes down, is turned away and sees the status.
pub proof fn clients_are_turned_away_with_a_status<B, S>(
    ctx: &IdleDaemonContext<B, S>,
    busy: ControlResponse,
    cancelled: ControlResponse,
    status: DaemonStatus,
)
    requires
        call_ensures(busy_response::<B, S>, (ctx,), busy),
        call_ensures(cancelled_response::<B, S>, (ctx,), cancelled),
        call_ensures(idle_status_response::<B, S>, (ctx,), status),
    ensures
        !busy.ok,
        busy.message@ == "operation queue is busy or shutting down"@,
        busy.status is Some,
        busy.status->0@ == status@,
        !cancelled.ok,
        cancelled.message@ == "shutting down"@,
        cancelled.status is Some,
        cancelled.status->0@ == status@,
{
}

/// While an error of the configuration stands, every request about thresholds is
/// answered with it; otherwise each leads to what it asks for, on the profile and the
/// channel that it names. To set a level and to take a threshold away are told apart by
/// whether there is a level.
pub proof fn threshold_requests_lead_to_what_they_ask_for<B, S>(
    ctx: &mut IdleDaemonContext<B, S>,
    request: ThresholdRequest,
    route: ThresholdRoute,
)
    requires
        call_ensures(handle_app_threshold::<B, S>, (ctx, request), route),
    ensures
        !old(ctx).runtime_poisoned && old(ctx).runtime.config_load_error is Some ==> {
            &&& route is Respond
            &&& !route->Respond_0.ok
            &&& route->Respond_0.message@ == old(ctx).runtime.config_load_error->0@
            &&& final(ctx)@ == old(ctx)@
        },
        old(ctx).runtime_poisoned || old(ctx).runtime.config_load_error is None ==> match request {
            ThresholdRequest::Show { profile } => {
                &&& route is Show
                &&& route->Show_profile == profile
                &&& final(ctx)@ == old(ctx)@
            },
            ThresholdRequest::Reset { profile, channel } => {
                &&& route is Change
                &&& route->Change_profile == profile
                &&& route->Change_channel == channel
                &&& route->level is None
                &&& final(ctx)@ == old(ctx)@
            },
            ThresholdRequest::SetLevel { profile, channel, dbfs_bits } => {
                &&& route is Change ==> {
                    &&& route->Change_profile == profile
                    &&& route->Change_channel == channel
                    &&& route->level == Some(dbfs_bits)
                    &&& final(ctx)@ == old(ctx)@
                }
                &&& route is Change || route is Respond
                &&& route is Respond ==> {
                    &&& !route->Respond_0.ok
                    &&& route->Respond_0.message@ == "validation error: "@
                        + "threshold dBFS must be finite and within [-120.0, 0.0]"@
                }
                &&& dbfs_bits == 0 ==> route is Change
                &&& 0 < dbfs_bits < 0x8000_0000_0000_0000 ==> route is Respond
                &&& 0x8000_0000_0000_0000 <= dbfs_bits <= 0xC05E_0000_0000_0000 <==> (route
                    is Change && dbfs_bits != 0)
            },
            ThresholdRequest::Calibrate { profile, channel, seconds } => {
                &&& 1 <= seconds <= 30 ==> {
                    &&& route is Calibrate
                    &&& route->Calibrate_profile == profile
                    &&& route->Calibrate_channel == channel
                    &&& route->seconds == seconds
                    &&& final(ctx)@ == old(ctx)@
                }
                &&& !(1 <= seconds <= 30) ==> {
                    &&& route is Respond
                    &&& !route->Respond_0.ok
                    &&& route->Respond_0.message@ == "validation error: "@
                        + "calibration seconds must be within 1..=30"@
                }
            },
        },
        route is Respond && !old(ctx).runtime_poisoned && old(ctx).runtime.config_load_error is None
            ==> text_of(final(ctx).runtime.last_error) == Some(route->Respond_0.message@),
        final(ctx).runtime.config == old(ctx).runtime.config,
        final(ctx).runtime.session == old(ctx).runtime.session,
{
}

/// An error of the configuration is told by itself, and only while it stands.
pub proof fn a_standing_error_of_the_configuration_is_told<B, S>(
    ctx: &IdleDaemonContext<B, S>,
    response: Option<ControlResponse>,
)
    requires
        call_ensures(config_load_failure_response::<B, S>, (ctx,), response),
    ensures
        response is Some <==> !ctx.runtime_poisoned && ctx.runtime.config_load_error is Some,
        response is Some ==> {
            &&& !response->0.ok
            &&& response->0.message@ == ctx.runtime.config_load_error->0@
        },
{
}

/// What a request about thresholds came to is answered as such, with the report; an
/// error is noted and told.
pub proof fn a_threshold_request_is_answered<B, S>(
    ctx: &mut IdleDaemonContext<B, S>,
    result: Result<(String, ThresholdReport), LambError>,
    response: ControlResponse,
)
    requires
        call_ensures(finish_app_threshold::<B, S>, (ctx, result), response),
    ensures
        response.ok <==> result is Ok,
        result is Ok ==> {
            &&& response.message@ == result->Ok_0.0@
            &&& response.threshold_report == Some(result->Ok_0.1)
            &&& final(ctx)@ == old(ctx)@
        },
        result is Err ==> {
            &&& response.message@ == result->Err_0@.rendered()
            &&& response.threshold_report is None
            &&& !old(ctx).runtime_poisoned ==> text_of(final(ctx).runtime.last_error) == Some(
                response.message@,
            )
        },
        response.persistence_outcome is None,
{
}

/// A retry that was planned is handed on once it is due and not before, however often
/// it is looked at in between, and as long as nothing takes its place.
pub proof fn a_planned_retry_is_handed_on_when_due(
    planning: &mut RetryScheduler,
    generation: u64,
    due: RetryInstant,
    looking: &mut RetryScheduler,
    now: RetryInstant,
    step: SchedulerStep,
)
    requires
        !old(planning).stopped,
        old(planning).generation <= generation,
        call_ensures(RetryScheduler::schedule_retry, (planning, generation, due), ()),
        *old(looking) == *final(planning),
        call_ensures(RetryScheduler::next_step, (looking, now), step),
    ensures
        now.millis >= due.millis ==> {
            &&& step is Submit
            &&& step->operation == (ScheduledOperation::Retry { generation })
            &&& step->wake_epoch == final(planning).wake_epoch
        },
        now.millis < due.millis ==> {
            &&& step is WaitMillis
            &&& now.millis + step->WaitMillis_0 == due.millis
        },
        *final(looking) == *final(planning),
{
}

/// A fault that was reported is handed on at once, whatever the time is.
pub proof fn a_reported_fault_is_handed_on_at_once(
    sink: &RuntimeFaultSink,
    reporting: &mut RetryScheduler,
    fault: RuntimeCaptureFault,
    looking: &mut RetryScheduler,
    now: RetryInstant,
    step: SchedulerStep,
    pending: Option<ScheduledOperation>,
)
    requires
        *sink is Bound,
        !old(reporting).stopped,
        old(reporting).generation <= sink->generation,
        call_ensures(RuntimeFaultSink::notify, (sink, reporting, fault), ()),
        *old(looking) == *final(reporting),
        call_ensures(RetryScheduler::next_step, (looking, now), step),
        call_ensures(RetryScheduler::pending_operation, (&*final(reporting),), pending),
    ensures
        step is Submit,
        step->operation is RuntimeFault,
        step->operation->RuntimeFault_generation == sink->generation,
        step->operation->attempt_id == sink->attempt_id,
        step->operation->fault == fault,
        pending == Some(step->operation),
{
}

/// Work of an older generation, and any work after the scheduler was stopped, is not
/// taken; a sink apart from the scheduler reports nothing to it.
pub proof fn old_work_is_not_taken(
    planning: &mut RetryScheduler,
    generation: u64,
    due: RetryInstant,
    reporting: &mut RetryScheduler,
    attempt_id: CaptureAttemptId,
    fault: RuntimeCaptureFault,
    apart: &RuntimeFaultSink,
    other: &mut RetryScheduler,
)
    requires
        old(planning).stopped || generation < old(planning).generation,
        call_ensures(RetryScheduler::schedule_retry, (planning, generation, due), ()),
        old(reporting).stopped || generation < old(reporting).generation,
        call_ensures(
            RetryScheduler::notify_fault,
            (reporting, generation, attempt_id, fault),
            (),
        ),
        *apart is Apart,
        call_ensures(RuntimeFaultSink::notify, (apart, other, fault), ()),
    ensures
        *final(planning) == *old(planning),
        *final(reporting) == *old(reporting),
        *final(other) == *old(other),
{
}

/// Moving on to a generation drops what is pending, so that nothing is handed on; an
/// older generation changes nothing, and none is ever moved back to.
pub proof fn a_new_generation_drops_pending_work(
    moving: &mut RetryScheduler,
    generation: u64,
    looking: &mut RetryScheduler,
    now: RetryInstant,
    step: SchedulerStep,
)
    requires
        call_ensures(RetryScheduler::invalidate, (moving, generation), ()),
        *old(looking) == *final(moving),
        call_ensures(RetryScheduler::next_step, (looking, now), step),
    ensures
        generation >= old(moving).generation ==> {
            &&& final(moving).generation == generation
            &&& final(moving).pending is None
            &&& final(moving).wake_epoch != old(moving).wake_epoch
            &&& !old(moving).stopped ==> step is Wait
        },
        generation < old(moving).generation ==> *final(moving) == *old(moving),
        final(moving).generation >= old(moving).generation,
        final(moving).stopped == old(moving).stopped,
        old(moving).stopped ==> step is Exit,
{
}

/// A scheduler that was stopped ends its thread, and holds nothing any more.
pub proof fn a_stopped_scheduler_ends(
    stopping: &mut RetryScheduler,
    stopped: bool,
    looking: &mut RetryScheduler,
    now: RetryInstant,
    step: SchedulerStep,
    pending: Option<ScheduledOperation>,
)
    requires
        call_ensures(RetryScheduler::stop, (stopping,), ()),
        call_ensures(RetryScheduler::is_stopped, (&*final(stopping),), stopped),
        *old(looking) == *final(stopping),
        call_ensures(RetryScheduler::next_step, (looking, now), step),
        call_ensures(RetryScheduler::pending_operation, (&*final(stopping),), pending),
    ensures
        stopped,
        step is Exit,
        pending is None,
        final(stopping).wake_epoch != old(stopping).wake_epoch,
        final(stopping).generation == old(stopping).generation,
{
}

/// Work that the lane took, or that it will never take, is pending no more; work that
/// met a full lane stays. The thread then waits, unless a wake-up came meanwhile.
pub proof fn work_stays_until_it_is_taken(
    scheduler: &mut RetryScheduler,
    wake_epoch: u64,
    answer: Result<(), EnqueueError>,
    next: AfterSubmit,
)
    requires
        call_ensures(RetryScheduler::submitted, (scheduler, wake_epoch, answer), next),
    ensures
        ({
            let full = answer is Err && answer->Err_0 == EnqueueError::Full;
            &&& full ==> final(scheduler).pending == old(scheduler).pending
            &&& !full ==> final(scheduler).pending is None && next == AfterSubmit::Continue
            &&& next == AfterSubmit::Wait <==> full && old(scheduler).wake_epoch == wake_epoch
        }),
        final(scheduler).generation == old(scheduler).generation,
        final(scheduler).stopped == old(scheduler).stopped,
        final(scheduler).wake_epoch == old(scheduler).wake_epoch,
{
}

/// Everything that a waiting thread has to hear of wakes it: the counter of wake-ups
/// moves with each new piece of work, with each generation, with a lane that is free
/// again, and with the end.
pub proof fn waiting_threads_are_woken(
    planning: &mut RetryScheduler,
    generation: u64,
    due: RetryInstant,
    freeing: &mut RetryScheduler,
)
    requires
        !old(planning).stopped,
        old(planning).generation <= generation,
        call_ensures(RetryScheduler::schedule_retry, (planning, generation, due), ()),
        call_ensures(RetryScheduler::notify_lane_available, (freeing,), ()),
    ensures
        final(planning).wake_epoch != old(planning).wake_epoch,
        final(planning).pending == Some(PendingOperation::Retry { generation, due }),
        final(freeing).wake_epoch != old(freeing).wake_epoch,
        final(freeing).pending == old(freeing).pending,
        final(freeing).generation == old(freeing).generation,
        final(freeing).stopped == old(freeing).stopped,
{
}

/// There is one scheduler thread: of two claims the second fails, unless the first was
/// given back.
pub proof fn there_is_one_scheduler_thread(
    first: &mut RetryScheduler,
    claimed: bool,
    second: &mut RetryScheduler,
    again: bool,
    released: &mut RetryScheduler,
    third: &mut RetryScheduler,
    anew: bool,
)
    requires
        call_ensures(RetryScheduler::claim_thread, (first,), claimed),
        *old(second) == *final(first),
        call_ensures(RetryScheduler::claim_thread, (second,), again),
        *old(released) == *final(second),
        call_ensures(RetryScheduler::release_thread, (released,), ()),
        *old(third) == *final(released),
        call_ensures(RetryScheduler::claim_thread, (third,), anew),
    ensures
        claimed == !old(first).thread_spawned,
        !again,
        anew,
        final(third).pending == old(first).pending,
        final(third).generation == old(first).generation,
{
}

/// Two sinks are the same exactly where they report to the same place under the same
/// names; a sink of the scheduler answers with the attempt that it carries.
pub proof fn sinks_are_told_apart(
    one: &RuntimeFaultSink,
    other: &RuntimeFaultSink,
    same: bool,
    id: CaptureAttemptId,
)
    requires
        call_ensures(RuntimeFaultSink::same_binding, (one, other), same),
        call_ensures(RuntimeFaultSink::attempt_id, (one,), id),
    ensures
        same <==> match (*one, *other) {
            (
                RuntimeFaultSink::Apart { identity: first },
                RuntimeFaultSink::Apart { identity: second },
            ) => first == second,
            (
                RuntimeFaultSink::Bound { generation: first, attempt_id: attempt },
                RuntimeFaultSink::Bound { generation: second, attempt_id: against },
            ) => first == second && attempt.raw == against.raw,
            _ => false,
        },
        *one is Bound ==> id == one->attempt_id,
        *one is Apart ==> id.raw == 0,
{
}

/// The first fault of a capture is kept and every later one is not; it is reported at
/// once where the record is armed, and otherwise when it is armed, exactly once.
pub proof fn a_fault_is_kept_and_reported_once(
    health: &mut PipeWireHealth,
    scheduler: &mut RetryScheduler,
    fault: RuntimeCaptureFault,
    first: bool,
    armed: &mut PipeWireHealth,
    armed_scheduler: &mut RetryScheduler,
    again: &mut PipeWireHealth,
    again_scheduler: &mut RetryScheduler,
)
    requires
        call_ensures(PipeWireHealth::record_fatal, (health, scheduler, fault), first),
        *old(armed) == *final(health),
        *old(armed_scheduler) == *final(scheduler),
        call_ensures(PipeWireHealth::arm, (armed, armed_scheduler), ()),
        *old(again) == *final(armed),
        *old(again_scheduler) == *final(armed_scheduler),
        call_ensures(PipeWireHealth::arm, (again, again_scheduler), ()),
    ensures
        first <==> old(health).fault is None,
        first ==> final(health).fault == Some(fault),
        !first ==> *final(health) == *old(health) && *final(scheduler) == *old(scheduler),
        final(health).sink == old(health).sink,
        final(health).armed == old(health).armed,
        first && !old(health).armed ==> *final(scheduler) == *old(scheduler),
        final(armed).armed,
        final(armed).fault == final(health).fault,
        *final(again_scheduler) == *final(armed_scheduler),
        first && old(health).armed ==> *final(armed_scheduler) == *final(scheduler),
        first && old(health).sink is Bound && !old(scheduler).stopped
            && old(scheduler).generation <= old(health).sink->generation ==> {
            &&& final(armed_scheduler).pending == Some(
                PendingOperation::Immediate(
                    ScheduledOperation::RuntimeFault {
                        generation: old(health).sink->generation,
                        attempt_id: old(health).sink->attempt_id,
                        fault,
                    },
                ),
            )
        },
{
}

/// A record that reports to another place from now on reports its fault there again; to
/// the place that heard of it already it does not.
pub proof fn a_fault_is_reported_to_each_new_place(
    health: &mut PipeWireHealth,
    scheduler: &mut RetryScheduler,
    sink: RuntimeFaultSink,
)
    requires
        old(health).fault is Some,
        old(health).reported,
        sink is Bound,
        !old(scheduler).stopped,
        old(scheduler).generation <= sink->generation,
        call_ensures(PipeWireHealth::rebind_and_arm, (health, scheduler, sink), ()),
    ensures
        final(health).sink == sink,
        final(health).armed,
        final(health).fault == old(health).fault,
        sink == old(health).sink ==> *final(scheduler) == *old(scheduler),
        sink != old(health).sink ==> final(scheduler).pending == Some(
            PendingOperation::Immediate(
                ScheduledOperation::RuntimeFault {
                    generation: sink->generation,
                    attempt_id: sink->attempt_id,
                    fault: old(health).fault->0,
                },
            ),
        ),
{
}

/// A new record is healthy and reports where it was told to; only one of the two kinds
/// waits to be armed.
pub proof fn a_new_record_is_healthy(
    sink: RuntimeFaultSink,
    unarmed: PipeWireHealth,
    armed: PipeWireHealth,
    id: Option<CaptureAttemptId>,
)
    requires
        call_ensures(PipeWireHealth::unarmed_with_fault_sink, (sink,), unarmed),
        call_ensures(PipeWireHealth::with_fault_sink, (sink,), armed),
        call_ensures(PipeWireHealth::attempt_id, (&armed,), id),
    ensures
        unarmed.fault is None,
        armed.fault is None,
        !unarmed.armed,
        armed.armed,
        !unarmed.reported,
        !armed.reported,
        unarmed.sink == sink,
        armed.sink == sink,
        id is Some <==> sink is Bound,
        sink is Bound ==> id == Some(sink->attempt_id),
{
}

/// The ways in which a lifecycle moves, each by what a client sees of it.
pub proof fn a_lifecycle_moves_as_told(
    starting: &mut LifecycleState,
    running: &mut LifecycleState,
    stopped: &mut LifecycleState,
    stopping: &mut LifecycleState,
    profile: Option<String>,
    target: Option<String>,
)
    requires
        call_ensures(LifecycleState::mark_starting, (starting, profile), ()),
        call_ensures(LifecycleState::mark_running, (running, profile, target), ()),
        call_ensures(LifecycleState::mark_stopped, (stopped, profile), ()),
        call_ensures(LifecycleState::mark_stopping, (stopping,), ()),
    ensures
        final(starting).capture_state == CaptureState::Starting,
        final(starting).daemon_state == DaemonState::Ready,
        final(starting).error_class is None,
        final(starting).last_error is None,
        final(starting).retry_attempt == 0,
        final(starting).next_retry_at is None,
        final(starting).resolved_target is None,
        text_of(final(starting).active_profile) == text_of(profile),
        final(starting).generation == old(starting).generation,
        final(running).capture_state == CaptureState::Running,
        final(running).daemon_state == DaemonState::Ready,
        final(running).error_class is None,
        final(running).last_error is None,
        final(running).retry_policy == RetryPolicy::NoRetry,
        final(running).retry_attempt == 0,
        final(running).next_retry_at is None,
        text_of(final(running).active_profile) == text_of(profile),
        text_of(final(running).resolved_target) == text_of(target),
        final(running).generation == old(running).generation,
        final(stopped).capture_state == CaptureState::Stopped,
        final(stopped).daemon_state == DaemonState::Ready,
        final(stopped).error_class is None,
        final(stopped).last_error is None,
        final(stopped).retry_policy == RetryPolicy::NoRetry,
        final(stopped).retry_attempt == 0,
        final(stopped).next_retry_at is None,
        final(stopped).resolved_target is None,
        text_of(final(stopped).active_profile) == text_of(profile),
        final(stopped).generation == old(stopped).generation,
        final(stopping).daemon_state == DaemonState::Stopping,
        final(stopping).capture_state == old(stopping).capture_state,
        final(stopping).error_class is None,
        final(stopping).last_error is None,
        final(stopping).retry_policy == RetryPolicy::NoRetry,
        final(stopping).next_retry_at is None,
        text_of(final(stopping).active_profile) == text_of(old(stopping).active_profile),
        text_of(final(stopping).resolved_target) == text_of(old(stopping).resolved_target),
        final(stopping).generation == old(stopping).generation,
{
}

/// What errors make of a lifecycle: one that waits for an operator plans nothing, and
/// one that may pass counts once more and plans its retry by the delay of that count.
pub proof fn a_lifecycle_tells_of_its_errors(
    permanent: &mut LifecycleState,
    transient: &mut LifecycleState,
    capture_state: CaptureState,
    error: String,
    now: RetryInstant,
    attempt: u32,
    delay: u64,
)
    requires
        call_ensures(LifecycleState::mark_permanent, (permanent, error), ()),
        call_ensures(LifecycleState::mark_transient, (transient, capture_state, error, now), ()),
        attempt == final(transient).retry_attempt,
        call_ensures(retry_delay, (attempt,), delay),
    ensures
        final(permanent).daemon_state == DaemonState::Degraded,
        final(permanent).capture_state == CaptureState::Faulted,
        final(permanent).error_class == Some(ErrorClass::Permanent),
        text_of(final(permanent).last_error) == Some(error@),
        final(permanent).retry_policy == RetryPolicy::Manual,
        final(permanent).retry_attempt == 0,
        final(permanent).next_retry_at is None,
        final(permanent).generation == old(permanent).generation,
        text_of(final(permanent).active_profile) == text_of(old(permanent).active_profile),
        final(transient).daemon_state == DaemonState::Degraded,
        final(transient).capture_state == capture_state,
        final(transient).error_class == Some(ErrorClass::Transient),
        text_of(final(transient).last_error) == Some(error@),
        final(transient).retry_policy == RetryPolicy::BoundedBackoff,
        old(transient).retry_attempt < u32::MAX ==> attempt == old(transient).retry_attempt + 1,
        old(transient).retry_attempt == u32::MAX ==> attempt == u32::MAX,
        final(transient).next_retry_at is Some,
        now.millis + delay * 1_000 <= u64::MAX ==> final(transient).next_retry_at->0.millis
            == now.millis + delay * 1_000,
        now.millis + delay * 1_000 > u64::MAX ==> final(transient).next_retry_at->0.millis
            == u64::MAX,
        final(transient).generation == old(transient).generation,
        text_of(final(transient).active_profile) == text_of(old(transient).active_profile),
{
}

/// The delay before a retry grows with the attempt, from a second to a minute.
pub proof fn a_later_attempt_waits_no_less(
    earlier: u32,
    later: u32,
    short: u64,
    long: u64,
)
    requires
        earlier <= later,
        call_ensures(retry_delay, (earlier,), short),
        call_ensures(retry_delay, (later,), long),
    ensures
        1 <= short <= long <= 60,
        earlier <= 1 ==> short == 1,
        1 <= earlier < later <= 6 ==> short < long,
        later >= 6 <==> long == 60,
{
}

/// An operation gets the generation above all before it, unless the daemon goes down or
/// none is left.
pub proof fn operations_count_up(
    lifecycle: &mut LifecycleState,
    begun: Result<u64, LambError>,
)
    requires
        call_ensures(LifecycleState::begin_operation, (lifecycle,), begun),
    ensures
        begun is Ok <==> old(lifecycle).daemon_state != DaemonState::Stopping
            && old(lifecycle).generation < u64::MAX,
        begun is Ok ==> begun->Ok_0 == old(lifecycle).generation + 1
            && final(lifecycle).generation == begun->Ok_0,
        final(lifecycle).capture_state == old(lifecycle).capture_state,
        final(lifecycle).error_class == old(lifecycle).error_class,
        begun is Err ==> final(lifecycle)@ == old(lifecycle)@,
        begun is Err && old(lifecycle).daemon_state == DaemonState::Stopping ==> {
            &&& begun->Err_0 is Control
            &&& begun->Err_0->Control_0@ == "daemon is stopping"@
        },
        begun is Err && old(lifecycle).daemon_state != DaemonState::Stopping ==> {
            &&& begun->Err_0 is ControlInvariant
            &&& begun->Err_0->ControlInvariant_0@ == "operation generation overflow"@
        },
{
}

/// A point in time moves on by the delay, where the clock can express that.
pub proof fn instants_add_up(
    instant: RetryInstant,
    delay_millis: u64,
    later: Option<RetryInstant>,
    made: RetryInstant,
    value: u64,
    read: u64,
)
    requires
        call_ensures(RetryInstant::checked_add, (instant, delay_millis), later),
        call_ensures(RetryInstant::from_millis, (value,), made),
        call_ensures(RetryInstant::as_millis, (made,), read),
    ensures
        later is Some <==> instant.millis + delay_millis <= u64::MAX,
        later is Some ==> later->0.millis == instant.millis + delay_millis,
        read == value,
{
}

/// From the first step on the listener is taken down in one order, in which nothing
/// that hands work on outlives what carries it out, nothing that could start a capture
/// outlives the capture, and the socket goes last.
pub proof fn the_listener_goes_down_in_order(
    panicked: bool,
    first: Option<ShutdownStep>,
    second: Option<ShutdownStep>,
    third: Option<ShutdownStep>,
    fourth: Option<ShutdownStep>,
    fifth: Option<ShutdownStep>,
    sixth: Option<ShutdownStep>,
    last: Option<ShutdownStep>,
)
    requires
        call_ensures(next_shutdown_step, (None, panicked), first),
        call_ensures(next_shutdown_step, (first, panicked), second),
        call_ensures(next_shutdown_step, (second, panicked), third),
        call_ensures(next_shutdown_step, (third, panicked), fourth),
        call_ensures(next_shutdown_step, (fourth, panicked), fifth),
        call_ensures(next_shutdown_step, (fifth, panicked), sixth),
        call_ensures(next_shutdown_step, (sixth, panicked), last),
    ensures
        first == Some(ShutdownStep::JoinScheduler),
        second == Some(ShutdownStep::CloseLane),
        third == Some(ShutdownStep::JoinWorker),
        panicked ==> {
            &&& fourth == Some(ShutdownStep::CancelLeftovers)
            &&& fifth == Some(ShutdownStep::ReleaseCapture)
            &&& sixth == Some(ShutdownStep::CleanSocket)
            &&& last is None
        },
        !panicked ==> {
            &&& fourth == Some(ShutdownStep::ReleaseCapture)
            &&& fifth == Some(ShutdownStep::CleanSocket)
            &&& sixth is None
        },
{
}

/// The daemon ends well exactly where nothing went wrong; else it ends with the fatal
/// error that ended it, before anything that went wrong on the way down.
pub proof fn the_daemon_ends_with_what_ended_it(
    fatal: &Option<String>,
    scheduler_panicked: bool,
    worker_panicked: bool,
    cleanup: Result<(), LambError>,
    result: Result<(), LambError>,
)
    requires
        call_ensures(
            finish_idle_listener,
            (fatal, scheduler_panicked, worker_panicked, cleanup),
            result,
        ),
    ensures
        result is Ok <==> *fatal is None && !scheduler_panicked && !worker_panicked && cleanup
            is Ok,
        *fatal is Some ==> result->Err_0 is Control && result->Err_0->Control_0@ == fatal->0@,
        *fatal is None && scheduler_panicked ==> result->Err_0 is Control
            && result->Err_0->Control_0@ == "retry scheduler panicked"@,
        *fatal is None && !scheduler_panicked && worker_panicked ==> result->Err_0 is Control
            && result->Err_0->Control_0@ == "operation worker panicked"@,
        *fatal is None && !scheduler_panicked && !worker_panicked && cleanup is Err
            ==> result->Err_0@ == cleanup->Err_0@,
{
}

/// Only what goes wrong before the control socket is up tells a supervisor that a
/// restart is of no use.
pub proof fn exit_codes_tell_whether_to_restart(error: &LambError, code: i32)
    requires
        call_ensures(LambError::process_exit_code, (error,), code),
    ensures
        *error is NonRestartableBootstrap ==> code == 78,
        !(*error is NonRestartableBootstrap) ==> code == 1,
{
}

/// An error that is marked as one that a restart cannot mend reads as before, and is
/// told by its exit code.
pub proof fn a_marked_error_reads_as_before(
    error: LambError,
    text: String,
    marked: LambError,
    marked_text: String,
    code: i32,
)
    requires
        call_ensures(LambError::to_text, (&error,), text),
        call_ensures(LambError::non_restartable_bootstrap, (error,), marked),
        call_ensures(LambError::to_text, (&marked,), marked_text),
        call_ensures(LambError::process_exit_code, (&marked,), code),
    ensures
        marked is NonRestartableBootstrap,
        marked_text@ == text@,
        code == 78,
{
}

/// An error reads as its explanation, behind the name of the part that failed where it
/// has one of its own to tell.
pub proof fn errors_read_by_their_part(error: &LambError, text: String)
    requires
        call_ensures(LambError::to_text, (error,), text),
    ensures
        match *error {
            LambError::Config(reason) => text@ == "configuration error: "@ + reason@,
            LambError::Validation(reason) => text@ == "validation error: "@ + reason@,
            LambError::Capture(reason) => text@ == "capture error: "@ + reason@,
            LambError::CaptureInvariant(reason) => text@ == "capture error: "@ + reason@,
            LambError::Control(reason) => text@ == "control error: "@ + reason@,
            LambError::ControlInvariant(reason) => text@ == "control error: "@ + reason@,
            LambError::ExportInvariant(reason) => text@ == reason@,
            LambError::DaemonFatal(reason) => text@ == reason@,
            LambError::Io(reason) => text@ == reason@,
            LambError::IndeterminatePublication(reason) => text@ == reason@,
            LambError::NonRestartableBootstrap(reason) => text@ == reason@,
        },
{
}

/// The operator is told of unfinished writes only where there were any: how many, what
/// became of them, and then of each that is left, in order, where it lies and why.
pub proof fn unfinished_writes_are_told(summary: &RecoveryScanSummary, lines: Vec<String>)
    requires
        call_ensures(log_recovery_summary, (summary,), lines),
    ensures
        summary.discovered == 0 ==> lines@.len() == 0,
        summary.discovered > 0 ==> {
            &&& lines@.len() == summary.issues@.len() + 1
            &&& lines@[0]@ == "lamb: startup recovery: "@ + decimal(summary.discovered as nat)
                + " discovered, "@ + decimal(summary.completed as nat) + " completed, "@ + decimal(
                summary.rolled_back as nat,
            ) + " rolled back, "@ + decimal(summary.pending as nat) + " pending, "@ + decimal(
                summary.failed as nat,
            ) + " failed"@
            &&& forall|i: int|
                0 <= i < summary.issues@.len() ==> (#[trigger] lines@[i + 1])@
                    == "lamb: warning: recovery of "@ + summary.issues@[i].path@ + ": "@
                    + summary.issues@[i].error@
        },
{
    let shown = texts_of(lines@);
    let report = summary.report();
    assert(shown.len() == lines@.len());
    if summary.discovered > 0 {
        assert(shown[0] == lines@[0]@);
        assert forall|i: int| 0 <= i < summary.issues@.len() implies (#[trigger] lines@[i + 1])@
            == "lamb: warning: recovery of "@ + summary.issues@[i].path@ + ": "@
            + summary.issues@[i].error@ by {
            assert(shown[i + 1] == lines@[i + 1]@);
            assert(report[i + 1] == summary.issues@[i].warning());
        }
    }
}

} // verus!
