//! The commands on capture, from their entry to the point where a configuration
//! is brought into use: start, stop and reload by a client, the retry that the
//! scheduler asks for, the start that the configuration asks for, and the fault
//! that a running capture reports.

use crate::attempt::{classify_legacy_attempt_error, AttemptErrorView, CaptureAttemptError};
use crate::control::{idle_status_response, ControlResponse, ResponseView};
use crate::error::{ErrorView, LambError};
use crate::install::{
    arm_capture, completion, judge_recovery, recovery_verdict, Completion, InstallRequest,
};
use crate::lifecycle::{CaptureState, ErrorClass, RetryInstant, RetryPolicy};
use crate::model::{
    take_active_capture, ActiveCapture, ConfigFamily, ContextView, IdleDaemonContext,
    PreparedBootstrap, Released, RunState, RuntimeView,
};
use crate::operations::{
    begin_command_operation, begin_new_operation_generation, command_attempt_failure,
    command_attempt_failure_with_generation, command_failure_without_state_mutation,
    current_capture_is_running, nothing_released, operation_is_current,
    publish_capture_attempt_error, runtime_fault_sink_for_attempt, signal_fatal,
    signal_fatal_response, superseded_response, BegunOperation, OperationEntry,
};
use crate::scheduler::{
    CaptureAttemptId, PendingOperation, RuntimeCaptureFault, RuntimeFaultSink,
};
use crate::text::{copy_text, join, text_of};
use vstd::prelude::*;

verus! {

/// A configuration that a command read, with the control socket it names.
#[derive(Debug, Clone, PartialEq, Eq)]
pub struct PreparedCommandConfig {
    pub prepared: PreparedBootstrap,
    pub control_socket_path: String,
}

/// What follows the entry of a command.
#[derive(Debug, Clone, PartialEq, Eq)]
pub enum CommandEntry {
    Respond(ControlResponse),
    /// Read and prepare the configuration.
    Prepare(BegunOperation),
}

/// What follows once the configuration of a command was read.
#[derive(Debug)]
pub enum CommandStep<B, S> {
    Done(Completion<B, S>),
    /// Drop what was let go of, then bring the configuration into use.
    Install { request: InstallRequest, prepared: PreparedBootstrap, released: Released<B, S> },
}

/// The message about a control socket that is not the one in use.
pub open spec fn socket_mismatch(candidate: Seq<char>, bound: Seq<char>) -> Seq<char> {
    "candidate control socket "@ + candidate + " differs from bound socket "@ + bound
}

impl<B, S> ContextView<B, S> {
    /// Why a configuration cannot be taken over while the daemon runs, if it
    /// cannot: it names another control socket.
    pub open spec fn socket_refusal(self, control_socket_path: Seq<char>) -> Option<
        AttemptErrorView,
    > {
        if control_socket_path == self.control_socket_path {
            None
        } else {
            Some(
                AttemptErrorView::permanent(
                    socket_mismatch(control_socket_path, self.control_socket_path),
                ),
            )
        }
    }

    /// The state after capture was stopped on request.
    pub open spec fn capture_stopped(self) -> ContextView<B, S> {
        let profile = match self.runtime.active_profile {
            Some(profile) => Some(profile.name@),
            None => None,
        };
        ContextView {
            runtime: RuntimeView {
                state: if self.runtime.config_family == ConfigFamily::Legacy {
                    RunState::Stopped
                } else if profile is Some {
                    RunState::Idle
                } else {
                    RunState::Unconfigured
                },
                last_error: None,
                config_load_error: None,
                lifecycle: self.runtime.lifecycle.stopped(profile),
                ..self.runtime.detached()
            },
            ..self
        }
    }

    /// The state once its capture was let go of for good.
    pub open spec fn shut_down(self) -> ContextView<B, S> {
        ContextView {
            runtime: RuntimeView {
                state: RunState::Stopping,
                last_error: None,
                config_load_error: None,
                lifecycle: self.runtime.lifecycle.stopping(),
                ..self.runtime.detached()
            },
            runtime_poisoned: false,
            ..self
        }
    }

    /// The state while a capture is being started for a client.
    pub open spec fn capture_starting(self, requested_profile: Option<Seq<char>>) -> ContextView<
        B,
        S,
    > {
        let profile = if requested_profile is Some {
            requested_profile
        } else {
            self.runtime.lifecycle.active_profile
        };
        ContextView {
            runtime: RuntimeView {
                lifecycle: self.runtime.lifecycle.starting(profile),
                ..self.runtime.detached()
            },
            runtime_poisoned: false,
            ..self
        }
    }
}

/// Checks that a configuration names the control socket that is in use.
pub fn validate_candidate_socket<B, S>(
    ctx: &IdleDaemonContext<B, S>,
    candidate: &PreparedCommandConfig,
) -> (checked: Result<(), CaptureAttemptError>)
    ensures
        match checked {
            Ok(()) => ctx@.socket_refusal(candidate.control_socket_path@) is None,
            Err(error) => ctx@.socket_refusal(candidate.control_socket_path@) == Some(error@),
        },
{
    if candidate.control_socket_path == ctx.control_socket_path {
        return Ok(());
    }
    let mut message = join("candidate control socket ", candidate.control_socket_path.as_str());
    message = join(message.as_str(), " differs from bound socket ");
    message = join(message.as_str(), ctx.control_socket_path.as_str());
    Err(CaptureAttemptError::permanent(message))
}

/// Enters the command to start capture. Where a capture runs already, that is
/// the answer.
pub fn begin_start_capture<B, S>(ctx: &mut IdleDaemonContext<B, S>) -> (entry: CommandEntry)
    ensures
        match old(ctx)@.entry_refusal() {
            Some(error) => {
                &&& final(ctx)@ == old(ctx)@
                &&& entry is Respond
                &&& entry->Respond_0@ == old(ctx)@.unchanged_failure(error)
            },
            None => {
                let after = old(ctx)@.entered(OperationEntry::Command);
                &&& final(ctx)@ == after
                &&& if after.capture_is_running() {
                    &&& entry is Respond
                    &&& entry->Respond_0@ == ResponseView::plain(
                        true,
                        "capture already running"@,
                        after.status(),
                    )
                } else {
                    entry == CommandEntry::Prepare(old(ctx)@.next_operation())
                }
            },
        },
{
    let operation = match begin_new_operation_generation(ctx, OperationEntry::Command) {
        Ok(operation) => operation,
        Err(error) => {
            return CommandEntry::Respond(command_failure_without_state_mutation(ctx, error));
        },
    };
    if current_capture_is_running(ctx) {
        let status = idle_status_response(ctx);
        return CommandEntry::Respond(
            ControlResponse::plain(true, "capture already running".to_string(), status),
        );
    }
    CommandEntry::Prepare(operation)
}

impl<B, S> ContextView<B, S> {
    /// The operation that begins next.
    pub open spec fn next_operation(self) -> BegunOperation {
        BegunOperation {
            token: (self.operation_epoch + 1) as u64,
            generation: (self.runtime.lifecycle.generation + 1) as u64,
        }
    }
}

/// Takes the configuration that was read for the command to start capture. The
/// capture that was there is let go of, so that its devices are free.
pub fn detach_for_start<B, S>(
    ctx: &mut IdleDaemonContext<B, S>,
    operation: BegunOperation,
    requested_profile: &Option<String>,
    activate: bool,
    candidate: Result<PreparedCommandConfig, CaptureAttemptError>,
    now: RetryInstant,
) -> (step: CommandStep<B, S>)
    ensures
        ({
            let before = old(ctx)@;
            let refusal = match candidate {
                Err(error) => Some(error@),
                Ok(config) => if before.is_current(operation.token) {
                    before.socket_refusal(config.control_socket_path@)
                } else {
                    None
                },
            };
            if refusal is Some {
                let failed = before.failed_command(
                    operation.token,
                    Some(operation.generation),
                    refusal->0,
                    false,
                    now,
                );
                &&& final(ctx)@ == failed.0
                &&& step is Done
                &&& step->Done_0.is(failed.1, seq![failed.2])
            } else if !before.is_current(operation.token) {
                &&& final(ctx)@ == before
                &&& step is Done
                &&& step->Done_0.is(before.superseded(), seq![before.nothing()])
            } else if before.runtime.lifecycle.generation != operation.generation {
                &&& final(ctx)@ == before.unpoisoned()
                &&& step is Done
                &&& step->Done_0.is(before.unpoisoned().superseded(), seq![before.nothing()])
            } else {
                &&& final(ctx)@ == before.capture_starting(text_of(*requested_profile))
                &&& step == (CommandStep::Install {
                    request: InstallRequest {
                        token: operation.token,
                        operation_generation: Some(operation.generation),
                        old_already_detached: true,
                        force_start: true,
                        activate,
                    },
                    prepared: candidate->Ok_0.prepared,
                    released: before.runtime.held(),
                })
            }
        }),
{
    let candidate = match candidate {
        Ok(candidate) => candidate,
        Err(error) => {
            return fail_command(ctx, operation, error, false, now);
        },
    };
    if !operation_is_current(ctx, operation.token) {
        return CommandStep::Done(completion(superseded_response(ctx), nothing_released()));
    }
    if let Err(error) = validate_candidate_socket(ctx, &candidate) {
        return fail_command(ctx, operation, error, false, now);
    }
    ctx.runtime_poisoned = false;
    if ctx.runtime.lifecycle.generation != operation.generation {
        return CommandStep::Done(completion(superseded_response(ctx), nothing_released()));
    }
    let released = take_active_capture(&mut ctx.runtime);
    let profile = if requested_profile.is_some() {
        copy_text(requested_profile)
    } else {
        copy_text(&ctx.runtime.lifecycle.active_profile)
    };
    ctx.runtime.lifecycle.mark_starting(profile);
    CommandStep::Install {
        request: InstallRequest {
            token: operation.token,
            operation_generation: Some(operation.generation),
            old_already_detached: true,
            force_start: true,
            activate,
        },
        prepared: candidate.prepared,
        released,
    }
}

impl<B, S> ContextView<B, S> {
    /// Nothing to let go of.
    pub open spec fn nothing(self) -> Released<B, S> {
        Released { backend: None, session: None }
    }
}

fn fail_command<B, S>(
    ctx: &mut IdleDaemonContext<B, S>,
    operation: BegunOperation,
    error: CaptureAttemptError,
    preserve_running: bool,
    now: RetryInstant,
) -> (step: CommandStep<B, S>)
    ensures
        ({
            let failed = old(ctx)@.failed_command(
                operation.token,
                Some(operation.generation),
                error@,
                preserve_running,
                now,
            );
            &&& final(ctx)@ == failed.0
            &&& step is Done
            &&& step->Done_0.is(failed.1, seq![failed.2])
        }),
{
    let (response, released) = command_attempt_failure_with_generation(
        ctx,
        operation.token,
        Some(operation.generation),
        error,
        preserve_running,
        now,
    );
    CommandStep::Done(completion(response, released))
}

/// The message of a start that went well.
pub open spec fn start_message(requested_profile: Option<Seq<char>>) -> Seq<char> {
    match requested_profile {
        Some(profile) => "capturing "@ + profile,
        None => "capture started"@,
    }
}

/// Words the answer to the command to start capture.
pub fn finish_start_capture(response: ControlResponse, requested_profile: &Option<String>) -> (
    worded: ControlResponse)
    ensures
        worded@ == (if response.ok {
            ResponseView { message: start_message(text_of(*requested_profile)), ..response@ }
        } else {
            response@
        }),
{
    let mut worded = response;
    if worded.ok {
        worded.message = match requested_profile {
            Some(profile) => join("capturing ", profile.as_str()),
            None => "capture started".to_string(),
        };
    }
    worded
}

/// Enters the command to reload the configuration.
pub fn begin_reload<B, S>(ctx: &mut IdleDaemonContext<B, S>) -> (entry: CommandEntry)
    ensures
        match old(ctx)@.entry_refusal() {
            Some(error) => {
                &&& final(ctx)@ == old(ctx)@
                &&& entry is Respond
                &&& entry->Respond_0@ == old(ctx)@.unchanged_failure(error)
            },
            None => {
                &&& final(ctx)@ == old(ctx)@.entered(OperationEntry::Command)
                &&& entry == CommandEntry::Prepare(old(ctx)@.next_operation())
            },
        },
{
    match begin_new_operation_generation(ctx, OperationEntry::Command) {
        Ok(operation) => CommandEntry::Prepare(operation),
        Err(error) => CommandEntry::Respond(command_failure_without_state_mutation(ctx, error)),
    }
}

/// Takes the configuration that was read for the command to reload. A running
/// capture stays until the new one runs.
pub fn admit_reload<B, S>(
    ctx: &mut IdleDaemonContext<B, S>,
    operation: BegunOperation,
    candidate: Result<PreparedCommandConfig, CaptureAttemptError>,
    now: RetryInstant,
) -> (step: CommandStep<B, S>)
    ensures
        ({
            let before = old(ctx)@;
            let refusal = match candidate {
                Err(error) => Some(error@),
                Ok(config) => if before.is_current(operation.token) {
                    before.socket_refusal(config.control_socket_path@)
                } else {
                    None
                },
            };
            if refusal is Some {
                let failed = before.failed_command(
                    operation.token,
                    Some(operation.generation),
                    refusal->0,
                    true,
                    now,
                );
                &&& final(ctx)@ == failed.0
                &&& step is Done
                &&& step->Done_0.is(failed.1, seq![failed.2])
            } else if !before.is_current(operation.token) {
                &&& final(ctx)@ == before
                &&& step is Done
                &&& step->Done_0.is(before.superseded(), seq![before.nothing()])
            } else {
                &&& final(ctx)@ == before
                &&& step == (CommandStep::Install {
                    request: InstallRequest {
                        token: operation.token,
                        operation_generation: Some(operation.generation),
                        old_already_detached: false,
                        force_start: false,
                        activate: false,
                    },
                    prepared: candidate->Ok_0.prepared,
                    released: before.nothing(),
                })
            }
        }),
{
    let candidate = match candidate {
        Ok(candidate) => candidate,
        Err(error) => {
            return fail_command(ctx, operation, error, true, now);
        },
    };
    if !operation_is_current(ctx, operation.token) {
        return CommandStep::Done(completion(superseded_response(ctx), nothing_released()));
    }
    if let Err(error) = validate_candidate_socket(ctx, &candidate) {
        return fail_command(ctx, operation, error, true, now);
    }
    CommandStep::Install {
        request: InstallRequest {
            token: operation.token,
            operation_generation: Some(operation.generation),
            old_already_detached: false,
            force_start: false,
            activate: false,
        },
        prepared: candidate.prepared,
        released: nothing_released(),
    }
}

/// Stops capture on request. The daemon itself goes on.
pub fn stop_capture_transaction<B, S>(ctx: &mut IdleDaemonContext<B, S>) -> (done: Completion<B, S>)
    ensures
        match old(ctx)@.entry_refusal() {
            Some(error) => {
                &&& final(ctx)@ == old(ctx)@
                &&& done.is(old(ctx)@.unchanged_failure(error), seq![old(ctx)@.nothing()])
            },
            None => {
                let after = old(ctx)@.entered(OperationEntry::Command).capture_stopped();
                &&& final(ctx)@ == after
                &&& done.is(
                    ResponseView::plain(true, "capture stopped"@, after.status()),
                    seq![old(ctx)@.runtime.held()],
                )
            },
        },
{
    if let Err(error) = begin_new_operation_generation(ctx, OperationEntry::Command) {
        let response = command_failure_without_state_mutation(ctx, error);
        return completion(response, nothing_released());
    }
    let released = take_active_capture(&mut ctx.runtime);
    ctx.runtime.last_error = None;
    ctx.runtime.config_load_error = None;
    let profile = match &ctx.runtime.active_profile {
        Some(profile) => Some(profile.name.clone()),
        None => None,
    };
    ctx.runtime.state = if ctx.runtime.config_family == ConfigFamily::Legacy {
        RunState::Stopped
    } else if profile.is_some() {
        RunState::Idle
    } else {
        RunState::Unconfigured
    };
    ctx.runtime.lifecycle.mark_stopped(profile);
    let status = idle_status_response(ctx);
    completion(ControlResponse::plain(true, "capture stopped".to_string(), status), released)
}

/// Lets go of the capture for good, once the daemon is going down.
pub fn release_capture_for_shutdown<B, S>(ctx: &mut IdleDaemonContext<B, S>) -> (released: Released<
    B,
    S,
>)
    ensures
        released == old(ctx)@.runtime.held(),
        final(ctx)@ == old(ctx)@.shut_down(),
{
    let released = take_active_capture(&mut ctx.runtime);
    ctx.runtime.state = RunState::Stopping;
    ctx.runtime.last_error = None;
    ctx.runtime.config_load_error = None;
    ctx.runtime.lifecycle.mark_stopping();
    ctx.runtime_poisoned = false;
    released
}

/// The session whose calibration is to be given up, if one is there.
pub fn cancel_active_calibration<B, S>(ctx: &IdleDaemonContext<B, S>) -> (session: Option<&S>)
    ensures
        session == (match ctx.runtime.session {
            Some(session) => Some(&session.resource),
            None => None,
        }),
{
    match &ctx.runtime.session {
        Some(session) => Some(&session.resource),
        None => None,
    }
}

/// What becomes of work that the scheduler handed on.
#[derive(Debug, Clone, Copy, PartialEq, Eq, Structural)]
pub enum ScheduledGenerationDecision {
    Current,
    Stale,
    Terminalized,
}

/// The message with which the daemon ends when nobody knows any more what a
/// planned retry would meet.
pub open spec fn poison_message() -> Seq<char> {
    "runtime state lock poison violated scheduled retry invariants"@
}

impl<B, S> ContextView<B, S> {
    /// Whether the state is as it must be while a retry is planned.
    pub open spec fn retry_is_coherent(self) -> bool {
        &&& !self.scheduler.stopped
        &&& self.runtime.holds_nothing()
        &&& self.runtime.lifecycle.error_class == Some(ErrorClass::Transient)
        &&& self.runtime.lifecycle.retry_policy == RetryPolicy::BoundedBackoff
        &&& self.runtime.lifecycle.next_retry_at is Some
    }

    /// What becomes of work of the given generation, and of the context when that
    /// is decided.
    pub open spec fn decided(self, generation: u64) -> (
        ContextView<B, S>,
        ScheduledGenerationDecision,
        Released<B, S>,
    ) {
        let is_current = self.runtime.lifecycle.generation == generation;
        if !self.runtime_poisoned {
            (
                self,
                if self.scheduler.stopped {
                    ScheduledGenerationDecision::Terminalized
                } else if is_current {
                    ScheduledGenerationDecision::Current
                } else {
                    ScheduledGenerationDecision::Stale
                },
                self.nothing(),
            )
        } else if !is_current {
            (self.unpoisoned(), ScheduledGenerationDecision::Stale, self.nothing())
        } else if self.retry_is_coherent() {
            (self.unpoisoned(), ScheduledGenerationDecision::Current, self.nothing())
        } else {
            (
                self.cleaned().ended_by(poison_message()),
                ScheduledGenerationDecision::Terminalized,
                self.runtime.held(),
            )
        }
    }
}

/// Decides what becomes of work that the scheduler handed on. A state that
/// someone failed on is put in order where it is as a planned retry needs it;
/// where it is not, the capture is let go of and the daemon ends.
pub fn scheduled_generation_decision<B, S>(
    ctx: &mut IdleDaemonContext<B, S>,
    generation: u64,
) -> (decision: (ScheduledGenerationDecision, Released<B, S>))
    ensures
        (final(ctx)@, decision.0, decision.1) == old(ctx)@.decided(generation),
{
    let is_current = ctx.runtime.lifecycle.generation == generation;
    if !ctx.runtime_poisoned {
        let decision = if ctx.scheduler.is_stopped() {
            ScheduledGenerationDecision::Terminalized
        } else if is_current {
            ScheduledGenerationDecision::Current
        } else {
            ScheduledGenerationDecision::Stale
        };
        return (decision, nothing_released());
    }
    if !is_current {
        ctx.runtime_poisoned = false;
        return (ScheduledGenerationDecision::Stale, nothing_released());
    }
    let holds_nothing = ctx.runtime.capture.is_none() && ctx.runtime.session.is_none()
        && ctx.runtime.capture_health.is_none() && ctx.runtime.resolved_capture.is_none();
    let transient = match ctx.runtime.lifecycle.error_class {
        Some(ErrorClass::Transient) => true,
        _ => false,
    };
    if !ctx.scheduler.is_stopped() && holds_nothing && transient
        && ctx.runtime.lifecycle.retry_policy == RetryPolicy::BoundedBackoff
        && ctx.runtime.lifecycle.next_retry_at.is_some() {
        ctx.runtime_poisoned = false;
        return (ScheduledGenerationDecision::Current, nothing_released());
    }
    let released = take_active_capture(&mut ctx.runtime);
    ctx.runtime_poisoned = false;
    signal_fatal(
        ctx,
        "runtime state lock poison violated scheduled retry invariants".to_string(),
    );
    (ScheduledGenerationDecision::Terminalized, released)
}

/// What follows when the scheduler asks for a retry.
#[derive(Debug)]
pub enum RetryEntry<B, S> {
    /// Nothing is tried; drop what was let go of.
    Skip(Released<B, S>),
    /// Read and prepare the configuration.
    Prepare { token: u64 },
}

/// What follows once the configuration of a retry was read.
#[derive(Debug)]
pub enum RetryStep<B, S> {
    Done(Released<B, S>),
    /// Bring the configuration into use.
    Install { request: InstallRequest, prepared: PreparedBootstrap },
}

/// Enters the retry that the scheduler asks for. One that belongs to an older
/// generation does nothing.
pub fn begin_retry<B, S>(ctx: &mut IdleDaemonContext<B, S>, generation: u64) -> (entry: RetryEntry<
    B,
    S,
>)
    ensures
        ({
            let decided = old(ctx)@.decided(generation);
            if decided.1 != ScheduledGenerationDecision::Current {
                &&& final(ctx)@ == decided.0
                &&& entry == RetryEntry::Skip(decided.2)
            } else if decided.0.stop {
                &&& final(ctx)@ == decided.0
                &&& entry == RetryEntry::Skip(decided.0.nothing())
            } else if decided.0.operation_epoch == u64::MAX {
                &&& final(ctx)@ == decided.0.ended_by("operation epoch overflow"@)
                &&& entry == RetryEntry::Skip(decided.0.nothing())
            } else {
                &&& final(ctx)@ == (ContextView {
                    operation_epoch: (decided.0.operation_epoch + 1) as u64,
                    ..decided.0
                })
                &&& entry == (RetryEntry::<B, S>::Prepare {
                    token: (decided.0.operation_epoch + 1) as u64,
                })
            }
        }),
{
    let (decision, released) = scheduled_generation_decision(ctx, generation);
    if decision != ScheduledGenerationDecision::Current {
        return RetryEntry::Skip(released);
    }
    match begin_command_operation(ctx) {
        Ok(token) => RetryEntry::Prepare { token },
        Err(error) => {
            if error.class == ErrorClass::Fatal {
                signal_fatal(ctx, error.message);
            }
            RetryEntry::Skip(nothing_released())
        },
    }
}

impl<B, S> ContextView<B, S> {
    /// What the failure of a retry makes of the context, and what is let go of.
    pub open spec fn failed_retry(self, token: u64, error: AttemptErrorView, now: RetryInstant) -> (
        ContextView<B, S>,
        Released<B, S>,
    ) {
        let failed = self.failed_command(token, None, error, false, now);
        (
            if failed.1.is_fatal() {
                failed.0.ended_by(failed.1.message)
            } else {
                failed.0
            },
            failed.2,
        )
    }
}

/// Takes the configuration that was read for a retry.
pub fn admit_retry<B, S>(
    ctx: &mut IdleDaemonContext<B, S>,
    generation: u64,
    token: u64,
    candidate: Result<PreparedCommandConfig, CaptureAttemptError>,
    now: RetryInstant,
) -> (step: RetryStep<B, S>)
    ensures
        match candidate {
            Err(error) => {
                let failed = old(ctx)@.failed_retry(token, error@, now);
                &&& final(ctx)@ == failed.0
                &&& step == RetryStep::Done(failed.1)
            },
            Ok(config) => {
                let decided = old(ctx)@.decided(generation);
                if decided.1 != ScheduledGenerationDecision::Current || !decided.0.is_current(
                    token,
                ) {
                    &&& final(ctx)@ == decided.0
                    &&& step == RetryStep::Done(decided.2)
                } else if decided.0.socket_refusal(config.control_socket_path@) is Some {
                    let failed = decided.0.failed_retry(
                        token,
                        decided.0.socket_refusal(config.control_socket_path@)->0,
                        now,
                    );
                    &&& final(ctx)@ == failed.0
                    &&& step == RetryStep::Done(failed.1)
                } else {
                    &&& final(ctx)@ == decided.0
                    &&& step == (RetryStep::<B, S>::Install {
                        request: InstallRequest {
                            token,
                            operation_generation: None,
                            old_already_detached: false,
                            force_start: true,
                            activate: false,
                        },
                        prepared: config.prepared,
                    })
                }
            },
        },
{
    let candidate = match candidate {
        Ok(candidate) => candidate,
        Err(error) => {
            return RetryStep::Done(fail_retry(ctx, token, error, now));
        },
    };
    let (decision, released) = scheduled_generation_decision(ctx, generation);
    if decision != ScheduledGenerationDecision::Current || !operation_is_current(ctx, token) {
        return RetryStep::Done(released);
    }
    if let Err(error) = validate_candidate_socket(ctx, &candidate) {
        return RetryStep::Done(fail_retry(ctx, token, error, now));
    }
    RetryStep::Install {
        request: InstallRequest {
            token,
            operation_generation: None,
            old_already_detached: false,
            force_start: true,
            activate: false,
        },
        prepared: candidate.prepared,
    }
}

fn fail_retry<B, S>(
    ctx: &mut IdleDaemonContext<B, S>,
    token: u64,
    error: CaptureAttemptError,
    now: RetryInstant,
) -> (released: Released<B, S>)
    ensures
        (final(ctx)@, released) == old(ctx)@.failed_retry(token, error@, now),
{
    let (response, released) = command_attempt_failure(ctx, token, error, false, now);
    signal_fatal_response(ctx, &response);
    released
}

impl RuntimeCaptureFault {
    /// The failed attempt that the fault of a running capture makes: a device
    /// that went away is waited for.
    pub open spec fn attempt_error(self) -> AttemptErrorView {
        AttemptErrorView {
            class: ErrorClass::Transient,
            capture_state: match self {
                RuntimeCaptureFault::DeviceDisconnected(_) => CaptureState::WaitingForDevice,
                RuntimeCaptureFault::BackendFault(_) => CaptureState::Faulted,
            },
            message: self.text(),
        }
    }
}

impl<B, S> ContextView<B, S> {
    /// Whether the capture that is held is the given attempt.
    pub open spec fn holds_attempt(self, attempt_id: CaptureAttemptId) -> bool {
        self.runtime.capture_health is Some && self.runtime.capture_health->0.attempt() == Some(
            attempt_id,
        )
    }

    /// The context after the capture that is held met a fault: it was let go of,
    /// and a retry is planned.
    pub open spec fn fault_published(self, fault: RuntimeCaptureFault, now: RetryInstant) -> ContextView<
        B,
        S,
    > {
        let runtime = self.runtime.detached().failed(fault.attempt_error(), now);
        ContextView {
            runtime,
            scheduler: self.scheduler.holding(
                PendingOperation::Retry {
                    generation: runtime.lifecycle.generation,
                    due: runtime.lifecycle.next_retry_at->0,
                },
            ),
            ..self
        }
    }

    /// What the fault of a running capture makes of the context, and what is let
    /// go of.
    pub open spec fn faulted(
        self,
        generation: u64,
        attempt_id: CaptureAttemptId,
        fault: RuntimeCaptureFault,
        now: RetryInstant,
    ) -> (ContextView<B, S>, Released<B, S>) {
        let decided = self.decided(generation);
        if decided.1 != ScheduledGenerationDecision::Current {
            (decided.0, decided.2)
        } else if decided.0.stop || !decided.0.holds_attempt(attempt_id) {
            (decided.0, self.nothing())
        } else {
            (decided.0.fault_published(fault, now), decided.0.runtime.held())
        }
    }
}

/// Makes the fault of a running capture part of the state. A fault of another
/// generation or of another attempt does nothing.
pub fn publish_runtime_fault<B, S>(
    ctx: &mut IdleDaemonContext<B, S>,
    generation: u64,
    attempt_id: CaptureAttemptId,
    fault: RuntimeCaptureFault,
    now: RetryInstant,
) -> (released: Released<B, S>)
    ensures
        (final(ctx)@, released) == old(ctx)@.faulted(generation, attempt_id, fault, now),
{
    let (decision, decided) = scheduled_generation_decision(ctx, generation);
    if decision != ScheduledGenerationDecision::Current {
        return decided;
    }
    if ctx.stop {
        return nothing_released();
    }
    let held = match &ctx.runtime.capture_health {
        Some(health) => match health.attempt_id() {
            Some(id) => id.raw == attempt_id.raw,
            None => false,
        },
        None => false,
    };
    if !held {
        return nothing_released();
    }
    let (capture_state, message) = match fault {
        RuntimeCaptureFault::DeviceDisconnected(message) => {
            (CaptureState::WaitingForDevice, message)
        },
        RuntimeCaptureFault::BackendFault(message) => (CaptureState::Faulted, message),
    };
    let released = take_active_capture(&mut ctx.runtime);
    ctx.runtime.state = RunState::Faulted;
    ctx.runtime.last_error = Some(message.clone());
    ctx.runtime.config_load_error = Some(message.clone());
    ctx.runtime.lifecycle.mark_transient(capture_state, message, now);
    if let Some(due) = ctx.runtime.lifecycle.next_retry_at {
        ctx.scheduler.schedule_retry(generation, due);
    }
    released
}

/// What the start that the configuration asks for comes to first.
#[derive(Debug, Clone, PartialEq, Eq)]
pub enum ConfiguredStart {
    /// Nothing is to be started here.
    Skip,
    /// Start the capture of the older format, which reports its faults to the
    /// sink.
    Start { sink: RuntimeFaultSink },
    /// The daemon ends.
    Fail(LambError),
}

/// What follows once the capture that the configuration asks for was started.
#[derive(Debug)]
pub enum ConfiguredStep<B, S> {
    /// The attempt is over; the daemon ends where it is an error.
    Finished { result: Result<(), LambError>, released: Vec<Released<B, S>> },
    /// Recover what the session of the capture finds unfinished.
    Recover(ActiveCapture<B, S>),
}

/// Begins the start that a configuration of the older format asks for.
pub fn begin_configured_start<B, S>(ctx: &mut IdleDaemonContext<B, S>) -> (start: ConfiguredStart)
    ensures
        ({
            let before = old(ctx)@;
            if before.runtime_poisoned || before.runtime.prepared_legacy is None {
                &&& final(ctx)@ == before
                &&& start is Skip
            } else if before.sink_refusal(None) is Some {
                &&& final(ctx)@ == before
                &&& start is Fail
                &&& start->Fail_0@ == ErrorView::Capture(before.sink_refusal(None)->0.message)
            } else {
                &&& final(ctx)@ == before.with_next_attempt()
                &&& start == (ConfiguredStart::Start { sink: before.next_sink(None) })
            }
        }),
{
    if ctx.runtime_poisoned || ctx.runtime.prepared_legacy.is_none() {
        return ConfiguredStart::Skip;
    }
    match runtime_fault_sink_for_attempt(ctx, None) {
        Ok(sink) => ConfiguredStart::Start { sink },
        Err(error) => ConfiguredStart::Fail(LambError::Capture(error.message)),
    }
}

impl<B, S> ConfiguredStep<B, S> {
    /// Whether the attempt is over with the given result and the given things to
    /// drop.
    pub open spec fn is_finished(
        self,
        error: Option<ErrorView>,
        released: Seq<Released<B, S>>,
    ) -> bool {
        match self {
            ConfiguredStep::Finished { result, released: dropped } => {
                &&& dropped@ == released
                &&& match result {
                    Ok(()) => error is None,
                    Err(met) => error == Some(met@),
                }
            },
            ConfiguredStep::Recover(_) => false,
        }
    }
}

fn finished<B, S>(
    result: Result<(), LambError>,
    first: Released<B, S>,
    second: Released<B, S>,
) -> (step: ConfiguredStep<B, S>)
    ensures
        step.is_finished(
            match result {
                Ok(()) => None,
                Err(error) => Some(error@),
            },
            seq![first, second],
        ),
{
    let mut released: Vec<Released<B, S>> = Vec::new();
    released.push(first);
    released.push(second);
    proof {
        assert(released@ =~= seq![first, second]);
    }
    ConfiguredStep::Finished { result, released }
}

/// Takes the outcome of starting the capture that the configuration asks for.
/// An error that ends the daemon is the result; any other becomes part of the
/// state.
pub fn configured_start_result<B, S>(
    ctx: &mut IdleDaemonContext<B, S>,
    outcome: Result<ActiveCapture<B, S>, CaptureAttemptError>,
    now: RetryInstant,
) -> (step: ConfiguredStep<B, S>)
    ensures
        match outcome {
            Ok(active) => final(ctx)@ == old(ctx)@ && step == ConfiguredStep::Recover(active),
            Err(error) => old(ctx)@.configured_failure(
                final(ctx)@,
                step,
                old(ctx)@.nothing(),
                error@,
                now,
            ),
        },
{
    match outcome {
        Ok(active) => ConfiguredStep::Recover(active),
        Err(error) => fail_configured_start(ctx, nothing_released(), error, now),
    }
}

impl<B, S> ContextView<B, S> {
    /// How the start that the configuration asks for ends when it fails, after
    /// `given_up` was let go of.
    pub open spec fn configured_failure(
        self,
        after: ContextView<B, S>,
        step: ConfiguredStep<B, S>,
        given_up: Released<B, S>,
        error: AttemptErrorView,
        now: RetryInstant,
    ) -> bool {
        if error.class == ErrorClass::Fatal {
            &&& after == self
            &&& step.is_finished(
                Some(ErrorView::Capture(error.message)),
                seq![given_up, self.nothing()],
            )
        } else {
            &&& after == self.failed_attempt(error, now).0
            &&& step.is_finished(None, seq![given_up, self.failed_attempt(error, now).1])
        }
    }

    /// The context once the capture that the configuration asks for runs.
    pub open spec fn configured_running(self, active: ActiveCapture<B, S>) -> ContextView<B, S> {
        self.installed(
            RuntimeView {
                resolved_capture: Some(active.resolved),
                lifecycle: self.runtime.lifecycle.next_operation().running(
                    None,
                    text_of(active.resolved.resolved_target),
                ),
                state: RunState::Capturing,
                last_error: None,
                config_load_error: None,
                capture: Some(active.backend),
                capture_health: active.health,
                session: Some(active.session),
                ..self.runtime
            },
        )
    }
}

fn fail_configured_start<B, S>(
    ctx: &mut IdleDaemonContext<B, S>,
    given_up: Released<B, S>,
    error: CaptureAttemptError,
    now: RetryInstant,
) -> (step: ConfiguredStep<B, S>)
    ensures
        old(ctx)@.configured_failure(final(ctx)@, step, given_up, error@, now),
{
    if error.class == ErrorClass::Fatal {
        return finished(Err(LambError::Capture(error.message)), given_up, nothing_released());
    }
    let released = publish_capture_attempt_error(ctx, error, now);
    finished(Ok(()), given_up, released)
}

/// Takes the outcome of the recovery that follows the start which the
/// configuration asks for, and makes the capture part of the state where all
/// went well.
pub fn configured_start_recovered<B, S>(
    ctx: &mut IdleDaemonContext<B, S>,
    active: ActiveCapture<B, S>,
    recovery: Result<u64, LambError>,
    now: RetryInstant,
) -> (step: ConfiguredStep<B, S>)
    requires
        recovery_verdict("legacy"@, recovery) is None ==> !old(ctx).runtime_poisoned,
    ensures
        match recovery_verdict("legacy"@, recovery) {
            Some(error) => old(ctx)@.configured_failure(
                final(ctx)@,
                step,
                active.held(),
                error.attempt_error(),
                now,
            ),
            None => if old(ctx)@.runtime.lifecycle.admits_operation() {
                &&& final(ctx)@ == old(ctx)@.configured_running(active)
                &&& step.is_finished(None, seq![old(ctx)@.nothing(), old(ctx)@.nothing()])
            } else {
                &&& final(ctx)@ == old(ctx)@
                &&& step.is_finished(
                    Some(
                        ErrorView::ControlInvariant(
                            "initial capture publication generation overflow"@,
                        ),
                    ),
                    seq![active.held(), old(ctx)@.nothing()],
                )
            },
        },
{
    if let Err(error) = judge_recovery("legacy", recovery) {
        return fail_configured_start(
            ctx,
            active.release(),
            classify_legacy_attempt_error(error),
            now,
        );
    }
    let generation: u64 = match ctx.runtime.lifecycle.begin_operation() {
        Ok(generation) => generation,
        Err(_) => {
            return finished(
                Err(
                    LambError::ControlInvariant(
                        "initial capture publication generation overflow".to_string(),
                    ),
                ),
                active.release(),
                nothing_released(),
            );
        },
    };
    let target = copy_text(&active.resolved.resolved_target);
    ctx.runtime.capture = Some(active.backend);
    ctx.runtime.capture_health = active.health;
    ctx.runtime.session = Some(active.session);
    ctx.runtime.resolved_capture = Some(active.resolved);
    ctx.runtime.state = RunState::Capturing;
    ctx.runtime.last_error = None;
    ctx.runtime.config_load_error = None;
    ctx.runtime.lifecycle.mark_running(None, target);
    ctx.scheduler.invalidate(generation);
    arm_capture(ctx);
    finished(Ok(()), nothing_released(), nothing_released())
}

} // verus!
