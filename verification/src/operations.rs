//! Operations on the daemon: how one begins, how it learns that another one has
//! taken its place, and how its failure becomes part of the state.

use crate::attempt::{
    apply_capture_attempt_error_to_state, shutdown_attempt_error, AttemptErrorView,
    CaptureAttemptError,
};
use crate::control::{idle_status_response, ControlResponse, ResponseView};
use crate::error::{ErrorView, LambError};
use crate::lifecycle::{
    CaptureState, DaemonState, ErrorClass, LifecycleState, LifecycleView, RetryInstant,
};
use crate::model::{take_active_capture, ContextView, IdleDaemonContext, Released, RuntimeView};
use crate::scheduler::{CaptureAttemptId, PendingOperation, RuntimeFaultSink};
use vstd::prelude::*;

verus! {

/// An operation that began: the token by which it is told from all others, and
/// the generation that its work carries.
#[derive(Debug, Clone, Copy, PartialEq, Eq, Structural)]
pub struct BegunOperation {
    pub token: u64,
    pub generation: u64,
}

/// What an operation begins for: a command, or the end of the daemon.
#[derive(Debug, Clone, Copy, PartialEq, Eq, Structural)]
pub enum OperationEntry {
    Command,
    DirectStop,
}

impl<B, S> ContextView<B, S> {
    /// Whether the operation with the given token is still the last that began,
    /// and the daemon is not going down.
    pub open spec fn is_current(self, token: u64) -> bool {
        !self.stop && self.operation_epoch == token
    }

    /// Whether a capture runs.
    pub open spec fn capture_is_running(self) -> bool {
        &&& !self.runtime_poisoned
        &&& self.runtime.capture is Some
        &&& self.runtime.session is Some
        &&& self.runtime.lifecycle.capture_state == CaptureState::Running
    }

    /// Why no operation can begin, if none can.
    pub open spec fn entry_refusal(self) -> Option<AttemptErrorView> {
        if self.stop {
            Some(AttemptErrorView::shutdown())
        } else if self.operation_epoch == u64::MAX {
            Some(AttemptErrorView::fatal("operation epoch overflow"@))
        } else if !self.runtime.lifecycle.admits_operation() {
            Some(AttemptErrorView::fatal(self.runtime.lifecycle.refusal().rendered()))
        } else {
            None
        }
    }

    /// The context after an operation began that can begin. A command moves the
    /// reports of the running capture over to its own generation; the end of the
    /// daemon stops the scheduler.
    pub open spec fn entered(self, entry: OperationEntry) -> ContextView<B, S> {
        let lifecycle = self.runtime.lifecycle.next_operation();
        let scheduler = self.scheduler.invalidated(lifecycle.generation);
        let begun = ContextView {
            operation_epoch: (self.operation_epoch + 1) as u64,
            runtime_poisoned: false,
            ..self
        };
        match entry {
            OperationEntry::DirectStop => ContextView {
                stop: true,
                runtime: RuntimeView { lifecycle: lifecycle.stopping(), ..self.runtime },
                scheduler: scheduler.ended(),
                ..begun
            },
            OperationEntry::Command => match self.runtime.capture_health {
                Some(health) if health.attempt() is Some => {
                    let bound = health.bound_to(
                        RuntimeFaultSink::Bound {
                            generation: lifecycle.generation,
                            attempt_id: health.attempt()->0,
                        },
                    );
                    ContextView {
                        runtime: RuntimeView {
                            lifecycle,
                            capture_health: Some(bound.armed()),
                            ..self.runtime
                        },
                        scheduler: bound.armed_scheduler(scheduler),
                        ..begun
                    }
                },
                _ => ContextView {
                    runtime: RuntimeView { lifecycle, ..self.runtime },
                    scheduler,
                    ..begun
                },
            },
        }
    }

    /// The context once the daemon was told to end by a fatal error. The first
    /// such error is the one that is kept.
    pub open spec fn ended_by(self, message: Seq<char>) -> ContextView<B, S> {
        ContextView {
            first_fatal: if self.first_fatal is Some {
                self.first_fatal
            } else {
                Some(message)
            },
            stop: true,
            scheduler: self.scheduler.ended(),
            ..self
        }
    }

    /// What an operation is answered whose place was taken.
    pub open spec fn superseded(self) -> ResponseView {
        ResponseView::failure(
            if self.stop {
                "daemon is shutting down"@
            } else {
                "capture operation was superseded"@
            },
            self.status(),
            Some(ErrorClass::Transient),
            self.status().lifecycle.daemon_state,
            self.status().lifecycle.capture_state,
        )
    }

    /// What an operation is answered that failed and changed nothing.
    pub open spec fn unchanged_failure(self, error: AttemptErrorView) -> ResponseView {
        let lifecycle = if self.runtime_poisoned {
            LifecycleView::ready_stopped(None).permanent("runtime state lock poisoned"@)
        } else {
            self.runtime.lifecycle
        };
        ResponseView::failure(
            error.message,
            self.status(),
            Some(error.class),
            lifecycle.daemon_state,
            lifecycle.capture_state,
        )
    }

    /// What an operation is answered that failed for good.
    pub open spec fn fatal_failure(self, message: Seq<char>) -> ResponseView {
        ResponseView::failure(
            message,
            self.status(),
            Some(ErrorClass::Fatal),
            self.status().lifecycle.daemon_state,
            self.status().lifecycle.capture_state,
        )
    }

    /// What an operation is answered whose failure is now part of the state.
    pub open spec fn current_failure(self) -> ResponseView {
        if self.runtime_poisoned {
            ResponseView::failure(
                "runtime state lock poisoned"@,
                self.status(),
                Some(ErrorClass::Permanent),
                DaemonState::Degraded,
                CaptureState::Faulted,
            )
        } else {
            ResponseView::failure(
                match self.runtime.lifecycle.last_error {
                    Some(message) => message,
                    None => "capture command failed"@,
                },
                self.status(),
                self.runtime.lifecycle.error_class,
                self.runtime.lifecycle.daemon_state,
                self.runtime.lifecycle.capture_state,
            )
        }
    }

    /// What is let go of when a state is put in order that someone failed on: the
    /// capture, since nobody knows what became of it.
    pub open spec fn poison_releases(self) -> Released<B, S> {
        if self.runtime_poisoned {
            self.runtime.held()
        } else {
            Released { backend: None, session: None }
        }
    }

    /// The context after a failed attempt was written into the state under the
    /// generation that the lifecycle now has.
    pub open spec fn published(self, error: AttemptErrorView, now: RetryInstant) -> ContextView<
        B,
        S,
    > {
        let kept = if self.runtime_poisoned {
            self.runtime.detached()
        } else {
            self.runtime
        };
        let runtime = kept.failed(error, now);
        let generation = runtime.lifecycle.generation;
        ContextView {
            runtime,
            runtime_poisoned: false,
            scheduler: match error.class {
                ErrorClass::Transient => self.scheduler.holding(
                    PendingOperation::Retry { generation, due: runtime.lifecycle.next_retry_at->0 },
                ),
                _ => self.scheduler.invalidated(generation),
            },
            ..self
        }
    }

    /// The same context after an operation began on the lifecycle alone.
    pub open spec fn with_next_generation(self) -> ContextView<B, S> {
        ContextView {
            runtime: RuntimeView {
                lifecycle: self.runtime.lifecycle.next_operation(),
                ..self.runtime
            },
            ..self
        }
    }

    /// The same context with its state put in order.
    pub open spec fn unpoisoned(self) -> ContextView<B, S> {
        ContextView { runtime_poisoned: false, ..self }
    }

    /// The same context after the capture of a state was let go of that someone
    /// failed on.
    pub open spec fn cleaned(self) -> ContextView<B, S> {
        if self.runtime_poisoned {
            ContextView { runtime: self.runtime.detached(), runtime_poisoned: false, ..self }
        } else {
            self
        }
    }

    /// What the failure of a command makes of the context, what the command is
    /// answered, and what is let go of.
    pub open spec fn failed_command(
        self,
        token: u64,
        operation_generation: Option<u64>,
        error: AttemptErrorView,
        preserve_running: bool,
        now: RetryInstant,
    ) -> (ContextView<B, S>, ResponseView, Released<B, S>) {
        let nothing = Released { backend: None, session: None };
        if !self.is_current(token) {
            (self, self.superseded(), nothing)
        } else if error.class == ErrorClass::Fatal {
            let ended = self.ended_by(error.message);
            (ended, ended.fatal_failure(error.message), nothing)
        } else if preserve_running && self.capture_is_running() {
            (self, self.unchanged_failure(error), nothing)
        } else if operation_generation is Some && operation_generation
            != Some(self.runtime.lifecycle.generation) {
            (self.unpoisoned(), self.unpoisoned().superseded(), nothing)
        } else if operation_generation is Some {
            let after = self.published(error, now);
            (after, after.current_failure(), self.poison_releases())
        } else if self.runtime.lifecycle.admits_operation() {
            let after = self.with_next_generation().published(error, now);
            (after, after.current_failure(), self.poison_releases())
        } else if self.runtime_poisoned {
            let message = "operation generation overflow while recovering poisoned runtime"@;
            let ended = self.cleaned().ended_by(message);
            (ended, ended.fatal_failure(message), self.poison_releases())
        } else {
            (self, self.superseded(), nothing)
        }
    }

    /// What a failed attempt outside any command makes of the context, and what
    /// is let go of.
    pub open spec fn failed_attempt(self, error: AttemptErrorView, now: RetryInstant) -> (
        ContextView<B, S>,
        Released<B, S>,
    ) {
        if error.class == ErrorClass::Fatal {
            (self.ended_by(error.message), Released { backend: None, session: None })
        } else if self.runtime.lifecycle.admits_operation() {
            (self.with_next_generation().published(error, now), self.poison_releases())
        } else {
            (
                self.cleaned().ended_by(self.runtime.lifecycle.refusal().rendered()),
                self.poison_releases(),
            )
        }
    }
}

/// Nothing to let go of.
pub fn nothing_released<B, S>() -> (released: Released<B, S>)
    ensures
        released == (Released::<B, S> { backend: None, session: None }),
{
    Released { backend: None, session: None }
}

/// Whether the operation with the given token is still the last that began.
pub fn operation_is_current<B, S>(ctx: &IdleDaemonContext<B, S>, token: u64) -> (current: bool)
    ensures
        current == ctx@.is_current(token),
{
    !ctx.stop && ctx.operation_epoch == token
}

/// Whether a capture runs.
pub fn current_capture_is_running<B, S>(ctx: &IdleDaemonContext<B, S>) -> (running: bool)
    ensures
        running == ctx@.capture_is_running(),
{
    !ctx.runtime_poisoned && ctx.runtime.capture.is_some() && ctx.runtime.session.is_some()
        && ctx.runtime.lifecycle.capture_state == CaptureState::Running
}

/// Hands out the identity of the next attempt to capture.
pub fn allocate_capture_attempt_id<B, S>(ctx: &mut IdleDaemonContext<B, S>) -> (id: Result<
    CaptureAttemptId,
    CaptureAttemptError,
>)
    ensures
        match id {
            Ok(id) => {
                &&& old(ctx).attempts < u64::MAX
                &&& id.raw == old(ctx).attempts + 1
                &&& final(ctx)@ == (ContextView { attempts: id.raw, ..old(ctx)@ })
            },
            Err(error) => {
                &&& old(ctx).attempts == u64::MAX
                &&& error@ == AttemptErrorView::fatal("capture attempt identity overflow"@)
                &&& *final(ctx) == *old(ctx)
            },
        },
{
    match CaptureAttemptId::checked_after(ctx.attempts) {
        Some(id) => {
            ctx.attempts = id.raw;
            Ok(id)
        },
        None => Err(CaptureAttemptError::fatal("capture attempt identity overflow".to_string())),
    }
}

/// Begins an operation that carries a token and no generation of its own.
pub fn begin_command_operation<B, S>(ctx: &mut IdleDaemonContext<B, S>) -> (begun: Result<
    u64,
    CaptureAttemptError,
>)
    ensures
        match begun {
            Ok(token) => {
                &&& !old(ctx).stop
                &&& token == old(ctx).operation_epoch + 1
                &&& final(ctx)@ == (ContextView { operation_epoch: token, ..old(ctx)@ })
            },
            Err(error) => {
                &&& old(ctx).stop || old(ctx).operation_epoch == u64::MAX
                &&& error@ == (if old(ctx).stop {
                    AttemptErrorView::shutdown()
                } else {
                    AttemptErrorView::fatal("operation epoch overflow"@)
                })
                &&& *final(ctx) == *old(ctx)
            },
        },
{
    if ctx.stop {
        return Err(shutdown_attempt_error());
    }
    match ctx.operation_epoch.checked_add(1) {
        Some(token) => {
            ctx.operation_epoch = token;
            Ok(token)
        },
        None => Err(CaptureAttemptError::fatal("operation epoch overflow".to_string())),
    }
}

/// Begins an operation with a token and a generation above all before it. From
/// here on no older operation is current and no older work is taken.
pub fn begin_new_operation_generation<B, S>(
    ctx: &mut IdleDaemonContext<B, S>,
    entry: OperationEntry,
) -> (begun: Result<BegunOperation, CaptureAttemptError>)
    ensures
        match begun {
            Ok(operation) => {
                &&& old(ctx)@.entry_refusal() is None
                &&& operation.token == old(ctx).operation_epoch + 1
                &&& operation.generation == old(ctx).runtime.lifecycle.generation + 1
                &&& final(ctx)@ == old(ctx)@.entered(entry)
            },
            Err(error) => {
                &&& old(ctx)@.entry_refusal() == Some(error@)
                &&& *final(ctx) == *old(ctx)
            },
        },
{
    if ctx.stop {
        return Err(shutdown_attempt_error());
    }
    let token: u64 = match ctx.operation_epoch.checked_add(1) {
        Some(token) => token,
        None => {
            return Err(CaptureAttemptError::fatal("operation epoch overflow".to_string()));
        },
    };
    let generation: u64 = match ctx.runtime.lifecycle.begin_operation() {
        Ok(generation) => generation,
        Err(error) => {
            return Err(CaptureAttemptError::fatal(error.to_text()));
        },
    };
    ctx.operation_epoch = token;
    ctx.scheduler.invalidate(generation);
    ctx.runtime_poisoned = false;
    match entry {
        OperationEntry::DirectStop => {
            ctx.stop = true;
            ctx.runtime.lifecycle.mark_stopping();
            ctx.scheduler.stop();
        },
        OperationEntry::Command => {
            if let Some(mut health) = ctx.runtime.capture_health.take() {
                if let Some(attempt_id) = health.attempt_id() {
                    let sink = ctx.scheduler.fault_sink(generation, attempt_id);
                    health.rebind_and_arm(&mut ctx.scheduler, sink);
                }
                ctx.runtime.capture_health = Some(health);
            }
        },
    }
    Ok(BegunOperation { token, generation })
}

/// Begins the end of the daemon: no operation is current any more, nothing new
/// begins, and the scheduler is stopped.
pub fn begin_shutdown<B, S>(ctx: &mut IdleDaemonContext<B, S>)
    ensures
        final(ctx)@ == (if old(ctx)@.entry_refusal() is None {
            old(ctx)@.entered(OperationEntry::DirectStop)
        } else {
            ContextView {
                stop: true,
                scheduler: old(ctx).scheduler.ended(),
                runtime: RuntimeView {
                    lifecycle: old(ctx)@.runtime.lifecycle.stopping(),
                    ..old(ctx)@.runtime
                },
                runtime_poisoned: false,
                ..old(ctx)@
            }
        }),
{
    if begin_new_operation_generation(ctx, OperationEntry::DirectStop).is_err() {
        ctx.stop = true;
        ctx.scheduler.stop();
        ctx.runtime.lifecycle.mark_stopping();
        ctx.runtime_poisoned = false;
    }
}

/// Tells the daemon to end because of a fatal error.
pub fn signal_fatal<B, S>(ctx: &mut IdleDaemonContext<B, S>, message: String)
    ensures
        final(ctx)@ == old(ctx)@.ended_by(message@),
{
    if ctx.first_fatal.is_none() {
        ctx.first_fatal = Some(message);
    }
    ctx.stop = true;
    ctx.scheduler.stop();
}

/// Tells the daemon to end where an answer reports a fatal error.
pub fn signal_fatal_response<B, S>(ctx: &mut IdleDaemonContext<B, S>, response: &ControlResponse)
    ensures
        final(ctx)@ == (if response@.is_fatal() {
            old(ctx)@.ended_by(response@.message)
        } else {
            old(ctx)@
        }),
{
    if let Some(ErrorClass::Fatal) = response.error_context.error_class {
        signal_fatal(ctx, response.message.clone());
    }
}

/// What an operation is answered whose place was taken.
pub fn superseded_response<B, S>(ctx: &IdleDaemonContext<B, S>) -> (response: ControlResponse)
    ensures
        response@ == ctx@.superseded(),
{
    let status = idle_status_response(ctx);
    let daemon_state = status.lifecycle.daemon_state;
    let capture_state = status.lifecycle.capture_state;
    let message = if ctx.stop {
        "daemon is shutting down".to_string()
    } else {
        "capture operation was superseded".to_string()
    };
    ControlResponse::failure(
        message,
        status,
        Some(ErrorClass::Transient),
        daemon_state,
        capture_state,
    )
}

/// What an operation is answered that failed and changed nothing.
pub fn command_failure_without_state_mutation<B, S>(
    ctx: &IdleDaemonContext<B, S>,
    error: CaptureAttemptError,
) -> (response: ControlResponse)
    ensures
        response@ == ctx@.unchanged_failure(error@),
{
    let (daemon_state, capture_state) = if ctx.runtime_poisoned {
        (DaemonState::Degraded, CaptureState::Faulted)
    } else {
        (ctx.runtime.lifecycle.daemon_state, ctx.runtime.lifecycle.capture_state)
    };
    ControlResponse::failure(
        error.message,
        idle_status_response(ctx),
        Some(error.class),
        daemon_state,
        capture_state,
    )
}

/// What an operation is answered that failed for good.
pub fn fatal_failure_response<B, S>(ctx: &IdleDaemonContext<B, S>, message: String) -> (response:
    ControlResponse)
    ensures
        response@ == ctx@.fatal_failure(message@),
{
    let status = idle_status_response(ctx);
    let daemon_state = status.lifecycle.daemon_state;
    let capture_state = status.lifecycle.capture_state;
    ControlResponse::failure(message, status, Some(ErrorClass::Fatal), daemon_state, capture_state)
}

/// What an operation is answered whose failure is now part of the state.
pub fn current_failure_response<B, S>(ctx: &IdleDaemonContext<B, S>) -> (response: ControlResponse)
    ensures
        response@ == ctx@.current_failure(),
{
    if ctx.runtime_poisoned {
        return ControlResponse::failure(
            "runtime state lock poisoned".to_string(),
            idle_status_response(ctx),
            Some(ErrorClass::Permanent),
            DaemonState::Degraded,
            CaptureState::Faulted,
        );
    }
    let lifecycle = &ctx.runtime.lifecycle;
    let message = match &lifecycle.last_error {
        Some(message) => message.clone(),
        None => "capture command failed".to_string(),
    };
    ControlResponse::failure(
        message,
        idle_status_response(ctx),
        lifecycle.error_class,
        lifecycle.daemon_state,
        lifecycle.capture_state,
    )
}

/// Takes the capture out of a state that someone failed on.
fn clean_poison<B, S>(ctx: &mut IdleDaemonContext<B, S>) -> (released: Released<B, S>)
    ensures
        released == old(ctx)@.poison_releases(),
        final(ctx)@ == old(ctx)@.cleaned(),
{
    if ctx.runtime_poisoned {
        let released = take_active_capture(&mut ctx.runtime);
        ctx.runtime_poisoned = false;
        released
    } else {
        nothing_released()
    }
}

/// Writes a failed attempt into the state under the generation that the
/// lifecycle has, and plans the retry or drops what was planned.
fn publish_failure<B, S>(
    ctx: &mut IdleDaemonContext<B, S>,
    error: CaptureAttemptError,
    now: RetryInstant,
) -> (released: Released<B, S>)
    requires
        error.class != ErrorClass::Fatal,
    ensures
        released == old(ctx)@.poison_releases(),
        final(ctx)@ == old(ctx)@.published(error@, now),
{
    let class = error.class;
    let released = clean_poison(ctx);
    let _ = apply_capture_attempt_error_to_state(&mut ctx.runtime, error, now);
    let generation = ctx.runtime.lifecycle.generation;
    if class == ErrorClass::Transient {
        if let Some(due) = ctx.runtime.lifecycle.next_retry_at {
            ctx.scheduler.schedule_retry(generation, due);
        }
    } else {
        ctx.scheduler.invalidate(generation);
    }
    released
}

/// Makes the failed attempt of an operation that carries no generation of its
/// own part of the state.
pub fn command_attempt_failure<B, S>(
    ctx: &mut IdleDaemonContext<B, S>,
    token: u64,
    error: CaptureAttemptError,
    preserve_running: bool,
    now: RetryInstant,
) -> (outcome: (ControlResponse, Released<B, S>))
    ensures
        (final(ctx)@, outcome.0@, outcome.1) == old(ctx)@.failed_command(
            token,
            None,
            error@,
            preserve_running,
            now,
        ),
{
    command_attempt_failure_with_generation(ctx, token, None, error, preserve_running, now)
}

/// Makes the failed attempt of an operation part of the state, unless another
/// operation has taken its place. Where asked to, a running capture is left
/// alone and only the client hears of the failure.
pub fn command_attempt_failure_with_generation<B, S>(
    ctx: &mut IdleDaemonContext<B, S>,
    token: u64,
    operation_generation: Option<u64>,
    error: CaptureAttemptError,
    preserve_running: bool,
    now: RetryInstant,
) -> (outcome: (ControlResponse, Released<B, S>))
    ensures
        (final(ctx)@, outcome.0@, outcome.1) == old(ctx)@.failed_command(
            token,
            operation_generation,
            error@,
            preserve_running,
            now,
        ),
{
    if !operation_is_current(ctx, token) {
        return (superseded_response(ctx), nothing_released());
    }
    if error.class == ErrorClass::Fatal {
        let message = error.message;
        signal_fatal(ctx, message.clone());
        return (fatal_failure_response(ctx, message), nothing_released());
    }
    if preserve_running && current_capture_is_running(ctx) {
        return (command_failure_without_state_mutation(ctx, error), nothing_released());
    }
    if let Some(generation) = operation_generation {
        if ctx.runtime.lifecycle.generation != generation {
            ctx.runtime_poisoned = false;
            return (superseded_response(ctx), nothing_released());
        }
    } else if ctx.runtime.lifecycle.begin_operation().is_err() {
        if !ctx.runtime_poisoned {
            return (superseded_response(ctx), nothing_released());
        }
        let released = clean_poison(ctx);
        let message =
            "operation generation overflow while recovering poisoned runtime".to_string();
        signal_fatal(ctx, message.clone());
        return (fatal_failure_response(ctx, message), released);
    }
    let released = publish_failure(ctx, error, now);
    (current_failure_response(ctx), released)
}

/// Makes a failed attempt part of the state that no command waits for.
pub fn publish_capture_attempt_error<B, S>(
    ctx: &mut IdleDaemonContext<B, S>,
    error: CaptureAttemptError,
    now: RetryInstant,
) -> (released: Released<B, S>)
    ensures
        (final(ctx)@, released) == old(ctx)@.failed_attempt(error@, now),
{
    if error.class == ErrorClass::Fatal {
        signal_fatal(ctx, error.message);
        return nothing_released();
    }
    match ctx.runtime.lifecycle.begin_operation() {
        Ok(_) => publish_failure(ctx, error, now),
        Err(refusal) => {
            let released = clean_poison(ctx);
            signal_fatal(ctx, refusal.to_text());
            released
        },
    }
}

impl LifecycleView {
    /// Whether an operation may publish its result: its own generation is still
    /// the last, or it has none and a new one may begin.
    pub open spec fn publishes(self, operation_generation: Option<u64>) -> bool {
        match operation_generation {
            Some(generation) => self.generation == generation,
            None => self.admits_operation(),
        }
    }

    /// The lifecycle under whose generation an operation publishes its result.
    pub open spec fn publishing(self, operation_generation: Option<u64>) -> LifecycleView {
        match operation_generation {
            Some(_) => self,
            None => self.next_operation(),
        }
    }
}

/// The generation under which an operation publishes its result: its own, where
/// that is still the last, or a new one.
pub fn publication_generation(
    lifecycle: &mut LifecycleState,
    operation_generation: Option<u64>,
) -> (generation: Result<u64, LambError>)
    ensures
        generation is Ok <==> old(lifecycle)@.publishes(operation_generation),
        match generation {
            Ok(generation) => {
                &&& final(lifecycle)@ == old(lifecycle)@.publishing(operation_generation)
                &&& generation == final(lifecycle).generation
            },
            Err(error) => {
                &&& *final(lifecycle) == *old(lifecycle)
                &&& error@ == (if operation_generation is Some {
                    ErrorView::Control("capture operation superseded"@)
                } else {
                    old(lifecycle)@.refusal()
                })
            },
        },
{
    match operation_generation {
        Some(generation) => {
            if lifecycle.generation == generation {
                Ok(generation)
            } else {
                Err(LambError::Control("capture operation superseded".to_string()))
            }
        },
        None => lifecycle.begin_operation(),
    }
}

/// The sink for the faults of a capture that an operation is about to start: it
/// carries the generation under which the capture would be published.
pub fn runtime_fault_sink_for_attempt<B, S>(
    ctx: &mut IdleDaemonContext<B, S>,
    operation_generation: Option<u64>,
) -> (sink: Result<RuntimeFaultSink, CaptureAttemptError>)
    ensures
        match sink {
            Ok(sink) => {
                &&& old(ctx)@.sink_refusal(operation_generation) is None
                &&& sink == old(ctx)@.next_sink(operation_generation)
                &&& final(ctx)@ == old(ctx)@.with_next_attempt()
            },
            Err(error) => {
                &&& old(ctx)@.sink_refusal(operation_generation) == Some(error@)
                &&& *final(ctx) == *old(ctx)
            },
        },
{
    let generation: u64 = match operation_generation {
        Some(generation) => generation,
        None => match ctx.runtime.lifecycle.generation.checked_add(1) {
            Some(generation) => generation,
            None => {
                return Err(CaptureAttemptError::fatal("capture generation overflow".to_string()));
            },
        },
    };
    match allocate_capture_attempt_id(ctx) {
        Ok(attempt_id) => Ok(ctx.scheduler.fault_sink(generation, attempt_id)),
        Err(error) => Err(error),
    }
}

impl<B, S> ContextView<B, S> {
    /// Why no attempt can be started, if none can.
    pub open spec fn sink_refusal(self, operation_generation: Option<u64>) -> Option<
        AttemptErrorView,
    > {
        if operation_generation is None && self.runtime.lifecycle.generation == u64::MAX {
            Some(AttemptErrorView::fatal("capture generation overflow"@))
        } else if self.attempts == u64::MAX {
            Some(AttemptErrorView::fatal("capture attempt identity overflow"@))
        } else {
            None
        }
    }

    /// The sink of the next attempt.
    pub open spec fn next_sink(self, operation_generation: Option<u64>) -> RuntimeFaultSink {
        RuntimeFaultSink::Bound {
            generation: match operation_generation {
                Some(generation) => generation,
                None => (self.runtime.lifecycle.generation + 1) as u64,
            },
            attempt_id: CaptureAttemptId { raw: (self.attempts + 1) as u64 },
        }
    }

    /// The context after the next attempt got its identity.
    pub open spec fn with_next_attempt(self) -> ContextView<B, S> {
        ContextView { attempts: (self.attempts + 1) as u64, ..self }
    }
}

} // verus!
