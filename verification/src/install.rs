//! The transaction that brings a prepared configuration into use: it starts the
//! capture that the configuration asks for, and swaps it in for the one that
//! runs, in steps between which the caller does the work outside.
//!
//! Every step first asks whether its operation is still the current one. What a
//! step lets go of is handed back, in the order in which it is to be dropped.

use crate::attempt::{
    classify_legacy_attempt_error, AttemptErrorView, CaptureAttemptError,
};
use crate::control::{idle_status_response, ControlResponse, ResponseView};
use crate::error::{ErrorView, LambError};
use crate::lifecycle::{CaptureState, ErrorClass, RetryInstant};
use crate::model::{
    take_active_capture, ActiveCapture, AppRuntimeState, ConfigFamily, ContextView,
    IdleDaemonContext, LoadedAppConfig, PreparedBootstrap, PreparedLegacyConfig, Released, RunState,
    RuntimeView,
};
use crate::operations::{
    command_attempt_failure, command_attempt_failure_with_generation, nothing_released,
    operation_is_current, publication_generation, runtime_fault_sink_for_attempt,
    superseded_response,
};
use crate::scheduler::RuntimeFaultSink;
use crate::text::{copy_text, decimal, join, render_decimal, text_of};
use vstd::prelude::*;

verus! {

/// What a configuration is brought into use for: the operation, whether the
/// capture before it was let go of already, whether capture starts whatever the
/// configuration says, and whether the choice of profile is written down.
#[derive(Debug, Clone, Copy, PartialEq, Eq, Structural)]
pub struct InstallRequest {
    pub token: u64,
    pub operation_generation: Option<u64>,
    pub old_already_detached: bool,
    pub force_start: bool,
    pub activate: bool,
}

/// The end of a transaction: what the client is answered, and what is to be
/// dropped, in order.
#[derive(Debug)]
pub struct Completion<B, S> {
    pub response: ControlResponse,
    pub released: Vec<Released<B, S>>,
}

impl<B, S> Completion<B, S> {
    /// Whether this is the given answer with the given things to drop.
    pub open spec fn is(self, response: ResponseView, released: Seq<Released<B, S>>) -> bool {
        &&& self.response@ == response
        &&& self.released@ == released
    }
}

/// What comes first when a configuration is brought into use.
#[derive(Debug)]
pub enum InstallStep<B, S> {
    Done(Completion<B, S>),
    /// Start the capture of the older format, which reports its faults to the
    /// sink.
    StartLegacy { prepared: PreparedLegacyConfig, sink: RuntimeFaultSink },
    /// Apply the profile-based configuration to an empty state. The mode that
    /// the configuration itself names is kept aside.
    BuildApp { loaded: LoadedAppConfig, configured_start_mode: String, sink: RuntimeFaultSink },
}

/// What follows once a capture of the older format was started.
#[derive(Debug)]
pub enum LegacyStep<B, S> {
    Done(Completion<B, S>),
    /// Recover what the session of the capture finds unfinished.
    Recover(ActiveCapture<B, S>),
}

/// What follows once a profile-based configuration was applied.
#[derive(Debug)]
pub enum AppStep<B, S> {
    Done(Completion<B, S>),
    /// Write the configuration down. Nothing else may begin meanwhile.
    Save(AppRuntimeState<B, S>),
    /// Swap the state in.
    Publish(AppRuntimeState<B, S>),
}

/// The end of a transaction that lets go of one capture, or of none.
pub(crate) fn completion<B, S>(response: ControlResponse, released: Released<B, S>) -> (done:
    Completion<B, S>)
    ensures
        done.is(response@, seq![released]),
{
    let mut all: Vec<Released<B, S>> = Vec::new();
    all.push(released);
    proof {
        assert(all@ =~= seq![released]);
    }
    Completion { response, released: all }
}

fn completion_of_two<B, S>(
    response: ControlResponse,
    first: Released<B, S>,
    second: Released<B, S>,
) -> (done: Completion<B, S>)
    ensures
        done.is(response@, seq![first, second]),
{
    let mut all: Vec<Released<B, S>> = Vec::new();
    all.push(first);
    all.push(second);
    proof {
        assert(all@ =~= seq![first, second]);
    }
    Completion { response, released: all }
}

fn bare_completion<B, S>(response: ControlResponse) -> (done: Completion<B, S>)
    ensures
        done.is(response@, seq![]),
{
    let all: Vec<Released<B, S>> = Vec::new();
    proof {
        assert(all@ =~= seq![]);
    }
    Completion { response, released: all }
}

impl LoadedAppConfig {
    /// Whether this is the given configuration, told to start capture where
    /// that is forced.
    pub open spec fn is_for(self, loaded: LoadedAppConfig, force_start: bool) -> bool {
        &&& self.config.profiles == loaded.config.profiles
        &&& self.config.daemon.active_profile == loaded.config.daemon.active_profile
        &&& self.config.daemon.control_socket_path == loaded.config.daemon.control_socket_path
        &&& self.config.daemon.start_mode@ == if force_start {
            "auto"@
        } else {
            loaded.config.daemon.start_mode@
        }
        &&& self.state == loaded.state
        &&& self.error == loaded.error
    }
}

impl<B, S> ContextView<B, S> {
    /// The failure of a step, which leaves a running capture alone unless it was
    /// let go of already.
    pub open spec fn failed_install(
        self,
        request: InstallRequest,
        error: AttemptErrorView,
        now: RetryInstant,
    ) -> (ContextView<B, S>, ResponseView, Released<B, S>) {
        self.failed_command(
            request.token,
            request.operation_generation,
            error,
            !request.old_already_detached,
            now,
        )
    }

    /// The context once the health record of its capture is armed.
    pub open spec fn armed(self) -> ContextView<B, S> {
        match self.runtime.capture_health {
            Some(health) => ContextView {
                runtime: RuntimeView { capture_health: Some(health.armed()), ..self.runtime },
                scheduler: health.armed_scheduler(self.scheduler),
                ..self
            },
            None => self,
        }
    }

    /// What is let go of when a new capture is swapped in.
    pub open spec fn replaced(self, request: InstallRequest) -> Released<B, S> {
        if request.old_already_detached && !self.runtime_poisoned {
            Released { backend: None, session: None }
        } else {
            self.runtime.held()
        }
    }

    /// The context once the given state took the place of its own, and work of
    /// older generations was dropped.
    pub open spec fn installed(self, runtime: RuntimeView<B, S>) -> ContextView<B, S> {
        ContextView {
            runtime,
            runtime_poisoned: false,
            scheduler: self.scheduler.invalidated(runtime.lifecycle.generation),
            ..self
        }.armed()
    }

    /// The state of a running capture of the older format.
    pub open spec fn running_legacy(
        self,
        request: InstallRequest,
        prepared: PreparedLegacyConfig,
        active: ActiveCapture<B, S>,
    ) -> RuntimeView<B, S> {
        RuntimeView {
            config: self.runtime.config,
            config_family: ConfigFamily::Legacy,
            prepared_legacy: Some(prepared),
            resolved_capture: Some(active.resolved),
            lifecycle: self.runtime.lifecycle.publishing(request.operation_generation).running(
                None,
                text_of(active.resolved.resolved_target),
            ),
            state: RunState::Capturing,
            last_error: None,
            config_load_error: None,
            active_profile: None,
            capture: Some(active.backend),
            capture_health: active.health,
            session: Some(active.session),
        }
    }

    /// What swapping in a started capture of the older format makes of the
    /// context, what the client is answered, and what is dropped.
    pub open spec fn legacy_published(
        self,
        request: InstallRequest,
        prepared: PreparedLegacyConfig,
        active: ActiveCapture<B, S>,
    ) -> (ContextView<B, S>, ResponseView, Seq<Released<B, S>>) {
        if !self.is_current(request.token) {
            (self, self.superseded(), seq![active.held()])
        } else if !self.runtime.lifecycle.publishes(request.operation_generation) {
            (self.unpoisoned(), self.unpoisoned().superseded(), seq![active.held()])
        } else {
            let after = self.installed(self.running_legacy(request, prepared, active));
            (
                after,
                ResponseView::plain(true, "config reloaded"@, after.status()),
                seq![self.replaced(request)],
            )
        }
    }

    /// What swapping in a state built from a profile-based configuration makes
    /// of the context, what the client is answered, and what is dropped.
    pub open spec fn app_published(
        self,
        request: InstallRequest,
        candidate: RuntimeView<B, S>,
    ) -> (ContextView<B, S>, ResponseView, Seq<Released<B, S>>) {
        if !self.is_current(request.token) {
            (self, self.superseded(), seq![candidate.held()])
        } else if !self.runtime.lifecycle.publishes(request.operation_generation) {
            (self.unpoisoned(), self.unpoisoned().superseded(), seq![candidate.held()])
        } else {
            let generation = self.runtime.lifecycle.publishing(
                request.operation_generation,
            ).generation;
            let after = self.installed(candidate.at_generation(generation));
            (
                after,
                ResponseView::plain(true, "config reloaded"@, after.status()),
                seq![self.replaced(request)],
            )
        }
    }
}

impl<B, S> RuntimeView<B, S> {
    /// The same state under another generation.
    pub open spec fn at_generation(self, generation: u64) -> RuntimeView<B, S> {
        RuntimeView {
            lifecycle: crate::lifecycle::LifecycleView { generation, ..self.lifecycle },
            ..self
        }
    }

    /// The failed attempt that a state tells of which neither captures nor rests.
    pub open spec fn start_failure(self) -> AttemptErrorView {
        AttemptErrorView {
            class: match self.lifecycle.error_class {
                Some(class) => class,
                None => ErrorClass::Transient,
            },
            capture_state: self.lifecycle.capture_state,
            message: match self.lifecycle.last_error {
                Some(message) => message,
                None => "capture start failed"@,
            },
        }
    }

    /// Whether the state captures or rests.
    pub open spec fn settled(self) -> bool {
        self.lifecycle.capture_state == CaptureState::Running || self.lifecycle.capture_state
            == CaptureState::Stopped
    }
}

/// The error that a recovery leaves which found the given number of transactions
/// it could not finish.
pub open spec fn recovery_error(kind: Seq<char>, failed: nat) -> ErrorView {
    ErrorView::Control(kind + " startup recovery failed for "@ + decimal(failed) + " transaction(s)"@)
}

/// What a recovery amounts to: the error it met, or the one it leaves.
pub open spec fn recovery_verdict(kind: Seq<char>, recovery: Result<u64, LambError>) -> Option<
    ErrorView,
> {
    match recovery {
        Err(error) => Some(error@),
        Ok(failed) => if failed == 0 {
            None
        } else {
            Some(recovery_error(kind, failed as nat))
        },
    }
}

/// Judges a recovery: it failed where it met an error, or left a transaction
/// unfinished.
pub fn judge_recovery(kind: &str, recovery: Result<u64, LambError>) -> (judged: Result<
    (),
    LambError,
>)
    ensures
        match judged {
            Ok(()) => recovery_verdict(kind@, recovery) is None,
            Err(error) => recovery_verdict(kind@, recovery) == Some(error@),
        },
{
    match recovery {
        Err(error) => Err(error),
        Ok(failed) => {
            if failed == 0 {
                Ok(())
            } else {
                let mut message = join(kind, " startup recovery failed for ");
                let number = render_decimal(failed);
                message = join(message.as_str(), number.as_str());
                message = join(message.as_str(), " transaction(s)");
                Err(LambError::Control(message))
            }
        },
    }
}

/// Begins to bring a prepared configuration into use.
pub fn begin_install<B, S>(
    ctx: &mut IdleDaemonContext<B, S>,
    request: InstallRequest,
    prepared: PreparedBootstrap,
    now: RetryInstant,
) -> (step: InstallStep<B, S>)
    ensures
        ({
            let before = old(ctx)@;
            let refusal = before.sink_refusal(request.operation_generation);
            if !before.is_current(request.token) {
                &&& final(ctx)@ == before
                &&& step is Done
                &&& step->Done_0.is(before.superseded(), seq![])
            } else if prepared is Faulted || refusal is Some {
                let error = match prepared {
                    PreparedBootstrap::Faulted { message, .. } => AttemptErrorView::permanent(
                        message@,
                    ),
                    _ => refusal->0,
                };
                let failed = before.failed_install(request, error, now);
                &&& final(ctx)@ == failed.0
                &&& step is Done
                &&& step->Done_0.is(failed.1, seq![failed.2])
            } else {
                &&& final(ctx)@ == before.with_next_attempt()
                &&& match prepared {
                    PreparedBootstrap::Legacy(config) => step == (InstallStep::<
                        B,
                        S,
                    >::StartLegacy {
                        prepared: config,
                        sink: before.next_sink(request.operation_generation),
                    }),
                    PreparedBootstrap::App(loaded) => {
                        &&& step is BuildApp
                        &&& step->BuildApp_loaded.is_for(loaded, request.force_start)
                        &&& step->configured_start_mode@ == loaded.config.daemon.start_mode@
                        &&& step->BuildApp_sink == before.next_sink(request.operation_generation)
                    },
                    PreparedBootstrap::Faulted { .. } => false,
                }
            }
        }),
{
    if !operation_is_current(ctx, request.token) {
        return InstallStep::Done(bare_completion(superseded_response(ctx)));
    }
    match prepared {
        PreparedBootstrap::Legacy(prepared) => {
            match runtime_fault_sink_for_attempt(ctx, request.operation_generation) {
                Ok(sink) => InstallStep::StartLegacy { prepared, sink },
                Err(error) => InstallStep::Done(fail_install(ctx, request, error, now)),
            }
        },
        PreparedBootstrap::App(loaded) => {
            let mut loaded = loaded;
            let configured_start_mode = loaded.config.daemon.start_mode.clone();
            if request.force_start {
                loaded.config.daemon.start_mode = "auto".to_string();
            }
            match runtime_fault_sink_for_attempt(ctx, request.operation_generation) {
                Ok(sink) => InstallStep::BuildApp { loaded, configured_start_mode, sink },
                Err(error) => InstallStep::Done(fail_install(ctx, request, error, now)),
            }
        },
        PreparedBootstrap::Faulted { message, .. } => InstallStep::Done(
            fail_install(ctx, request, CaptureAttemptError::permanent(message), now),
        ),
    }
}

fn fail_install<B, S>(
    ctx: &mut IdleDaemonContext<B, S>,
    request: InstallRequest,
    error: CaptureAttemptError,
    now: RetryInstant,
) -> (done: Completion<B, S>)
    ensures
        ({
            let failed = old(ctx)@.failed_install(request, error@, now);
            &&& final(ctx)@ == failed.0
            &&& done.is(failed.1, seq![failed.2])
        }),
{
    let (response, released) = command_attempt_failure_with_generation(
        ctx,
        request.token,
        request.operation_generation,
        error,
        !request.old_already_detached,
        now,
    );
    completion(response, released)
}

/// Gives up what was built so far, then makes the failure part of the state.
fn fail_install_releasing<B, S>(
    ctx: &mut IdleDaemonContext<B, S>,
    request: InstallRequest,
    given_up: Released<B, S>,
    error: CaptureAttemptError,
    now: RetryInstant,
) -> (done: Completion<B, S>)
    ensures
        ({
            let failed = old(ctx)@.failed_install(request, error@, now);
            &&& final(ctx)@ == failed.0
            &&& done.is(failed.1, seq![given_up, failed.2])
        }),
{
    let (response, released) = command_attempt_failure_with_generation(
        ctx,
        request.token,
        request.operation_generation,
        error,
        !request.old_already_detached,
        now,
    );
    completion_of_two(response, given_up, released)
}

/// Takes the outcome of starting a capture of the older format.
pub fn legacy_started<B, S>(
    ctx: &mut IdleDaemonContext<B, S>,
    request: InstallRequest,
    outcome: Result<ActiveCapture<B, S>, CaptureAttemptError>,
    now: RetryInstant,
) -> (step: LegacyStep<B, S>)
    ensures
        match outcome {
            Err(error) => {
                let failed = old(ctx)@.failed_install(request, error@, now);
                &&& final(ctx)@ == failed.0
                &&& step is Done
                &&& step->Done_0.is(failed.1, seq![failed.2])
            },
            Ok(active) => {
                &&& final(ctx)@ == old(ctx)@
                &&& if old(ctx)@.is_current(request.token) {
                    step == LegacyStep::<B, S>::Recover(active)
                } else {
                    &&& step is Done
                    &&& step->Done_0.is(old(ctx)@.superseded(), seq![active.held()])
                }
            },
        },
{
    match outcome {
        Err(error) => LegacyStep::Done(fail_install(ctx, request, error, now)),
        Ok(active) => {
            if operation_is_current(ctx, request.token) {
                LegacyStep::Recover(active)
            } else {
                LegacyStep::Done(completion(superseded_response(ctx), active.release()))
            }
        },
    }
}

/// Takes the outcome of the recovery that follows the start of a capture of the
/// older format, and swaps the capture in where all went well.
pub fn legacy_recovered<B, S>(
    ctx: &mut IdleDaemonContext<B, S>,
    request: InstallRequest,
    prepared: PreparedLegacyConfig,
    active: ActiveCapture<B, S>,
    recovery: Result<u64, LambError>,
    now: RetryInstant,
) -> (done: Completion<B, S>)
    ensures
        match recovery_verdict("legacy"@, recovery) {
            Some(error) => {
                let failed = old(ctx)@.failed_install(request, error.attempt_error(), now);
                &&& final(ctx)@ == failed.0
                &&& done.is(failed.1, seq![active.held(), failed.2])
            },
            None => {
                let published = old(ctx)@.legacy_published(request, prepared, active);
                &&& final(ctx)@ == published.0
                &&& done.is(published.1, published.2)
            },
        },
{
    if let Err(error) = judge_recovery("legacy", recovery) {
        return fail_install_releasing(
            ctx,
            request,
            active.release(),
            classify_legacy_attempt_error(error),
            now,
        );
    }
    if !operation_is_current(ctx, request.token) {
        return completion(superseded_response(ctx), active.release());
    }
    let recovered_poison = ctx.runtime_poisoned;
    let published = publication_generation(&mut ctx.runtime.lifecycle, request.operation_generation);
    ctx.runtime_poisoned = false;
    let generation: u64 = match published {
        Ok(generation) => generation,
        Err(_) => {
            return completion(superseded_response(ctx), active.release());
        },
    };
    let old = if request.old_already_detached && !recovered_poison {
        nothing_released()
    } else {
        take_active_capture(&mut ctx.runtime)
    };
    let target = copy_text(&active.resolved.resolved_target);
    ctx.runtime.capture_health = active.health;
    ctx.runtime.config_family = ConfigFamily::Legacy;
    ctx.runtime.prepared_legacy = Some(prepared);
    ctx.runtime.active_profile = None;
    ctx.runtime.capture = Some(active.backend);
    ctx.runtime.session = Some(active.session);
    ctx.runtime.resolved_capture = Some(active.resolved);
    ctx.runtime.state = RunState::Capturing;
    ctx.runtime.last_error = None;
    ctx.runtime.config_load_error = None;
    ctx.runtime.lifecycle.mark_running(None, target);
    ctx.scheduler.invalidate(generation);
    arm_capture(ctx);
    let response = ControlResponse::plain(
        true,
        "config reloaded".to_string(),
        idle_status_response(ctx),
    );
    completion(response, old)
}

/// Arms the health record of the capture.
pub(crate) fn arm_capture<B, S>(ctx: &mut IdleDaemonContext<B, S>)
    ensures
        final(ctx)@ == old(ctx)@.armed(),
{
    if let Some(mut health) = ctx.runtime.capture_health.take() {
        health.arm(&mut ctx.scheduler);
        ctx.runtime.capture_health = Some(health);
    }
}

/// Takes the outcome of applying a profile-based configuration to an empty
/// state. Where that failed, `given_up` is what had been built by then.
pub fn app_candidate_failed<B, S>(
    ctx: &mut IdleDaemonContext<B, S>,
    request: InstallRequest,
    given_up: Released<B, S>,
    error: LambError,
    now: RetryInstant,
) -> (done: Completion<B, S>)
    ensures
        ({
            let failed = old(ctx)@.failed_command(
                request.token,
                None,
                error@.attempt_error(),
                !request.old_already_detached,
                now,
            );
            &&& final(ctx)@ == failed.0
            &&& done.is(failed.1, seq![given_up, failed.2])
        }),
{
    let (response, released) = command_attempt_failure(
        ctx,
        request.token,
        classify_legacy_attempt_error(error),
        !request.old_already_detached,
        now,
    );
    completion_of_two(response, given_up, released)
}

/// Takes a state that a profile-based configuration was applied to. Where it
/// neither captures nor rests, it tells of a failed attempt, and is given up.
pub fn app_candidate_built<B, S>(
    ctx: &mut IdleDaemonContext<B, S>,
    request: InstallRequest,
    candidate: AppRuntimeState<B, S>,
    configured_start_mode: String,
    now: RetryInstant,
) -> (step: AppStep<B, S>)
    ensures
        ({
            let before = old(ctx)@;
            if !before.is_current(request.token) {
                &&& final(ctx)@ == before
                &&& step is Done
                &&& step->Done_0.is(before.superseded(), seq![candidate@.held()])
            } else if !candidate@.settled() {
                let failed = before.failed_install(request, candidate@.start_failure(), now);
                &&& final(ctx)@ == failed.0
                &&& step is Done
                &&& step->Done_0.is(failed.1, seq![candidate@.held(), failed.2])
            } else {
                &&& final(ctx)@ == before
                &&& match step {
                    AppStep::Save(kept) => request.activate && kept.is_restored(
                        candidate,
                        configured_start_mode,
                    ),
                    AppStep::Publish(kept) => !request.activate && kept.is_restored(
                        candidate,
                        configured_start_mode,
                    ),
                    AppStep::Done(_) => false,
                }
            }
        }),
{
    let mut candidate = candidate;
    candidate.config.daemon.start_mode = configured_start_mode;
    if !operation_is_current(ctx, request.token) {
        let held = take_active_capture(&mut candidate);
        return AppStep::Done(completion(superseded_response(ctx), held));
    }
    let capture_state = candidate.lifecycle.capture_state;
    if capture_state != CaptureState::Running && capture_state != CaptureState::Stopped {
        let class = match candidate.lifecycle.error_class {
            Some(class) => class,
            None => ErrorClass::Transient,
        };
        let message = match &candidate.lifecycle.last_error {
            Some(message) => message.clone(),
            None => "capture start failed".to_string(),
        };
        let error = CaptureAttemptError { class, capture_state, message };
        let held = take_active_capture(&mut candidate);
        return AppStep::Done(fail_install_releasing(ctx, request, held, error, now));
    }
    if request.activate {
        AppStep::Save(candidate)
    } else {
        AppStep::Publish(candidate)
    }
}

impl<B, S> AppRuntimeState<B, S> {
    /// Whether this is the given state with its configured start mode put back.
    pub open spec fn is_restored(self, built: AppRuntimeState<B, S>, start_mode: String) -> bool {
        &&& self.config.daemon.start_mode == start_mode
        &&& self.config.daemon.active_profile == built.config.daemon.active_profile
        &&& self.config.daemon.control_socket_path == built.config.daemon.control_socket_path
        &&& self.config.profiles == built.config.profiles
        &&& self@ == (RuntimeView { config: self.config, ..built@ })
    }
}

/// Takes the outcome of writing the configuration down, and swaps the state in
/// where it was written.
pub fn app_config_saved<B, S>(
    ctx: &mut IdleDaemonContext<B, S>,
    request: InstallRequest,
    candidate: AppRuntimeState<B, S>,
    saved: Result<(), LambError>,
    now: RetryInstant,
) -> (done: Completion<B, S>)
    ensures
        match saved {
            Err(error) => {
                let failed = old(ctx)@.failed_install(request, error@.attempt_error(), now);
                &&& final(ctx)@ == failed.0
                &&& done.is(failed.1, seq![candidate@.held(), failed.2])
            },
            Ok(()) => {
                let published = old(ctx)@.app_published(request, candidate@);
                &&& final(ctx)@ == published.0
                &&& done.is(published.1, published.2)
            },
        },
{
    match saved {
        Ok(()) => publish_app_candidate(ctx, request, candidate),
        Err(error) => {
            let mut candidate = candidate;
            let held = take_active_capture(&mut candidate);
            fail_install_releasing(ctx, request, held, classify_legacy_attempt_error(error), now)
        },
    }
}

/// Swaps in a state built from a profile-based configuration.
pub fn publish_app_candidate<B, S>(
    ctx: &mut IdleDaemonContext<B, S>,
    request: InstallRequest,
    candidate: AppRuntimeState<B, S>,
) -> (done: Completion<B, S>)
    ensures
        ({
            let published = old(ctx)@.app_published(request, candidate@);
            &&& final(ctx)@ == published.0
            &&& done.is(published.1, published.2)
        }),
{
    let mut candidate = candidate;
    if !operation_is_current(ctx, request.token) {
        let held = take_active_capture(&mut candidate);
        return completion(superseded_response(ctx), held);
    }
    let recovered_poison = ctx.runtime_poisoned;
    let published = publication_generation(&mut ctx.runtime.lifecycle, request.operation_generation);
    ctx.runtime_poisoned = false;
    let generation: u64 = match published {
        Ok(generation) => generation,
        Err(_) => {
            let held = take_active_capture(&mut candidate);
            return completion(superseded_response(ctx), held);
        },
    };
    let old = if request.old_already_detached && !recovered_poison {
        nothing_released()
    } else {
        take_active_capture(&mut ctx.runtime)
    };
    candidate.lifecycle.generation = generation;
    ctx.runtime = candidate;
    ctx.scheduler.invalidate(generation);
    arm_capture(ctx);
    let response = ControlResponse::plain(
        true,
        "config reloaded".to_string(),
        idle_status_response(ctx),
    );
    completion(response, old)
}

} // verus!
