//! Applying a profile-based configuration to a state: from the configuration as
//! it was loaded to the capture that it asks for, in steps between which the
//! caller does the work outside.
//!
//! Each step is told whether the operation it belongs to is still current, and
//! ends the work where it is not. What was built by then is handed back.

use crate::attempt::{
    apply_capture_attempt_error_to_state, classify_legacy_attempt_error, AttemptErrorView,
    CaptureAttemptError,
};
use crate::config::ConfigView;
use crate::error::{ErrorView, LambError};
use crate::install::{judge_recovery, recovery_verdict};
use crate::lifecycle::{ErrorClass, RetryInstant};
use crate::model::{
    AppConfig, AppRuntimeState, CaptureSession, ConfigLoadState, LoadedAppConfig, Released,
    ResolvedExportPolicy, ResolvedProfile, RunState, RuntimeView,
};
use crate::session::PrivateAppCaptureAttempt;
use crate::text::{join, text_is};
use crate::threshold::{
    activity_in_effect, effective_activity, find_profile, names_agree, no_such_profile,
    policy_poison_error, report_error_is, report_is, reportable, rules_follow_ports,
    threshold_report, ChannelEvidence, DetectorVersions, ThresholdReport,
};
use vstd::prelude::*;

verus! {

/// What follows once a configuration was applied as far as that goes without a
/// capture.
#[derive(Debug)]
pub enum ApplyStep<B, S> {
    /// The configuration is applied, or the reason why it cannot be.
    Finished(Result<(), LambError>),
    /// Drop what was let go of, then start the capture of the active profile.
    StartCapture(Released<B, S>),
}

/// The error of an operation whose place was taken.
pub open spec fn superseded_error() -> ErrorView {
    ErrorView::Control("capture operation superseded"@)
}

/// Checks that the operation is still current.
pub fn checkpoint(current: bool) -> (passed: Result<(), LambError>)
    ensures
        match passed {
            Ok(()) => current,
            Err(error) => !current && error@ == superseded_error(),
        },
{
    if current {
        Ok(())
    } else {
        Err(LambError::Control("capture operation superseded".to_string()))
    }
}

impl LoadedAppConfig {
    /// The error about a configuration that was not loaded.
    pub open spec fn load_error(self, path: Seq<char>) -> Seq<char> {
        if self.state == ConfigLoadState::Invalid {
            match self.error {
                Some(error) => error@,
                None => "invalid config file: "@ + path,
            }
        } else {
            "config file not found: "@ + path
        }
    }
}

impl<B, S> RuntimeView<B, S> {
    /// The same state without a backend, a session and a health record.
    pub open spec fn without_capture(self) -> RuntimeView<B, S> {
        RuntimeView { capture: None, capture_health: None, session: None, ..self }
    }

    /// The state after a configuration was applied that was not loaded.
    pub open spec fn unloaded(self, config: AppConfig, error: Seq<char>) -> RuntimeView<B, S> {
        RuntimeView {
            config,
            state: RunState::Unconfigured,
            last_error: Some(error),
            config_load_error: Some(error),
            active_profile: None,
            lifecycle: self.lifecycle.permanent(error),
            ..self.without_capture()
        }
    }

    /// The state after a configuration was applied that names no active profile.
    pub open spec fn without_profile(self, config: AppConfig) -> RuntimeView<B, S> {
        RuntimeView {
            config,
            state: RunState::Unconfigured,
            last_error: Some("no active profile configured"@),
            config_load_error: None,
            active_profile: None,
            lifecycle: self.lifecycle.stopped(None),
            ..self.without_capture()
        }
    }

    /// The state after a configuration was applied whose active profile is
    /// started by hand.
    pub open spec fn at_rest(self, config: AppConfig, profile: ResolvedProfile) -> RuntimeView<
        B,
        S,
    > {
        RuntimeView {
            config,
            state: RunState::Idle,
            last_error: None,
            config_load_error: None,
            active_profile: Some(profile),
            lifecycle: self.lifecycle.stopped(Some(profile.name@)),
            ..self.without_capture()
        }
    }

    /// The state of a configuration whose active profile is about to be captured.
    pub open spec fn about_to_capture(
        self,
        config: AppConfig,
        profile: ResolvedProfile,
        begin_attempt_generation: bool,
    ) -> RuntimeView<B, S> {
        RuntimeView {
            config,
            active_profile: Some(profile),
            lifecycle: if begin_attempt_generation {
                self.lifecycle.next_operation()
            } else {
                self.lifecycle
            },
            ..self.without_capture()
        }
    }

    /// The state while the active profile is captured.
    pub open spec fn capturing(self, attempt: PrivateAppCaptureAttempt<B, S>) -> RuntimeView<B, S> {
        let name = self.active_profile->0.name@;
        RuntimeView {
            state: RunState::Capturing,
            last_error: None,
            config_load_error: None,
            capture_health: attempt.health,
            session: Some(attempt.session),
            capture: Some(attempt.backend),
            lifecycle: self.lifecycle.running(Some(name), Some(name)),
            ..self
        }
    }
}

fn unload<B, S>(state: &mut AppRuntimeState<B, S>, config: AppConfig, error: String)
    ensures
        final(state)@ == old(state)@.unloaded(config, error@),
{
    state.config = config;
    state.state = RunState::Unconfigured;
    state.last_error = Some(error.clone());
    state.config_load_error = Some(error.clone());
    state.active_profile = None;
    state.capture = None;
    state.capture_health = None;
    state.session = None;
    state.lifecycle.mark_permanent(error);
}

/// Applies a configuration as far as that goes without a capture. `active` is
/// the active profile that the configuration was found to name. A state that is
/// applied to for the first time begins an operation of its own.
pub fn begin_apply<B, S>(
    state: &mut AppRuntimeState<B, S>,
    loaded: LoadedAppConfig,
    active: Result<Option<ResolvedProfile>, LambError>,
    path: &String,
    begin_attempt_generation: bool,
    current: bool,
) -> (step: ApplyStep<B, S>)
    ensures
        ({
            let before = old(state)@;
            let config = loaded.config;
            if loaded.state != ConfigLoadState::Loaded {
                &&& final(state)@ == before.unloaded(config, loaded.load_error(path@))
                &&& step is Finished
                &&& step->Finished_0 is Ok
            } else {
                match active {
                    Err(error) => {
                        &&& final(state)@ == (RuntimeView { config, ..before })
                        &&& step == ApplyStep::<B, S>::Finished(Err(error))
                    },
                    Ok(None) => {
                        &&& final(state)@ == before.without_profile(config)
                        &&& step is Finished
                        &&& step->Finished_0 is Ok
                    },
                    Ok(Some(profile)) => if config.daemon.start_mode@ != "auto"@ {
                        &&& final(state)@ == before.at_rest(config, profile)
                        &&& step is Finished
                        &&& step->Finished_0 is Ok
                    } else if begin_attempt_generation && !before.lifecycle.admits_operation() {
                        &&& final(state)@ == (RuntimeView {
                            config,
                            active_profile: Some(profile),
                            ..before
                        })
                        &&& step is Finished
                        &&& step->Finished_0 is Err
                        &&& step->Finished_0->Err_0@ == before.lifecycle.refusal()
                    } else if !current {
                        &&& final(state)@ == (RuntimeView {
                            capture: before.capture,
                            capture_health: before.capture_health,
                            session: before.session,
                            ..before.about_to_capture(config, profile, begin_attempt_generation)
                        })
                        &&& step is Finished
                        &&& step->Finished_0 is Err
                        &&& step->Finished_0->Err_0@ == superseded_error()
                    } else {
                        &&& final(state)@ == before.about_to_capture(
                            config,
                            profile,
                            begin_attempt_generation,
                        )
                        &&& step == ApplyStep::<B, S>::StartCapture(before.held())
                    },
                }
            }
        }),
{
    match loaded.state {
        ConfigLoadState::Missing => {
            let error = join("config file not found: ", path.as_str());
            unload(state, loaded.config, error);
            return ApplyStep::Finished(Ok(()));
        },
        ConfigLoadState::Invalid => {
            let error = match loaded.error {
                Some(error) => error,
                None => join("invalid config file: ", path.as_str()),
            };
            unload(state, loaded.config, error);
            return ApplyStep::Finished(Ok(()));
        },
        ConfigLoadState::Loaded => {},
    }
    state.config = loaded.config;
    let profile = match active {
        Err(error) => {
            return ApplyStep::Finished(Err(error));
        },
        Ok(None) => {
            state.state = RunState::Unconfigured;
            state.last_error = Some("no active profile configured".to_string());
            state.config_load_error = None;
            state.active_profile = None;
            state.capture = None;
            state.capture_health = None;
            state.session = None;
            state.lifecycle.mark_stopped(None);
            return ApplyStep::Finished(Ok(()));
        },
        Ok(Some(profile)) => profile,
    };
    if !text_is(&state.config.daemon.start_mode, "auto") {
        let name = profile.name.clone();
        state.active_profile = Some(profile);
        state.state = RunState::Idle;
        state.last_error = None;
        state.config_load_error = None;
        state.capture = None;
        state.capture_health = None;
        state.session = None;
        state.lifecycle.mark_stopped(Some(name));
        return ApplyStep::Finished(Ok(()));
    }
    state.active_profile = Some(profile);
    if begin_attempt_generation {
        if let Err(error) = state.lifecycle.begin_operation() {
            return ApplyStep::Finished(Err(error));
        }
    }
    if let Err(error) = checkpoint(current) {
        return ApplyStep::Finished(Err(error));
    }
    let backend = state.capture.take();
    let session = state.session.take();
    state.capture_health = None;
    ApplyStep::StartCapture(Released { backend, session })
}

/// Which backend captures a profile.
#[derive(Debug, Clone, Copy, PartialEq, Eq, Structural)]
pub enum AppBackend {
    Jack,
    PipeWire,
}

/// The backend that a profile asks for, or why there is none.
pub open spec fn planned_backend(profile: ResolvedProfile) -> Result<AppBackend, ErrorView> {
    if profile.backend@ == "jack"@ {
        Ok(AppBackend::Jack)
    } else if profile.backend@ == "pipewire"@ {
        if profile.pipewire_config is Some {
            Ok(AppBackend::PipeWire)
        } else {
            Err(ErrorView::Validation("pipewire profile has no pipewire config"@))
        }
    } else {
        Err(ErrorView::Validation("unknown backend: "@ + profile.backend@))
    }
}

/// Tells which backend a profile asks for.
pub fn plan_app_backend(profile: &ResolvedProfile) -> (plan: Result<AppBackend, CaptureAttemptError>)
    ensures
        match plan {
            Ok(backend) => planned_backend(*profile) == Ok::<AppBackend, ErrorView>(backend),
            Err(error) => {
                &&& planned_backend(*profile) is Err
                &&& error@ == planned_backend(*profile)->Err_0.attempt_error()
            },
        },
{
    if text_is(&profile.backend, "jack") {
        return Ok(AppBackend::Jack);
    }
    let error = if text_is(&profile.backend, "pipewire") {
        if profile.pipewire_config.is_some() {
            return Ok(AppBackend::PipeWire);
        }
        LambError::Validation("pipewire profile has no pipewire config".to_string())
    } else {
        LambError::Validation(join("unknown backend: ", profile.backend.as_str()))
    };
    Err(classify_legacy_attempt_error(error))
}

/// Takes the failure to prepare the capture of a profile, before any backend was
/// asked for. It becomes part of the state, as the error of its configuration too;
/// one that ends the daemon is the result. Whether the operation is still current
/// is not asked any more.
pub fn app_prepare_failed<B, S>(
    state: &mut AppRuntimeState<B, S>,
    error: CaptureAttemptError,
    now: RetryInstant,
) -> (finished: Result<(), LambError>)
    ensures
        if error.class == ErrorClass::Fatal {
            &&& final(state)@ == old(state)@
            &&& finished is Err
            &&& finished->Err_0@ == ErrorView::DaemonFatal(error@.message)
        } else {
            &&& final(state)@ == old(state)@.failed(error@, now)
            &&& finished is Ok
        },
{
    match apply_capture_attempt_error_to_state(state, error, now) {
        Ok(()) => Ok(()),
        Err(error) => Err(LambError::DaemonFatal(error.message)),
    }
}

/// Takes the failure to start the capture of a profile. It becomes part of the
/// state; one that ends the daemon is the result.
pub fn app_start_failed<B, S>(
    state: &mut AppRuntimeState<B, S>,
    error: CaptureAttemptError,
    current: bool,
    now: RetryInstant,
) -> (finished: Result<(), LambError>)
    ensures
        ({
            let before = old(state)@;
            if !current {
                &&& final(state)@ == before
                &&& finished is Err
                &&& finished->Err_0@ == superseded_error()
            } else if error.class == ErrorClass::Fatal {
                &&& final(state)@ == (RuntimeView { capture_health: None, ..before })
                &&& finished is Err
                &&& finished->Err_0@ == ErrorView::DaemonFatal(error@.message)
            } else {
                &&& final(state)@ == (RuntimeView {
                    config_load_error: None,
                    ..(RuntimeView { capture_health: None, ..before }).failed(error@, now)
                })
                &&& finished is Ok
            }
        }),
{
    if let Err(error) = checkpoint(current) {
        return Err(error);
    }
    state.capture_health = None;
    match apply_capture_attempt_error_to_state(state, error, now) {
        Ok(()) => {
            state.config_load_error = None;
            Ok(())
        },
        Err(error) => Err(LambError::DaemonFatal(error.message)),
    }
}

/// Why the rules in effect for a new session cannot be told, if so.
pub open spec fn session_policy_error_is<S>(
    error: ErrorView,
    config: ConfigView,
    resolved: ResolvedProfile,
    session: CaptureSession<S>,
    evidence: Seq<ChannelEvidence>,
) -> bool {
    let name = resolved.name@;
    let can_report = reportable(
        config.profile(name),
        name,
        resolved,
        Some(resolved),
        Some(session),
        evidence,
    );
    if !config.has_profile(name) {
        error == no_such_profile(name)
    } else if !can_report {
        report_error_is(
            error,
            config.profile(name),
            name,
            resolved,
            Some(resolved),
            Some(session),
            evidence,
        )
    } else if resolved.export_policy.activity.channels@.len() != resolved.ports@.len() {
        error == ErrorView::ControlInvariant(
            "session"@ + " activity policy/report channel count changed"@,
        )
    } else if !rules_follow_ports(resolved) {
        error == ErrorView::ControlInvariant(
            "session"@ + " activity policy/report channel order changed"@,
        )
    } else {
        session.policy_poisoned && error == policy_poison_error()
    }
}

/// Whether these are the rules in effect for a session, by the report on the
/// thresholds of its profile.
pub open spec fn are_session_rules<S>(
    effective: CaptureSession<S>,
    config: ConfigView,
    resolved: ResolvedProfile,
    session: CaptureSession<S>,
    evidence: Seq<ChannelEvidence>,
    versions: DetectorVersions,
    now: u64,
) -> bool {
    let name = resolved.name@;
    &&& config.has_profile(name)
    &&& reportable(
        config.profile(name),
        name,
        resolved,
        Some(resolved),
        Some(session),
        evidence,
    )
    &&& rules_follow_ports(resolved)
    &&& resolved.export_policy.activity.channels@.len() == resolved.ports@.len()
    &&& !session.policy_poisoned
    &&& effective == (CaptureSession {
        policy: ResolvedExportPolicy { activity: effective.policy.activity, ..session.policy },
        ..session
    })
    &&& exists|report: ThresholdReport|
        {
            &&& #[trigger] report_is(
                report,
                config.profile(name),
                name,
                resolved,
                Some(resolved),
                Some(session),
                evidence,
                versions,
                now,
            )
            &&& activity_in_effect(
                effective.policy.activity,
                resolved.export_policy.activity,
                report.channels@,
            )
        }
}

/// Gives a new session the activity rules in effect: a channel whose threshold
/// does not count for its input has none.
pub fn install_effective_session_activity_policy<S>(
    config: &AppConfig,
    resolved: &ResolvedProfile,
    session: CaptureSession<S>,
    evidence: &Vec<ChannelEvidence>,
    versions: &DetectorVersions,
    now: u64,
) -> (installed: Result<CaptureSession<S>, (CaptureSession<S>, LambError)>)
    requires
        evidence.len() == resolved.ports.len(),
    ensures
        match installed {
            Ok(effective) => are_session_rules(
                effective,
                config@,
                *resolved,
                session,
                evidence@,
                *versions,
                now,
            ),
            Err((same, error)) => {
                &&& same == session
                &&& session_policy_error_is(error@, config@, *resolved, session, evidence@)
            },
        },
{
    let profile = match find_profile(config, &resolved.name) {
        Ok(profile) => profile,
        Err(error) => {
            return Err((session, error));
        },
    };
    let reported = threshold_report(
        profile,
        &resolved.name,
        resolved,
        Some(resolved),
        Some(&session),
        evidence,
        versions,
        now,
    );
    let report = match reported {
        Ok(report) => report,
        Err(error) => {
            return Err((session, error));
        },
    };
    match effective_activity("session", &resolved.export_policy.activity, &report.channels) {
        Ok(effective) => {
            proof {
                assert forall|i: int| 0 <= i < resolved.export_policy.activity.channels@.len() implies (
                #[trigger] resolved.export_policy.activity.channels@[i]).name@ == resolved.ports@[i].name@ by {
                    assert(report.channels@[i].channel@ == resolved.ports@[i].name@);
                }
                assert(report_is(
                    report,
                    config@.profile(resolved.name@),
                    resolved.name@,
                    *resolved,
                    Some(*resolved),
                    Some(session),
                    evidence@,
                    *versions,
                    now,
                ));
            }
            if session.policy_poisoned {
                return Err(
                    (session, LambError::Control("session export policy lock poisoned".to_string())),
                );
            }
            let mut installed = session;
            installed.policy.activity = effective;
            Ok(installed)
        },
        Err(error) => {
            proof {
                if resolved.export_policy.activity.channels.len() == resolved.ports.len() && rules_follow_ports(
                    *resolved,
                ) {
                    assert(names_agree(resolved.export_policy.activity.channels@, report.channels@));
                }
            }
            Err((session, error))
        },
    }
}

/// Gives the session of an attempt the activity rules in effect.
pub fn install_attempt_policy<B, S>(
    config: &AppConfig,
    resolved: &ResolvedProfile,
    attempt: PrivateAppCaptureAttempt<B, S>,
    evidence: &Vec<ChannelEvidence>,
    versions: &DetectorVersions,
    now: u64,
    current: bool,
) -> (installed: Result<PrivateAppCaptureAttempt<B, S>, (Released<B, S>, LambError)>)
    requires
        evidence.len() == resolved.ports.len(),
    ensures
        match installed {
            Ok(after) => {
                &&& current
                &&& after.backend == attempt.backend
                &&& after.health == attempt.health
                &&& are_session_rules(
                    after.session,
                    config@,
                    *resolved,
                    attempt.session,
                    evidence@,
                    *versions,
                    now,
                )
            },
            Err((released, error)) => {
                &&& released == attempt.held()
                &&& if !current {
                    error@ == superseded_error()
                } else {
                    session_policy_error_is(
                        error@,
                        config@,
                        *resolved,
                        attempt.session,
                        evidence@,
                    )
                }
            },
        },
{
    if let Err(error) = checkpoint(current) {
        return Err((attempt.release(), error));
    }
    match install_effective_session_activity_policy(
        config,
        resolved,
        attempt.session,
        evidence,
        versions,
        now,
    ) {
        Ok(session) => Ok(
            PrivateAppCaptureAttempt { backend: attempt.backend, session, health: attempt.health },
        ),
        Err((session, error)) => Err(
            (Released { backend: Some(attempt.backend), session: Some(session) }, error),
        ),
    }
}

/// Takes the outcome of the recovery that follows the start of a profile's
/// capture, and makes the capture part of the state where all went well.
pub fn app_capture_recovered<B, S>(
    state: &mut AppRuntimeState<B, S>,
    attempt: PrivateAppCaptureAttempt<B, S>,
    recovery: Result<u64, LambError>,
    current: bool,
) -> (finished: Result<(), (Released<B, S>, LambError)>)
    requires
        old(state).active_profile is Some,
    ensures
        match recovery_verdict("app"@, recovery) {
            Some(refusal) => {
                &&& final(state)@ == old(state)@
                &&& finished is Err
                &&& finished->Err_0.0 == attempt.held()
                &&& finished->Err_0.1@ == refusal
            },
            None => if current {
                &&& final(state)@ == old(state)@.capturing(attempt)
                &&& finished is Ok
            } else {
                &&& final(state)@ == old(state)@
                &&& finished is Err
                &&& finished->Err_0.0 == attempt.held()
                &&& finished->Err_0.1@ == superseded_error()
            },
        },
{
    if let Err(error) = judge_recovery("app", recovery) {
        return Err((attempt.release(), error));
    }
    if let Err(error) = checkpoint(current) {
        return Err((attempt.release(), error));
    }
    let (name, target) = match &state.active_profile {
        Some(profile) => (Some(profile.name.clone()), Some(profile.name.clone())),
        None => (None, None),
    };
    state.state = RunState::Capturing;
    state.last_error = None;
    state.config_load_error = None;
    state.capture_health = attempt.health;
    state.session = Some(attempt.session);
    state.capture = Some(attempt.backend);
    state.lifecycle.mark_running(name, target);
    Ok(())
}

/// Whatever a configuration leads to that was applied without a capture, the
/// state is settled, or it waits for an operator; it never captures.
pub proof fn a_state_without_capture_rests<B, S>(
    state: RuntimeView<B, S>,
    config: AppConfig,
    profile: ResolvedProfile,
    error: Seq<char>,
)
    ensures
        state.without_profile(config).settled(),
        state.at_rest(config, profile).settled(),
        !state.unloaded(config, error).settled(),
        state.unloaded(config, error).start_failure() == AttemptErrorView::permanent(error),
        state.without_profile(config).held().is_empty(),
        state.at_rest(config, profile).held().is_empty(),
        state.unloaded(config, error).held().is_empty(),
{
}

/// A capture that was made part of a state leaves it settled, with no error.
pub proof fn a_capturing_state_is_settled<B, S>(
    state: RuntimeView<B, S>,
    attempt: PrivateAppCaptureAttempt<B, S>,
)
    ensures
        state.capturing(attempt).settled(),
        state.capturing(attempt).held() == attempt.held(),
        state.capturing(attempt).lifecycle.error_class is None,
        state.capturing(attempt).last_error is None,
        state.capturing(attempt).config_load_error is None,
{
}

} // verus!
