//! Sessions: how one is set up around a capture that was started.

use crate::health::PipeWireHealth;
use crate::identity::{
    are_configured, inputs_are_coherent, is_first_configuration_error, is_first_jack_error,
    is_first_refusal, jack_live, jack_live_identities, live_of, none_refused, pipewire_live,
    pipewire_live_identities, target_matches, validate_app_session_inputs, ResolvedTarget,
};
use crate::apply::{checkpoint, superseded_error};
use crate::error::{ErrorView, LambError};
use crate::model::{
    BackendKind, CaptureBackend, CaptureSession, ConfiguredInputIdentity, Released,
    ResolvedCaptureState, ResolvedExportPolicy, ResolvedLiveInputIdentity, ResolvedProfile,
};
use vstd::prelude::*;

verus! {

/// What stands behind a started capture of a profile.
#[derive(Debug, Clone, PartialEq, Eq)]
pub enum AppSource {
    Jack,
    PipeWire(ResolvedTarget),
    /// A capture that was prepared beforehand, with its live inputs.
    Prepared { kind: BackendKind, live: Vec<Option<ResolvedLiveInputIdentity>> },
}

impl AppSource {
    /// The kind of backend that captures.
    pub open spec fn backend_kind(self) -> BackendKind {
        match self {
            AppSource::Jack => BackendKind::Jack,
            AppSource::PipeWire(_) => BackendKind::PipeWire,
            AppSource::Prepared { kind, .. } => kind,
        }
    }
}

/// A capture of a profile that was started: its backend, the memory behind it,
/// and what was found out about it. The identity tells its session from others.
/// `input_refusals` and `live_refusals` tell for each port why its configured and
/// its live input are refused, if so.
#[derive(Debug)]
pub struct StartedAppCapture<B, S> {
    pub source: AppSource,
    pub sample_rate: u32,
    pub identity: u64,
    pub calibration_sample_frames: u64,
    pub health: Option<PipeWireHealth>,
    pub input_refusals: Vec<Option<LambError>>,
    pub live_refusals: Vec<Option<LambError>>,
    pub backend: B,
    pub memory: S,
}

impl<S> CaptureSession<S> {
    /// The session of a capture of the older format. It has no named inputs and
    /// nothing set aside for calibration.
    pub fn from_legacy_runtime(
        memory: S,
        identity: u64,
        policy: ResolvedExportPolicy,
        resolved: &ResolvedCaptureState,
    ) -> (session: CaptureSession<S>)
        ensures
            session.identity == identity,
            session.sample_rate == resolved.sample_rate,
            session.channel_count == resolved.channel_count,
            session.profile_name@ == "legacy"@,
            session.policy == policy,
            !session.policy_poisoned,
            !session.workspace_poisoned,
            session.configured_inputs@.len() == 0,
            session.resolved_live_inputs@.len() == 0,
            session.calibration_sample_frames == 0,
            session.resource == memory,
    {
        CaptureSession {
            identity,
            sample_rate: resolved.sample_rate,
            channel_count: resolved.channel_count,
            profile_name: "legacy".to_string(),
            policy,
            policy_poisoned: false,
            workspace_poisoned: false,
            configured_inputs: Vec::new(),
            resolved_live_inputs: Vec::new(),
            calibration_sample_frames: 0,
            resource: memory,
        }
    }

    /// Whether this is the session of a capture of the given profile.
    pub open spec fn is_app_session(
        self,
        memory: S,
        identity: u64,
        sample_rate: u32,
        calibration_sample_frames: u64,
        profile: ResolvedProfile,
    ) -> bool {
        &&& self.identity == identity
        &&& self.sample_rate == sample_rate
        &&& self.channel_count == profile.ports@.len()
        &&& self.profile_name@ == profile.name@
        &&& self.policy@ == profile.export_policy@
        &&& !self.policy_poisoned
        &&& !self.workspace_poisoned
        &&& are_configured(self.configured_inputs@, profile)
        &&& inputs_are_coherent(self.configured_inputs@, self.resolved_live_inputs@)
        &&& self.calibration_sample_frames == calibration_sample_frames
        &&& self.resource == memory
    }

    /// The session of a capture of a profile whose inputs were checked.
    pub fn from_validated_app_runtime(
        memory: S,
        identity: u64,
        sample_rate: u32,
        calibration_sample_frames: u64,
        profile: &ResolvedProfile,
        configured_inputs: Vec<ConfiguredInputIdentity>,
        resolved_live_inputs: Vec<Option<ResolvedLiveInputIdentity>>,
        channel_count: u32,
    ) -> (session: CaptureSession<S>)
        requires
            are_configured(configured_inputs@, *profile),
            inputs_are_coherent(configured_inputs@, resolved_live_inputs@),
            channel_count == profile.ports.len(),
        ensures
            session.is_app_session(
                memory,
                identity,
                sample_rate,
                calibration_sample_frames,
                *profile,
            ),
            session.configured_inputs == configured_inputs,
            session.resolved_live_inputs == resolved_live_inputs,
    {
        CaptureSession {
            identity,
            sample_rate,
            channel_count,
            profile_name: profile.name.clone(),
            policy: profile.export_policy.duplicate(),
            policy_poisoned: false,
            workspace_poisoned: false,
            configured_inputs,
            resolved_live_inputs,
            calibration_sample_frames,
            resource: memory,
        }
    }
}

/// A capture of a profile that has its session and is not yet part of any state.
/// The backend is the first field, so that it is dropped before its session.
#[derive(Debug)]
pub struct PrivateAppCaptureAttempt<B, S> {
    pub backend: CaptureBackend<B>,
    pub session: CaptureSession<S>,
    pub health: Option<PipeWireHealth>,
}

impl<B, S> PrivateAppCaptureAttempt<B, S> {
    /// What is let go of when the attempt is given up.
    pub open spec fn held(self) -> Released<B, S> {
        Released { backend: Some(self.backend), session: Some(self.session) }
    }

    /// Gives the attempt up.
    pub fn release(self) -> (released: Released<B, S>)
        ensures
            released == self.held(),
    {
        Released { backend: Some(self.backend), session: Some(self.session) }
    }
}

/// A started capture without a session: the backend, and the memory that was to
/// be its session's. The backend is the first field.
#[derive(Debug)]
pub struct FailedSession<B, S> {
    pub backend: CaptureBackend<B>,
    pub memory: S,
    pub error: LambError,
}

/// Sets up the session of a started capture, unless its operation is no longer
/// current: finds the live inputs behind the ports of the profile, and checks that
/// they belong to them.
pub fn open_app_session<B, S>(
    profile: &ResolvedProfile,
    started: StartedAppCapture<B, S>,
    current: bool,
) -> (opened: Result<PrivateAppCaptureAttempt<B, S>, FailedSession<B, S>>)
    requires
        started.source.backend_kind() != BackendKind::Fake,
    ensures
        match opened {
            Ok(attempt) => {
                &&& current
                &&& attempt.backend.kind == started.source.backend_kind()
                &&& attempt.backend.rate == started.sample_rate
                &&& attempt.backend.error is None
                &&& attempt.backend.resource == started.backend
                &&& attempt.health == started.health
                &&& attempt.session.is_app_session(
                    started.memory,
                    started.identity,
                    started.sample_rate,
                    started.calibration_sample_frames,
                    *profile,
                )
                &&& none_refused(started.input_refusals@, profile.ports.len() as int)
                &&& live_inputs_are(
                    attempt.session.resolved_live_inputs@,
                    *profile,
                    started.source,
                    started.live_refusals@,
                )
            },
            Err(failed) => {
                &&& failed.backend.kind == started.source.backend_kind()
                &&& failed.backend.rate == started.sample_rate
                &&& failed.backend.error is None
                &&& failed.backend.resource == started.backend
                &&& failed.memory == started.memory
                &&& if current {
                    session_error_is(
                        failed.error@,
                        *profile,
                        started.source,
                        started.live_refusals@,
                        started.input_refusals@,
                    )
                } else {
                    failed.error@ == superseded_error()
                }
            },
        },
{
    let kind = match &started.source {
        AppSource::Jack => BackendKind::Jack,
        AppSource::PipeWire(_) => BackendKind::PipeWire,
        AppSource::Prepared { kind, .. } => *kind,
    };
    let backend = CaptureBackend {
        kind,
        rate: started.sample_rate,
        error: None,
        resource: started.backend,
    };
    if let Err(error) = checkpoint(current) {
        return Err(FailedSession { backend, memory: started.memory, error });
    }
    let found = match started.source {
        AppSource::Jack => jack_live_identities(profile, &started.live_refusals),
        AppSource::PipeWire(target) => {
            pipewire_live_identities(profile, &target, &started.live_refusals)
        },
        AppSource::Prepared { live, .. } => Ok(live),
    };
    let live = match found {
        Ok(live) => live,
        Err(error) => {
            return Err(FailedSession { backend, memory: started.memory, error });
        },
    };
    proof {
        assert(live_inputs_are(live@, *profile, started.source, started.live_refusals@));
    }
    match validate_app_session_inputs(profile, &started.input_refusals, &live) {
        Ok((inputs, channel_count)) => {
            let session = CaptureSession::from_validated_app_runtime(
                started.memory,
                started.identity,
                started.sample_rate,
                started.calibration_sample_frames,
                profile,
                inputs,
                live,
                channel_count,
            );
            Ok(PrivateAppCaptureAttempt { backend, session, health: started.health })
        },
        Err(error) => Err(FailedSession { backend, memory: started.memory, error }),
    }
}

/// Whether these are the live inputs behind the ports of a profile, in order, and
/// none of them was refused.
pub open spec fn live_inputs_are(
    live: Seq<Option<ResolvedLiveInputIdentity>>,
    profile: ResolvedProfile,
    source: AppSource,
    refusals: Seq<Option<LambError>>,
) -> bool {
    let count = profile.ports@.len() as int;
    match source {
        AppSource::Jack => {
            &&& profile.backend@ == "jack"@
            &&& none_refused(refusals, count)
            &&& live.len() == count
            &&& forall|i: int|
                0 <= i < live.len() ==> {
                    &&& live_of(#[trigger] live[i]) == jack_live(profile.ports@[i])
                    &&& live[i] is Some
                }
        },
        AppSource::PipeWire(target) => {
            &&& target_matches(profile, target)
            &&& target.durable_live_key is Some ==> none_refused(refusals, count)
            &&& live.len() == count
            &&& forall|i: int|
                0 <= i < live.len() ==> live_of(#[trigger] live[i]) == pipewire_live(target, i)
        },
        AppSource::Prepared { live: prepared, .. } => live == prepared@,
    }
}

/// Whether this is the error that keeps the live inputs of a started capture from
/// being told.
pub open spec fn live_error_is(
    error: ErrorView,
    profile: ResolvedProfile,
    source: AppSource,
    refusals: Seq<Option<LambError>>,
) -> bool {
    match source {
        AppSource::Jack => if profile.backend@ == "jack"@ {
            is_first_jack_error(profile, refusals, error)
        } else {
            error == ErrorView::Capture("JACK live identities require a JACK profile"@)
        },
        AppSource::PipeWire(target) => if target_matches(profile, target) {
            &&& target.durable_live_key is Some
            &&& is_first_refusal(refusals, profile.ports@.len() as int, error)
        } else {
            error == ErrorView::Capture(
                "configured PipeWire inputs do not match resolved capture sources"@,
            )
        },
        AppSource::Prepared { .. } => false,
    }
}

/// Whether this is the error that keeps a started capture from having a session:
/// its live inputs cannot be told, or they do not belong to the profile.
pub open spec fn session_error_is(
    error: ErrorView,
    profile: ResolvedProfile,
    source: AppSource,
    live_refusals: Seq<Option<LambError>>,
    input_refusals: Seq<Option<LambError>>,
) -> bool {
    ||| live_error_is(error, profile, source, live_refusals)
    ||| exists|live: Seq<Option<ResolvedLiveInputIdentity>>| #[trigger]
        live_inputs_are(live, profile, source, live_refusals) && session_refused(
            error,
            profile,
            input_refusals,
            live,
        )
}

/// Whether this is the error about live inputs that do not make up a session.
pub open spec fn session_refused(
    error: ErrorView,
    profile: ResolvedProfile,
    refusals: Seq<Option<LambError>>,
    live: Seq<Option<ResolvedLiveInputIdentity>>,
) -> bool {
    ||| is_first_configuration_error(profile, refusals, error)
    ||| {
        &&& none_refused(refusals, profile.ports@.len() as int)
        &&& profile.ports@.len() > u32::MAX
        &&& error == ErrorView::Capture("profile channel count exceeds u32"@)
    }
    ||| {
        &&& none_refused(refusals, profile.ports@.len() as int)
        &&& profile.ports@.len() <= u32::MAX
        &&& error == ErrorView::Capture(
            "configured and resolved session input ordering is incoherent"@,
        )
        &&& exists|inputs: Seq<ConfiguredInputIdentity>| #[trigger]
            are_configured(inputs, profile) && !inputs_are_coherent(inputs, live)
    }
}

} // verus!
