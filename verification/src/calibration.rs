//! Calibration of a threshold: which channel of which session it measures, and
//! whether that is still what it was when the measurement began.

use crate::error::{ErrorView, LambError};
use crate::identity::{configured, input_settings, live_of, no_such_channel, ConfiguredView};
use crate::model::{
    AppRuntimeState, BackendKind, CaptureSession, ConfiguredInputIdentity, ContextView,
    IdleDaemonContext, ResolvedLiveInputIdentity, ResolvedProfile, RunState, RuntimeView,
};
use crate::profile::equal_profiles;
use crate::text::{join, place_of, text_is};
use crate::threshold::no_such_profile;
use vstd::prelude::*;

verus! {

/// What a calibration measures: a channel of a session, as it was when the
/// measurement began.
#[derive(Debug, Clone, PartialEq, Eq)]
pub struct SessionCalibrationTarget {
    pub session: u64,
    pub active_profile: ResolvedProfile,
    pub channel: u32,
    pub configured: ConfiguredInputIdentity,
    pub live: ResolvedLiveInputIdentity,
    pub sample_rate: u32,
    pub capacity: u64,
}

/// Whether a profile configures the given input at the given place. An input that
/// is there was not refused when it was made.
pub open spec fn configures_at(profile: ResolvedProfile, index: int, input: ConfiguredView) -> bool {
    &&& 0 <= index < profile.ports@.len()
    &&& profile.ports@[index].name@ == input.name
    &&& configured(profile, input.name) == Ok::<ConfiguredView, ErrorView>(input)
}

impl<B, S> RuntimeView<B, S> {
    /// Whether the backend that captures is of the kind that the profile asks
    /// for, at the rate that is measured.
    pub open spec fn capture_serves(self, target: SessionCalibrationTarget) -> bool {
        match self.capture {
            Some(capture) => match capture.kind {
                BackendKind::Fake => false,
                BackendKind::Jack => target.active_profile.backend@ == "jack"@ && capture.rate
                    == target.sample_rate,
                BackendKind::PipeWire => target.active_profile.backend@ == "pipewire"@
                    && capture.rate == target.sample_rate,
            },
            None => false,
        }
    }

    /// Whether the state still is what a calibration measures: the same session
    /// captures the same profile with the same inputs, and is healthy.
    pub open spec fn serves(self, target: SessionCalibrationTarget) -> bool {
        let channel = target.channel as int;
        &&& self.session is Some
        &&& self.state == RunState::Capturing
        &&& self.capture_serves(target)
        &&& self.session->0.identity == target.session
        &&& self.active_profile is Some
        &&& equal_profiles(self.active_profile->0@, target.active_profile@)
        &&& target.active_profile.name@ == self.session->0.profile_name@
        &&& self.session->0.channel_count == self.session->0.configured_inputs@.len()
        &&& self.session->0.configured_inputs@.len() == self.session->0.resolved_live_inputs@.len()
        &&& self.session->0.configured_inputs@.len() == target.active_profile.ports@.len()
        &&& configures_at(target.active_profile, channel, target.configured@)
        &&& self.session->0.sample_rate == target.sample_rate
        &&& self.session->0.calibration_sample_frames == target.capacity
        &&& self.session->0.configured_inputs@[channel]@ == target.configured@
        &&& live_of(self.session->0.resolved_live_inputs@[channel]) == Some(target.live@)
        &&& self.capture_health is Some ==> self.capture_health->0.fault is None
        &&& self.capture is Some ==> self.capture->0.shown_error() is None
    }
}

impl<B, S> ContextView<B, S> {
    /// Whether the daemon goes on and its state still is what a calibration
    /// measures.
    pub open spec fn serves(self, target: SessionCalibrationTarget) -> bool {
        !self.stop && !self.runtime_poisoned && self.runtime.serves(target)
    }
}

impl<B, S> AppRuntimeState<B, S> {
    /// Tells whether the backend that captures is of the kind that the profile
    /// asks for, at the rate that is measured.
    pub fn capture_matches_target(&self, target: &SessionCalibrationTarget) -> (matches: bool)
        ensures
            matches == self@.capture_serves(*target),
    {
        match &self.capture {
            Some(capture) => match capture.kind {
                BackendKind::Fake => false,
                BackendKind::Jack => text_is(&target.active_profile.backend, "jack") && capture.rate
                    == target.sample_rate,
                BackendKind::PipeWire => text_is(&target.active_profile.backend, "pipewire")
                    && capture.rate == target.sample_rate,
            },
            None => false,
        }
    }
}

fn target_is_configured(target: &SessionCalibrationTarget) -> (is_configured: bool)
    ensures
        is_configured == configures_at(
            target.active_profile,
            target.channel as int,
            target.configured@,
        ),
{
    let index: u64 = target.channel as u64;
    let count: u64 = target.active_profile.ports.len() as u64;
    if index >= count {
        return false;
    }
    let port = &target.active_profile.ports[target.channel as usize];
    if port.name != target.configured.name {
        return false;
    }
    match input_settings(&target.active_profile, &port.name) {
        Ok(identity) => identity.same(&target.configured),
        Err(_) => false,
    }
}

/// Tells whether the state still is what a calibration measures.
pub fn calibration_target_matches_runtime<B, S>(
    runtime: &AppRuntimeState<B, S>,
    target: &SessionCalibrationTarget,
) -> (matches: bool)
    ensures
        matches == runtime@.serves(*target),
{
    let session = match &runtime.session {
        Some(session) => session,
        None => {
            return false;
        },
    };
    let same_profile = match &runtime.active_profile {
        Some(profile) => profile.same(&target.active_profile),
        None => false,
    };
    let healthy = match &runtime.capture_health {
        Some(health) => health.fault.is_none(),
        None => true,
    };
    let undisturbed = match &runtime.capture {
        Some(backend) => backend.runtime_error().is_none(),
        None => true,
    };
    let inputs: usize = session.configured_inputs.len();
    if runtime.state != RunState::Capturing || !runtime.capture_matches_target(target)
        || session.identity != target.session || !same_profile || target.active_profile.name
        != session.profile_name || session.channel_count as u64 != inputs as u64 || inputs
        != session.resolved_live_inputs.len() || inputs != target.active_profile.ports.len()
        || !target_is_configured(target) || session.sample_rate != target.sample_rate
        || session.calibration_sample_frames != target.capacity || !healthy || !undisturbed {
        return false;
    }
    let channel: usize = target.channel as usize;
    let same_live = match &session.resolved_live_inputs[channel] {
        Some(live) => live.same(&target.live),
        None => false,
    };
    session.configured_inputs[channel].same(&target.configured) && same_live
}

/// Tells whether the daemon goes on and its state still is what a calibration
/// measures.
pub fn calibration_target_is_current<B, S>(
    ctx: &IdleDaemonContext<B, S>,
    target: &SessionCalibrationTarget,
) -> (current: bool)
    ensures
        current == ctx@.serves(*target),
{
    !ctx.stop && !ctx.runtime_poisoned && calibration_target_matches_runtime(&ctx.runtime, target)
}

/// The names of the inputs of a session.
pub open spec fn input_names(inputs: Seq<ConfiguredInputIdentity>) -> Seq<Seq<char>> {
    inputs.map_values(|input: ConfiguredInputIdentity| input.name@)
}

/// The message about a profile, with what is wrong with it.
pub open spec fn about_profile(profile: Seq<char>, problem: Seq<char>) -> Seq<char> {
    "profile "@ + profile + problem
}

impl<B, S> ContextView<B, S> {
    /// What a calibration of the given channel of a session would measure.
    pub open spec fn is_target(
        self,
        target: SessionCalibrationTarget,
        profile: ResolvedProfile,
        session: CaptureSession<S>,
        index: int,
    ) -> bool {
        &&& target.session == session.identity
        &&& target.active_profile@ == profile@
        &&& target.active_profile.ports@ == profile.ports@
        &&& target.channel == index
        &&& target.configured@ == session.configured_inputs@[index]@
        &&& Some(target.live@) == live_of(session.resolved_live_inputs@[index])
        &&& target.sample_rate == session.sample_rate
        &&& target.capacity == session.calibration_sample_frames
    }

    /// Whether the given channel of the session is being captured as its profile
    /// asks for, and nothing is wrong with it. A profile with a level that is no
    /// number is never found again.
    pub open spec fn calibratable(self, index: int) -> bool {
        let runtime = self.runtime;
        let profile = runtime.active_profile->0;
        let session = runtime.session->0;
        &&& !self.stop
        &&& !self.runtime_poisoned
        &&& equal_profiles(profile@, profile@)
        &&& runtime.state == RunState::Capturing
        &&& runtime.capture is Some
        &&& match runtime.capture->0.kind {
            BackendKind::Fake => false,
            BackendKind::Jack => profile.backend@ == "jack"@,
            BackendKind::PipeWire => profile.backend@ == "pipewire"@,
        }
        &&& runtime.capture->0.rate == session.sample_rate
        &&& session.channel_count == session.configured_inputs@.len()
        &&& session.configured_inputs@.len() == session.resolved_live_inputs@.len()
        &&& session.configured_inputs@.len() == profile.ports@.len()
        &&& configures_at(profile, index, session.configured_inputs@[index]@)
        &&& runtime.capture_health is Some ==> runtime.capture_health->0.fault is None
        &&& runtime.capture->0.shown_error() is None
    }

    /// The place of the given channel in the session.
    pub open spec fn channel_place(self, channel: Seq<char>) -> int {
        place_of(input_names(self.runtime.session->0.configured_inputs@), channel)->0
    }

    /// Why a channel cannot be calibrated that is named wrongly or not captured,
    /// if so.
    pub open spec fn calibration_refusal(self, profile_name: Seq<char>, channel: Seq<char>) -> Option<
        ErrorView,
    > {
        let runtime = self.runtime;
        if self.runtime_poisoned {
            Some(ErrorView::Control("runtime state lock poisoned"@))
        } else if !runtime.config@.has_profile(profile_name) {
            Some(no_such_profile(profile_name))
        } else if runtime.active_profile is None || runtime.active_profile->0.name@
            != profile_name {
            Some(ErrorView::Control(about_profile(profile_name, " is not active"@)))
        } else if runtime.session is None {
            Some(ErrorView::Control(about_profile(profile_name, " is not capturing"@)))
        } else if runtime.session->0.profile_name@ != profile_name {
            Some(ErrorView::Control("active capture session identity changed"@))
        } else {
            let session = runtime.session->0;
            match place_of(input_names(session.configured_inputs@), channel) {
                None => Some(no_such_channel(profile_name, channel)),
                Some(index) => if index >= session.resolved_live_inputs@.len() || live_of(
                    session.resolved_live_inputs@[index],
                ) is None {
                    Some(
                        ErrorView::Control(
                            about_profile(
                                profile_name,
                                " channel "@ + channel + " has no durable live key"@,
                            ),
                        ),
                    )
                } else if index > u32::MAX {
                    Some(ErrorView::Capture("channel index exceeds u32"@))
                } else {
                    None
                },
            }
        }
    }
}

fn input_index(inputs: &Vec<ConfiguredInputIdentity>, name: &String) -> (index: Option<usize>)
    ensures
        match index {
            Some(index) => place_of(input_names(inputs@), name@) == Some(index as int) && index
                < inputs.len(),
            None => place_of(input_names(inputs@), name@) is None,
        },
{
    let ghost names = input_names(inputs@);
    let mut i: usize = 0;
    while i < inputs.len()
        invariant
            i <= inputs.len(),
            names == input_names(inputs@),
            forall|j: int| 0 <= j < i ==> names[j] != name@,
        decreases inputs.len() - i,
    {
        if inputs[i].name == *name {
            proof {
                assert(crate::text::is_first_name(names, name@, i as int));
                crate::text::lemma_place_of(names, name@, i as int);
            }
            return Some(i);
        }
        i = i + 1;
    }
    None
}

fn about(profile: &String, problem: &str) -> (message: String)
    ensures
        message@ == about_profile(profile@, problem@),
{
    let message = join("profile ", profile.as_str());
    join(message.as_str(), problem)
}

/// What is measured serves a calibration exactly where its channel is captured
/// as it should be.
proof fn lemma_target_serves<B, S>(
    ctx: ContextView<B, S>,
    target: SessionCalibrationTarget,
    index: int,
)
    requires
        !ctx.runtime_poisoned,
        ctx.runtime.active_profile is Some,
        ctx.runtime.session is Some,
        ctx.runtime.active_profile->0.name@ == ctx.runtime.session->0.profile_name@,
        0 <= index < ctx.runtime.session->0.configured_inputs@.len(),
        index < ctx.runtime.session->0.resolved_live_inputs@.len(),
        ctx.is_target(
            target,
            ctx.runtime.active_profile->0,
            ctx.runtime.session->0,
            index,
        ),
    ensures
        ctx.serves(target) <==> ctx.calibratable(index),
{
    let profile = ctx.runtime.active_profile->0;
    let input = ctx.runtime.session->0.configured_inputs@[index]@;
    assert(crate::identity::configured_target(target.active_profile)
        == crate::identity::configured_target(profile));
    assert(configured(target.active_profile, input.name) == configured(profile, input.name));
}

/// Finds what a calibration of the given channel measures.
pub fn session_calibration_target<B, S>(
    ctx: &IdleDaemonContext<B, S>,
    profile_name: &String,
    channel_name: &String,
) -> (target: Result<SessionCalibrationTarget, LambError>)
    ensures
        match target {
            Ok(target) => {
                &&& ctx@.calibration_refusal(profile_name@, channel_name@) is None
                &&& ctx@.calibratable(ctx@.channel_place(channel_name@))
                &&& ctx@.is_target(
                    target,
                    ctx@.runtime.active_profile->0,
                    ctx@.runtime.session->0,
                    ctx@.channel_place(channel_name@),
                )
                &&& ctx@.serves(target)
            },
            Err(error) => match ctx@.calibration_refusal(profile_name@, channel_name@) {
                Some(refusal) => error@ == refusal,
                None => {
                    &&& !ctx@.calibratable(ctx@.channel_place(channel_name@))
                    &&& error@ == not_capturing_healthily()
                },
            },
        },
{
    if ctx.runtime_poisoned {
        return Err(LambError::Control("runtime state lock poisoned".to_string()));
    }
    let runtime = &ctx.runtime;
    if runtime.config.profile_index(profile_name).is_none() {
        return Err(LambError::Config(about(profile_name, " does not exist")));
    }
    let active = match &runtime.active_profile {
        Some(active) => active,
        None => {
            return Err(LambError::Control(about(profile_name, " is not active")));
        },
    };
    if active.name != *profile_name {
        return Err(LambError::Control(about(profile_name, " is not active")));
    }
    let session = match &runtime.session {
        Some(session) => session,
        None => {
            return Err(LambError::Control(about(profile_name, " is not capturing")));
        },
    };
    if session.profile_name != *profile_name {
        return Err(LambError::Control("active capture session identity changed".to_string()));
    }
    let index: usize = match input_index(&session.configured_inputs, channel_name) {
        Some(index) => index,
        None => {
            let message = about(profile_name, " has no channel ");
            return Err(LambError::Config(join(message.as_str(), channel_name.as_str())));
        },
    };
    let found = if index < session.resolved_live_inputs.len() {
        match &session.resolved_live_inputs[index] {
            Some(live) => Some(live.duplicate()),
            None => None,
        }
    } else {
        None
    };
    let live = match found {
        Some(live) => live,
        None => {
            let mut problem = join(" channel ", channel_name.as_str());
            problem = join(problem.as_str(), " has no durable live key");
            return Err(LambError::Control(about(profile_name, problem.as_str())));
        },
    };
    if index as u64 > u32::MAX as u64 {
        return Err(LambError::Capture("channel index exceeds u32".to_string()));
    }
    let target = SessionCalibrationTarget {
        session: session.identity,
        active_profile: active.duplicate(),
        channel: index as u32,
        configured: session.configured_inputs[index].duplicate(),
        live,
        sample_rate: session.sample_rate,
        capacity: session.calibration_sample_frames,
    };
    proof {
        assert(ctx@.is_target(
            target,
            ctx@.runtime.active_profile->0,
            ctx@.runtime.session->0,
            index as int,
        ));
    }
    proof {
        lemma_target_serves(ctx@, target, index as int);
    }
    if !calibration_target_is_current(ctx, &target) {
        return Err(
            LambError::CaptureInvariant(
                "calibration target is not currently capturing and healthy".to_string(),
            ),
        );
    }
    Ok(target)
}

/// The error about a channel that is not captured as it should be.
pub open spec fn not_capturing_healthily() -> ErrorView {
    ErrorView::CaptureInvariant("calibration target is not currently capturing and healthy"@)
}

/// Whether a calibration is neither too short nor too long.
pub open spec fn seconds_in_range(seconds: u32) -> bool {
    1 <= seconds <= 30
}

/// The error about a calibration that is too short or too long.
pub open spec fn seconds_out_of_range() -> ErrorView {
    ErrorView::Validation("calibration seconds must be within 1..=30"@)
}

/// The number of frames that a calibration measures: the given time at the rate
/// of the session, which has to fit in the memory set aside for it.
pub fn calibration_frames(target: &SessionCalibrationTarget, seconds: u32) -> (frames: Result<
    u64,
    LambError,
>)
    ensures
        ({
            let wanted = target.sample_rate as int * seconds as int;
            match frames {
                Ok(frames) => frames == wanted && 0 < wanted <= target.capacity,
                Err(error) => {
                    &&& !(0 < wanted <= target.capacity)
                    &&& error@ == ErrorView::Validation(
                        "calibration frame count is outside startup capacity"@,
                    )
                },
            }
        }),
{
    let rate: u64 = target.sample_rate as u64;
    let length: u64 = seconds as u64;
    proof {
        assert(rate * length <= u32::MAX as int * u32::MAX as int) by (nonlinear_arith)
            requires
                rate <= u32::MAX,
                length <= u32::MAX,
        ;
    }
    let frames: u64 = rate * length;
    if frames == 0 || frames > target.capacity {
        return Err(
            LambError::Validation(
                "calibration frame count is outside startup capacity".to_string(),
            ),
        );
    }
    Ok(frames)
}

/// Begins the calibration of a channel: what is measured, and how many frames of
/// it.
pub fn begin_calibration<B, S>(
    ctx: &IdleDaemonContext<B, S>,
    profile_name: &String,
    channel_name: &String,
    seconds: u32,
) -> (begun: Result<(SessionCalibrationTarget, u64), LambError>)
    ensures
        ({
            let refusal = ctx@.calibration_refusal(profile_name@, channel_name@);
            let place = ctx@.channel_place(channel_name@);
            let session = ctx@.runtime.session->0;
            let wanted = session.sample_rate as int * seconds as int;
            match begun {
                Ok((target, frames)) => {
                    &&& seconds_in_range(seconds)
                    &&& refusal is None
                    &&& ctx@.calibratable(place)
                    &&& ctx@.is_target(target, ctx@.runtime.active_profile->0, session, place)
                    &&& ctx@.serves(target)
                    &&& frames == wanted
                    &&& 0 < wanted <= session.calibration_sample_frames
                },
                Err(error) => if !seconds_in_range(seconds) {
                    error@ == seconds_out_of_range()
                } else if refusal is Some {
                    error@ == refusal->0
                } else if !ctx@.calibratable(place) {
                    error@ == not_capturing_healthily()
                } else {
                    &&& !(0 < wanted <= session.calibration_sample_frames)
                    &&& error@ == ErrorView::Validation(
                        "calibration frame count is outside startup capacity"@,
                    )
                },
            }
        }),
{
    if seconds < 1 || seconds > 30 {
        return Err(
            LambError::Validation("calibration seconds must be within 1..=30".to_string()),
        );
    }
    match session_calibration_target(ctx, profile_name, channel_name) {
        Ok(target) => match calibration_frames(&target, seconds) {
            Ok(frames) => Ok((target, frames)),
            Err(error) => Err(error),
        },
        Err(error) => Err(error),
    }
}

/// Takes the outcome of a measurement: it counts only where what was measured is
/// still there, and the measurement says that it can be used.
pub fn calibration_observed<B, S>(
    ctx: &IdleDaemonContext<B, S>,
    target: &SessionCalibrationTarget,
    usable: bool,
) -> (observed: Result<(), LambError>)
    ensures
        match observed {
            Ok(()) => ctx@.serves(*target) && usable,
            Err(error) => {
                &&& !(ctx@.serves(*target) && usable)
                &&& error@ == ErrorView::CaptureInvariant(
                    "calibration observation was invalidated"@,
                )
            },
        },
{
    if calibration_target_is_current(ctx, target) && usable {
        Ok(())
    } else {
        Err(LambError::CaptureInvariant("calibration observation was invalidated".to_string()))
    }
}

/// Admits a measured threshold: what was measured has to be there still.
pub fn admit_calibration<B, S>(
    ctx: &IdleDaemonContext<B, S>,
    target: &SessionCalibrationTarget,
) -> (admitted: Result<(), LambError>)
    ensures
        match admitted {
            Ok(()) => ctx@.serves(*target),
            Err(error) => {
                &&& !ctx@.serves(*target)
                &&& error@ == ErrorView::CaptureInvariant(
                    "calibration target changed before commit"@,
                )
            },
        },
{
    if calibration_target_is_current(ctx, target) {
        Ok(())
    } else {
        Err(LambError::CaptureInvariant("calibration target changed before commit".to_string()))
    }
}

/// A calibration ends with the capture it measures: a stop of the daemon, a
/// capture that was let go of, another session in its place or a fault all keep
/// it from counting.
pub proof fn a_calibration_ends_with_its_capture<B, S>(
    ctx: ContextView<B, S>,
    target: SessionCalibrationTarget,
)
    requires
        ctx.stop || ctx.runtime.capture is None || ctx.runtime.session is None
            || ctx.runtime.session->0.identity != target.session || (ctx.runtime.capture_health
            is Some && ctx.runtime.capture_health->0.fault is Some),
    ensures
        !ctx.serves(target),
{
}

} // verus!
