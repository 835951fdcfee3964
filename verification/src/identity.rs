//! Inputs: how each is configured, how it was found on the running system, and
//! whether the two belong together.

use crate::error::{ErrorView, LambError};
use crate::model::{
    ConfiguredDeviceSelector, ConfiguredInputIdentity, InputBackend, LiveDeviceKeyKind,
    ResolvedCapturePort, ResolvedLiveInputIdentity, ResolvedProfile,
};
use crate::text::{before_colon, join, split_before_colon, text_is, text_of, trim, trimmed};
use vstd::prelude::*;

verus! {

/// The model of a device selector.
pub enum SelectorView {
    PipeWireTarget(Seq<char>),
    PipeWireAuto,
    JackSourceClient(Seq<char>),
}

/// The model of a configured input.
pub struct ConfiguredView {
    pub backend: InputBackend,
    pub selector: SelectorView,
    pub name: Seq<char>,
    pub source: Seq<char>,
}

/// The model of a live input.
pub struct LiveView {
    pub backend: InputBackend,
    pub key_kind: LiveDeviceKeyKind,
    pub key_value: Seq<char>,
    pub resolved_source: Seq<char>,
}

impl View for ConfiguredDeviceSelector {
    type V = SelectorView;

    open spec fn view(&self) -> SelectorView {
        match self {
            ConfiguredDeviceSelector::PipeWireTarget(target) => SelectorView::PipeWireTarget(
                target@,
            ),
            ConfiguredDeviceSelector::PipeWireAuto => SelectorView::PipeWireAuto,
            ConfiguredDeviceSelector::JackSourceClient(client) => SelectorView::JackSourceClient(
                client@,
            ),
        }
    }
}

impl View for ConfiguredInputIdentity {
    type V = ConfiguredView;

    open spec fn view(&self) -> ConfiguredView {
        ConfiguredView {
            backend: self.backend,
            selector: self.selector@,
            name: self.name@,
            source: self.source@,
        }
    }
}

impl View for ResolvedLiveInputIdentity {
    type V = LiveView;

    open spec fn view(&self) -> LiveView {
        LiveView {
            backend: self.backend,
            key_kind: self.key_kind,
            key_value: self.key_value@,
            resolved_source: self.resolved_source@,
        }
    }
}

/// The model of an optional live input.
pub open spec fn live_of(live: Option<ResolvedLiveInputIdentity>) -> Option<LiveView> {
    match live {
        Some(live) => Some(live@),
        None => None,
    }
}

impl ConfiguredDeviceSelector {
    /// Whether two selectors select alike.
    pub fn same(&self, other: &ConfiguredDeviceSelector) -> (same: bool)
        ensures
            same == (self@ == other@),
    {
        match (self, other) {
            (
                ConfiguredDeviceSelector::PipeWireTarget(first),
                ConfiguredDeviceSelector::PipeWireTarget(second),
            ) => *first == *second,
            (ConfiguredDeviceSelector::PipeWireAuto, ConfiguredDeviceSelector::PipeWireAuto) => {
                true
            },
            (
                ConfiguredDeviceSelector::JackSourceClient(first),
                ConfiguredDeviceSelector::JackSourceClient(second),
            ) => *first == *second,
            _ => false,
        }
    }

    /// A second copy of the selector.
    pub fn duplicate(&self) -> (copy: ConfiguredDeviceSelector)
        ensures
            copy == *self,
    {
        match self {
            ConfiguredDeviceSelector::PipeWireTarget(target) => {
                ConfiguredDeviceSelector::PipeWireTarget(target.clone())
            },
            ConfiguredDeviceSelector::PipeWireAuto => ConfiguredDeviceSelector::PipeWireAuto,
            ConfiguredDeviceSelector::JackSourceClient(client) => {
                ConfiguredDeviceSelector::JackSourceClient(client.clone())
            },
        }
    }
}

impl ConfiguredInputIdentity {
    /// Whether two inputs are configured alike.
    pub fn same(&self, other: &ConfiguredInputIdentity) -> (same: bool)
        ensures
            same == (self@ == other@),
    {
        self.backend == other.backend && self.selector.same(&other.selector) && self.name
            == other.name && self.source == other.source
    }

    /// A second copy of the input.
    pub fn duplicate(&self) -> (copy: ConfiguredInputIdentity)
        ensures
            copy == *self,
    {
        ConfiguredInputIdentity {
            backend: self.backend,
            selector: self.selector.duplicate(),
            name: self.name.clone(),
            source: self.source.clone(),
        }
    }
}

impl ResolvedLiveInputIdentity {
    /// Whether two live inputs are the same.
    pub fn same(&self, other: &ResolvedLiveInputIdentity) -> (same: bool)
        ensures
            same == (self@ == other@),
    {
        self.backend == other.backend && self.key_kind == other.key_kind && self.key_value
            == other.key_value && self.resolved_source == other.resolved_source
    }

    /// A second copy of the live input.
    pub fn duplicate(&self) -> (copy: ResolvedLiveInputIdentity)
        ensures
            copy == *self,
    {
        ResolvedLiveInputIdentity {
            backend: self.backend,
            key_kind: self.key_kind,
            key_value: self.key_value.clone(),
            resolved_source: self.resolved_source.clone(),
        }
    }
}

/// Whether the given port is the first of its name.
pub open spec fn is_first_named(
    ports: Seq<ResolvedCapturePort>,
    name: Seq<char>,
    index: int,
) -> bool {
    &&& 0 <= index < ports.len()
    &&& ports[index].name@ == name
    &&& forall|i: int| 0 <= i < index ==> (#[trigger] ports[i]).name@ != name
}

/// No port has the given name.
pub open spec fn none_named(ports: Seq<ResolvedCapturePort>, name: Seq<char>) -> bool {
    forall|i: int| 0 <= i < ports.len() ==> (#[trigger] ports[i]).name@ != name
}

/// The first port of the given name.
pub open spec fn port_named(ports: Seq<ResolvedCapturePort>, name: Seq<char>) -> Option<
    ResolvedCapturePort,
> {
    if exists|index: int| is_first_named(ports, name, index) {
        Some(ports[choose|index: int| is_first_named(ports, name, index)])
    } else {
        None
    }
}

/// How PipeWire selects a device for a configured target whose surrounding white
/// space was removed: no target, or an empty one, leaves the choice to PipeWire.
pub open spec fn selector_for(target: Option<Seq<char>>) -> SelectorView {
    match target {
        Some(target) => if target.len() == 0 {
            SelectorView::PipeWireAuto
        } else {
            SelectorView::PipeWireTarget(target)
        },
        None => SelectorView::PipeWireAuto,
    }
}

/// The target that a profile configures, without surrounding white space.
pub open spec fn configured_target(profile: ResolvedProfile) -> Option<Seq<char>> {
    match profile.pipewire_config {
        Some(config) => match config.target {
            Some(target) => Some(trimmed(target@)),
            None => None,
        },
        None => None,
    }
}

/// The error about a JACK source that names no client.
pub open spec fn incomplete_jack_source() -> ErrorView {
    ErrorView::Validation("JACK source must be a complete client:port"@)
}

/// The error about a channel that a profile does not have.
pub open spec fn no_such_channel(profile: Seq<char>, channel: Seq<char>) -> ErrorView {
    ErrorView::Config("profile "@ + profile + " has no channel "@ + channel)
}

/// How one port of a profile is configured, given what is left of the target that
/// the profile configures.
pub open spec fn configured_port(
    backend: Seq<char>,
    port: ResolvedCapturePort,
    target: Option<Seq<char>>,
) -> Result<ConfiguredView, ErrorView> {
    if backend == "pipewire"@ {
        Ok(
            ConfiguredView {
                backend: InputBackend::PipeWire,
                selector: selector_for(target),
                name: port.name@,
                source: port.source@,
            },
        )
    } else if backend == "jack"@ {
        match before_colon(port.source@) {
            Some(client) => Ok(
                ConfiguredView {
                    backend: InputBackend::Jack,
                    selector: SelectorView::JackSourceClient(client),
                    name: port.name@,
                    source: port.source@,
                },
            ),
            None => Err(incomplete_jack_source()),
        }
    } else {
        Err(ErrorView::Validation("unsupported backend "@ + backend))
    }
}

/// How the named channel of a profile is configured.
pub open spec fn configured(profile: ResolvedProfile, channel: Seq<char>) -> Result<
    ConfiguredView,
    ErrorView,
> {
    match port_named(profile.ports@, channel) {
        Some(port) => configured_port(profile.backend@, port, configured_target(profile)),
        None => Err(no_such_channel(profile.name@, channel)),
    }
}

/// Selects a PipeWire device by a target without surrounding white space.
pub fn pipewire_selector(target: Option<String>) -> (selector: ConfiguredDeviceSelector)
    ensures
        selector@ == selector_for(text_of(target)),
{
    match target {
        Some(target) => {
            if target.as_str().is_empty() {
                ConfiguredDeviceSelector::PipeWireAuto
            } else {
                ConfiguredDeviceSelector::PipeWireTarget(target)
            }
        },
        None => ConfiguredDeviceSelector::PipeWireAuto,
    }
}

/// Tells how one port is configured, given what is left of the target that its
/// profile configures.
pub fn configured_port_identity(
    backend: &String,
    port: &ResolvedCapturePort,
    target: Option<String>,
) -> (identity: Result<ConfiguredInputIdentity, LambError>)
    ensures
        match identity {
            Ok(identity) => configured_port(backend@, *port, text_of(target)) == Ok::<
                ConfiguredView,
                ErrorView,
            >(identity@),
            Err(error) => configured_port(backend@, *port, text_of(target)) == Err::<
                ConfiguredView,
                ErrorView,
            >(error@),
        },
{
    if text_is(backend, "pipewire") {
        return Ok(
            ConfiguredInputIdentity {
                backend: InputBackend::PipeWire,
                selector: pipewire_selector(target),
                name: port.name.clone(),
                source: port.source.clone(),
            },
        );
    }
    if text_is(backend, "jack") {
        return match split_before_colon(port.source.as_str()) {
            Some(client) => Ok(
                ConfiguredInputIdentity {
                    backend: InputBackend::Jack,
                    selector: ConfiguredDeviceSelector::JackSourceClient(client),
                    name: port.name.clone(),
                    source: port.source.clone(),
                },
            ),
            None => Err(
                LambError::Validation("JACK source must be a complete client:port".to_string()),
            ),
        };
    }
    Err(LambError::Validation(join("unsupported backend ", backend.as_str())))
}

/// The place of the first port of the given name.
pub fn port_index(ports: &Vec<ResolvedCapturePort>, name: &String) -> (index: Option<usize>)
    ensures
        match index {
            Some(index) => is_first_named(ports@, name@, index as int),
            None => none_named(ports@, name@),
        },
{
    let mut i: usize = 0;
    while i < ports.len()
        invariant
            i <= ports.len(),
            forall|j: int| 0 <= j < i ==> (#[trigger] ports@[j]).name@ != name@,
        decreases ports.len() - i,
    {
        if ports[i].name == *name {
            return Some(i);
        }
        i = i + 1;
    }
    None
}

/// There is only one first port of a name.
proof fn lemma_first_is_unique(
    ports: Seq<ResolvedCapturePort>,
    name: Seq<char>,
    first: int,
    second: int,
)
    requires
        is_first_named(ports, name, first),
        is_first_named(ports, name, second),
    ensures
        first == second,
{
    if first < second {
        assert(ports[first].name@ != name);
    } else if second < first {
        assert(ports[second].name@ != name);
    }
}

/// Tells how the named channel of a profile is configured, before the input is
/// checked as a whole.
pub fn input_settings(profile: &ResolvedProfile, channel: &String) -> (identity: Result<
    ConfiguredInputIdentity,
    LambError,
>)
    ensures
        match identity {
            Ok(identity) => configured(*profile, channel@) == Ok::<ConfiguredView, ErrorView>(
                identity@,
            ),
            Err(error) => configured(*profile, channel@) == Err::<ConfiguredView, ErrorView>(
                error@,
            ),
        },
{
    match port_index(&profile.ports, channel) {
        Some(index) => {
            proof {
                let chosen = choose|i: int| is_first_named(profile.ports@, channel@, i);
                assert(is_first_named(profile.ports@, channel@, chosen));
                lemma_first_is_unique(profile.ports@, channel@, index as int, chosen);
            }
            let target = match &profile.pipewire_config {
                Some(config) => match &config.target {
                    Some(target) => Some(trim(target.as_str())),
                    None => None,
                },
                None => None,
            };
            configured_port_identity(&profile.backend, &profile.ports[index], target)
        },
        None => {
            proof {
                assert forall|i: int| !is_first_named(profile.ports@, channel@, i) by {
                    if is_first_named(profile.ports@, channel@, i) {
                        assert(profile.ports@[i].name@ != channel@);
                    }
                }
            }
            let mut message = join("profile ", profile.name.as_str());
            message = join(message.as_str(), " has no channel ");
            message = join(message.as_str(), channel.as_str());
            Err(LambError::Config(message))
        },
    }
}

/// The model of an optional error.
pub open spec fn error_of(error: Option<LambError>) -> Option<ErrorView> {
    match error {
        Some(error) => Some(error@),
        None => None,
    }
}

/// Why the input at the given place was refused, if it was: inputs that nothing is
/// said about were not.
pub open spec fn refusal_at(refusals: Seq<Option<LambError>>, index: int) -> Option<ErrorView> {
    if 0 <= index < refusals.len() {
        error_of(refusals[index])
    } else {
        None
    }
}

fn copy_refusal(refusals: &Vec<Option<LambError>>, index: usize) -> (refusal: Option<LambError>)
    ensures
        error_of(refusal) == refusal_at(refusals@, index as int),
{
    if index < refusals.len() {
        match &refusals[index] {
            Some(error) => Some(error.duplicate()),
            None => None,
        }
    } else {
        None
    }
}

/// How the named channel of a profile is configured, where its input is not
/// refused as a whole.
pub open spec fn admitted(
    profile: ResolvedProfile,
    channel: Seq<char>,
    refusal: Option<ErrorView>,
) -> Result<ConfiguredView, ErrorView> {
    match configured(profile, channel) {
        Ok(input) => match refusal {
            Some(refusal) => Err(refusal),
            None => Ok(input),
        },
        Err(error) => Err(error),
    }
}

/// Tells how the named channel of a profile is configured. `refusal` tells why the
/// input is refused that its settings make up, if so; it counts only where the
/// settings themselves are in order.
pub fn configured_identity(
    profile: &ResolvedProfile,
    channel: &String,
    refusal: Option<LambError>,
) -> (identity: Result<ConfiguredInputIdentity, LambError>)
    ensures
        match identity {
            Ok(identity) => admitted(*profile, channel@, error_of(refusal)) == Ok::<
                ConfiguredView,
                ErrorView,
            >(identity@),
            Err(error) => admitted(*profile, channel@, error_of(refusal)) == Err::<
                ConfiguredView,
                ErrorView,
            >(error@),
        },
{
    match input_settings(profile, channel) {
        Ok(identity) => match refusal {
            Some(refusal) => Err(refusal),
            None => Ok(identity),
        },
        Err(error) => Err(error),
    }
}

/// Whether these are the configured inputs of all ports of a profile, in order.
pub open spec fn are_configured(inputs: Seq<ConfiguredInputIdentity>, profile: ResolvedProfile) -> bool {
    &&& inputs.len() == profile.ports@.len()
    &&& forall|i: int|
        0 <= i < inputs.len() ==> configured(profile, profile.ports@[i].name@) == Ok::<
            ConfiguredView,
            ErrorView,
        >((#[trigger] inputs[i])@)
}

/// Whether no input of a profile was refused.
pub open spec fn none_refused(refusals: Seq<Option<LambError>>, count: int) -> bool {
    forall|i: int| 0 <= i < count ==> #[trigger] refusal_at(refusals, i) is None
}

/// Whether this is the error of the first port that cannot be configured.
pub open spec fn is_first_configuration_error(
    profile: ResolvedProfile,
    refusals: Seq<Option<LambError>>,
    error: ErrorView,
) -> bool {
    exists|i: int|
        {
            &&& 0 <= i < profile.ports@.len()
            &&& admitted(
                profile,
                (#[trigger] profile.ports@[i]).name@,
                refusal_at(refusals, i),
            ) == Err::<ConfiguredView, ErrorView>(error)
            &&& forall|j: int|
                0 <= j < i ==> admitted(
                    profile,
                    (#[trigger] profile.ports@[j]).name@,
                    refusal_at(refusals, j),
                ) is Ok
        }
}

/// Tells how all ports of a profile are configured, in order. `refusals` tells for
/// each of them why its input is refused, if so.
pub fn configured_identities(
    profile: &ResolvedProfile,
    refusals: &Vec<Option<LambError>>,
) -> (identities: Result<Vec<ConfiguredInputIdentity>, LambError>)
    ensures
        match identities {
            Ok(identities) => are_configured(identities@, *profile) && none_refused(
                refusals@,
                profile.ports.len() as int,
            ),
            Err(error) => is_first_configuration_error(*profile, refusals@, error@),
        },
{
    let mut identities: Vec<ConfiguredInputIdentity> = Vec::new();
    let mut i: usize = 0;
    while i < profile.ports.len()
        invariant
            i <= profile.ports.len(),
            identities.len() == i,
            forall|j: int|
                0 <= j < i ==> admitted(
                    *profile,
                    (#[trigger] profile.ports@[j]).name@,
                    refusal_at(refusals@, j),
                ) == Ok::<ConfiguredView, ErrorView>(identities@[j]@),
        decreases profile.ports.len() - i,
    {
        let refusal = copy_refusal(refusals, i);
        match configured_identity(profile, &profile.ports[i].name, refusal) {
            Ok(identity) => identities.push(identity),
            Err(error) => {
                proof {
                    assert(admitted(
                        *profile,
                        profile.ports@[i as int].name@,
                        refusal_at(refusals@, i as int),
                    ) is Err);
                }
                return Err(error);
            },
        }
        i = i + 1;
    }
    proof {
        assert forall|j: int| 0 <= j < identities@.len() implies configured(
            *profile,
            profile.ports@[j].name@,
        ) == Ok::<ConfiguredView, ErrorView>((#[trigger] identities@[j])@) by {
            assert(admitted(
                *profile,
                profile.ports@[j].name@,
                refusal_at(refusals@, j),
            ) is Ok);
        }
        assert forall|j: int| 0 <= j < profile.ports@.len() implies #[trigger] refusal_at(
            refusals@,
            j,
        ) is None by {
            assert(admitted(
                *profile,
                profile.ports@[j].name@,
                refusal_at(refusals@, j),
            ) is Ok);
        }
    }
    Ok(identities)
}

/// One port that was found on a device.
#[derive(Debug, Clone, PartialEq, Eq)]
pub struct ResolvedSourcePort {
    pub name: String,
}

/// A device that was found for a capture.
#[derive(Debug, Clone, PartialEq, Eq)]
pub struct ResolvedTarget {
    pub id: Option<u32>,
    pub name: String,
    pub channels: u32,
    pub sample_rate: u32,
    pub source_ports: Vec<ResolvedSourcePort>,
    pub durable_live_key: Option<(LiveDeviceKeyKind, String)>,
}

/// Whether a found device offers the ports that a profile asks for.
pub open spec fn target_matches(profile: ResolvedProfile, target: ResolvedTarget) -> bool {
    &&& profile.backend@ == "pipewire"@
    &&& profile.ports@.len() == target.source_ports@.len()
    &&& profile.ports@.len() == target.channels
}

/// The live input behind one port of a PipeWire device: there is one only where
/// the device has a key that outlives it.
pub open spec fn pipewire_live(target: ResolvedTarget, index: int) -> Option<LiveView> {
    match target.durable_live_key {
        Some((key_kind, key_value)) => Some(
            LiveView {
                backend: InputBackend::PipeWire,
                key_kind,
                key_value: key_value@,
                resolved_source: target.source_ports@[index].name@,
            },
        ),
        None => None,
    }
}

/// Whether this is the first of the refusals.
pub open spec fn is_first_refusal(
    refusals: Seq<Option<LambError>>,
    count: int,
    error: ErrorView,
) -> bool {
    exists|i: int|
        {
            &&& 0 <= i < count
            &&& #[trigger] refusal_at(refusals, i) == Some(error)
            &&& none_refused(refusals, i)
        }
}

/// Tells the live inputs behind the ports of a PipeWire profile, in order.
/// `refusals` tells for each of them why it is refused, if so; it counts only
/// where the device has a key that outlives it.
pub fn pipewire_live_identities(
    profile: &ResolvedProfile,
    target: &ResolvedTarget,
    refusals: &Vec<Option<LambError>>,
) -> (live: Result<Vec<Option<ResolvedLiveInputIdentity>>, LambError>)
    ensures
        match live {
            Ok(live) => {
                &&& target_matches(*profile, *target)
                &&& target.durable_live_key is Some ==> none_refused(
                    refusals@,
                    profile.ports.len() as int,
                )
                &&& live.len() == profile.ports.len()
                &&& forall|i: int|
                    0 <= i < live.len() ==> live_of(#[trigger] live@[i]) == pipewire_live(*target, i)
            },
            Err(error) => if target_matches(*profile, *target) {
                &&& target.durable_live_key is Some
                &&& is_first_refusal(refusals@, profile.ports.len() as int, error@)
            } else {
                error@ == ErrorView::Capture(
                    "configured PipeWire inputs do not match resolved capture sources"@,
                )
            },
        },
{
    let count: usize = profile.ports.len();
    if !text_is(&profile.backend, "pipewire") || count != target.source_ports.len() || count as u64
        != target.channels as u64 {
        return Err(
            LambError::Capture(
                "configured PipeWire inputs do not match resolved capture sources".to_string(),
            ),
        );
    }
    let mut live: Vec<Option<ResolvedLiveInputIdentity>> = Vec::new();
    let mut i: usize = 0;
    while i < count
        invariant
            i <= count,
            count == profile.ports.len(),
            count == target.source_ports.len(),
            target_matches(*profile, *target),
            live.len() == i,
            target.durable_live_key is Some ==> none_refused(refusals@, i as int),
            forall|j: int|
                0 <= j < i ==> live_of(#[trigger] live@[j]) == pipewire_live(*target, j),
        decreases count - i,
    {
        let identity = match &target.durable_live_key {
            Some((key_kind, key_value)) => {
                if let Some(refusal) = copy_refusal(refusals, i) {
                    return Err(refusal);
                }
                Some(
                    ResolvedLiveInputIdentity {
                        backend: InputBackend::PipeWire,
                        key_kind: *key_kind,
                        key_value: key_value.clone(),
                        resolved_source: target.source_ports[i].name.clone(),
                    },
                )
            },
            None => None,
        };
        live.push(identity);
        i = i + 1;
    }
    Ok(live)
}

/// The live input behind a JACK port: the client that the source names.
pub open spec fn jack_live(port: ResolvedCapturePort) -> Option<LiveView> {
    match before_colon(port.source@) {
        Some(client) => Some(
            LiveView {
                backend: InputBackend::Jack,
                key_kind: LiveDeviceKeyKind::JackSourceClient,
                key_value: client,
                resolved_source: port.source@,
            },
        ),
        None => None,
    }
}

/// Why there is no live input behind a JACK port, if so: its source names no
/// client, or the input is refused.
pub open spec fn jack_refusal(port: ResolvedCapturePort, refusal: Option<ErrorView>) -> Option<
    ErrorView,
> {
    if jack_live(port) is None {
        Some(incomplete_jack_source())
    } else {
        refusal
    }
}

/// Whether this is the error of the first JACK port without a live input.
pub open spec fn is_first_jack_error(
    profile: ResolvedProfile,
    refusals: Seq<Option<LambError>>,
    error: ErrorView,
) -> bool {
    exists|i: int|
        {
            &&& 0 <= i < profile.ports@.len()
            &&& jack_refusal(#[trigger] profile.ports@[i], refusal_at(refusals, i)) == Some(error)
            &&& forall|j: int|
                0 <= j < i ==> jack_refusal(
                    #[trigger] profile.ports@[j],
                    refusal_at(refusals, j),
                ) is None
        }
}

/// Tells the live inputs behind the ports of a JACK profile, in order. `refusals`
/// tells for each of them why it is refused, if so.
pub fn jack_live_identities(
    profile: &ResolvedProfile,
    refusals: &Vec<Option<LambError>>,
) -> (live: Result<Vec<Option<ResolvedLiveInputIdentity>>, LambError>)
    ensures
        match live {
            Ok(live) => {
                &&& profile.backend@ == "jack"@
                &&& none_refused(refusals@, profile.ports.len() as int)
                &&& live.len() == profile.ports.len()
                &&& forall|i: int|
                    0 <= i < live.len() ==> {
                        &&& live_of(#[trigger] live@[i]) == jack_live(profile.ports@[i])
                        &&& live@[i] is Some
                    }
            },
            Err(error) => if profile.backend@ == "jack"@ {
                is_first_jack_error(*profile, refusals@, error@)
            } else {
                error@ == ErrorView::Capture("JACK live identities require a JACK profile"@)
            },
        },
{
    if !text_is(&profile.backend, "jack") {
        return Err(
            LambError::Capture("JACK live identities require a JACK profile".to_string()),
        );
    }
    let mut live: Vec<Option<ResolvedLiveInputIdentity>> = Vec::new();
    let mut i: usize = 0;
    while i < profile.ports.len()
        invariant
            i <= profile.ports.len(),
            live.len() == i,
            profile.backend@ == "jack"@,
            none_refused(refusals@, i as int),
            forall|j: int|
                0 <= j < i ==> jack_refusal(
                    #[trigger] profile.ports@[j],
                    refusal_at(refusals@, j),
                ) is None,
            forall|j: int|
                0 <= j < i ==> {
                    &&& live_of(#[trigger] live@[j]) == jack_live(profile.ports@[j])
                    &&& live@[j] is Some
                },
        decreases profile.ports.len() - i,
    {
        let port = &profile.ports[i];
        let client = match split_before_colon(port.source.as_str()) {
            Some(client) => client,
            None => {
                proof {
                    assert(jack_refusal(
                        profile.ports@[i as int],
                        refusal_at(refusals@, i as int),
                    ) == Some(incomplete_jack_source()));
                }
                return Err(
                    LambError::Validation("JACK source must be a complete client:port".to_string()),
                );
            },
        };
        if let Some(refusal) = copy_refusal(refusals, i) {
            proof {
                assert(jack_refusal(
                    profile.ports@[i as int],
                    refusal_at(refusals@, i as int),
                ) == Some(refusal@));
            }
            return Err(refusal);
        }
        live.push(
            Some(
                ResolvedLiveInputIdentity {
                    backend: InputBackend::Jack,
                    key_kind: LiveDeviceKeyKind::JackSourceClient,
                    key_value: client,
                    resolved_source: port.source.clone(),
                },
            ),
        );
        i = i + 1;
    }
    Ok(live)
}

/// Whether a configured input and the live one behind it belong together. A
/// PipeWire input may have none; a JACK input has one under the name of its
/// client.
pub open spec fn coherent(configured: ConfiguredView, live: Option<LiveView>) -> bool {
    match (configured.backend, configured.selector, live) {
        (InputBackend::PipeWire, SelectorView::PipeWireTarget(_), None) => true,
        (InputBackend::PipeWire, SelectorView::PipeWireAuto, None) => true,
        (InputBackend::PipeWire, SelectorView::PipeWireTarget(_), Some(live)) => {
            pipewire_pair(configured, live)
        },
        (InputBackend::PipeWire, SelectorView::PipeWireAuto, Some(live)) => {
            pipewire_pair(configured, live)
        },
        (InputBackend::Jack, SelectorView::JackSourceClient(client), Some(live)) => {
            &&& live.backend == InputBackend::Jack
            &&& live.key_kind == LiveDeviceKeyKind::JackSourceClient
            &&& live.key_value == client
            &&& live.resolved_source == configured.source
            &&& before_colon(configured.source) == Some(client)
        },
        _ => false,
    }
}

/// Whether a PipeWire input and a live one belong together.
pub open spec fn pipewire_pair(configured: ConfiguredView, live: LiveView) -> bool {
    &&& live.backend == InputBackend::PipeWire
    &&& live.key_kind != LiveDeviceKeyKind::JackSourceClient
    &&& live.resolved_source == configured.source
}

/// Tells whether a configured input and the live one behind it belong together.
pub fn session_input_is_coherent(
    configured: &ConfiguredInputIdentity,
    live: &Option<ResolvedLiveInputIdentity>,
) -> (belong: bool)
    ensures
        belong == coherent(configured@, live_of(*live)),
{
    match (configured.backend, &configured.selector, live) {
        (InputBackend::PipeWire, ConfiguredDeviceSelector::PipeWireTarget(_), None)
        | (InputBackend::PipeWire, ConfiguredDeviceSelector::PipeWireAuto, None) => true,
        (InputBackend::PipeWire, ConfiguredDeviceSelector::PipeWireTarget(_), Some(live))
        | (InputBackend::PipeWire, ConfiguredDeviceSelector::PipeWireAuto, Some(live)) => {
            live.backend == InputBackend::PipeWire && live.key_kind
                != LiveDeviceKeyKind::JackSourceClient && live.resolved_source == configured.source
        },
        (InputBackend::Jack, ConfiguredDeviceSelector::JackSourceClient(client), Some(live)) => {
            let named = match split_before_colon(configured.source.as_str()) {
                Some(source_client) => source_client == *client,
                None => false,
            };
            live.backend == InputBackend::Jack && live.key_kind
                == LiveDeviceKeyKind::JackSourceClient && live.key_value == *client
                && live.resolved_source == configured.source && named
        },
        _ => false,
    }
}

/// Whether a profile and the live inputs behind its ports make up a session.
pub open spec fn inputs_are_coherent(
    inputs: Seq<ConfiguredInputIdentity>,
    live: Seq<Option<ResolvedLiveInputIdentity>>,
) -> bool {
    &&& inputs.len() == live.len()
    &&& inputs.len() > 0
    &&& forall|i: int|
        0 <= i < inputs.len() ==> coherent((#[trigger] inputs[i])@, live_of(live[i]))
}

/// Checks that a profile and the live inputs behind its ports make up a session.
/// `refusals` tells for each port why its configured input is refused, if so.
pub fn validate_app_session_inputs(
    profile: &ResolvedProfile,
    refusals: &Vec<Option<LambError>>,
    resolved_live_inputs: &Vec<Option<ResolvedLiveInputIdentity>>,
) -> (checked: Result<(Vec<ConfiguredInputIdentity>, u32), LambError>)
    ensures
        match checked {
            Ok((inputs, channel_count)) => {
                &&& are_configured(inputs@, *profile)
                &&& none_refused(refusals@, profile.ports.len() as int)
                &&& channel_count == profile.ports.len()
                &&& inputs_are_coherent(inputs@, resolved_live_inputs@)
            },
            Err(error) => {
                ||| is_first_configuration_error(*profile, refusals@, error@)
                ||| {
                    &&& none_refused(refusals@, profile.ports.len() as int)
                    &&& profile.ports.len() > u32::MAX
                    &&& error@ == ErrorView::Capture("profile channel count exceeds u32"@)
                }
                ||| {
                    &&& none_refused(refusals@, profile.ports.len() as int)
                    &&& profile.ports.len() <= u32::MAX
                    &&& error@ == ErrorView::Capture(
                        "configured and resolved session input ordering is incoherent"@,
                    )
                    &&& exists|named: Seq<ConfiguredInputIdentity>| #[trigger]
                        are_configured(named, *profile) && !inputs_are_coherent(
                            named,
                            resolved_live_inputs@,
                        )
                }
            },
        },
{
    let inputs = match configured_identities(profile, refusals) {
        Ok(inputs) => inputs,
        Err(error) => {
            return Err(error);
        },
    };
    let count: usize = profile.ports.len();
    if count as u64 > u32::MAX as u64 {
        return Err(LambError::Capture("profile channel count exceeds u32".to_string()));
    }
    let mut belong = inputs.len() == resolved_live_inputs.len() && count > 0;
    if belong {
        let mut i: usize = 0;
        while i < inputs.len()
            invariant
                i <= inputs.len(),
                inputs.len() == resolved_live_inputs.len(),
                belong ==> forall|j: int|
                    0 <= j < i ==> coherent(
                        (#[trigger] inputs@[j])@,
                        live_of(resolved_live_inputs@[j]),
                    ),
                !belong ==> !inputs_are_coherent(inputs@, resolved_live_inputs@),
            decreases inputs.len() - i,
        {
            if !session_input_is_coherent(&inputs[i], &resolved_live_inputs[i]) {
                proof {
                    assert(!coherent(inputs@[i as int]@, live_of(resolved_live_inputs@[i as int])));
                }
                belong = false;
            }
            i = i + 1;
        }
    }
    if !belong {
        proof {
            assert(are_configured(inputs@, *profile));
        }
        return Err(
            LambError::Capture(
                "configured and resolved session input ordering is incoherent".to_string(),
            ),
        );
    }
    Ok((inputs, count as u32))
}

/// The live inputs of a JACK profile belong to its configured ones: a JACK
/// profile whose sources all name a client makes up a session.
pub proof fn jack_inputs_belong_together(port: ResolvedCapturePort, target: Option<Seq<char>>)
    requires
        jack_live(port) is Some,
    ensures
        configured_port("jack"@, port, target) is Ok,
        coherent(configured_port("jack"@, port, target)->Ok_0, jack_live(port)),
{
    reveal_strlit("jack");
    reveal_strlit("pipewire");
    assert("jack"@.len() != "pipewire"@.len());
}

} // verus!
