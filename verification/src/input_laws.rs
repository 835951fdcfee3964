//! What holds of the inputs of a capture: how a port of a profile is configured, what is
//! found behind it, and that the two make up a session wherever they belong together; and
//! of the texts that all of it is made of.

use crate::error::LambError;
use crate::identity::{
    are_configured, coherent, configured, configured_identities, configured_identity,
    inputs_are_coherent, is_first_named, jack_live_identities, live_of,
    pipewire_live_identities, pipewire_selector, port_index, port_named, refusal_at,
    session_input_is_coherent, validate_app_session_inputs, ResolvedTarget,
};
use crate::model::{
    take_active_capture, ActiveCapture, AppRuntimeState, BackendKind, CaptureSession,
    ConfiguredDeviceSelector, ConfiguredInputIdentity, InputBackend, LiveDeviceKeyKind, Released,
    ResolvedCapturePort, ResolvedCaptureState, ResolvedExportPolicy, ResolvedLiveInputIdentity,
    ResolvedProfile,
};
use crate::session::{
    open_app_session, AppSource, FailedSession, PrivateAppCaptureAttempt, StartedAppCapture,
};
use crate::text::{
    all_digits, decimal, digit, first_at, is_space, join, low_digits,
    render_decimal, render_zero_padded, split_before_colon, text_is, text_of, trim, trimmed,
    trimmed_end, zero_padded,
};
use crate::threshold_laws::{lemma_ports_are_configured, ports_can_be_configured};
use vstd::prelude::*;

verus! {

/// Whether a character is one of those that Unicode counts as white space, by its number.
pub open spec fn is_white_space(c: char) -> bool {
    let number = c as int;
    ||| 9 <= number <= 13
    ||| number == 32
    ||| number == 133
    ||| number == 160
    ||| number == 5760
    ||| 8192 <= number <= 8202
    ||| number == 8232
    ||| number == 8233
    ||| number == 8239
    ||| number == 8287
    ||| number == 12288
}

proof fn lemma_end_of(text: Seq<char>) -> (to: int)
    ensures
        0 <= to <= text.len(),
        trimmed_end(text) == text.take(to),
        forall|i: int| to <= i < text.len() ==> is_space(#[trigger] text[i]),
        to > 0 ==> !is_space(text[to - 1]),
    decreases text.len(),
{
    if text.len() > 0 && is_space(text.last()) {
        let less = text.drop_last();
        let to = lemma_end_of(less);
        assert(less.take(to) =~= text.take(to));
        assert forall|i: int| to <= i < text.len() implies is_space(#[trigger] text[i]) by {
            if i < less.len() {
                assert(less[i] == text[i]);
            }
        }
        to
    } else {
        assert(text.take(text.len() as int) =~= text);
        text.len() as int
    }
}

proof fn lemma_ends_of(text: Seq<char>) -> (ends: (int, int))
    ensures
        0 <= ends.0 <= ends.1 <= text.len(),
        trimmed(text) == text.subrange(ends.0, ends.1),
        forall|i: int| 0 <= i < ends.0 ==> is_space(#[trigger] text[i]),
        forall|i: int| ends.1 <= i < text.len() ==> is_space(#[trigger] text[i]),
        ends.0 < ends.1 ==> !is_space(text[ends.0]) && !is_space(text[ends.1 - 1]),
    decreases text.len(),
{
    if text.len() > 0 && is_space(text[0]) {
        let rest = text.skip(1);
        let (from, to) = lemma_ends_of(rest);
        assert(rest.subrange(from, to) =~= text.subrange(from + 1, to + 1));
        assert forall|i: int| 0 <= i < from + 1 implies is_space(#[trigger] text[i]) by {
            if i > 0 {
                assert(rest[i - 1] == text[i]);
            }
        }
        assert forall|i: int| to + 1 <= i < text.len() implies is_space(#[trigger] text[i]) by {
            assert(rest[i - 1] == text[i]);
        }
        (from + 1, to + 1)
    } else {
        let to = lemma_end_of(text);
        assert(text.take(to) =~= text.subrange(0, to));
        (0, to)
    }
}

/// Of a text the white space at its two ends is taken off, all of it and nothing else.
pub proof fn trimming_takes_off_white_space(text: &str, rest: String)
    requires
        call_ensures(trim, (text,), rest),
    ensures
        exists|from: int, to: int|
            {
                &&& 0 <= from <= to <= text@.len()
                &&& rest@ == #[trigger] text@.subrange(from, to)
                &&& forall|i: int| 0 <= i < from ==> is_white_space(#[trigger] text@[i])
                &&& forall|i: int| to <= i < text@.len() ==> is_white_space(#[trigger] text@[i])
            },
        rest@.len() > 0 ==> !is_white_space(rest@[0]) && !is_white_space(rest@.last()),
{
    assert forall|c: char| #[trigger] is_space(c) == is_white_space(c) by {}
    let (from, to) = lemma_ends_of(text@);
    assert(rest@ == text@.subrange(from, to));
    assert forall|i: int| 0 <= i < from implies is_white_space(#[trigger] text@[i]) by {
        assert(is_space(text@[i]));
    }
    assert forall|i: int| to <= i < text@.len() implies is_white_space(#[trigger] text@[i]) by {
        assert(is_space(text@[i]));
    }
    if from < to {
        assert(rest@[0] == text@[from]);
        assert(rest@.last() == text@[to - 1]);
        assert(!is_space(text@[from]) && !is_space(text@[to - 1]));
    }
}

/// What is split off before the first colon has none, and stands before one.
pub proof fn a_split_is_at_the_first_colon(text: &str, part: Option<String>)
    requires
        call_ensures(split_before_colon, (text,), part),
    ensures
        part is Some <==> text@.contains(':'),
        part is Some ==> {
            &&& !part->0@.contains(':')
            &&& part->0@.len() < text@.len()
            &&& text@[part->0@.len() as int] == ':'
            &&& text@.take(part->0@.len() as int) == part->0@
        },
{
    if text@.contains(':') {
        text@.index_of_first_ensures(':');
        let place = text@.index_of_first(':')->0;
        assert(first_at(text@, ':', place));
        let found = choose|found: int| first_at(text@, ':', found);
        assert(first_at(text@, ':', found));
        let head = text@.take(found);
        assert(part->0@ == head);
        assert(!head.contains(':')) by {
            if head.contains(':') {
                let i = choose|i: int| 0 <= i < head.len() && head[i] == ':';
                assert(text@[i] == ':');
            }
        }
    }
}

/// The number that a row of decimal digits stands for.
pub open spec fn number_of(text: Seq<char>) -> int
    decreases text.len(),
{
    if text.len() == 0 {
        0
    } else {
        number_of(text.drop_last()) * 10 + (text.last() as int - '0' as int)
    }
}

proof fn lemma_decimal_reads_back(value: nat)
    ensures
        number_of(decimal(value)) == value,
        decimal(value).len() >= 1,
        decimal(value).len() > 1 ==> decimal(value)[0] != '0',
        all_digits(decimal(value)),
    decreases value,
{
    if value < 10 {
        let text = decimal(value);
        assert(text =~= seq![digit(value)]);
        assert(text.drop_last() =~= Seq::<char>::empty());
        assert(number_of(text.drop_last()) == 0);
    } else {
        lemma_decimal_reads_back(value / 10);
        let text = decimal(value);
        let start = decimal(value / 10);
        assert(text.drop_last() =~= start);
        assert(text[0] == start[0]);
        if start.len() == 1 {
            assert(start =~= seq![start[0]]);
            assert(value / 10 > 0);
            assert(start.drop_last() =~= Seq::<char>::empty());
            assert(number_of(start.drop_last()) == 0);
        }
    }
}

proof fn lemma_low_digits_read_back(value: nat, width: nat)
    requires
        value < crate::text::power_of_ten(width),
    ensures
        number_of(low_digits(value, width)) == value,
    decreases width,
{
    if width > 0 {
        lemma_low_digits_read_back(value / 10, (width - 1) as nat);
        let text = low_digits(value, width);
        assert(text.drop_last() =~= low_digits(value / 10, (width - 1) as nat));
    }
}

/// A number is written by its decimal digits: they stand for it, without zeros before.
pub proof fn numbers_read_back(value: u64, text: String)
    requires
        call_ensures(render_decimal, (value,), text),
    ensures
        number_of(text@) == value,
        all_digits(text@),
        text@.len() >= 1,
        text@.len() > 1 ==> text@[0] != '0',
{
    lemma_decimal_reads_back(value as nat);
}

/// A number that is filled with zeros up to a width has that width where it fits, and
/// stands for the same number.
pub proof fn filled_numbers_read_back(value: u64, width: u64, text: String)
    requires
        1 <= width,
        value < crate::text::power_of_ten(width as nat),
        call_ensures(render_zero_padded, (value, width), text),
    ensures
        number_of(text@) == value,
        text@.len() == width,
        all_digits(text@),
{
    lemma_filled_reads_back(value as nat, width as nat);
}

/// Filling a number with zeros does not change what it stands for.
pub proof fn lemma_filled_reads_back(value: nat, width: nat)
    requires
        1 <= width,
        value < crate::text::power_of_ten(width),
    ensures
        number_of(zero_padded(value, width)) == value,
        zero_padded(value, width).len() == width,
        all_digits(zero_padded(value, width)),
{
    crate::text::lemma_zero_padded_shape(value, width);
    lemma_decimal_reads_back(value);
    lemma_low_digits_read_back(value, width);
}

/// Two texts in a row, and texts that are the same.
pub proof fn texts_are_joined_and_compared(
    first: &str,
    second: &str,
    joined: String,
    text: &String,
    expected: &str,
    same: bool,
)
    requires
        call_ensures(join, (first, second), joined),
        call_ensures(text_is, (text, expected), same),
    ensures
        joined@.len() == first@.len() + second@.len(),
        joined@.take(first@.len() as int) == first@,
        joined@.skip(first@.len() as int) == second@,
        same <==> text@ == expected@,
{
    assert(joined@.take(first@.len() as int) =~= first@);
    assert(joined@.skip(first@.len() as int) =~= second@);
}

/// A PipeWire device is selected by its target where there is one to select by.
pub proof fn a_target_selects_its_device(
    target: Option<String>,
    selector: ConfiguredDeviceSelector,
)
    requires
        call_ensures(pipewire_selector, (target,), selector),
    ensures
        target is None || target->0@.len() == 0 ==> selector is PipeWireAuto,
        target is Some && target->0@.len() > 0 ==> {
            &&& selector is PipeWireTarget
            &&& selector->PipeWireTarget_0@ == target->0@
        },
{
}

/// A channel of a profile is configured as the first port of its name is: under the sound
/// system that the profile names, with the name and the source of the port, selected by
/// the target of the profile without white space around it with PipeWire, and by the
/// client that the source names with JACK.
pub proof fn a_channel_is_configured_as_its_port(
    profile: &ResolvedProfile,
    channel: &String,
    index: int,
    identity: Result<ConfiguredInputIdentity, LambError>,
    target: &str,
    trimmed_target: String,
    source: &str,
    client: Option<String>,
)
    requires
        0 <= index < profile.ports@.len(),
        profile.ports@[index].name@ == channel@,
        forall|i: int| 0 <= i < index ==> (#[trigger] profile.ports@[i]).name@ != channel@,
        call_ensures(configured_identity, (profile, channel, None), identity),
        profile.pipewire_config is Some && profile.pipewire_config->0.target is Some
            ==> target@ == profile.pipewire_config->0.target->0@,
        call_ensures(trim, (target,), trimmed_target),
        source@ == profile.ports@[index].source@,
        call_ensures(split_before_colon, (source,), client),
    ensures
        identity is Ok ==> {
            &&& identity->Ok_0.name@ == channel@
            &&& identity->Ok_0.source@ == profile.ports@[index].source@
        },
        profile.backend@ == "pipewire"@ ==> {
            let named = profile.pipewire_config is Some && profile.pipewire_config->0.target
                is Some && trimmed_target@.len() > 0;
            &&& identity is Ok
            &&& identity->Ok_0.backend == InputBackend::PipeWire
            &&& named ==> identity->Ok_0.selector is PipeWireTarget
                && identity->Ok_0.selector->PipeWireTarget_0@ == trimmed_target@
            &&& !named ==> identity->Ok_0.selector is PipeWireAuto
        },
        profile.backend@ == "jack"@ ==> {
            &&& identity is Ok <==> client is Some
            &&& identity is Ok ==> {
                &&& identity->Ok_0.backend == InputBackend::Jack
                &&& identity->Ok_0.selector is JackSourceClient
                &&& identity->Ok_0.selector->JackSourceClient_0@ == client->0@
            }
            &&& identity is Err ==> identity->Err_0 is Validation
                && identity->Err_0->Validation_0@
                == "JACK source must be a complete client:port"@
        },
        profile.backend@ != "pipewire"@ && profile.backend@ != "jack"@ ==> {
            &&& identity is Err
            &&& identity->Err_0 is Validation
            &&& identity->Err_0->Validation_0@ == "unsupported backend "@ + profile.backend@
        },
{
    let name = channel@;
    assert(is_first_named(profile.ports@, name, index));
    let chosen = choose|i: int| is_first_named(profile.ports@, name, i);
    assert(is_first_named(profile.ports@, name, chosen));
    if chosen < index {
        assert(profile.ports@[chosen].name@ != name);
    } else if index < chosen {
        assert(profile.ports@[index].name@ != name);
    }
    assert(port_named(profile.ports@, name) == Some(profile.ports@[index]));
    reveal_strlit("jack");
    reveal_strlit("pipewire");
    assert("jack"@.len() != "pipewire"@.len());
}

/// A channel that the profile does not have cannot be configured, and one that is refused
/// as a whole is not.
pub proof fn a_channel_that_is_not_there_is_refused(
    profile: &ResolvedProfile,
    channel: &String,
    identity: Result<ConfiguredInputIdentity, LambError>,
    refusal: LambError,
    refused: Result<ConfiguredInputIdentity, LambError>,
)
    requires
        call_ensures(configured_identity, (profile, channel, None), identity),
        call_ensures(configured_identity, (profile, channel, Some(refusal)), refused),
    ensures
        refused is Err,
        identity is Ok ==> refused->Err_0@ == refusal@,
        identity is Err ==> refused->Err_0@ == identity->Err_0@,
        (forall|i: int|
            0 <= i < profile.ports@.len() ==> (#[trigger] profile.ports@[i]).name@ != channel@)
            ==> {
            &&& identity is Err
            &&& identity->Err_0 is Config
            &&& identity->Err_0->Config_0@ == "profile "@ + profile.name@ + " has no channel "@
                + channel@
        },
{
    if forall|i: int|
        0 <= i < profile.ports@.len() ==> (#[trigger] profile.ports@[i]).name@ != channel@ {
        assert forall|i: int| !is_first_named(profile.ports@, channel@, i) by {
            if is_first_named(profile.ports@, channel@, i) {
                assert(profile.ports@[i].name@ != channel@);
            }
        }
    }
}

/// The port of a name is the first that has it.
pub proof fn a_port_is_found_first(
    ports: &Vec<ResolvedCapturePort>,
    name: &String,
    index: Option<usize>,
)
    requires
        call_ensures(port_index, (ports, name), index),
    ensures
        index is None <==> forall|i: int|
            0 <= i < ports@.len() ==> (#[trigger] ports@[i]).name@ != name@,
        index is Some ==> {
            &&& index->0 < ports@.len()
            &&& ports@[index->0 as int].name@ == name@
            &&& forall|i: int| 0 <= i < index->0 ==> (#[trigger] ports@[i]).name@ != name@
        },
{
    match index {
        Some(found) => {
            assert(is_first_named(ports@, name@, found as int));
            assert(ports@[found as int].name@ == name@);
        },
        None => {
            assert(crate::identity::none_named(ports@, name@));
        },
    }
}

/// A configured input and a live one belong together where they are of one sound system
/// and speak of the same source. With PipeWire the live one may be missing, and is known
/// by a key of its device; with JACK it is there, and is known by the client that the
/// source names.
pub proof fn inputs_that_belong_together(
    configured_input: &ConfiguredInputIdentity,
    live: &Option<ResolvedLiveInputIdentity>,
    belong: bool,
    source: &str,
    client: Option<String>,
)
    requires
        call_ensures(session_input_is_coherent, (configured_input, live), belong),
        source@ == configured_input.source@,
        call_ensures(split_before_colon, (source,), client),
    ensures
        configured_input.backend == InputBackend::PipeWire && !(configured_input.selector
            is JackSourceClient) ==> (belong <==> (*live is Some ==> {
            &&& live->0.backend == InputBackend::PipeWire
            &&& live->0.key_kind != LiveDeviceKeyKind::JackSourceClient
            &&& live->0.resolved_source@ == configured_input.source@
        })),
        configured_input.backend == InputBackend::Jack && configured_input.selector
            is JackSourceClient ==> (belong <==> {
            &&& *live is Some
            &&& live->0.backend == InputBackend::Jack
            &&& live->0.key_kind == LiveDeviceKeyKind::JackSourceClient
            &&& live->0.key_value@ == configured_input.selector->JackSourceClient_0@
            &&& live->0.resolved_source@ == configured_input.source@
            &&& client is Some
            &&& client->0@ == configured_input.selector->JackSourceClient_0@
        }),
        configured_input.backend == InputBackend::PipeWire && configured_input.selector
            is JackSourceClient ==> !belong,
        configured_input.backend == InputBackend::Jack && !(configured_input.selector
            is JackSourceClient) ==> !belong,
{
}

/// Two inputs are the same exactly where all that is said of them is.
pub proof fn inputs_are_the_same_in_all_they_say(
    one: &ConfiguredInputIdentity,
    other: &ConfiguredInputIdentity,
    same: bool,
    live: &ResolvedLiveInputIdentity,
    other_live: &ResolvedLiveInputIdentity,
    same_live: bool,
)
    requires
        call_ensures(ConfiguredInputIdentity::same, (one, other), same),
        call_ensures(ResolvedLiveInputIdentity::same, (live, other_live), same_live),
    ensures
        same <==> one.backend == other.backend && one.name@ == other.name@ && one.source@
            == other.source@ && match (one.selector, other.selector) {
            (
                ConfiguredDeviceSelector::PipeWireTarget(first),
                ConfiguredDeviceSelector::PipeWireTarget(second),
            ) => first@ == second@,
            (ConfiguredDeviceSelector::PipeWireAuto, ConfiguredDeviceSelector::PipeWireAuto) => {
                true
            },
            (
                ConfiguredDeviceSelector::JackSourceClient(first),
                ConfiguredDeviceSelector::JackSourceClient(second),
            ) => first@ == second@,
            _ => false,
        },
        same_live <==> live.backend == other_live.backend && live.key_kind == other_live.key_kind
            && live.key_value@ == other_live.key_value@ && live.resolved_source@
            == other_live.resolved_source@,
{
}

/// Two profiles that are the same agree in every setting.
pub proof fn profiles_that_are_the_same_agree(
    one: &ResolvedProfile,
    other: &ResolvedProfile,
    same: bool,
    index: int,
)
    requires
        call_ensures(ResolvedProfile::same, (one, other), same),
        same,
    ensures
        one.name@ == other.name@,
        one.backend@ == other.backend@,
        one.client_name@ == other.client_name@,
        one.buffer_seconds == other.buffer_seconds,
        one.ports@.len() == other.ports@.len(),
        0 <= index < one.ports@.len() ==> one.ports@[index].name@ == other.ports@[index].name@
            && one.ports@[index].source@ == other.ports@[index].source@,
        one.pipewire_config is Some <==> other.pipewire_config is Some,
        one.pipewire_config is Some ==> {
            &&& text_of(one.pipewire_config->0.target) == text_of(other.pipewire_config->0.target)
            &&& one.pipewire_config->0.sample_rate == other.pipewire_config->0.sample_rate
            &&& one.pipewire_config->0.dont_remix == other.pipewire_config->0.dont_remix
            &&& text_of(one.pipewire_config->0.latency) == text_of(
                other.pipewire_config->0.latency,
            )
        },
        one.export_policy.output_dir@ == other.export_policy.output_dir@,
        one.export_policy.layout == other.export_policy.layout,
        one.export_policy.activity.detector == other.export_policy.activity.detector,
        one.export_policy.activity.whole_export_exact_zero_gate
            == other.export_policy.activity.whole_export_exact_zero_gate,
        one.export_policy.activity.trim_leading_silence
            == other.export_policy.activity.trim_leading_silence,
        one.export_policy.activity.channels@.len() == other.export_policy.activity.channels@.len(),
        0 <= index < one.export_policy.activity.channels@.len() ==> {
            let rule = one.export_policy.activity.channels@[index];
            let against = other.export_policy.activity.channels@[index];
            &&& rule.name@ == against.name@
            &&& rule.mode == against.mode
            &&& rule.threshold is Some <==> against.threshold is Some
            &&& rule.threshold is Some ==> {
                &&& rule.threshold->0.threshold_source == against.threshold->0.threshold_source
                &&& rule.threshold->0.updated_at_unix_seconds
                    == against.threshold->0.updated_at_unix_seconds
                &&& rule.threshold->0.input_id@ == against.threshold->0.input_id@
                &&& text_of(rule.threshold->0.calibration_id) == text_of(
                    against.threshold->0.calibration_id,
                )
                &&& rule.threshold->0.threshold_bits == against.threshold->0.threshold_bits || {
                    &&& rule.threshold->0.threshold_bits % 0x8000_0000_0000_0000 == 0
                    &&& against.threshold->0.threshold_bits % 0x8000_0000_0000_0000 == 0
                }
            }
        },
{
    let first = one@;
    let second = other@;
    assert(first.ports.len() == one.ports@.len());
    assert(second.ports.len() == other.ports@.len());
    if 0 <= index < one.ports@.len() {
        assert(first.ports[index] == (one.ports@[index].name@, one.ports@[index].source@));
        assert(second.ports[index] == (other.ports@[index].name@, other.ports@[index].source@));
    }
    let rules = first.export_policy.activity.rules;
    let against = second.export_policy.activity.rules;
    assert(rules.len() == one.export_policy.activity.channels@.len());
    assert(against.len() == other.export_policy.activity.channels@.len());
    if 0 <= index < rules.len() {
        assert(rules[index] == one.export_policy.activity.channels@[index]@);
        assert(against[index] == other.export_policy.activity.channels@[index]@);
        assert(crate::profile::equal_rules(rules[index], against[index]));
    }
}

/// Whether all names of the ports of a profile differ.
pub open spec fn ports_have_names_of_their_own(profile: ResolvedProfile) -> bool {
    forall|i: int, j: int|
        #![trigger profile.ports@[i], profile.ports@[j]]
        0 <= i < j < profile.ports@.len() ==> profile.ports@[i].name@ != profile.ports@[j].name@
}

/// Whether nothing was refused.
pub open spec fn nothing_refused(refusals: Seq<Option<LambError>>) -> bool {
    forall|i: int| 0 <= i < refusals.len() ==> #[trigger] refusals[i] is None
}

proof fn lemma_own_port(profile: ResolvedProfile, index: int)
    requires
        ports_have_names_of_their_own(profile),
        0 <= index < profile.ports@.len(),
    ensures
        port_named(profile.ports@, profile.ports@[index].name@) == Some(profile.ports@[index]),
{
    let name = profile.ports@[index].name@;
    assert(is_first_named(profile.ports@, name, index)) by {
        assert forall|i: int| 0 <= i < index implies (#[trigger] profile.ports@[i]).name@
            != name by {
            assert(profile.ports@[index].name@ == name);
        }
    }
    let chosen = choose|i: int| is_first_named(profile.ports@, name, i);
    assert(is_first_named(profile.ports@, name, chosen));
    if chosen < index {
        assert(profile.ports@[chosen].name@ != profile.ports@[index].name@);
    } else if index < chosen {
        assert(profile.ports@[index].name@ != name);
    }
}

proof fn lemma_none_refused(refusals: Seq<Option<LambError>>)
    requires
        nothing_refused(refusals),
    ensures
        forall|i: int| #[trigger] refusal_at(refusals, i) is None,
{
    assert forall|i: int| #[trigger] refusal_at(refusals, i) is None by {
        if 0 <= i < refusals.len() {
            assert(refusals[i] is None);
        }
    }
}

/// A started JACK capture gets a session wherever it should: its profile is for JACK, has
/// ports with names of their own whose sources all name a client, and nothing was
/// refused. The session has the rate that was started and the name and the ports of the
/// profile; each of its inputs is found under the client that its source names.
pub proof fn a_jack_capture_gets_its_session<B, S>(
    profile: &ResolvedProfile,
    started: StartedAppCapture<B, S>,
    opened: Result<PrivateAppCaptureAttempt<B, S>, FailedSession<B, S>>,
)
    requires
        started.source is Jack,
        profile.backend@ == "jack"@,
        0 < profile.ports@.len() <= u32::MAX,
        ports_have_names_of_their_own(*profile),
        forall|i: int|
            0 <= i < profile.ports@.len() ==> (#[trigger] profile.ports@[i]).source@.contains(':'),
        nothing_refused(started.input_refusals@),
        nothing_refused(started.live_refusals@),
        call_ensures(open_app_session::<B, S>, (profile, started, true), opened),
    ensures
        opened is Ok,
        ({
            let session = opened->Ok_0.session;
            &&& opened->Ok_0.backend.kind == BackendKind::Jack
            &&& opened->Ok_0.backend.rate == started.sample_rate
            &&& opened->Ok_0.backend.error is None
            &&& opened->Ok_0.backend.resource == started.backend
            &&& opened->Ok_0.health == started.health
            &&& session.identity == started.identity
            &&& session.resource == started.memory
            &&& session.sample_rate == started.sample_rate
            &&& session.channel_count == profile.ports@.len()
            &&& session.profile_name@ == profile.name@
            &&& session.policy@ == profile.export_policy@
            &&& session.calibration_sample_frames == started.calibration_sample_frames
            &&& !session.policy_poisoned
            &&& !session.workspace_poisoned
            &&& session.configured_inputs@.len() == profile.ports@.len()
            &&& session.resolved_live_inputs@.len() == profile.ports@.len()
            &&& forall|i: int|
                0 <= i < profile.ports@.len() ==> {
                    let input = #[trigger] session.configured_inputs@[i];
                    let live = session.resolved_live_inputs@[i];
                    &&& input.backend == InputBackend::Jack
                    &&& input.name@ == profile.ports@[i].name@
                    &&& input.source@ == profile.ports@[i].source@
                    &&& input.selector is JackSourceClient
                    &&& live is Some
                    &&& live->0.backend == InputBackend::Jack
                    &&& live->0.key_kind == LiveDeviceKeyKind::JackSourceClient
                    &&& live->0.key_value@ == input.selector->JackSourceClient_0@
                    &&& live->0.resolved_source@ == profile.ports@[i].source@
                }
        }),
{
    reveal_strlit("jack");
    reveal_strlit("pipewire");
    assert("jack"@.len() != "pipewire"@.len());
    lemma_none_refused(started.input_refusals@);
    lemma_none_refused(started.live_refusals@);
    assert forall|i: int| 0 <= i < profile.ports@.len() implies {
        &&& configured(*profile, (#[trigger] profile.ports@[i]).name@)
            == crate::identity::configured_port(
            "jack"@,
            profile.ports@[i],
            crate::identity::configured_target(*profile),
        )
        &&& crate::identity::jack_live(profile.ports@[i]) is Some
        &&& configured(*profile, profile.ports@[i].name@) is Ok
    } by {
        lemma_own_port(*profile, i);
        assert(profile.ports@[i].source@.contains(':'));
    }
    if opened is Err {
        let error = opened->Err_0.error@;
        lemma_jack_inputs_fit(*profile, started.source, started.live_refusals@);
        assert(!crate::session::live_error_is(
            error,
            *profile,
            started.source,
            started.live_refusals@,
        ));
        let live = choose|live: Seq<Option<ResolvedLiveInputIdentity>>| #[trigger]
            crate::session::live_inputs_are(
                live,
                *profile,
                started.source,
                started.live_refusals@,
            ) && crate::session::session_refused(
                error,
                *profile,
                started.input_refusals@,
                live,
            );
        assert(crate::session::live_inputs_are(
            live,
            *profile,
            started.source,
            started.live_refusals@,
        ));
        assert(!crate::identity::is_first_configuration_error(
            *profile,
            started.input_refusals@,
            error,
        )) by {
            assert forall|i: int| 0 <= i < profile.ports@.len() implies
                crate::identity::admitted(
                *profile,
                (#[trigger] profile.ports@[i]).name@,
                refusal_at(started.input_refusals@, i),
            ) is Ok by {
                assert(refusal_at(started.input_refusals@, i) is None);
            }
        }
        let inputs = choose|inputs: Seq<ConfiguredInputIdentity>| #[trigger]
            are_configured(inputs, *profile) && !inputs_are_coherent(inputs, live);
        assert forall|i: int| 0 <= i < inputs.len() implies coherent(
            (#[trigger] inputs[i])@,
            live_of(live[i]),
        ) by {
            assert(profile.ports@[i].source@.contains(':'));
            assert(live_of(live[i]) == crate::identity::jack_live(profile.ports@[i]));
        }
        assert(inputs_are_coherent(inputs, live));
        assert(false);
    } else {
        let session = opened->Ok_0.session;
        assert forall|i: int| 0 <= i < profile.ports@.len() implies {
            let input = #[trigger] session.configured_inputs@[i];
            let live = session.resolved_live_inputs@[i];
            &&& input.backend == InputBackend::Jack
            &&& input.name@ == profile.ports@[i].name@
            &&& input.source@ == profile.ports@[i].source@
            &&& input.selector is JackSourceClient
            &&& live is Some
            &&& live->0.backend == InputBackend::Jack
            &&& live->0.key_kind == LiveDeviceKeyKind::JackSourceClient
            &&& live->0.key_value@ == input.selector->JackSourceClient_0@
            &&& live->0.resolved_source@ == profile.ports@[i].source@
        } by {
            assert(profile.ports@[i].source@.contains(':'));
            let live = session.resolved_live_inputs@;
            assert(live_of(live[i]) == crate::identity::jack_live(profile.ports@[i]));
            assert(coherent(session.configured_inputs@[i]@, live_of(live[i])));
        }
    }
}

proof fn lemma_jack_inputs_fit(
    profile: ResolvedProfile,
    source: AppSource,
    refusals: Seq<Option<LambError>>,
)
    requires
        source is Jack,
        profile.backend@ == "jack"@,
        forall|i: int|
            0 <= i < profile.ports@.len() ==> (#[trigger] profile.ports@[i]).source@.contains(':'),
        nothing_refused(refusals),
    ensures
        forall|error: crate::error::ErrorView|
            !#[trigger] crate::session::live_error_is(error, profile, source, refusals),
{
    lemma_none_refused(refusals);
    assert forall|error: crate::error::ErrorView|
        !#[trigger] crate::session::live_error_is(error, profile, source, refusals) by {
        if crate::identity::is_first_jack_error(profile, refusals, error) {
            let i = choose|i: int|
                {
                    &&& 0 <= i < profile.ports@.len()
                    &&& crate::identity::jack_refusal(
                        #[trigger] profile.ports@[i],
                        refusal_at(refusals, i),
                    ) == Some(error)
                };
            assert(profile.ports@[i].source@.contains(':'));
            assert(refusal_at(refusals, i) is None);
        }
    }
}

/// A started PipeWire capture gets a session wherever it should: its profile is for
/// PipeWire, has ports with names of their own, and the device that was found offers
/// exactly their sources, in order. Its inputs are found under the key of the device,
/// where that has one that outlives it.
pub proof fn a_pipewire_capture_gets_its_session<B, S>(
    profile: &ResolvedProfile,
    started: StartedAppCapture<B, S>,
    target: ResolvedTarget,
    opened: Result<PrivateAppCaptureAttempt<B, S>, FailedSession<B, S>>,
)
    requires
        started.source == AppSource::PipeWire(target),
        profile.backend@ == "pipewire"@,
        0 < profile.ports@.len() <= u32::MAX,
        ports_have_names_of_their_own(*profile),
        target.channels == profile.ports@.len(),
        target.source_ports@.len() == profile.ports@.len(),
        forall|i: int|
            0 <= i < profile.ports@.len() ==> (#[trigger] target.source_ports@[i]).name@
                == profile.ports@[i].source@,
        target.durable_live_key is Some ==> (target.durable_live_key->0).0
            != LiveDeviceKeyKind::JackSourceClient,
        nothing_refused(started.input_refusals@),
        nothing_refused(started.live_refusals@),
        call_ensures(open_app_session::<B, S>, (profile, started, true), opened),
    ensures
        opened is Ok,
        ({
            let session = opened->Ok_0.session;
            &&& opened->Ok_0.backend.kind == BackendKind::PipeWire
            &&& opened->Ok_0.backend.rate == started.sample_rate
            &&& opened->Ok_0.backend.resource == started.backend
            &&& opened->Ok_0.health == started.health
            &&& session.identity == started.identity
            &&& session.resource == started.memory
            &&& session.sample_rate == started.sample_rate
            &&& session.channel_count == profile.ports@.len()
            &&& session.profile_name@ == profile.name@
            &&& session.policy@ == profile.export_policy@
            &&& session.calibration_sample_frames == started.calibration_sample_frames
            &&& session.configured_inputs@.len() == profile.ports@.len()
            &&& session.resolved_live_inputs@.len() == profile.ports@.len()
            &&& forall|i: int|
                0 <= i < profile.ports@.len() ==> {
                    let input = #[trigger] session.configured_inputs@[i];
                    let live = session.resolved_live_inputs@[i];
                    &&& input.backend == InputBackend::PipeWire
                    &&& input.name@ == profile.ports@[i].name@
                    &&& input.source@ == profile.ports@[i].source@
                    &&& live is Some <==> target.durable_live_key is Some
                    &&& live is Some ==> {
                        &&& live->0.backend == InputBackend::PipeWire
                        &&& live->0.key_kind == (target.durable_live_key->0).0
                        &&& live->0.key_value@ == (target.durable_live_key->0).1@
                        &&& live->0.resolved_source@ == profile.ports@[i].source@
                    }
                }
        }),
{
    lemma_none_refused(started.input_refusals@);
    lemma_none_refused(started.live_refusals@);
    assert forall|i: int| 0 <= i < profile.ports@.len() implies {
        &&& configured(*profile, (#[trigger] profile.ports@[i]).name@)
            == crate::identity::configured_port(
            "pipewire"@,
            profile.ports@[i],
            crate::identity::configured_target(*profile),
        )
        &&& configured(*profile, profile.ports@[i].name@) is Ok
    } by {
        lemma_own_port(*profile, i);
    }
    if opened is Err {
        let error = opened->Err_0.error@;
        assert(crate::identity::target_matches(*profile, target));
        assert(!crate::session::live_error_is(
            error,
            *profile,
            started.source,
            started.live_refusals@,
        )) by {
            if crate::identity::is_first_refusal(
                started.live_refusals@,
                profile.ports@.len() as int,
                error,
            ) {
                let i = choose|i: int|
                    {
                        &&& 0 <= i < profile.ports@.len()
                        &&& #[trigger] refusal_at(started.live_refusals@, i) == Some(error)
                    };
                assert(refusal_at(started.live_refusals@, i) is None);
            }
        }
        let live = choose|live: Seq<Option<ResolvedLiveInputIdentity>>| #[trigger]
            crate::session::live_inputs_are(
                live,
                *profile,
                started.source,
                started.live_refusals@,
            ) && crate::session::session_refused(
                error,
                *profile,
                started.input_refusals@,
                live,
            );
        assert(crate::session::live_inputs_are(
            live,
            *profile,
            started.source,
            started.live_refusals@,
        ));
        assert(!crate::identity::is_first_configuration_error(
            *profile,
            started.input_refusals@,
            error,
        )) by {
            assert forall|i: int| 0 <= i < profile.ports@.len() implies
                crate::identity::admitted(
                *profile,
                (#[trigger] profile.ports@[i]).name@,
                refusal_at(started.input_refusals@, i),
            ) is Ok by {
                assert(refusal_at(started.input_refusals@, i) is None);
            }
        }
        let inputs = choose|inputs: Seq<ConfiguredInputIdentity>| #[trigger]
            are_configured(inputs, *profile) && !inputs_are_coherent(inputs, live);
        assert forall|i: int| 0 <= i < inputs.len() implies coherent(
            (#[trigger] inputs[i])@,
            live_of(live[i]),
        ) by {
            assert(configured(*profile, profile.ports@[i].name@) is Ok);
            assert(target.source_ports@[i].name@ == profile.ports@[i].source@);
            assert(live_of(live[i]) == crate::identity::pipewire_live(target, i));
        }
        assert(inputs_are_coherent(inputs, live));
        assert(false);
    } else {
        let session = opened->Ok_0.session;
        assert forall|i: int| 0 <= i < profile.ports@.len() implies {
            let input = #[trigger] session.configured_inputs@[i];
            let live = session.resolved_live_inputs@[i];
            &&& input.backend == InputBackend::PipeWire
            &&& input.name@ == profile.ports@[i].name@
            &&& input.source@ == profile.ports@[i].source@
            &&& live is Some <==> target.durable_live_key is Some
            &&& live is Some ==> {
                &&& live->0.backend == InputBackend::PipeWire
                &&& live->0.key_kind == (target.durable_live_key->0).0
                &&& live->0.key_value@ == (target.durable_live_key->0).1@
                &&& live->0.resolved_source@ == profile.ports@[i].source@
            }
        } by {
            let live = session.resolved_live_inputs@;
            assert(configured(*profile, profile.ports@[i].name@) is Ok);
            assert(target.source_ports@[i].name@ == profile.ports@[i].source@);
            assert(live_of(live[i]) == crate::identity::pipewire_live(target, i));
        }
    }
}

/// What was started and gets no session is handed back whole, with why; an operation whose
/// place was taken gets none.
pub proof fn a_capture_without_a_session_is_handed_back<B, S>(
    profile: &ResolvedProfile,
    started: StartedAppCapture<B, S>,
    current: bool,
    opened: Result<PrivateAppCaptureAttempt<B, S>, FailedSession<B, S>>,
)
    requires
        call_ensures(open_app_session::<B, S>, (profile, started, current), opened),
    ensures
        !current ==> {
            &&& opened is Err
            &&& opened->Err_0.error is Control
            &&& opened->Err_0.error->Control_0@ == "capture operation superseded"@
        },
        opened is Err ==> {
            &&& opened->Err_0.backend.resource == started.backend
            &&& opened->Err_0.backend.rate == started.sample_rate
            &&& opened->Err_0.memory == started.memory
            &&& started.source is Jack ==> opened->Err_0.backend.kind == BackendKind::Jack
            &&& started.source is PipeWire ==> opened->Err_0.backend.kind == BackendKind::PipeWire
        },
        opened is Ok ==> {
            &&& started.source is Jack ==> profile.backend@ == "jack"@
            &&& started.source is PipeWire ==> profile.backend@ == "pipewire"@
        },
{
}

/// Live inputs are told only for the sound system that the profile names, one for each
/// port.
pub proof fn live_inputs_are_those_of_the_profile(
    profile: &ResolvedProfile,
    target: &ResolvedTarget,
    refusals: &Vec<Option<LambError>>,
    jack: Result<Vec<Option<ResolvedLiveInputIdentity>>, LambError>,
    pipewire: Result<Vec<Option<ResolvedLiveInputIdentity>>, LambError>,
)
    requires
        call_ensures(jack_live_identities, (profile, refusals), jack),
        call_ensures(pipewire_live_identities, (profile, target, refusals), pipewire),
    ensures
        jack is Ok ==> profile.backend@ == "jack"@ && jack->Ok_0@.len() == profile.ports@.len(),
        pipewire is Ok ==> profile.backend@ == "pipewire"@ && pipewire->Ok_0@.len()
            == profile.ports@.len(),
        profile.backend@ != "jack"@ ==> jack->Err_0 is Capture && jack->Err_0->Capture_0@
            == "JACK live identities require a JACK profile"@,
        profile.backend@ != "pipewire"@ || profile.ports@.len() != target.source_ports@.len()
            || profile.ports@.len() != target.channels ==> pipewire->Err_0 is Capture
            && pipewire->Err_0->Capture_0@
            == "configured PipeWire inputs do not match resolved capture sources"@,
{
}

/// All ports of a profile are configured as each of them is, in order.
pub proof fn all_ports_are_configured_in_order(
    profile: &ResolvedProfile,
    refusals: &Vec<Option<LambError>>,
    identities: Result<Vec<ConfiguredInputIdentity>, LambError>,
    index: int,
    channel: &String,
    one: Result<ConfiguredInputIdentity, LambError>,
)
    requires
        call_ensures(configured_identities, (profile, refusals), identities),
        0 <= index < profile.ports@.len(),
        channel@ == profile.ports@[index].name@,
        call_ensures(configured_identity, (profile, channel, None), one),
    ensures
        identities is Ok ==> {
            &&& identities->Ok_0@.len() == profile.ports@.len()
            &&& one is Ok
            &&& identities->Ok_0@[index]@ == one->Ok_0@
        },
        nothing_refused(refusals@) && ports_can_be_configured(*profile) ==> identities is Ok,
{
    if identities is Ok {
        assert(configured(*profile, profile.ports@[index].name@) == Ok::<
            crate::identity::ConfiguredView,
            crate::error::ErrorView,
        >(identities->Ok_0@[index]@));
    }
    if nothing_refused(refusals@) && ports_can_be_configured(*profile) && identities is Err {
        lemma_none_refused(refusals@);
        let error = identities->Err_0@;
        let i = choose|i: int|
            {
                &&& 0 <= i < profile.ports@.len()
                &&& crate::identity::admitted(
                    *profile,
                    (#[trigger] profile.ports@[i]).name@,
                    refusal_at(refusals@, i),
                ) == Err::<crate::identity::ConfiguredView, crate::error::ErrorView>(error)
            };
        lemma_ports_are_configured(*profile, i);
        assert(refusal_at(refusals@, i) is None);
    }
}

/// Inputs that are found good for a session are as many as the ports of the profile and
/// as what was found behind them, and each belongs with what was found in its place.
pub proof fn inputs_of_a_session_belong_together(
    profile: &ResolvedProfile,
    refusals: &Vec<Option<LambError>>,
    live: &Vec<Option<ResolvedLiveInputIdentity>>,
    checked: Result<(Vec<ConfiguredInputIdentity>, u32), LambError>,
    index: int,
    belong: bool,
)
    requires
        call_ensures(validate_app_session_inputs, (profile, refusals, live), checked),
        checked is Ok,
        0 <= index < profile.ports@.len(),
        call_ensures(
            session_input_is_coherent,
            (&(checked->Ok_0).0@[index], &live@[index]),
            belong,
        ),
    ensures
        belong,
        (checked->Ok_0).1 == profile.ports@.len(),
        (checked->Ok_0).0@.len() == profile.ports@.len(),
        live@.len() == profile.ports@.len(),
        index < refusals@.len() ==> refusals@[index] is None,
{
    assert(refusal_at(refusals@, index) is None);
}

/// The session of a capture of the older format is what the capture turned out to be.
pub proof fn a_legacy_session_is_its_capture<S>(
    memory: S,
    identity: u64,
    policy: ResolvedExportPolicy,
    resolved: &ResolvedCaptureState,
    session: CaptureSession<S>,
)
    requires
        call_ensures(
            CaptureSession::<S>::from_legacy_runtime,
            (memory, identity, policy, resolved),
            session,
        ),
    ensures
        session.resource == memory,
        session.identity == identity,
        session.policy == policy,
        session.sample_rate == resolved.sample_rate,
        session.channel_count == resolved.channel_count,
        session.profile_name@ == "legacy"@,
        session.configured_inputs@.len() == 0,
        session.resolved_live_inputs@.len() == 0,
        session.calibration_sample_frames == 0,
        !session.policy_poisoned,
        !session.workspace_poisoned,
{
}

/// Taking the capture out of a state hands out all of it and leaves nothing of it, and
/// nothing else changes; giving up a started one hands out all of that.
pub proof fn a_capture_is_taken_out_whole<B, S>(
    runtime: &mut AppRuntimeState<B, S>,
    released: Released<B, S>,
    active: ActiveCapture<B, S>,
    given_up: Released<B, S>,
    attempt: PrivateAppCaptureAttempt<B, S>,
    attempt_given_up: Released<B, S>,
)
    requires
        call_ensures(take_active_capture::<B, S>, (runtime,), released),
        call_ensures(ActiveCapture::<B, S>::release, (active,), given_up),
        call_ensures(PrivateAppCaptureAttempt::<B, S>::release, (attempt,), attempt_given_up),
    ensures
        released.backend == old(runtime).capture,
        released.session == old(runtime).session,
        final(runtime).capture is None,
        final(runtime).session is None,
        final(runtime).capture_health is None,
        final(runtime).resolved_capture is None,
        final(runtime).config == old(runtime).config,
        final(runtime).state == old(runtime).state,
        final(runtime).active_profile == old(runtime).active_profile,
        final(runtime).prepared_legacy == old(runtime).prepared_legacy,
        final(runtime).lifecycle@ == old(runtime).lifecycle@,
        given_up.backend == Some(active.backend),
        given_up.session == Some(active.session),
        attempt_given_up.backend == Some(attempt.backend),
        attempt_given_up.session == Some(attempt.session),
{
}

} // verus!
