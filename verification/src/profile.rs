//! Resolved profiles: what each setting of one stands for, when two are the same,
//! and how one is copied.

use crate::config::{activity_of, ThresholdView};
use crate::model::{
    ActivityChannel, ActivityDetectorKind, ActivityPolicy, ActivityThresholdConfig,
    ChannelExportMode, PipeWireCaptureConfig, ResolvedCapturePort, ResolvedExportPolicy,
    ResolvedLayout, ResolvedProfile,
};
use crate::text::{copy_text, text_of};
use vstd::prelude::*;

verus! {

/// The model of the activity rule of one channel.
pub struct RuleView {
    pub name: Seq<char>,
    pub mode: ChannelExportMode,
    pub threshold: Option<ThresholdView>,
}

/// The model of the activity rules of all channels.
pub struct ActivityView {
    pub detector: ActivityDetectorKind,
    pub rules: Seq<RuleView>,
    pub whole_export_exact_zero_gate: bool,
    pub trim_leading_silence: bool,
}

/// The model of an export policy.
pub struct PolicyView {
    pub output_dir: Seq<char>,
    pub layout: ResolvedLayout,
    pub activity: ActivityView,
}

/// The model of the PipeWire part of a profile.
pub struct PipeWireView {
    pub target: Option<Seq<char>>,
    pub capture_ports: Seq<(Seq<char>, Seq<char>)>,
    pub sample_rate: u32,
    pub dont_remix: bool,
    pub latency: Option<Seq<char>>,
}

/// The model of a resolved profile.
pub struct ResolvedProfileView {
    pub name: Seq<char>,
    pub backend: Seq<char>,
    pub client_name: Seq<char>,
    pub ports: Seq<(Seq<char>, Seq<char>)>,
    pub buffer_seconds: u32,
    pub export_policy: PolicyView,
    pub pipewire_config: Option<PipeWireView>,
}

impl View for ActivityChannel {
    type V = RuleView;

    open spec fn view(&self) -> RuleView {
        RuleView { name: self.name@, mode: self.mode, threshold: activity_of(self.threshold) }
    }
}

impl View for ActivityPolicy {
    type V = ActivityView;

    open spec fn view(&self) -> ActivityView {
        ActivityView {
            detector: self.detector,
            rules: self.channels@.map_values(|rule: ActivityChannel| rule@),
            whole_export_exact_zero_gate: self.whole_export_exact_zero_gate,
            trim_leading_silence: self.trim_leading_silence,
        }
    }
}

impl View for ResolvedExportPolicy {
    type V = PolicyView;

    open spec fn view(&self) -> PolicyView {
        PolicyView {
            output_dir: self.output_dir@,
            layout: self.layout,
            activity: self.activity@,
        }
    }
}

/// The model of a list of ports: the name and the source of each.
pub open spec fn ports_of(ports: Seq<ResolvedCapturePort>) -> Seq<(Seq<char>, Seq<char>)> {
    ports.map_values(|port: ResolvedCapturePort| (port.name@, port.source@))
}

impl View for PipeWireCaptureConfig {
    type V = PipeWireView;

    open spec fn view(&self) -> PipeWireView {
        PipeWireView {
            target: text_of(self.target),
            capture_ports: ports_of(self.capture_ports@),
            sample_rate: self.sample_rate,
            dont_remix: self.dont_remix,
            latency: text_of(self.latency),
        }
    }
}

impl View for ResolvedProfile {
    type V = ResolvedProfileView;

    open spec fn view(&self) -> ResolvedProfileView {
        ResolvedProfileView {
            name: self.name@,
            backend: self.backend@,
            client_name: self.client_name@,
            ports: ports_of(self.ports@),
            buffer_seconds: self.buffer_seconds,
            export_policy: self.export_policy@,
            pipewire_config: match self.pipewire_config {
                Some(config) => Some(config@),
                None => None,
            },
        }
    }
}

/// The bit pattern of the number minus zero: the sign alone.
pub const SIGN_BIT: u64 = 0x8000_0000_0000_0000;

/// The bit pattern of infinity. Above it, without the sign, no pattern stands for
/// a number.
pub const INFINITY_BITS: u64 = 0x7FF0_0000_0000_0000;

/// A bit pattern without its sign.
pub open spec fn magnitude(bits: u64) -> int {
    if bits >= SIGN_BIT {
        bits - SIGN_BIT
    } else {
        bits as int
    }
}

/// Whether two bit patterns stand for the same number. Zero has two patterns, and
/// one that stands for no number is the same as none, itself included.
pub open spec fn equal_levels(first: u64, second: u64) -> bool {
    &&& magnitude(first) <= INFINITY_BITS
    &&& magnitude(second) <= INFINITY_BITS
    &&& first == second || (magnitude(first) == 0 && magnitude(second) == 0)
}

/// Whether two thresholds are the same: the same level, of the same origin.
pub open spec fn equal_thresholds(
    first: Option<ThresholdView>,
    second: Option<ThresholdView>,
) -> bool {
    match (first, second) {
        (Some(first), Some(second)) => {
            &&& equal_levels(first.threshold_bits, second.threshold_bits)
            &&& first == (ThresholdView { threshold_bits: first.threshold_bits, ..second })
        },
        (None, None) => true,
        _ => false,
    }
}

/// Whether the rules of two channels are the same.
pub open spec fn equal_rules(first: RuleView, second: RuleView) -> bool {
    &&& first.name == second.name
    &&& first.mode == second.mode
    &&& equal_thresholds(first.threshold, second.threshold)
}

/// Whether two export policies are the same.
pub open spec fn equal_policies(first: PolicyView, second: PolicyView) -> bool {
    &&& first.output_dir == second.output_dir
    &&& first.layout == second.layout
    &&& first.activity.detector == second.activity.detector
    &&& first.activity.whole_export_exact_zero_gate
        == second.activity.whole_export_exact_zero_gate
    &&& first.activity.trim_leading_silence == second.activity.trim_leading_silence
    &&& first.activity.rules.len() == second.activity.rules.len()
    &&& forall|i: int|
        0 <= i < first.activity.rules.len() ==> equal_rules(
            #[trigger] first.activity.rules[i],
            second.activity.rules[i],
        )
}

/// Whether two profiles are the same in every setting.
pub open spec fn equal_profiles(first: ResolvedProfileView, second: ResolvedProfileView) -> bool {
    &&& equal_policies(first.export_policy, second.export_policy)
    &&& first == (ResolvedProfileView { export_policy: first.export_policy, ..second })
}

fn bare_level(bits: u64) -> (bare: u64)
    ensures
        bare == magnitude(bits),
{
    if bits >= SIGN_BIT {
        bits - SIGN_BIT
    } else {
        bits
    }
}

fn same_level(first: u64, second: u64) -> (same: bool)
    ensures
        same == equal_levels(first, second),
{
    bare_level(first) <= INFINITY_BITS && bare_level(second) <= INFINITY_BITS && (first == second
        || (bare_level(first) == 0 && bare_level(second) == 0))
}

fn same_text(first: &Option<String>, second: &Option<String>) -> (same: bool)
    ensures
        same == (text_of(*first) == text_of(*second)),
{
    match (first, second) {
        (Some(first), Some(second)) => *first == *second,
        (None, None) => true,
        _ => false,
    }
}

fn same_threshold(
    first: &Option<ActivityThresholdConfig>,
    second: &Option<ActivityThresholdConfig>,
) -> (same: bool)
    ensures
        same == equal_thresholds(activity_of(*first), activity_of(*second)),
{
    match (first, second) {
        (Some(first), Some(second)) => same_level(first.threshold_bits, second.threshold_bits)
            && first.threshold_source == second.threshold_source && first.updated_at_unix_seconds
            == second.updated_at_unix_seconds && first.input_id == second.input_id && same_text(
            &first.calibration_id,
            &second.calibration_id,
        ),
        (None, None) => true,
        _ => false,
    }
}

fn same_ports(first: &Vec<ResolvedCapturePort>, second: &Vec<ResolvedCapturePort>) -> (same: bool)
    ensures
        same == (ports_of(first@) == ports_of(second@)),
{
    let ghost one = ports_of(first@);
    let ghost two = ports_of(second@);
    if first.len() != second.len() {
        proof {
            assert(one.len() != two.len());
        }
        return false;
    }
    let mut i: usize = 0;
    while i < first.len()
        invariant
            i <= first.len(),
            first.len() == second.len(),
            one == ports_of(first@),
            two == ports_of(second@),
            forall|j: int| 0 <= j < i ==> one[j] == two[j],
        decreases first.len() - i,
    {
        if first[i].name != second[i].name || first[i].source != second[i].source {
            proof {
                assert(one[i as int] != two[i as int]);
            }
            return false;
        }
        i = i + 1;
    }
    proof {
        assert(one =~= two);
    }
    true
}

fn copy_ports(ports: &Vec<ResolvedCapturePort>) -> (copy: Vec<ResolvedCapturePort>)
    ensures
        copy@ == ports@,
{
    let mut copy: Vec<ResolvedCapturePort> = Vec::new();
    let mut i: usize = 0;
    while i < ports.len()
        invariant
            i <= ports.len(),
            copy@ == ports@.take(i as int),
        decreases ports.len() - i,
    {
        let port = &ports[i];
        copy.push(ResolvedCapturePort { name: port.name.clone(), source: port.source.clone() });
        i = i + 1;
        proof {
            assert(copy@ =~= ports@.take(i as int));
        }
    }
    proof {
        assert(copy@ =~= ports@);
    }
    copy
}

impl ActivityChannel {
    /// A second copy of the rule.
    pub fn duplicate(&self) -> (copy: ActivityChannel)
        ensures
            copy == *self,
    {
        ActivityChannel {
            name: self.name.clone(),
            mode: self.mode,
            threshold: match &self.threshold {
                Some(threshold) => Some(threshold.duplicate()),
                None => None,
            },
        }
    }
}

impl ActivityPolicy {
    /// A second copy of the activity rules.
    pub fn duplicate(&self) -> (copy: ActivityPolicy)
        ensures
            copy@ == self@,
            copy.channels@ == self.channels@,
    {
        let mut channels: Vec<ActivityChannel> = Vec::new();
        let mut i: usize = 0;
        while i < self.channels.len()
            invariant
                i <= self.channels.len(),
                channels@ == self.channels@.take(i as int),
            decreases self.channels.len() - i,
        {
            channels.push(self.channels[i].duplicate());
            i = i + 1;
            proof {
                assert(channels@ =~= self.channels@.take(i as int));
            }
        }
        proof {
            assert(channels@ =~= self.channels@);
        }
        ActivityPolicy {
            detector: self.detector,
            channels,
            whole_export_exact_zero_gate: self.whole_export_exact_zero_gate,
            trim_leading_silence: self.trim_leading_silence,
        }
    }
}

impl ResolvedExportPolicy {
    /// Whether two export policies are the same.
    pub fn same(&self, other: &ResolvedExportPolicy) -> (same: bool)
        ensures
            same == equal_policies(self@, other@),
    {
        let first = &self.activity.channels;
        let second = &other.activity.channels;
        if self.output_dir != other.output_dir || self.layout != other.layout
            || self.activity.detector != other.activity.detector
            || self.activity.whole_export_exact_zero_gate
            != other.activity.whole_export_exact_zero_gate || self.activity.trim_leading_silence
            != other.activity.trim_leading_silence || first.len() != second.len() {
            return false;
        }
        let ghost one = self@.activity.rules;
        let ghost two = other@.activity.rules;
        let mut i: usize = 0;
        while i < first.len()
            invariant
                i <= first.len(),
                first.len() == second.len(),
                one == self@.activity.rules,
                two == other@.activity.rules,
                one == first@.map_values(|rule: ActivityChannel| rule@),
                two == second@.map_values(|rule: ActivityChannel| rule@),
                forall|j: int| 0 <= j < i ==> equal_rules(#[trigger] one[j], two[j]),
            decreases first.len() - i,
        {
            if first[i].name != second[i].name || first[i].mode != second[i].mode
                || !same_threshold(&first[i].threshold, &second[i].threshold) {
                proof {
                    assert(one[i as int] == first@[i as int]@);
                    assert(two[i as int] == second@[i as int]@);
                    assert(!equal_rules(one[i as int], two[i as int]));
                }
                return false;
            }
            i = i + 1;
        }
        true
    }

    /// A second copy of the export policy.
    pub fn duplicate(&self) -> (copy: ResolvedExportPolicy)
        ensures
            copy@ == self@,
            copy.activity.channels@ == self.activity.channels@,
    {
        ResolvedExportPolicy {
            output_dir: self.output_dir.clone(),
            layout: self.layout,
            activity: self.activity.duplicate(),
        }
    }
}

impl PipeWireCaptureConfig {
    /// Whether the PipeWire parts of two profiles are the same.
    pub fn same(&self, other: &PipeWireCaptureConfig) -> (same: bool)
        ensures
            same == (self@ == other@),
    {
        same_text(&self.target, &other.target) && same_ports(
            &self.capture_ports,
            &other.capture_ports,
        ) && self.sample_rate == other.sample_rate && self.dont_remix == other.dont_remix
            && same_text(&self.latency, &other.latency)
    }

    /// A second copy of the PipeWire part of a profile.
    pub fn duplicate(&self) -> (copy: PipeWireCaptureConfig)
        ensures
            copy@ == self@,
    {
        PipeWireCaptureConfig {
            target: copy_text(&self.target),
            capture_ports: copy_ports(&self.capture_ports),
            sample_rate: self.sample_rate,
            dont_remix: self.dont_remix,
            latency: copy_text(&self.latency),
        }
    }
}

impl ResolvedProfile {
    /// Whether two profiles are the same in every setting.
    pub fn same(&self, other: &ResolvedProfile) -> (same: bool)
        ensures
            same == equal_profiles(self@, other@),
    {
        let same_pipewire = match (&self.pipewire_config, &other.pipewire_config) {
            (Some(first), Some(second)) => first.same(second),
            (None, None) => true,
            _ => false,
        };
        self.name == other.name && self.backend == other.backend && self.client_name
            == other.client_name && same_ports(&self.ports, &other.ports) && self.buffer_seconds
            == other.buffer_seconds && self.export_policy.same(&other.export_policy)
            && same_pipewire
    }

    /// A second copy of the profile.
    pub fn duplicate(&self) -> (copy: ResolvedProfile)
        ensures
            copy@ == self@,
            copy.ports@ == self.ports@,
            copy.name == self.name,
            copy.backend == self.backend,
    {
        ResolvedProfile {
            name: self.name.clone(),
            backend: self.backend.clone(),
            client_name: self.client_name.clone(),
            ports: copy_ports(&self.ports),
            buffer_seconds: self.buffer_seconds,
            export_policy: self.export_policy.duplicate(),
            pipewire_config: match &self.pipewire_config {
                Some(config) => Some(config.duplicate()),
                None => None,
            },
        }
    }
}

} // verus!
