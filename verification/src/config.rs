//! The stored thresholds of a configuration: looking one up, changing one, and
//! telling which calibrations are still referred to.

use crate::model::{
    ActivityThresholdConfig, AppConfig, ChannelConfig, DaemonConfig, ProfileConfig,
    ThresholdSource,
};
use crate::text::{copy_text, is_first_name, lemma_place_of, place_of, text_of};
use vstd::prelude::*;

verus! {

/// The model of a stored threshold.
pub struct ThresholdView {
    pub threshold_bits: u64,
    pub threshold_source: ThresholdSource,
    pub updated_at_unix_seconds: u64,
    pub input_id: Seq<char>,
    pub calibration_id: Option<Seq<char>>,
}

/// The model of a channel.
pub struct ChannelView {
    pub name: Seq<char>,
    pub activity: Option<ThresholdView>,
}

/// The model of a profile.
pub struct ProfileView {
    pub name: Seq<char>,
    pub channels: Seq<ChannelView>,
}

/// The model of a configuration.
pub struct ConfigView {
    pub start_mode: Seq<char>,
    pub active_profile: Option<Seq<char>>,
    pub control_socket_path: Seq<char>,
    pub profiles: Seq<ProfileView>,
}

impl View for ActivityThresholdConfig {
    type V = ThresholdView;

    open spec fn view(&self) -> ThresholdView {
        ThresholdView {
            threshold_bits: self.threshold_bits,
            threshold_source: self.threshold_source,
            updated_at_unix_seconds: self.updated_at_unix_seconds,
            input_id: self.input_id@,
            calibration_id: text_of(self.calibration_id),
        }
    }
}

/// The model of an optional stored threshold.
pub open spec fn activity_of(activity: Option<ActivityThresholdConfig>) -> Option<ThresholdView> {
    match activity {
        Some(threshold) => Some(threshold@),
        None => None,
    }
}

impl View for ChannelConfig {
    type V = ChannelView;

    open spec fn view(&self) -> ChannelView {
        ChannelView { name: self.name@, activity: activity_of(self.activity) }
    }
}

impl View for ProfileConfig {
    type V = ProfileView;

    open spec fn view(&self) -> ProfileView {
        ProfileView {
            name: self.name@,
            channels: self.channels@.map_values(|channel: ChannelConfig| channel@),
        }
    }
}

impl View for AppConfig {
    type V = ConfigView;

    open spec fn view(&self) -> ConfigView {
        ConfigView {
            start_mode: self.daemon.start_mode@,
            active_profile: text_of(self.daemon.active_profile),
            control_socket_path: self.daemon.control_socket_path@,
            profiles: self.profiles@.map_values(|profile: ProfileConfig| profile@),
        }
    }
}

/// The names of a list of channels.
pub open spec fn channel_names(channels: Seq<ChannelView>) -> Seq<Seq<char>> {
    channels.map_values(|channel: ChannelView| channel.name)
}

/// The names of a list of profiles.
pub open spec fn profile_names(profiles: Seq<ProfileView>) -> Seq<Seq<char>> {
    profiles.map_values(|profile: ProfileView| profile.name)
}

impl ProfileView {
    /// The stored threshold of a channel, if there is one.
    pub open spec fn threshold(self, channel: Seq<char>) -> Option<ThresholdView> {
        match place_of(channel_names(self.channels), channel) {
            Some(place) => self.channels[place].activity,
            None => None,
        }
    }

    /// The profile after the threshold of a channel was set or taken away. A
    /// channel that was not there is added.
    pub open spec fn with_threshold(
        self,
        channel: Seq<char>,
        activity: Option<ThresholdView>,
    ) -> ProfileView {
        let changed = ChannelView { name: channel, activity };
        ProfileView {
            channels: match place_of(channel_names(self.channels), channel) {
                Some(place) => self.channels.update(place, changed),
                None => self.channels.push(changed),
            },
            ..self
        }
    }
}

impl ConfigView {
    /// Whether there is a profile of the given name.
    pub open spec fn has_profile(self, name: Seq<char>) -> bool {
        place_of(profile_names(self.profiles), name) is Some
    }

    /// The profile of the given name.
    pub open spec fn profile(self, name: Seq<char>) -> ProfileView
        recommends
            self.has_profile(name),
    {
        self.profiles[place_of(profile_names(self.profiles), name)->0]
    }

    /// The stored threshold of a channel of a profile, if there is one.
    pub open spec fn threshold(self, profile: Seq<char>, channel: Seq<char>) -> Option<
        ThresholdView,
    > {
        if self.has_profile(profile) {
            self.profile(profile).threshold(channel)
        } else {
            None
        }
    }

    /// The configuration after the threshold of a channel was set or taken away.
    pub open spec fn with_threshold(
        self,
        profile: Seq<char>,
        channel: Seq<char>,
        activity: Option<ThresholdView>,
    ) -> ConfigView {
        match place_of(profile_names(self.profiles), profile) {
            Some(place) => ConfigView {
                profiles: self.profiles.update(
                    place,
                    self.profiles[place].with_threshold(channel, activity),
                ),
                ..self
            },
            None => self,
        }
    }

    /// Whether a stored threshold refers to the given calibration of the given
    /// input.
    pub open spec fn refers_to(self, input_id: Seq<char>, calibration_id: Seq<char>) -> bool {
        exists|p: int, c: int| #[trigger] self.refers_at(p, c, input_id, calibration_id)
    }

    /// Whether the stored threshold at the given place refers to the given
    /// calibration.
    pub open spec fn refers_at(
        self,
        p: int,
        c: int,
        input_id: Seq<char>,
        calibration_id: Seq<char>,
    ) -> bool {
        &&& 0 <= p < self.profiles.len()
        &&& 0 <= c < self.profiles[p].channels.len()
        &&& self.profiles[p].channels[c].activity is Some
        &&& self.profiles[p].channels[c].activity->0.input_id == input_id
        &&& self.profiles[p].channels[c].activity->0.calibration_id == Some(calibration_id)
    }
}

impl ActivityThresholdConfig {
    /// A second copy of the threshold.
    pub fn duplicate(&self) -> (copy: ActivityThresholdConfig)
        ensures
            copy == *self,
    {
        ActivityThresholdConfig {
            threshold_bits: self.threshold_bits,
            threshold_source: self.threshold_source,
            updated_at_unix_seconds: self.updated_at_unix_seconds,
            input_id: self.input_id.clone(),
            calibration_id: copy_text(&self.calibration_id),
        }
    }
}

impl ChannelConfig {
    /// A second copy of the channel.
    pub fn duplicate(&self) -> (copy: ChannelConfig)
        ensures
            copy == *self,
    {
        ChannelConfig {
            name: self.name.clone(),
            activity: match &self.activity {
                Some(threshold) => Some(threshold.duplicate()),
                None => None,
            },
        }
    }
}

impl ProfileConfig {
    /// A second copy of the profile.
    pub fn duplicate(&self) -> (copy: ProfileConfig)
        ensures
            copy@ == self@,
    {
        let mut channels: Vec<ChannelConfig> = Vec::new();
        let mut i: usize = 0;
        while i < self.channels.len()
            invariant
                i <= self.channels.len(),
                channels@ == self.channels@.take(i as int),
            decreases self.channels.len() - i,
        {
            channels.push(self.channels[i].duplicate());
            i = i + 1;
            proof {
                assert(channels@ =~= self.channels@.take(i as int));
            }
        }
        proof {
            assert(channels@ =~= self.channels@);
        }
        ProfileConfig { name: self.name.clone(), channels }
    }

    /// The place of a channel in the profile.
    pub fn channel_index(&self, channel: &String) -> (index: Option<usize>)
        ensures
            match index {
                Some(index) => place_of(channel_names(self@.channels), channel@) == Some(
                    index as int,
                ) && index < self.channels.len(),
                None => place_of(channel_names(self@.channels), channel@) is None,
            },
    {
        let ghost names = channel_names(self@.channels);
        let mut i: usize = 0;
        while i < self.channels.len()
            invariant
                i <= self.channels.len(),
                names == channel_names(self@.channels),
                forall|j: int| 0 <= j < i ==> names[j] != channel@,
            decreases self.channels.len() - i,
        {
            if self.channels[i].name == *channel {
                proof {
                    assert(is_first_name(names, channel@, i as int));
                    lemma_place_of(names, channel@, i as int);
                }
                return Some(i);
            }
            i = i + 1;
        }
        None
    }

    /// The stored threshold of a channel, if there is one.
    pub fn threshold_of(&self, channel: &String) -> (threshold: Option<&ActivityThresholdConfig>)
        ensures
            match threshold {
                Some(threshold) => self@.threshold(channel@) == Some(threshold@),
                None => self@.threshold(channel@) is None,
            },
    {
        match self.channel_index(channel) {
            Some(index) => match &self.channels[index].activity {
                Some(threshold) => Some(threshold),
                None => None,
            },
            None => None,
        }
    }
}

impl AppConfig {
    /// A second copy of the configuration.
    pub fn duplicate(&self) -> (copy: AppConfig)
        ensures
            copy@ == self@,
    {
        let mut profiles: Vec<ProfileConfig> = Vec::new();
        let mut i: usize = 0;
        while i < self.profiles.len()
            invariant
                i <= self.profiles.len(),
                profiles.len() == i,
                forall|j: int| 0 <= j < i ==> (#[trigger] profiles@[j])@ == self.profiles@[j]@,
            decreases self.profiles.len() - i,
        {
            profiles.push(self.profiles[i].duplicate());
            i = i + 1;
        }
        let copy = AppConfig {
            daemon: DaemonConfig {
                start_mode: self.daemon.start_mode.clone(),
                active_profile: copy_text(&self.daemon.active_profile),
                control_socket_path: self.daemon.control_socket_path.clone(),
            },
            profiles,
        };
        proof {
            assert(copy@.profiles =~= self@.profiles);
        }
        copy
    }

    /// The place of a profile in the configuration.
    pub fn profile_index(&self, name: &String) -> (index: Option<usize>)
        ensures
            match index {
                Some(index) => place_of(profile_names(self@.profiles), name@) == Some(index as int)
                    && index < self.profiles.len(),
                None => place_of(profile_names(self@.profiles), name@) is None,
            },
    {
        let ghost names = profile_names(self@.profiles);
        let mut i: usize = 0;
        while i < self.profiles.len()
            invariant
                i <= self.profiles.len(),
                names == profile_names(self@.profiles),
                forall|j: int| 0 <= j < i ==> names[j] != name@,
            decreases self.profiles.len() - i,
        {
            if self.profiles[i].name == *name {
                proof {
                    assert(is_first_name(names, name@, i as int));
                    lemma_place_of(names, name@, i as int);
                }
                return Some(i);
            }
            i = i + 1;
        }
        None
    }

    /// The stored threshold of a channel of a profile, if there is one.
    pub fn threshold_of(&self, profile: &String, channel: &String) -> (threshold: Option<
        &ActivityThresholdConfig,
    >)
        ensures
            match threshold {
                Some(threshold) => self@.threshold(profile@, channel@) == Some(threshold@),
                None => self@.threshold(profile@, channel@) is None,
            },
    {
        match self.profile_index(profile) {
            Some(index) => self.profiles[index].threshold_of(channel),
            None => None,
        }
    }

    /// Sets or takes away the threshold of a channel of a profile.
    pub fn set_threshold_of(
        &mut self,
        profile: &String,
        channel: &String,
        activity: Option<ActivityThresholdConfig>,
    )
        ensures
            final(self)@ == old(self)@.with_threshold(profile@, channel@, activity_of(activity)),
    {
        if let Some(index) = self.profile_index(profile) {
            let ghost before = self@;
            let ghost channels = self.profiles@[index as int]@.channels;
            let place = self.profiles[index].channel_index(channel);
            let changed = ChannelConfig { name: channel.clone(), activity };
            match place {
                Some(place) => {
                    self.profiles[index].channels[place] = changed;
                    proof {
                        assert(self.profiles@[index as int]@.channels =~= channels.update(
                            place as int,
                            changed@,
                        ));
                    }
                },
                None => {
                    self.profiles[index].channels.push(changed);
                    proof {
                        assert(self.profiles@[index as int]@.channels =~= channels.push(changed@));
                    }
                },
            }
            proof {
                assert(self@.profiles =~= before.profiles.update(
                    index as int,
                    before.profiles[index as int].with_threshold(channel@, activity_of(activity)),
                ));
            }
        }
    }
}

/// Whether a list of references holds the given one.
pub open spec fn lists(
    references: Seq<(String, String)>,
    input_id: Seq<char>,
    calibration_id: Seq<char>,
) -> bool {
    exists|i: int|
        0 <= i < references.len() && (#[trigger] references[i]).0@ == input_id && references[i].1@
            == calibration_id
}

/// Whether no reference stands twice in a list.
pub open spec fn no_repeats(references: Seq<(String, String)>) -> bool {
    forall|i: int, j: int|
        #![trigger references[i], references[j]]
        0 <= i < j < references.len() ==> references[i].0@ != references[j].0@ || references[i].1@
            != references[j].1@
}

fn is_listed(references: &Vec<(String, String)>, input_id: &String, calibration_id: &String) -> (found:
    bool)
    ensures
        found == lists(references@, input_id@, calibration_id@),
{
    let mut i: usize = 0;
    while i < references.len()
        invariant
            i <= references.len(),
            forall|j: int|
                0 <= j < i ==> (#[trigger] references@[j]).0@ != input_id@ || references@[j].1@
                    != calibration_id@,
        decreases references.len() - i,
    {
        if references[i].0 == *input_id && references[i].1 == *calibration_id {
            return true;
        }
        i = i + 1;
    }
    false
}

/// Adds a reference to a list that does not hold it yet.
fn list_reference(references: &mut Vec<(String, String)>, input_id: &String, calibration_id: &String)
    requires
        no_repeats(old(references)@),
    ensures
        no_repeats(final(references)@),
        forall|a: Seq<char>, b: Seq<char>| #[trigger]
            lists(final(references)@, a, b) <==> lists(old(references)@, a, b) || (a == input_id@
                && b == calibration_id@),
{
    if !is_listed(references, input_id, calibration_id) {
        let ghost before = references@;
        references.push((input_id.clone(), calibration_id.clone()));
        proof {
            let after = references@;
            assert forall|a: Seq<char>, b: Seq<char>| #[trigger] lists(after, a, b) <==> lists(
                before,
                a,
                b,
            ) || (a == input_id@ && b == calibration_id@) by {
                if lists(before, a, b) {
                    let i = choose|i: int|
                        0 <= i < before.len() && (#[trigger] before[i]).0@ == a && before[i].1@ == b;
                    assert(after[i] == before[i]);
                }
                if a == input_id@ && b == calibration_id@ {
                    assert(after[before.len() as int].0@ == a);
                }
                if lists(after, a, b) {
                    let i = choose|i: int|
                        0 <= i < after.len() && (#[trigger] after[i]).0@ == a && after[i].1@ == b;
                    if i < before.len() {
                        assert(before[i].0@ == a);
                    }
                }
            }
            assert forall|i: int, j: int|
                #![trigger after[i], after[j]]
                0 <= i < j < after.len() implies after[i].0@ != after[j].0@ || after[i].1@
                != after[j].1@ by {
                if j < before.len() {
                    assert(before[i] == after[i] && before[j] == after[j]);
                } else {
                    assert(before[i] == after[i]);
                    assert(!lists(before, input_id@, calibration_id@));
                }
            }
        }
    }
}

/// Every calibration that a stored threshold refers to, each of them once.
pub fn calibration_references(config: &AppConfig) -> (references: Vec<(String, String)>)
    ensures
        no_repeats(references@),
        forall|input_id: Seq<char>, calibration_id: Seq<char>| #[trigger]
            lists(references@, input_id, calibration_id) <==> config@.refers_to(
                input_id,
                calibration_id,
            ),
{
    let mut references: Vec<(String, String)> = Vec::new();
    let mut p: usize = 0;
    while p < config.profiles.len()
        invariant
            p <= config.profiles.len(),
            no_repeats(references@),
            forall|a: Seq<char>, b: Seq<char>| #[trigger]
                lists(references@, a, b) <==> refers_before(config@, p as int, 0, a, b),
        decreases config.profiles.len() - p,
    {
        let profile = &config.profiles[p];
        let mut c: usize = 0;
        while c < profile.channels.len()
            invariant
                p < config.profiles.len(),
                *profile == config.profiles@[p as int],
                c <= profile.channels.len(),
                no_repeats(references@),
                forall|a: Seq<char>, b: Seq<char>| #[trigger]
                    lists(references@, a, b) <==> refers_before(config@, p as int, c as int, a, b),
            decreases profile.channels.len() - c,
        {
            let ghost before = references@;
            if let Some(threshold) = &profile.channels[c].activity {
                if let Some(calibration_id) = &threshold.calibration_id {
                    list_reference(&mut references, &threshold.input_id, calibration_id);
                }
            }
            proof {
                assert forall|a: Seq<char>, b: Seq<char>| #[trigger]
                    lists(references@, a, b) <==> refers_before(config@, p as int, c + 1, a, b) by {
                    lemma_refers_step(config@, p as int, c as int, a, b);
                    assert(lists(before, a, b) <==> refers_before(
                        config@,
                        p as int,
                        c as int,
                        a,
                        b,
                    ));
                    assert(config@.profiles[p as int].channels[c as int]
                        == profile.channels@[c as int]@);
                }
            }
            c = c + 1;
        }
        proof {
            assert forall|a: Seq<char>, b: Seq<char>| #[trigger]
                lists(references@, a, b) <==> refers_before(config@, p + 1, 0, a, b) by {
                lemma_refers_row(config@, p as int, a, b);
                assert(lists(references@, a, b) <==> refers_before(
                    config@,
                    p as int,
                    c as int,
                    a,
                    b,
                ));
            }
        }
        p = p + 1;
    }
    proof {
        assert forall|a: Seq<char>, b: Seq<char>| #[trigger]
            lists(references@, a, b) <==> config@.refers_to(a, b) by {
            assert(lists(references@, a, b) <==> refers_before(config@, p as int, 0, a, b));
            lemma_refers_all(config@, a, b);
        }
    }
    references
}

/// Whether a reference stands before the given place, going profile by profile
/// and channel by channel.
spec fn refers_before(config: ConfigView, p: int, c: int, a: Seq<char>, b: Seq<char>) -> bool {
    exists|i: int, j: int| #[trigger] config.refers_at(i, j, a, b) && (i < p || i == p && j < c)
}

proof fn lemma_refers_step(config: ConfigView, p: int, c: int, a: Seq<char>, b: Seq<char>)
    ensures
        refers_before(config, p, c + 1, a, b) <==> refers_before(config, p, c, a, b)
            || config.refers_at(p, c, a, b),
{
    if refers_before(config, p, c + 1, a, b) {
        let (i, j) = choose|i: int, j: int| #[trigger]
            config.refers_at(i, j, a, b) && (i < p || i == p && j < c + 1);
        if !(i < p || i == p && j < c) {
            assert(i == p && j == c);
        }
    }
    if refers_before(config, p, c, a, b) {
        let (i, j) = choose|i: int, j: int| #[trigger]
            config.refers_at(i, j, a, b) && (i < p || i == p && j < c);
        assert(config.refers_at(i, j, a, b) && (i < p || i == p && j < c + 1));
    }
}

proof fn lemma_refers_row(config: ConfigView, p: int, a: Seq<char>, b: Seq<char>)
    requires
        0 <= p < config.profiles.len(),
    ensures
        refers_before(config, p + 1, 0, a, b) <==> refers_before(
            config,
            p,
            config.profiles[p].channels.len() as int,
            a,
            b,
        ),
{
    let c = config.profiles[p].channels.len() as int;
    if refers_before(config, p + 1, 0, a, b) {
        let (i, j) = choose|i: int, j: int| #[trigger]
            config.refers_at(i, j, a, b) && (i < p + 1 || i == p + 1 && j < 0);
        assert(config.refers_at(i, j, a, b) && (i < p || i == p && j < c));
    }
    if refers_before(config, p, c, a, b) {
        let (i, j) = choose|i: int, j: int| #[trigger]
            config.refers_at(i, j, a, b) && (i < p || i == p && j < c);
        assert(config.refers_at(i, j, a, b) && (i < p + 1 || i == p + 1 && j < 0));
    }
}

proof fn lemma_refers_all(config: ConfigView, a: Seq<char>, b: Seq<char>)
    ensures
        config.refers_to(a, b) <==> refers_before(config, config.profiles.len() as int, 0, a, b),
{
    let p = config.profiles.len() as int;
    if config.refers_to(a, b) {
        let (i, j) = choose|i: int, j: int| #[trigger] config.refers_at(i, j, a, b);
        assert(config.refers_at(i, j, a, b) && (i < p || i == p && j < 0));
    }
}

/// A threshold that was set is the one that is found afterwards.
pub proof fn a_set_threshold_is_found(
    config: ConfigView,
    profile: Seq<char>,
    channel: Seq<char>,
    activity: Option<ThresholdView>,
)
    requires
        config.has_profile(profile),
    ensures
        config.with_threshold(profile, channel, activity).threshold(profile, channel) == activity,
{
    crate::text::lemma_place_exists(profile_names(config.profiles), profile);
    let place = place_of(profile_names(config.profiles), profile)->0;
    let before = config.profiles[place];
    let after = config.with_threshold(profile, channel, activity);
    assert(profile_names(after.profiles) =~= profile_names(config.profiles));
    lemma_channel_found(before, channel, activity);
}

proof fn lemma_channel_found(
    profile: ProfileView,
    channel: Seq<char>,
    activity: Option<ThresholdView>,
)
    ensures
        profile.with_threshold(channel, activity).threshold(channel) == activity,
{
    let names = channel_names(profile.channels);
    let after = profile.with_threshold(channel, activity);
    let after_names = channel_names(after.channels);
    if names.contains(channel) {
        crate::text::lemma_place_exists(names, channel);
        assert(after_names =~= names);
    } else {
        let place = profile.channels.len() as int;
        assert(after_names =~= names.push(channel));
        assert forall|i: int| 0 <= i < place implies after_names[i] != channel by {
            assert(after_names[i] == names[i]);
        }
        assert(is_first_name(after_names, channel, place));
        lemma_place_of(after_names, channel, place);
    }
}

/// Setting one threshold leaves the thresholds of all other channels and of all
/// other profiles as they were.
pub proof fn other_thresholds_stay(
    config: ConfigView,
    profile: Seq<char>,
    channel: Seq<char>,
    activity: Option<ThresholdView>,
    other_profile: Seq<char>,
    other_channel: Seq<char>,
)
    requires
        other_profile != profile || other_channel != channel,
    ensures
        config.with_threshold(profile, channel, activity).threshold(other_profile, other_channel)
            == config.threshold(other_profile, other_channel),
{
    let names = profile_names(config.profiles);
    let after = config.with_threshold(profile, channel, activity);
    if names.contains(profile) {
        crate::text::lemma_place_exists(names, profile);
        let place = place_of(names, profile)->0;
        assert(profile_names(after.profiles) =~= names);
        if names.contains(other_profile) {
            crate::text::lemma_place_exists(names, other_profile);
            let other = place_of(names, other_profile)->0;
            if other == place {
                lemma_other_channel_stays(config.profiles[place], channel, activity, other_channel);
            }
        }
    }
}

proof fn lemma_other_channel_stays(
    profile: ProfileView,
    channel: Seq<char>,
    activity: Option<ThresholdView>,
    other: Seq<char>,
)
    requires
        other != channel,
    ensures
        profile.with_threshold(channel, activity).threshold(other) == profile.threshold(other),
{
    let names = channel_names(profile.channels);
    let after = profile.with_threshold(channel, activity);
    let after_names = channel_names(after.channels);
    if names.contains(channel) {
        crate::text::lemma_place_exists(names, channel);
        assert(after_names =~= names);
        if names.contains(other) {
            crate::text::lemma_place_exists(names, other);
        }
    } else {
        assert(after_names =~= names.push(channel));
        if names.contains(other) {
            crate::text::lemma_place_exists(names, other);
            let place = place_of(names, other)->0;
            assert forall|i: int| 0 <= i < place implies after_names[i] != other by {
                assert(after_names[i] == names[i]);
            }
            assert(is_first_name(after_names, other, place));
            lemma_place_of(after_names, other, place);
        } else {
            assert(!after_names.contains(other)) by {
                if after_names.contains(other) {
                    let i = choose|i: int| 0 <= i < after_names.len() && after_names[i] == other;
                    assert(names[i] == other);
                }
            }
        }
    }
}

} // verus!
