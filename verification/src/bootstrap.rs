//! From the configuration on disk to a daemon that is ready to listen: which
//! format the configuration has, where the control socket lies, what can be made
//! of it, and in what order the daemon comes up.

use crate::attempt::{
    apply_capture_attempt_error_to_state, classify_legacy_attempt_error, AttemptErrorView,
    CaptureAttemptError,
};
use crate::commands::PreparedCommandConfig;
use crate::config::calibration_references;
use crate::error::{ErrorView, LambError};
use crate::install::arm_capture;
use crate::lifecycle::{ErrorClass, LifecycleView, RetryInstant, UnixOrigin};
use crate::model::{
    empty_runtime, take_active_capture, AppConfig, ConfigFamily, ConfigLoadState, ContextView,
    IdleDaemonContext, LoadedAppConfig, PreparedBootstrap, PreparedLegacyConfig, Released, RunState,
    RuntimeView,
};
use crate::operations::{allocate_capture_attempt_id, nothing_released};
use crate::scheduler::{CaptureAttemptId, PendingOperation, RetryScheduler, RuntimeFaultSink};
use crate::text::{copy_text, join, place_of, text_is, text_of, trim, trimmed};
use crate::threshold::are_references;
use vstd::prelude::*;
use vstd::string::*;

verus! {

/// The top level of a TOML document: each key, with its value where that is a
/// text.
pub type TopLevel = Vec<(String, Option<String>)>;

/// The model of the top level of a document.
pub open spec fn top_level_of(table: Option<TopLevel>) -> Option<
    Seq<(Seq<char>, Option<Seq<char>>)>,
> {
    match table {
        Some(entries) => Some(entries_of(entries@)),
        None => None,
    }
}

/// The model of a list of entries.
pub open spec fn entries_of(entries: Seq<(String, Option<String>)>) -> Seq<
    (Seq<char>, Option<Seq<char>>),
> {
    entries.map_values(|entry: (String, Option<String>)| (entry.0@, text_of(entry.1)))
}

/// What `toml::from_str` finds at the top level of a document, if it is one.
pub uninterp spec fn toml_top_level(text: Seq<char>) -> Option<Seq<(Seq<char>, Option<Seq<char>>)>>;

/// Calls `toml::from_str` for a `toml::Value` and hands out the entries of its
/// top-level table. Claimed of it: what comes out depends on the text alone.
/// Which texts are documents, and what stands in them, is left to the crate.
#[verifier::external_body]
fn parse_top_level(text: &str) -> (table: Option<TopLevel>)
    ensures
        top_level_of(table) == toml_top_level(text@),
{
    let document = toml::from_str::<toml::Value>(text).ok()?;
    let table = document.as_table()?;
    let entries = table.iter();
    Some(entries.map(|(key, value)| (key.clone(), value.as_str().map(str::to_owned))).collect())
}

/// The value under a key, where the key is there: the text, or that it is none.
pub open spec fn entry_at(
    entries: Seq<(Seq<char>, Option<Seq<char>>)>,
    key: Seq<char>,
) -> Option<Option<Seq<char>>> {
    match place_of(keys_of(entries), key) {
        Some(place) => Some(entries[place].1),
        None => None,
    }
}

/// The keys of a list of entries.
pub open spec fn keys_of(entries: Seq<(Seq<char>, Option<Seq<char>>)>) -> Seq<Seq<char>> {
    entries.map_values(|entry: (Seq<char>, Option<Seq<char>>)| entry.0)
}

/// The format of a configuration with the given top level: the older one names
/// its version.
pub open spec fn family_of(table: Option<Seq<(Seq<char>, Option<Seq<char>>)>>) -> ConfigFamily {
    match table {
        Some(entries) => if entry_at(entries, "configVersion"@) is Some {
            ConfigFamily::Legacy
        } else {
            ConfigFamily::App
        },
        None => ConfigFamily::App,
    }
}

/// The control socket that a configuration of the older format names.
pub open spec fn named_socket(table: Option<Seq<(Seq<char>, Option<Seq<char>>)>>) -> Option<
    Seq<char>,
> {
    match table {
        Some(entries) => match entry_at(entries, "controlSocketPath"@) {
            Some(value) => value,
            None => None,
        },
        None => None,
    }
}

fn find_entry(entries: &TopLevel, key: &str) -> (found: Option<usize>)
    ensures
        match found {
            Some(index) => index < entries.len() && entry_at(entries_of(entries@), key@) == Some(
                text_of(entries@[index as int].1),
            ),
            None => entry_at(entries_of(entries@), key@) is None,
        },
{
    let ghost keys = keys_of(entries_of(entries@));
    let mut i: usize = 0;
    while i < entries.len()
        invariant
            i <= entries.len(),
            keys == keys_of(entries_of(entries@)),
            forall|j: int| 0 <= j < i ==> keys[j] != key@,
        decreases entries.len() - i,
    {
        if text_is(&entries[i].0, key) {
            proof {
                assert(crate::text::is_first_name(keys, key@, i as int));
                crate::text::lemma_place_of(keys, key@, i as int);
            }
            return Some(i);
        }
        i = i + 1;
    }
    None
}

/// Tells the format of a configuration by its top level.
pub fn config_family(table: &Option<TopLevel>) -> (family: ConfigFamily)
    ensures
        family == family_of(top_level_of(*table)),
{
    match table {
        Some(entries) => {
            if find_entry(entries, "configVersion").is_some() {
                ConfigFamily::Legacy
            } else {
                ConfigFamily::App
            }
        },
        None => ConfigFamily::App,
    }
}

/// Tells the control socket that the top level of a configuration names.
pub fn named_control_socket(table: &Option<TopLevel>) -> (socket: Option<String>)
    ensures
        text_of(socket) == named_socket(top_level_of(*table)),
{
    match table {
        Some(entries) => match find_entry(entries, "controlSocketPath") {
            Some(index) => copy_text(&entries[index].1),
            None => None,
        },
        None => None,
    }
}

/// How reading the configuration from disk went.
#[derive(Debug, Clone, PartialEq, Eq)]
pub enum ConfigRead {
    Text(String),
    Missing,
    Failed(LambError),
}

/// What a configuration is before it is parsed in its own format.
#[derive(Debug, Clone, PartialEq, Eq)]
pub struct BootstrapSource {
    pub text: Option<String>,
    pub family: ConfigFamily,
    pub legacy_socket: Option<String>,
}

/// Whether this is what a configuration is, or why it cannot be told. One that is
/// missing counts as profile-based.
pub open spec fn is_inspected(source: Result<BootstrapSource, LambError>, read: ConfigRead) -> bool {
    match read {
        ConfigRead::Failed(error) => {
            &&& source is Err
            &&& source->Err_0@ == ErrorView::NonRestartableBootstrap(error@.rendered())
        },
        ConfigRead::Missing => {
            &&& source is Ok
            &&& source->Ok_0.text is None
            &&& source->Ok_0.family == ConfigFamily::App
            &&& source->Ok_0.legacy_socket is None
        },
        ConfigRead::Text(text) => {
            &&& source is Ok
            &&& source->Ok_0.text == Some(text)
            &&& source->Ok_0.family == family_of(toml_top_level(text@))
            &&& text_of(source->Ok_0.legacy_socket) == named_socket(toml_top_level(text@))
        },
    }
}

/// Takes the configuration as it was read from disk. One that cannot be read ends
/// the daemon.
pub fn inspect_config(read: ConfigRead) -> (source: Result<BootstrapSource, LambError>)
    ensures
        is_inspected(source, read),
{
    match read {
        ConfigRead::Failed(error) => Err(LambError::non_restartable_bootstrap(error)),
        ConfigRead::Missing => Ok(
            BootstrapSource { text: None, family: ConfigFamily::App, legacy_socket: None },
        ),
        ConfigRead::Text(text) => {
            let table = parse_top_level(text.as_str());
            let family = config_family(&table);
            let legacy_socket = named_control_socket(&table);
            Ok(BootstrapSource { text: Some(text), family, legacy_socket })
        },
    }
}

/// Whether a path leaves the place of the runtime directory open.
pub open spec fn mentions_runtime_dir(path: Seq<char>) -> bool {
    exists|i: int| 0 <= i < path.len() - 1 && #[trigger] path[i] == '%' && path[i + 1] == 't'
}

/// A path with the runtime directory put in wherever it is left open.
pub open spec fn with_runtime_dir(path: Seq<char>, dir: Seq<char>) -> Seq<char>
    decreases path.len(),
{
    if path.len() < 2 {
        path
    } else if path[0] == '%' && path[1] == 't' {
        dir + with_runtime_dir(path.skip(2), dir)
    } else {
        seq![path[0]] + with_runtime_dir(path.skip(1), dir)
    }
}

/// Whether a path leaves the place of the runtime directory open.
pub(crate) fn leaves_runtime_dir_open(path: &str) -> (open: bool)
    ensures
        open == mentions_runtime_dir(path@),
{
    let length: usize = path.unicode_len();
    if length < 2 {
        return false;
    }
    let mut i: usize = 0;
    while i < length - 1
        invariant
            length == path@.len(),
            length >= 2,
            i <= length - 1,
            forall|j: int| 0 <= j < i ==> !(#[trigger] path@[j] == '%' && path@[j + 1] == 't'),
        decreases length - i,
    {
        if path.get_char(i) == '%' && path.get_char(i + 1) == 't' {
            proof {
                assert(path@[i as int] == '%');
            }
            return true;
        }
        i = i + 1;
    }
    false
}

/// Puts the runtime directory in wherever a path leaves it open.
fn put_runtime_dir(path: &str, dir: &str) -> (expanded: String)
    ensures
        expanded@ == with_runtime_dir(path@, dir@),
{
    let length: usize = path.unicode_len();
    let mut expanded = String::new();
    let mut i: usize = 0;
    proof {
        assert(path@.skip(0) =~= path@);
        assert(expanded@ + with_runtime_dir(path@, dir@) =~= with_runtime_dir(path@, dir@));
    }
    while i < length
        invariant
            length == path@.len(),
            i <= length,
            expanded@ + with_runtime_dir(path@.skip(i as int), dir@) == with_runtime_dir(
                path@,
                dir@,
            ),
        decreases length - i,
    {
        let ghost rest = path@.skip(i as int);
        let ghost before = expanded@;
        if length - i >= 2 && path.get_char(i) == '%' && path.get_char(i + 1) == 't' {
            expanded.append(dir);
            i = i + 2;
            proof {
                assert(rest.skip(2) =~= path@.skip(i as int));
                assert(before + (dir@ + with_runtime_dir(rest.skip(2), dir@)) =~= before + dir@
                    + with_runtime_dir(rest.skip(2), dir@));
            }
        } else {
            expanded.append(path.substring_char(i, i + 1));
            i = i + 1;
            proof {
                let tail = path@.skip(i as int);
                assert(path@.subrange(i - 1, i as int) =~= seq![rest[0]]);
                assert(rest.skip(1) =~= tail);
                if rest.len() < 2 {
                    assert(tail.len() == 0);
                    assert(rest =~= seq![rest[0]]);
                    assert(with_runtime_dir(tail, dir@) =~= Seq::<char>::empty());
                }
                assert(before + (seq![rest[0]] + with_runtime_dir(tail, dir@)) =~= before + seq![
                    rest[0],
                ] + with_runtime_dir(tail, dir@));
                assert(seq![rest[0]] + Seq::<char>::empty() =~= seq![rest[0]]);
            }
        }
    }
    proof {
        assert(path@.skip(length as int).len() == 0);
        assert(expanded@ + with_runtime_dir(path@.skip(length as int), dir@) =~= expanded@);
    }
    expanded
}

/// The path of the control socket, or why there is none: a path that leaves the
/// runtime directory open needs one.
pub open spec fn expanded_socket(path: Seq<char>, runtime_dir: Option<Seq<char>>) -> Option<
    Seq<char>,
> {
    if !mentions_runtime_dir(path) {
        Some(path)
    } else {
        match runtime_dir {
            Some(dir) => Some(with_runtime_dir(path, dir)),
            None => None,
        }
    }
}

/// The error about a runtime directory that there is not.
pub open spec fn no_runtime_dir() -> ErrorView {
    ErrorView::Validation("XDG_RUNTIME_DIR does not exist"@)
}

/// Works out the path of the control socket.
pub fn expand_control_socket_path(socket_path: &str, runtime_dir: &Option<String>) -> (expanded: Result<
    String,
    LambError,
>)
    ensures
        match expanded {
            Ok(path) => expanded_socket(socket_path@, text_of(*runtime_dir)) == Some(path@),
            Err(error) => {
                &&& expanded_socket(socket_path@, text_of(*runtime_dir)) is None
                &&& error@ == no_runtime_dir()
            },
        },
{
    if !leaves_runtime_dir_open(socket_path) {
        return Ok(socket_path.to_string());
    }
    match runtime_dir {
        Some(dir) => Ok(put_runtime_dir(socket_path, dir.as_str())),
        None => Err(LambError::Validation("XDG_RUNTIME_DIR does not exist".to_string())),
    }
}

/// A configuration with what the daemon needs of it before it is prepared.
#[derive(Debug, Clone, PartialEq, Eq)]
pub struct BootstrapConfig {
    pub config_path: String,
    pub text: Option<String>,
    pub family: ConfigFamily,
    pub control_socket_path: String,
}

/// The path of the control socket before the runtime directory is put in: the
/// one that the configuration names, or else the usual one.
pub open spec fn socket_template(
    source: BootstrapSource,
    app_socket: Option<Seq<char>>,
    default_socket: Seq<char>,
) -> Seq<char> {
    let named = if source.text is None {
        None
    } else if source.family == ConfigFamily::Legacy {
        text_of(source.legacy_socket)
    } else {
        app_socket
    };
    match named {
        Some(path) => path,
        None => default_socket,
    }
}

/// Whether this is a configuration with its control socket, or the error about a
/// runtime directory that is needed for it and is not there.
pub open spec fn is_bootstrapped(
    bootstrap: Result<BootstrapConfig, LambError>,
    path: Seq<char>,
    source: BootstrapSource,
    app_socket: Option<Seq<char>>,
    default_socket: Seq<char>,
    runtime_dir: Option<Seq<char>>,
) -> bool {
    let template = socket_template(source, app_socket, default_socket);
    let expanded = expanded_socket(template, runtime_dir);
    match bootstrap {
        Ok(bootstrap) => {
            &&& bootstrap.config_path@ == path
            &&& bootstrap.text == source.text
            &&& bootstrap.family == source.family
            &&& expanded == Some(bootstrap.control_socket_path@)
        },
        Err(error) => {
            &&& expanded is None
            &&& error@ == ErrorView::NonRestartableBootstrap(no_runtime_dir().rendered())
        },
    }
}

/// Works out where the control socket lies. `app_socket` is what a profile-based
/// configuration names where it can be parsed, `default_socket` the usual path.
pub fn bootstrap_config(
    path: &String,
    source: BootstrapSource,
    app_socket: Option<String>,
    default_socket: &String,
    runtime_dir: &Option<String>,
) -> (bootstrap: Result<BootstrapConfig, LambError>)
    ensures
        is_bootstrapped(
            bootstrap,
            path@,
            source,
            text_of(app_socket),
            default_socket@,
            text_of(*runtime_dir),
        ),
{
    let named = if source.text.is_none() {
        None
    } else {
        match source.family {
            ConfigFamily::Legacy => copy_text(&source.legacy_socket),
            ConfigFamily::App => app_socket,
        }
    };
    let template = match named {
        Some(path) => path,
        None => default_socket.clone(),
    };
    match expand_control_socket_path(template.as_str(), runtime_dir) {
        Ok(control_socket_path) => Ok(
            BootstrapConfig {
                config_path: path.clone(),
                text: source.text,
                family: source.family,
                control_socket_path,
            },
        ),
        Err(error) => Err(LambError::non_restartable_bootstrap(error)),
    }
}

/// What parsing a configuration in its own format came to.
#[derive(Debug, PartialEq, Eq)]
pub enum ParsedConfig {
    Absent,
    Legacy(Result<PreparedLegacyConfig, LambError>),
    App(Result<AppConfig, LambError>),
}

/// Whether this is what the daemon can make of a parsed configuration.
pub open spec fn is_prepared(
    prepared: PreparedBootstrap,
    bootstrap: BootstrapConfig,
    parsed: ParsedConfig,
    fallback: AppConfig,
) -> bool {
    match parsed {
        ParsedConfig::Legacy(Ok(config)) => prepared == PreparedBootstrap::Legacy(config),
        ParsedConfig::Legacy(Err(error)) => {
            &&& prepared is Faulted
            &&& prepared->family == ConfigFamily::Legacy
            &&& prepared->fallback_app_config == fallback
            &&& prepared->message@ == error@.rendered()
        },
        ParsedConfig::App(Ok(config)) => prepared == PreparedBootstrap::App(
            LoadedAppConfig { config, state: ConfigLoadState::Loaded, error: None },
        ),
        ParsedConfig::App(Err(error)) => {
            &&& prepared is App
            &&& prepared->App_0.config == fallback
            &&& prepared->App_0.state == ConfigLoadState::Invalid
            &&& text_of(prepared->App_0.error) == Some(error@.rendered())
        },
        ParsedConfig::Absent => if bootstrap.family == ConfigFamily::App {
            prepared == PreparedBootstrap::App(
                LoadedAppConfig { config: fallback, state: ConfigLoadState::Missing, error: None },
            )
        } else {
            &&& prepared is Faulted
            &&& prepared->family == ConfigFamily::Legacy
            &&& prepared->fallback_app_config == fallback
            &&& prepared->message@ == "config file not found: "@ + bootstrap.config_path@
        },
    }
}

/// Makes of a parsed configuration what the daemon can work with. A mistake in
/// it does not keep the daemon from coming up; it is kept to be shown.
pub fn prepare_bootstrap_config(
    bootstrap: &BootstrapConfig,
    parsed: ParsedConfig,
    fallback: AppConfig,
) -> (prepared: PreparedBootstrap)
    ensures
        is_prepared(prepared, *bootstrap, parsed, fallback),
{
    match parsed {
        ParsedConfig::Legacy(Ok(config)) => PreparedBootstrap::Legacy(config),
        ParsedConfig::Legacy(Err(error)) => PreparedBootstrap::Faulted {
            family: ConfigFamily::Legacy,
            fallback_app_config: fallback,
            message: error.to_text(),
        },
        ParsedConfig::App(Ok(config)) => PreparedBootstrap::App(
            LoadedAppConfig { config, state: ConfigLoadState::Loaded, error: None },
        ),
        ParsedConfig::App(Err(error)) => PreparedBootstrap::App(
            LoadedAppConfig {
                config: fallback,
                state: ConfigLoadState::Invalid,
                error: Some(error.to_text()),
            },
        ),
        ParsedConfig::Absent => match bootstrap.family {
            ConfigFamily::App => PreparedBootstrap::App(
                LoadedAppConfig { config: fallback, state: ConfigLoadState::Missing, error: None },
            ),
            ConfigFamily::Legacy => PreparedBootstrap::Faulted {
                family: ConfigFamily::Legacy,
                fallback_app_config: fallback,
                message: join("config file not found: ", bootstrap.config_path.as_str()),
            },
        },
    }
}

/// The profile that a client asks for, once the white space around its name is
/// removed: an empty name asks for none.
pub open spec fn asked_profile(trimmed_name: Option<Seq<char>>) -> Option<Seq<char>> {
    match trimmed_name {
        Some(name) => if name.len() == 0 {
            None
        } else {
            Some(name)
        },
        None => None,
    }
}

/// Why a prepared configuration cannot be used for a command, if so.
pub open spec fn command_refusal(
    prepared: PreparedBootstrap,
    asked: Option<Seq<char>>,
    path: Seq<char>,
) -> Option<AttemptErrorView> {
    match prepared {
        PreparedBootstrap::Faulted { message, .. } => Some(AttemptErrorView::permanent(message@)),
        PreparedBootstrap::Legacy(_) => None,
        PreparedBootstrap::App(loaded) => if loaded.state != ConfigLoadState::Loaded {
            Some(
                AttemptErrorView::permanent(
                    match loaded.error {
                        Some(error) => error@,
                        None => "config file not found: "@ + path,
                    },
                ),
            )
        } else if asked is Some && !loaded.config@.has_profile(asked->0) {
            Some(AttemptErrorView::permanent("profile "@ + asked->0 + " does not exist"@))
        } else {
            None
        },
    }
}

/// Whether this is the prepared configuration with the asked profile as the
/// active one.
pub open spec fn activates(
    after: PreparedBootstrap,
    before: PreparedBootstrap,
    asked: Option<Seq<char>>,
) -> bool {
    match (after, before) {
        (PreparedBootstrap::App(after), PreparedBootstrap::App(before)) => {
            &&& after.state == before.state
            &&& after.error == before.error
            &&& after.config.profiles == before.config.profiles
            &&& after.config.daemon.start_mode == before.config.daemon.start_mode
            &&& after.config.daemon.control_socket_path == before.config.daemon.control_socket_path
            &&& text_of(after.config.daemon.active_profile) == (if asked is Some {
                asked
            } else {
                text_of(before.config.daemon.active_profile)
            })
        },
        _ => after == before,
    }
}

/// Takes a prepared configuration for a command that asks for the given profile,
/// whose name has no white space around it.
pub fn select_profile(
    prepared: PreparedBootstrap,
    asked: Option<String>,
    path: &String,
) -> (selected: Result<PreparedBootstrap, CaptureAttemptError>)
    ensures
        ({
            let wanted = asked_profile(text_of(asked));
            match selected {
                Ok(selected) => {
                    &&& command_refusal(prepared, wanted, path@) is None
                    &&& activates(selected, prepared, wanted)
                },
                Err(error) => command_refusal(prepared, wanted, path@) == Some(error@),
            }
        }),
{
    let mut loaded = match prepared {
        PreparedBootstrap::Faulted { message, .. } => {
            return Err(CaptureAttemptError::permanent(message));
        },
        PreparedBootstrap::Legacy(config) => {
            return Ok(PreparedBootstrap::Legacy(config));
        },
        PreparedBootstrap::App(loaded) => loaded,
    };
    if loaded.state != ConfigLoadState::Loaded {
        let message = match loaded.error {
            Some(error) => error,
            None => join("config file not found: ", path.as_str()),
        };
        return Err(CaptureAttemptError::permanent(message));
    }
    if let Some(name) = asked {
        if !name.as_str().is_empty() {
            if loaded.config.profile_index(&name).is_none() {
                let mut message = join("profile ", name.as_str());
                message = join(message.as_str(), " does not exist");
                return Err(CaptureAttemptError::permanent(message));
            }
            loaded.config.daemon.active_profile = Some(name);
        }
    }
    Ok(PreparedBootstrap::App(loaded))
}

/// Takes a prepared configuration for a command, as far as that goes before the
/// active profile is resolved. White space around the name of the profile that
/// the client asks for does not count.
pub fn prepare_command_config(
    prepared: PreparedBootstrap,
    requested_profile: &Option<String>,
    path: &String,
) -> (selected: Result<PreparedBootstrap, CaptureAttemptError>)
    ensures
        ({
            let wanted = asked_profile(
                match *requested_profile {
                    Some(name) => Some(trimmed(name@)),
                    None => None,
                },
            );
            match selected {
                Ok(selected) => {
                    &&& command_refusal(prepared, wanted, path@) is None
                    &&& activates(selected, prepared, wanted)
                },
                Err(error) => command_refusal(prepared, wanted, path@) == Some(error@),
            }
        }),
{
    let asked = match requested_profile {
        Some(name) => Some(trim(name.as_str())),
        None => None,
    };
    select_profile(prepared, asked, path)
}

/// Takes what resolving the active profile came to; a mistake in it keeps the
/// command from going on.
pub fn confirm_command_config(
    prepared: PreparedBootstrap,
    control_socket_path: String,
    resolved: Result<(), LambError>,
) -> (confirmed: Result<PreparedCommandConfig, CaptureAttemptError>)
    ensures
        match resolved {
            Err(error) if prepared is App => {
                &&& confirmed is Err
                &&& confirmed->Err_0@ == error@.attempt_error()
            },
            _ => confirmed == Ok::<PreparedCommandConfig, CaptureAttemptError>(
                PreparedCommandConfig { prepared, control_socket_path },
            ),
        },
{
    if let PreparedBootstrap::App(_) = &prepared {
        if let Err(error) = resolved {
            return Err(classify_legacy_attempt_error(error));
        }
    }
    Ok(PreparedCommandConfig { prepared, control_socket_path })
}

/// The calibrations that are kept when the daemon comes up: those that a
/// configuration refers to which was loaded. Without one nothing is cleaned up.
pub fn startup_references(loaded: &LoadedAppConfig) -> (references: Option<Vec<(String, String)>>)
    ensures
        match references {
            Some(references) => loaded.state == ConfigLoadState::Loaded && are_references(
                references@,
                loaded.config@,
            ),
            None => loaded.state != ConfigLoadState::Loaded,
        },
{
    if loaded.state != ConfigLoadState::Loaded {
        return None;
    }
    Some(calibration_references(&loaded.config))
}

/// What follows once the context of the daemon is set up.
#[derive(Debug)]
pub enum BuildStep<B, S> {
    Ready(IdleDaemonContext<B, S>),
    /// Apply the configuration to the state of the context. A capture that is
    /// started meanwhile reports its faults to the sink.
    ApplyApp { ctx: IdleDaemonContext<B, S>, loaded: LoadedAppConfig, sink: RuntimeFaultSink },
    /// The daemon ends.
    Failed(LambError),
}

impl<B, S> ContextView<B, S> {
    /// A context that has done nothing yet, in a process that has handed out the
    /// given number of attempt identities.
    pub open spec fn fresh(
        bootstrap: BootstrapConfig,
        calibration_root: Seq<char>,
        runtime: RuntimeView<B, S>,
        clock_origin: UnixOrigin,
        attempts: u64,
    ) -> ContextView<B, S> {
        ContextView {
            config_path: bootstrap.config_path@,
            control_socket_path: bootstrap.control_socket_path@,
            calibration_root,
            runtime,
            runtime_poisoned: false,
            clock_origin,
            scheduler: RetryScheduler {
                generation: 0,
                pending: None,
                stopped: false,
                wake_epoch: 0,
                thread_spawned: false,
            },
            operation_epoch: 0,
            attempts,
            stop: false,
            first_fatal: None,
        }
    }

    /// The context once it is ready to listen: work of older generations is
    /// dropped, the capture reports its faults, and a retry that the lifecycle
    /// plans is pending.
    pub open spec fn ready(self) -> ContextView<B, S> {
        let generation = self.runtime.lifecycle.generation;
        let after = ContextView {
            scheduler: self.scheduler.invalidated(generation),
            ..self
        }.armed();
        match after.runtime.lifecycle.next_retry_at {
            Some(due) => ContextView {
                scheduler: after.scheduler.holding(PendingOperation::Retry { generation, due }),
                ..after
            },
            None => after,
        }
    }
}

impl<B, S> RuntimeView<B, S> {
    /// A state that holds the given configuration and captures nothing.
    pub open spec fn empty(family: ConfigFamily, config: AppConfig) -> RuntimeView<B, S> {
        RuntimeView {
            config,
            config_family: family,
            prepared_legacy: None,
            resolved_capture: None,
            lifecycle: LifecycleView::ready_stopped(None),
            state: RunState::Unconfigured,
            last_error: None,
            config_load_error: None,
            active_profile: None,
            capture: None,
            capture_health: None,
            session: None,
        }
    }

    /// The state with which a configuration of the older format comes up.
    pub open spec fn awaiting_legacy(self, prepared: PreparedLegacyConfig) -> RuntimeView<B, S> {
        RuntimeView {
            config_family: ConfigFamily::Legacy,
            prepared_legacy: Some(prepared),
            state: RunState::Starting,
            lifecycle: self.lifecycle.starting(None),
            ..self
        }
    }

    /// The state with which a configuration comes up that cannot be used.
    pub open spec fn misconfigured(
        self,
        family: ConfigFamily,
        config: AppConfig,
        message: Seq<char>,
    ) -> RuntimeView<B, S> {
        RuntimeView {
            config,
            config_family: family,
            state: RunState::Faulted,
            last_error: Some(message),
            config_load_error: Some(message),
            lifecycle: self.lifecycle.permanent(message),
            ..self
        }
    }
}

/// Whether this is how the context of the daemon is set up for a prepared
/// configuration.
pub open spec fn is_built<B, S>(
    step: BuildStep<B, S>,
    bootstrap: BootstrapConfig,
    prepared: PreparedBootstrap,
    calibration_root: Seq<char>,
    default_config: AppConfig,
    clock_origin: UnixOrigin,
    attempts: u64,
) -> bool {
    let empty = RuntimeView::<B, S>::empty(bootstrap.family, default_config);
    match prepared {
        PreparedBootstrap::App(loaded) => if attempts == u64::MAX {
            &&& step is Failed
            &&& step->Failed_0@ == ErrorView::Capture("capture attempt identity overflow"@)
        } else {
            let fresh = ContextView::fresh(
                bootstrap,
                calibration_root,
                empty,
                clock_origin,
                attempts,
            );
            &&& step is ApplyApp
            &&& step->ctx@ == fresh.with_next_attempt()
            &&& step->loaded == loaded
            &&& step->sink == (RuntimeFaultSink::Bound {
                generation: 1,
                attempt_id: CaptureAttemptId { raw: (attempts + 1) as u64 },
            })
        },
        PreparedBootstrap::Legacy(config) => {
            &&& step is Ready
            &&& step->Ready_0@ == ContextView::fresh(
                bootstrap,
                calibration_root,
                empty.awaiting_legacy(config),
                clock_origin,
                attempts,
            ).ready()
        },
        PreparedBootstrap::Faulted { family, fallback_app_config, message } => {
            &&& step is Ready
            &&& step->Ready_0@ == ContextView::fresh(
                bootstrap,
                calibration_root,
                empty.misconfigured(family, fallback_app_config, message@),
                clock_origin,
                attempts,
            ).ready()
        },
    }
}

/// Sets up the context of the daemon for a prepared configuration. Whatever is
/// wrong with the configuration, the daemon comes up and shows it. `attempts` is
/// the number of attempt identities that the process has handed out so far.
pub fn build_idle_context<B, S>(
    bootstrap: BootstrapConfig,
    prepared: PreparedBootstrap,
    calibration_root: String,
    default_config: AppConfig,
    clock_origin: UnixOrigin,
    attempts: u64,
) -> (step: BuildStep<B, S>)
    ensures
        is_built(
            step,
            bootstrap,
            prepared,
            calibration_root@,
            default_config,
            clock_origin,
            attempts,
        ),
{
    let runtime = empty_runtime(bootstrap.family, default_config);
    let mut ctx = IdleDaemonContext {
        config_path: bootstrap.config_path,
        control_socket_path: bootstrap.control_socket_path,
        calibration_root,
        runtime,
        runtime_poisoned: false,
        clock_origin,
        scheduler: RetryScheduler::new(),
        operation_epoch: 0,
        attempts,
        stop: false,
        first_fatal: None,
    };
    match prepared {
        PreparedBootstrap::App(loaded) => {
            match allocate_capture_attempt_id(&mut ctx) {
                Ok(attempt_id) => {
                    let sink = ctx.scheduler.fault_sink(1, attempt_id);
                    BuildStep::ApplyApp { ctx, loaded, sink }
                },
                Err(error) => BuildStep::Failed(LambError::Capture(error.message)),
            }
        },
        PreparedBootstrap::Legacy(config) => {
            ctx.runtime.config_family = ConfigFamily::Legacy;
            ctx.runtime.prepared_legacy = Some(config);
            ctx.runtime.state = RunState::Starting;
            ctx.runtime.lifecycle.mark_starting(None);
            finish_idle_context(&mut ctx);
            BuildStep::Ready(ctx)
        },
        PreparedBootstrap::Faulted { family, fallback_app_config, message } => {
            ctx.runtime.config = fallback_app_config;
            ctx.runtime.config_family = family;
            ctx.runtime.state = RunState::Faulted;
            ctx.runtime.last_error = Some(message.clone());
            ctx.runtime.config_load_error = Some(message.clone());
            ctx.runtime.lifecycle.mark_permanent(message);
            finish_idle_context(&mut ctx);
            BuildStep::Ready(ctx)
        },
    }
}

impl<B, S> ContextView<B, S> {
    /// The context after a configuration could not be applied while the daemon
    /// came up.
    pub open spec fn apply_failed(self, failure: AttemptErrorView, now: RetryInstant) -> ContextView<
        B,
        S,
    > {
        ContextView {
            runtime: if failure.class == ErrorClass::Fatal {
                self.runtime.detached()
            } else {
                self.runtime.detached().failed(failure, now)
            },
            ..self
        }
    }
}

/// Takes the failure to apply a configuration while the daemon comes up. One that
/// ends the daemon is the result; any other becomes part of the state.
pub fn startup_apply_failed<B, S>(
    ctx: &mut IdleDaemonContext<B, S>,
    error: LambError,
    now: RetryInstant,
) -> (outcome: (Result<(), LambError>, Released<B, S>))
    ensures
        ({
            let before = old(ctx)@;
            let failure = error@.attempt_error();
            &&& outcome.1 == before.runtime.held()
            &&& final(ctx)@ == before.apply_failed(failure, now)
            &&& match outcome.0 {
                Ok(()) => failure.class != ErrorClass::Fatal,
                Err(error) => failure.class == ErrorClass::Fatal && error@ == ErrorView::Capture(
                    failure.message,
                ),
            }
        }),
{
    let released = take_active_capture(&mut ctx.runtime);
    let error = classify_legacy_attempt_error(error);
    match apply_capture_attempt_error_to_state(&mut ctx.runtime, error, now) {
        Ok(()) => (Ok(()), released),
        Err(error) => (Err(LambError::Capture(error.message)), released),
    }
}

/// Makes a context ready to listen.
pub fn finish_idle_context<B, S>(ctx: &mut IdleDaemonContext<B, S>)
    ensures
        final(ctx)@ == old(ctx)@.ready(),
{
    let generation = ctx.runtime.lifecycle.generation;
    ctx.scheduler.invalidate(generation);
    arm_capture(ctx);
    if let Some(due) = ctx.runtime.lifecycle.next_retry_at {
        ctx.scheduler.schedule_retry(generation, due);
    }
}

/// What happened last on the daemon's way from a configuration path to its end.
#[derive(Debug)]
pub enum DaemonEvent<B, S> {
    /// The daemon was started.
    Started,
    /// The configuration was read from disk.
    ConfigRead(ConfigRead),
    /// The configuration was parsed in its own format. `app_socket` is the control
    /// socket that a profile-based one names, `default_socket` the usual one.
    ConfigParsed {
        source: BootstrapSource,
        parsed: ParsedConfig,
        app_socket: Option<String>,
        default_socket: String,
        runtime_dir: Option<String>,
        fallback: AppConfig,
    },
    /// The control socket was bound, or could not be; and the place of the
    /// calibrations was found, or could not be.
    SocketBound {
        bootstrap: BootstrapConfig,
        prepared: PreparedBootstrap,
        bound: Result<(), LambError>,
        calibration_root: Result<String, LambError>,
        default_config: AppConfig,
        clock_origin: UnixOrigin,
        attempts: u64,
    },
    /// The configuration was applied to the state of the context, or could not be.
    ConfigApplied {
        ctx: IdleDaemonContext<B, S>,
        applied: Result<(), LambError>,
        now: RetryInstant,
    },
    /// The start that the configuration asks for is over.
    StartAttempted { ctx: IdleDaemonContext<B, S>, attempted: Result<(), LambError> },
    /// The listener has ended.
    ListenerEnded(Result<(), LambError>),
}

/// What the daemon does next on its way from a configuration path to its end.
#[derive(Debug)]
pub enum DaemonAction<B, S> {
    /// Read the configuration at the path.
    ReadConfig { path: String },
    /// Parse the configuration in its own format.
    ParseConfig(BootstrapSource),
    /// Bind the control socket.
    BindSocket { bootstrap: BootstrapConfig, prepared: PreparedBootstrap },
    /// Apply the configuration to the state of the context.
    ApplyConfig { ctx: IdleDaemonContext<B, S>, loaded: LoadedAppConfig, sink: RuntimeFaultSink },
    /// Drop what was let go of, then attempt the start that the configuration asks
    /// for.
    AttemptStart { ctx: IdleDaemonContext<B, S>, released: Released<B, S> },
    /// Serve clients.
    Listen(IdleDaemonContext<B, S>),
    /// End, and drop what was let go of.
    Exit { result: Result<(), LambError>, released: Released<B, S> },
}

impl<B, S> DaemonAction<B, S> {
    /// Whether the daemon ends with the given error and lets go of nothing.
    pub open spec fn ends_with(self, error: ErrorView) -> bool {
        &&& self is Exit
        &&& self->result is Err
        &&& self->result->Err_0@ == error
        &&& self->Exit_released.is_empty()
    }
}

/// Whether this is what the daemon does next.
pub open spec fn is_next<B, S>(
    action: DaemonAction<B, S>,
    path: Seq<char>,
    event: DaemonEvent<B, S>,
) -> bool {
    match event {
        DaemonEvent::Started => action is ReadConfig && action->path@ == path,
        DaemonEvent::ConfigRead(read) => match action {
            DaemonAction::ParseConfig(source) => is_inspected(Ok(source), read),
            DaemonAction::Exit { result: Err(error), released } => released.is_empty()
                && is_inspected(Err(error), read),
            _ => false,
        },
        DaemonEvent::ConfigParsed {
            source,
            parsed,
            app_socket,
            default_socket,
            runtime_dir,
            fallback,
        } => match action {
            DaemonAction::BindSocket { bootstrap, prepared } => {
                &&& is_bootstrapped(
                    Ok(bootstrap),
                    path,
                    source,
                    text_of(app_socket),
                    default_socket@,
                    text_of(runtime_dir),
                )
                &&& is_prepared(prepared, bootstrap, parsed, fallback)
            },
            DaemonAction::Exit { result: Err(error), released } => {
                &&& released.is_empty()
                &&& is_bootstrapped(
                    Err(error),
                    path,
                    source,
                    text_of(app_socket),
                    default_socket@,
                    text_of(runtime_dir),
                )
            },
            _ => false,
        },
        DaemonEvent::SocketBound {
            bootstrap,
            prepared,
            bound,
            calibration_root,
            default_config,
            clock_origin,
            attempts,
        } => match bound {
            Err(error) => action.ends_with(
                ErrorView::NonRestartableBootstrap(error@.rendered()),
            ),
            Ok(()) => match calibration_root {
                Err(error) => action.ends_with(error@),
                Ok(root) => match action {
                    DaemonAction::ApplyConfig { ctx, loaded, sink } => is_built(
                        BuildStep::ApplyApp { ctx, loaded, sink },
                        bootstrap,
                        prepared,
                        root@,
                        default_config,
                        clock_origin,
                        attempts,
                    ),
                    DaemonAction::AttemptStart { ctx, released } => released.is_empty()
                        && is_built(
                        BuildStep::Ready(ctx),
                        bootstrap,
                        prepared,
                        root@,
                        default_config,
                        clock_origin,
                        attempts,
                    ),
                    DaemonAction::Exit { result: Err(error), released } => released.is_empty()
                        && is_built(
                        BuildStep::<B, S>::Failed(error),
                        bootstrap,
                        prepared,
                        root@,
                        default_config,
                        clock_origin,
                        attempts,
                    ),
                    _ => false,
                },
            },
        },
        DaemonEvent::ConfigApplied { ctx, applied, now } => match applied {
            Ok(()) => {
                &&& action is AttemptStart
                &&& action->AttemptStart_ctx@ == ctx@.ready()
                &&& action->AttemptStart_released.is_empty()
            },
            Err(error) => if error@.attempt_class() == ErrorClass::Fatal {
                &&& action is Exit
                &&& action->result is Err
                &&& action->result->Err_0@ == ErrorView::Capture(error@.rendered())
                &&& action->Exit_released == ctx@.runtime.held()
            } else {
                &&& action is AttemptStart
                &&& action->AttemptStart_ctx@ == ctx@.apply_failed(
                    error@.attempt_error(),
                    now,
                ).ready()
                &&& action->AttemptStart_released == ctx@.runtime.held()
            },
        },
        DaemonEvent::StartAttempted { ctx, attempted } => match attempted {
            Ok(()) => action == DaemonAction::Listen(ctx),
            Err(error) => {
                &&& action is Exit
                &&& action->result == Err::<(), LambError>(error)
                &&& action->Exit_released == ctx@.runtime.held()
            },
        },
        DaemonEvent::ListenerEnded(ended) => {
            &&& action is Exit
            &&& action->result == ended
            &&& action->Exit_released.is_empty()
        },
    }
}

/// Runs the daemon from a configuration path, from event to event: takes what
/// happened last, and tells what comes next. The configuration is read, the
/// control socket it names is bound, the context is set up, the start is attempted
/// that the configuration asks for, and clients are served. What goes wrong before
/// the socket is bound is not mended by a restart.
pub fn run_from_config_path<B, S>(path: &String, event: DaemonEvent<B, S>) -> (action: DaemonAction<
    B,
    S,
>)
    ensures
        is_next(action, path@, event),
{
    match event {
        DaemonEvent::Started => DaemonAction::ReadConfig { path: path.clone() },
        DaemonEvent::ConfigRead(read) => match inspect_config(read) {
            Ok(source) => DaemonAction::ParseConfig(source),
            Err(error) => exit_with(Err(error)),
        },
        DaemonEvent::ConfigParsed {
            source,
            parsed,
            app_socket,
            default_socket,
            runtime_dir,
            fallback,
        } => match bootstrap_config(path, source, app_socket, &default_socket, &runtime_dir) {
            Ok(bootstrap) => {
                let prepared = prepare_bootstrap_config(&bootstrap, parsed, fallback);
                DaemonAction::BindSocket { bootstrap, prepared }
            },
            Err(error) => exit_with(Err(error)),
        },
        DaemonEvent::SocketBound {
            bootstrap,
            prepared,
            bound,
            calibration_root,
            default_config,
            clock_origin,
            attempts,
        } => {
            if let Err(error) = bound {
                return exit_with(Err(LambError::non_restartable_bootstrap(error)));
            }
            let root = match calibration_root {
                Ok(root) => root,
                Err(error) => {
                    return exit_with(Err(error));
                },
            };
            let step = build_idle_context(
                bootstrap,
                prepared,
                root,
                default_config,
                clock_origin,
                attempts,
            );
            match step {
                BuildStep::Failed(error) => exit_with(Err(error)),
                BuildStep::ApplyApp { ctx, loaded, sink } => {
                    DaemonAction::ApplyConfig { ctx, loaded, sink }
                },
                BuildStep::Ready(ctx) => {
                    DaemonAction::AttemptStart { ctx, released: nothing_released() }
                },
            }
        },
        DaemonEvent::ConfigApplied { ctx, applied, now } => {
            let mut ctx = ctx;
            let released = match applied {
                Ok(()) => nothing_released(),
                Err(error) => {
                    let (result, released) = startup_apply_failed(&mut ctx, error, now);
                    if let Err(error) = result {
                        return DaemonAction::Exit { result: Err(error), released };
                    }
                    released
                },
            };
            finish_idle_context(&mut ctx);
            DaemonAction::AttemptStart { ctx, released }
        },
        DaemonEvent::StartAttempted { ctx, attempted } => match attempted {
            Ok(()) => DaemonAction::Listen(ctx),
            Err(error) => {
                let mut ctx = ctx;
                let released = take_active_capture(&mut ctx.runtime);
                DaemonAction::Exit { result: Err(error), released }
            },
        },
        DaemonEvent::ListenerEnded(ended) => exit_with(ended),
    }
}

fn exit_with<B, S>(result: Result<(), LambError>) -> (action: DaemonAction<B, S>)
    ensures
        action is Exit,
        action->result == result,
        action->Exit_released.is_empty(),
{
    DaemonAction::Exit { result, released: nothing_released() }
}

/// The socket that is bound is the one that the configuration names, and the
/// context that is set up afterwards is bound to that same socket. Only a process
/// that has no attempt identity left ends instead.
pub proof fn the_context_has_the_socket_that_was_bound<B, S>(
    bootstrap: BootstrapConfig,
    prepared: PreparedBootstrap,
    root: String,
    default_config: AppConfig,
    clock_origin: UnixOrigin,
    attempts: u64,
    path: Seq<char>,
    action: DaemonAction<B, S>,
)
    requires
        is_next(
            action,
            path,
            DaemonEvent::SocketBound {
                bootstrap,
                prepared,
                bound: Ok(()),
                calibration_root: Ok(root),
                default_config,
                clock_origin,
                attempts,
            },
        ),
    ensures
        match action {
            DaemonAction::ApplyConfig { ctx, .. } => ctx@.control_socket_path
                == bootstrap.control_socket_path@ && ctx@.config_path == bootstrap.config_path@,
            DaemonAction::AttemptStart { ctx, .. } => ctx@.control_socket_path
                == bootstrap.control_socket_path@ && ctx@.config_path == bootstrap.config_path@,
            _ => action is Exit && attempts == u64::MAX,
        },
{
}

/// A path that leaves nothing open is taken as it is.
pub proof fn a_complete_path_stays(path: Seq<char>, dir: Seq<char>)
    requires
        !mentions_runtime_dir(path),
    ensures
        with_runtime_dir(path, dir) == path,
        expanded_socket(path, Some(dir)) == Some(path),
        expanded_socket(path, None) == Some(path),
    decreases path.len(),
{
    if path.len() >= 2 {
        assert(!(path[0] == '%' && path[1] == 't')) by {
            if path[0] == '%' && path[1] == 't' {
                let i: int = 0;
                assert(path[i] == '%' && path[i + 1] == 't');
            }
        }
        let rest = path.skip(1);
        assert(!mentions_runtime_dir(rest)) by {
            if mentions_runtime_dir(rest) {
                let i = choose|i: int|
                    0 <= i < rest.len() - 1 && #[trigger] rest[i] == '%' && rest[i + 1] == 't';
                assert(path[i + 1] == '%' && path[(i + 1) + 1] == 't');
            }
        }
        a_complete_path_stays(rest, dir);
        assert(seq![path[0]] + rest =~= path);
    }
}

/// A daemon comes up in order, whatever configuration it is given: nothing is
/// pending that the lifecycle does not plan.
pub proof fn a_daemon_comes_up_in_order<B, S>(
    bootstrap: BootstrapConfig,
    root: Seq<char>,
    runtime: RuntimeView<B, S>,
    origin: UnixOrigin,
    attempts: u64,
)
    requires
        runtime.lifecycle.retry_coherent(),
        runtime.reports_in_order(),
    ensures
        ContextView::fresh(bootstrap, root, runtime, origin, attempts).ready().in_order(),
{
}

} // verus!
