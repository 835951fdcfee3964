//! What holds of the way from a configuration on disk to a daemon that listens, of the
//! control socket on that way, and of the captures of the older format.

use crate::bootstrap::{
    bootstrap_config, build_idle_context, config_family, confirm_command_config, entries_of,
    expand_control_socket_path, finish_idle_context, inspect_config, keys_of,
    mentions_runtime_dir, named_control_socket, prepare_bootstrap_config, prepare_command_config,
    run_from_config_path, select_profile, startup_apply_failed, startup_references, top_level_of,
    toml_top_level, with_runtime_dir, BootstrapConfig, BootstrapSource, BuildStep, ConfigRead,
    DaemonAction, DaemonEvent, ParsedConfig, TopLevel,
};
use crate::attempt::CaptureAttemptError;
use crate::commands::PreparedCommandConfig;
use crate::config::{lists, profile_names};
use crate::error::LambError;
use crate::health::PipeWireHealth;
use crate::legacy::{
    app_runtime_params, assemble_legacy_capture, expand_runtime_paths, fake_chunk_frames,
    legacy_channel_count, legacy_runtime_params, prepare_legacy_config,
    resolve_legacy_capture_with, resolved_from_target, validate_runtime_environment,
    ResolvedLegacyCapture,
};
use crate::identity::ResolvedTarget;
use crate::lifecycle::{CaptureState, ErrorClass, RetryInstant, RetryPolicy, UnixOrigin};
use crate::model::{
    ActiveCapture, AppConfig, BackendKind, CaptureRuntimeParams, ConfigFamily, ConfigLoadState,
    IdleDaemonContext, LambConfig, LoadedAppConfig, PreparedBootstrap, PreparedLegacyConfig,
    Released, ResolvedCaptureState, ResolvedExportPolicy, ResolvedProfile, RunState,
    RuntimeDefaults,
};
use crate::scheduler::PendingOperation;
use crate::socket::{
    check_socket_place, confirm_pinned, decide_cleanup, decide_staging_cleanup,
    decide_stale_socket, inspect_stale_socket, judge_wake, low_hex, nul_terminated_path,
    private_socket_name, publish_socket, staged_identity, validate_unix_socket_path, PathLook,
    PathMetadata, ProbeAnswer, RenameOutcome, SocketIdentity, StaleStep, WakeOutcome,
};
use crate::text::{
    decimal, is_first_name, lemma_place_of, text_of, trim,
};
use vstd::prelude::*;

verus! {

/// The keys of a top level are those of its entries, in order.
proof fn lemma_keys(entries: Seq<(String, Option<String>)>)
    ensures
        keys_of(entries_of(entries)).len() == entries.len(),
        forall|i: int|
            0 <= i < entries.len() ==> #[trigger] keys_of(entries_of(entries))[i]
                == entries[i].0@,
        forall|i: int|
            0 <= i < entries.len() ==> (#[trigger] entries_of(entries)[i]).1 == text_of(
                entries[i].1,
            ),
{
}

/// A configuration is of the older format exactly where a version stands at its top
/// level, whatever the version is; anything else, and what is no document at all, is
/// profile-based.
pub proof fn the_older_format_names_its_version(table: &Option<TopLevel>, family: ConfigFamily)
    requires
        call_ensures(config_family, (table,), family),
    ensures
        family == ConfigFamily::Legacy <==> *table is Some && exists|i: int|
            0 <= i < table->0@.len() && (#[trigger] table->0@[i]).0@ == "configVersion"@,
{
    if *table is Some {
        let entries = table->0@;
        let keys = keys_of(entries_of(entries));
        lemma_keys(entries);
        if keys.contains("configVersion"@) {
            let i = choose|i: int| 0 <= i < keys.len() && keys[i] == "configVersion"@;
            assert(entries[i].0@ == "configVersion"@);
        }
        if exists|i: int|
            0 <= i < entries.len() && (#[trigger] entries[i]).0@ == "configVersion"@ {
            let i = choose|i: int|
                0 <= i < entries.len() && (#[trigger] entries[i]).0@ == "configVersion"@;
            assert(keys[i] == "configVersion"@);
            assert(keys.contains("configVersion"@));
        }
    }
}

/// The control socket that a top level names is the text that stands there first under
/// its key; what is no text names none.
pub proof fn a_top_level_names_its_socket(
    table: &Option<TopLevel>,
    index: int,
    socket: Option<String>,
)
    requires
        call_ensures(named_control_socket, (table,), socket),
    ensures
        *table is None ==> socket is None,
        *table is Some && (forall|i: int|
            0 <= i < table->0@.len() ==> (#[trigger] table->0@[i]).0@ != "controlSocketPath"@)
            ==> socket is None,
        *table is Some && 0 <= index < table->0@.len() && table->0@[index].0@
            == "controlSocketPath"@ && (forall|i: int|
            0 <= i < index ==> (#[trigger] table->0@[i]).0@ != "controlSocketPath"@) ==> text_of(
            socket,
        ) == text_of(table->0@[index].1),
{
    if *table is Some {
        let entries = table->0@;
        let keys = keys_of(entries_of(entries));
        let key = "controlSocketPath"@;
        lemma_keys(entries);
        if keys.contains(key) {
            let i = choose|i: int| 0 <= i < keys.len() && keys[i] == key;
            assert(entries[i].0@ == key);
        }
        if 0 <= index < entries.len() && entries[index].0@ == key && (forall|i: int|
            0 <= i < index ==> (#[trigger] entries[i]).0@ != key) {
            assert(keys[index] == key);
            assert forall|i: int| 0 <= i < index implies keys[i] != key by {
                assert(entries[i].0@ != key);
            }
            assert(is_first_name(keys, key, index));
            lemma_place_of(keys, key, index);
            assert(entries_of(entries)[index].1 == text_of(entries[index].1));
        }
    }
}

/// A configuration that was read keeps its text, and its format and its socket are
/// those that its top level tells; one that is missing is profile-based, and one that
/// cannot be read ends the daemon in a way that a restart does not mend.
pub proof fn a_configuration_is_what_its_top_level_tells(
    read: ConfigRead,
    source: Result<BootstrapSource, LambError>,
    table: &Option<TopLevel>,
    family: ConfigFamily,
    socket: Option<String>,
    code: i32,
)
    requires
        call_ensures(inspect_config, (read,), source),
        read is Text ==> top_level_of(*table) == toml_top_level(read->Text_0@),
        call_ensures(config_family, (table,), family),
        call_ensures(named_control_socket, (table,), socket),
        source is Err ==> call_ensures(LambError::process_exit_code, (&source->Err_0,), code),
    ensures
        source is Err <==> read is Failed,
        source is Err ==> code == 78,
        read is Missing ==> {
            &&& source->Ok_0.text is None
            &&& source->Ok_0.family == ConfigFamily::App
            &&& source->Ok_0.legacy_socket is None
        },
        read is Text ==> {
            &&& source->Ok_0.text == Some(read->Text_0)
            &&& source->Ok_0.family == family
            &&& text_of(source->Ok_0.legacy_socket) == text_of(socket)
        },
{
}

/// A path that leaves the runtime directory open gets it put in; one that does not is
/// taken as it is, and only one that does needs the directory to be there.
pub proof fn the_runtime_directory_is_put_in(
    path: &str,
    runtime_dir: &Option<String>,
    expanded: Result<String, LambError>,
    start: Seq<char>,
    rest: &str,
    rest_expanded: Result<String, LambError>,
)
    requires
        call_ensures(expand_control_socket_path, (path, runtime_dir), expanded),
        call_ensures(expand_control_socket_path, (rest, runtime_dir), rest_expanded),
        forall|i: int| 0 <= i < start.len() ==> #[trigger] start[i] != '%',
    ensures
        expanded is Err ==> *runtime_dir is None,
        expanded is Err ==> expanded->Err_0 is Validation && expanded->Err_0->Validation_0@
            == "XDG_RUNTIME_DIR does not exist"@,
        (forall|i: int|
            0 <= i < path@.len() - 1 ==> !(#[trigger] path@[i] == '%' && path@[i + 1] == 't'))
            ==> expanded is Ok && expanded->Ok_0@ == path@,
        path@ == start + seq!['%', 't'] + rest@ ==> {
            &&& *runtime_dir is None ==> expanded is Err
            &&& *runtime_dir is Some ==> {
                &&& expanded is Ok
                &&& rest_expanded is Ok
                &&& expanded->Ok_0@ == start + runtime_dir->0@ + rest_expanded->Ok_0@
            }
        },
{
    if path@ == start + seq!['%', 't'] + rest@ {
        let at = start.len() as int;
        assert(path@[at] == '%' && path@[at + 1] == 't');
        assert(mentions_runtime_dir(path@));
        if *runtime_dir is Some {
            let dir = runtime_dir->0@;
            lemma_put_in(start, rest@, dir);
            if !mentions_runtime_dir(rest@) {
                crate::bootstrap::a_complete_path_stays(rest@, dir);
            }
        }
    }
}

/// What stands before the place of the runtime directory stays, and what stands behind
/// it is expanded in turn.
proof fn lemma_put_in(start: Seq<char>, rest: Seq<char>, dir: Seq<char>)
    requires
        forall|i: int| 0 <= i < start.len() ==> #[trigger] start[i] != '%',
    ensures
        with_runtime_dir(start + seq!['%', 't'] + rest, dir) == start + dir + with_runtime_dir(
            rest,
            dir,
        ),
    decreases start.len(),
{
    let path = start + seq!['%', 't'] + rest;
    if start.len() == 0 {
        assert(path.skip(2) =~= rest);
        assert(start + dir =~= dir);
    } else {
        let less = start.skip(1);
        assert forall|i: int| 0 <= i < less.len() implies #[trigger] less[i] != '%' by {
            assert(start[i + 1] != '%');
        }
        lemma_put_in(less, rest, dir);
        assert(path[0] == start[0] && start[0] != '%');
        assert(path.skip(1) =~= less + seq!['%', 't'] + rest);
        assert(seq![start[0]] + (less + dir + with_runtime_dir(rest, dir)) =~= start + dir
            + with_runtime_dir(rest, dir));
    }
}

/// The control socket of a configuration is the one that it names in its own format,
/// and the usual one where it names none or is missing, with the runtime directory put
/// in.
pub proof fn a_configuration_has_the_socket_it_names(
    path: &String,
    source: BootstrapSource,
    app_socket: Option<String>,
    default_socket: &String,
    runtime_dir: &Option<String>,
    bootstrap: Result<BootstrapConfig, LambError>,
    template: &str,
    expanded: Result<String, LambError>,
    code: i32,
)
    requires
        call_ensures(
            bootstrap_config,
            (path, source, app_socket, default_socket, runtime_dir),
            bootstrap,
        ),
        ({
            let named = if source.text is None {
                None
            } else if source.family == ConfigFamily::Legacy {
                source.legacy_socket
            } else {
                app_socket
            };
            template@ == if named is Some {
                named->0@
            } else {
                default_socket@
            }
        }),
        call_ensures(expand_control_socket_path, (template, runtime_dir), expanded),
        bootstrap is Err ==> call_ensures(
            LambError::process_exit_code,
            (&bootstrap->Err_0,),
            code,
        ),
    ensures
        bootstrap is Ok <==> expanded is Ok,
        bootstrap is Err ==> code == 78,
        bootstrap is Ok ==> {
            &&& bootstrap->Ok_0.config_path@ == path@
            &&& bootstrap->Ok_0.text == source.text
            &&& bootstrap->Ok_0.family == source.family
            &&& bootstrap->Ok_0.control_socket_path@ == expanded->Ok_0@
        },
{
}

/// A mistake in a configuration never keeps the daemon from coming up: whatever parsing
/// came to, there is something to go on with, and the mistake is kept by its text.
pub proof fn a_mistake_is_kept_to_be_shown(
    bootstrap: &BootstrapConfig,
    parsed: ParsedConfig,
    fallback: AppConfig,
    prepared: PreparedBootstrap,
)
    requires
        call_ensures(prepare_bootstrap_config, (bootstrap, parsed, fallback), prepared),
    ensures
        match parsed {
            ParsedConfig::Legacy(Ok(config)) => prepared is Legacy && prepared->Legacy_0 == config,
            ParsedConfig::Legacy(Err(error)) => {
                &&& prepared is Faulted
                &&& prepared->family == ConfigFamily::Legacy
                &&& prepared->message@ == error@.rendered()
                &&& prepared->fallback_app_config == fallback
            },
            ParsedConfig::App(Ok(config)) => {
                &&& prepared is App
                &&& prepared->App_0.config == config
                &&& prepared->App_0.state == ConfigLoadState::Loaded
                &&& prepared->App_0.error is None
            },
            ParsedConfig::App(Err(error)) => {
                &&& prepared is App
                &&& prepared->App_0.config == fallback
                &&& prepared->App_0.state == ConfigLoadState::Invalid
                &&& text_of(prepared->App_0.error) == Some(error@.rendered())
            },
            ParsedConfig::Absent => {
                &&& bootstrap.family == ConfigFamily::App ==> {
                    &&& prepared is App
                    &&& prepared->App_0.config == fallback
                    &&& prepared->App_0.state == ConfigLoadState::Missing
                    &&& prepared->App_0.error is None
                }
                &&& bootstrap.family == ConfigFamily::Legacy ==> {
                    &&& prepared is Faulted
                    &&& prepared->family == ConfigFamily::Legacy
                    &&& prepared->message@ == "config file not found: "@
                        + bootstrap.config_path@
                }
            },
        },
{
}

/// The profile that a client asks for becomes the active one, whatever white space
/// stands around its name; an empty name asks for none and leaves the configured one,
/// and one that is not there is refused. Nothing else of the configuration changes, and
/// the older format has no profiles to choose from.
pub proof fn the_profile_that_is_asked_for_becomes_active(
    prepared: PreparedBootstrap,
    requested_profile: &Option<String>,
    path: &String,
    asked: &str,
    name: String,
    selected: Result<PreparedBootstrap, CaptureAttemptError>,
)
    requires
        call_ensures(
            prepare_command_config,
            (prepared, requested_profile, path),
            selected,
        ),
        *requested_profile is Some ==> asked@ == requested_profile->0@,
        call_ensures(trim, (asked,), name),
    ensures
        prepared is Legacy ==> selected is Ok && selected->Ok_0 == prepared,
        prepared is Faulted ==> {
            &&& selected is Err
            &&& selected->Err_0.class == ErrorClass::Permanent
            &&& selected->Err_0.capture_state == CaptureState::Faulted
            &&& selected->Err_0.message@ == prepared->message@
        },
        prepared is App && prepared->App_0.state != ConfigLoadState::Loaded ==> {
            &&& selected is Err
            &&& selected->Err_0.class == ErrorClass::Permanent
            &&& prepared->App_0.error is Some ==> selected->Err_0.message@
                == prepared->App_0.error->0@
            &&& prepared->App_0.error is None ==> selected->Err_0.message@
                == "config file not found: "@ + path@
        },
        prepared is App && prepared->App_0.state == ConfigLoadState::Loaded ==> {
            let before = prepared->App_0.config;
            let after = selected->Ok_0->App_0.config;
            let asks = *requested_profile is Some && name@.len() > 0;
            let known = exists|i: int|
                0 <= i < before.profiles@.len() && (#[trigger] before.profiles@[i]).name@ == name@;
            &&& selected is Ok <==> !asks || known
            &&& selected is Err ==> {
                &&& selected->Err_0.class == ErrorClass::Permanent
                &&& selected->Err_0.message@ == "profile "@ + name@ + " does not exist"@
            }
            &&& selected is Ok ==> {
                &&& selected->Ok_0 is App
                &&& selected->Ok_0->App_0.state == ConfigLoadState::Loaded
                &&& after.profiles == before.profiles
                &&& after.daemon.start_mode@ == before.daemon.start_mode@
                &&& after.daemon.control_socket_path@ == before.daemon.control_socket_path@
                &&& asks ==> text_of(after.daemon.active_profile) == Some(name@)
                &&& !asks ==> text_of(after.daemon.active_profile) == text_of(
                    before.daemon.active_profile,
                )
            }
        },
{
    if prepared is App {
        lemma_profile_known(prepared->App_0.config, name@);
    }
}

/// A profile is found in a configuration exactly where one of that name stands there.
proof fn lemma_profile_known(config: AppConfig, name: Seq<char>)
    ensures
        config@.has_profile(name) <==> exists|i: int|
            0 <= i < config.profiles@.len() && (#[trigger] config.profiles@[i]).name@ == name,
{
    let names = profile_names(config@.profiles);
    assert forall|i: int| 0 <= i < names.len() implies names[i] == config.profiles@[i].name@ by {}
    if names.contains(name) {
        let i = choose|i: int| 0 <= i < names.len() && names[i] == name;
        assert(config.profiles@[i].name@ == name);
    }
    if exists|i: int|
        0 <= i < config.profiles@.len() && (#[trigger] config.profiles@[i]).name@ == name {
        let i = choose|i: int|
            0 <= i < config.profiles@.len() && (#[trigger] config.profiles@[i]).name@ == name;
        assert(names[i] == name);
        assert(names.contains(name));
    }
}

/// To choose a profile by a name without white space around it is to choose it by any
/// name that reads so.
pub proof fn white_space_around_a_name_does_not_count(
    prepared: PreparedBootstrap,
    requested_profile: &Option<String>,
    path: &String,
    asked: &str,
    name: String,
    by_request: Result<PreparedBootstrap, CaptureAttemptError>,
    by_name: Result<PreparedBootstrap, CaptureAttemptError>,
)
    requires
        call_ensures(
            prepare_command_config,
            (prepared, requested_profile, path),
            by_request,
        ),
        *requested_profile is Some,
        asked@ == requested_profile->0@,
        call_ensures(trim, (asked,), name),
        call_ensures(select_profile, (prepared, Some(name), path), by_name),
    ensures
        by_request is Ok <==> by_name is Ok,
        by_request is Err ==> by_request->Err_0@ == by_name->Err_0@,
        by_request is Ok && prepared is App ==> text_of(
            by_request->Ok_0->App_0.config.daemon.active_profile,
        ) == text_of(by_name->Ok_0->App_0.config.daemon.active_profile),
{
}

/// A command goes on with the configuration and the socket that were found, unless its
/// active profile cannot be resolved.
pub proof fn a_command_needs_a_profile_that_resolves(
    prepared: PreparedBootstrap,
    control_socket_path: String,
    resolved: Result<(), LambError>,
    confirmed: Result<PreparedCommandConfig, CaptureAttemptError>,
)
    requires
        call_ensures(
            confirm_command_config,
            (prepared, control_socket_path, resolved),
            confirmed,
        ),
    ensures
        confirmed is Err <==> prepared is App && resolved is Err,
        confirmed is Ok ==> {
            &&& confirmed->Ok_0.prepared == prepared
            &&& confirmed->Ok_0.control_socket_path == control_socket_path
        },
        confirmed is Err ==> confirmed->Err_0.message@ == resolved->Err_0@.rendered(),
        confirmed is Err && (resolved->Err_0 is Config || resolved->Err_0 is Validation)
            ==> confirmed->Err_0.class == ErrorClass::Permanent,
{
}

/// When the daemon comes up, calibrations are cleaned up only for a configuration that
/// was loaded, and every calibration that one of its thresholds refers to is kept.
pub proof fn referred_calibrations_are_kept(
    loaded: &LoadedAppConfig,
    references: Option<Vec<(String, String)>>,
    profile: int,
    channel: int,
)
    requires
        call_ensures(startup_references, (loaded,), references),
    ensures
        references is Some <==> loaded.state == ConfigLoadState::Loaded,
        references is Some && 0 <= profile < loaded.config.profiles@.len() && 0 <= channel
            < loaded.config.profiles@[profile].channels@.len()
            && loaded.config.profiles@[profile].channels@[channel].activity is Some
            && loaded.config.profiles@[profile].channels@[channel].activity->0.calibration_id
            is Some ==> {
            let kept = loaded.config.profiles@[profile].channels@[channel].activity->0;
            exists|i: int|
                0 <= i < references->0@.len() && (#[trigger] references->0@[i]).0@
                    == kept.input_id@ && references->0@[i].1@ == kept.calibration_id->0@
        },
{
    if references is Some && 0 <= profile < loaded.config.profiles@.len() && 0 <= channel
        < loaded.config.profiles@[profile].channels@.len()
        && loaded.config.profiles@[profile].channels@[channel].activity is Some
        && loaded.config.profiles@[profile].channels@[channel].activity->0.calibration_id is Some {
        let kept = loaded.config.profiles@[profile].channels@[channel].activity->0;
        let config = loaded.config@;
        assert(config.profiles[profile] == loaded.config.profiles@[profile]@);
        assert(config.profiles[profile].channels[channel]
            == loaded.config.profiles@[profile].channels@[channel]@);
        assert(config.refers_at(profile, channel, kept.input_id@, kept.calibration_id->0@));
        assert(config.refers_to(kept.input_id@, kept.calibration_id->0@));
        assert(lists(references->0@, kept.input_id@, kept.calibration_id->0@));
    }
}

/// The daemon comes up with the paths it was given, nothing begun, nothing pending and
/// nothing held. With the older format capture is being started, with a configuration
/// that cannot be used the mistake is shown and waits for an operator, and a
/// profile-based one is to be applied next, to a state that captures nothing.
pub proof fn a_daemon_comes_up_as_configured<B, S>(
    bootstrap: BootstrapConfig,
    prepared: PreparedBootstrap,
    calibration_root: String,
    default_config: AppConfig,
    clock_origin: UnixOrigin,
    attempts: u64,
    step: BuildStep<B, S>,
)
    requires
        attempts < u64::MAX,
        call_ensures(
            build_idle_context::<B, S>,
            (bootstrap, prepared, calibration_root, default_config, clock_origin, attempts),
            step,
        ),
    ensures
        prepared is App <==> step is ApplyApp,
        !(prepared is App) <==> step is Ready,
        ({
            let ctx = if prepared is App {
                step->ctx
            } else {
                step->Ready_0
            };
            &&& ctx.config_path@ == bootstrap.config_path@
            &&& ctx.control_socket_path@ == bootstrap.control_socket_path@
            &&& ctx.calibration_root@ == calibration_root@
            &&& ctx.clock_origin == clock_origin
            &&& ctx.operation_epoch == 0
            &&& !ctx.stop
            &&& !ctx.runtime_poisoned
            &&& ctx.first_fatal is None
            &&& ctx.scheduler.pending is None
            &&& !ctx.scheduler.stopped
            &&& ctx.runtime.capture is None
            &&& ctx.runtime.session is None
            &&& ctx.runtime.capture_health is None
            &&& ctx.runtime.resolved_capture is None
            &&& ctx.runtime.active_profile is None
            &&& ctx.runtime.lifecycle.generation == 0
            &&& ctx.runtime.lifecycle.next_retry_at is None
            &&& prepared is App ==> {
                &&& step->loaded == prepared->App_0
                &&& step->sink is Bound
                &&& step->sink->generation == 1
                &&& step->sink->attempt_id.raw == attempts + 1
                &&& ctx.attempts == attempts + 1
                &&& ctx.runtime.config == default_config
                &&& ctx.runtime.config_family == bootstrap.family
                &&& ctx.runtime.state == RunState::Unconfigured
                &&& ctx.runtime.lifecycle.capture_state == CaptureState::Stopped
                &&& ctx.runtime.lifecycle.error_class is None
            }
            &&& prepared is Legacy ==> {
                &&& ctx.attempts == attempts
                &&& ctx.runtime.prepared_legacy == Some(prepared->Legacy_0)
                &&& ctx.runtime.config_family == ConfigFamily::Legacy
                &&& ctx.runtime.state == RunState::Starting
                &&& ctx.runtime.lifecycle.capture_state == CaptureState::Starting
                &&& ctx.runtime.lifecycle.error_class is None
                &&& ctx.runtime.last_error is None
            }
            &&& prepared is Faulted ==> {
                &&& ctx.attempts == attempts
                &&& ctx.runtime.prepared_legacy is None
                &&& ctx.runtime.config_family == prepared->family
                &&& ctx.runtime.config == prepared->fallback_app_config
                &&& ctx.runtime.state == RunState::Faulted
                &&& text_of(ctx.runtime.last_error) == Some(prepared->message@)
                &&& text_of(ctx.runtime.config_load_error) == Some(prepared->message@)
                &&& text_of(ctx.runtime.lifecycle.last_error) == Some(prepared->message@)
                &&& ctx.runtime.lifecycle.capture_state == CaptureState::Faulted
                &&& ctx.runtime.lifecycle.error_class == Some(ErrorClass::Permanent)
                &&& ctx.runtime.lifecycle.retry_policy == RetryPolicy::Manual
            }
        }),
{
}

/// A configuration that could not be applied while the daemon came up lets go of all
/// that was built; its error is shown and retried where it may pass, and ends the daemon
/// only where it is one that does.
pub proof fn a_failed_startup_is_shown<B, S>(
    ctx: &mut IdleDaemonContext<B, S>,
    error: LambError,
    now: RetryInstant,
    outcome: (Result<(), LambError>, Released<B, S>),
)
    requires
        call_ensures(startup_apply_failed::<B, S>, (ctx, error, now), outcome),
    ensures
        outcome.1.backend == old(ctx).runtime.capture,
        outcome.1.session == old(ctx).runtime.session,
        final(ctx).runtime.capture is None,
        final(ctx).runtime.session is None,
        final(ctx).runtime.capture_health is None,
        final(ctx).runtime.resolved_capture is None,
        ({
            let fatal = error is DaemonFatal || error is CaptureInvariant || error
                is ControlInvariant || error is ExportInvariant;
            let lasting = error is Config || error is Validation;
            &&& outcome.0 is Err <==> fatal
            &&& fatal ==> {
                &&& outcome.0->Err_0 is Capture
                &&& outcome.0->Err_0->Capture_0@ == error@.rendered()
                &&& final(ctx).runtime.state == old(ctx).runtime.state
            }
            &&& !fatal ==> {
                &&& final(ctx).runtime.state == RunState::Faulted
                &&& text_of(final(ctx).runtime.last_error) == Some(error@.rendered())
                &&& text_of(final(ctx).runtime.lifecycle.last_error) == Some(error@.rendered())
                &&& lasting <==> final(ctx).runtime.lifecycle.error_class == Some(
                    ErrorClass::Permanent,
                )
                &&& lasting <==> final(ctx).runtime.lifecycle.next_retry_at is None
            }
        }),
{
}

/// A daemon that is ready to listen has exactly the retry pending that its lifecycle
/// plans, and its capture reports from now on; where no retry is planned, a fault that
/// the capture met already is the one thing that may be pending.
pub proof fn a_ready_daemon_has_its_retry_pending<B, S>(ctx: &mut IdleDaemonContext<B, S>)
    requires
        old(ctx).scheduler.generation <= old(ctx).runtime.lifecycle.generation,
        !old(ctx).scheduler.stopped,
        old(ctx).runtime.capture_health is Some && old(ctx).runtime.capture_health->0.sink is Bound
            ==> old(ctx).runtime.capture_health->0.sink->generation
            <= old(ctx).runtime.lifecycle.generation,
        call_ensures(finish_idle_context::<B, S>, (ctx,), ()),
    ensures
        old(ctx).runtime.lifecycle.next_retry_at is Some ==> final(ctx).scheduler.pending
            == Some(
            PendingOperation::Retry {
                generation: old(ctx).runtime.lifecycle.generation,
                due: old(ctx).runtime.lifecycle.next_retry_at->0,
            },
        ),
        old(ctx).runtime.lifecycle.next_retry_at is None && (old(ctx).runtime.capture_health
            is None || old(ctx).runtime.capture_health->0.fault is None)
            ==> final(ctx).scheduler.pending is None,
        old(ctx).runtime.capture_health is Some ==> final(ctx).runtime.capture_health is Some
            && final(ctx).runtime.capture_health->0.armed,
        final(ctx).runtime.capture == old(ctx).runtime.capture,
        final(ctx).runtime.session == old(ctx).runtime.session,
        final(ctx).runtime.state == old(ctx).runtime.state,
        final(ctx).runtime.lifecycle@ == old(ctx).runtime.lifecycle@,
{
}

/// From its start the daemon reads the configuration at the path it was given, and goes
/// on with what it read; what cannot be read ends it in a way that a restart does not
/// mend.
pub proof fn a_daemon_reads_its_configuration<B, S>(
    path: &String,
    first: DaemonAction<B, S>,
    read: ConfigRead,
    second: DaemonAction<B, S>,
    source: Result<BootstrapSource, LambError>,
)
    requires
        call_ensures(run_from_config_path::<B, S>, (path, DaemonEvent::Started), first),
        call_ensures(
            run_from_config_path::<B, S>,
            (path, DaemonEvent::ConfigRead(read)),
            second,
        ),
        call_ensures(inspect_config, (read,), source),
    ensures
        first is ReadConfig,
        first->path@ == path@,
        read is Failed <==> second is Exit,
        !(read is Failed) <==> second is ParseConfig,
        second is Exit ==> second->result is Err && second->result->Err_0
            is NonRestartableBootstrap,
        second is ParseConfig ==> {
            &&& second->ParseConfig_0.text == source->Ok_0.text
            &&& second->ParseConfig_0.family == source->Ok_0.family
            &&& text_of(second->ParseConfig_0.legacy_socket) == text_of(
                source->Ok_0.legacy_socket,
            )
        },
{
}

/// Then it binds the socket that the configuration names, before anything is started;
/// where it has none, it ends.
pub proof fn a_daemon_binds_its_socket_first<B, S>(
    path: &String,
    source: BootstrapSource,
    parsed: ParsedConfig,
    app_socket: Option<String>,
    default_socket: String,
    runtime_dir: Option<String>,
    fallback: AppConfig,
    action: DaemonAction<B, S>,
    bootstrap: Result<BootstrapConfig, LambError>,
)
    requires
        call_ensures(
            run_from_config_path::<B, S>,
            (
                path,
                DaemonEvent::ConfigParsed {
                    source,
                    parsed,
                    app_socket,
                    default_socket,
                    runtime_dir,
                    fallback,
                },
            ),
            action,
        ),
        call_ensures(
            bootstrap_config,
            (path, source, app_socket, &default_socket, &runtime_dir),
            bootstrap,
        ),
    ensures
        bootstrap is Ok <==> action is BindSocket,
        bootstrap is Err <==> action is Exit,
        action is BindSocket ==> {
            &&& action->bootstrap.config_path@ == path@
            &&& action->bootstrap.control_socket_path@ == bootstrap->Ok_0.control_socket_path@
            &&& action->bootstrap.family == source.family
            &&& action->bootstrap.text == source.text
            &&& parsed is App && parsed->App_0 is Ok ==> action->BindSocket_prepared is App
                && action->BindSocket_prepared->App_0.config == parsed->App_0->Ok_0
            &&& parsed is Legacy && parsed->Legacy_0 is Ok ==> action->BindSocket_prepared
                == PreparedBootstrap::Legacy(parsed->Legacy_0->Ok_0)
        },
        action is Exit ==> action->result is Err && action->result->Err_0
            is NonRestartableBootstrap,
{
}

/// Once the socket is bound the context is set up; what fails before that is told as
/// something that a restart does not mend, and what fails after it is not.
pub proof fn a_daemon_is_set_up_behind_its_socket<B, S>(
    path: &String,
    bootstrap: BootstrapConfig,
    prepared: PreparedBootstrap,
    bound: Result<(), LambError>,
    calibration_root: Result<String, LambError>,
    default_config: AppConfig,
    clock_origin: UnixOrigin,
    attempts: u64,
    action: DaemonAction<B, S>,
    code: i32,
)
    requires
        attempts < u64::MAX,
        call_ensures(
            run_from_config_path::<B, S>,
            (
                path,
                DaemonEvent::SocketBound {
                    bootstrap,
                    prepared,
                    bound,
                    calibration_root,
                    default_config,
                    clock_origin,
                    attempts,
                },
            ),
            action,
        ),
        action is Exit && action->result is Err ==> call_ensures(
            LambError::process_exit_code,
            (&action->result->Err_0,),
            code,
        ),
    ensures
        bound is Err || calibration_root is Err <==> action is Exit,
        action is Exit ==> {
            &&& action->result is Err
            &&& action->Exit_released.backend is None
            &&& action->Exit_released.session is None
        },
        bound is Err ==> code == 78,
        bound is Ok && calibration_root is Err ==> action->result->Err_0@
            == calibration_root->Err_0@,
        bound is Ok && calibration_root is Ok ==> {
            &&& prepared is App <==> action is ApplyConfig
            &&& !(prepared is App) <==> action is AttemptStart
            &&& prepared is App ==> {
                &&& action->loaded == prepared->App_0
                &&& action->ApplyConfig_ctx.control_socket_path@
                    == bootstrap.control_socket_path@
                &&& action->ApplyConfig_ctx.config_path@ == bootstrap.config_path@
                &&& action->sink is Bound
                &&& action->sink->generation == 1
            }
            &&& prepared is Legacy ==> {
                &&& action->AttemptStart_ctx.runtime.prepared_legacy == Some(
                    prepared->Legacy_0,
                )
                &&& action->AttemptStart_ctx.control_socket_path@
                    == bootstrap.control_socket_path@
                &&& action->AttemptStart_released.backend is None
            }
        },
{
}

/// A configuration that was applied, or could not be, leads on to the start that it asks
/// for; only an error that ends the daemon does not, and then all is let go of.
pub proof fn a_daemon_goes_on_to_its_start<B, S>(
    path: &String,
    ctx: IdleDaemonContext<B, S>,
    applied: Result<(), LambError>,
    now: RetryInstant,
    action: DaemonAction<B, S>,
)
    requires
        call_ensures(
            run_from_config_path::<B, S>,
            (path, DaemonEvent::ConfigApplied { ctx, applied, now }),
            action,
        ),
    ensures
        ({
            let fatal = applied is Err && (applied->Err_0 is DaemonFatal || applied->Err_0
                is CaptureInvariant || applied->Err_0 is ControlInvariant || applied->Err_0
                is ExportInvariant);
            &&& fatal <==> action is Exit
            &&& !fatal <==> action is AttemptStart
            &&& fatal ==> {
                &&& action->result is Err
                &&& action->Exit_released.backend == ctx.runtime.capture
                &&& action->Exit_released.session == ctx.runtime.session
            }
            &&& applied is Ok ==> {
                &&& action->AttemptStart_released.backend is None
                &&& action->AttemptStart_ctx.runtime.capture == ctx.runtime.capture
                &&& action->AttemptStart_ctx.runtime.session == ctx.runtime.session
                &&& action->AttemptStart_ctx.runtime.state == ctx.runtime.state
            }
            &&& applied is Err && !fatal ==> {
                &&& action->AttemptStart_released.backend == ctx.runtime.capture
                &&& action->AttemptStart_released.session == ctx.runtime.session
                &&& action->AttemptStart_ctx.runtime.capture is None
                &&& action->AttemptStart_ctx.runtime.session is None
                &&& action->AttemptStart_ctx.runtime.state == RunState::Faulted
                &&& text_of(action->AttemptStart_ctx.runtime.last_error) == Some(
                    applied->Err_0@.rendered(),
                )
            }
        }),
{
}

/// After its start the daemon serves clients with the context it has, and it ends with
/// what the listener ended with.
pub proof fn a_daemon_listens_and_ends<B, S>(
    path: &String,
    ctx: IdleDaemonContext<B, S>,
    attempted: Result<(), LambError>,
    action: DaemonAction<B, S>,
    ended: Result<(), LambError>,
    last: DaemonAction<B, S>,
)
    requires
        call_ensures(
            run_from_config_path::<B, S>,
            (path, DaemonEvent::StartAttempted { ctx, attempted }),
            action,
        ),
        call_ensures(
            run_from_config_path::<B, S>,
            (path, DaemonEvent::ListenerEnded(ended)),
            last,
        ),
    ensures
        attempted is Ok ==> action is Listen && action->Listen_0 == ctx,
        attempted is Err ==> {
            &&& action is Exit
            &&& action->result == attempted
            &&& action->Exit_released.backend == ctx.runtime.capture
            &&& action->Exit_released.session == ctx.runtime.session
        },
        last is Exit,
        last->result == ended,
        last->Exit_released.backend is None,
        last->Exit_released.session is None,
{
}

/// A socket that someone listens at, that answers unexpectedly or that cannot be probed
/// is never removed; one that nobody listens at is removed only while it is the one that
/// was probed. What is no socket is refused before anything is probed.
pub proof fn only_a_dead_socket_is_removed(
    look: PathLook,
    path: &str,
    step: StaleStep,
    answer: ProbeAnswer,
    again: PathLook,
    remove: Result<bool, LambError>,
)
    requires
        call_ensures(inspect_stale_socket, (look, path), step),
        call_ensures(decide_stale_socket, (step->Probe_0, answer, again, path), remove),
    ensures
        look is Absent <==> step is Free,
        step is Probe <==> look is Found && look->Found_0.is_socket,
        look is Found && !look->Found_0.is_socket ==> {
            &&& step->Refuse_0 is Control
            &&& step->Refuse_0->Control_0@ == "refusing to replace non-socket control path "@
                + path@
        },
        look is Failed ==> step is Refuse && step->Refuse_0 == look->Failed_0,
        step is Probe ==> {
            let same = again is Found && again->Found_0.is_socket && again->Found_0.dev
                == look->Found_0.dev && again->Found_0.ino == look->Found_0.ino;
            &&& remove == Ok::<bool, LambError>(true) <==> answer is Refused && same
            &&& remove == Ok::<bool, LambError>(false) <==> answer is Refused && again is Absent
            &&& answer is Live ==> remove->Err_0 is Control && remove->Err_0->Control_0@
                == "control socket already has a live listener at "@ + path@
            &&& answer is Accepted ==> remove->Err_0 is Control && remove->Err_0->Control_0@
                == "refusing control socket with unexpected probe response at "@ + path@
            &&& answer is Failed ==> remove->Err_0 == answer->Failed_0
            &&& answer is Refused && again is Found && !same ==> remove->Err_0 is Control
                && remove->Err_0->Control_0@
                == "control socket changed while checking stale path "@ + path@
            &&& answer is Refused && again is Failed ==> remove->Err_0 == again->Failed_0
        },
{
}

/// The daemon removes only its own socket when it goes down, and only where it still
/// lies at its path; one that was being set up is removed under the same condition, or
/// where it is a socket while its identity is not known yet.
pub proof fn only_the_own_socket_is_cleaned_up(
    identity: SocketIdentity,
    look: PathLook,
    remove: Result<bool, LambError>,
    known: Option<SocketIdentity>,
    staging: bool,
)
    requires
        call_ensures(decide_cleanup, (identity, look), remove),
        call_ensures(decide_staging_cleanup, (known, look), staging),
    ensures
        remove == Ok::<bool, LambError>(true) <==> look is Found && look->Found_0.is_socket
            && look->Found_0.dev == identity.dev && look->Found_0.ino == identity.ino,
        look is Failed <==> remove is Err,
        look is Failed ==> remove->Err_0 == look->Failed_0,
        staging <==> look is Found && look->Found_0.is_socket && (known is Some ==> {
            &&& look->Found_0.dev == known->0.dev
            &&& look->Found_0.ino == known->0.ino
        }),
{
}

/// The socket that is published is the one that was set up and opened; whatever took its
/// place meanwhile is left alone.
pub proof fn the_socket_that_was_set_up_is_published(
    look: Result<PathMetadata, LambError>,
    path: &str,
    identity: Result<SocketIdentity, LambError>,
    pinned: PathMetadata,
    confirmed: Result<(), LambError>,
    outcome: RenameOutcome,
    published: Result<(), LambError>,
)
    requires
        call_ensures(staged_identity, (look, path), identity),
        call_ensures(confirm_pinned, (identity->Ok_0, pinned, path), confirmed),
        call_ensures(publish_socket, (outcome, path), published),
    ensures
        identity is Ok <==> look is Ok && look->Ok_0.is_socket,
        identity is Ok ==> {
            &&& identity->Ok_0.dev == look->Ok_0.dev
            &&& identity->Ok_0.ino == look->Ok_0.ino
            &&& confirmed is Ok <==> pinned.is_socket && pinned.dev == look->Ok_0.dev && pinned.ino
                == look->Ok_0.ino
        },
        look is Err ==> identity->Err_0 == look->Err_0,
        look is Ok && identity is Err ==> identity->Err_0 is Control
            && identity->Err_0->Control_0@ == "private control path is not a socket at "@ + path@,
        confirmed is Err ==> confirmed->Err_0 is Control && confirmed->Err_0->Control_0@
            == "private control socket changed before pinning at "@ + path@,
        published is Ok <==> outcome is Moved,
        outcome is Occupied ==> published->Err_0 is Control && published->Err_0->Control_0@
            == "control path changed during socket publication at "@ + path@,
        outcome is Failed ==> published->Err_0 == outcome->Failed_0,
{
}

/// A path can be that of a socket where it fits and holds no zero byte; as the system
/// takes it, it ends with one.
pub proof fn a_socket_path_fits(
    bytes: &Vec<u8>,
    shown: &str,
    checked: Result<(), LambError>,
    terminated: Result<Vec<u8>, LambError>,
    has_parent: bool,
    has_file_name: bool,
    placed: Result<(), LambError>,
)
    requires
        call_ensures(validate_unix_socket_path, (bytes, shown), checked),
        call_ensures(nul_terminated_path, (bytes,), terminated),
        call_ensures(check_socket_place, (has_parent, has_file_name), placed),
    ensures
        checked is Ok <==> bytes@.len() <= 107 && !bytes@.contains(0u8),
        bytes@.len() > 107 ==> checked->Err_0 is Control && checked->Err_0->Control_0@
            == "control socket path exceeds Linux sockaddr_un.sun_path capacity ("@ + decimal(
            bytes@.len(),
        ) + " > "@ + decimal(107) + " bytes): "@ + shown@,
        terminated is Ok <==> !bytes@.contains(0u8),
        terminated is Ok ==> terminated->Ok_0@ == bytes@.push(0u8),
        terminated is Err ==> terminated->Err_0 is Control && terminated->Err_0->Control_0@
            == "control socket path contains NUL"@,
        placed is Ok <==> has_parent && has_file_name,
        placed is Err ==> placed->Err_0 is Control,
        !has_parent ==> placed->Err_0->Control_0@ == "control socket path has no parent"@,
        has_parent && !has_file_name ==> placed->Err_0->Control_0@
            == "control socket path has no file name"@,
{
}

/// Two random numbers give two names, and the listener is woken by every connection but
/// one that failed outright.
pub proof fn private_sockets_do_not_meet(
    first: u64,
    second: u64,
    one: String,
    other: String,
    outcome: WakeOutcome,
    woken: Result<(), LambError>,
)
    requires
        first != second,
        call_ensures(private_socket_name, (first,), one),
        call_ensures(private_socket_name, (second,), other),
        call_ensures(judge_wake, (outcome,), woken),
    ensures
        one@ != other@,
        one@.len() == 22,
        one@.take(6) == ".lamb-"@,
        hexadecimal_of(one@.skip(6)) == first,
        woken is Err <==> outcome is Failed,
        outcome is Failed ==> woken->Err_0 == outcome->Failed_0,
{
    crate::socket::private_names_differ(first, second);
    reveal_strlit(".lamb-");
    lemma_low_hex_reads_back(first as nat, 16);
    assert(one@.take(6) =~= ".lamb-"@);
    assert(one@.skip(6) =~= low_hex(first as nat, 16));
    assert(sixteen_to(16) == 0x1_0000_0000_0000_0000) by {
        reveal_with_fuel(sixteen_to, 17);
    }
}

/// The number that a row of hexadecimal digits in lower case stands for.
pub open spec fn hexadecimal_of(text: Seq<char>) -> int
    decreases text.len(),
{
    if text.len() == 0 {
        0
    } else {
        let last = text.last() as int;
        hexadecimal_of(text.drop_last()) * 16 + if '0' as int <= last <= '9' as int {
            last - '0' as int
        } else if 'a' as int <= last <= 'f' as int {
            last - 'a' as int + 10
        } else {
            -1
        }
    }
}

spec fn sixteen_to(exponent: nat) -> int
    decreases exponent,
{
    if exponent == 0 {
        1
    } else {
        16 * sixteen_to((exponent - 1) as nat)
    }
}

proof fn lemma_low_hex_reads_back(value: nat, width: nat)
    ensures
        low_hex(value, width).len() == width,
        value < sixteen_to(width) ==> hexadecimal_of(low_hex(value, width)) == value,
    decreases width,
{
    if width > 0 {
        let less = (width - 1) as nat;
        lemma_low_hex_reads_back(value / 16, less);
        assert(low_hex(value, width).drop_last() =~= low_hex(value / 16, less));
        assert(value < 16 * sixteen_to(less) ==> value / 16 < sixteen_to(less));
    }
}

/// A path is that of a socket exactly where it lies at the number that the socket has on
/// its device.
pub proof fn a_socket_is_known_by_device_and_number(
    metadata: PathMetadata,
    other: PathMetadata,
    identity: SocketIdentity,
    same: bool,
)
    requires
        call_ensures(SocketIdentity::from_metadata, (metadata,), identity),
        call_ensures(SocketIdentity::matches, (identity, other), same),
    ensures
        same <==> other.is_socket && other.dev == metadata.dev && other.ino == metadata.ino,
{
}

/// The number of channels that a configuration of the older format asks for: as many as
/// it has capture ports with PipeWire, and as many as it says, or two, with the
/// stand-in; its own mistakes come first.
pub proof fn a_legacy_configuration_has_its_channels(
    cfg: &LambConfig,
    static_check: Result<(), LambError>,
    ports: Result<u64, LambError>,
    count: Result<u32, LambError>,
)
    requires
        call_ensures(legacy_channel_count, (cfg, static_check, ports), count),
    ensures
        static_check is Err ==> count is Err && count->Err_0@ == static_check->Err_0@,
        static_check is Ok && cfg.backend@ == "pipewire"@ ==> {
            &&& count is Ok <==> ports is Ok && ports->Ok_0 <= 0xFFFF_FFFF
            &&& count is Ok ==> count->Ok_0 == ports->Ok_0
            &&& ports is Err ==> count->Err_0@ == ports->Err_0@
            &&& ports is Ok && count is Err ==> count->Err_0 is Validation
        },
        static_check is Ok && cfg.backend@ == "fake"@ && cfg.backend@ != "pipewire"@ ==> {
            &&& count is Ok
            &&& cfg.channels is Some ==> count->Ok_0 == cfg.channels->0
            &&& cfg.channels is None ==> count->Ok_0 == 2
        },
        static_check is Ok && cfg.backend@ != "fake"@ && cfg.backend@ != "pipewire"@ ==> {
            &&& count is Err
            &&& count->Err_0 is Validation
            &&& count->Err_0->Validation_0@ == "unsupported legacy backend "@ + cfg.backend@
        },
{
}

/// The runtime of a capture is dimensioned by its own configuration and by the sizes that
/// all have alike; memory for calibrations is set aside for profiles only.
pub proof fn captures_are_dimensioned_as_configured(
    cfg: &LambConfig,
    profile: &ResolvedProfile,
    split_default_bytes: u64,
    defaults: RuntimeDefaults,
    legacy: CaptureRuntimeParams,
    app: CaptureRuntimeParams,
)
    requires
        call_ensures(legacy_runtime_params, (cfg, defaults), legacy),
        call_ensures(app_runtime_params, (profile, split_default_bytes, defaults), app),
    ensures
        legacy.seconds == cfg.seconds,
        legacy.chunk_frames_override == cfg.chunk_frames,
        legacy.memory_max == cfg.memory_max,
        legacy.headroom_bits == cfg.headroom_bits,
        legacy.split_when_over_bytes == cfg.split_when_over_bytes,
        legacy.maximum_calibration_seconds == 0,
        app.seconds == profile.buffer_seconds,
        app.chunk_frames_override is None,
        app.memory_max is None,
        app.split_when_over_bytes == split_default_bytes,
        app.maximum_calibration_seconds == 30,
        app.io_buffer_bytes_per_channel == defaults.io_buffer_bytes_per_channel,
        app.maximum_path_bytes == defaults.maximum_path_bytes,
        app.capture_queue_slots == defaults.capture_queue_slots,
        app.capture_worker_stack_bytes == defaults.capture_worker_stack_bytes,
        app.control_queue_capacity == defaults.control_queue_capacity,
        app.worker_stack_bytes == defaults.worker_stack_bytes,
        legacy.io_buffer_bytes_per_channel == app.io_buffer_bytes_per_channel,
        legacy.maximum_path_bytes == app.maximum_path_bytes,
        legacy.capture_queue_slots == app.capture_queue_slots,
        legacy.capture_worker_stack_bytes == app.capture_worker_stack_bytes,
        legacy.control_queue_capacity == app.control_queue_capacity,
        legacy.worker_stack_bytes == app.worker_stack_bytes,
{
}

/// A configuration of the older format is prepared as it is, with the policy that its
/// session has, where its memory can be set aside.
pub proof fn a_legacy_configuration_is_prepared_as_it_is(
    cfg: LambConfig,
    plan_check: Result<(), LambError>,
    policy: Result<ResolvedExportPolicy, LambError>,
    defaults: RuntimeDefaults,
    prepared: Result<PreparedLegacyConfig, LambError>,
    params: CaptureRuntimeParams,
)
    requires
        call_ensures(prepare_legacy_config, (cfg, plan_check, policy, defaults), prepared),
        call_ensures(legacy_runtime_params, (&cfg, defaults), params),
    ensures
        prepared is Ok <==> plan_check is Ok && policy is Ok,
        prepared is Ok ==> {
            &&& prepared->Ok_0.static_config == cfg
            &&& prepared->Ok_0.session_export_policy == policy->Ok_0
            &&& prepared->Ok_0.runtime_params == params
        },
        plan_check is Err ==> prepared->Err_0 == plan_check->Err_0,
        plan_check is Ok && policy is Err ==> prepared->Err_0 == policy->Err_0,
{
}

/// The control socket of a configuration of the older format gets the runtime directory
/// put in, and nothing else of it changes.
pub proof fn only_the_socket_of_a_legacy_configuration_is_expanded(
    cfg: LambConfig,
    path: &str,
    runtime_dir: &Option<String>,
    expanded: Result<LambConfig, LambError>,
    socket: Result<String, LambError>,
)
    requires
        path@ == cfg.control_socket_path@,
        call_ensures(expand_runtime_paths, (cfg, runtime_dir), expanded),
        call_ensures(expand_control_socket_path, (path, runtime_dir), socket),
    ensures
        expanded is Ok <==> socket is Ok,
        expanded is Ok ==> {
            &&& expanded->Ok_0.control_socket_path@ == socket->Ok_0@
            &&& expanded->Ok_0.backend == cfg.backend
            &&& expanded->Ok_0.target == cfg.target
            &&& expanded->Ok_0.channels == cfg.channels
            &&& expanded->Ok_0.capture_ports == cfg.capture_ports
            &&& expanded->Ok_0.seconds == cfg.seconds
            &&& expanded->Ok_0.sample_rate == cfg.sample_rate
            &&& expanded->Ok_0.sample_format == cfg.sample_format
            &&& expanded->Ok_0.output_dir == cfg.output_dir
        },
        expanded is Err ==> expanded->Err_0@ == socket->Err_0@,
{
}

/// The capture of a configuration of the older format is what was found: with the
/// stand-in what the configuration itself says, with PipeWire the device that was found,
/// shown by its name and its number; and the session that is put together has that rate
/// and those channels, and measures nothing.
pub proof fn a_legacy_capture_is_what_was_found<B, S>(
    prepared: &PreparedLegacyConfig,
    found: Result<(ResolvedTarget, Vec<String>), LambError>,
    resolved: Result<ResolvedLegacyCapture, LambError>,
    backend: B,
    memory: S,
    identity: u64,
    health: Option<PipeWireHealth>,
    active: ActiveCapture<B, S>,
)
    requires
        call_ensures(resolve_legacy_capture_with, (prepared, found), resolved),
        call_ensures(
            assemble_legacy_capture::<B, S>,
            (prepared, resolved->Ok_0, backend, memory, identity, health),
            active,
        ),
    ensures
        ({
            let cfg = prepared.static_config;
            let fake = cfg.backend@ == "fake"@;
            let pipewire = !fake && cfg.backend@ == "pipewire"@;
            &&& resolved is Ok <==> fake || (pipewire && found is Ok)
            &&& fake ==> {
                &&& active.backend.kind == BackendKind::Fake
                &&& active.session.sample_rate == cfg.sample_rate
                &&& cfg.channels is Some ==> active.session.channel_count == cfg.channels->0
                &&& cfg.channels is None ==> active.session.channel_count == 2
                &&& text_of(active.resolved.resolved_target) == Some("fake"@)
                &&& active.health is None
                &&& cfg.channel_map is Some ==> resolved->Ok_0.channel_names@
                    == cfg.channel_map->0@
                &&& cfg.channel_map is None ==> resolved->Ok_0.channel_names@.len() == 0
            }
            &&& pipewire && found is Ok ==> {
                let target = found->Ok_0.0;
                &&& active.backend.kind == BackendKind::PipeWire
                &&& active.session.sample_rate == target.sample_rate
                &&& active.session.channel_count == target.channels
                &&& target.id is None ==> text_of(active.resolved.resolved_target) == Some(
                    target.name@,
                )
                &&& target.id is Some ==> text_of(active.resolved.resolved_target) == Some(
                    target.name@ + " ("@ + decimal(target.id->0 as nat) + ")"@,
                )
                &&& active.health == health
                &&& resolved->Ok_0.channel_names == found->Ok_0.1
            }
            &&& pipewire && found is Err ==> resolved->Err_0 == found->Err_0
            &&& !fake && !pipewire ==> resolved->Err_0 is Validation
                && resolved->Err_0->Validation_0@ == "unsupported legacy backend "@ + cfg.backend@
        }),
        active.backend.rate == active.session.sample_rate,
        active.backend.error is None,
        active.backend.resource == backend,
        active.session.resource == memory,
        active.session.identity == identity,
        active.session.profile_name@ == "legacy"@,
        active.session.policy@ == prepared.session_export_policy@,
        active.session.configured_inputs@.len() == 0,
        active.session.calibration_sample_frames == 0,
        !active.session.policy_poisoned,
        !active.session.workspace_poisoned,
        resolved is Ok ==> active.resolved == resolved->Ok_0.state,
{
}

/// A device that was found is shown by its name, and by its number where it has one.
pub proof fn a_device_is_shown_by_name_and_number(
    target: &ResolvedTarget,
    state: ResolvedCaptureState,
)
    requires
        call_ensures(resolved_from_target, (target,), state),
    ensures
        state.channel_count == target.channels,
        state.sample_rate == target.sample_rate,
        target.id is None ==> text_of(state.resolved_target) == Some(target.name@),
        target.id is Some ==> text_of(state.resolved_target) == Some(
            target.name@ + " ("@ + decimal(target.id->0 as nat) + ")"@,
        ),
{
}

/// The stand-in hands over as many frames at a time as its configuration says.
pub proof fn the_stand_in_hands_over_its_chunks(prepared: &PreparedLegacyConfig, frames: u32)
    requires
        call_ensures(fake_chunk_frames, (prepared,), frames),
    ensures
        prepared.static_config.chunk_frames is Some ==> frames
            == prepared.static_config.chunk_frames->0,
        prepared.static_config.chunk_frames is None ==> frames == 25,
{
}

/// A capture of the older format needs a runtime directory; a control socket in it, where
/// its path still leaves that open; and with PipeWire a PipeWire that can be reached.
pub proof fn a_legacy_capture_needs_its_surroundings(
    cfg: &LambConfig,
    runtime_dir: &Option<String>,
    pipewire_socket: &str,
    pipewire_reachable: bool,
    checked: Result<(), LambError>,
)
    requires
        call_ensures(
            validate_runtime_environment,
            (cfg, runtime_dir, pipewire_socket, pipewire_reachable),
            checked,
        ),
    ensures
        ({
            let socket = cfg.control_socket_path@;
            let open = exists|i: int|
                0 <= i < socket.len() - 1 && #[trigger] socket[i] == '%' && socket[i + 1] == 't';
            let outside = *runtime_dir is Some && open && !runtime_dir->0@.is_prefix_of(socket);
            let unreachable = cfg.backend@ == "pipewire"@ && !pipewire_reachable;
            &&& checked is Ok <==> *runtime_dir is Some && !outside && !unreachable
            &&& checked is Err ==> checked->Err_0 is Validation
            &&& *runtime_dir is None ==> checked->Err_0->Validation_0@
                == "XDG_RUNTIME_DIR does not exist"@
            &&& outside ==> checked->Err_0->Validation_0@
                == "control socket path resolves outside runtime directory"@
            &&& *runtime_dir is Some && !outside && unreachable ==> checked->Err_0->Validation_0@
                == "PipeWire socket not reachable at "@ + pipewire_socket@
        }),
{
}

} // verus!
