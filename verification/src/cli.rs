//! What the command line asks for: running the client (in a console or as
//! a service) or managing the service. Runs are planned in two steps: first
//! where the configuration file is, then, once it is read, the settings.
use crate::resolve::resolve_result;
use crate::settings::{RunCommand, RuntimeMode, ServiceCommand, Settings};
use crate::source::{ConfigValues, RunArgs, SettingsError};
use crate::text::{path_is_relative, path_join, path_joined, path_relative, without_prefix};
use vstd::prelude::*;

verus! {

/// How a run treats its configuration file.
#[derive(Debug, Clone, Copy, PartialEq, Eq, Structural)]
pub struct ParseOptions {
    /// Write the default configuration where none exists (console runs);
    /// a service needs an absolute path to an existing file instead.
    pub create_default_config: bool,
}

/// The arguments of `service install`.
#[derive(Debug, Clone)]
pub struct InstallArgs {
    pub config: String,
}

/// The `service` subcommands.
#[derive(Debug, Clone)]
pub enum ServiceCliCommand {
    Install(InstallArgs),
    Uninstall,
    Start,
    Stop,
}

/// The subcommands.
#[derive(Debug, Clone)]
pub enum CliCommand {
    Run(RunArgs),
    RunService(RunArgs),
    Service { command: ServiceCliCommand },
}

/// The parsed command line: a subcommand, or the arguments of a run.
#[derive(Debug, Clone)]
pub struct Cli {
    pub command: Option<CliCommand>,
    pub run: RunArgs,
}

/// A run before its configuration file is read.
#[derive(Debug, Clone)]
pub struct RunPlan {
    pub args: RunArgs,
    pub mode: RuntimeMode,
    /// The absolute path of the configuration file.
    pub config_path: String,
}

/// What the command line asks for, before any configuration file is read.
#[derive(Debug, Clone)]
pub enum Invocation {
    Run(RunPlan),
    /// Run as a service; the plan is checked before the dispatcher starts.
    RunService(RunPlan),
    Service(ServiceCommand),
}

/// The absolute path of `path`: the path itself if it is absolute, else
/// the current directory joined with it; without a current directory that
/// fails.
pub open spec fn absolute_location(path: Seq<char>, current_dir: Option<String>) -> Result<
    Seq<char>,
    SettingsError,
> {
    if !path_relative(path) {
        Ok(path)
    } else {
        match current_dir {
            Some(dir) => Ok(path_joined(dir@, path)),
            None => Err(SettingsError::CurrentDirUnavailable),
        }
    }
}

/// An absolute path: the path itself if it is absolute, else the current
/// directory joined with it; without a current directory that fails. The
/// result is absolute when the path is, or when the current directory is
/// and the path has no drive or network prefix.
pub fn absolute_path(path: &String, current_dir: &Option<String>) -> (r: Result<
    String,
    SettingsError,
>)
    ensures
        located(absolute_location(path@, *current_dir), r),
        !path_relative(path@) ==> (r matches Ok(p) && !path_relative(p@)),
        current_dir matches Some(d) && !path_relative(d@) && without_prefix(path@) ==> (
        r matches Ok(p) && !path_relative(p@)),
{
    if !path_is_relative(path.as_str()) {
        Ok(path.clone())
    } else {
        match current_dir {
            Some(dir) => Ok(path_join(dir.as_str(), path.as_str())),
            None => Err(SettingsError::CurrentDirUnavailable),
        }
    }
}

/// An absolute path is its own absolute path, whatever the current directory.
pub proof fn lemma_absolute_location_fixed(q: Seq<char>, current_dir: Option<String>)
    requires
        !path_relative(q),
    ensures
        absolute_location(q, current_dir) == Ok::<Seq<char>, SettingsError>(q),
{
}

/// Whether the path of the configuration file is acceptable: a service
/// (no default file written) needs an absolute one.
pub open spec fn config_path_allowed(args: RunArgs, options: ParseOptions) -> bool {
    options.create_default_config || !path_relative(args.config@)
}

/// Where the configuration file of a run is: an error, the path as given
/// when it is absolute, else the current directory joined with it.
pub open spec fn config_location(args: RunArgs, options: ParseOptions, current_dir: Option<String>) -> Result<
    Seq<char>,
    SettingsError,
> {
    if !config_path_allowed(args, options) {
        Err(SettingsError::ServiceConfigNotAbsolute)
    } else {
        absolute_location(args.config@, current_dir)
    }
}

/// `r` is the path `loc` describes.
pub open spec fn located(loc: Result<Seq<char>, SettingsError>, r: Result<String, SettingsError>) -> bool {
    match loc {
        Err(e) => r == Err::<String, SettingsError>(e),
        Ok(p) => r matches Ok(x) && x@ == p,
    }
}

/// The outcome of reading settings from the configuration file at `path`:
/// resolution from the defaults, with `system` as the host's name.
pub open spec fn parse_result(
    args: RunArgs,
    path: Seq<char>,
    cfg: ConfigValues,
    system: Option<String>,
    r: Result<Settings, SettingsError>,
) -> bool {
    exists|base: Settings| #[trigger] base.is_default_at(path) && resolve_result(base, args, cfg, system, r)
}

impl Settings {
    /// Where the configuration file of a run is: an absolute path. A
    /// service's path must be absolute already.
    pub fn config_file(args: &RunArgs, options: ParseOptions, current_dir: &Option<String>) -> (r:
        Result<String, SettingsError>)
        ensures
            located(config_location(*args, options, *current_dir), r),
    {
        if !options.create_default_config && path_is_relative(args.config.as_str()) {
            return Err(SettingsError::ServiceConfigNotAbsolute);
        }
        absolute_path(&args.config, current_dir)
    }

    /// The settings of a run whose configuration file, at `config_path`,
    /// holds `cfg`: the defaults, resolved against the arguments and `cfg`.
    pub fn parse(args: &RunArgs, config_path: String, cfg: &ConfigValues) -> (r: Result<
        Settings,
        SettingsError,
    >)
        ensures
            exists|system: Option<String>| parse_result(*args, config_path@, *cfg, system, r),
            crate::resolve::required(args.hostname, cfg.hostname) is Some ==> parse_result(
                *args,
                config_path@,
                *cfg,
                None,
                r,
            ),
    {
        let ghost path = config_path@;
        let mut base = Settings::default();
        base.config_path = config_path;
        assert(base.is_default_at(path));
        let ghost b = base;
        let r = Settings::resolve(base, args, cfg);
        proof {
            let system = choose|system: Option<String>| resolve_result(b, *args, *cfg, system, r);
            assert(parse_result(*args, path, *cfg, system, r));
        }
        r
    }
}

/// Everything but whether the log goes to the console is the same.
pub open spec fn same_but_console(a: Settings, b: Settings) -> bool {
    &&& crate::resolve::same_outside_log(a, b)
    &&& a.log.enable_file == b.log.enable_file
    &&& a.log.level_filter == b.log.level_filter
    &&& a.log.file_directory == b.log.file_directory
}

/// Builds a run from its plan and the configuration file it reads. A
/// service does not log to the console.
pub fn build_run_command(args: &RunArgs, mode: RuntimeMode, config_path: String, cfg: &ConfigValues) -> (r:
    Result<RunCommand, SettingsError>)
    ensures
        exists|system: Option<String>, p: Result<Settings, SettingsError>|
            #[trigger] parse_result(*args, config_path@, *cfg, system, p) && match (p, r) {
                (Ok(s), Ok(rc)) => {
                    &&& rc.debug == args.debug
                    &&& rc.mode == mode
                    &&& same_but_console(s, rc.settings)
                    &&& rc.settings.log.enable_console == (mode == RuntimeMode::Console
                        && s.log.enable_console)
                },
                (Err(e1), Err(e2)) => e1 == e2,
                _ => false,
            },
{
    let ghost path = config_path@;
    let p = Settings::parse(args, config_path, cfg);
    let ghost system = choose|system: Option<String>| parse_result(*args, path, *cfg, system, p);
    let ghost pv = p;
    match p {
        Ok(settings) => {
            let ghost s0 = settings;
            let mut settings = settings;
            if mode == RuntimeMode::Service {
                settings.log.enable_console = false;
            }
            assert(same_but_console(s0, settings));
            let rc = RunCommand { settings, debug: args.debug, mode };
            assert(parse_result(*args, path, *cfg, system, pv));
            assert(pv == Ok::<Settings, SettingsError>(s0));
            Ok(rc)
        },
        Err(e) => {
            assert(parse_result(*args, path, *cfg, system, p));
            Err(e)
        },
    }
}

/// The service command of `service install|uninstall|start|stop`; the
/// configuration path of an installed service must be absolute.
pub fn build_service_command(command: ServiceCliCommand, current_dir: &Option<String>) -> (r: Result<
    ServiceCommand,
    SettingsError,
>)
    ensures
        service_built(command, r),
{
    match command {
        ServiceCliCommand::Install(args) => {
            if path_is_relative(args.config.as_str()) {
                return Err(SettingsError::ServiceConfigNotAbsolute);
            }
            match absolute_path(&args.config, current_dir) {
                Ok(config) => Ok(ServiceCommand::Install { config }),
                Err(e) => Err(e),
            }
        },
        ServiceCliCommand::Uninstall => Ok(ServiceCommand::Uninstall),
        ServiceCliCommand::Start => Ok(ServiceCommand::Start),
        ServiceCliCommand::Stop => Ok(ServiceCommand::Stop),
    }
}

/// `r` is the service command `command` asks for.
pub open spec fn service_built(command: ServiceCliCommand, r: Result<ServiceCommand, SettingsError>) -> bool {
    match command {
        ServiceCliCommand::Install(a) => if !path_relative(a.config@) {
            r matches Ok(ServiceCommand::Install { config }) && config@ == a.config@
        } else {
            r == Err::<ServiceCommand, SettingsError>(SettingsError::ServiceConfigNotAbsolute)
        },
        ServiceCliCommand::Uninstall => r matches Ok(ServiceCommand::Uninstall),
        ServiceCliCommand::Start => r matches Ok(ServiceCommand::Start),
        ServiceCliCommand::Stop => r matches Ok(ServiceCommand::Stop),
    }
}

/// Each `service` subcommand gives the service command of the same name:
/// `uninstall` always uninstalls, `start` always starts, `stop` always
/// stops, and `install` installs with the configuration path it was given,
/// or fails only because that path is not absolute.
pub proof fn lemma_service_command_named(command: ServiceCliCommand, r: Result<ServiceCommand, SettingsError>)
    requires
        service_built(command, r),
    ensures
        command is Uninstall ==> r == Ok::<ServiceCommand, SettingsError>(ServiceCommand::Uninstall),
        command is Start ==> r == Ok::<ServiceCommand, SettingsError>(ServiceCommand::Start),
        command is Stop ==> r == Ok::<ServiceCommand, SettingsError>(ServiceCommand::Stop),
        command is Install && r is Ok ==> r->Ok_0 is Install && r->Ok_0->config@ == command->0.config@,
        command is Install && r is Err ==> r->Err_0 == SettingsError::ServiceConfigNotAbsolute
            && path_relative(command->0.config@),
        command is Install && !path_relative(command->0.config@) ==> r is Ok,
{
}

/// Different subcommands never give the same service command.
pub proof fn lemma_service_command_distinct(
    c1: ServiceCliCommand,
    c2: ServiceCliCommand,
    built: ServiceCommand,
)
    requires
        service_built(c1, Ok::<ServiceCommand, SettingsError>(built)),
        service_built(c2, Ok::<ServiceCommand, SettingsError>(built)),
    ensures
        c1 is Install <==> c2 is Install,
        c1 is Uninstall <==> c2 is Uninstall,
        c1 is Start <==> c2 is Start,
        c1 is Stop <==> c2 is Stop,
{
}

/// The options of a run in `mode`: only a console run writes a default
/// configuration file.
pub open spec fn options_for(mode: RuntimeMode) -> ParseOptions {
    ParseOptions { create_default_config: mode == RuntimeMode::Console }
}

/// `p` plans a run of `args` in `mode` whose configuration file is where
/// `config_location` says.
pub open spec fn planned(p: RunPlan, args: RunArgs, mode: RuntimeMode, current_dir: Option<String>) -> bool {
    &&& p.args == args
    &&& p.mode == mode
    &&& located(
        config_location(args, options_for(mode), current_dir),
        Ok::<String, SettingsError>(p.config_path),
    )
}

/// The plan of a run of `args` in `mode`, or why there is none.
pub open spec fn plan_result(args: RunArgs, mode: RuntimeMode, current_dir: Option<String>, r: Result<RunPlan, SettingsError>) -> bool {
    match config_location(args, options_for(mode), current_dir) {
        Err(e) => r == Err::<RunPlan, SettingsError>(e),
        Ok(_) => r matches Ok(p) && planned(p, args, mode, current_dir),
    }
}

/// Plans a run of `args` in `mode`.
pub fn plan_run(args: RunArgs, mode: RuntimeMode, current_dir: &Option<String>) -> (r: Result<
    RunPlan,
    SettingsError,
>)
    ensures
        plan_result(args, mode, *current_dir, r),
{
    let options = ParseOptions { create_default_config: mode == RuntimeMode::Console };
    match Settings::config_file(&args, options, current_dir) {
        Ok(config_path) => Ok(RunPlan { args, mode, config_path }),
        Err(e) => Err(e),
    }
}

/// The run a command line asks for: the subcommand's, or a console run of
/// the top-level arguments when there is none.
pub open spec fn requested_run(cli: Cli) -> Option<(RunArgs, RuntimeMode)> {
    match cli.command {
        None => Some((cli.run, RuntimeMode::Console)),
        Some(CliCommand::Run(a)) => Some((a, RuntimeMode::Console)),
        Some(CliCommand::RunService(a)) => Some((a, RuntimeMode::Service)),
        Some(CliCommand::Service { .. }) => None,
    }
}

/// What the command line asks for: a console run (`run` or no subcommand),
/// a service run (`run-service`, whose configuration path must be
/// absolute) or a service command (`service ...`).
pub fn parse_cli_from(cli: Cli, current_dir: &Option<String>) -> (r: Result<Invocation, SettingsError>)
    ensures
        match cli.command {
            Some(CliCommand::Service { command }) => match r {
                Ok(Invocation::Service(c)) => service_built(command, Ok::<ServiceCommand, SettingsError>(c)),
                Ok(_) => false,
                Err(e) => service_built(command, Err::<ServiceCommand, SettingsError>(e)),
            },
            _ => {
                let (args, mode) = requested_run(cli)->0;
                match r {
                    Ok(Invocation::Run(p)) => mode == RuntimeMode::Console && plan_result(
                        args,
                        mode,
                        *current_dir,
                        Ok::<RunPlan, SettingsError>(p),
                    ),
                    Ok(Invocation::RunService(p)) => mode == RuntimeMode::Service && plan_result(
                        args,
                        mode,
                        *current_dir,
                        Ok::<RunPlan, SettingsError>(p),
                    ),
                    Ok(Invocation::Service(_)) => false,
                    Err(e) => plan_result(args, mode, *current_dir, Err::<RunPlan, SettingsError>(e)),
                }
            },
        },
{
    match cli.command {
        Some(CliCommand::Run(args)) => match plan_run(args, RuntimeMode::Console, current_dir) {
            Ok(p) => Ok(Invocation::Run(p)),
            Err(e) => Err(e),
        },
        Some(CliCommand::RunService(args)) => match plan_run(args, RuntimeMode::Service, current_dir) {
            Ok(p) => Ok(Invocation::RunService(p)),
            Err(e) => Err(e),
        },
        Some(CliCommand::Service { command }) => match build_service_command(command, current_dir) {
            Ok(c) => Ok(Invocation::Service(c)),
            Err(e) => Err(e),
        },
        None => match plan_run(cli.run, RuntimeMode::Console, current_dir) {
            Ok(p) => Ok(Invocation::Run(p)),
            Err(e) => Err(e),
        },
    }
}

/// Why a service command cannot start a service run: an install with a
/// relative configuration path is refused for that first, as building the
/// command does; any other command cannot start a run.
pub open spec fn service_run_refusal(command: ServiceCliCommand) -> SettingsError {
    match command {
        ServiceCliCommand::Install(a) => if path_relative(a.config@) {
            SettingsError::ServiceConfigNotAbsolute
        } else {
            SettingsError::ServiceCommandCannotRun
        },
        _ => SettingsError::ServiceCommandCannotRun,
    }
}

/// The run a service starts: the run the command line asks for; a service
/// command cannot start one (its own error comes first).
pub fn parse_run_service(cli: Cli, current_dir: &Option<String>) -> (r: Result<RunPlan, SettingsError>)
    ensures
        match cli.command {
            Some(CliCommand::Service { command }) => r == Err::<RunPlan, SettingsError>(
                service_run_refusal(command),
            ),
            _ => {
                let (args, mode) = requested_run(cli)->0;
                plan_result(args, mode, *current_dir, r)
            },
        },
{
    match cli.command {
        Some(CliCommand::Run(args)) => plan_run(args, RuntimeMode::Console, current_dir),
        Some(CliCommand::RunService(args)) => plan_run(args, RuntimeMode::Service, current_dir),
        Some(CliCommand::Service { command }) => match build_service_command(command, current_dir) {
            Err(e) => Err(e),
            Ok(_) => Err(SettingsError::ServiceCommandCannotRun),
        },
        None => plan_run(cli.run, RuntimeMode::Console, current_dir),
    }
}

/// A run's configuration file: a service run is refused a relative path;
/// an absolute path is used as it is, in either mode; a console run joins
/// a relative path to the current directory, and fails without one.
pub proof fn lemma_run_plan(
    args: RunArgs,
    mode: RuntimeMode,
    current_dir: Option<String>,
    r: Result<RunPlan, SettingsError>,
)
    requires
        plan_result(args, mode, current_dir, r),
    ensures
        mode == RuntimeMode::Service && path_relative(args.config@) ==> r == Err::<
            RunPlan,
            SettingsError,
        >(SettingsError::ServiceConfigNotAbsolute),
        !path_relative(args.config@) ==> r is Ok && r->Ok_0.config_path@ == args.config@
            && r->Ok_0.mode == mode && r->Ok_0.args == args,
        mode == RuntimeMode::Console && path_relative(args.config@) && current_dir is Some
            ==> r is Ok && r->Ok_0.config_path@ == path_joined(current_dir->0@, args.config@),
        mode == RuntimeMode::Console && path_relative(args.config@) && current_dir is None
            ==> r == Err::<RunPlan, SettingsError>(SettingsError::CurrentDirUnavailable),
{
}

/// `run` and no subcommand ask for a console run, `run-service` for a
/// service run, and a `service` command for no run at all; a service
/// command that is asked to start a run is refused, for a relative install
/// path with that error and otherwise as a command that cannot run.
pub proof fn lemma_requested_run(cli: Cli)
    ensures
        cli.command is None ==> requested_run(cli) == Some((cli.run, RuntimeMode::Console)),
        cli.command matches Some(CliCommand::Run(a)) ==> requested_run(cli) == Some(
            (a, RuntimeMode::Console),
        ),
        cli.command matches Some(CliCommand::RunService(a)) ==> requested_run(cli) == Some(
            (a, RuntimeMode::Service),
        ),
        cli.command matches Some(CliCommand::Service { command }) ==> requested_run(cli) is None
            && ((service_run_refusal(command) == SettingsError::ServiceConfigNotAbsolute) <==> (
        command is Install && path_relative(command->0.config@))) && (service_run_refusal(command)
            == SettingsError::ServiceConfigNotAbsolute || service_run_refusal(command)
            == SettingsError::ServiceCommandCannotRun),
{
}

} // verus!
