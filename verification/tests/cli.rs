use drcom4scut::cli::{
    absolute_path, build_run_command, build_service_command, parse_cli_from, parse_run_service,
    Cli, CliCommand,
    InstallArgs, Invocation, ServiceCliCommand,
};
use drcom4scut::settings::{RuntimeMode, ServiceCommand, Settings};
use drcom4scut::source::{ConfigValues, RunArgs, SettingsError};

fn path(text: &str) -> String {
    text.to_string()
}

fn run_args(config: String) -> RunArgs {
    RunArgs {
        config,
        debug: false,
        mac: None,
        ip: None,
        username: Some("user".to_string()),
        password: Some("pass".to_string()),
        host: None,
        hostname: Some("box".to_string()),
        time: None,
    }
}

fn empty_config() -> ConfigValues {
    ConfigValues {
        mac: None,
        ip: None,
        username: None,
        password: None,
        dns: None,
        host: None,
        hostname: None,
        time: None,
        reconnect: None,
        heartbeat: None,
        retry: None,
        log: None,
        data: None,
    }
}

fn cwd() -> Option<String> {
    Some("/home/user".to_string())
}

#[test]
fn parse_service_install_requires_absolute_config() {
    let cli = Cli {
        command: Some(CliCommand::Service {
            command: ServiceCliCommand::Install(InstallArgs { config: path("config.yml") }),
        }),
        run: run_args(path("config.yml")),
    };
    let result = parse_cli_from(cli, &cwd());
    assert!(result.is_err());
}

#[test]
fn parse_run_service_requires_absolute_config() {
    let cli = Cli {
        command: Some(CliCommand::RunService(run_args(path("config.yml")))),
        run: run_args(path("config.yml")),
    };
    let result = parse_cli_from(cli, &cwd());
    assert!(result.is_err());
}

#[test]
fn relative_service_config_error_is_not_absolute() {
    let cli = Cli {
        command: Some(CliCommand::RunService(run_args(path("config.yml")))),
        run: run_args(path("config.yml")),
    };
    match parse_cli_from(cli, &cwd()) {
        Err(e) => assert_eq!(e, SettingsError::ServiceConfigNotAbsolute),
        Ok(_) => panic!("a relative service configuration path was accepted"),
    }
}

#[test]
fn console_run_accepts_relative_config() {
    let cli = Cli { command: None, run: run_args(path("config.yml")) };
    match parse_cli_from(cli, &cwd()) {
        Ok(Invocation::Run(plan)) => {
            assert_eq!(plan.mode, RuntimeMode::Console);
            assert!(plan.config_path.ends_with("config.yml"));
            assert!(plan.config_path.starts_with("/home/user"));
        }
        _ => panic!("expected a console run"),
    }
}

#[test]
fn console_run_without_current_dir_fails() {
    let cli = Cli { command: None, run: run_args(path("config.yml")) };
    match parse_cli_from(cli, &None) {
        Err(e) => assert_eq!(e, SettingsError::CurrentDirUnavailable),
        Ok(_) => panic!("expected an error"),
    }
}

#[test]
fn service_run_with_absolute_config_is_planned() {
    let cli = Cli {
        command: Some(CliCommand::RunService(run_args(path("/etc/drcom/config.yml")))),
        run: run_args(path("config.yml")),
    };
    match parse_cli_from(cli, &None) {
        Ok(Invocation::RunService(plan)) => {
            assert_eq!(plan.mode, RuntimeMode::Service);
            assert_eq!(plan.config_path, "/etc/drcom/config.yml");
        }
        _ => panic!("expected a service run"),
    }
}

#[test]
fn service_install_keeps_absolute_path() {
    let cmd = ServiceCliCommand::Install(InstallArgs { config: path("/etc/drcom/config.yml") });
    match build_service_command(cmd, &None) {
        Ok(ServiceCommand::Install { config }) => assert_eq!(config, "/etc/drcom/config.yml"),
        _ => panic!("expected an install command"),
    }
    assert!(matches!(build_service_command(ServiceCliCommand::Stop, &None), Ok(ServiceCommand::Stop)));
}

#[test]
fn parse_run_service_reports_relative_install_path() {
    let cli = Cli {
        command: Some(CliCommand::Service {
            command: ServiceCliCommand::Install(InstallArgs { config: path("config.yml") }),
        }),
        run: run_args(path("config.yml")),
    };
    match parse_run_service(cli, &cwd()) {
        Err(e) => assert_eq!(e, SettingsError::ServiceConfigNotAbsolute),
        Ok(_) => panic!("expected an error"),
    }
}

#[test]
fn run_subcommand_and_top_level_read_same_file() {
    let with_run = Cli {
        command: Some(CliCommand::Run(run_args(path("conf/c.yml")))),
        run: run_args(path("config.yml")),
    };
    let without = Cli { command: None, run: run_args(path("conf/c.yml")) };
    let a = match parse_cli_from(with_run, &cwd()) {
        Ok(Invocation::Run(p)) => p.config_path,
        _ => panic!("expected a run"),
    };
    let b = match parse_cli_from(without, &cwd()) {
        Ok(Invocation::Run(p)) => p.config_path,
        _ => panic!("expected a run"),
    };
    assert_eq!(a, b);
    assert_eq!(std::path::Path::new(&a), std::path::Path::new("/home/user/conf/c.yml"));
}

#[test]
fn absolute_path_joins_relative_paths() {
    let p = absolute_path(&path("c.yml"), &cwd()).unwrap();
    assert_eq!(std::path::Path::new(&p), std::path::Path::new("/home/user/c.yml"));
    assert_eq!(absolute_path(&path("/x/c.yml"), &None).unwrap(), "/x/c.yml");
    assert!(std::path::Path::new(&p).is_absolute());
    assert_eq!(absolute_path(&p, &None).unwrap(), p);
}

#[test]
fn parse_run_service_refuses_service_commands() {
    let cli = Cli {
        command: Some(CliCommand::Service { command: ServiceCliCommand::Start }),
        run: run_args(path("config.yml")),
    };
    match parse_run_service(cli, &cwd()) {
        Err(e) => assert_eq!(e, SettingsError::ServiceCommandCannotRun),
        Ok(_) => panic!("expected an error"),
    }
}

#[test]
fn service_mode_disables_console_logging() {
    let args = run_args(path("/etc/drcom/config.yml"));
    let service =
        build_run_command(&args, RuntimeMode::Service, "/etc/drcom/config.yml".to_string(), &empty_config())
            .unwrap();
    assert!(!service.settings.log.enable_console);
    assert_eq!(service.mode, RuntimeMode::Service);
    let console =
        build_run_command(&args, RuntimeMode::Console, "/etc/drcom/config.yml".to_string(), &empty_config())
            .unwrap();
    assert!(console.settings.log.enable_console);
    assert_eq!(console.settings.config_path, "/etc/drcom/config.yml");
}

#[test]
fn parse_starts_from_defaults() {
    let args = run_args(path("/c.yml"));
    let s = Settings::parse(&args, "/c.yml".to_string(), &empty_config()).unwrap();
    assert_eq!(s.config_path, "/c.yml");
    assert_eq!(s.host, "s.scut.edu.cn");
    assert_eq!(s.reconnect, 15);
    assert_eq!(s.username, "user");
}
