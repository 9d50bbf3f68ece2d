use enarx_cli::cmd::{
    Action, Command, EnarxCommand, InfoOptions, LevelFilter, LogOpts, NoopOptions, SubCommand,
};
use enarx_cli::config::{EnvConfig, ReadHandle, TLSOptions, WriteHandle, STDERR_FD, STDIN_FD, STDOUT_FD};
use enarx_cli::run::{parse_env_var, KeepBuilder, KeepConn, Report, RunError, RunOptions};
use enarx_cli::sdnotify::SdNotify;
use enarx_cli::listenfds::VarFault;
use enarx_cli::serve::{ServeError, ServeOptions, ServePlan};

fn run_options() -> RunOptions {
    RunOptions {
        envs: vec![("NAME".to_string(), "VAL".to_string())],
        invoke: Some("main".to_string()),
        module: "hello.wasm".to_string(),
        args: vec!["a".to_string()],
    }
}

#[test]
fn env_var_is_cut_at_the_first_equals_sign() {
    assert_eq!(parse_env_var("NAME=VAL"), Ok(("NAME".to_string(), "VAL".to_string())));
    assert_eq!(parse_env_var("A=b=c"), Ok(("A".to_string(), "b=c".to_string())));
    assert_eq!(parse_env_var("A="), Ok(("A".to_string(), "".to_string())));
    assert_eq!(parse_env_var("=v"), Ok(("".to_string(), "v".to_string())));
    assert_eq!(parse_env_var("="), Ok(("".to_string(), "".to_string())));
    assert_eq!(parse_env_var("NAME"), Err(RunError::BadEnvVar));
    assert_eq!(parse_env_var(""), Err(RunError::BadEnvVar));
    assert_eq!(RunError::BadEnvVar.to_string(), "must be of the form `NAME=VAL`");
}

#[test]
fn a_keep_runs_its_workload() {
    let keep = KeepBuilder::new().default_loader().inherit_stdio(true).build().unwrap();
    assert_eq!(keep, KeepConn {});
    let keep = keep.config().unwrap();
    let keep = keep.envs(&vec![("K".to_string(), "V".to_string())]).unwrap();
    let keep = keep.args(&vec!["x".to_string()]).unwrap();
    let keep = keep.module(b"\0asm").unwrap();
    let keep = keep.function(None).unwrap();
    let keep = keep.function(Some("start".to_string())).unwrap();
    assert_eq!(keep.run(), Ok(Report {}));
    assert_eq!(run_options().launch(b"\0asm"), Ok(Report {}));
}

#[test]
fn commands_ask_for_actions() {
    assert_eq!(NoopOptions { args: vec!["ignored".to_string()] }.execute(), Ok(Action::Nothing));
    assert_eq!(run_options().execute(), Ok(Action::Run(run_options())));
    assert_eq!(
        InfoOptions { socket_path: "/run/enarx.socket".to_string() }.execute(),
        Ok(Action::Info("/run/enarx.socket".to_string()))
    );
    assert_eq!(Command::Noop(NoopOptions { args: vec![] }).execute(), Ok(Action::Nothing));
    assert_eq!(Command::Run(run_options()).execute(), Ok(Action::Run(run_options())));
    assert_eq!(EnarxCommand::Noop(NoopOptions { args: vec![] }).execute(), Ok(Action::Nothing));
    assert_eq!(EnarxCommand::Run(run_options()).execute(), Ok(Action::Run(run_options())));
    let serve = ServeOptions { systemd_socket_accept: false, idle_timeout: 5000, socket_path: None };
    assert_eq!(EnarxCommand::Serve(serve).execute(), Err(ServeError::MissingSocketPath));
    let serve = ServeOptions {
        systemd_socket_accept: false,
        idle_timeout: 5000,
        socket_path: Some("/s".to_string()),
    };
    assert_eq!(
        EnarxCommand::Serve(serve).execute(),
        Ok(Action::Serve(ServePlan::Listen("/s".to_string())))
    );
}

#[test]
fn verbosity_levels() {
    let level = |verbosity: u8| LogOpts { verbosity, filter: None }.verbosity_level();
    assert_eq!(level(0), LevelFilter::Error);
    assert_eq!(level(1), LevelFilter::Warn);
    assert_eq!(level(2), LevelFilter::Info);
    assert_eq!(level(3), LevelFilter::Debug);
    assert_eq!(level(4), LevelFilter::Trace);
    assert_eq!(level(255), LevelFilter::Trace);
}

#[test]
fn env_config_inherits_stdio() {
    let config = EnvConfig::default();
    assert_eq!(
        config,
        EnvConfig { envs: vec![], args: vec![], stdin: None, stdout: None, stderr: None }
    );
    let config = config.inherit_stdin();
    assert_eq!(config.stdin, Some(ReadHandle::Inherit(0)));
    assert_eq!(config.stdout, None);
    let config = config.inherit_stdout();
    assert_eq!(config.stdout, Some(WriteHandle::Inherit(1)));
    assert_eq!(config.stderr, None);
    let config = config.inherit_stderr();
    assert_eq!(config.stderr, Some(WriteHandle::Inherit(2)));
    let all = EnvConfig::default().inherit_stdio();
    assert_eq!(all, config);
    assert_eq!((STDIN_FD, STDOUT_FD, STDERR_FD), (0, 1, 2));
    let tls = TLSOptions { cert: None, key: None, cacert: None, capath: Some("/etc/ssl".to_string()) };
    assert_eq!(tls.capath.as_deref(), Some("/etc/ssl"));
}

#[test]
fn notify_socket_from_its_variable() {
    let mut var = Ok("/run/systemd/notify".to_string());
    assert_eq!(SdNotify::get_notify_socket(&var), Ok("/run/systemd/notify".to_string()));
    let notify = SdNotify::from_env(&var).unwrap();
    assert_eq!(notify.path(), "/run/systemd/notify");
    SdNotify::unset_env(&mut var);
    assert_eq!(var, Err(VarFault::NotPresent));
    assert_eq!(SdNotify::from_env(&var), Err(VarFault::NotPresent));
    assert_eq!(SdNotify::from_env(&Err(VarFault::NotUnicode)), Err(VarFault::NotUnicode));
}
