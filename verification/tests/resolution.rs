use protohandler::command::build_command;
use protohandler::command::classify_exit;
use protohandler::command::get_protocol;
use protohandler::command::lookup_protocol;
use protohandler::command::lookup_shell;
use protohandler::command::ExitOutcome;
use protohandler::config::Config;
use protohandler::config::LoggingConfig;
use protohandler::config::ProtocolConfig;
use protohandler::config::ProtocolScriptConfig;
use protohandler::config::ProtocolShellConfig;
use protohandler::config::ShellConfig;
use protohandler::error::ProtoHandlerError;

fn strings(values: &[&str]) -> Vec<String> {
    let mut v = Vec::new();
    for s in values {
        v.push(s.to_string());
    }
    v
}

fn shell(name: &str, cmd: &str, args: &[&str]) -> ShellConfig {
    ShellConfig {
        name: name.to_string(),
        cmd: cmd.to_string(),
        args: strings(args),
    }
}

fn protocol(
    name: &str,
    script_name: &str,
    script_args: &[&str],
    shell_name: &str,
    shell_args: &[&str],
) -> ProtocolConfig {
    ProtocolConfig {
        name: name.to_string(),
        desc: String::new(),
        script: ProtocolScriptConfig {
            name: script_name.to_string(),
            args: strings(script_args),
        },
        shell: ProtocolShellConfig {
            name: shell_name.to_string(),
            args: strings(shell_args),
        },
    }
}

fn bash_config() -> Config {
    Config {
        logging: LoggingConfig::default(),
        shells: vec![shell("bash", "bash", &["-c"])],
        protocols: vec![protocol("pp", "run.sh", &["--verbose"], "bash", &["--login"])],
    }
}

#[test]
fn unmatched_strings_yield_no_protocol() {
    let cases = [
        "",
        "Myproto://capture",
        "1proto://capture",
        "-proto://capture",
        "x://y",
        "myproto:/capture",
        "myproto:capture",
        " myproto://capture",
        "see myproto://capture",
        "myproto",
        "://capture",
    ];
    for uri in cases {
        assert_eq!(None, get_protocol(&uri.to_string()), "uri: {uri:?}");
    }
}

#[test]
fn extracts_protocol_token() {
    let uri = "myproto://capture?x=1".to_string();
    assert_eq!(Some("myproto".to_string()), get_protocol(&uri));
}

#[test]
fn accepts_digits_hyphen_underscore() {
    assert_eq!(
        Some("snip-proto_2".to_string()),
        get_protocol(&"snip-proto_2://x".to_string())
    );
}

#[test]
fn unknown_protocol_is_rejected() {
    let config = bash_config();
    match build_command("myproto://whatever".to_string(), config) {
        Err(ProtoHandlerError::ProtocolNotConfigured { proto }) => {
            assert_eq!("myproto", proto);
        }
        _ => panic!("expected ProtocolNotConfigured"),
    }
}

#[test]
fn missing_shell_is_rejected() {
    let config = Config {
        logging: LoggingConfig::default(),
        shells: vec![shell("bash", "bash", &["-c"])],
        protocols: vec![protocol("pp", "run.sh", &[], "zsh", &[])],
    };
    match build_command("pp://foo".to_string(), config) {
        Err(ProtoHandlerError::ShellNotConfigured { sh }) => {
            assert_eq!("zsh", sh);
        }
        _ => panic!("expected ShellNotConfigured"),
    }
}

#[test]
fn uri_without_scheme_is_rejected() {
    match build_command("nope".to_string(), bash_config()) {
        Err(ProtoHandlerError::UriParseError { uri }) => {
            assert_eq!("nope", uri);
        }
        _ => panic!("expected UriParseError"),
    }
}

#[test]
fn bash_scenario_builds_exact_command() {
    let descriptor = build_command("pp://foo".to_string(), bash_config()).unwrap();
    assert_eq!("bash", descriptor.program);
    assert_eq!(
        strings(&["-c", "--login", "run.sh", "--verbose", "\"pp://foo\""]),
        descriptor.args
    );
}

#[test]
fn resolution_is_idempotent() {
    let first = build_command("pp://foo".to_string(), bash_config()).unwrap();
    let second = build_command("pp://foo".to_string(), bash_config()).unwrap();
    assert_eq!(first.program, second.program);
    assert_eq!(first.args, second.args);
}

#[test]
fn default_config_has_two_shells_and_no_protocols() {
    let config = Config::new();
    assert_eq!(2, config.shells.len());
    assert_eq!("pwsh", config.shells[0].name);
    assert_eq!("python", config.shells[1].name);
    assert_eq!(0, config.protocols.len());
}

#[test]
fn default_config_rejects_every_uri() {
    for uri in ["myproto://capture", "ab://x", "p-q://r?s=t"] {
        match build_command(uri.to_string(), Config::new()) {
            Err(ProtoHandlerError::ProtocolNotConfigured { proto }) => {
                assert_eq!(get_protocol(&uri.to_string()), Some(proto));
            }
            _ => panic!("expected ProtocolNotConfigured for {uri:?}"),
        }
    }
}

#[test]
fn lookup_protocol_takes_first_match() {
    let config = Config {
        logging: LoggingConfig::default(),
        shells: vec![],
        protocols: vec![
            protocol("pp", "first.sh", &[], "bash", &[]),
            protocol("pp", "second.sh", &[], "bash", &[]),
        ],
    };
    let found = lookup_protocol(&"pp".to_string(), &config).unwrap();
    assert_eq!("first.sh", found.script.name);
    assert!(lookup_protocol(&"q".to_string(), &config).is_none());
}

#[test]
fn lookup_shell_finds_by_exact_name() {
    let config = Config::new();
    let found = lookup_shell(&"python".to_string(), &config).unwrap();
    assert_eq!("python", found.cmd);
    assert!(lookup_shell(&"Python".to_string(), &config).is_none());
    assert!(lookup_shell(&"zsh".to_string(), &config).is_none());
}

#[test]
fn exit_reports_are_classified() {
    assert_eq!(ExitOutcome::Success, classify_exit(Some(0)));
    assert_eq!(ExitOutcome::Code { code: 7 }, classify_exit(Some(7)));
    assert_eq!(ExitOutcome::Code { code: -1 }, classify_exit(Some(-1)));
    assert_eq!(ExitOutcome::Signal, classify_exit(None));
}

#[test]
fn config_file_sits_in_config_directory() {
    let config = Config::new();
    if let Some(dir) = config.get_directory() {
        assert!(dir.ends_with("/protohandler"));
    }
    if let Some(file) = config.get_file() {
        assert!(file.ends_with("/protohandler/protohandler.yml"));
    }
}

#[test]
fn load_errors_carry_their_path() {
    match (ProtoHandlerError::PathError { path: "a/b".to_string() }) {
        ProtoHandlerError::PathError { path } => assert_eq!("a/b", path),
        _ => panic!("wrong variant"),
    }
    match (ProtoHandlerError::ConfigParseError { path: "c.yml".to_string() }) {
        ProtoHandlerError::ConfigParseError { path } => assert_eq!("c.yml", path),
        _ => panic!("wrong variant"),
    }
}
