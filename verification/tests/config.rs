use parser_bridge::config::ParserConfig;
use parser_bridge::invocation::ExecMode;

#[test]
fn config_accepts_resolved_paths() {
    let config = ParserConfig::new(
        "/home/xdlinx/telemetry-tool/venv/bin/python3".to_string(),
        "parser/telemetry_parser.py".to_string(),
        ExecMode::Detached,
    )
    .expect("both paths are resolved");
    assert_eq!(
        config.interpreter(),
        "/home/xdlinx/telemetry-tool/venv/bin/python3"
    );
    assert_eq!(config.mode(), ExecMode::Detached);
}

#[test]
fn config_rejects_empty_interpreter() {
    let config = ParserConfig::new(
        String::new(),
        "parser/telemetry_parser.py".to_string(),
        ExecMode::BlockingCapture,
    );
    assert!(config.is_none());
}

#[test]
fn config_rejects_empty_entry_point() {
    let config = ParserConfig::new(
        "/usr/bin/python3".to_string(),
        String::new(),
        ExecMode::BlockingCapture,
    );
    assert!(config.is_none());
}

#[test]
fn command_args_hold_entry_point_then_path() {
    let config = ParserConfig::new(
        "/usr/bin/python3".to_string(),
        "parser/telemetry_parser.py".to_string(),
        ExecMode::BlockingCapture,
    )
    .expect("both paths are resolved");
    let args = config.command_args("/data/pass_42.bin");
    assert_eq!(
        args,
        vec![
            "parser/telemetry_parser.py".to_string(),
            "/data/pass_42.bin".to_string()
        ]
    );
}

#[test]
fn command_args_pass_the_path_through_unexamined() {
    // The bridge does not validate the caller's path; judging it is the
    // external processor's business.
    let config = ParserConfig::new(
        "/usr/bin/python3".to_string(),
        "parser/telemetry_parser.py".to_string(),
        ExecMode::BlockingCapture,
    )
    .expect("both paths are resolved");
    let args = config.command_args("no such file ??");
    assert_eq!(args[1], "no such file ??");
}
