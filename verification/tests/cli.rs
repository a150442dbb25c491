use request_pipeline_sim::cli::{parse_args, parse_u64, ArgsError, IntErrorKind};
use request_pipeline_sim::scenario::Scenario;

fn args(values: &[&str]) -> Vec<String> {
    values.iter().map(|value| value.to_string()).collect()
}

#[test]
fn parse_args_uses_default_scenario_when_omitted() {
    let config = parse_args(args(&["--max-ticks", "5"])).expect("parse args");

    assert_eq!(config.max_ticks, Some(5));
    assert_eq!(config.scenario, Scenario::default());
    assert!(!config.list_scenarios);
}

#[test]
fn parse_args_accepts_named_scenario() {
    let config = parse_args(args(&["--scenario", "retry-storm"])).expect("parse args");

    assert_eq!(config.scenario, Scenario::RetryStorm);
}

#[test]
fn parse_args_rejects_invalid_scenario_names() {
    let error = parse_args(args(&["--scenario", "unknown"])).expect_err("parse should fail");

    assert_eq!(
        error.message(),
        "unknown scenario: unknown (use --list-scenarios)"
    );
}

#[test]
fn parse_args_supports_listing_scenarios_without_terminal_startup() {
    let config = parse_args(args(&["--list-scenarios"])).expect("parse args");

    assert!(config.list_scenarios);
}

#[test]
fn parse_args_reports_missing_and_unknown_arguments() {
    let error = parse_args(args(&["--max-ticks"])).expect_err("missing value");
    assert!(matches!(error, ArgsError::MissingMaxTicks));
    assert_eq!(error.message(), "--max-ticks requires an integer value");

    let error = parse_args(args(&["--rpc-addr"])).expect_err("missing value");
    assert_eq!(error.message(), "--rpc-addr requires an address");

    let error = parse_args(args(&["--scenario"])).expect_err("missing value");
    assert_eq!(error.message(), "--scenario requires a scenario name");

    let error = parse_args(args(&["--verbose"])).expect_err("unknown argument");
    assert_eq!(error.message(), "unknown argument: --verbose");

    let error = parse_args(args(&["--max-ticks", "five"])).expect_err("bad number");
    assert_eq!(error.message(), "invalid digit found in string");
}

#[test]
fn parse_args_reads_every_option() {
    let config = parse_args(args(&[
        "--rpc-addr",
        "127.0.0.1:7000",
        "--max-ticks",
        "12",
        "--scenario",
        "dual-failure",
    ]))
    .expect("parse args");

    assert_eq!(config.rpc_addr.as_deref(), Some("127.0.0.1:7000"));
    assert_eq!(config.max_ticks, Some(12));
    assert_eq!(config.scenario, Scenario::DualFailure);
    assert!(!config.show_help);
}

#[test]
fn help_stops_reading_arguments() {
    let config = parse_args(args(&["--list-scenarios", "-h", "--bogus"])).expect("help");
    assert!(config.show_help);
    assert!(config.list_scenarios);

    let config = parse_args(args(&["--help"])).expect("help");
    assert!(config.show_help);
}

#[test]
fn parse_u64_agrees_with_std() {
    let cases = [
        "", "+", "-", "0", "7", "+42", "-1", "12a", "0012", "18446744073709551615",
        "18446744073709551616", "99999999999999999999x", "1 2", "\u{0663}",
    ];
    for case in cases {
        let expected = case.parse::<u64>().map_err(|error| match error.kind() {
            std::num::IntErrorKind::Empty => IntErrorKind::Empty,
            std::num::IntErrorKind::InvalidDigit => IntErrorKind::InvalidDigit,
            std::num::IntErrorKind::PosOverflow => IntErrorKind::PosOverflow,
            other => panic!("unexpected error kind {other:?}"),
        });
        assert_eq!(parse_u64(case), expected, "case {case:?}");
    }
}

#[test]
fn number_errors_use_std_messages() {
    for case in ["", "x", "18446744073709551616"] {
        let expected = case.parse::<u64>().unwrap_err().to_string();
        let error = parse_args(args(&["--max-ticks", case])).expect_err("bad number");
        assert_eq!(error.message(), expected);
    }
}
