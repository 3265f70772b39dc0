use zfstop::cli::{parse_cli, CliCommand, DEFAULT_INTERVAL_MS, DEFAULT_SOURCE};

fn args(list: &[&str]) -> Vec<String> {
    std::iter::once("zftop").chain(list.iter().copied()).map(String::from).collect()
}

fn run(list: &[&str]) -> (String, Option<String>, u64) {
    match parse_cli(&args(list)) {
        CliCommand::Run { source, meminfo, interval_ms } => (source, meminfo, interval_ms),
        other => panic!("expected Run, got {other:?}"),
    }
}

#[test]
fn no_arguments_give_the_defaults() {
    assert_eq!(run(&[]), (DEFAULT_SOURCE.to_string(), None, DEFAULT_INTERVAL_MS));
    assert_eq!(DEFAULT_SOURCE, "/proc/spl/kstat/zfs/arcstats");
    assert_eq!(DEFAULT_INTERVAL_MS, 1000);
}

#[test]
fn options_take_the_following_value() {
    assert_eq!(
        run(&["--source", "/tmp/a", "--meminfo", "/tmp/m", "-n", "250"]),
        ("/tmp/a".to_string(), Some("/tmp/m".to_string()), 250)
    );
    assert_eq!(run(&["--interval", "+40"]).2, 40);
}

#[test]
fn bad_or_missing_values_keep_the_previous_setting() {
    assert_eq!(run(&["-n", "fast"]).2, 1000);
    assert_eq!(run(&["-n", "300", "-n", "-5"]).2, 300);
    assert_eq!(run(&["-n", "99999999999999999999"]).2, 1000);
    assert_eq!(run(&["--source"]).0, DEFAULT_SOURCE);
    assert_eq!(run(&["--bogus", "--meminfo", "x"]).1, Some("x".to_string()));
}

#[test]
fn exit_flags_stop_the_scan() {
    assert!(matches!(parse_cli(&args(&["-h"])), CliCommand::Help));
    assert!(matches!(parse_cli(&args(&["--source", "x", "--version"])), CliCommand::Version));
    assert!(matches!(parse_cli(&args(&["-U", "-h"])), CliCommand::Upgrade));
    assert!(matches!(parse_cli(&args(&["--source", "-h"])), CliCommand::Run { .. }));
}
