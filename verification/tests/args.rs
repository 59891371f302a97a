use headless_sdk::args::{parse_args, parse_port, Invocation};

fn run(arguments: &[&str]) -> Invocation {
    let mut all = vec!["headless_sdk".to_string()];
    all.extend(arguments.iter().map(|argument| argument.to_string()));
    parse_args(&all)
}

fn settings(arguments: &[&str]) -> (bool, String, u16) {
    match run(arguments) {
        Invocation::Run { settings } => (settings.use_pipe, settings.host, settings.port),
        _ => panic!("not run"),
    }
}

#[test]
fn default_arguments() {
    assert_eq!(settings(&[]), (false, "127.0.0.1".to_string(), 9528));
    match parse_args(&Vec::new()) {
        Invocation::Run { settings } => assert_eq!(settings.port, 9528),
        _ => panic!("not run"),
    }
}

#[test]
fn options_are_read() {
    assert_eq!(
        settings(&["--port", "8080", "--host", "0.0.0.0", "--pipe"]),
        (true, "0.0.0.0".to_string(), 8080)
    );
    assert_eq!(settings(&["--port", "1", "--port", "2"]).2, 2);
    assert_eq!(settings(&["--port", "1", "--port", "x"]).2, 9528);
    assert_eq!(settings(&["--host", "--pipe"]), (false, "--pipe".to_string(), 9528));
}

#[test]
fn an_option_without_its_value_changes_nothing() {
    assert_eq!(settings(&["--pipe", "--port"]), (true, "127.0.0.1".to_string(), 9528));
    assert_eq!(settings(&["--port", "5", "--host"]), (false, "127.0.0.1".to_string(), 5));
}

#[test]
fn the_first_argument_that_decides_decides() {
    assert!(matches!(run(&["--help"]), Invocation::Help));
    assert!(matches!(run(&["--pipe", "-h", "nonsense"]), Invocation::Help));
    match run(&["--port", "5", "nonsense", "--help"]) {
        Invocation::Unknown { argument } => assert_eq!(argument, "nonsense"),
        _ => panic!("known"),
    }
}

#[test]
fn ports_are_read_as_the_standard_library_reads_them() {
    for text in [
        "0", "80", "+80", "00080", "65535", "65536", "99999999999999999999", "", "+", "-", "-1",
        "-0", "++1", "1+", " 80", "80 ", "8a", "\u{660}", "0x10", "+065535", "6553600000000000000",
    ] {
        assert_eq!(parse_port(text), text.parse::<u16>().unwrap_or(9528), "{:?}", text);
    }
}
