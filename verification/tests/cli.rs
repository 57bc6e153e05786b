use revolver::cli::{
    command_of, parse_invocation, revolver, Outcome, unknown_command_message, unknown_style_message, Command,
    Invocation, USAGE, VERSION_LINE,
};

fn args(v: &[&str]) -> Vec<String> {
    v.iter().map(|s| s.to_string()).collect()
}

fn run(style: usize, command: Command) -> Invocation {
    Invocation::Run { style, command }
}

#[test]
fn no_arguments_ask_for_no_command() {
    assert_eq!(parse_invocation(&args(&[])), run(0, Command::Missing));
    assert_eq!(parse_invocation(&args(&[""])), run(0, Command::Missing));
}

#[test]
fn start_joins_the_message_words() {
    assert_eq!(
        parse_invocation(&args(&["start", "hello", "world"])),
        run(0, Command::Start("hello world".to_string()))
    );
    assert_eq!(parse_invocation(&args(&["start"])), run(0, Command::Start(String::new())));
    assert_eq!(
        parse_invocation(&args(&["update", "Almost", "there…"])),
        run(0, Command::Update("Almost there…".to_string()))
    );
}

#[test]
fn stop_and_demo() {
    assert_eq!(parse_invocation(&args(&["stop"])), run(0, Command::Stop));
    assert_eq!(parse_invocation(&args(&["demo", "x"])), run(0, Command::Demo));
}

#[test]
fn style_options_in_each_form() {
    assert_eq!(
        parse_invocation(&args(&["-s", "line", "start", "x"])),
        run(12, Command::Start("x".to_string()))
    );
    assert_eq!(
        parse_invocation(&args(&["start", "--style", "arc", "x"])),
        run(30, Command::Start("x".to_string()))
    );
    assert_eq!(
        parse_invocation(&args(&["--style=pong", "update", "a", "b"])),
        run(53, Command::Update("a b".to_string()))
    );
    assert_eq!(parse_invocation(&args(&["-sshark", "stop"])), run(54, Command::Stop));
}

#[test]
fn the_last_style_option_wins() {
    assert_eq!(
        parse_invocation(&args(&["-s", "line", "--style=arc", "stop"])),
        run(30, Command::Stop)
    );
}

#[test]
fn a_style_option_without_value_keeps_the_default() {
    assert_eq!(parse_invocation(&args(&["stop", "-s"])), run(0, Command::Stop));
    assert_eq!(parse_invocation(&args(&["-s"])), run(0, Command::Missing));
}

#[test]
fn help_and_version_end_the_scan() {
    assert_eq!(parse_invocation(&args(&["-h"])), Invocation::Help);
    assert_eq!(parse_invocation(&args(&["start", "--help"])), Invocation::Help);
    assert_eq!(parse_invocation(&args(&["-v", "-h"])), Invocation::Version);
    assert_eq!(parse_invocation(&args(&["--version"])), Invocation::Version);
    assert_eq!(parse_invocation(&args(&["-s", "nope", "-h"])), Invocation::Help);
}

#[test]
fn the_value_of_a_style_option_is_not_an_option() {
    assert_eq!(
        parse_invocation(&args(&["-s", "-h"])),
        Invocation::UnknownStyle("-h".to_string())
    );
}

#[test]
fn unknown_style_is_refused_before_the_command() {
    assert_eq!(
        parse_invocation(&args(&["-s", "nope", "stop"])),
        Invocation::UnknownStyle("nope".to_string())
    );
    assert_eq!(
        parse_invocation(&args(&["--style=", "frobnicate"])),
        Invocation::UnknownStyle(String::new())
    );
}

#[test]
fn unknown_command_is_named() {
    assert_eq!(
        parse_invocation(&args(&["frobnicate", "x"])),
        run(0, Command::Unknown("frobnicate".to_string()))
    );
    assert_eq!(
        parse_invocation(&args(&["-x"])),
        run(0, Command::Unknown("-x".to_string()))
    );
}

#[test]
fn command_word_and_message() {
    assert_eq!(command_of(&args(&["update", "a", "", "b"])), Command::Update("a  b".to_string()));
    assert_eq!(command_of(&args(&[])), Command::Missing);
}

#[test]
fn error_lines() {
    assert_eq!(
        unknown_style_message("nope"),
        "\x1b[0;31mSpinner 'nope' is not recognised\x1b[0;m"
    );
    assert_eq!(unknown_command_message("go"), "Command go is not recognised");
}

#[test]
fn help_and_version_text() {
    assert_eq!(VERSION_LINE, "0.2.0\n");
    assert!(USAGE.starts_with("\x1b[0;33mUsage:\x1b[0;m\n  revolver [options] <command> <message>\n\n"));
    assert!(USAGE.contains("\n  -s, --style        Set the spinner style\n"));
    assert!(USAGE.ends_with("  demo               Display an demo of each style\n"));
}

#[test]
fn builtin_outcomes() {
    assert_eq!(revolver(&args(&["-h"])), Outcome::Print { text: USAGE, code: 0 });
    assert_eq!(revolver(&args(&["--version"])), Outcome::Print { text: VERSION_LINE, code: 0 });
    assert_eq!(revolver(&args(&[])), Outcome::Print { text: USAGE, code: 1 });
    assert_eq!(
        revolver(&args(&["-s", "nope", "start"])),
        Outcome::Fail { line: "\x1b[0;31mSpinner 'nope' is not recognised\x1b[0;m".to_string() }
    );
    assert_eq!(
        revolver(&args(&["go"])),
        Outcome::Fail { line: "Command go is not recognised".to_string() }
    );
    assert_eq!(
        revolver(&args(&["-s", "shark", "start", "Working…"])),
        Outcome::Start { style: 54, message: "Working…".to_string() }
    );
    assert_eq!(
        revolver(&args(&["update", "Almost", "there…"])),
        Outcome::Update { message: "Almost there…".to_string() }
    );
    assert_eq!(revolver(&args(&["stop"])), Outcome::Stop);
    assert_eq!(revolver(&args(&["demo"])), Outcome::Demo);
}

#[test]
fn style_option_forms_and_places_agree() {
    let expected = revolver(&args(&["-s", "arc", "start", "a", "b"]));
    assert_eq!(expected, Outcome::Start { style: 30, message: "a b".to_string() });
    for argv in [
        &["--style", "arc", "start", "a", "b"][..],
        &["--style=arc", "start", "a", "b"][..],
        &["-sarc", "start", "a", "b"][..],
        &["start", "-s", "arc", "a", "b"][..],
        &["start", "a", "b", "--style=arc"][..],
        &["start", "a", "-sarc", "b"][..],
    ] {
        assert_eq!(revolver(&args(argv)), expected);
    }
}

#[test]
fn style_option_moves_beside_other_style_options() {
    let expected = revolver(&args(&["-s", "line", "-s", "arc", "start", "go"]));
    assert_eq!(expected, Outcome::Start { style: 30, message: "go".to_string() });
    for argv in [
        &["-s", "line", "--style=arc", "start", "go"][..],
        &["-s", "line", "start", "-sarc", "go"][..],
        &["--style", "line", "start", "go", "--style", "arc"][..],
    ] {
        assert_eq!(revolver(&args(argv)), expected);
    }
    assert_eq!(
        revolver(&args(&["-s", "arc", "start", "go", "-s", "line"])),
        Outcome::Start { style: 12, message: "go".to_string() }
    );
}
