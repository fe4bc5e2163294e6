use motif::cli::{
    classify_line, command_for, is_debug_socket_name, parse_args, parse_command, presentation,
    repl_step, Args, Command, Invocation, LineKind, Presentation, ReplStep,
};

fn args(words: &[&str]) -> Vec<String> {
    words.iter().map(|w| w.to_string()).collect()
}

fn run(json: bool, socket: Option<&str>, command: Option<&str>) -> Invocation {
    Invocation::Run(Args {
        json,
        socket: socket.map(String::from),
        command: command.map(String::from),
    })
}

#[test]
fn no_arguments_start_the_repl() {
    assert_eq!(parse_args(&[]), run(false, None, None));
}

#[test]
fn flags_and_a_command() {
    assert_eq!(parse_args(&args(&["scene.stats"])), run(false, None, Some("scene.stats")));
    assert_eq!(
        parse_args(&args(&["--json", "scene.stats"])),
        run(true, None, Some("scene.stats"))
    );
    assert_eq!(
        parse_args(&args(&["--socket", "/tmp/x.sock", "scene.quads", "--json"])),
        run(true, Some("/tmp/x.sock"), Some("scene.quads"))
    );
    // The last `--socket` wins; its path may look like a flag.
    assert_eq!(
        parse_args(&args(&["--socket", "a", "--socket", "--json"])),
        run(false, Some("--json"), None)
    );
}

#[test]
fn positional_arguments_are_joined_by_spaces() {
    assert_eq!(
        parse_args(&args(&["screenshot", "/tmp/test.png"])),
        run(false, None, Some("screenshot /tmp/test.png"))
    );
    assert_eq!(
        parse_args(&args(&["a", "--json", "b", "", "c d"])),
        run(true, None, Some("a b  c d"))
    );
    assert_eq!(parse_args(&args(&[""])), run(false, None, Some("")));
}

#[test]
fn the_first_ending_argument_decides() {
    assert_eq!(parse_args(&args(&["--help"])), Invocation::Help);
    assert_eq!(parse_args(&args(&["scene.stats", "-h", "--bogus"])), Invocation::Help);
    assert_eq!(
        parse_args(&args(&["--bogus", "--help"])),
        Invocation::UnknownFlag(String::from("--bogus"))
    );
    assert_eq!(parse_args(&args(&["-"])), Invocation::UnknownFlag(String::from("-")));
    assert_eq!(parse_args(&args(&["--json", "--socket"])), Invocation::MissingSocketPath);
    assert_eq!(parse_args(&args(&["--socket", "--help"])), run(false, Some("--help"), None));
    assert_eq!(parse_args(&args(&["--socket", "p", "-x"])), Invocation::UnknownFlag(String::from("-x")));
}

#[test]
fn commands_are_trimmed() {
    assert_eq!(parse_command("scene.stats"), Command { method: "scene.stats", path: None });
    assert_eq!(parse_command("  scene.quads \n"), Command { method: "scene.quads", path: None });
    assert_eq!(parse_command(""), Command { method: "", path: None });
    assert_eq!(parse_command("debug.remove 3"), Command { method: "debug.remove 3", path: None });
}

#[test]
fn screenshot_takes_a_path() {
    assert_eq!(
        parse_command("screenshot /tmp/test.png"),
        Command { method: "screenshot", path: Some("/tmp/test.png") }
    );
    assert_eq!(
        parse_command("  screenshot    /tmp/my shot.png  "),
        Command { method: "screenshot", path: Some("/tmp/my shot.png") }
    );
    // Without a path the trimmed line is the bare method.
    assert_eq!(parse_command("screenshot"), Command { method: "screenshot", path: None });
    assert_eq!(parse_command("screenshot   "), Command { method: "screenshot", path: None });
    assert_eq!(parse_command("screenshot \t x"), Command { method: "screenshot", path: Some("x") });
    assert_eq!(parse_command("screenshots a"), Command { method: "screenshots a", path: None });
}

#[test]
fn socket_names() {
    assert!(is_debug_socket_name("motif-debug-1234.sock"));
    assert!(is_debug_socket_name("motif-debug-.sock"));
    assert!(!is_debug_socket_name("motif-debug-test-1234-0.sock"));
    assert!(!is_debug_socket_name("motif-debug-1-test-.sock"));
    assert!(!is_debug_socket_name("motif-debug-1234.socket"));
    assert!(!is_debug_socket_name("xmotif-debug-1234.sock"));
    assert!(!is_debug_socket_name("motif-debug"));
    assert!(!is_debug_socket_name(".sock"));
    assert!(!is_debug_socket_name(""));
    assert!(is_debug_socket_name("motif-debug-test.sock"));
}

#[test]
fn repl_lines() {
    assert_eq!(repl_step(""), ReplStep::Skip);
    assert_eq!(repl_step("  \t\n"), ReplStep::Skip);
    assert_eq!(repl_step("quit\n"), ReplStep::Quit);
    assert_eq!(repl_step("  exit  "), ReplStep::Quit);
    assert_eq!(
        repl_step("scene.stats\n"),
        ReplStep::Send(Command { method: "scene.stats", path: None })
    );
    assert_eq!(
        repl_step(" screenshot /tmp/a.png \n"),
        ReplStep::Send(Command { method: "screenshot", path: Some("/tmp/a.png") })
    );
    assert_eq!(repl_step("quit now"), ReplStep::Send(Command { method: "quit now", path: None }));
    assert_eq!(repl_step("Quit"), ReplStep::Send(Command { method: "Quit", path: None }));
}

#[test]
fn responses_are_shown_by_kind() {
    // Errors come first, whatever else the response holds.
    assert_eq!(presentation("scene.stats", true, true, true), Presentation::ResponseJson);
    assert_eq!(presentation("scene.stats", true, false, false), Presentation::ErrorText);
    // A response without error or result.
    assert_eq!(presentation("scene.stats", false, false, true), Presentation::Null);
    assert_eq!(presentation("scene.stats", false, false, false), Presentation::Nothing);
    // Results.
    assert_eq!(presentation("scene.stats", false, true, true), Presentation::PrettyJson);
    assert_eq!(presentation("scene.stats", false, true, false), Presentation::Stats);
    assert_eq!(presentation("scene.quads", false, true, false), Presentation::Quads);
    assert_eq!(presentation("scene.text_runs", false, true, false), Presentation::TextRuns);
    assert_eq!(presentation("screenshot", false, true, false), Presentation::Screenshot);
    assert_eq!(presentation("debug.list", false, true, false), Presentation::PrettyJson);
    assert_eq!(presentation("", false, true, false), Presentation::PrettyJson);
}

#[test]
fn trimmed_lines_are_classified() {
    assert_eq!(classify_line(""), LineKind::Blank);
    assert_eq!(classify_line("quit"), LineKind::Quit);
    assert_eq!(classify_line("exit"), LineKind::Quit);
    assert_eq!(classify_line("quit "), LineKind::Command);
    assert_eq!(classify_line(" "), LineKind::Command);
    assert_eq!(classify_line("scene.stats"), LineKind::Command);
}

#[test]
fn commands_of_trimmed_lines() {
    assert_eq!(
        command_for("scene.stats", None),
        Command { method: "scene.stats", path: None }
    );
    assert_eq!(
        command_for("screenshot /tmp/a.png", Some("/tmp/a.png")),
        Command { method: "screenshot", path: Some("/tmp/a.png") }
    );
    assert_eq!(
        command_for("screenshot ", Some("")),
        Command { method: "screenshot", path: None }
    );
    assert_eq!(command_for("", None), Command { method: "", path: None });
}

#[test]
fn every_unicode_whitespace_is_trimmed() {
    let spaces = "\u{9}\u{a}\u{b}\u{c}\u{d}\u{20}\u{85}\u{a0}\u{1680}\u{2000}\u{2005}\u{200a}\u{2028}\u{2029}\u{202f}\u{205f}\u{3000}";
    let line = format!("{spaces}scene.stats{spaces}");
    assert_eq!(parse_command(&line), Command { method: "scene.stats", path: None });
    assert_eq!(repl_step(spaces), ReplStep::Skip);
    // A zero-width space and a Mongolian vowel separator are no whitespace.
    assert_eq!(
        parse_command("\u{200b}scene.stats"),
        Command { method: "\u{200b}scene.stats", path: None }
    );
    assert_eq!(repl_step("\u{180e}"), ReplStep::Send(Command { method: "\u{180e}", path: None }));
}
