use kizubin::cmds::{label_for, stderr_of, stdout_of, with_cwd, with_env, Cmd, CmdOutput, Exit};

fn exit(code: Option<i32>, shown: &str) -> Exit {
    Exit { code, shown: shown.to_string() }
}

#[test]
fn command_without_arguments_shows_the_program() {
    assert_eq!(Cmd::new("git").to_string(), "git");
}

#[test]
fn command_shows_arguments_after_spaces() {
    let cmd = Cmd::new("git").arg("status").arg("--short");
    assert_eq!(cmd.to_string(), "git status --short");
    assert_eq!(cmd.program(), "git");
    assert_eq!(cmd.arguments(), &vec!["status".to_string(), "--short".to_string()]);
}

#[test]
fn args_appends_in_order() {
    let more = vec!["b".to_string(), "c".to_string()];
    let cmd = Cmd::new("x").arg("a").args(&more).arg("d");
    assert_eq!(cmd.to_string(), "x a b c d");
    assert_eq!(Cmd::new("x").args(&Vec::new()).to_string(), "x");
}

#[test]
fn env_keeps_pairs_in_order() {
    let cmd = Cmd::new("cargo").env("RUST_LOG", "debug").env("A", "1");
    assert_eq!(
        cmd.variables(),
        &vec![
            ("RUST_LOG".to_string(), "debug".to_string()),
            ("A".to_string(), "1".to_string())
        ]
    );
    assert_eq!(cmd.to_string(), "cargo");
}

#[test]
fn cwd_defaults_to_here() {
    let cmd = Cmd::new("ls");
    assert_eq!(cmd.get_cwd(), ".");
    assert_eq!(cmd.directory(), None);
    let moved = cmd.cwd("./app");
    assert_eq!(moved.get_cwd(), "./app");
    assert_eq!(moved.directory(), Some("./app"));
}

#[test]
fn exit_succeeds_only_with_code_zero() {
    assert!(exit(Some(0), "exit status: 0").success());
    assert!(!exit(Some(1), "exit status: 1").success());
    assert!(!exit(Some(-1), "exit status: -1").success());
    assert!(!exit(None, "signal: 9 (SIGKILL)").success());
}

#[test]
fn spawn_failure_names_command_and_reason() {
    let cmd = Cmd::new("nope").arg("-v");
    assert_eq!(
        cmd.spawn_failure("No such file or directory (os error 2)"),
        "failed to execute `nope -v`: No such file or directory (os error 2)"
    );
}

#[test]
fn run_result_of_a_good_exit_is_the_output() {
    let cmd = Cmd::new("echo").arg("hi");
    let output = cmd
        .run_result(exit(Some(0), "exit status: 0"), "hi\n".to_string(), "warn".to_string())
        .unwrap();
    assert_eq!(output.stdout(), "hi\n");
    assert_eq!(output.stderr(), "warn");
    assert!(output.status().success());
    assert_eq!(output.status().shown, "exit status: 0");
}

#[test]
fn run_result_of_a_bad_exit_is_a_failure() {
    let cmd = Cmd::new("false").arg("x");
    let failure = cmd
        .run_result(exit(Some(1), "exit status: 1"), "out".to_string(), "err".to_string())
        .unwrap_err();
    assert_eq!(
        failure,
        "command `false x` failed (exit exit status: 1)\nstdout: out\nstderr: err"
    );
}

#[test]
fn run_result_of_a_signal_is_a_failure() {
    let cmd = Cmd::new("sleep");
    let failure = cmd
        .run_result(exit(None, "signal: 9 (SIGKILL)"), String::new(), String::new())
        .unwrap_err();
    assert_eq!(
        failure,
        "command `sleep` failed (exit signal: 9 (SIGKILL))\nstdout: \nstderr: "
    );
}

#[test]
fn run_live_result_of_a_good_exit_is_the_history() {
    let cmd = Cmd::new("yarn").arg("build");
    let output = cmd
        .run_live_result(exit(Some(0), "exit status: 0"), "a\nb".to_string(), "[]")
        .unwrap();
    assert_eq!(output.stdout(), "a\nb");
    assert_eq!(output.stderr(), "a\nb");
    assert!(output.status().success());
}

#[test]
fn run_live_result_of_a_bad_exit_holds_status_and_history() {
    let cmd = Cmd::new("yarn").arg("build");
    let history = "line 1\nline 2\nline 3";
    let failure = cmd
        .run_live_result(exit(Some(2), "exit status: 2"), history.to_string(), "[(\"A\", Some(\"1\"))]")
        .unwrap_err();
    assert_eq!(
        failure,
        "command `yarn build` failed (exit exit status: 2)\nout: line 1\nline 2\nline 3\nenv: [(\"A\", Some(\"1\"))]"
    );
    assert!(failure.contains("exit status: 2"));
    assert!(failure.contains(history));
}

#[test]
fn captured_and_live_outputs() {
    let plain = CmdOutput::captured(exit(Some(0), "ok"), "o".to_string(), "e".to_string());
    assert_eq!(plain.stdout(), "o");
    assert_eq!(plain.stderr(), "e");
    let live = CmdOutput::live(exit(Some(0), "ok"), "h".to_string());
    assert_eq!(live.stdout(), "h");
    assert_eq!(live.stderr(), "h");
}

#[test]
fn outputs_concatenate_in_order() {
    let outputs = vec![
        CmdOutput::captured(exit(Some(0), "ok"), "a".to_string(), "1".to_string()),
        CmdOutput::live(exit(Some(0), "ok"), "b".to_string()),
        CmdOutput::captured(exit(Some(0), "ok"), "c".to_string(), "3".to_string()),
    ];
    assert_eq!(stdout_of(&outputs), "abc");
    assert_eq!(stderr_of(&outputs), "1b3");
    assert_eq!(stdout_of(&Vec::new()), "");
}

#[test]
fn label_for_falls_back_to_the_last_name() {
    let names = vec!["first".to_string(), "second".to_string()];
    assert_eq!(label_for(&names, 0), "first");
    assert_eq!(label_for(&names, 1), "second");
    assert_eq!(label_for(&names, 2), "second");
    assert_eq!(label_for(&names, usize::MAX), "second");
    let one = vec!["only".to_string()];
    assert_eq!(label_for(&one, 0), "only");
    assert_eq!(label_for(&one, 5), "only");
}

#[test]
fn with_cwd_sets_every_directory() {
    let cmds = vec![Cmd::new("a").arg("1").env("K", "V"), Cmd::new("b").cwd("old")];
    let moved = with_cwd(cmds, "/work");
    assert_eq!(moved.len(), 2);
    assert_eq!(moved[0].get_cwd(), "/work");
    assert_eq!(moved[1].get_cwd(), "/work");
    assert_eq!(moved[0].to_string(), "a 1");
    assert_eq!(moved[0].variables(), &vec![("K".to_string(), "V".to_string())]);
    assert_eq!(moved[1].to_string(), "b");
}

#[test]
fn with_env_adds_to_every_command() {
    let cmds = vec![Cmd::new("a").env("K", "V").cwd("d"), Cmd::new("b").arg("x")];
    let set = with_env(cmds, "RUST_LOG", "debug");
    assert_eq!(
        set[0].variables(),
        &vec![
            ("K".to_string(), "V".to_string()),
            ("RUST_LOG".to_string(), "debug".to_string())
        ]
    );
    assert_eq!(set[0].get_cwd(), "d");
    assert_eq!(set[1].variables(), &vec![("RUST_LOG".to_string(), "debug".to_string())]);
    assert_eq!(set[1].to_string(), "b x");
    assert_eq!(set[1].directory(), None);
}
