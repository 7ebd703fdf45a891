use rig_code::error::ToolError;
use rig_code::runner::{
    compose_output, truncate_output, CommandRunner, Execution, Invocation, Supervision,
    MAX_OUTPUT_BYTES, WARNING_TIMEOUT_SECS,
};

#[test]
fn standard_settings() {
    assert_eq!(MAX_OUTPUT_BYTES, 50 * 1024);
    assert_eq!(WARNING_TIMEOUT_SECS, 60);
    let runner = CommandRunner::standard();
    assert_eq!(runner.max_output_bytes, 51200);
    assert_eq!(runner.warning_timeout_secs, 60);
    assert_eq!(CommandRunner::new(8, 2), CommandRunner { max_output_bytes: 8, warning_timeout_secs: 2 });
}

#[test]
fn invocation_hands_the_command_to_the_shell_verbatim() {
    let runner = CommandRunner::standard();
    assert_eq!(
        runner.invocation("echo hi && echo err 1>&2"),
        Invocation {
            program: String::from("bash"),
            arguments: vec![String::from("-c"), String::from("echo hi && echo err 1>&2")],
        }
    );
    assert_eq!(runner.invocation("").arguments, vec![String::from("-c"), String::new()]);
}

#[test]
fn the_wait_is_raced_against_the_timeout_until_the_warning() {
    let runner = CommandRunner::standard();
    let state = runner.start();
    assert_eq!(state, Supervision::Racing);
    assert_eq!(runner.wait_limit(state), Some(60));
    let (state, warning) = runner.timed_out(state);
    assert_eq!(state, Supervision::Unbounded);
    assert_eq!(
        warning,
        Some(String::from("\n[Command running for >60s. Press Ctrl+C to interrupt]\n"))
    );
    assert_eq!(runner.wait_limit(state), None);
}

#[test]
fn the_warning_is_given_once() {
    let runner = CommandRunner::standard();
    let (state, _) = runner.timed_out(runner.start());
    let (state, warning) = runner.timed_out(state);
    assert_eq!(state, Supervision::Unbounded);
    assert_eq!(warning, None);
    assert_eq!(runner.wait_limit(state), None);
}

#[test]
fn the_warning_names_the_runner_s_own_threshold() {
    let runner = CommandRunner::new(100, 5);
    assert_eq!(runner.wait_limit(runner.start()), Some(5));
    let (_, warning) = runner.timed_out(runner.start());
    assert_eq!(
        warning,
        Some(String::from("\n[Command running for >5s. Press Ctrl+C to interrupt]\n"))
    );
}

#[test]
fn success_with_both_streams() {
    // `echo hi && echo err 1>&2` writes a line to each stream.
    assert_eq!(compose_output(Some(0), "hi\n", "err\n"), "hi\n\nstderr:\nerr\n");
    assert_eq!(compose_output(Some(0), "hi", "err\n"), "hi\nstderr:\nerr\n");
}

#[test]
fn success_with_standard_output_only() {
    assert_eq!(compose_output(Some(0), "hi\n", ""), "hi\n");
    assert_eq!(compose_output(Some(0), "", ""), "");
}

#[test]
fn success_with_standard_error_only_has_no_leading_newline() {
    let report = compose_output(Some(0), "", "warning: unused\n");
    assert_eq!(report, "stderr:\nwarning: unused\n");
    assert!(report.contains("stderr:"));
    assert!(!report.starts_with('\n'));
}

#[test]
fn failure_begins_with_the_exit_code() {
    assert_eq!(compose_output(Some(1), "", ""), "Exit code: 1\n");
    assert!(compose_output(Some(1), "out", "err").starts_with("Exit code: 1"));
    assert_eq!(compose_output(Some(127), "", "sh: nope: not found\n"),
        "Exit code: 127\nstderr:\nsh: nope: not found\n");
    assert_eq!(compose_output(Some(-5), "", ""), "Exit code: -5\n");
    assert_eq!(compose_output(Some(i32::MIN), "", ""), "Exit code: -2147483648\n");
    assert_eq!(compose_output(Some(i32::MAX), "", ""), "Exit code: 2147483647\n");
}

#[test]
fn failure_without_a_code_shows_minus_one() {
    assert_eq!(compose_output(None, "", ""), "Exit code: -1\n");
    assert_eq!(compose_output(None, "", "killed"), "Exit code: -1\nstderr:\nkilled");
}

#[test]
fn failure_has_a_stdout_block_only_where_there_was_output() {
    assert_eq!(compose_output(Some(1), "out\n", ""), "Exit code: 1\nstdout:\nout\n\n");
    assert_eq!(compose_output(Some(2), "o", "e"), "Exit code: 2\nstdout:\no\nstderr:\ne");
    assert!(!compose_output(Some(1), "", "e").contains("stdout:"));
    assert!(compose_output(Some(1), "x", "").contains("stdout:"));
}

#[test]
fn truncate_leaves_what_fits() {
    assert_eq!(truncate_output(String::from("abcdefghij"), 10), "abcdefghij");
    assert_eq!(truncate_output(String::new(), 0), "");
    assert_eq!(truncate_output(String::from("\u{e9}"), 2), "\u{e9}");
}

#[test]
fn truncate_cuts_and_reports_the_total() {
    assert_eq!(
        truncate_output(String::from("abcdefghijk"), 10),
        "abcdefghij\n... [output truncated, 11 bytes total]"
    );
    assert_eq!(
        truncate_output(String::from("abc"), 0),
        "\n... [output truncated, 3 bytes total]"
    );
}

#[test]
fn truncate_cuts_between_characters() {
    assert_eq!(
        truncate_output(String::from("\u{e9}\u{e9}\u{e9}"), 3),
        "\u{e9}\n... [output truncated, 6 bytes total]"
    );
    assert_eq!(
        truncate_output(String::from("ab\u{1F600}cd"), 5),
        "ab\n... [output truncated, 8 bytes total]"
    );
    assert_eq!(
        truncate_output(String::from("ab\u{1F600}cd"), 6),
        "ab\u{1F600}\n... [output truncated, 8 bytes total]"
    );
}

#[test]
fn report_at_the_standard_limit() {
    let runner = CommandRunner::standard();
    let fits = "a".repeat(51200);
    assert_eq!(runner.report(Some(0), &fits, ""), fits);
    let over = "a".repeat(51201);
    let report = runner.report(Some(0), &over, "");
    assert_eq!(report, format!("{}\n... [output truncated, 51201 bytes total]", fits));
    assert_eq!(report.len(), 51200 + 37 + 5);
}

#[test]
fn report_never_passes_the_limit_by_more_than_the_marker() {
    let runner = CommandRunner::standard();
    for filler in ["a", "\u{e9}", "\u{20AC}", "\u{1F600}"] {
        for lead in 0..4 {
            let text = format!("{}{}", "x".repeat(lead), filler.repeat(30000));
            let report = runner.report(Some(0), &text, "");
            assert!(report.len() <= 51200 + 57);
            let marker = format!("\n... [output truncated, {} bytes total]", text.len());
            if text.len() > 51200 {
                assert!(report.ends_with(&marker));
                let kept = &report[..report.len() - marker.len()];
                assert!(kept.len() <= 51200);
                assert!(kept.len() > 51200 - 4);
                assert!(text.starts_with(kept));
                assert!(text.is_char_boundary(kept.len()));
            } else {
                assert_eq!(report, text);
            }
        }
    }
}

#[test]
fn report_of_a_long_failure_still_begins_with_the_exit_code() {
    let runner = CommandRunner::standard();
    let report = runner.report(Some(1), &"\u{e9}".repeat(40000), "boom");
    assert!(report.starts_with("Exit code: 1\nstdout:\n\u{e9}"));
    assert!(report.ends_with(" bytes total]"));
    assert!(report.len() <= 51200 + 57);
}

#[test]
fn run_reports_a_failure_to_start_the_shell() {
    let runner = CommandRunner::standard();
    assert_eq!(
        runner.run(Execution::SpawnFailed(String::from("No such file or directory (os error 2)"))),
        Err(ToolError::new(String::from(
            "Failed to spawn command: No such file or directory (os error 2)"
        )))
    );
}

#[test]
fn run_reports_a_failure_to_wait() {
    let runner = CommandRunner::standard();
    let result = runner.run(Execution::WaitFailed(String::from("interrupted")));
    assert_eq!(result.unwrap_err().to_string(), "Command failed: interrupted");
}

#[test]
fn run_reports_an_exit_status_as_a_result() {
    let runner = CommandRunner::standard();
    assert_eq!(
        runner.run(Execution::Exited {
            code: Some(0),
            stdout: b"hi\n".to_vec(),
            stderr: b"err\n".to_vec(),
        }),
        Ok(String::from("hi\n\nstderr:\nerr\n"))
    );
    assert_eq!(
        runner.run(Execution::Exited { code: Some(1), stdout: Vec::new(), stderr: Vec::new() }),
        Ok(String::from("Exit code: 1\n"))
    );
    assert_eq!(
        runner.run(Execution::Exited { code: None, stdout: b"partial".to_vec(), stderr: Vec::new() }),
        Ok(String::from("Exit code: -1\nstdout:\npartial\n"))
    );
}

#[test]
fn run_replaces_bytes_that_are_not_utf8() {
    let runner = CommandRunner::standard();
    assert_eq!(
        runner.run(Execution::Exited {
            code: Some(0),
            stdout: vec![0x66, 0xff, 0x6f],
            stderr: vec![0xc3],
        }),
        Ok(String::from("f\u{FFFD}o\nstderr:\n\u{FFFD}"))
    );
    assert_eq!(
        runner.run(Execution::Exited {
            code: Some(0),
            stdout: vec![0xf0, 0x9f, 0x92, 0x96],
            stderr: Vec::new(),
        }),
        Ok(String::from("\u{1F496}"))
    );
}

#[test]
fn run_holds_the_result_to_the_runner_s_limit() {
    let runner = CommandRunner::new(4, 60);
    assert_eq!(
        runner.run(Execution::Exited {
            code: Some(0),
            stdout: "a\u{20AC}bc".as_bytes().to_vec(),
            stderr: Vec::new(),
        }),
        Ok(String::from("a\u{20AC}\n... [output truncated, 6 bytes total]"))
    );
}
