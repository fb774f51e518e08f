use procctl::command::Invocation;
use procctl::operation::{complete_detection, complete_execution, detect, kill, launch, run, Step};
use procctl::outcome::{ExecutionResult, ProcessQueryResult, SpawnOutcome, NO_EXIT_CODE};
use procctl::platform::PlatformKind;

fn wanted(list: &[&str]) -> Vec<String> {
    list.iter().map(|s| s.to_string()).collect()
}

fn shell(interpreter: &str, flag: &str, line: &str) -> Invocation {
    Invocation { interpreter: interpreter.to_string(), args: vec![flag.to_string(), line.to_string()] }
}

fn ran(exit_code: Option<i32>, stdout: &[u8], stderr: &[u8]) -> SpawnOutcome {
    SpawnOutcome::Completed { exit_code, stdout: stdout.to_vec(), stderr: stderr.to_vec() }
}

fn not_started(reason: &str) -> SpawnOutcome {
    SpawnOutcome::Failed { reason: reason.to_string() }
}

fn unsupported_execution() -> ExecutionResult {
    ExecutionResult {
        success: false,
        stdout: String::new(),
        stderr: String::new(),
        exit_code: -1,
        error: Some("Unsupported operating system".to_string()),
    }
}

fn unsupported_query() -> ProcessQueryResult {
    ProcessQueryResult {
        success: false,
        matched_names: vec![],
        error: Some("Unsupported operating system".to_string()),
    }
}

const SUPPORTED: [PlatformKind; 3] = [PlatformKind::Windows, PlatformKind::MacOS, PlatformKind::Linux];

#[test]
fn no_exit_code_is_minus_one() {
    assert_eq!(NO_EXIT_CODE, -1);
}

#[test]
fn zero_exit_is_success() {
    let result = complete_execution(ran(Some(0), b"", b""));
    assert_eq!(
        result,
        ExecutionResult {
            success: true,
            stdout: String::new(),
            stderr: String::new(),
            exit_code: 0,
            error: None,
        }
    );
}

#[test]
fn exit_seven_is_failure_with_that_code_and_no_error() {
    let result = complete_execution(ran(Some(7), b"partial output\n", b"it broke\n"));
    assert_eq!(
        result,
        ExecutionResult {
            success: false,
            stdout: "partial output\n".to_string(),
            stderr: "it broke\n".to_string(),
            exit_code: 7,
            error: None,
        }
    );
}

#[test]
fn negative_and_large_exit_codes_are_kept() {
    assert_eq!(complete_execution(ran(Some(-1073741819), b"", b"")).exit_code, -1073741819);
    assert_eq!(complete_execution(ran(Some(255), b"", b"")).exit_code, 255);
    assert_eq!(complete_execution(ran(Some(i32::MAX), b"", b"")).exit_code, i32::MAX);
    assert_eq!(complete_execution(ran(Some(i32::MIN), b"", b"")).exit_code, i32::MIN);
    let minus_one = complete_execution(ran(Some(-1), b"", b""));
    assert!(!minus_one.success);
    assert_eq!(minus_one.exit_code, -1);
    assert_eq!(minus_one.error, None);
}

#[test]
fn a_process_without_exit_code_reports_minus_one() {
    let result = complete_execution(ran(None, b"out", b"killed"));
    assert_eq!(
        result,
        ExecutionResult {
            success: false,
            stdout: "out".to_string(),
            stderr: "killed".to_string(),
            exit_code: -1,
            error: None,
        }
    );
}

#[test]
fn spawn_failure_has_an_error_and_nothing_else() {
    let result = complete_execution(not_started("No such file or directory (os error 2)"));
    assert_eq!(
        result,
        ExecutionResult {
            success: false,
            stdout: String::new(),
            stderr: String::new(),
            exit_code: -1,
            error: Some("No such file or directory (os error 2)".to_string()),
        }
    );
}

#[test]
fn captured_text_is_decoded_as_utf8() {
    let result = complete_execution(ran(Some(0), "grüße 日本\n".as_bytes(), "é".as_bytes()));
    assert_eq!(result.stdout, "grüße 日本\n");
    assert_eq!(result.stderr, "é");
}

#[test]
fn invalid_bytes_are_replaced_not_refused() {
    let result = complete_execution(ran(Some(0), b"Hello \xF0\x90\x80World", b"\xFF\xFEok"));
    assert!(result.success);
    assert_eq!(result.stdout, "Hello \u{FFFD}World");
    assert_eq!(result.stderr, "\u{FFFD}\u{FFFD}ok");
    assert_eq!(result.error, None);
}

#[test]
fn constructors_build_the_three_shapes() {
    assert_eq!(
        ExecutionResult::completed(Some(0), "o".to_string(), "e".to_string()),
        ExecutionResult {
            success: true,
            stdout: "o".to_string(),
            stderr: "e".to_string(),
            exit_code: 0,
            error: None,
        }
    );
    assert_eq!(
        ExecutionResult::completed(Some(3), "o".to_string(), "e".to_string()),
        ExecutionResult {
            success: false,
            stdout: "o".to_string(),
            stderr: "e".to_string(),
            exit_code: 3,
            error: None,
        }
    );
    assert_eq!(
        ExecutionResult::completed(None, String::new(), String::new()),
        ExecutionResult {
            success: false,
            stdout: String::new(),
            stderr: String::new(),
            exit_code: -1,
            error: None,
        }
    );
    assert_eq!(
        ExecutionResult::failed("permission denied".to_string()),
        ExecutionResult {
            success: false,
            stdout: String::new(),
            stderr: String::new(),
            exit_code: -1,
            error: Some("permission denied".to_string()),
        }
    );
    assert_eq!(ExecutionResult::unsupported(), unsupported_execution());
    assert_eq!(
        ProcessQueryResult::found(wanted(&["a", "b"])),
        ProcessQueryResult { success: true, matched_names: wanted(&["a", "b"]), error: None }
    );
    assert_eq!(
        ProcessQueryResult::failed("nope".to_string()),
        ProcessQueryResult { success: false, matched_names: vec![], error: Some("nope".to_string()) }
    );
    assert_eq!(ProcessQueryResult::unsupported(), unsupported_query());
}

#[test]
fn run_first_move_on_each_supported_platform() {
    assert_eq!(run(PlatformKind::Windows, "exit 0"), Step::Spawn(shell("cmd", "/C", "exit 0")));
    assert_eq!(run(PlatformKind::MacOS, "true"), Step::Spawn(shell("sh", "-c", "true")));
    assert_eq!(run(PlatformKind::Linux, "true"), Step::Spawn(shell("sh", "-c", "true")));
}

#[test]
fn run_of_a_command_that_succeeds() {
    for platform in SUPPORTED {
        let step = run(platform, "exit 0");
        assert!(matches!(step, Step::Spawn(_)));
        let result = complete_execution(ran(Some(0), b"", b""));
        assert!(result.success);
        assert_eq!(result.exit_code, 0);
        assert_eq!(result.error, None);
    }
}

#[test]
fn run_of_a_command_that_exits_with_seven() {
    for platform in SUPPORTED {
        let step = run(platform, "exit 7");
        assert!(matches!(step, Step::Spawn(_)));
        let result = complete_execution(ran(Some(7), b"", b""));
        assert!(!result.success);
        assert_eq!(result.exit_code, 7);
        assert_eq!(result.error, None);
    }
}

#[test]
fn kill_first_move() {
    assert_eq!(
        kill(PlatformKind::Windows, &wanted(&["a.exe", "b.exe"])),
        Step::Spawn(shell("cmd", "/C", "taskkill /F /IM a.exe /IM b.exe"))
    );
    assert_eq!(
        kill(PlatformKind::Linux, &wanted(&["a", "b"])),
        Step::Spawn(shell("sh", "-c", "killall a b"))
    );
    assert_eq!(
        kill(PlatformKind::MacOS, &wanted(&["a"])),
        Step::Spawn(shell("sh", "-c", "killall a"))
    );
}

#[test]
fn launch_first_move() {
    assert_eq!(
        launch(PlatformKind::Windows, "Visual Studio Code"),
        Step::Spawn(shell("cmd", "/C", "start \"\" \"Visual Studio Code\""))
    );
    assert_eq!(
        launch(PlatformKind::MacOS, "Safari"),
        Step::Spawn(shell("sh", "-c", "open -a \"Safari\""))
    );
    assert_eq!(launch(PlatformKind::Linux, "gedit"), Step::Spawn(shell("sh", "-c", "gedit &")));
}

#[test]
fn detect_first_move() {
    assert_eq!(
        detect(PlatformKind::Windows, &wanted(&["a.exe", "b.exe"])),
        Step::Spawn(shell("cmd", "/C", "tasklist /FI \"IMAGENAME eq a.exe || IMAGENAME eq b.exe\" /NH"))
    );
    assert_eq!(
        detect(PlatformKind::Linux, &wanted(&["a", "b"])),
        Step::Spawn(shell("sh", "-c", "ps aux | grep -E \"a|b\" | grep -v grep"))
    );
    assert_eq!(
        detect(PlatformKind::MacOS, &wanted(&["a", "b"])),
        Step::Spawn(shell("sh", "-c", "ps aux | grep -E \"a|b\" | grep -v grep"))
    );
}

#[test]
fn unsupported_platform_finishes_every_operation_without_a_process() {
    assert_eq!(run(PlatformKind::Unsupported, "true"), Step::Finished(unsupported_execution()));
    assert_eq!(
        kill(PlatformKind::Unsupported, &wanted(&["a"])),
        Step::Finished(unsupported_execution())
    );
    assert_eq!(launch(PlatformKind::Unsupported, "a"), Step::Finished(unsupported_execution()));
    assert_eq!(
        detect(PlatformKind::Unsupported, &wanted(&["a"])),
        Step::Finished(unsupported_query())
    );
    assert_eq!(detect(PlatformKind::Unsupported, &wanted(&[])), Step::Finished(unsupported_query()));
    assert_eq!(kill(PlatformKind::Unsupported, &wanted(&[])), Step::Finished(unsupported_execution()));
}

#[test]
fn unsupported_detection_ignores_any_outcome() {
    let listing = b"alice 1 /usr/bin/a --flag\n";
    assert_eq!(
        complete_detection(PlatformKind::Unsupported, &wanted(&["a"]), ran(Some(0), listing, b"")),
        unsupported_query()
    );
    assert_eq!(
        complete_detection(PlatformKind::Unsupported, &wanted(&["a"]), not_started("x")),
        unsupported_query()
    );
}

#[test]
fn detection_reports_a_running_name() {
    let listing = b"alice 4242 0.0 0.1 1 1 ? S 09:00 0:00 /target/debug/deps/results-0123abcd --test\n";
    let result = complete_detection(
        PlatformKind::Linux,
        &wanted(&["results-0123abcd"]),
        ran(Some(0), listing, b""),
    );
    assert_eq!(
        result,
        ProcessQueryResult {
            success: true,
            matched_names: wanted(&["results-0123abcd"]),
            error: None,
        }
    );
}

#[test]
fn detection_without_matches_is_a_success_with_no_names() {
    // The pattern filter exits with 1 when nothing matches: still a success.
    let result = complete_detection(
        PlatformKind::Linux,
        &wanted(&["no-such-process-xyz"]),
        ran(Some(1), b"", b""),
    );
    assert_eq!(result, ProcessQueryResult { success: true, matched_names: vec![], error: None });
    let result = complete_detection(
        PlatformKind::Windows,
        &wanted(&["nosuch.exe"]),
        ran(Some(0), b"INFO: No tasks are running which match the specified criteria.\r\n", b""),
    );
    assert_eq!(result, ProcessQueryResult { success: true, matched_names: vec![], error: None });
}

#[test]
fn detection_keeps_the_order_of_the_request() {
    let listing = b"u 1 /bin/gamma\nu 2 /bin/alpha\n";
    let result = complete_detection(
        PlatformKind::MacOS,
        &wanted(&["beta", "alpha", "gamma"]),
        ran(Some(0), listing, b""),
    );
    assert_eq!(result.matched_names, wanted(&["alpha", "gamma"]));
    assert!(result.success);
    assert_eq!(result.error, None);
}

#[test]
fn detection_reads_stdout_only() {
    let result = complete_detection(
        PlatformKind::Linux,
        &wanted(&["alpha"]),
        ran(Some(0), b"", b"u 2 /bin/alpha\n"),
    );
    assert_eq!(result.matched_names, wanted(&[]));
}

#[test]
fn detection_on_windows_ignores_case_in_the_listing() {
    let listing = b"Chrome.EXE    1234 Console    1    10,000 K\r\n";
    let result = complete_detection(
        PlatformKind::Windows,
        &wanted(&["notepad.exe", "chrome.exe"]),
        ran(Some(0), listing, b""),
    );
    assert_eq!(result.matched_names, wanted(&["chrome.exe"]));
}

#[test]
fn detection_decodes_the_listing_lossily() {
    let listing = b"u 1 \xFF /bin/alpha \xC3\n";
    let result = complete_detection(PlatformKind::Linux, &wanted(&["alpha"]), ran(Some(0), listing, b""));
    assert_eq!(result.matched_names, wanted(&["alpha"]));
    let replaced = complete_detection(
        PlatformKind::Linux,
        &wanted(&["\u{FFFD}"]),
        ran(Some(0), b"u 1 \xFF x\n", b""),
    );
    assert_eq!(replaced.matched_names, wanted(&["\u{FFFD}"]));
}

#[test]
fn detection_whose_listing_could_not_start_fails_with_the_reason() {
    let result = complete_detection(
        PlatformKind::Linux,
        &wanted(&["alpha"]),
        not_started("No such file or directory (os error 2)"),
    );
    assert_eq!(
        result,
        ProcessQueryResult {
            success: false,
            matched_names: vec![],
            error: Some("No such file or directory (os error 2)".to_string()),
        }
    );
}

#[test]
fn killing_twice_gives_a_nonzero_exit_not_an_error() {
    let gone = wanted(&["already-gone"]);
    let first = kill(PlatformKind::Linux, &gone);
    let second = kill(PlatformKind::Linux, &gone);
    assert_eq!(first, second);
    assert_eq!(first, Step::Spawn(shell("sh", "-c", "killall already-gone")));
    let report = ran(Some(1), b"", b"already-gone: no process found\n");
    let once = complete_execution(report.clone());
    let again = complete_execution(report);
    assert_eq!(once, again);
    assert!(!again.success);
    assert_eq!(again.exit_code, 1);
    assert_eq!(again.error, None);
    assert_eq!(again.stderr, "already-gone: no process found\n");
}
