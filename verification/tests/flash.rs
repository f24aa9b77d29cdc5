use serial_flasher::flash::ExecutionResult;
use serial_flasher::flash::OsKind;
use serial_flasher::flash::os_kind_of;
use serial_flasher::flash::render_execution_result;
use serial_flasher::flash::shell_invocation;
use serial_flasher::text::exit_code_text;
use serial_flasher::text::str_eq;
use serial_flasher::text::u32_to_dec;

#[test]
fn os_kind_classification() {
    assert_eq!(os_kind_of("linux"), Some(OsKind::Unix));
    assert_eq!(os_kind_of("macos"), Some(OsKind::Unix));
    assert_eq!(os_kind_of("freebsd"), Some(OsKind::Unix));
    assert_eq!(os_kind_of("windows"), Some(OsKind::Windows));
    assert_eq!(os_kind_of("beos"), None);
    assert_eq!(os_kind_of(""), None);
}

#[test]
fn shell_invocation_unix() {
    let (program, flag, command) = shell_invocation(OsKind::Unix, "echo hi");
    assert_eq!(program.as_str(), "sh");
    assert_eq!(flag.as_str(), "-c");
    assert_eq!(command.as_str(), "echo hi");
}

#[test]
fn shell_invocation_windows() {
    let (program, flag, command) = shell_invocation(OsKind::Windows, "dir");
    assert_eq!(program.as_str(), "cmd");
    assert_eq!(flag.as_str(), "/C");
    assert_eq!(command.as_str(), "dir");
}

#[test]
fn decimal_rendering() {
    assert_eq!(u32_to_dec(0).as_str(), "0");
    assert_eq!(u32_to_dec(7).as_str(), "7");
    assert_eq!(u32_to_dec(42).as_str(), "42");
    assert_eq!(u32_to_dec(9876543).as_str(), "9876543");
    assert_eq!(u32_to_dec(u32::MAX).as_str(), "4294967295");
}

#[test]
fn exit_code_rendering() {
    assert_eq!(exit_code_text(&Some(0)).as_str(), "0");
    assert_eq!(exit_code_text(&Some(101)).as_str(), "101");
    assert_eq!(exit_code_text(&Some(-3)).as_str(), "-3");
    assert_eq!(exit_code_text(&Some(i32::MIN)).as_str(), "-2147483648");
    assert_eq!(exit_code_text(&None).as_str(), "signal");
}

#[test]
fn render_captures_streams_and_exit() {
    let result = ExecutionResult {
        exit_code: Some(0),
        stdout: String::from("hi\n"),
        stderr: String::from(""),
    };
    let text = render_execution_result(&result);
    assert_eq!(text.as_str(), "exit: 0, stdout: hi\n, stderr: ");
    assert!(text.contains("hi"));
}

#[test]
fn render_signal_termination() {
    let result = ExecutionResult {
        exit_code: None,
        stdout: String::from(""),
        stderr: String::from("killed"),
    };
    let text = render_execution_result(&result);
    assert_eq!(text.as_str(), "exit: signal, stdout: , stderr: killed");
}

#[test]
fn str_eq_compares_characters() {
    assert!(str_eq("", ""));
    assert!(str_eq("linux", "linux"));
    assert!(!str_eq("linux", "linu"));
    assert!(!str_eq("linux", "windows"));
    assert!(str_eq("naïve ✓", "naïve ✓"));
    assert!(!str_eq("naïve ✓", "naive ✓"));
}
