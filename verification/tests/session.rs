use serial_flasher::device::SerialInfo;
use serial_flasher::device::SerialItem;
use serial_flasher::device::UsbId;
use serial_flasher::flash::ExecutionResult;
use serial_flasher::flash::FlashError;
use serial_flasher::session::SessionState;

fn acme_device(name: &str) -> SerialItem {
    SerialItem::from_serial_info(SerialInfo {
        name: String::from(name),
        vendor: Some(String::from("Acme")),
        product: Some(String::from("Widget")),
        usb_info: Some(UsbId { vid: String::from("1234"), pid: String::from("5678") }),
    })
}

#[test]
fn new_session_is_idle() {
    let session = SessionState::new(None);
    assert!(!session.port_open());
    assert!(session.current_port().is_none());
    assert_eq!(session.default_flash_command().as_str(), "");
    assert_eq!(session.resolved_flash_command().as_str(), "");
    assert_eq!(session.status().as_str(), "");
}

#[test]
fn absent_config_keeps_empty_default() {
    // The configuration key could not be read: the template stays
    // empty and nothing aborts startup.
    let mut session = SessionState::new(None);
    session.refresh_templates(None);
    assert_eq!(session.default_flash_command().as_str(), "");
    assert!(!session.port_open());
}

#[test]
fn refresh_templates_reloads_only_the_template() {
    let mut session = SessionState::new(Some(String::from("old")));
    session.refresh_templates(Some(String::from("new")));
    assert_eq!(session.default_flash_command().as_str(), "new");
    assert_eq!(session.resolved_flash_command().as_str(), "old");
    session.refresh_templates(None);
    assert_eq!(session.default_flash_command().as_str(), "new");
}

#[test]
fn bind_and_send_binds_even_when_the_device_is_absent() {
    // The named device does not exist here, so the transport open
    // fails; the session still becomes Bound, the status reports the
    // open failure, and no write was attempted.
    let mut session = SessionState::new(Some(String::from("flash --port {port_name}")));
    session.bind_and_send(acme_device("/dev/ttyUSB0"), "secret", "enter_dfu");
    assert!(session.port_open());
    let bound = session.current_port().as_ref().expect("session must be bound");
    assert_eq!(bound.get_name().as_str(), "/dev/ttyUSB0");
    assert_eq!(bound.get_vendor().as_str(), "Acme");
    assert_eq!(session.status().as_str(), "failed to open port");
}

#[test]
fn bind_and_send_resolves_the_template() {
    let mut session = SessionState::new(Some(String::from("flash --port {port_name}")));
    session.bind_and_send(acme_device("COM3"), "secret", "enter_dfu");
    assert_eq!(session.resolved_flash_command().as_str(), "flash --port COM3");
}

#[test]
fn bind_and_send_reports_unbound_placeholder() {
    let mut session = SessionState::new(Some(String::from("flash {firmware}")));
    session.bind_and_send(acme_device("COM3"), "secret", "enter_dfu");
    assert!(session.port_open());
    assert_eq!(session.status().as_str(), "unbound placeholder: firmware");
    assert_eq!(session.resolved_flash_command().as_str(), "flash {firmware}");
}

#[test]
fn reset_returns_to_idle_and_reloads() {
    let mut session = SessionState::new(Some(String::from("flash --port {port_name}")));
    session.bind_and_send(acme_device("COM3"), "secret", "enter_dfu");
    let status_before = session.status().clone();
    session.reset(Some(String::from("other {port_name}")));
    assert!(!session.port_open());
    assert!(session.current_port().is_none());
    assert_eq!(session.default_flash_command().as_str(), "other {port_name}");
    assert_eq!(session.resolved_flash_command().as_str(), "other {port_name}");
    assert_eq!(session.status().as_str(), status_before.as_str());
}

#[test]
fn reset_twice_equals_reset_once() {
    let mut once = SessionState::new(Some(String::from("flash --port {port_name}")));
    once.bind_and_send(acme_device("COM3"), "secret", "enter_dfu");
    let mut twice = SessionState::new(Some(String::from("flash --port {port_name}")));
    twice.bind_and_send(acme_device("COM3"), "secret", "enter_dfu");

    once.reset(Some(String::from("tmpl")));
    twice.reset(Some(String::from("tmpl")));
    twice.reset(Some(String::from("tmpl")));

    assert_eq!(once.port_open(), twice.port_open());
    assert_eq!(once.current_port().is_none(), twice.current_port().is_none());
    assert_eq!(once.default_flash_command(), twice.default_flash_command());
    assert_eq!(once.resolved_flash_command(), twice.resolved_flash_command());
    assert_eq!(once.status(), twice.status());
}

#[test]
fn begin_flash_on_unsupported_host() {
    let mut session = SessionState::new(Some(String::from("echo hi")));
    session.bind_and_send(acme_device("COM3"), "secret", "enter_dfu");
    let job = session.begin_flash("beos");
    assert!(job.is_none());
    assert_eq!(session.status().as_str(), "unsupported platform");
    // The abort leaves the session Bound; the caller resets it.
    assert!(session.port_open());
    session.reset(None);
    assert!(!session.port_open());
}

#[test]
fn begin_flash_reports_open_failure() {
    let mut session = SessionState::new(Some(String::from("echo hi")));
    session.bind_and_send(acme_device("/dev/ttyUSB0"), "secret", "enter_dfu");
    let job = session.begin_flash("linux");
    assert!(job.is_none());
    assert_eq!(session.status().as_str(), "failed to open port");
    assert!(session.port_open());
}

#[test]
fn finish_flash_records_output_and_resets() {
    let mut session = SessionState::new(Some(String::from("echo hi")));
    session.bind_and_send(acme_device("/dev/ttyUSB0"), "secret", "enter_dfu");
    assert!(session.port_open());
    let result = ExecutionResult {
        exit_code: Some(0),
        stdout: String::from("hi\n"),
        stderr: String::from(""),
    };
    session.finish_flash(Ok(result), None);
    assert!(session.status().contains("hi"));
    assert!(!session.port_open());
    assert!(session.current_port().is_none());
}

#[test]
fn finish_flash_reports_launch_failure() {
    let mut session = SessionState::new(Some(String::from("echo hi")));
    session.bind_and_send(acme_device("/dev/ttyUSB0"), "secret", "enter_dfu");
    session.finish_flash(Err(FlashError::LaunchFailed), Some(String::from("tmpl")));
    assert_eq!(session.status().as_str(), "failed to launch the shell");
    assert!(!session.port_open());
    assert_eq!(session.default_flash_command().as_str(), "tmpl");
    assert_eq!(session.resolved_flash_command().as_str(), "tmpl");
}

#[test]
fn set_resolved_flash_command_edits_the_command() {
    let mut session = SessionState::new(Some(String::from("flash --port {port_name}")));
    session.set_resolved_flash_command(String::from("custom command"));
    assert_eq!(session.resolved_flash_command().as_str(), "custom command");
    assert_eq!(session.default_flash_command().as_str(), "flash --port {port_name}");
}
