use desktop_icons::error::{check, Error};

#[test]
fn check_accepts_success_codes() {
    assert!(check(0, "reading desktop folder flags").is_ok());
    assert!(check(1, "reading desktop folder flags").is_ok());
    assert!(check(i32::MAX, "x").is_ok());
}

#[test]
fn check_reports_failure_codes_in_hex() {
    let e = check(-2147467263, "setting desktop folder flags").unwrap_err();
    assert_eq!(e.message(), "setting desktop folder flags failed (HRESULT 0x80004001)");
    let e = check(-1, "op").unwrap_err();
    assert_eq!(e.message(), "op failed (HRESULT 0xFFFFFFFF)");
    let e = check(i32::MIN, "creating ShellWindows").unwrap_err();
    assert_eq!(e.message(), "creating ShellWindows failed (HRESULT 0x80000000)");
    let e = check(-2147024891, "a").unwrap_err();
    assert_eq!(e.message(), "a failed (HRESULT 0x80070005)");
}

#[test]
fn error_keeps_its_message() {
    let e = Error::new("no desktop icons were found");
    assert_eq!(e.message(), "no desktop icons were found");
    assert_eq!(e.message, "no desktop icons were found");
}
