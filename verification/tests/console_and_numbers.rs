use wasi_tests::console::{error_notice, format_err, format_succ, format_warning, success_notice, warning_notice};
use wasi_tests::decimal::decimal_string;

#[test]
fn colors_wrap_the_message() {
    assert_eq!(format_err("bad".to_string()), "\x1b[91mbad\x1b[0m");
    assert_eq!(format_succ("good".to_string()), "\x1b[92mgood\x1b[0m");
    assert_eq!(format_warning("note".to_string()), "\x1b[93mnote\x1b[0m");
}

#[test]
fn notices_choose_stream_and_spacing() {
    let e = error_notice(true, "x".to_string());
    assert!(e.to_stderr);
    assert_eq!(e.text, "\n\x1b[91mx\x1b[0m");
    let e = error_notice(false, "x".to_string());
    assert_eq!(e.text, "\x1b[91mx\x1b[0m");
    let s = success_notice("y".to_string());
    assert!(!s.to_stderr);
    assert_eq!(s.text, "\x1b[92my\x1b[0m");
    let w = warning_notice(true, "z".to_string());
    assert!(!w.to_stderr);
    assert_eq!(w.text, "\n\x1b[93mz\x1b[0m");
    assert_eq!(warning_notice(false, "z".to_string()).text, "\x1b[93mz\x1b[0m");
}

#[test]
fn decimal_rendering_matches_display() {
    for n in [0u64, 1, 9, 10, 99, 100, 130, 4096, 1234567890, u64::MAX] {
        assert_eq!(decimal_string(n), n.to_string());
    }
}
