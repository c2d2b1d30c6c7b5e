use backend_supervisor::error::ShellError;
use backend_supervisor::text::{decimal_text, same_text};

#[test]
fn decimal_text_of_single_digits() {
    let expected = ["0", "1", "2", "3", "4", "5", "6", "7", "8", "9"];
    for (number, text) in expected.iter().enumerate() {
        assert_eq!(decimal_text(number as u16), *text);
    }
}

#[test]
fn decimal_text_of_longer_numbers() {
    assert_eq!(decimal_text(10), "10");
    assert_eq!(decimal_text(42), "42");
    assert_eq!(decimal_text(100), "100");
    assert_eq!(decimal_text(404), "404");
    assert_eq!(decimal_text(1000), "1000");
    assert_eq!(decimal_text(9090), "9090");
    assert_eq!(decimal_text(65535), "65535");
}

#[test]
fn decimal_text_agrees_with_the_standard_notation() {
    for number in 0..=u16::MAX {
        assert_eq!(decimal_text(number), format!("{}", number));
    }
}

#[test]
fn same_text_compares_characters() {
    assert!(same_text("GET", "GET"));
    assert!(same_text("", ""));
    assert!(!same_text("GET", "get"));
    assert!(!same_text("GET", "GET "));
    assert!(!same_text("", "x"));
}

#[test]
fn path_resolution_message_is_the_reason() {
    let failure = ShellError::PathResolution("Failed to get parent directory".to_string());
    assert_eq!(failure.message(), "Failed to get parent directory");
}

#[test]
fn spawn_message_leads_with_what_failed() {
    let failure = ShellError::Spawn("No such file or directory (os error 2)".to_string());
    assert_eq!(
        failure.message(),
        "Failed to start Python backend: No such file or directory (os error 2)"
    );
}

#[test]
fn unsupported_method_message_names_the_method() {
    let failure = ShellError::UnsupportedMethod("PATCH".to_string());
    assert_eq!(failure.message(), "Unsupported method: PATCH");
}

#[test]
fn transport_message_is_the_description() {
    let failure = ShellError::Transport("connection refused".to_string());
    assert_eq!(failure.message(), "connection refused");
}

#[test]
fn backend_message_holds_status_and_body() {
    let failure = ShellError::Backend { status: 500, body: "{\"detail\":\"boom\"}".to_string() };
    assert_eq!(failure.message(), "HTTP 500: {\"detail\":\"boom\"}");
    let empty = ShellError::Backend { status: 503, body: String::new() };
    assert_eq!(empty.message(), "HTTP 503: ");
}

#[test]
fn launch_message_is_the_reason() {
    let failure = ShellError::Launch("program not found".to_string());
    assert_eq!(failure.message(), "program not found");
}
