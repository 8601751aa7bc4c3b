use std::io::ErrorKind;
use std::path::PathBuf;
use std::time::Duration;

use fm_bridge::{Error, Unavailable};

fn io_error() -> std::io::Error {
    std::io::Error::new(ErrorKind::Other, "disk on fire")
}

fn json_error() -> serde_json::Error {
    serde_json::from_str::<serde_json::Value>("{").unwrap_err()
}

#[test]
fn tokens_name_reasons() {
    let cases = [
        ("device_not_eligible", Unavailable::DeviceNotEligible, "device not eligible"),
        ("not_enabled", Unavailable::NotEnabled, "Apple Intelligence not enabled"),
        ("model_not_ready", Unavailable::ModelNotReady, "model not ready"),
        ("os_too_old", Unavailable::OsTooOld, "macOS 26 or newer required"),
        ("", Unavailable::Unknown, "unavailable"),
        ("Not_Enabled", Unavailable::Unknown, "unavailable"),
    ];
    for (token, reason, text) in cases {
        assert_eq!(Unavailable::from_token(token), reason);
        assert_eq!(reason.describe(), text);
        assert_eq!(reason.is_transient(), reason == Unavailable::ModelNotReady);
    }
}

#[test]
fn codes_name_errors() {
    let message = || "m".to_string();
    assert!(matches!(
        Error::from_code("model_unavailable", message(), Some("os_too_old")),
        Error::ModelUnavailable { reason: Unavailable::OsTooOld, message } if message == "m"
    ));
    assert!(matches!(
        Error::from_code("model_unavailable", message(), None),
        Error::ModelUnavailable { reason: Unavailable::Unknown, .. }
    ));
    assert!(matches!(
        Error::from_code("bad_request", message(), Some("os_too_old")),
        Error::BadRequest(m) if m == "m"
    ));
    assert!(matches!(
        Error::from_code("schema_invalid", message(), None),
        Error::InvalidSchema(m) if m == "m"
    ));
    assert!(matches!(
        Error::from_code("guardrail_violation", message(), None),
        Error::GuardrailViolation(m) if m == "m"
    ));
    assert!(matches!(
        Error::from_code("context_exceeded", message(), None),
        Error::ContextExceeded(m) if m == "m"
    ));
    for code in ["unsupported_locale", "concurrent_requests", "generation_failed", "", "new"] {
        assert!(matches!(
            Error::from_code(code, message(), None),
            Error::Generation(m) if m == "m"
        ));
    }
}

#[test]
fn only_passing_trouble_is_retryable() {
    let unavailable = |token| Error::from_code("model_unavailable", String::new(), token);
    assert!(unavailable(Some("model_not_ready")).is_retryable());
    for token in [None, Some("device_not_eligible"), Some("not_enabled"), Some("os_too_old")] {
        assert!(!unavailable(token).is_retryable());
    }
    assert!(Error::Timeout(Duration::from_secs(1)).is_retryable());
    assert!(Error::Generation("the session is already responding!".to_string()).is_retryable());
    assert!(!Error::Generation("already  responding".to_string()).is_retryable());
    for error in [
        Error::BinaryNotFound(PathBuf::from("x")),
        Error::Spawn { path: PathBuf::from("x"), source: io_error() },
        Error::Io(io_error()),
        Error::Json(json_error()),
        Error::BadRequest("already responding".to_string()),
        Error::InvalidSchema(String::new()),
        Error::GuardrailViolation(String::new()),
        Error::ContextExceeded(String::new()),
        Error::Protocol("already responding".to_string()),
        Error::ProcessFailed { status: String::new(), stderr: String::new() },
    ] {
        assert!(!error.is_retryable(), "{error:?}");
    }
}

#[test]
fn errors_read_as_words() {
    let cases = [
        (
            Error::BinaryNotFound(PathBuf::from("/opt/FMBridge")),
            "FMBridge binary not found at /opt/FMBridge; build it with `swift build -c release --package-path swift` or set FM_BRIDGE_BIN",
        ),
        (
            Error::Spawn { path: PathBuf::from("/opt/FMBridge"), source: io_error() },
            "failed to spawn the FMBridge process at /opt/FMBridge",
        ),
        (Error::Io(io_error()), "i/o error while communicating with FMBridge"),
        (Error::Json(json_error()), "could not encode or decode the wire payload"),
        (
            Error::ModelUnavailable {
                reason: Unavailable::NotEnabled,
                message: "turned off".to_string(),
            },
            "Apple Intelligence is unavailable: turned off",
        ),
        (Error::BadRequest("a".to_string()), "invalid request: a"),
        (Error::InvalidSchema("b".to_string()), "invalid schema: b"),
        (Error::GuardrailViolation("c".to_string()), "blocked by safety guardrails: c"),
        (Error::ContextExceeded("d".to_string()), "context window exceeded: d"),
        (Error::Generation("e".to_string()), "generation failed: e"),
        (Error::Protocol("f".to_string()), "protocol error: f"),
        (
            Error::ProcessFailed {
                status: "exit code 9".to_string(),
                stderr: " FoundationModels missing\n".to_string(),
            },
            "FMBridge exited unexpectedly (status exit code 9): FoundationModels missing",
        ),
        (
            Error::ProcessFailed { status: "unknown".to_string(), stderr: "\n".to_string() },
            "FMBridge exited unexpectedly (status unknown)",
        ),
        (
            Error::Timeout(Duration::from_millis(1500)),
            "timed out after 1.5s waiting for FMBridge",
        ),
        (
            Error::Timeout(Duration::from_millis(300)),
            "timed out after 300ms waiting for FMBridge",
        ),
    ];
    for (error, text) in cases {
        assert_eq!(error.describe(), text);
    }
}

#[test]
fn outside_errors_convert() {
    assert!(matches!(
        Error::from(io_error()),
        Error::Io(source) if source.kind() == ErrorKind::Other
    ));
    assert!(matches!(Error::from(json_error()), Error::Json(source) if source.is_eof()));
}
