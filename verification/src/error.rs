//! Why a request can fail.
use serde_json::Error as JsonError;
use std::io::Error as IoError;
use vstd::prelude::*;

use crate::text::{contains, join2, join3, occurs_in, same, trim, trimmed};

verus! {

/// A path of the file system.
#[verifier::external_type_specification]
#[verifier::external_body]
pub struct ExPathBuf(std::path::PathBuf);

/// An error of the operating system.
#[verifier::external_type_specification]
#[verifier::external_body]
pub struct ExIoError(IoError);

/// The text that `std::path::Path::display` shows for a path.
pub uninterp spec fn path_text(path: std::path::PathBuf) -> Seq<char>;

/// The text that the `Debug` format of `std::time::Duration` shows for a duration.
pub uninterp spec fn duration_text(duration: std::time::Duration) -> Seq<char>;

/// `std::path::Path::display`, rendered: what it shows depends on the path alone.
#[verifier::external_body]
fn show_path(path: &std::path::PathBuf) -> (r: String)
    ensures
        r@ == path_text(*path),
{
    path.display().to_string()
}

/// The `Debug` format of `std::time::Duration`: what it shows depends on the duration alone.
#[verifier::external_body]
fn show_duration(duration: &std::time::Duration) -> (r: String)
    ensures
        r@ == duration_text(*duration),
{
    format!("{:?}", duration)
}

/// Why Apple Intelligence is not usable on this machine.
///
/// The helper reports this as a stable machine-readable token alongside the human-readable
/// message, so callers can branch on the *cause* without matching on prose that may be reworded
/// at any time.
#[derive(Debug, Clone, Copy, PartialEq, Eq, Structural)]
#[non_exhaustive]
pub enum Unavailable {
    /// The hardware cannot run Apple Intelligence. Nothing the user does will fix this.
    DeviceNotEligible,
    /// The device is capable but Apple Intelligence is switched off in System Settings. The user
    /// can fix this.
    NotEnabled,
    /// Model assets are still downloading or being prepared. The same request may succeed
    /// shortly.
    ModelNotReady,
    /// The host is older than macOS 26, so `FoundationModels` is absent.
    OsTooOld,
    /// The helper reported a reason that this version does not know.
    Unknown,
}

/// The reason that a wire token stands for.
pub open spec fn token_reason(token: Seq<char>) -> Unavailable {
    if token == "device_not_eligible"@ {
        Unavailable::DeviceNotEligible
    } else if token == "not_enabled"@ {
        Unavailable::NotEnabled
    } else if token == "model_not_ready"@ {
        Unavailable::ModelNotReady
    } else if token == "os_too_old"@ {
        Unavailable::OsTooOld
    } else {
        Unavailable::Unknown
    }
}

/// What a reason reads as.
pub open spec fn reason_text(reason: Unavailable) -> Seq<char> {
    match reason {
        Unavailable::DeviceNotEligible => "device not eligible"@,
        Unavailable::NotEnabled => "Apple Intelligence not enabled"@,
        Unavailable::ModelNotReady => "model not ready"@,
        Unavailable::OsTooOld => "macOS 26 or newer required"@,
        Unavailable::Unknown => "unavailable"@,
    }
}

impl Unavailable {
    /// Maps the helper's wire token to a reason.
    pub fn from_token(token: &str) -> (r: Self)
        ensures
            r == token_reason(token@),
    {
        if same(token, "device_not_eligible") {
            Unavailable::DeviceNotEligible
        } else if same(token, "not_enabled") {
            Unavailable::NotEnabled
        } else if same(token, "model_not_ready") {
            Unavailable::ModelNotReady
        } else if same(token, "os_too_old") {
            Unavailable::OsTooOld
        } else {
            Unavailable::Unknown
        }
    }

    /// Whether waiting and trying again could plausibly succeed.
    ///
    /// Only [`ModelNotReady`](Self::ModelNotReady) is transient; an ineligible device, a disabled
    /// setting, or an old OS all need human intervention.
    pub fn is_transient(self) -> (r: bool)
        ensures
            r == (self == Unavailable::ModelNotReady),
    {
        matches!(self, Unavailable::ModelNotReady)
    }

    /// The reason in words.
    pub fn describe(&self) -> (r: String)
        ensures
            r@ == reason_text(*self),
    {
        let text: &str = match self {
            Unavailable::DeviceNotEligible => "device not eligible",
            Unavailable::NotEnabled => "Apple Intelligence not enabled",
            Unavailable::ModelNotReady => "model not ready",
            Unavailable::OsTooOld => "macOS 26 or newer required",
            Unavailable::Unknown => "unavailable",
        };
        text.to_string()
    }
}

/// Errors produced by the bridge.
#[derive(Debug)]
#[non_exhaustive]
pub enum Error {
    /// The `FMBridge` helper binary could not be found on disk.
    BinaryNotFound(std::path::PathBuf),
    /// The helper binary could not be launched.
    Spawn {
        /// Path we attempted to execute.
        path: std::path::PathBuf,
        /// Underlying OS error.
        source: IoError,
    },
    /// An I/O error occurred while talking to the helper process.
    Io(IoError),
    /// A payload could not be serialized or deserialized.
    Json(JsonError),
    /// Apple Intelligence is not usable on this machine right now.
    ///
    /// This is a configuration or hardware problem, not a bug in the caller's request. Match on
    /// `reason` rather than the message when deciding how to react: see [`Unavailable`].
    ModelUnavailable {
        /// Machine-readable cause, safe to branch on.
        reason: Unavailable,
        /// Human-readable explanation from the helper, for display and logs.
        message: String,
    },
    /// The request was rejected before generation started.
    BadRequest(String),
    /// The supplied [`Schema`](crate::Schema) could not be validated.
    InvalidSchema(String),
    /// Safety guardrails blocked the prompt or the response.
    GuardrailViolation(String),
    /// The prompt plus the response exceeded the model's context window.
    ContextExceeded(String),
    /// Generation failed for some other model-side reason.
    Generation(String),
    /// The helper spoke something we could not interpret.
    Protocol(String),
    /// The helper exited without completing the response.
    ProcessFailed {
        /// Exit status description.
        status: String,
        /// Whatever the helper wrote to stderr.
        stderr: String,
    },
    /// The request exceeded the configured timeout.
    Timeout(std::time::Duration),
}

/// An [`Error`] with its texts as character sequences.
pub enum ErrorView {
    BinaryNotFound(std::path::PathBuf),
    Spawn { path: std::path::PathBuf, source: IoError },
    Io(IoError),
    Json(JsonError),
    ModelUnavailable { reason: Unavailable, message: Seq<char> },
    BadRequest(Seq<char>),
    InvalidSchema(Seq<char>),
    GuardrailViolation(Seq<char>),
    ContextExceeded(Seq<char>),
    Generation(Seq<char>),
    Protocol(Seq<char>),
    ProcessFailed { status: Seq<char>, stderr: Seq<char> },
    Timeout(std::time::Duration),
}

impl View for Error {
    type V = ErrorView;

    open spec fn view(&self) -> ErrorView {
        match *self {
            Error::BinaryNotFound(path) => ErrorView::BinaryNotFound(path),
            Error::Spawn { path, source } => ErrorView::Spawn { path, source },
            Error::Io(source) => ErrorView::Io(source),
            Error::Json(source) => ErrorView::Json(source),
            Error::ModelUnavailable { reason, message } => ErrorView::ModelUnavailable {
                reason,
                message: message@,
            },
            Error::BadRequest(why) => ErrorView::BadRequest(why@),
            Error::InvalidSchema(why) => ErrorView::InvalidSchema(why@),
            Error::GuardrailViolation(why) => ErrorView::GuardrailViolation(why@),
            Error::ContextExceeded(why) => ErrorView::ContextExceeded(why@),
            Error::Generation(why) => ErrorView::Generation(why@),
            Error::Protocol(why) => ErrorView::Protocol(why@),
            Error::ProcessFailed { status, stderr } => ErrorView::ProcessFailed {
                status: status@,
                stderr: stderr@,
            },
            Error::Timeout(limit) => ErrorView::Timeout(limit),
        }
    }
}

/// The error that a wire code stands for; `reason` is the unavailability token, where one came.
pub open spec fn code_error(
    code: Seq<char>,
    message: Seq<char>,
    reason: Option<Seq<char>>,
) -> ErrorView {
    if code == "model_unavailable"@ {
        ErrorView::ModelUnavailable {
            reason: match reason {
                Some(token) => token_reason(token),
                None => Unavailable::Unknown,
            },
            message,
        }
    } else if code == "bad_request"@ {
        ErrorView::BadRequest(message)
    } else if code == "schema_invalid"@ {
        ErrorView::InvalidSchema(message)
    } else if code == "guardrail_violation"@ {
        ErrorView::GuardrailViolation(message)
    } else if code == "context_exceeded"@ {
        ErrorView::ContextExceeded(message)
    } else {
        ErrorView::Generation(message)
    }
}

/// Whether retrying after `error` might succeed.
pub open spec fn retryable(error: ErrorView) -> bool {
    match error {
        ErrorView::ModelUnavailable { reason, .. } => reason == Unavailable::ModelNotReady,
        ErrorView::Timeout(_) => true,
        ErrorView::Generation(message) => occurs_in("already responding"@, message),
        _ => false,
    }
}

/// `stderr` as it is appended to a message: nothing where it is blank, else its trimmed text
/// after a colon.
pub open spec fn stderr_suffix(stderr: Seq<char>) -> Seq<char> {
    if trimmed(stderr).len() == 0 {
        Seq::empty()
    } else {
        ": "@ + trimmed(stderr)
    }
}

/// What an error reads as.
pub open spec fn error_text(error: ErrorView) -> Seq<char> {
    match error {
        ErrorView::BinaryNotFound(path) => "FMBridge binary not found at "@ + path_text(path)
            + "; build it with `swift build -c release --package-path swift` or set FM_BRIDGE_BIN"@,
        ErrorView::Spawn { path, .. } => "failed to spawn the FMBridge process at "@ + path_text(
            path,
        ),
        ErrorView::Io(_) => "i/o error while communicating with FMBridge"@,
        ErrorView::Json(_) => "could not encode or decode the wire payload"@,
        ErrorView::ModelUnavailable { message, .. } => "Apple Intelligence is unavailable: "@
            + message,
        ErrorView::BadRequest(why) => "invalid request: "@ + why,
        ErrorView::InvalidSchema(why) => "invalid schema: "@ + why,
        ErrorView::GuardrailViolation(why) => "blocked by safety guardrails: "@ + why,
        ErrorView::ContextExceeded(why) => "context window exceeded: "@ + why,
        ErrorView::Generation(why) => "generation failed: "@ + why,
        ErrorView::Protocol(why) => "protocol error: "@ + why,
        ErrorView::ProcessFailed { status, stderr } => "FMBridge exited unexpectedly (status "@
            + status + ")"@ + stderr_suffix(stderr),
        ErrorView::Timeout(limit) => "timed out after "@ + duration_text(limit)
            + " waiting for FMBridge"@,
    }
}

/// `stderr` as it is appended to a message.
pub fn format_stderr(stderr: &str) -> (r: String)
    ensures
        r@ == stderr_suffix(stderr@),
{
    let text = trim(stderr);
    if text.is_empty() {
        String::new()
    } else {
        join2(": ", text)
    }
}

impl From<IoError> for Error {
    /// An I/O error while talking to the helper.
    fn from(source: IoError) -> (r: Self) {
        Error::Io(source)
    }
}

impl vstd::std_specs::convert::FromSpecImpl<IoError> for Error {
    open spec fn obeys_from_spec() -> bool {
        true
    }

    open spec fn from_spec(source: IoError) -> Self {
        Error::Io(source)
    }
}

impl From<JsonError> for Error {
    /// A payload that could not be encoded or decoded.
    fn from(source: JsonError) -> (r: Self) {
        Error::Json(source)
    }
}

impl vstd::std_specs::convert::FromSpecImpl<JsonError> for Error {
    open spec fn obeys_from_spec() -> bool {
        true
    }

    open spec fn from_spec(source: JsonError) -> Self {
        Error::Json(source)
    }
}

impl Error {
    /// Builds the appropriate variant from the helper's machine-readable code. `reason` is the
    /// helper's optional unavailability token, only meaningful for `model_unavailable`.
    pub fn from_code(code: &str, message: String, reason: Option<&str>) -> (r: Self)
        ensures
            r@ == code_error(
                code@,
                message@,
                match reason {
                    Some(token) => Some(token@),
                    None => None,
                },
            ),
    {
        if same(code, "model_unavailable") {
            let reason = match reason {
                Some(token) => Unavailable::from_token(token),
                None => Unavailable::Unknown,
            };
            Error::ModelUnavailable { reason, message }
        } else if same(code, "bad_request") {
            Error::BadRequest(message)
        } else if same(code, "schema_invalid") {
            Error::InvalidSchema(message)
        } else if same(code, "guardrail_violation") {
            Error::GuardrailViolation(message)
        } else if same(code, "context_exceeded") {
            Error::ContextExceeded(message)
        } else {
            Error::Generation(message)
        }
    }

    /// Returns `true` when retrying the same request later might succeed.
    ///
    /// Useful for callers that want to back off while the on-device model finishes downloading
    /// rather than surfacing a hard failure.
    pub fn is_retryable(&self) -> (r: bool)
        ensures
            r == retryable(self@),
    {
        match self {
            // Only a model that is still being prepared is worth waiting for; an ineligible
            // device or a disabled setting never resolves itself.
            Error::ModelUnavailable { reason, .. } => reason.is_transient(),
            Error::Timeout(_) => true,
            Error::Generation(message) => contains(message.as_str(), "already responding"),
            _ => false,
        }
    }

    /// The error in words.
    pub fn describe(&self) -> (r: String)
        ensures
            r@ == error_text(self@),
    {
        match self {
            Error::BinaryNotFound(path) => join3(
                "FMBridge binary not found at ",
                show_path(path).as_str(),
                "; build it with `swift build -c release --package-path swift` or set FM_BRIDGE_BIN",
            ),
            Error::Spawn { path, .. } => join2(
                "failed to spawn the FMBridge process at ",
                show_path(path).as_str(),
            ),
            Error::Io(_) => "i/o error while communicating with FMBridge".to_string(),
            Error::Json(_) => "could not encode or decode the wire payload".to_string(),
            Error::ModelUnavailable { message, .. } => join2(
                "Apple Intelligence is unavailable: ",
                message.as_str(),
            ),
            Error::BadRequest(why) => join2("invalid request: ", why.as_str()),
            Error::InvalidSchema(why) => join2("invalid schema: ", why.as_str()),
            Error::GuardrailViolation(why) => join2("blocked by safety guardrails: ", why.as_str()),
            Error::ContextExceeded(why) => join2("context window exceeded: ", why.as_str()),
            Error::Generation(why) => join2("generation failed: ", why.as_str()),
            Error::Protocol(why) => join2("protocol error: ", why.as_str()),
            Error::ProcessFailed { status, stderr } => {
                let head = join3("FMBridge exited unexpectedly (status ", status.as_str(), ")");
                let tail = format_stderr(stderr.as_str());
                join2(head.as_str(), tail.as_str())
            },
            Error::Timeout(limit) => join3(
                "timed out after ",
                show_duration(limit).as_str(),
                " waiting for FMBridge",
            ),
        }
    }
}

/// The codes that name a cause give distinct kinds of error, each with the helper's message, and
/// every other code gives a generation error with that message: an unknown code is never mistaken
/// for a known cause.
pub proof fn codes_name_distinct_errors(
    code: Seq<char>,
    message: Seq<char>,
    reason: Option<Seq<char>>,
)
    ensures
        code_error(code, message, reason) is ModelUnavailable <==> code == "model_unavailable"@,
        code_error(code, message, reason) is BadRequest <==> code == "bad_request"@,
        code_error(code, message, reason) is InvalidSchema <==> code == "schema_invalid"@,
        code_error(code, message, reason) is GuardrailViolation <==> code == "guardrail_violation"@,
        code_error(code, message, reason) is ContextExceeded <==> code == "context_exceeded"@,
        code_error(code, message, reason) == ErrorView::Generation(message) <==> {
            &&& code != "model_unavailable"@
            &&& code != "bad_request"@
            &&& code != "schema_invalid"@
            &&& code != "guardrail_violation"@
            &&& code != "context_exceeded"@
        },
        code_error(code, message, reason) matches ErrorView::ModelUnavailable { message: m, .. }
            ==> m == message,
        code_error(code, message, reason) matches ErrorView::BadRequest(m) ==> m == message,
        code_error(code, message, reason) matches ErrorView::InvalidSchema(m) ==> m == message,
        code_error(code, message, reason) matches ErrorView::GuardrailViolation(m) ==> m == message,
        code_error(code, message, reason) matches ErrorView::ContextExceeded(m) ==> m == message,
{
    reveal_strlit("model_unavailable");
    reveal_strlit("bad_request");
    reveal_strlit("schema_invalid");
    reveal_strlit("guardrail_violation");
    reveal_strlit("context_exceeded");
    assert("guardrail_violation"@.len() == 19);
    assert("model_unavailable"@.len() == 17);
    assert("bad_request"@.len() == 11);
    assert("schema_invalid"@.len() == 14);
    assert("context_exceeded"@.len() == 16);
}

/// Each known token gives a reason of its own, and every other token is unknown: an unrecognised
/// token is never mistaken for a known cause.
pub proof fn tokens_name_distinct_reasons(token: Seq<char>)
    ensures
        token_reason(token) == Unavailable::DeviceNotEligible <==> token == "device_not_eligible"@,
        token_reason(token) == Unavailable::NotEnabled <==> token == "not_enabled"@,
        token_reason(token) == Unavailable::ModelNotReady <==> token == "model_not_ready"@,
        token_reason(token) == Unavailable::OsTooOld <==> token == "os_too_old"@,
        token_reason(token) == Unavailable::Unknown <==> {
            &&& token != "device_not_eligible"@
            &&& token != "not_enabled"@
            &&& token != "model_not_ready"@
            &&& token != "os_too_old"@
        },
{
    reveal_strlit("device_not_eligible");
    reveal_strlit("not_enabled");
    reveal_strlit("model_not_ready");
    reveal_strlit("os_too_old");
    assert("device_not_eligible"@.len() == 19);
    assert("not_enabled"@.len() == 11);
    assert("model_not_ready"@.len() == 15);
    assert("os_too_old"@.len() == 10);
}

/// A helper that reports the model unavailable is worth retrying exactly where its token says
/// that the model is still being prepared.
pub proof fn unavailability_is_retryable_only_while_preparing(
    message: Seq<char>,
    reason: Option<Seq<char>>,
)
    ensures
        retryable(code_error("model_unavailable"@, message, reason)) <==> reason == Some(
            "model_not_ready"@,
        ),
{
    if let Some(token) = reason {
        tokens_name_distinct_reasons(token);
    }
}

} // verus!
