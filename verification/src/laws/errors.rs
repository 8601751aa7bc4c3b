//! Laws on errors.
use std::path::PathBuf;
use std::time::Duration;
use vstd::prelude::*;
use vstd::std_specs::convert::FromSpec;

use crate::error::{
    code_error, duration_text, error_text, path_text, reason_text, retryable, stderr_suffix,
    tokens_name_distinct_reasons, Error, ErrorView, Unavailable,
};
use crate::laws::texts::a_part_has_something_round_it;
use crate::text::{blank, trimmed, trimming_empties_exactly_blank_text};

verus! {

/// A model that is unavailable is reported with the message of the helper and with the cause that
/// its token names: each of the four tokens its own cause, every other token and a missing one an
/// unknown cause.
pub proof fn an_unavailable_model_is_reported_with_its_cause(
    message: Seq<char>,
    token: Option<Seq<char>>,
)
    ensures
        ({
            &&& code_error("model_unavailable"@, message, token)
                matches ErrorView::ModelUnavailable { reason, message: said }
            &&& said == message
            &&& reason == Unavailable::DeviceNotEligible <==> token == Some(
                "device_not_eligible"@,
            )
            &&& reason == Unavailable::NotEnabled <==> token == Some("not_enabled"@)
            &&& reason == Unavailable::ModelNotReady <==> token == Some("model_not_ready"@)
            &&& reason == Unavailable::OsTooOld <==> token == Some("os_too_old"@)
            &&& reason == Unavailable::Unknown <==> {
                &&& token != Some("device_not_eligible"@)
                &&& token != Some("not_enabled"@)
                &&& token != Some("model_not_ready"@)
                &&& token != Some("os_too_old"@)
            }
        }),
{
    if let Some(t) = token {
        tokens_name_distinct_reasons(t);
    }
}

/// A token matters only to an unavailable model: any other code gives the same error with it and
/// without it.
pub proof fn tokens_matter_only_to_unavailability(
    code: Seq<char>,
    message: Seq<char>,
    one: Option<Seq<char>>,
    other: Option<Seq<char>>,
)
    requires
        code != "model_unavailable"@,
    ensures
        code_error(code, message, one) == code_error(code, message, other),
{
}

/// A request is worth retrying exactly where the model is still being prepared, where the time ran
/// out, or where generation failed with a message in which the model says that it is already
/// responding.
pub proof fn only_passing_trouble_is_retryable(error: ErrorView)
    ensures
        retryable(error) <==> {
            ||| error matches ErrorView::ModelUnavailable { reason, .. } && reason
                == Unavailable::ModelNotReady
            ||| error is Timeout
            ||| error matches ErrorView::Generation(message) && exists|
                before: Seq<char>,
                after: Seq<char>,
            | message == #[trigger] (before + "already responding"@ + after)
        },
{
    if let ErrorView::Generation(message) = error {
        a_part_has_something_round_it("already responding"@, message);
    }
}

/// Each cause reads as words of its own.
pub proof fn causes_read_as_words(reason: Unavailable)
    ensures
        reason_text(reason) == "device not eligible"@ <==> reason == Unavailable::DeviceNotEligible,
        reason_text(reason) == "Apple Intelligence not enabled"@ <==> reason
            == Unavailable::NotEnabled,
        reason_text(reason) == "model not ready"@ <==> reason == Unavailable::ModelNotReady,
        reason_text(reason) == "macOS 26 or newer required"@ <==> reason == Unavailable::OsTooOld,
        reason_text(reason) == "unavailable"@ <==> reason == Unavailable::Unknown,
{
    reveal_strlit("device not eligible");
    reveal_strlit("Apple Intelligence not enabled");
    reveal_strlit("model not ready");
    reveal_strlit("macOS 26 or newer required");
    reveal_strlit("unavailable");
    assert("device not eligible"@.len() == 19);
    assert("Apple Intelligence not enabled"@.len() == 30);
    assert("model not ready"@.len() == 15);
    assert("macOS 26 or newer required"@.len() == 26);
    assert("unavailable"@.len() == 11);
}

/// What the helper wrote to stderr is appended after a colon and a space, trimmed; nothing is
/// appended exactly where it is blank.
pub proof fn stderr_is_set_off_where_there_is_any(stderr: Seq<char>)
    ensures
        blank(stderr) <==> stderr_suffix(stderr).len() == 0,
        !blank(stderr) ==> stderr_suffix(stderr) == seq![':', ' '] + trimmed(stderr),
{
    trimming_empties_exactly_blank_text(stderr);
    reveal_strlit(": ");
    assert(": "@ =~= seq![':', ' ']);
}

/// An error that carries a message of the helper or of a check reads as a lead of its own kind and
/// then that message, whole.
pub proof fn errors_read_as_their_message(message: Seq<char>, reason: Unavailable)
    ensures
        error_text(ErrorView::ModelUnavailable { reason, message })
            == "Apple Intelligence is unavailable: "@ + message,
        error_text(ErrorView::BadRequest(message)) == "invalid request: "@ + message,
        error_text(ErrorView::InvalidSchema(message)) == "invalid schema: "@ + message,
        error_text(ErrorView::GuardrailViolation(message)) == "blocked by safety guardrails: "@
            + message,
        error_text(ErrorView::ContextExceeded(message)) == "context window exceeded: "@ + message,
        error_text(ErrorView::Generation(message)) == "generation failed: "@ + message,
        error_text(ErrorView::Protocol(message)) == "protocol error: "@ + message,
{
}

/// An error of the machine reads as what was tried: the path, the time, or how the helper exited.
pub proof fn errors_read_as_what_was_tried(
    path: PathBuf,
    source: std::io::Error,
    json: serde_json::Error,
    status: Seq<char>,
    stderr: Seq<char>,
    limit: Duration,
)
    ensures
        error_text(ErrorView::BinaryNotFound(path)) == "FMBridge binary not found at "@ + path_text(
            path,
        )
            + "; build it with `swift build -c release --package-path swift` or set FM_BRIDGE_BIN"@,
        error_text(ErrorView::Spawn { path, source }) == "failed to spawn the FMBridge process at "@
            + path_text(path),
        error_text(ErrorView::Io(source)) == "i/o error while communicating with FMBridge"@,
        error_text(ErrorView::Json(json)) == "could not encode or decode the wire payload"@,
        blank(stderr) ==> error_text(ErrorView::ProcessFailed { status, stderr })
            == "FMBridge exited unexpectedly (status "@ + status + ")"@,
        !blank(stderr) ==> error_text(ErrorView::ProcessFailed { status, stderr })
            == "FMBridge exited unexpectedly (status "@ + status + ")"@ + seq![':', ' '] + trimmed(
            stderr,
        ),
        error_text(ErrorView::Timeout(limit)) == "timed out after "@ + duration_text(limit)
            + " waiting for FMBridge"@,
{
    stderr_is_set_off_where_there_is_any(stderr);
    let head = "FMBridge exited unexpectedly (status "@ + status + ")"@;
    if blank(stderr) {
        assert(head + stderr_suffix(stderr) =~= head);
    } else {
        assert(head + (seq![':', ' '] + trimmed(stderr)) =~= head + seq![':', ' '] + trimmed(
            stderr,
        ));
    }
}

/// An error of the machine or of an encoding converts into the error that carries it.
pub proof fn outside_errors_convert_into_their_own_kind(
    source: std::io::Error,
    json: serde_json::Error,
)
    ensures
        <Error as FromSpec<std::io::Error>>::from_spec(source) == Error::Io(source),
        <Error as FromSpec<serde_json::Error>>::from_spec(json) == Error::Json(json),
{
}

/// An error is what its fields say.
pub proof fn an_error_is_what_its_fields_say(error: Error)
    ensures
        match error {
            Error::BinaryNotFound(path) => error@ == ErrorView::BinaryNotFound(path),
            Error::Spawn { path, source } => error@ == (ErrorView::Spawn { path, source }),
            Error::Io(source) => error@ == ErrorView::Io(source),
            Error::Json(source) => error@ == ErrorView::Json(source),
            Error::ModelUnavailable { reason, message } => error@ == (ErrorView::ModelUnavailable {
                reason,
                message: message@,
            }),
            Error::BadRequest(why) => error@ == ErrorView::BadRequest(why@),
            Error::InvalidSchema(why) => error@ == ErrorView::InvalidSchema(why@),
            Error::GuardrailViolation(why) => error@ == ErrorView::GuardrailViolation(why@),
            Error::ContextExceeded(why) => error@ == ErrorView::ContextExceeded(why@),
            Error::Generation(why) => error@ == ErrorView::Generation(why@),
            Error::Protocol(why) => error@ == ErrorView::Protocol(why@),
            Error::ProcessFailed { status, stderr } => error@ == (ErrorView::ProcessFailed {
                status: status@,
                stderr: stderr@,
            }),
            Error::Timeout(limit) => error@ == ErrorView::Timeout(limit),
        },
{
}

} // verus!
