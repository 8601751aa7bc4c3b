//! The lines that the helper writes, one JSON object each.
use vstd::prelude::*;

use crate::error::{code_error, Error, ErrorView};
use crate::json::{member, member_of, member_text, parsed_json, read_json, shape, text_member, Shape};
use crate::text::{trim, trimmed};
use crate::types::{no_usage, text_view, EventView, StreamEvent, Usage};

verus! {

/// What a line of the helper says.
#[derive(Debug)]
pub struct WireEvent {
    /// The message of a failure.
    pub error: Option<String>,
    /// The code of a failure.
    pub code: Option<String>,
    /// Why the model is unavailable, as a token.
    pub reason: Option<String>,
    /// Whether generation finished.
    pub done: Option<bool>,
    /// The token counts.
    pub usage: Option<Usage>,
    /// The finished structured object.
    pub structured: Option<serde_json::Value>,
    /// A partially filled structured object.
    pub snapshot: Option<serde_json::Value>,
    /// A new chunk of text.
    pub delta: Option<String>,
    /// Whether the line is the answer to a probe.
    pub ready: bool,
}

/// A [`WireEvent`] with its texts as character sequences.
pub struct WireEventView {
    pub error: Option<Seq<char>>,
    pub code: Option<Seq<char>>,
    pub reason: Option<Seq<char>>,
    pub done: Option<bool>,
    pub usage: Option<Usage>,
    pub structured: Option<serde_json::Value>,
    pub snapshot: Option<serde_json::Value>,
    pub delta: Option<Seq<char>>,
    pub ready: bool,
}

impl View for WireEvent {
    type V = WireEventView;

    open spec fn view(&self) -> WireEventView {
        WireEventView {
            error: text_view(self.error),
            code: text_view(self.code),
            reason: text_view(self.reason),
            done: self.done,
            usage: self.usage,
            structured: self.structured,
            snapshot: self.snapshot,
            delta: text_view(self.delta),
            ready: self.ready,
        }
    }
}

/// What a line amounts to.
pub enum LineView {
    /// Nothing: the line is to be skipped.
    Nothing,
    /// An event of the response.
    Event(EventView),
    /// The failure of the request.
    Failure(ErrorView),
}

/// What a result of reading a line amounts to.
pub open spec fn line_view(r: Result<Option<StreamEvent>, Error>) -> LineView {
    match r {
        Ok(None) => LineView::Nothing,
        Ok(Some(event)) => LineView::Event(event@),
        Err(error) => LineView::Failure(error@),
    }
}

/// A count that fits in 32 bits: zero where none was sent, the largest where it is too large.
pub open spec fn clamped_count(raw: Option<u64>) -> u32 {
    match raw {
        Some(n) => if n > u32::MAX {
            u32::MAX
        } else {
            n as u32
        },
        None => 0,
    }
}

/// The integer that the member of `v` under `key` is, if there is one.
pub open spec fn u64_member(v: serde_json::Value, key: Seq<char>) -> Option<u64> {
    match member_of(v, key) {
        Some(member) => match shape(member) {
            Shape::Unsigned(n) => Some(n),
            _ => None,
        },
        None => None,
    }
}

/// The truth value that the member of `v` under `key` is, if there is one.
pub open spec fn bool_member(v: serde_json::Value, key: Seq<char>) -> Option<bool> {
    match member_of(v, key) {
        Some(member) => match shape(member) {
            Shape::Bool(truth) => Some(truth),
            _ => None,
        },
        None => None,
    }
}

/// The token counts that a `usage` member gives.
pub open spec fn usage_of(v: serde_json::Value) -> Usage {
    Usage {
        prompt_tokens: clamped_count(u64_member(v, "promptTokens"@)),
        completion_tokens: clamped_count(u64_member(v, "completionTokens"@)),
    }
}

/// What a JSON value says as a line of the helper: nothing unless it is an object.
pub open spec fn wire_event(v: serde_json::Value) -> Option<WireEventView> {
    if shape(v) is Object {
        Some(
            WireEventView {
                error: text_member(v, "error"@),
                code: text_member(v, "code"@),
                reason: text_member(v, "reason"@),
                done: bool_member(v, "done"@),
                usage: match member_of(v, "usage"@) {
                    Some(usage) => Some(usage_of(usage)),
                    None => None,
                },
                structured: member_of(v, "structured"@),
                snapshot: member_of(v, "snapshot"@),
                delta: text_member(v, "delta"@),
                ready: member_of(v, "ready"@) is Some,
            },
        )
    } else {
        None
    }
}

/// What the members of a line amount to. A failure outranks everything else on the line, then
/// comes the end of the response, then the finished object, then a snapshot, then text.
pub open spec fn interpretation(e: WireEventView) -> LineView {
    match e.error {
        Some(message) => LineView::Failure(
            code_error(
                match e.code {
                    Some(code) => code,
                    None => "generation_failed"@,
                },
                message,
                e.reason,
            ),
        ),
        None => if e.done == Some(true) {
            LineView::Event(
                EventView::Done(
                    match e.usage {
                        Some(usage) => usage,
                        None => no_usage(),
                    },
                ),
            )
        } else {
            match (e.structured, e.snapshot, e.delta) {
                (Some(value), _, _) => LineView::Event(EventView::Structured(value)),
                (None, Some(value), _) => LineView::Event(EventView::Snapshot(value)),
                (None, None, Some(text)) => LineView::Event(EventView::Delta(text)),
                (None, None, None) => LineView::Nothing,
            }
        },
    }
}

/// What a line of the helper says. A line that is blank, or no JSON, or JSON but no object, says
/// nothing.
pub open spec fn line_fields(line: Seq<char>) -> Option<WireEventView> {
    if trimmed(line).len() == 0 {
        None
    } else {
        match parsed_json(trimmed(line)) {
            Some(v) => wire_event(v),
            None => None,
        }
    }
}

/// What a line of the helper amounts to.
pub open spec fn line_meaning(line: Seq<char>) -> LineView {
    match line_fields(line) {
        Some(e) => interpretation(e),
        None => LineView::Nothing,
    }
}

/// Whether a line of the helper is the answer to a probe, good or bad.
pub open spec fn line_answers(line: Seq<char>) -> bool {
    match line_fields(line) {
        Some(e) => e.ready,
        None => false,
    }
}

/// Whether the members of a line say that the model is ready: the answer to a probe is there, and
/// no failure is reported beside it.
pub open spec fn says_ready(e: WireEventView) -> bool {
    e.ready && e.error is None
}

/// Whether a line of the helper says that the model is ready.
pub open spec fn line_ready(line: Seq<char>) -> bool {
    match line_fields(line) {
        Some(e) => says_ready(e),
        None => false,
    }
}

/// A count that fits in 32 bits.
pub fn clamp_count(raw: Option<u64>) -> (r: u32)
    ensures
        r == clamped_count(raw),
{
    match raw {
        Some(n) => if n > 0xffff_ffff {
            0xffff_ffff
        } else {
            n as u32
        },
        None => 0,
    }
}

/// The count that `value` holds under `key`.
pub fn field_u32(value: &serde_json::Value, key: &str) -> (r: u32)
    ensures
        r == clamped_count(u64_member(*value, key@)),
{
    let raw: Option<u64> = match member(value, key) {
        Some(found) => found.as_u64(),
        None => None,
    };
    clamp_count(raw)
}

/// The members of a line that matter.
pub fn read_fields(value: &serde_json::Value) -> (r: Option<WireEvent>)
    ensures
        match r {
            Some(e) => wire_event(*value) == Some(e@),
            None => wire_event(*value) is None,
        },
{
    if !value.is_object() {
        return None;
    }
    let done = match member(value, "done") {
        Some(found) => found.as_bool(),
        None => None,
    };
    let usage = match member(value, "usage") {
        Some(usage) => Some(
            Usage {
                prompt_tokens: field_u32(usage, "promptTokens"),
                completion_tokens: field_u32(usage, "completionTokens"),
            },
        ),
        None => None,
    };
    let structured = match member(value, "structured") {
        Some(found) => Some(found.clone()),
        None => None,
    };
    let snapshot = match member(value, "snapshot") {
        Some(found) => Some(found.clone()),
        None => None,
    };
    Some(
        WireEvent {
            error: member_text(value, "error"),
            code: member_text(value, "code"),
            reason: member_text(value, "reason"),
            done,
            usage,
            structured,
            snapshot,
            delta: member_text(value, "delta"),
            ready: member(value, "ready").is_some(),
        },
    )
}

impl WireEvent {
    /// Whether the line says that the model is ready.
    pub fn announces_ready(&self) -> (r: bool)
        ensures
            r == says_ready(self@),
    {
        self.ready && self.error.is_none()
    }
}

/// Turns the members of a line into an event or an error.
pub fn interpret(fields: WireEvent) -> (r: Result<Option<StreamEvent>, Error>)
    ensures
        line_view(r) == interpretation(fields@),
{
    if let Some(message) = fields.error {
        let reason = match &fields.reason {
            Some(token) => Some(token.as_str()),
            None => None,
        };
        return match &fields.code {
            Some(code) => Err(Error::from_code(code.as_str(), message, reason)),
            None => Err(Error::from_code("generation_failed", message, reason)),
        };
    }
    if let Some(true) = fields.done {
        let usage = match fields.usage {
            Some(usage) => usage,
            None => Usage::default(),
        };
        return Ok(Some(StreamEvent::Done(usage)));
    }
    if let Some(value) = fields.structured {
        return Ok(Some(StreamEvent::Structured(value)));
    }
    if let Some(value) = fields.snapshot {
        return Ok(Some(StreamEvent::Snapshot(value)));
    }
    if let Some(text) = fields.delta {
        return Ok(Some(StreamEvent::Delta(text)));
    }
    // `ready` (the answer to a probe) and anything unknown are no events of a response.

    Ok(None)
}

/// Reads one line of the helper.
pub fn read_line(line: &str) -> (r: Option<WireEvent>)
    ensures
        match r {
            Some(e) => line_fields(line@) == Some(e@),
            None => line_fields(line@) is None,
        },
{
    let text = trim(line);
    if text.is_empty() {
        return None;
    }
    match read_json(text) {
        Ok(value) => read_fields(&value),
        Err(_) => None,
    }
}

/// Parses one line of the helper into an event.
///
/// Unrecognised or non-JSON lines yield `Ok(None)` so stray helper output can never corrupt a
/// response.
pub fn parse_line(line: &str) -> (r: Result<Option<StreamEvent>, Error>)
    ensures
        line_view(r) == line_meaning(line@),
{
    match read_line(line) {
        Some(fields) => interpret(fields),
        None => Ok(None),
    }
}

} // verus!
