//! Laws on the lines of the helper, said of the JSON object that a line holds.
use vstd::prelude::*;

use crate::error::{code_error, codes_name_distinct_errors, Error, ErrorView, Unavailable};
use crate::events::{
    clamped_count, interpretation, line_answers, line_fields, line_meaning, line_ready, line_view,
    says_ready, u64_member, usage_of, wire_event, LineView, WireEvent, WireEventView,
};
use crate::json::{member_of, parsed_json, shape, text_member, text_of, Shape};
use crate::laws::errors::an_unavailable_model_is_reported_with_its_cause;
use crate::text::trimmed;
use crate::types::{EventView, StreamEvent, Usage};

verus! {

/// The members of a JSON object.
pub type JsonMembers = Map<Seq<char>, serde_json::Value>;

/// Whether a line, without the white space round it, is a JSON object with these members.
pub open spec fn line_holds(line: Seq<char>, members: JsonMembers) -> bool {
    &&& trimmed(line).len() > 0
    &&& parsed_json(trimmed(line)) matches Some(v)
    &&& shape(v) == Shape::Object(members)
}

/// Whether the member under `key` is the string `text`.
pub open spec fn says(members: JsonMembers, key: Seq<char>, text: Seq<char>) -> bool {
    members.contains_key(key) && shape(members[key]) == Shape::Text(text)
}

/// Whether the member under `key` is a string.
pub open spec fn says_something(members: JsonMembers, key: Seq<char>) -> bool {
    members.contains_key(key) && shape(members[key]) is Text
}

/// Whether the member `done` is `true`.
pub open spec fn says_done(members: JsonMembers) -> bool {
    members.contains_key("done"@) && shape(members["done"@]) == Shape::Bool(true)
}

/// The member of a JSON value is there exactly where the value is an object that holds it.
pub proof fn members_are_those_of_objects(
    v: serde_json::Value,
    key: Seq<char>,
    found: serde_json::Value,
    text: Seq<char>,
)
    ensures
        member_of(v, key) == Some(found) <==> {
            &&& shape(v) matches Shape::Object(members)
            &&& members.contains_key(key)
            &&& members[key] == found
        },
        text_of(v) == Some(text) <==> shape(v) == Shape::Text(text),
        text_member(v, key) == Some(text) <==> {
            &&& shape(v) matches Shape::Object(members)
            &&& members.contains_key(key)
            &&& shape(members[key]) == Shape::Text(text)
        },
{
}

/// A line that is blank, or no JSON, or JSON but no object, means nothing and answers nothing.
pub proof fn only_objects_mean_something(line: Seq<char>)
    ensures
        !(exists|members: JsonMembers| #[trigger] line_holds(line, members)) ==> {
            &&& line_meaning(line) is Nothing
            &&& line_fields(line) is None
            &&& !line_answers(line)
            &&& !line_ready(line)
        },
{
    if line_fields(line) is Some {
        let members = shape(parsed_json(trimmed(line))->0)->Object_0;
        assert(line_holds(line, members));
    }
}

/// Any string under `delta`, blank and empty ones too, is a chunk with that very text, where the
/// line reports no failure, no end, no object and no snapshot; nothing else is a chunk.
pub proof fn every_delta_is_a_chunk(line: Seq<char>, members: JsonMembers, text: Seq<char>)
    requires
        line_holds(line, members),
    ensures
        line_meaning(line) == LineView::Event(EventView::Delta(text)) <==> {
            &&& says(members, "delta"@, text)
            &&& !says_something(members, "error"@)
            &&& !says_done(members)
            &&& !members.contains_key("structured"@)
            &&& !members.contains_key("snapshot"@)
        },
{
}

/// Any value under `structured`, `null` too, is the finished object, where the line reports no
/// failure and no end; nothing else is one.
pub proof fn every_structured_value_is_an_object(
    line: Seq<char>,
    members: JsonMembers,
    value: serde_json::Value,
)
    requires
        line_holds(line, members),
    ensures
        line_meaning(line) == LineView::Event(EventView::Structured(value)) <==> {
            &&& members.contains_key("structured"@)
            &&& members["structured"@] == value
            &&& !says_something(members, "error"@)
            &&& !says_done(members)
        },
{
}

/// Any value under `snapshot` is a snapshot, where the line reports no failure, no end and no
/// finished object; nothing else is one.
pub proof fn every_snapshot_value_is_a_snapshot(
    line: Seq<char>,
    members: JsonMembers,
    value: serde_json::Value,
)
    requires
        line_holds(line, members),
    ensures
        line_meaning(line) == LineView::Event(EventView::Snapshot(value)) <==> {
            &&& members.contains_key("snapshot"@)
            &&& members["snapshot"@] == value
            &&& !members.contains_key("structured"@)
            &&& !says_something(members, "error"@)
            &&& !says_done(members)
        },
{
}

/// A response ends exactly at a line that says `done` and reports no failure.
pub proof fn only_done_ends_a_response(line: Seq<char>, members: JsonMembers)
    requires
        line_holds(line, members),
    ensures
        (line_meaning(line) matches LineView::Event(event) && event is Done) <==> {
            &&& says_done(members)
            &&& !says_something(members, "error"@)
        },
{
}

/// Whether `count` is what the member of `v` under `key` counts: that number as far as it fits in
/// 32 bits, and zero where there is no such number.
pub open spec fn counts(v: serde_json::Value, key: Seq<char>, count: u32) -> bool {
    match shape(v) {
        Shape::Object(members) => if members.contains_key(key) {
            match shape(members[key]) {
                Shape::Unsigned(n) => {
                    &&& n <= u32::MAX ==> count == n
                    &&& n > u32::MAX ==> count == u32::MAX
                },
                _ => count == 0,
            }
        } else {
            count == 0
        },
        _ => count == 0,
    }
}

/// The usage that comes with the end of a response is what the line counts under `promptTokens` and
/// `completionTokens`, and nothing where it gives no usage.
pub proof fn usage_is_what_the_line_counts(line: Seq<char>, members: JsonMembers, usage: Usage)
    requires
        line_holds(line, members),
        line_meaning(line) == LineView::Event(EventView::Done(usage)),
    ensures
        members.contains_key("usage"@) ==> {
            &&& counts(members["usage"@], "promptTokens"@, usage.prompt_tokens)
            &&& counts(members["usage"@], "completionTokens"@, usage.completion_tokens)
        },
        !members.contains_key("usage"@) ==> usage.prompt_tokens == 0 && usage.completion_tokens
            == 0,
{
}

/// A line reports a failure exactly where it has a string under `error`, and what it reports
/// carries that message: of the kind that its `code` names, of the cause that its `reason` names,
/// and a generation error for every code that names no kind.
pub proof fn failures_are_what_the_line_reports(
    line: Seq<char>,
    members: JsonMembers,
    message: Seq<char>,
)
    requires
        line_holds(line, members),
    ensures
        line_meaning(line) is Failure <==> says_something(members, "error"@),
        says(members, "error"@, message) ==> {
            let error = line_meaning(line)->Failure_0;
            let reported = |code: Seq<char>| says(members, "code"@, code);
            let caused = |token: Seq<char>| says(members, "reason"@, token);
            &&& reported("bad_request"@) <==> error == ErrorView::BadRequest(message)
            &&& reported("schema_invalid"@) <==> error == ErrorView::InvalidSchema(message)
            &&& reported("guardrail_violation"@) <==> error == ErrorView::GuardrailViolation(
                message,
            )
            &&& reported("context_exceeded"@) <==> error == ErrorView::ContextExceeded(message)
            &&& reported("model_unavailable"@) <==> error is ModelUnavailable
            &&& error is ModelUnavailable ==> {
                let reason = error->ModelUnavailable_reason;
                &&& error->ModelUnavailable_message == message
                &&& reason == Unavailable::DeviceNotEligible <==> caused("device_not_eligible"@)
                &&& reason == Unavailable::NotEnabled <==> caused("not_enabled"@)
                &&& reason == Unavailable::ModelNotReady <==> caused("model_not_ready"@)
                &&& reason == Unavailable::OsTooOld <==> caused("os_too_old"@)
            }
            &&& error == ErrorView::Generation(message) <==> {
                &&& !reported("bad_request"@)
                &&& !reported("schema_invalid"@)
                &&& !reported("guardrail_violation"@)
                &&& !reported("context_exceeded"@)
                &&& !reported("model_unavailable"@)
            }
        },
{
    if says(members, "error"@, message) {
        let v = parsed_json(trimmed(line))->0;
        let code = match text_member(v, "code"@) {
            Some(code) => code,
            None => "generation_failed"@,
        };
        let reason = text_member(v, "reason"@);
        codes_name_distinct_errors(code, message, reason);
        an_unavailable_model_is_reported_with_its_cause(message, reason);
        reveal_strlit("generation_failed");
        reveal_strlit("model_unavailable");
        reveal_strlit("bad_request");
        reveal_strlit("schema_invalid");
        reveal_strlit("guardrail_violation");
        reveal_strlit("context_exceeded");
        assert("generation_failed"@[0] == 'g');
        assert("model_unavailable"@[0] == 'm');
        assert("generation_failed"@.len() == 17);
        assert("bad_request"@.len() == 11);
        assert("schema_invalid"@.len() == 14);
        assert("guardrail_violation"@.len() == 19);
        assert("context_exceeded"@.len() == 16);
        assert(line_meaning(line)->Failure_0 == code_error(code, message, reason));
        assert forall|c: Seq<char>| c != "generation_failed"@ implies (#[trigger] says(
            members,
            "code"@,
            c,
        ) <==> code == c) by {}
        assert forall|t: Seq<char>| #[trigger] says(members, "reason"@, t) <==> reason == Some(
            t,
        ) by {}
    }
}

/// A line answers a probe exactly where it has the member `ready`, and says that the model is ready
/// where it reports no failure beside it.
pub proof fn only_the_member_answers_a_probe(line: Seq<char>, members: JsonMembers)
    requires
        line_holds(line, members),
    ensures
        line_answers(line) <==> members.contains_key("ready"@),
        line_ready(line) <==> members.contains_key("ready"@) && !says_something(members, "error"@),
{
}

/// A line that holds none of the members that matter, or `done` other than `true`, or a `delta` or
/// `error` that is no string, means nothing; unknown members never matter.
pub proof fn unknown_members_mean_nothing(line: Seq<char>, members: JsonMembers)
    requires
        line_holds(line, members),
    ensures
        line_meaning(line) is Nothing <==> {
            &&& !says_something(members, "error"@)
            &&& !says_done(members)
            &&& !members.contains_key("structured"@)
            &&& !members.contains_key("snapshot"@)
            &&& !says_something(members, "delta"@)
        },
{
}

/// Two lines whose objects agree on the members that matter mean the same.
pub proof fn only_known_members_matter(
    one: Seq<char>,
    other: Seq<char>,
    a: JsonMembers,
    b: JsonMembers,
)
    requires
        line_holds(one, a),
        line_holds(other, b),
        forall|key: Seq<char>|
            {
                ||| key == "error"@
                ||| key == "code"@
                ||| key == "reason"@
                ||| key == "done"@
                ||| key == "usage"@
                ||| key == "structured"@
                ||| key == "snapshot"@
                ||| key == "delta"@
            } ==> (#[trigger] a.contains_key(key) <==> b.contains_key(key)) && (a.contains_key(key)
                ==> a[key] == b[key]),
    ensures
        line_meaning(one) == line_meaning(other),
{
    assert(a.contains_key("error"@) <==> b.contains_key("error"@));
    assert(a.contains_key("code"@) <==> b.contains_key("code"@));
    assert(a.contains_key("reason"@) <==> b.contains_key("reason"@));
    assert(a.contains_key("done"@) <==> b.contains_key("done"@));
    assert(a.contains_key("usage"@) <==> b.contains_key("usage"@));
    assert(a.contains_key("structured"@) <==> b.contains_key("structured"@));
    assert(a.contains_key("snapshot"@) <==> b.contains_key("snapshot"@));
    assert(a.contains_key("delta"@) <==> b.contains_key("delta"@));
}

/// What is read off an object is what its members hold, each under its own key.
pub proof fn fields_are_read_off_their_own_members(
    v: serde_json::Value,
    members: JsonMembers,
    text: Seq<char>,
    value: serde_json::Value,
    truth: bool,
)
    requires
        shape(v) == Shape::Object(members),
    ensures
        ({
            &&& wire_event(v) matches Some(e)
            &&& e.error == Some(text) <==> says(members, "error"@, text)
            &&& e.code == Some(text) <==> says(members, "code"@, text)
            &&& e.reason == Some(text) <==> says(members, "reason"@, text)
            &&& e.delta == Some(text) <==> says(members, "delta"@, text)
            &&& e.done == Some(truth) <==> members.contains_key("done"@) && shape(members["done"@])
                == Shape::Bool(truth)
            &&& e.structured == Some(value) <==> members.contains_key("structured"@)
                && members["structured"@] == value
            &&& e.snapshot == Some(value) <==> members.contains_key("snapshot"@)
                && members["snapshot"@] == value
            &&& e.usage is Some <==> members.contains_key("usage"@)
            &&& e.usage matches Some(usage) ==> counts(
                members["usage"@],
                "promptTokens"@,
                usage.prompt_tokens,
            ) && counts(members["usage"@], "completionTokens"@, usage.completion_tokens)
            &&& e.ready <==> members.contains_key("ready"@)
        }),
{
}

/// A line is read as the object that it holds, whatever white space stands round it.
pub proof fn lines_are_read_as_their_object(line: Seq<char>, v: serde_json::Value)
    requires
        trimmed(line).len() > 0,
        parsed_json(trimmed(line)) == Some(v),
    ensures
        line_fields(line) == wire_event(v),
{
}

/// What is no object has no members to read.
pub proof fn only_objects_have_fields(v: serde_json::Value)
    ensures
        wire_event(v) is Some <==> shape(v) is Object,
{
}

/// What the fields of a line amount to goes by rank: a failure first, then the end, then the
/// finished object, then a snapshot, then a chunk, whatever its text; the fields below the first
/// that counts change nothing.
pub proof fn fields_count_by_rank(e: WireEventView, text: Seq<char>, value: serde_json::Value)
    ensures
        e.error is Some <==> interpretation(e) is Failure,
        interpretation(e) == LineView::Event(EventView::Structured(value)) <==> {
            &&& e.error is None
            &&& e.done != Some(true)
            &&& e.structured == Some(value)
        },
        interpretation(e) == LineView::Event(EventView::Snapshot(value)) <==> {
            &&& e.error is None
            &&& e.done != Some(true)
            &&& e.structured is None
            &&& e.snapshot == Some(value)
        },
        interpretation(e) == LineView::Event(EventView::Delta(text)) <==> {
            &&& e.error is None
            &&& e.done != Some(true)
            &&& e.structured is None
            &&& e.snapshot is None
            &&& e.delta == Some(text)
        },
        (interpretation(e) matches LineView::Event(event) && event is Done) <==> e.error is None
            && e.done == Some(true),
        e.error is None && e.done == Some(true) ==> (interpretation(e) matches LineView::Event(
            EventView::Done(usage),
        ) && (e.usage matches Some(sent) ==> usage == sent) && (e.usage is None ==> usage
            == (Usage { prompt_tokens: 0, completion_tokens: 0 }))),
        interpretation(e) is Nothing <==> {
            &&& e.error is None
            &&& e.done != Some(true)
            &&& e.structured is None
            &&& e.snapshot is None
            &&& e.delta is None
        },
        says_ready(e) <==> e.ready && e.error is None,
{
}

/// The failure that fields amount to is that of their code, with their message and their token; a
/// missing code gives a generation error.
pub proof fn failing_fields_give_the_error_of_their_code(e: WireEventView, message: Seq<char>)
    requires
        e.error == Some(message),
    ensures
        e.code matches Some(code) ==> interpretation(e) == LineView::Failure(
            code_error(code, message, e.reason),
        ),
        e.code is None ==> interpretation(e) == LineView::Failure(ErrorView::Generation(message)),
{
    codes_name_distinct_errors("generation_failed"@, message, e.reason);
    reveal_strlit("generation_failed");
    reveal_strlit("model_unavailable");
    reveal_strlit("bad_request");
    reveal_strlit("schema_invalid");
    reveal_strlit("guardrail_violation");
    reveal_strlit("context_exceeded");
    assert("generation_failed"@[0] == 'g');
    assert("model_unavailable"@[0] == 'm');
    assert("generation_failed"@.len() == 17);
}

/// The count under any key is the one that the value holds there, and those under `usage` are taken
/// from their own keys.
pub proof fn usage_is_counted(v: serde_json::Value, key: Seq<char>)
    ensures
        counts(v, key, clamped_count(u64_member(v, key))),
        counts(v, "promptTokens"@, usage_of(v).prompt_tokens),
        counts(v, "completionTokens"@, usage_of(v).completion_tokens),
{
}

/// What a line is read as is what the result holds: no event, that event, or that error.
pub proof fn results_of_reading_are_taken_as_they_are(event: StreamEvent, error: Error)
    ensures
        line_view(Ok(None)) is Nothing,
        line_view(Ok(Some(event))) == LineView::Event(event@),
        line_view(Err(error)) == LineView::Failure(error@),
{
}

/// The fields of a line are what they hold.
pub proof fn fields_are_what_they_hold(e: WireEvent)
    ensures
        e@.error is Some <==> e.error is Some,
        e@.code is Some <==> e.code is Some,
        e@.reason is Some <==> e.reason is Some,
        e@.delta is Some <==> e.delta is Some,
        e.error matches Some(text) ==> e@.error == Some(text@),
        e.code matches Some(text) ==> e@.code == Some(text@),
        e.reason matches Some(text) ==> e@.reason == Some(text@),
        e.delta matches Some(text) ==> e@.delta == Some(text@),
        e@.done == e.done,
        e@.usage == e.usage,
        e@.structured == e.structured,
        e@.snapshot == e.snapshot,
        e@.ready == e.ready,
{
}

} // verus!
