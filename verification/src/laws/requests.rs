//! Laws on requests, schemas and responses, and on what is wrong with them.
use vstd::prelude::*;

use crate::double::{greater, is_nan, Double};
use crate::error::{Error, ErrorView};
use crate::laws::numbers::{bits_say_what_a_double_is, doubles_below_zero_have_their_sign_set};
use crate::text::{blank, is_white_space};
use crate::types::{
    appends_message, empty_completion, is_bare, is_empty_request, no_usage,
    properties_view_is_elementwise, Completion, EventView, Message, MessageView, PropertyView,
    Request, RequestView, Role, Schema, SchemaProperty, SchemaType, SchemaView, StreamEvent,
};
use crate::validate::{
    first_fault, first_fault_is_the_earliest, property_fault, refuses, reports, request_fault,
    schema_fault, sound_temperature,
};

verus! {

/// A message is what its fields say.
pub proof fn a_message_is_what_its_fields_say(m: Message)
    ensures
        m@.role == m.role,
        m@.content == m.content@,
{
}

/// A request is what its fields say: all of its messages in order, and its options.
pub proof fn a_request_is_what_its_fields_say(r: Request, i: int)
    ensures
        r@.messages.len() == r.messages@.len(),
        0 <= i < r.messages@.len() ==> r@.messages[i].role == r.messages@[i].role
            && r@.messages[i].content == r.messages@[i].content@,
        r@.temperature == r.temperature,
        r@.max_tokens == r.max_tokens,
        r@.sampling == r.sampling,
        r.schema is None ==> r@.schema is None,
        r.schema matches Some(schema) ==> r@.schema == Some(schema@),
        r@.stream_structured == r.stream_structured,
{
}

/// A property is what its fields say, at every depth.
pub proof fn a_property_is_what_its_fields_say(p: SchemaProperty, i: int)
    ensures
        p@.name == p.name@,
        p@.property_type == p.property_type,
        p@.optional == p.optional,
        match p.description {
            Some(text) => p@.description == Some(text@),
            None => p@.description is None,
        },
        match p.pattern {
            Some(text) => p@.pattern == Some(text@),
            None => p@.pattern is None,
        },
        match p.properties {
            Some(nested) => {
                &&& p@.properties matches Some(views)
                &&& views.len() == nested@.len()
                &&& 0 <= i < nested@.len() ==> views[i] == nested@[i]@
            },
            None => p@.properties is None,
        },
        match p.items {
            Some(items) => p@.items matches Some(view) && *view == (*items)@,
            None => p@.items is None,
        },
        match p.range {
            Some(bounds) => p@.range == Some((bounds@[0], bounds@[1])),
            None => p@.range is None,
        },
        match p.any_of {
            Some(texts) => {
                &&& p@.any_of matches Some(views)
                &&& views.len() == texts@.len()
                &&& 0 <= i < texts@.len() ==> views[i] == texts@[i]@
            },
            None => p@.any_of is None,
        },
        match p.count {
            Some(bounds) => p@.count == Some((bounds@[0], bounds@[1])),
            None => p@.count is None,
        },
{
    if let Some(nested) = p.properties {
        properties_view_is_elementwise(nested@);
    }
}

/// A schema is what its fields say.
pub proof fn a_schema_is_what_its_fields_say(s: Schema, i: int)
    ensures
        s@.name == s.name@,
        match s.description {
            Some(text) => s@.description == Some(text@),
            None => s@.description is None,
        },
        s@.properties.len() == s.properties@.len(),
        0 <= i < s.properties@.len() ==> s@.properties[i] == s.properties@[i]@,
{
    properties_view_is_elementwise(s.properties@);
}

/// A response is what its fields say, and an empty one holds nothing.
pub proof fn a_response_is_what_its_fields_say(c: Completion)
    ensures
        c@.text == c.text@,
        c@.structured == c.structured,
        c@.usage == c.usage,
        empty_completion().text.len() == 0,
        empty_completion().structured is None,
        empty_completion().usage.prompt_tokens == 0,
        empty_completion().usage.completion_tokens == 0,
        no_usage().prompt_tokens == 0,
        no_usage().completion_tokens == 0,
{
}

/// An event is what it holds.
pub proof fn an_event_is_what_it_holds(event: StreamEvent)
    ensures
        match event {
            StreamEvent::Delta(text) => event@ == EventView::Delta(text@),
            StreamEvent::Snapshot(value) => event@ == EventView::Snapshot(value),
            StreamEvent::Structured(value) => event@ == EventView::Structured(value),
            StreamEvent::Done(usage) => event@ == EventView::Done(usage),
        },
{
}

/// A bare property has its name and its type and is not constrained in any way.
pub proof fn a_bare_property_is_unconstrained(
    p: SchemaProperty,
    name: Seq<char>,
    property_type: SchemaType,
)
    requires
        is_bare(p, name, property_type),
    ensures
        p@.name == name,
        p@.property_type == property_type,
        p@.description is None && p@.properties is None && p@.items is None && p@.range is None,
        p@.any_of is None && p@.pattern is None && p@.count is None && !p@.optional,
{
}

/// An empty request asks for nothing.
pub proof fn an_empty_request_asks_for_nothing(r: Request)
    requires
        is_empty_request(r),
    ensures
        r@.messages.len() == 0,
        r@.temperature is None && r@.max_tokens is None && r@.sampling is None && r@.schema is None,
        !r@.stream_structured,
{
}

/// Appending a message puts it at the end, with its author and its text, and changes nothing else.
pub proof fn an_appended_message_comes_last(
    before: Request,
    after: Request,
    role: Role,
    content: Seq<char>,
)
    requires
        appends_message(before, after, role, content),
    ensures
        after@.messages == before@.messages.push(MessageView { role, content }),
        after.temperature == before.temperature,
        after.max_tokens == before.max_tokens,
        after.sampling == before.sampling,
        after.schema == before.schema,
        after.stream_structured == before.stream_structured,
{
    assert forall|i: int| 0 <= i < before.messages@.len() implies after.messages@[i]
        == before.messages@[i] by {
        assert(after.messages@.drop_last()[i] == after.messages@[i]);
    }
    assert(after@.messages =~= before@.messages.push(MessageView { role, content }));
}

/// Whether a text has a character that is no white space.
pub open spec fn has_letters(s: Seq<char>) -> bool {
    exists|i: int| 0 <= i < s.len() && !is_white_space(#[trigger] s[i])
}

/// Whether a count lies within bounds.
pub open spec fn fits(n: int, min: usize, max: usize) -> bool {
    min <= n <= max
}

/// A list with bounds on its count is refused exactly where no count fits them: equal bounds pass.
pub proof fn counts_are_refused_only_where_none_fits(p: PropertyView, min: usize, max: usize)
    requires
        has_letters(p.name),
        p.property_type == SchemaType::Array,
        p.items matches Some(items) && property_fault(*items) is None,
        p.count == Some((Some(min), Some(max))),
    ensures
        property_fault(p) is None <==> exists|n: int| #[trigger] fits(n, min, max),
        property_fault(p) is Some ==> property_fault(p) == Some(
            "array property '"@ + p.name + "' has min count > max count"@,
        ),
{
    if min <= max {
        assert(fits(min as int, min, max));
    }
}

/// A list without an element schema is refused, one with a faulty element schema is refused for
/// that, and one with an open bound on its count, or none, is refused for nothing else.
pub proof fn lists_are_as_sound_as_their_elements(p: PropertyView)
    requires
        has_letters(p.name),
        p.property_type == SchemaType::Array,
    ensures
        p.items is None ==> property_fault(p) == Some(
            "array property '"@ + p.name + "' is missing `items`"@,
        ),
        p.items matches Some(items) ==> property_fault(*items) is Some ==> property_fault(p)
            == property_fault(*items),
        p.items matches Some(items) ==> property_fault(*items) is None && !(p.count matches Some(
            (Some(_), Some(_)),
        )) ==> property_fault(p) is None,
{
}

/// A number with bounds is refused exactly where both bounds are numbers and the lower one lies
/// above the upper one: equal bounds pass, and so does what is not a number.
pub proof fn ranges_are_refused_only_where_inverted(p: PropertyView, min: Double, max: Double)
    requires
        has_letters(p.name),
        p.property_type == SchemaType::Integer || p.property_type == SchemaType::Number,
    ensures
        p.range is None ==> property_fault(p) is None,
        p.range == Some((min, max)) ==> (property_fault(p) is Some <==> greater(
            min.bits,
            max.bits,
        )),
        p.range == Some((min, max)) && (min.bits == max.bits || is_nan(min.bits) || is_nan(
            max.bits,
        )) ==> property_fault(p) is None,
        property_fault(p) is Some ==> property_fault(p) == Some(
            "property '"@ + p.name + "' has an inverted range"@,
        ),
{
}

/// A text or a truth value that has a name is never refused, whatever bounds it carries.
pub proof fn bounds_that_do_not_apply_are_not_looked_at(p: PropertyView)
    requires
        has_letters(p.name),
        p.property_type == SchemaType::String || p.property_type == SchemaType::Boolean,
    ensures
        property_fault(p) is None,
{
}

/// An object is refused where it has no fields, and else exactly where one of its fields is; the
/// first of these says why.
pub proof fn objects_are_as_sound_as_their_fields(p: PropertyView, i: int)
    requires
        has_letters(p.name),
        p.property_type == SchemaType::Object,
    ensures
        p.properties is None || p.properties->0.len() == 0 ==> property_fault(p) == Some(
            "object property '"@ + p.name + "' has no nested properties"@,
        ),
        p.properties matches Some(nested) ==> nested.len() > 0 ==> {
            &&& property_fault(p) is None <==> forall|j: int|
                0 <= j < nested.len() ==> property_fault(#[trigger] nested[j]) is None
            &&& 0 <= i < nested.len() && property_fault(nested[i]) is Some && (forall|j: int|
                0 <= j < i ==> property_fault(#[trigger] nested[j]) is None) ==> property_fault(p)
                == property_fault(nested[i])
        },
{
    if let Some(nested) = p.properties {
        first_fault_is_the_earliest(nested);
        if first_fault(nested) is Some && 0 <= i < nested.len() && property_fault(nested[i]) is Some
            && (forall|j: int| 0 <= j < i ==> property_fault(#[trigger] nested[j]) is None) {
            let fault = first_fault(nested)->0;
            let at = choose|at: int|
                {
                    &&& 0 <= at < nested.len()
                    &&& property_fault(#[trigger] nested[at]) == Some(fault)
                    &&& forall|j: int| 0 <= j < at ==> property_fault(#[trigger] nested[j]) is None
                };
            assert(at == i);
        }
    }
}

/// A property without a name is refused for that, whatever else is wrong with it.
pub proof fn properties_need_a_name(p: PropertyView)
    ensures
        !has_letters(p.name) ==> property_fault(p) == Some("a schema property has an empty name"@),
{
    assert(!has_letters(p.name) ==> blank(p.name));
}

/// A schema is refused where it has no name, else where it has no fields, and else exactly where
/// one of its fields is; the first of these says why.
pub proof fn schemas_are_as_sound_as_their_fields(s: SchemaView, i: int)
    ensures
        !has_letters(s.name) ==> schema_fault(s) == Some("schema name must not be empty"@),
        has_letters(s.name) && s.properties.len() == 0 ==> schema_fault(s) == Some(
            "schema '"@ + s.name + "' declares no properties"@,
        ),
        has_letters(s.name) && s.properties.len() > 0 ==> {
            &&& schema_fault(s) is None <==> forall|j: int|
                0 <= j < s.properties.len() ==> property_fault(#[trigger] s.properties[j]) is None
            &&& 0 <= i < s.properties.len() && property_fault(s.properties[i]) is Some && (forall|
                j: int,
            |
                0 <= j < i ==> property_fault(#[trigger] s.properties[j]) is None) ==> schema_fault(
                s,
            ) == property_fault(s.properties[i])
        },
{
    assert(!has_letters(s.name) ==> blank(s.name));
    let ps = s.properties;
    first_fault_is_the_earliest(ps);
    if first_fault(ps) is Some && 0 <= i < ps.len() && property_fault(ps[i]) is Some && (forall|
        j: int,
    |
        0 <= j < i ==> property_fault(#[trigger] ps[j]) is None) {
        let fault = first_fault(ps)->0;
        let at = choose|at: int|
            {
                &&& 0 <= at < ps.len()
                &&& property_fault(#[trigger] ps[at]) == Some(fault)
                &&& forall|j: int| 0 <= j < at ==> property_fault(#[trigger] ps[j]) is None
            };
        assert(at == i);
    }
}

/// A temperature is sound exactly where its bits are those of a finite number from zero up, or of
/// negative zero.
pub proof fn temperatures_are_finite_and_not_negative(t: Double)
    ensures
        sound_temperature(t) <==> t.bits <= 0x7fef_ffff_ffff_ffff || t.bits
            == 0x8000_0000_0000_0000,
{
    bits_say_what_a_double_is(t.bits);
    if !is_nan(t.bits) {
        doubles_below_zero_have_their_sign_set(t.bits);
    }
}

/// Whether somebody other than the system speaks.
pub open spec fn somebody_speaks(messages: Seq<MessageView>) -> bool {
    exists|i: int|
        0 <= i < messages.len() && ((#[trigger] messages[i]).role == Role::User || messages[i].role
            == Role::Assistant)
}

/// Whether something is said.
pub open spec fn something_is_said(messages: Seq<MessageView>) -> bool {
    exists|i: int| 0 <= i < messages.len() && has_letters((#[trigger] messages[i]).content)
}

/// A request is refused for the first of these, and for nothing else: nobody but the system speaks;
/// nothing is said; the temperature is not finite or negative; the schema is faulty.
pub proof fn requests_are_refused_for_the_first_complaint(r: RequestView)
    ensures
        ({
            let cold = r.temperature matches Some(t) && t.bits > 0x7fef_ffff_ffff_ffff && t.bits
                != 0x8000_0000_0000_0000;
            let speaks = somebody_speaks(r.messages);
            let said = something_is_said(r.messages);
            &&& !speaks ==> request_fault(r) == Some(
                ErrorView::BadRequest("request needs at least one user or assistant message"@),
            )
            &&& speaks && !said ==> request_fault(r) == Some(
                ErrorView::BadRequest("all messages are empty"@),
            )
            &&& speaks && said && cold ==> request_fault(r) == Some(
                ErrorView::BadRequest("temperature must be a finite, non-negative number"@),
            )
            &&& speaks && said && !cold ==> match r.schema {
                None => request_fault(r) is None,
                Some(schema) => match schema_fault(schema) {
                    None => request_fault(r) is None,
                    Some(why) => request_fault(r) == Some(ErrorView::InvalidSchema(why)),
                },
            }
        }),
{
    if let Some(t) = r.temperature {
        temperatures_are_finite_and_not_negative(t);
    }
    let messages = r.messages;
    assert(crate::validate::has_turn(messages) <==> somebody_speaks(messages)) by {
        if crate::validate::has_turn(messages) {
            let i = choose|i: int|
                0 <= i < messages.len() && (#[trigger] messages[i]).role != Role::System;
            assert(messages[i].role == Role::User || messages[i].role == Role::Assistant);
        }
        if somebody_speaks(messages) {
            let i = choose|i: int|
                0 <= i < messages.len() && ((#[trigger] messages[i]).role == Role::User
                    || messages[i].role == Role::Assistant);
            assert(messages[i].role != Role::System);
        }
    }
    assert(crate::validate::all_blank(messages) <==> !something_is_said(messages)) by {
        if !crate::validate::all_blank(messages) {
            let i = choose|i: int|
                0 <= i < messages.len() && !blank((#[trigger] messages[i]).content);
            assert(has_letters(messages[i].content));
        }
        if something_is_said(messages) {
            let i = choose|i: int|
                0 <= i < messages.len() && has_letters((#[trigger] messages[i]).content);
            assert(!blank(messages[i].content));
        }
    }
}

/// A check succeeds exactly where there is no fault, and gives the fault where there is one.
pub proof fn checks_give_the_fault(
    why: String,
    error: Error,
    fault: Option<Seq<char>>,
    refusal: Option<ErrorView>,
)
    ensures
        reports(Ok(()), fault) <==> fault is None,
        reports(Err(why), fault) <==> fault == Some(why@),
        refuses(Ok(()), refusal) <==> refusal is None,
        refuses(Err(error), refusal) <==> refusal == Some(error@),
{
}

} // verus!
