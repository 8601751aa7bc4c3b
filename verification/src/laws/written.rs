//! Laws on what is written for the helper.
use vstd::prelude::*;

use crate::laws::requests::a_request_is_what_its_fields_say;
use crate::session::{sent_for, TaskView};
use crate::types::{
    MessageView, PropertyView, Request, RequestView, Role, Sampling, SchemaType, SchemaView,
};
use crate::wire::{
    keys_differ, list_view, lookup, members_view, message_document, messages_document, on_the_wire,
    property_document, property_documents, property_members, property_members_say_what_is_set,
    request_document, request_members, request_members_say_what_is_set, role_word, schema_document,
    type_word, wire_view, Members, WireRequest, WireRequestView, WireValue, WireView,
};

verus! {

/// Everything that is set in a request goes on the wire as it is, whether it streams or not: every
/// message with its author and its text, in order, the temperature, the cap, the schema, and of the
/// strategy the number of candidates with the seed, or the greedy flag.
pub proof fn the_whole_request_is_sent(request: Request, stream: bool, i: int)
    ensures
        ({
            let wire = on_the_wire(request@, stream);
            &&& wire.messages.len() == request.messages@.len()
            &&& 0 <= i < request.messages@.len() ==> wire.messages[i].role
                == request.messages@[i].role && wire.messages[i].content
                == request.messages@[i].content@
            &&& wire.stream == stream
            &&& wire.temperature == request.temperature
            &&& wire.max_tokens == request.max_tokens
            &&& request.schema is None ==> wire.schema is None
            &&& request.schema matches Some(schema) ==> wire.schema == Some(schema@)
            &&& request.sampling matches Some(Sampling::TopK { top, seed }) ==> wire.top_k == Some(
                top,
            ) && wire.seed == seed && wire.greedy is None
            &&& request.sampling == Some(Sampling::Greedy) ==> wire.greedy == Some(true)
                && wire.top_k is None && wire.seed is None
            &&& request.sampling is None ==> wire.greedy is None && wire.top_k is None && wire.seed
                is None
            &&& wire.stream_structured <==> request.stream_structured && stream
        }),
{
    a_request_is_what_its_fields_say(request, i);
}

/// The same of a request as a mathematical value: nothing of it is lost or changed on the wire.
pub proof fn nothing_of_a_request_is_lost(r: RequestView, stream: bool)
    ensures
        on_the_wire(r, stream).messages == r.messages,
        on_the_wire(r, stream).temperature == r.temperature,
        on_the_wire(r, stream).max_tokens == r.max_tokens,
        on_the_wire(r, stream).schema == r.schema,
        r.sampling matches Some(Sampling::TopK { top, seed }) ==> on_the_wire(r, stream).top_k
            == Some(top) && on_the_wire(r, stream).seed == seed,
{
}

/// Whatever is wanted of the helper, the whole request is sent for it; a probe sends none. What is
/// collected streams exactly where it is text, and what is streamed always does.
pub proof fn the_whole_request_is_sent_for_a_task(r: RequestView)
    ensures
        sent_for(TaskView::Probe) is None,
        ({
            &&& sent_for(TaskView::Complete(r)) matches Some(wire)
            &&& wire.messages == r.messages
            &&& wire.temperature == r.temperature
            &&& wire.max_tokens == r.max_tokens
            &&& wire.schema == r.schema
            &&& wire.stream <==> r.schema is None
            &&& r.sampling matches Some(Sampling::TopK { top, seed }) ==> wire.top_k == Some(top)
                && wire.seed == seed
            &&& wire.greedy is Some <==> r.sampling == Some(Sampling::Greedy)
            &&& wire.stream_structured <==> r.stream_structured && r.schema is None
        }),
        ({
            &&& sent_for(TaskView::Stream(r)) matches Some(wire)
            &&& wire.messages == r.messages
            &&& wire.temperature == r.temperature
            &&& wire.max_tokens == r.max_tokens
            &&& wire.schema == r.schema
            &&& wire.stream
            &&& r.sampling matches Some(Sampling::TopK { top, seed }) ==> wire.top_k == Some(top)
                && wire.seed == seed
            &&& wire.greedy is Some <==> r.sampling == Some(Sampling::Greedy)
            &&& wire.stream_structured <==> r.stream_structured
        }),
{
}

/// Two requests that differ in anything that matters to the helper differ on the wire.
pub proof fn different_requests_are_sent_differently(a: RequestView, b: RequestView)
    requires
        on_the_wire(a, true) == on_the_wire(b, true),
    ensures
        a.messages == b.messages,
        a.temperature == b.temperature,
        a.max_tokens == b.max_tokens,
        a.sampling == b.sampling,
        a.schema == b.schema,
        a.stream_structured == b.stream_structured,
{
}

/// A request in the terms of the wire is what its fields say.
pub proof fn a_wire_request_is_what_its_fields_say(w: WireRequest<'_>, i: int)
    ensures
        w@.messages.len() == w.messages@.len(),
        0 <= i < w.messages@.len() ==> w@.messages[i].role == w.messages@[i].role
            && w@.messages[i].content == w.messages@[i].content@,
        w@.stream == w.stream,
        w@.temperature == w.temperature,
        w@.max_tokens == w.max_tokens,
        w@.top_k == w.top_k,
        w@.seed == w.seed,
        w@.greedy == w.greedy,
        w.schema is None ==> w@.schema is None,
        w.schema matches Some(schema) ==> w@.schema == Some(schema@),
        w@.stream_structured == w.stream_structured,
{
}

/// Each author has a word of their own.
pub proof fn each_role_has_its_word(role: Role)
    ensures
        role_word(role) == "system"@ <==> role == Role::System,
        role_word(role) == "user"@ <==> role == Role::User,
        role_word(role) == "assistant"@ <==> role == Role::Assistant,
{
    reveal_strlit("system");
    reveal_strlit("user");
    reveal_strlit("assistant");
    assert("system"@.len() == 6 && "user"@.len() == 4 && "assistant"@.len() == 9);
}

/// Each type has a word of its own, so that the words of two types differ.
pub proof fn each_type_has_its_word(t: SchemaType)
    ensures
        type_word(t) == "string"@ <==> t == SchemaType::String,
        type_word(t) == "integer"@ <==> t == SchemaType::Integer,
        type_word(t) == "number"@ <==> t == SchemaType::Number,
        type_word(t) == "boolean"@ <==> t == SchemaType::Boolean,
        type_word(t) == "object"@ <==> t == SchemaType::Object,
        type_word(t) == "array"@ <==> t == SchemaType::Array,
        forall|other: SchemaType| #[trigger] type_word(other) == type_word(t) ==> other == t,
{
    reveal_strlit("string");
    reveal_strlit("integer");
    reveal_strlit("number");
    reveal_strlit("boolean");
    reveal_strlit("object");
    reveal_strlit("array");
    assert("string"@.len() == 6 && "number"@.len() == 6 && "object"@.len() == 6);
    assert("integer"@.len() == 7 && "boolean"@.len() == 7 && "array"@.len() == 5);
    assert("string"@[0] == 's' && "number"@[0] == 'n' && "object"@[0] == 'o');
    assert("integer"@[0] == 'i' && "boolean"@[0] == 'b');
}

/// What an object holds under a key is the member of that name.
pub proof fn lookup_finds_every_member(members: Members, i: int)
    requires
        keys_differ(members),
        0 <= i < members.len(),
    ensures
        lookup(members, members[i].0) == Some(members[i].1),
    decreases members.len(),
{
    let front = members.drop_last();
    if i < front.len() {
        assert(keys_differ(front)) by {
            assert forall|a: int, b: int| 0 <= a < b < front.len() implies (#[trigger] front[a]).0
                != (#[trigger] front[b]).0 by {
                assert(front[a] == members[a] && front[b] == members[b]);
            }
        }
        assert(front[i] == members[i]);
        lookup_finds_every_member(front, i);
    } else {
        lookup_finds_only_members(front, members[i].0);
        if lookup(front, members[i].0) is Some {
            let j = choose|j: int|
                0 <= j < front.len() && #[trigger] front[j] == (
                    members[i].0,
                    lookup(front, members[i].0)->0,
                );
            assert(members[j].0 == members[i].0);
        }
    }
}

/// What is found under a key is one of the members, under that name.
pub proof fn lookup_finds_only_members(members: Members, key: Seq<char>)
    ensures
        lookup(members, key) matches Some(value) ==> exists|i: int|
            0 <= i < members.len() && #[trigger] members[i] == (key, value),
    decreases members.len(),
{
    if members.len() > 0 {
        let front = members.drop_last();
        lookup_finds_only_members(front, key);
        if lookup(front, key) is Some {
            let value = lookup(front, key)->0;
            let i = choose|i: int| 0 <= i < front.len() && #[trigger] front[i] == (key, value);
            assert(members[i] == (key, value));
        } else if members.last().0 == key {
            assert(members[members.len() - 1] == (key, members.last().1));
        }
    }
}

/// A message is written with the word of its author and with its whole text.
pub proof fn messages_are_written_whole(m: MessageView)
    ensures
        ({
            &&& message_document(m) matches WireView::Object(members)
            &&& members.len() == 2
            &&& members[0].0 == "role"@
            &&& members[1].0 == "content"@
            &&& members[0].1 == WireView::Text("system"@) <==> m.role == Role::System
            &&& members[0].1 == WireView::Text("user"@) <==> m.role == Role::User
            &&& members[0].1 == WireView::Text("assistant"@) <==> m.role == Role::Assistant
            &&& members[1].1 == WireView::Text(m.content)
        }),
{
    each_role_has_its_word(m.role);
}

/// Every message of a conversation is written, in order.
pub proof fn conversations_are_written_in_order(messages: Seq<MessageView>, i: int)
    ensures
        ({
            &&& messages_document(messages) matches WireView::List(written)
            &&& written.len() == messages.len()
            &&& 0 <= i < messages.len() ==> written[i] == message_document(messages[i])
        }),
{
}

/// Every property of a list is written, in order.
pub proof fn properties_are_written_in_order(ps: Seq<PropertyView>)
    ensures
        property_documents(ps).len() == ps.len(),
        forall|i: int|
            0 <= i < ps.len() ==> #[trigger] property_documents(ps)[i] == property_document(ps[i]),
    decreases ps.len(),
{
    if ps.len() > 0 {
        properties_are_written_in_order(ps.drop_last());
    }
}

/// A property is written with its name and under `type` the word of its own type.
pub proof fn properties_are_written_with_their_type(p: PropertyView)
    ensures
        ({
            &&& property_document(p) matches WireView::Object(members)
            &&& keys_differ(members)
            &&& lookup(members, "name"@) == Some(WireView::Text(p.name))
            &&& lookup(members, "type"@) matches Some(WireView::Text(word))
            &&& word == "string"@ <==> p.property_type == SchemaType::String
            &&& word == "integer"@ <==> p.property_type == SchemaType::Integer
            &&& word == "number"@ <==> p.property_type == SchemaType::Number
            &&& word == "boolean"@ <==> p.property_type == SchemaType::Boolean
            &&& word == "object"@ <==> p.property_type == SchemaType::Object
            &&& word == "array"@ <==> p.property_type == SchemaType::Array
        }),
{
    property_members_say_what_is_set(p, "name"@);
    property_members_say_what_is_set(p, "type"@);
    each_type_has_its_word(p.property_type);
    lemma_property_keys();
}

proof fn lemma_property_keys()
    ensures
        "name"@ != "type"@,
        "name"@ != "description"@,
        "name"@ != "pattern"@,
        "type"@ != "description"@,
        "type"@ != "pattern"@,
        "description"@ != "pattern"@,
        "properties"@ != "name"@,
        "properties"@ != "description"@,
        "properties"@ != "type"@,
        "items"@ != "name"@,
        "items"@ != "description"@,
        "items"@ != "type"@,
        "items"@ != "properties"@,
        "range"@ != "name"@,
        "range"@ != "description"@,
        "range"@ != "type"@,
        "range"@ != "properties"@,
        "range"@ != "items"@,
        "anyOf"@ != "name"@,
        "anyOf"@ != "description"@,
        "anyOf"@ != "type"@,
        "anyOf"@ != "properties"@,
        "anyOf"@ != "items"@,
        "anyOf"@ != "range"@,
        "pattern"@ != "properties"@,
        "pattern"@ != "items"@,
        "pattern"@ != "range"@,
        "pattern"@ != "anyOf"@,
        "count"@ != "name"@,
        "count"@ != "description"@,
        "count"@ != "type"@,
        "count"@ != "properties"@,
        "count"@ != "items"@,
        "count"@ != "range"@,
        "count"@ != "anyOf"@,
        "count"@ != "pattern"@,
        "optional"@ != "name"@,
        "optional"@ != "description"@,
        "optional"@ != "type"@,
        "optional"@ != "properties"@,
        "optional"@ != "items"@,
        "optional"@ != "range"@,
        "optional"@ != "anyOf"@,
        "optional"@ != "pattern"@,
        "optional"@ != "count"@,
{
    reveal_strlit("name");
    reveal_strlit("description");
    reveal_strlit("type");
    reveal_strlit("properties");
    reveal_strlit("items");
    reveal_strlit("range");
    reveal_strlit("anyOf");
    reveal_strlit("pattern");
    reveal_strlit("count");
    reveal_strlit("optional");
    assert("name"@.len() == 4 && "description"@.len() == 11 && "type"@.len() == 4
        && "properties"@.len() == 10 && "items"@.len() == 5 && "range"@.len() == 5
        && "anyOf"@.len() == 5 && "pattern"@.len() == 7 && "count"@.len() == 5
        && "optional"@.len() == 8);
    assert("name"@[0] == 'n' && "type"@[0] == 't');
    assert("items"@[0] == 'i' && "range"@[0] == 'r' && "anyOf"@[0] == 'a' && "count"@[0] == 'c');
}

/// Whether a document is one end of the bounds on a count: that number, or `null` for none.
pub open spec fn writes_bound(document: WireView, bound: Option<usize>) -> bool {
    match bound {
        Some(n) => document matches WireView::Unsigned(written) && written == n,
        None => document is Null,
    }
}

/// A property is written with every constraint that is set and with no other: the hint, the nested
/// fields in order, the element schema, both bounds of a range, every choice in order, the regular
/// expression, both bounds of a count, and whether it may be left out.
pub proof fn properties_are_written_with_their_constraints(p: PropertyView, i: int)
    ensures
        ({
            let members = property_members(p);
            &&& property_document(p) == WireView::Object(members)
            &&& match p.description {
                Some(text) => lookup(members, "description"@) == Some(WireView::Text(text)),
                None => lookup(members, "description"@) is None,
            }
            &&& match p.properties {
                Some(nested) => {
                    &&& lookup(members, "properties"@) matches Some(WireView::List(written))
                    &&& written.len() == nested.len()
                    &&& 0 <= i < nested.len() ==> written[i] == property_document(nested[i])
                },
                None => lookup(members, "properties"@) is None,
            }
            &&& match p.items {
                Some(items) => lookup(members, "items"@) == Some(property_document(*items)),
                None => lookup(members, "items"@) is None,
            }
            &&& match p.range {
                Some((min, max)) => {
                    &&& lookup(members, "range"@) matches Some(WireView::List(written))
                    &&& written.len() == 2
                    &&& written[0] == WireView::Double(min)
                    &&& written[1] == WireView::Double(max)
                },
                None => lookup(members, "range"@) is None,
            }
            &&& match p.any_of {
                Some(texts) => {
                    &&& lookup(members, "anyOf"@) matches Some(WireView::List(written))
                    &&& written.len() == texts.len()
                    &&& 0 <= i < texts.len() ==> written[i] == WireView::Text(texts[i])
                },
                None => lookup(members, "anyOf"@) is None,
            }
            &&& match p.pattern {
                Some(text) => lookup(members, "pattern"@) == Some(WireView::Text(text)),
                None => lookup(members, "pattern"@) is None,
            }
            &&& match p.count {
                Some((min, max)) => {
                    &&& lookup(members, "count"@) matches Some(WireView::List(written))
                    &&& written.len() == 2
                    &&& writes_bound(written[0], min)
                    &&& writes_bound(written[1], max)
                },
                None => lookup(members, "count"@) is None,
            }
            &&& if p.optional {
                lookup(members, "optional"@) == Some(WireView::Bool(true))
            } else {
                lookup(members, "optional"@) is None
            }
        }),
{
    property_members_say_what_is_set(p, "description"@);
    property_members_say_what_is_set(p, "properties"@);
    property_members_say_what_is_set(p, "items"@);
    property_members_say_what_is_set(p, "range"@);
    property_members_say_what_is_set(p, "anyOf"@);
    property_members_say_what_is_set(p, "pattern"@);
    property_members_say_what_is_set(p, "count"@);
    property_members_say_what_is_set(p, "optional"@);
    lemma_property_keys();
    if let Some(nested) = p.properties {
        properties_are_written_in_order(nested);
    }
}

/// A property holds no member but those that a property can have.
pub proof fn properties_are_written_with_nothing_else(p: PropertyView, key: Seq<char>)
    requires
        lookup(property_members(p), key) is Some,
    ensures
        ({
            ||| key == "name"@
            ||| key == "description"@
            ||| key == "type"@
            ||| key == "properties"@
            ||| key == "items"@
            ||| key == "range"@
            ||| key == "anyOf"@
            ||| key == "pattern"@
            ||| key == "count"@
            ||| key == "optional"@
        }),
{
    property_members_say_what_is_set(p, key);
}

/// A schema is written with its name, its description where it has one, and every field in order.
pub proof fn schemas_are_written_whole(s: SchemaView, i: int)
    ensures
        ({
            &&& schema_document(s) matches WireView::Object(members)
            &&& members[0] == ("name"@, WireView::Text(s.name))
            &&& members.last().0 == "properties"@
            &&& members.last().1 matches WireView::List(written)
            &&& written.len() == s.properties.len()
            &&& 0 <= i < s.properties.len() ==> written[i] == property_document(s.properties[i])
            &&& match s.description {
                Some(text) => members.len() == 3 && members[1] == (
                    "description"@,
                    WireView::Text(text),
                ),
                None => members.len() == 2,
            }
        }),
{
    properties_are_written_in_order(s.properties);
}

proof fn lemma_request_keys()
    ensures
        "stream"@ != "messages"@,
        "temperature"@ != "messages"@,
        "temperature"@ != "stream"@,
        "maxTokens"@ != "messages"@,
        "maxTokens"@ != "stream"@,
        "maxTokens"@ != "temperature"@,
        "topK"@ != "messages"@,
        "topK"@ != "stream"@,
        "topK"@ != "temperature"@,
        "topK"@ != "maxTokens"@,
        "seed"@ != "messages"@,
        "seed"@ != "stream"@,
        "seed"@ != "temperature"@,
        "seed"@ != "maxTokens"@,
        "seed"@ != "topK"@,
        "greedy"@ != "messages"@,
        "greedy"@ != "stream"@,
        "greedy"@ != "temperature"@,
        "greedy"@ != "maxTokens"@,
        "greedy"@ != "topK"@,
        "greedy"@ != "seed"@,
        "schema"@ != "messages"@,
        "schema"@ != "stream"@,
        "schema"@ != "temperature"@,
        "schema"@ != "maxTokens"@,
        "schema"@ != "topK"@,
        "schema"@ != "seed"@,
        "schema"@ != "greedy"@,
        "streamStructured"@ != "messages"@,
        "streamStructured"@ != "stream"@,
        "streamStructured"@ != "temperature"@,
        "streamStructured"@ != "maxTokens"@,
        "streamStructured"@ != "topK"@,
        "streamStructured"@ != "seed"@,
        "streamStructured"@ != "greedy"@,
        "streamStructured"@ != "schema"@,
{
    reveal_strlit("messages");
    reveal_strlit("stream");
    reveal_strlit("temperature");
    reveal_strlit("maxTokens");
    reveal_strlit("topK");
    reveal_strlit("seed");
    reveal_strlit("greedy");
    reveal_strlit("schema");
    reveal_strlit("streamStructured");
    assert("messages"@.len() == 8 && "stream"@.len() == 6 && "temperature"@.len() == 11
        && "maxTokens"@.len() == 9 && "topK"@.len() == 4 && "seed"@.len() == 4 && "greedy"@.len()
        == 6 && "schema"@.len() == 6 && "streamStructured"@.len() == 16);
    assert("topK"@[0] == 't' && "seed"@[0] == 's' && "greedy"@[0] == 'g');
    assert("stream"@[0] == 's' && "schema"@[0] == 's' && "stream"@[1] == 't' && "schema"@[1] == 'c');
}

/// A request is written with every message in order, with whether it streams, and with every option
/// that is set under its own key; an option that is not set is not written.
pub proof fn requests_are_written_whole(w: WireRequestView, i: int)
    ensures
        ({
            let members = request_members(w);
            &&& request_document(w) == WireView::Object(members)
            &&& lookup(members, "messages"@) matches Some(WireView::List(written))
            &&& written.len() == w.messages.len()
            &&& 0 <= i < w.messages.len() ==> written[i] == message_document(w.messages[i])
            &&& lookup(members, "stream"@) == Some(WireView::Bool(w.stream))
            &&& match w.temperature {
                Some(t) => lookup(members, "temperature"@) == Some(WireView::Double(t)),
                None => lookup(members, "temperature"@) is None,
            }
            &&& match w.max_tokens {
                Some(n) => lookup(members, "maxTokens"@) matches Some(WireView::Unsigned(m)) && m
                    == n,
                None => lookup(members, "maxTokens"@) is None,
            }
            &&& match w.top_k {
                Some(n) => lookup(members, "topK"@) matches Some(WireView::Unsigned(m)) && m == n,
                None => lookup(members, "topK"@) is None,
            }
            &&& match w.seed {
                Some(n) => lookup(members, "seed"@) matches Some(WireView::Unsigned(m)) && m == n,
                None => lookup(members, "seed"@) is None,
            }
            &&& match w.greedy {
                Some(truth) => lookup(members, "greedy"@) == Some(WireView::Bool(truth)),
                None => lookup(members, "greedy"@) is None,
            }
            &&& match w.schema {
                Some(schema) => lookup(members, "schema"@) == Some(schema_document(schema)),
                None => lookup(members, "schema"@) is None,
            }
            &&& if w.stream_structured {
                lookup(members, "streamStructured"@) == Some(WireView::Bool(true))
            } else {
                lookup(members, "streamStructured"@) is None
            }
        }),
{
    request_members_say_what_is_set(w, "messages"@);
    request_members_say_what_is_set(w, "stream"@);
    request_members_say_what_is_set(w, "temperature"@);
    request_members_say_what_is_set(w, "maxTokens"@);
    request_members_say_what_is_set(w, "topK"@);
    request_members_say_what_is_set(w, "seed"@);
    request_members_say_what_is_set(w, "greedy"@);
    request_members_say_what_is_set(w, "schema"@);
    request_members_say_what_is_set(w, "streamStructured"@);
    lemma_request_keys();
    conversations_are_written_in_order(w.messages, i);
}

/// A request holds no member but those that a request can have.
pub proof fn requests_are_written_with_nothing_else(w: WireRequestView, key: Seq<char>)
    requires
        lookup(request_members(w), key) is Some,
    ensures
        ({
            ||| key == "messages"@
            ||| key == "stream"@
            ||| key == "temperature"@
            ||| key == "maxTokens"@
            ||| key == "topK"@
            ||| key == "seed"@
            ||| key == "greedy"@
            ||| key == "schema"@
            ||| key == "streamStructured"@
        }),
{
    request_members_say_what_is_set(w, key);
}

proof fn lemma_list_view_is_elementwise(values: Seq<WireValue>)
    ensures
        list_view(values).len() == values.len(),
        forall|i: int|
            0 <= i < values.len() ==> #[trigger] list_view(values)[i] == wire_view(values[i]),
    decreases values.len(),
{
    if values.len() > 0 {
        lemma_list_view_is_elementwise(values.drop_last());
    }
}

proof fn lemma_members_view_is_elementwise(members: Seq<(String, WireValue)>)
    ensures
        members_view(members).len() == members.len(),
        forall|i: int|
            0 <= i < members.len() ==> #[trigger] members_view(members)[i] == (
                members[i].0@,
                wire_view(members[i].1),
            ),
    decreases members.len(),
{
    if members.len() > 0 {
        lemma_members_view_is_elementwise(members.drop_last());
    }
}

/// A document is what it holds: a list its elements in order, an object its members in order.
pub proof fn a_document_is_what_it_holds(document: WireValue, i: int)
    ensures
        match document {
            WireValue::Null => document@ == WireView::Null,
            WireValue::Bool(truth) => document@ == WireView::Bool(truth),
            WireValue::Unsigned(n) => document@ == WireView::Unsigned(n),
            WireValue::Double(number) => document@ == WireView::Double(number),
            WireValue::Text(text) => document@ == WireView::Text(text@),
            WireValue::List(values) => {
                &&& document@ matches WireView::List(views)
                &&& views.len() == values@.len()
                &&& 0 <= i < values@.len() ==> views[i] == values@[i]@
            },
            WireValue::Object(members) => {
                &&& document@ matches WireView::Object(views)
                &&& views.len() == members@.len()
                &&& 0 <= i < members@.len() ==> views[i].0 == members@[i].0@ && views[i].1
                    == members@[i].1@
            },
        },
{
    match document {
        WireValue::List(values) => {
            lemma_list_view_is_elementwise(values@);
        },
        WireValue::Object(members) => {
            lemma_members_view_is_elementwise(members@);
        },
        _ => {},
    }
}

} // verus!
