//! The request as it is sent to the helper: one JSON object on one line.
use vstd::prelude::*;

use crate::double::Double;
use crate::types::{
    messages_view, properties_view, properties_view_is_elementwise, property_view, text_view,
    texts_view, Message, MessageView, PropertyView, Request, RequestView, Role, Sampling, Schema,
    SchemaProperty, SchemaType, SchemaView,
};

verus! {

/// A JSON document that is to be sent.
#[derive(Debug, PartialEq)]
pub enum WireValue {
    /// `null`.
    Null,
    /// `true` or `false`.
    Bool(bool),
    /// An integer.
    Unsigned(u64),
    /// A double-precision number.
    Double(Double),
    /// A string.
    Text(String),
    /// A list.
    List(Vec<WireValue>),
    /// An object, with its members in the order in which they are written.
    Object(Vec<(String, WireValue)>),
}

/// A [`WireValue`] as a mathematical value.
pub enum WireView {
    Null,
    Bool(bool),
    Unsigned(u64),
    Double(Double),
    Text(Seq<char>),
    List(Seq<WireView>),
    Object(Seq<(Seq<char>, WireView)>),
}

/// What a document is.
pub open spec fn wire_view(v: WireValue) -> WireView
    decreases v,
{
    match v {
        WireValue::Null => WireView::Null,
        WireValue::Bool(truth) => WireView::Bool(truth),
        WireValue::Unsigned(n) => WireView::Unsigned(n),
        WireValue::Double(number) => WireView::Double(number),
        WireValue::Text(text) => WireView::Text(text@),
        WireValue::List(values) => WireView::List(list_view(values@)),
        WireValue::Object(members) => WireView::Object(members_view(members@)),
    }
}

/// What a list of documents is.
pub open spec fn list_view(values: Seq<WireValue>) -> Seq<WireView>
    decreases values,
{
    if values.len() == 0 {
        Seq::empty()
    } else {
        list_view(values.drop_last()).push(wire_view(values.last()))
    }
}

/// What the members of an object are.
pub open spec fn members_view(members: Seq<(String, WireValue)>) -> Seq<(Seq<char>, WireView)>
    decreases members,
{
    if members.len() == 0 {
        Seq::empty()
    } else {
        members_view(members.drop_last()).push((members.last().0@, wire_view(members.last().1)))
    }
}

impl View for WireValue {
    type V = WireView;

    open spec fn view(&self) -> WireView {
        wire_view(*self)
    }
}

/// The word for a role.
pub open spec fn role_word(role: Role) -> Seq<char> {
    match role {
        Role::System => "system"@,
        Role::User => "user"@,
        Role::Assistant => "assistant"@,
    }
}

/// The word for a type.
pub open spec fn type_word(t: SchemaType) -> Seq<char> {
    match t {
        SchemaType::String => "string"@,
        SchemaType::Integer => "integer"@,
        SchemaType::Number => "number"@,
        SchemaType::Boolean => "boolean"@,
        SchemaType::Object => "object"@,
        SchemaType::Array => "array"@,
    }
}

/// The members of an object, one after another.
pub type Members = Seq<(Seq<char>, WireView)>;

/// The member `key` where there is a value for it, and no member where there is none.
pub open spec fn optional_member(key: Seq<char>, value: Option<WireView>) -> Members {
    match value {
        Some(value) => seq![(key, value)],
        None => Seq::empty(),
    }
}

/// The member `key` with the value `true` where `truth` holds, and no member where it does not.
pub open spec fn flag_member(key: Seq<char>, truth: bool) -> Members {
    optional_member(
        key,
        if truth {
            Some(WireView::Bool(true))
        } else {
            None
        },
    )
}

/// An optional text as a document.
pub open spec fn text_document(text: Option<Seq<char>>) -> Option<WireView> {
    match text {
        Some(text) => Some(WireView::Text(text)),
        None => None,
    }
}

/// An optional integer as a document.
pub open spec fn integer_document(n: Option<u64>) -> Option<WireView> {
    match n {
        Some(n) => Some(WireView::Unsigned(n)),
        None => None,
    }
}

/// One end of the bounds on a count as a document.
pub open spec fn bound_document(bound: Option<usize>) -> WireView {
    match bound {
        Some(n) => WireView::Unsigned(n as u64),
        None => WireView::Null,
    }
}

/// A message as a document.
pub open spec fn message_document(m: MessageView) -> WireView {
    WireView::Object(
        seq![("role"@, WireView::Text(role_word(m.role))), ("content"@, WireView::Text(m.content))],
    )
}

/// A conversation as a document.
pub open spec fn messages_document(messages: Seq<MessageView>) -> WireView {
    WireView::List(messages.map_values(|m: MessageView| message_document(m)))
}

/// A property as a document: its name and its type, and of the rest what is set.
pub open spec fn property_document(p: PropertyView) -> WireView
    decreases p, 1int,
{
    WireView::Object(property_members(p))
}

/// The members of a property.
pub open spec fn property_members(p: PropertyView) -> Members
    decreases p, 0int,
{
    seq![("name"@, WireView::Text(p.name))] + optional_member(
        "description"@,
        text_document(p.description),
    ) + seq![("type"@, WireView::Text(type_word(p.property_type)))] + optional_member(
        "properties"@,
        match p.properties {
            Some(nested) => Some(WireView::List(property_documents(nested))),
            None => None,
        },
    ) + optional_member(
        "items"@,
        match p.items {
            Some(items) => Some(property_document(*items)),
            None => None,
        },
    ) + optional_member(
        "range"@,
        match p.range {
            Some((min, max)) => Some(
                WireView::List(seq![WireView::Double(min), WireView::Double(max)]),
            ),
            None => None,
        },
    ) + optional_member(
        "anyOf"@,
        match p.any_of {
            Some(texts) => Some(
                WireView::List(texts.map_values(|text: Seq<char>| WireView::Text(text))),
            ),
            None => None,
        },
    ) + optional_member("pattern"@, text_document(p.pattern)) + optional_member(
        "count"@,
        match p.count {
            Some((min, max)) => Some(
                WireView::List(seq![bound_document(min), bound_document(max)]),
            ),
            None => None,
        },
    ) + flag_member("optional"@, p.optional)
}

/// Properties as documents.
pub open spec fn property_documents(ps: Seq<PropertyView>) -> Seq<WireView>
    decreases ps, 0int,
{
    if ps.len() == 0 {
        Seq::empty()
    } else {
        property_documents(ps.drop_last()).push(property_document(ps.last()))
    }
}

/// A schema as a document.
pub open spec fn schema_document(s: SchemaView) -> WireView {
    WireView::Object(
        seq![("name"@, WireView::Text(s.name))] + optional_member(
            "description"@,
            text_document(s.description),
        ) + seq![("properties"@, WireView::List(property_documents(s.properties)))],
    )
}

/// A request in the terms of the wire.
#[derive(Debug)]
pub struct WireRequest<'a> {
    /// The conversation so far.
    pub messages: &'a [Message],
    /// Whether events are wanted as they are produced.
    pub stream: bool,
    /// Sampling temperature.
    pub temperature: Option<Double>,
    /// Hard cap on response length.
    pub max_tokens: Option<u32>,
    /// How many candidate tokens to consider.
    pub top_k: Option<usize>,
    /// Seed for reproducible output.
    pub seed: Option<u64>,
    /// Whether to always take the most likely token.
    pub greedy: Option<bool>,
    /// The schema to satisfy.
    pub schema: Option<&'a Schema>,
    /// Whether partial snapshots are wanted.
    pub stream_structured: bool,
}

/// A [`WireRequest`] as a mathematical value.
pub struct WireRequestView {
    pub messages: Seq<MessageView>,
    pub stream: bool,
    pub temperature: Option<Double>,
    pub max_tokens: Option<u32>,
    pub top_k: Option<usize>,
    pub seed: Option<u64>,
    pub greedy: Option<bool>,
    pub schema: Option<SchemaView>,
    pub stream_structured: bool,
}

impl<'a> View for WireRequest<'a> {
    type V = WireRequestView;

    open spec fn view(&self) -> WireRequestView {
        WireRequestView {
            messages: messages_view(self.messages@),
            stream: self.stream,
            temperature: self.temperature,
            max_tokens: self.max_tokens,
            top_k: self.top_k,
            seed: self.seed,
            greedy: self.greedy,
            schema: match self.schema {
                Some(schema) => Some(schema@),
                None => None,
            },
            stream_structured: self.stream_structured,
        }
    }
}

/// A request in the terms of the wire. The strategy is spelled out, and snapshots are asked for
/// only of a response that streams.
pub open spec fn on_the_wire(r: RequestView, stream: bool) -> WireRequestView {
    WireRequestView {
        messages: r.messages,
        stream,
        temperature: r.temperature,
        max_tokens: r.max_tokens,
        top_k: match r.sampling {
            Some(Sampling::TopK { top, .. }) => Some(top),
            _ => None,
        },
        seed: match r.sampling {
            Some(Sampling::TopK { seed, .. }) => seed,
            _ => None,
        },
        greedy: match r.sampling {
            Some(Sampling::Greedy) => Some(true),
            _ => None,
        },
        schema: r.schema,
        stream_structured: r.stream_structured && stream,
    }
}

/// A request as a document: its messages and whether it streams, and of the rest what is set.
pub open spec fn request_document(w: WireRequestView) -> WireView {
    WireView::Object(request_members(w))
}

/// The members of a request.
pub open spec fn request_members(w: WireRequestView) -> Members {
    seq![("messages"@, messages_document(w.messages)), ("stream"@, WireView::Bool(w.stream))]
        + optional_member(
        "temperature"@,
        match w.temperature {
            Some(t) => Some(WireView::Double(t)),
            None => None,
        },
    ) + optional_member(
        "maxTokens"@,
        match w.max_tokens {
            Some(n) => Some(WireView::Unsigned(n as u64)),
            None => None,
        },
    ) + optional_member(
        "topK"@,
        match w.top_k {
            Some(n) => Some(WireView::Unsigned(n as u64)),
            None => None,
        },
    ) + optional_member("seed"@, integer_document(w.seed)) + optional_member(
        "greedy"@,
        match w.greedy {
            Some(truth) => Some(WireView::Bool(truth)),
            None => None,
        },
    ) + optional_member(
        "schema"@,
        match w.schema {
            Some(schema) => Some(schema_document(schema)),
            None => None,
        },
    ) + flag_member("streamStructured"@, w.stream_structured)
}

/// Adds a member to an object.
fn put(members: &mut Vec<(String, WireValue)>, key: &str, value: WireValue)
    ensures
        members_view(final(members)@) == members_view(old(members)@) + seq![(key@, value@)],
{
    let ghost before = members@;
    members.push((key.to_string(), value));
    proof {
        assert(members@.drop_last() =~= before);
        assert(members_view(members@) =~= members_view(before) + seq![(key@, value@)]);
    }
}

/// An optional document as a mathematical value.
spec fn optional_view(value: Option<WireValue>) -> Option<WireView> {
    match value {
        Some(value) => Some(value@),
        None => None,
    }
}

/// Adds a member to an object, where there is a value for it.
fn put_optional(members: &mut Vec<(String, WireValue)>, key: &str, value: Option<WireValue>)
    ensures
        members_view(final(members)@) == members_view(old(members)@) + optional_member(
            key@,
            optional_view(value),
        ),
{
    match value {
        Some(value) => put(members, key, value),
        None => {
            assert(members_view(members@) + Seq::<(Seq<char>, WireView)>::empty() =~= members_view(
                members@,
            ));
        },
    }
}

/// An optional text as a document.
fn text_value(text: &Option<String>) -> (r: Option<WireValue>)
    ensures
        optional_view(r) == text_document(text_view(*text)),
{
    match text {
        Some(text) => Some(WireValue::Text(text.clone())),
        None => None,
    }
}

/// A flag as a document, where it is set.
fn flag_value(truth: bool) -> (r: Option<WireValue>)
    ensures
        optional_view(r) == if truth {
            Some(WireView::Bool(true))
        } else {
            None
        },
{
    if truth {
        Some(WireValue::Bool(true))
    } else {
        None
    }
}

/// A list of two documents.
fn pair(a: WireValue, b: WireValue) -> (r: WireValue)
    ensures
        r@ == WireView::List(seq![a@, b@]),
{
    let mut values: Vec<WireValue> = Vec::new();
    values.push(a);
    values.push(b);
    proof {
        assert(values@.drop_last() =~= seq![a]);
        assert(seq![a].drop_last() =~= Seq::<WireValue>::empty());
        reveal_with_fuel(list_view, 3);
        assert(list_view(values@) =~= seq![a@, b@]);
    }
    WireValue::List(values)
}

/// One end of the bounds on a count.
fn bound_value(bound: Option<usize>) -> (r: WireValue)
    ensures
        r@ == bound_document(bound),
{
    match bound {
        Some(n) => WireValue::Unsigned(n as u64),
        None => WireValue::Null,
    }
}

/// A list of texts.
fn text_list(texts: &Vec<String>) -> (r: WireValue)
    ensures
        r@ == WireView::List(
            texts_view(texts@).map_values(|text: Seq<char>| WireView::Text(text)),
        ),
{
    let mut values: Vec<WireValue> = Vec::new();
    let mut next: usize = 0;
    while next < texts.len()
        invariant
            next <= texts@.len(),
            list_view(values@).len() == next,
            forall|i: int|
                0 <= i < next ==> #[trigger] list_view(values@)[i] == WireView::Text(texts@[i]@),
        decreases texts@.len() - next,
    {
        let ghost before = values@;
        values.push(WireValue::Text(texts[next].clone()));
        proof {
            assert(values@.drop_last() =~= before);
            assert(wire_view(values@.last()) == WireView::Text(texts@[next as int]@));
        }
        next = next + 1;
    }
    proof {
        assert(list_view(values@) =~= texts_view(texts@).map_values(
            |text: Seq<char>| WireView::Text(text),
        ));
    }
    WireValue::List(values)
}

impl Role {
    /// The word for the role.
    pub fn word(self) -> (r: &'static str)
        ensures
            r@ == role_word(self),
    {
        match self {
            Role::System => "system",
            Role::User => "user",
            Role::Assistant => "assistant",
        }
    }
}

impl SchemaType {
    /// The word for the type.
    pub fn word(self) -> (r: &'static str)
        ensures
            r@ == type_word(self),
    {
        match self {
            SchemaType::String => "string",
            SchemaType::Integer => "integer",
            SchemaType::Number => "number",
            SchemaType::Boolean => "boolean",
            SchemaType::Object => "object",
            SchemaType::Array => "array",
        }
    }
}

impl Message {
    /// The message as a document.
    pub fn document(&self) -> (r: WireValue)
        ensures
            r@ == message_document(self@),
    {
        let mut members: Vec<(String, WireValue)> = Vec::new();
        put(&mut members, "role", WireValue::Text(self.role.word().to_string()));
        put(&mut members, "content", WireValue::Text(self.content.clone()));
        assert(members_view(members@) =~= seq![
            ("role"@, WireView::Text(role_word(self.role))),
            ("content"@, WireView::Text(self.content@)),
        ]);
        WireValue::Object(members)
    }
}

impl SchemaProperty {
    /// The property as a document.
    pub fn document(&self) -> (r: WireValue)
        ensures
            r@ == property_document(self@),
        decreases self,
    {
        let properties = match &self.properties {
            Some(nested) => {
                let mut values: Vec<WireValue> = Vec::new();
                let mut next: usize = 0;
                proof {
                    properties_view_is_elementwise(nested@);
                    assert(properties_view(nested@).take(0) =~= Seq::empty());
                }
                while next < nested.len()
                    invariant
                        self.properties == Some(*nested),
                        next <= nested@.len(),
                        properties_view(nested@).len() == nested@.len(),
                        forall|i: int|
                            0 <= i < nested@.len() ==> #[trigger] properties_view(nested@)[i]
                                == property_view(nested@[i]),
                        list_view(values@) == property_documents(
                            properties_view(nested@).take(next as int),
                        ),
                    decreases nested@.len() - next,
                {
                    let ghost before = values@;
                    let ghost views = properties_view(nested@);
                    proof {
                        assert(decreases_to!(self => self.properties->0@[next as int]));
                        assert(views.take(next + 1).drop_last() =~= views.take(next as int));
                    }
                    values.push(nested[next].document());
                    assert(values@.drop_last() =~= before);
                    next = next + 1;
                }
                assert(properties_view(nested@).take(next as int) =~= properties_view(nested@));
                Some(WireValue::List(values))
            },
            None => None,
        };
        let items = match &self.items {
            Some(items) => Some((**items).document()),
            None => None,
        };
        let range = match self.range {
            Some(bounds) => Some(
                pair(WireValue::Double(bounds[0]), WireValue::Double(bounds[1])),
            ),
            None => None,
        };
        let any_of = match &self.any_of {
            Some(choices) => Some(text_list(choices)),
            None => None,
        };
        let count = match self.count {
            Some(bounds) => Some(pair(bound_value(bounds[0]), bound_value(bounds[1]))),
            None => None,
        };
        let mut members: Vec<(String, WireValue)> = Vec::new();
        put(&mut members, "name", WireValue::Text(self.name.clone()));
        assert(members_view(members@) =~= seq![("name"@, WireView::Text(self.name@))]);
        put_optional(&mut members, "description", text_value(&self.description));
        put(&mut members, "type", WireValue::Text(self.property_type.word().to_string()));
        put_optional(&mut members, "properties", properties);
        put_optional(&mut members, "items", items);
        put_optional(&mut members, "range", range);
        put_optional(&mut members, "anyOf", any_of);
        put_optional(&mut members, "pattern", text_value(&self.pattern));
        put_optional(&mut members, "count", count);
        put_optional(&mut members, "optional", flag_value(self.optional));
        WireValue::Object(members)
    }
}

impl Schema {
    /// The schema as a document.
    pub fn document(&self) -> (r: WireValue)
        ensures
            r@ == schema_document(self@),
    {
        let mut values: Vec<WireValue> = Vec::new();
        let mut next: usize = 0;
        let ghost views = self@.properties;
        proof {
            properties_view_is_elementwise(self.properties@);
            assert(views.take(0) =~= Seq::empty());
        }
        while next < self.properties.len()
            invariant
                next <= self.properties@.len(),
                views.len() == self.properties@.len(),
                forall|i: int|
                    0 <= i < self.properties@.len() ==> #[trigger] views[i] == property_view(
                        self.properties@[i],
                    ),
                list_view(values@) == property_documents(views.take(next as int)),
            decreases self.properties@.len() - next,
        {
            let ghost before = values@;
            assert(views.take(next + 1).drop_last() =~= views.take(next as int));
            values.push(self.properties[next].document());
            assert(values@.drop_last() =~= before);
            next = next + 1;
        }
        assert(views.take(next as int) =~= views);
        let mut members: Vec<(String, WireValue)> = Vec::new();
        put(&mut members, "name", WireValue::Text(self.name.clone()));
        assert(members_view(members@) =~= seq![("name"@, WireView::Text(self.name@))]);
        put_optional(&mut members, "description", text_value(&self.description));
        put(&mut members, "properties", WireValue::List(values));
        WireValue::Object(members)
    }
}

impl<'a> WireRequest<'a> {
    /// Puts a request in the terms of the wire.
    pub fn new(request: &'a Request, stream: bool) -> (r: Self)
        ensures
            r@ == on_the_wire(request@, stream),
    {
        let (top_k, seed, greedy) = match request.sampling {
            Some(Sampling::Greedy) => (None, None, Some(true)),
            Some(Sampling::TopK { top, seed }) => (Some(top), seed, None),
            None => (None, None, None),
        };
        WireRequest {
            messages: request.messages.as_slice(),
            stream,
            temperature: request.temperature,
            max_tokens: request.max_tokens,
            top_k,
            seed,
            greedy,
            schema: request.schema.as_ref(),
            stream_structured: request.stream_structured && stream,
        }
    }

    /// The conversation as a document.
    fn conversation(&self) -> (r: WireValue)
        ensures
            r@ == messages_document(self@.messages),
    {
        let mut values: Vec<WireValue> = Vec::new();
        let mut next: usize = 0;
        while next < self.messages.len()
            invariant
                next <= self.messages@.len(),
                list_view(values@).len() == next,
                forall|i: int|
                    0 <= i < next ==> #[trigger] list_view(values@)[i] == message_document(
                        self.messages@[i]@,
                    ),
            decreases self.messages@.len() - next,
        {
            let ghost before = values@;
            values.push(self.messages[next].document());
            assert(values@.drop_last() =~= before);
            next = next + 1;
        }
        proof {
            assert(list_view(values@) =~= self@.messages.map_values(
                |m: MessageView| message_document(m),
            ));
        }
        WireValue::List(values)
    }

    /// The request as a document.
    pub fn document(&self) -> (r: WireValue)
        ensures
            r@ == request_document(self@),
    {
        let temperature = match self.temperature {
            Some(t) => Some(WireValue::Double(t)),
            None => None,
        };
        let max_tokens = match self.max_tokens {
            Some(n) => Some(WireValue::Unsigned(n as u64)),
            None => None,
        };
        let top_k = match self.top_k {
            Some(n) => Some(WireValue::Unsigned(n as u64)),
            None => None,
        };
        let seed = match self.seed {
            Some(n) => Some(WireValue::Unsigned(n)),
            None => None,
        };
        let greedy = match self.greedy {
            Some(truth) => Some(WireValue::Bool(truth)),
            None => None,
        };
        let schema = match self.schema {
            Some(schema) => Some(schema.document()),
            None => None,
        };
        let mut members: Vec<(String, WireValue)> = Vec::new();
        put(&mut members, "messages", self.conversation());
        put(&mut members, "stream", WireValue::Bool(self.stream));
        assert(members_view(members@) =~= seq![
            ("messages"@, messages_document(self@.messages)),
            ("stream"@, WireView::Bool(self.stream)),
        ]);
        put_optional(&mut members, "temperature", temperature);
        put_optional(&mut members, "maxTokens", max_tokens);
        put_optional(&mut members, "topK", top_k);
        put_optional(&mut members, "seed", seed);
        put_optional(&mut members, "greedy", greedy);
        put_optional(&mut members, "schema", schema);
        put_optional(&mut members, "streamStructured", flag_value(self.stream_structured));
        WireValue::Object(members)
    }
}

/// Frames an encoded request: one line, closed by a line feed.
pub fn frame(payload: Vec<u8>) -> (r: Vec<u8>)
    ensures
        r@ == payload@.push(0x0a),
{
    let mut line = payload;
    line.push(0x0a);
    line
}

/// What an object holds under a key: its first member of that name.
pub open spec fn lookup(members: Members, key: Seq<char>) -> Option<WireView>
    decreases members.len(),
{
    if members.len() == 0 {
        None
    } else {
        match lookup(members.drop_last(), key) {
            Some(value) => Some(value),
            None => if members.last().0 == key {
                Some(members.last().1)
            } else {
                None
            },
        }
    }
}

/// Whether no two members of an object have one name.
pub open spec fn keys_differ(members: Members) -> bool {
    forall|i: int, j: int|
        0 <= i < j < members.len() ==> (#[trigger] members[i]).0 != (#[trigger] members[j]).0
}

proof fn lemma_lookup_misses(members: Members, key: Seq<char>)
    ensures
        lookup(members, key) is None <==> forall|i: int|
            0 <= i < members.len() ==> (#[trigger] members[i]).0 != key,
    decreases members.len(),
{
    if members.len() > 0 {
        let front = members.drop_last();
        lemma_lookup_misses(front, key);
        assert forall|i: int| 0 <= i < front.len() implies front[i] == #[trigger] members[i] by {}
        if lookup(front, key) is Some {
            let i = choose|i: int| 0 <= i < front.len() && (#[trigger] front[i]).0 == key;
            assert(members[i].0 == key);
        } else if members.last().0 != key {
            assert forall|i: int| 0 <= i < members.len() implies (#[trigger] members[i]).0
                != key by {
                if i < front.len() {
                    assert(front[i].0 != key);
                }
            }
        } else {
            assert(members[members.len() - 1].0 == key);
        }
    }
}

/// One more optional member in an object that has no member of that name.
proof fn lemma_optional_member(members: Members, name: Seq<char>, value: Option<WireView>)
    requires
        keys_differ(members),
        lookup(members, name) is None,
    ensures
        keys_differ(members + optional_member(name, value)),
        forall|key: Seq<char>| #[trigger]
            lookup(members + optional_member(name, value), key) == if key == name {
                value
            } else {
                lookup(members, key)
            },
{
    match value {
        Some(v) => {
            let more = members + seq![(name, v)];
            lemma_lookup_misses(members, name);
            assert(more.drop_last() =~= members);
        },
        None => {
            assert(members + optional_member(name, value) =~= members);
        },
    }
}

/// An object with one member.
proof fn lemma_first_member(name: Seq<char>, value: WireView)
    ensures
        keys_differ(seq![(name, value)]),
        forall|key: Seq<char>| #[trigger]
            lookup(seq![(name, value)], key) == if key == name {
                Some(value)
            } else {
                None::<WireView>
            },
{
    assert(seq![(name, value)].drop_last() =~= Seq::<(Seq<char>, WireView)>::empty());
    reveal_with_fuel(lookup, 2);
}

/// A request holds every field that is set under its own key and leaves out every field that is
/// not; no key occurs twice, and there are no others.
pub proof fn request_members_say_what_is_set(w: WireRequestView, key: Seq<char>)
    ensures
        keys_differ(request_members(w)),
        lookup(request_members(w), key) == if key == "messages"@ {
            Some(messages_document(w.messages))
        } else if key == "stream"@ {
            Some(WireView::Bool(w.stream))
        } else if key == "temperature"@ {
            match w.temperature {
                Some(t) => Some(WireView::Double(t)),
                None => None,
            }
        } else if key == "maxTokens"@ {
            match w.max_tokens {
                Some(n) => Some(WireView::Unsigned(n as u64)),
                None => None,
            }
        } else if key == "topK"@ {
            match w.top_k {
                Some(n) => Some(WireView::Unsigned(n as u64)),
                None => None,
            }
        } else if key == "seed"@ {
            integer_document(w.seed)
        } else if key == "greedy"@ {
            match w.greedy {
                Some(truth) => Some(WireView::Bool(truth)),
                None => None,
            }
        } else if key == "schema"@ {
            match w.schema {
                Some(schema) => Some(schema_document(schema)),
                None => None,
            }
        } else if key == "streamStructured"@ && w.stream_structured {
            Some(WireView::Bool(true))
        } else {
            None
        },
{
    reveal_strlit("messages");
    reveal_strlit("stream");
    reveal_strlit("temperature");
    reveal_strlit("maxTokens");
    reveal_strlit("topK");
    reveal_strlit("seed");
    reveal_strlit("greedy");
    reveal_strlit("schema");
    reveal_strlit("streamStructured");
    assert("topK"@[0] != "seed"@[0]);
    assert("stream"@[0] != "greedy"@[0]);
    assert("schema"@[0] != "greedy"@[0]);
    assert("stream"@[1] != "schema"@[1]);
    assert("messages"@.len() == 8 && "stream"@.len() == 6 && "temperature"@.len() == 11
        && "maxTokens"@.len() == 9 && "topK"@.len() == 4 && "seed"@.len() == 4 && "greedy"@.len()
        == 6 && "schema"@.len() == 6 && "streamStructured"@.len() == 16);
    let m1 = seq![("messages"@, messages_document(w.messages))];
    lemma_first_member("messages"@, messages_document(w.messages));
    let m2 = m1 + optional_member("stream"@, Some(WireView::Bool(w.stream)));
    lemma_optional_member(m1, "stream"@, Some(WireView::Bool(w.stream)));
    assert(m2 =~= seq![
        ("messages"@, messages_document(w.messages)),
        ("stream"@, WireView::Bool(w.stream)),
    ]);
    let temperature = match w.temperature {
        Some(t) => Some(WireView::Double(t)),
        None => None,
    };
    let max_tokens = match w.max_tokens {
        Some(n) => Some(WireView::Unsigned(n as u64)),
        None => None,
    };
    let top_k = match w.top_k {
        Some(n) => Some(WireView::Unsigned(n as u64)),
        None => None,
    };
    let greedy = match w.greedy {
        Some(truth) => Some(WireView::Bool(truth)),
        None => None,
    };
    let schema = match w.schema {
        Some(schema) => Some(schema_document(schema)),
        None => None,
    };
    let flag = if w.stream_structured {
        Some(WireView::Bool(true))
    } else {
        None
    };
    let m3 = m2 + optional_member("temperature"@, temperature);
    lemma_optional_member(m2, "temperature"@, temperature);
    let m4 = m3 + optional_member("maxTokens"@, max_tokens);
    lemma_optional_member(m3, "maxTokens"@, max_tokens);
    let m5 = m4 + optional_member("topK"@, top_k);
    lemma_optional_member(m4, "topK"@, top_k);
    let m6 = m5 + optional_member("seed"@, integer_document(w.seed));
    lemma_optional_member(m5, "seed"@, integer_document(w.seed));
    let m7 = m6 + optional_member("greedy"@, greedy);
    lemma_optional_member(m6, "greedy"@, greedy);
    let m8 = m7 + optional_member("schema"@, schema);
    lemma_optional_member(m7, "schema"@, schema);
    lemma_optional_member(m8, "streamStructured"@, flag);
}

/// A property holds its name and its type, every constraint that is set under its own key, and
/// leaves out every constraint that is not; no key occurs twice, and there are no others.
pub proof fn property_members_say_what_is_set(p: PropertyView, key: Seq<char>)
    ensures
        keys_differ(property_members(p)),
        lookup(property_members(p), key) == if key == "name"@ {
            Some(WireView::Text(p.name))
        } else if key == "description"@ {
            text_document(p.description)
        } else if key == "type"@ {
            Some(WireView::Text(type_word(p.property_type)))
        } else if key == "properties"@ {
            match p.properties {
                Some(nested) => Some(WireView::List(property_documents(nested))),
                None => None,
            }
        } else if key == "items"@ {
            match p.items {
                Some(items) => Some(property_document(*items)),
                None => None,
            }
        } else if key == "range"@ {
            match p.range {
                Some((min, max)) => Some(
                    WireView::List(seq![WireView::Double(min), WireView::Double(max)]),
                ),
                None => None,
            }
        } else if key == "anyOf"@ {
            match p.any_of {
                Some(texts) => Some(
                    WireView::List(texts.map_values(|text: Seq<char>| WireView::Text(text))),
                ),
                None => None,
            }
        } else if key == "pattern"@ {
            text_document(p.pattern)
        } else if key == "count"@ {
            match p.count {
                Some((min, max)) => Some(
                    WireView::List(seq![bound_document(min), bound_document(max)]),
                ),
                None => None,
            }
        } else if key == "optional"@ && p.optional {
            Some(WireView::Bool(true))
        } else {
            None
        },
{
    reveal_strlit("name");
    reveal_strlit("description");
    reveal_strlit("type");
    reveal_strlit("properties");
    reveal_strlit("items");
    reveal_strlit("range");
    reveal_strlit("anyOf");
    reveal_strlit("pattern");
    reveal_strlit("count");
    reveal_strlit("optional");
    assert("name"@.len() == 4 && "description"@.len() == 11 && "type"@.len() == 4
        && "properties"@.len() == 10 && "items"@.len() == 5 && "range"@.len() == 5
        && "anyOf"@.len() == 5 && "pattern"@.len() == 7 && "count"@.len() == 5
        && "optional"@.len() == 8);
    assert("name"@[0] == 'n' && "type"@[0] == 't');
    assert("items"@[0] == 'i' && "range"@[0] == 'r' && "anyOf"@[0] == 'a' && "count"@[0] == 'c');
    let nested = match p.properties {
        Some(nested) => Some(WireView::List(property_documents(nested))),
        None => None,
    };
    let items = match p.items {
        Some(items) => Some(property_document(*items)),
        None => None,
    };
    let range = match p.range {
        Some((min, max)) => Some(
            WireView::List(seq![WireView::Double(min), WireView::Double(max)]),
        ),
        None => None,
    };
    let any_of = match p.any_of {
        Some(texts) => Some(
            WireView::List(texts.map_values(|text: Seq<char>| WireView::Text(text))),
        ),
        None => None,
    };
    let count = match p.count {
        Some((min, max)) => Some(WireView::List(seq![bound_document(min), bound_document(max)])),
        None => None,
    };
    let flag = if p.optional {
        Some(WireView::Bool(true))
    } else {
        None
    };
    let word = WireView::Text(type_word(p.property_type));
    let m1 = seq![("name"@, WireView::Text(p.name))];
    lemma_first_member("name"@, WireView::Text(p.name));
    let m2 = m1 + optional_member("description"@, text_document(p.description));
    lemma_optional_member(m1, "description"@, text_document(p.description));
    let m3 = m2 + optional_member("type"@, Some(word));
    lemma_optional_member(m2, "type"@, Some(word));
    let m4 = m3 + optional_member("properties"@, nested);
    lemma_optional_member(m3, "properties"@, nested);
    let m5 = m4 + optional_member("items"@, items);
    lemma_optional_member(m4, "items"@, items);
    let m6 = m5 + optional_member("range"@, range);
    lemma_optional_member(m5, "range"@, range);
    let m7 = m6 + optional_member("anyOf"@, any_of);
    lemma_optional_member(m6, "anyOf"@, any_of);
    let m8 = m7 + optional_member("pattern"@, text_document(p.pattern));
    lemma_optional_member(m7, "pattern"@, text_document(p.pattern));
    let m9 = m8 + optional_member("count"@, count);
    lemma_optional_member(m8, "count"@, count);
    lemma_optional_member(m9, "optional"@, flag);
}

/// The strategy is spelled one way: a greedy request names no number of candidates and no seed,
/// and a seed comes only with a number of candidates.
pub proof fn sampling_is_spelled_one_way(r: RequestView, stream: bool)
    ensures
        on_the_wire(r, stream).greedy is Some ==> on_the_wire(r, stream).greedy == Some(true)
            && on_the_wire(r, stream).top_k is None && on_the_wire(r, stream).seed is None,
        on_the_wire(r, stream).seed is Some ==> on_the_wire(r, stream).top_k is Some,
        on_the_wire(r, stream).greedy is Some <==> r.sampling == Some(Sampling::Greedy),
        on_the_wire(r, stream).top_k is Some <==> r.sampling matches Some(Sampling::TopK { .. }),
{
}

/// Snapshots are asked for only where the response streams and the caller opted in.
pub proof fn snapshots_are_asked_for_only_of_streams(r: RequestView, stream: bool)
    ensures
        on_the_wire(r, stream).stream_structured <==> stream && r.stream_structured,
        on_the_wire(r, stream).stream == stream,
{
}

} // verus!
