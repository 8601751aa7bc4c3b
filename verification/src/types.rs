//! Request, response, and schema types.
use vstd::prelude::*;

use crate::double::Double;
use crate::error::{Error, ErrorView};

verus! {

/// Who authored a [`Message`].
#[derive(Clone, Copy, Debug, PartialEq, Eq, Hash, Structural)]
pub enum Role {
    /// Behavioural instructions. Mapped onto Apple's `Instructions`.
    System,
    /// Input from the end user.
    User,
    /// A previous reply from the model.
    Assistant,
}

/// A single turn in the conversation.
#[derive(Debug, PartialEq, Eq)]
pub struct Message {
    /// Who authored the message.
    pub role: Role,
    /// The message text.
    pub content: String,
}

/// A [`Message`] with its text as a character sequence.
pub struct MessageView {
    pub role: Role,
    pub content: Seq<char>,
}

impl View for Message {
    type V = MessageView;

    open spec fn view(&self) -> MessageView {
        MessageView { role: self.role, content: self.content@ }
    }
}

impl Clone for Message {
    fn clone(&self) -> (r: Self)
        ensures
            r@ == self@,
    {
        Message { role: self.role, content: self.content.clone() }
    }
}

impl Message {
    /// Creates a message.
    pub fn new(role: Role, content: &str) -> (r: Self)
        ensures
            r@ == (MessageView { role, content: content@ }),
    {
        Message { role, content: content.to_string() }
    }

    /// Creates a `system` message.
    pub fn system(content: &str) -> (r: Self)
        ensures
            r@ == (MessageView { role: Role::System, content: content@ }),
    {
        Self::new(Role::System, content)
    }

    /// Creates a `user` message.
    pub fn user(content: &str) -> (r: Self)
        ensures
            r@ == (MessageView { role: Role::User, content: content@ }),
    {
        Self::new(Role::User, content)
    }

    /// Creates an `assistant` message.
    pub fn assistant(content: &str) -> (r: Self)
        ensures
            r@ == (MessageView { role: Role::Assistant, content: content@ }),
    {
        Self::new(Role::Assistant, content)
    }
}

/// The JSON type of a [`SchemaProperty`].
#[derive(Clone, Copy, Debug, PartialEq, Eq, Hash, Structural)]
pub enum SchemaType {
    /// A UTF-8 string.
    String,
    /// A signed integer.
    Integer,
    /// A double-precision float.
    Number,
    /// `true` or `false`.
    Boolean,
    /// A nested object; set [`SchemaProperty::properties`].
    Object,
    /// A homogeneous list; set [`SchemaProperty::items`].
    Array,
}

/// One field of a [`Schema`].
///
/// Build these with the constructors ([`SchemaProperty::string`], [`SchemaProperty::integer`], …)
/// and the chainable modifiers rather than filling in every field by hand.
#[derive(Debug, PartialEq)]
pub struct SchemaProperty {
    /// Field name as it will appear in the generated JSON.
    pub name: String,
    /// Natural-language hint that steers the model. Strongly recommended.
    pub description: Option<String>,
    /// The field's type.
    pub property_type: SchemaType,
    /// Nested fields, for [`SchemaType::Object`].
    pub properties: Option<Vec<SchemaProperty>>,
    /// Element schema, for [`SchemaType::Array`].
    pub items: Option<Box<SchemaProperty>>,
    /// Inclusive `[min, max]` bounds for numeric types.
    pub range: Option<[Double; 2]>,
    /// Restricts a string to a fixed set of values.
    pub any_of: Option<Vec<String>>,
    /// Regex the generated string must match.
    pub pattern: Option<String>,
    /// `[min, max]` element counts for arrays; either may be `None`.
    pub count: Option<[Option<usize>; 2]>,
    /// Whether the model may omit this field. Defaults to `false`.
    pub optional: bool,
}

/// A [`SchemaProperty`] as a mathematical value.
pub struct PropertyView {
    pub name: Seq<char>,
    pub description: Option<Seq<char>>,
    pub property_type: SchemaType,
    pub properties: Option<Seq<PropertyView>>,
    pub items: Option<Box<PropertyView>>,
    pub range: Option<(Double, Double)>,
    pub any_of: Option<Seq<Seq<char>>>,
    pub pattern: Option<Seq<char>>,
    pub count: Option<(Option<usize>, Option<usize>)>,
    pub optional: bool,
}

/// An optional text as a character sequence.
pub open spec fn text_view(text: Option<String>) -> Option<Seq<char>> {
    match text {
        Some(text) => Some(text@),
        None => None,
    }
}

/// A list of texts as character sequences.
pub open spec fn texts_view(texts: Seq<String>) -> Seq<Seq<char>> {
    texts.map_values(|text: String| text@)
}

/// What a property is.
pub open spec fn property_view(p: SchemaProperty) -> PropertyView
    decreases p,
{
    PropertyView {
        name: p.name@,
        description: text_view(p.description),
        property_type: p.property_type,
        properties: match p.properties {
            Some(nested) => Some(properties_view(nested@)),
            None => None,
        },
        items: match p.items {
            Some(items) => Some(Box::new(property_view(*items))),
            None => None,
        },
        range: match p.range {
            Some(bounds) => Some((bounds@[0], bounds@[1])),
            None => None,
        },
        any_of: match p.any_of {
            Some(texts) => Some(texts_view(texts@)),
            None => None,
        },
        pattern: text_view(p.pattern),
        count: match p.count {
            Some(bounds) => Some((bounds@[0], bounds@[1])),
            None => None,
        },
        optional: p.optional,
    }
}

/// What a list of properties is.
pub open spec fn properties_view(ps: Seq<SchemaProperty>) -> Seq<PropertyView>
    decreases ps,
{
    if ps.len() == 0 {
        Seq::empty()
    } else {
        properties_view(ps.drop_last()).push(property_view(ps.last()))
    }
}

/// A list of properties is, position by position, what its elements are.
pub proof fn properties_view_is_elementwise(ps: Seq<SchemaProperty>)
    ensures
        properties_view(ps).len() == ps.len(),
        forall|i: int|
            0 <= i < ps.len() ==> #[trigger] properties_view(ps)[i] == property_view(ps[i]),
    decreases ps.len(),
{
    if ps.len() > 0 {
        properties_view_is_elementwise(ps.drop_last());
    }
}

impl View for SchemaProperty {
    type V = PropertyView;

    open spec fn view(&self) -> PropertyView {
        property_view(*self)
    }
}

/// A copy of an optional text.
fn copy_text(text: &Option<String>) -> (r: Option<String>)
    ensures
        text_view(r) == text_view(*text),
{
    match text {
        Some(text) => Some(text.clone()),
        None => None,
    }
}

/// A copy of a list of texts.
fn copy_texts(texts: &Vec<String>) -> (r: Vec<String>)
    ensures
        texts_view(r@) == texts_view(texts@),
{
    let mut copies: Vec<String> = Vec::new();
    let mut next: usize = 0;
    while next < texts.len()
        invariant
            next <= texts@.len(),
            copies@.len() == next,
            forall|i: int| 0 <= i < next ==> (#[trigger] copies@[i])@ == texts@[i]@,
        decreases texts@.len() - next,
    {
        copies.push(texts[next].clone());
        next = next + 1;
    }
    assert(texts_view(copies@) =~= texts_view(texts@));
    copies
}

impl Clone for SchemaProperty {
    fn clone(&self) -> (r: Self)
        ensures
            r@ == self@,
        decreases self,
    {
        let properties = match &self.properties {
            Some(nested) => {
                let mut copies: Vec<SchemaProperty> = Vec::new();
                let mut next: usize = 0;
                while next < nested.len()
                    invariant
                        self.properties == Some(*nested),
                        next <= nested@.len(),
                        copies@.len() == next,
                        forall|i: int|
                            0 <= i < next ==> property_view(#[trigger] copies@[i])
                                == property_view(nested@[i]),
                    decreases nested@.len() - next,
                {
                    assert(decreases_to!(self => self.properties->0@[next as int]));
                    copies.push(nested[next].clone());
                    next = next + 1;
                }
                proof {
                    properties_view_is_elementwise(copies@);
                    properties_view_is_elementwise(nested@);
                    assert(properties_view(copies@) =~= properties_view(nested@));
                }
                Some(copies)
            },
            None => None,
        };
        let items = match &self.items {
            Some(items) => Some(Box::new((**items).clone())),
            None => None,
        };
        let any_of = match &self.any_of {
            Some(texts) => Some(copy_texts(texts)),
            None => None,
        };
        SchemaProperty {
            name: self.name.clone(),
            description: copy_text(&self.description),
            property_type: self.property_type,
            properties,
            items,
            range: self.range,
            any_of,
            pattern: copy_text(&self.pattern),
            count: self.count,
            optional: self.optional,
        }
    }
}

/// Whether `p` carries a name and a type and nothing else.
pub open spec fn is_bare(p: SchemaProperty, name: Seq<char>, property_type: SchemaType) -> bool {
    &&& p.name@ == name
    &&& p.description is None
    &&& p.property_type == property_type
    &&& p.properties is None
    &&& p.items is None
    &&& p.range is None
    &&& p.any_of is None
    &&& p.pattern is None
    &&& p.count is None
    &&& !p.optional
}

impl SchemaProperty {
    fn bare(name: &str, property_type: SchemaType) -> (r: Self)
        ensures
            is_bare(r, name@, property_type),
    {
        SchemaProperty {
            name: name.to_string(),
            description: None,
            property_type,
            properties: None,
            items: None,
            range: None,
            any_of: None,
            pattern: None,
            count: None,
            optional: false,
        }
    }

    /// A string field.
    pub fn string(name: &str) -> (r: Self)
        ensures
            is_bare(r, name@, SchemaType::String),
    {
        Self::bare(name, SchemaType::String)
    }

    /// An integer field.
    pub fn integer(name: &str) -> (r: Self)
        ensures
            is_bare(r, name@, SchemaType::Integer),
    {
        Self::bare(name, SchemaType::Integer)
    }

    /// A floating-point field.
    pub fn number(name: &str) -> (r: Self)
        ensures
            is_bare(r, name@, SchemaType::Number),
    {
        Self::bare(name, SchemaType::Number)
    }

    /// A boolean field.
    pub fn boolean(name: &str) -> (r: Self)
        ensures
            is_bare(r, name@, SchemaType::Boolean),
    {
        Self::bare(name, SchemaType::Boolean)
    }

    /// A nested object field.
    pub fn object(name: &str, properties: Vec<SchemaProperty>) -> (r: Self)
        ensures
            r.properties == Some(properties),
            is_bare(
                (SchemaProperty { properties: None, ..r }),
                name@,
                SchemaType::Object,
            ),
    {
        let mut property = Self::bare(name, SchemaType::Object);
        property.properties = Some(properties);
        property
    }

    /// An array field whose elements follow `items`.
    pub fn array(name: &str, items: SchemaProperty) -> (r: Self)
        ensures
            r.items == Some(Box::new(items)),
            is_bare((SchemaProperty { items: None, ..r }), name@, SchemaType::Array),
    {
        let mut property = Self::bare(name, SchemaType::Array);
        property.items = Some(Box::new(items));
        property
    }

    /// Adds a natural-language description. This meaningfully improves output.
    pub fn description(self, description: &str) -> (r: Self)
        ensures
            r.description matches Some(text) && text@ == description@,
            r == (SchemaProperty { description: r.description, ..self }),
    {
        SchemaProperty { description: Some(description.to_string()), ..self }
    }

    /// Constrains a numeric field to an inclusive range.
    pub fn range(self, min: Double, max: Double) -> (r: Self)
        ensures
            r == (SchemaProperty { range: Some([min, max]), ..self }),
    {
        SchemaProperty { range: Some([min, max]), ..self }
    }

    /// Constrains a string field to one of `choices`.
    pub fn any_of(self, choices: &[&str]) -> (r: Self)
        ensures
            r.any_of matches Some(texts) && texts@.len() == choices@.len() && forall|i: int|
                0 <= i < choices@.len() ==> (#[trigger] texts@[i])@ == choices@[i]@,
            r == (SchemaProperty { any_of: r.any_of, ..self }),
    {
        let mut texts: Vec<String> = Vec::new();
        let mut next: usize = 0;
        while next < choices.len()
            invariant
                next <= choices@.len(),
                texts@.len() == next,
                forall|i: int| 0 <= i < next ==> (#[trigger] texts@[i])@ == choices@[i]@,
            decreases choices@.len() - next,
        {
            texts.push(choices[next].to_string());
            next = next + 1;
        }
        SchemaProperty { any_of: Some(texts), ..self }
    }

    /// Constrains a string field to a regular expression.
    pub fn pattern(self, pattern: &str) -> (r: Self)
        ensures
            r.pattern matches Some(text) && text@ == pattern@,
            r == (SchemaProperty { pattern: r.pattern, ..self }),
    {
        SchemaProperty { pattern: Some(pattern.to_string()), ..self }
    }

    /// Constrains how many elements an array field may hold.
    pub fn count(self, min: Option<usize>, max: Option<usize>) -> (r: Self)
        ensures
            r == (SchemaProperty { count: Some([min, max]), ..self }),
    {
        SchemaProperty { count: Some([min, max]), ..self }
    }

    /// Marks the field optional, letting the model omit it.
    pub fn optional(self) -> (r: Self)
        ensures
            r == (SchemaProperty { optional: true, ..self }),
    {
        SchemaProperty { optional: true, ..self }
    }
}

/// A runtime-defined JSON schema the model is forced to satisfy.
#[derive(Debug, PartialEq)]
pub struct Schema {
    /// Name of the generated object type.
    pub name: String,
    /// Optional description of the object as a whole.
    pub description: Option<String>,
    /// The object's fields.
    pub properties: Vec<SchemaProperty>,
}

/// A [`Schema`] as a mathematical value.
pub struct SchemaView {
    pub name: Seq<char>,
    pub description: Option<Seq<char>>,
    pub properties: Seq<PropertyView>,
}

impl View for Schema {
    type V = SchemaView;

    open spec fn view(&self) -> SchemaView {
        SchemaView {
            name: self.name@,
            description: text_view(self.description),
            properties: properties_view(self.properties@),
        }
    }
}

impl Clone for Schema {
    fn clone(&self) -> (r: Self)
        ensures
            r@ == self@,
    {
        let properties = self.properties.clone();
        proof {
            properties_view_is_elementwise(properties@);
            properties_view_is_elementwise(self.properties@);
            assert(properties_view(properties@) =~= properties_view(self.properties@));
        }
        Schema { name: self.name.clone(), description: copy_text(&self.description), properties }
    }
}

impl Schema {
    /// Creates a schema from a name and its fields.
    pub fn new(name: &str, properties: Vec<SchemaProperty>) -> (r: Self)
        ensures
            r.name@ == name@,
            r.description is None,
            r.properties == properties,
    {
        Schema { name: name.to_string(), description: None, properties }
    }

    /// Adds a description of the object as a whole.
    pub fn description(self, description: &str) -> (r: Self)
        ensures
            r.description matches Some(text) && text@ == description@,
            r == (Schema { description: r.description, ..self }),
    {
        Schema { description: Some(description.to_string()), ..self }
    }
}

/// How the model picks each token.
#[derive(Clone, Copy, Debug, PartialEq, Eq)]
pub enum Sampling {
    /// Always take the most likely token. Deterministic.
    Greedy,
    /// Sample from the `top` most likely tokens, optionally with a fixed seed.
    TopK {
        /// How many candidate tokens to consider.
        top: usize,
        /// Seed for reproducible output.
        seed: Option<u64>,
    },
}

/// A generation request.
///
/// Build one with the chainable methods.
#[derive(Debug, PartialEq)]
pub struct Request {
    /// The conversation so far.
    pub messages: Vec<Message>,
    /// Sampling temperature. Higher is more varied.
    pub temperature: Option<Double>,
    /// Hard cap on response length.
    pub max_tokens: Option<u32>,
    /// Token-selection strategy.
    pub sampling: Option<Sampling>,
    /// When set, forces structured output matching this schema.
    pub schema: Option<Schema>,
    /// Emit partial snapshots while a structured response is generated.
    pub stream_structured: bool,
}

/// A [`Request`] as a mathematical value.
pub struct RequestView {
    pub messages: Seq<MessageView>,
    pub temperature: Option<Double>,
    pub max_tokens: Option<u32>,
    pub sampling: Option<Sampling>,
    pub schema: Option<SchemaView>,
    pub stream_structured: bool,
}

/// What a conversation is.
pub open spec fn messages_view(messages: Seq<Message>) -> Seq<MessageView> {
    messages.map_values(|message: Message| message@)
}

impl View for Request {
    type V = RequestView;

    open spec fn view(&self) -> RequestView {
        RequestView {
            messages: messages_view(self.messages@),
            temperature: self.temperature,
            max_tokens: self.max_tokens,
            sampling: self.sampling,
            schema: match self.schema {
                Some(schema) => Some(schema@),
                None => None,
            },
            stream_structured: self.stream_structured,
        }
    }
}

impl Clone for Request {
    fn clone(&self) -> (r: Self)
        ensures
            r@ == self@,
    {
        let messages = self.messages.clone();
        assert(messages_view(messages@) =~= messages_view(self.messages@));
        let schema = match &self.schema {
            Some(schema) => Some(schema.clone()),
            None => None,
        };
        Request {
            messages,
            temperature: self.temperature,
            max_tokens: self.max_tokens,
            sampling: self.sampling,
            schema,
            stream_structured: self.stream_structured,
        }
    }
}

/// Whether `r` asks for nothing.
pub open spec fn is_empty_request(r: Request) -> bool {
    &&& r.messages@.len() == 0
    &&& r.temperature is None
    &&& r.max_tokens is None
    &&& r.sampling is None
    &&& r.schema is None
    &&& !r.stream_structured
}

/// Whether `after` is `before` with one more message at the end.
pub open spec fn appends_message(
    before: Request,
    after: Request,
    role: Role,
    content: Seq<char>,
) -> bool {
    &&& after.messages@.len() == before.messages@.len() + 1
    &&& after.messages@.drop_last() == before.messages@
    &&& after.messages@.last()@ == (MessageView { role, content })
    &&& after == (Request { messages: after.messages, ..before })
}

impl Default for Request {
    fn default() -> (r: Self)
        ensures
            is_empty_request(r),
    {
        Request {
            messages: Vec::new(),
            temperature: None,
            max_tokens: None,
            sampling: None,
            schema: None,
            stream_structured: false,
        }
    }
}

impl Request {
    /// Creates an empty request.
    pub fn new() -> (r: Self)
        ensures
            is_empty_request(r),
    {
        Self::default()
    }

    /// Appends a message.
    pub fn message(self, role: Role, content: &str) -> (r: Self)
        ensures
            appends_message(self, r, role, content@),
    {
        let mut messages = self.messages;
        messages.push(Message::new(role, content));
        assert(messages@.drop_last() =~= self.messages@);
        Request { messages, ..self }
    }

    /// Appends a `system` message.
    pub fn system(self, content: &str) -> (r: Self)
        ensures
            appends_message(self, r, Role::System, content@),
    {
        self.message(Role::System, content)
    }

    /// Appends a `user` message.
    pub fn user(self, content: &str) -> (r: Self)
        ensures
            appends_message(self, r, Role::User, content@),
    {
        self.message(Role::User, content)
    }

    /// Appends an `assistant` message.
    pub fn assistant(self, content: &str) -> (r: Self)
        ensures
            appends_message(self, r, Role::Assistant, content@),
    {
        self.message(Role::Assistant, content)
    }

    /// Appends many messages at once.
    pub fn messages(self, messages: Vec<Message>) -> (r: Self)
        ensures
            r.messages@ == self.messages@ + messages@,
            r == (Request { messages: r.messages, ..self }),
    {
        let mut all = self.messages;
        let mut more = messages;
        all.append(&mut more);
        Request { messages: all, ..self }
    }

    /// Sets the sampling temperature.
    pub fn temperature(self, temperature: Double) -> (r: Self)
        ensures
            r == (Request { temperature: Some(temperature), ..self }),
    {
        Request { temperature: Some(temperature), ..self }
    }

    /// Caps the number of tokens in the response.
    pub fn max_tokens(self, max_tokens: u32) -> (r: Self)
        ensures
            r == (Request { max_tokens: Some(max_tokens), ..self }),
    {
        Request { max_tokens: Some(max_tokens), ..self }
    }

    /// Sets the token-selection strategy.
    pub fn sampling(self, sampling: Sampling) -> (r: Self)
        ensures
            r == (Request { sampling: Some(sampling), ..self }),
    {
        Request { sampling: Some(sampling), ..self }
    }

    /// Forces the response to satisfy `schema`.
    pub fn schema(self, schema: Schema) -> (r: Self)
        ensures
            r == (Request { schema: Some(schema), ..self }),
    {
        Request { schema: Some(schema), ..self }
    }

    /// Requests partial snapshots while a structured response streams.
    ///
    /// Only meaningful together with [`schema`](Self::schema) and
    /// [`Bridge::stream`](crate::Bridge::stream).
    pub fn stream_structured(self, enabled: bool) -> (r: Self)
        ensures
            r == (Request { stream_structured: enabled, ..self }),
    {
        Request { stream_structured: enabled, ..self }
    }
}

/// Approximate token accounting.
///
/// The Foundation Models framework does not expose real token counts to third-party callers, so
/// these are **estimates** derived from character length (roughly four characters per token). Use
/// them for rough budgeting, not for billing.
#[derive(Clone, Copy, Debug, PartialEq, Eq, Structural)]
pub struct Usage {
    /// Estimated tokens consumed by instructions and prompt.
    pub prompt_tokens: u32,
    /// Estimated tokens produced in the response.
    pub completion_tokens: u32,
}

/// No tokens at all.
pub open spec fn no_usage() -> Usage {
    Usage { prompt_tokens: 0, completion_tokens: 0 }
}

impl Default for Usage {
    fn default() -> (r: Self)
        ensures
            r == no_usage(),
    {
        Usage { prompt_tokens: 0, completion_tokens: 0 }
    }
}

impl Usage {
    /// Estimated total tokens.
    pub fn total_tokens(&self) -> (r: u32)
        ensures
            r == if self.prompt_tokens + self.completion_tokens > u32::MAX {
                u32::MAX as int
            } else {
                self.prompt_tokens + self.completion_tokens
            },
    {
        self.prompt_tokens.saturating_add(self.completion_tokens)
    }
}

/// A finished, non-streaming response.
#[derive(Debug, PartialEq)]
pub struct Completion {
    /// Concatenated text. Empty for structured responses.
    pub text: String,
    /// The generated object, when the request carried a schema.
    pub structured: Option<serde_json::Value>,
    /// Approximate token usage.
    pub usage: Usage,
}

/// A [`Completion`] with its text as a character sequence.
pub struct CompletionView {
    pub text: Seq<char>,
    pub structured: Option<serde_json::Value>,
    pub usage: Usage,
}

impl View for Completion {
    type V = CompletionView;

    open spec fn view(&self) -> CompletionView {
        CompletionView { text: self.text@, structured: self.structured, usage: self.usage }
    }
}

/// A response that has nothing in it yet.
pub open spec fn empty_completion() -> CompletionView {
    CompletionView { text: Seq::empty(), structured: None, usage: no_usage() }
}

impl Default for Completion {
    fn default() -> (r: Self)
        ensures
            r@ == empty_completion(),
    {
        Completion { text: String::new(), structured: None, usage: Usage::default() }
    }
}

impl Clone for Completion {
    fn clone(&self) -> (r: Self)
        ensures
            r@ == self@,
    {
        let structured = match &self.structured {
            Some(value) => Some(value.clone()),
            None => None,
        };
        Completion { text: self.text.clone(), structured, usage: self.usage }
    }
}

impl Completion {
    /// The structured payload, ready to be deserialized.
    ///
    /// Returns [`Error::Protocol`] when the response carried no structured payload.
    pub fn parse(&self) -> (r: Result<serde_json::Value, Error>)
        ensures
            match self.structured {
                Some(value) => r == Ok::<serde_json::Value, Error>(value),
                None => r matches Err(error) && error@ == ErrorView::Protocol(
                    "response contained no structured payload"@,
                ),
            },
    {
        match &self.structured {
            Some(value) => Ok(value.clone()),
            None => Err(Error::Protocol("response contained no structured payload".to_string())),
        }
    }
}

/// One event from a streaming response.
#[derive(Debug, PartialEq)]
#[non_exhaustive]
pub enum StreamEvent {
    /// A newly generated chunk of text. Concatenate these in order.
    Delta(String),
    /// A partially-filled structured object.
    ///
    /// Only emitted when [`Request::stream_structured`] is enabled.
    Snapshot(serde_json::Value),
    /// The finished structured object.
    Structured(serde_json::Value),
    /// Generation finished; carries the usage estimate.
    Done(Usage),
}

/// A [`StreamEvent`] with its text as a character sequence.
pub enum EventView {
    Delta(Seq<char>),
    Snapshot(serde_json::Value),
    Structured(serde_json::Value),
    Done(Usage),
}

impl View for StreamEvent {
    type V = EventView;

    open spec fn view(&self) -> EventView {
        match *self {
            StreamEvent::Delta(text) => EventView::Delta(text@),
            StreamEvent::Snapshot(value) => EventView::Snapshot(value),
            StreamEvent::Structured(value) => EventView::Structured(value),
            StreamEvent::Done(usage) => EventView::Done(usage),
        }
    }
}

impl Clone for StreamEvent {
    fn clone(&self) -> (r: Self)
        ensures
            r@ == self@,
    {
        match self {
            StreamEvent::Delta(text) => StreamEvent::Delta(text.clone()),
            StreamEvent::Snapshot(value) => StreamEvent::Snapshot(value.clone()),
            StreamEvent::Structured(value) => StreamEvent::Structured(value.clone()),
            StreamEvent::Done(usage) => StreamEvent::Done(*usage),
        }
    }
}

} // verus!
