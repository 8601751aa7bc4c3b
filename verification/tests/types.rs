use std::collections::HashMap;

use fm_bridge::{
    Completion, Double, Error, Message, Request, Role, Sampling, Schema, SchemaProperty,
    SchemaType, StreamEvent, Usage,
};

fn double(x: f64) -> Double {
    Double::from_bits(x.to_bits())
}

fn value(text: &str) -> serde_json::Value {
    serde_json::from_str(text).expect("valid JSON")
}

#[test]
fn usage_total_saturates() {
    let usage = Usage {
        prompt_tokens: u32::MAX,
        completion_tokens: 10,
    };
    assert_eq!(usage.total_tokens(), u32::MAX);
}

#[test]
fn usage_total_adds_up() {
    let usage = Usage { prompt_tokens: 7, completion_tokens: 4 };
    assert_eq!(usage.total_tokens(), 11);
    assert_eq!(Usage::default().total_tokens(), 0);
    let edge = Usage { prompt_tokens: u32::MAX - 1, completion_tokens: 1 };
    assert_eq!(edge.total_tokens(), u32::MAX);
}

#[test]
fn completion_parses_structured_payload() {
    let completion = Completion {
        structured: Some(value(r#"{ "name": "Ada" }"#)),
        ..Default::default()
    };
    let person: HashMap<String, String> =
        serde_json::from_value(completion.parse().unwrap()).unwrap();
    assert_eq!(person["name"], "Ada");

    let empty = Completion::default();
    assert!(matches!(empty.parse(), Err(Error::Protocol(_))));
}

#[test]
fn a_completion_without_payload_says_so() {
    let error = Completion::default().parse().unwrap_err();
    assert!(matches!(error, Error::Protocol(m) if m == "response contained no structured payload"));
}

#[test]
fn messages_carry_their_role_and_text() {
    assert_eq!(Message::system("a"), Message { role: Role::System, content: "a".to_string() });
    assert_eq!(Message::user("b"), Message::new(Role::User, "b"));
    assert_eq!(Message::assistant("c").role, Role::Assistant);
    assert_eq!(Message::assistant("c").content, "c");
}

#[test]
fn requests_are_built_step_by_step() {
    let request = Request::new()
        .system("You are terse.")
        .user("Say hi.")
        .temperature(double(0.4))
        .max_tokens(64);
    assert_eq!(request.messages.len(), 2);
    assert_eq!(request.messages[0], Message::system("You are terse."));
    assert_eq!(request.messages[1], Message::user("Say hi."));
    assert_eq!(request.temperature.map(|t| f64::from_bits(t.to_bits())), Some(0.4));
    assert_eq!(request.max_tokens, Some(64));
    assert_eq!(request.sampling, None);
    assert_eq!(request.schema, None);
    assert!(!request.stream_structured);
}

#[test]
fn history_is_appended_in_order() {
    let history = vec![Message::user("first"), Message::assistant("second")];
    let request = Request::new()
        .message(Role::System, "start")
        .messages(history)
        .assistant("third")
        .sampling(Sampling::Greedy)
        .stream_structured(true);
    let texts: Vec<&str> = request.messages.iter().map(|m| m.content.as_str()).collect();
    assert_eq!(texts, ["start", "first", "second", "third"]);
    assert_eq!(request.messages[3].role, Role::Assistant);
    assert_eq!(request.sampling, Some(Sampling::Greedy));
    assert!(request.stream_structured);
}

#[test]
fn properties_carry_exactly_what_was_set() {
    let plain = SchemaProperty::number("ratio");
    assert_eq!(plain.name, "ratio");
    assert_eq!(plain.property_type, SchemaType::Number);
    assert_eq!(plain.description, None);
    assert_eq!(plain.properties, None);
    assert_eq!(plain.items, None);
    assert_eq!(plain.range, None);
    assert_eq!(plain.any_of, None);
    assert_eq!(plain.pattern, None);
    assert_eq!(plain.count, None);
    assert!(!plain.optional);

    let full = SchemaProperty::string("word")
        .description("a word")
        .any_of(&["yes", "no"])
        .pattern("[a-z]+")
        .optional();
    assert_eq!(full.property_type, SchemaType::String);
    assert_eq!(full.description.as_deref(), Some("a word"));
    assert_eq!(full.any_of, Some(vec!["yes".to_string(), "no".to_string()]));
    assert_eq!(full.pattern.as_deref(), Some("[a-z]+"));
    assert!(full.optional);

    assert_eq!(SchemaProperty::boolean("b").property_type, SchemaType::Boolean);
    let list = SchemaProperty::array("l", SchemaProperty::integer("i")).count(Some(1), None);
    assert_eq!(list.property_type, SchemaType::Array);
    assert_eq!(list.items.as_ref().map(|i| i.property_type), Some(SchemaType::Integer));
    assert_eq!(list.count, Some([Some(1), None]));
    let bounded = SchemaProperty::integer("n").range(double(1.0), double(240.0));
    assert_eq!(bounded.range, Some([double(1.0), double(240.0)]));
}

#[test]
fn copies_are_equal_at_every_depth() {
    let schema = Schema::new(
        "Order",
        vec![
            SchemaProperty::object(
                "customer",
                vec![SchemaProperty::string("name").any_of(&["x", "y"]).description("who")],
            ),
            SchemaProperty::array("lines", SchemaProperty::number("price")).count(None, Some(3)),
        ],
    )
    .description("an order");
    assert_eq!(schema.clone(), schema);
    assert_eq!(schema.description.as_deref(), Some("an order"));

    let request = Request::new().user("hi").schema(schema).temperature(double(0.25));
    assert_eq!(request.clone(), request);

    let completion = Completion {
        text: "t".to_string(),
        structured: Some(value("[1, 2]")),
        usage: Usage { prompt_tokens: 1, completion_tokens: 2 },
    };
    assert_eq!(completion.clone(), completion);

    for event in [
        StreamEvent::Delta("d".to_string()),
        StreamEvent::Snapshot(value("{}")),
        StreamEvent::Structured(value(r#"{"a":1}"#)),
        StreamEvent::Done(Usage { prompt_tokens: 3, completion_tokens: 4 }),
    ] {
        assert_eq!(event.clone(), event);
    }
}
