use fm_bridge::wire::{frame, WireRequest, WireValue};
use fm_bridge::{Double, Message, Request, Sampling, Schema, SchemaProperty};

fn double(x: f64) -> Double {
    Double::from_bits(x.to_bits())
}

/// The document as a JSON value.
fn json_of(document: &WireValue) -> serde_json::Value {
    match document {
        WireValue::Null => serde_json::Value::Null,
        WireValue::Bool(truth) => serde_json::Value::Bool(*truth),
        WireValue::Unsigned(n) => serde_json::Value::from(*n),
        WireValue::Double(number) => serde_json::Value::from(f64::from_bits(number.to_bits())),
        WireValue::Text(text) => serde_json::Value::from(text.as_str()),
        WireValue::List(values) => {
            serde_json::Value::Array(values.iter().map(|value| json_of(value)).collect())
        }
        WireValue::Object(members) => serde_json::Value::Object(
            members.iter().map(|(key, value)| (key.clone(), json_of(value))).collect(),
        ),
    }
}

fn sent(request: &Request, stream: bool) -> serde_json::Value {
    json_of(&WireRequest::new(request, stream).document())
}

fn keys(document: &WireValue) -> Vec<String> {
    match document {
        WireValue::Object(members) => members.iter().map(|(key, _)| key.clone()).collect(),
        other => panic!("expected an object, got {other:?}"),
    }
}

#[test]
fn serializes_request_with_camel_case_keys() {
    let request = Request::new()
        .system("be brief")
        .user("hello")
        .temperature(double(0.5))
        .max_tokens(128)
        .sampling(Sampling::TopK { top: 40, seed: Some(7) });

    let json = sent(&request, true);

    assert_eq!(json["stream"], true);
    assert_eq!(json["maxTokens"], 128);
    assert_eq!(json["topK"], 40);
    assert_eq!(json["seed"], 7);
    assert_eq!(json["messages"][0]["role"], "system");
    assert_eq!(json["messages"][1]["content"], "hello");
    assert!(json.get("greedy").is_none());
}

#[test]
fn greedy_sampling_sets_flag() {
    let request = Request::new().user("hi").sampling(Sampling::Greedy);
    let json = sent(&request, false);

    assert_eq!(json["greedy"], true);
    assert_eq!(json["stream"], false);
    assert!(json.get("topK").is_none());
}

#[test]
fn serializes_nested_schema() {
    let schema = Schema::new(
        "Person",
        vec![
            SchemaProperty::string("name"),
            SchemaProperty::string("mood").any_of(&["happy", "sad"]),
            SchemaProperty::integer("age").range(double(0.0), double(120.0)).optional(),
            SchemaProperty::array("tags", SchemaProperty::string("tag")).count(Some(1), Some(5)),
            SchemaProperty::object("address", vec![SchemaProperty::string("city")]),
        ],
    );
    let request = Request::new().user("hi").schema(schema);
    let json = sent(&request, false);
    let properties = &json["schema"]["properties"];

    assert_eq!(properties[0]["type"], "string");
    assert_eq!(properties[1]["anyOf"][1], "sad");
    assert_eq!(properties[2]["optional"], true);
    assert_eq!(properties[2]["range"][1], 120.0);
    assert_eq!(properties[3]["items"]["type"], "string");
    assert_eq!(properties[3]["count"][1], 5);
    assert_eq!(properties[4]["properties"][0]["name"], "city");
    // `optional: false` is omitted rather than sent explicitly.
    assert!(properties[0].get("optional").is_none());
}

#[test]
fn writes_expected_wire_format_for_text_requests() {
    let request = Request::new()
        .system("be brief")
        .user("hello")
        .temperature(double(0.3))
        .max_tokens(256)
        .sampling(Sampling::TopK { top: 20, seed: Some(99) });
    let sent = sent(&request, true);

    assert_eq!(sent["messages"][0]["role"], "system");
    assert_eq!(sent["messages"][0]["content"], "be brief");
    assert_eq!(sent["messages"][1]["role"], "user");
    assert_eq!(sent["stream"], true);
    assert_eq!(sent["temperature"], 0.3);
    assert_eq!(sent["maxTokens"], 256);
    assert_eq!(sent["topK"], 20);
    assert_eq!(sent["seed"], 99);
    assert!(sent.get("schema").is_none());
}

#[test]
fn members_come_in_a_fixed_order_and_only_where_set() {
    let bare = Request::new().user("hi");
    assert_eq!(keys(&WireRequest::new(&bare, true).document()), ["messages", "stream"]);

    let full = Request::new()
        .user("hi")
        .temperature(double(1.0))
        .max_tokens(1)
        .sampling(Sampling::TopK { top: 2, seed: Some(3) })
        .schema(Schema::new("S", vec![SchemaProperty::boolean("b")]))
        .stream_structured(true);
    assert_eq!(
        keys(&WireRequest::new(&full, true).document()),
        [
            "messages",
            "stream",
            "temperature",
            "maxTokens",
            "topK",
            "seed",
            "schema",
            "streamStructured",
        ]
    );

    let seedless = Request::new().user("hi").sampling(Sampling::TopK { top: 2, seed: None });
    assert_eq!(keys(&WireRequest::new(&seedless, false).document()), ["messages", "stream", "topK"]);
}

#[test]
fn snapshots_are_asked_for_only_of_streams() {
    let request = Request::new().user("hi").stream_structured(true);
    assert_eq!(sent(&request, true)["streamStructured"], true);
    assert!(sent(&request, false).get("streamStructured").is_none());
    let plain = Request::new().user("hi");
    assert!(sent(&plain, true).get("streamStructured").is_none());
}

#[test]
fn property_members_come_in_a_fixed_order() {
    let property = SchemaProperty::array("tags", SchemaProperty::string("tag"))
        .description("labels")
        .count(None, Some(5))
        .optional();
    let document = property.document();
    assert_eq!(keys(&document), ["name", "description", "type", "items", "count", "optional"]);
    let json = json_of(&document);
    assert_eq!(json["count"][0], serde_json::Value::Null);
    assert_eq!(json["count"][1], 5);
    assert_eq!(json["items"]["name"], "tag");
    assert_eq!(json["type"], "array");

    let number = SchemaProperty::number("x").range(double(-0.5), double(2.25)).pattern("p");
    assert_eq!(keys(&number.document()), ["name", "type", "range", "pattern"]);
    assert_eq!(json_of(&number.document())["range"][0], -0.5);
}

#[test]
fn schema_members_come_in_a_fixed_order() {
    let schema = Schema::new("S", vec![SchemaProperty::boolean("b")]);
    assert_eq!(keys(&schema.document()), ["name", "properties"]);
    let described = schema.description("all of it");
    assert_eq!(keys(&described.document()), ["name", "description", "properties"]);
    assert_eq!(json_of(&described.document())["description"], "all of it");
    assert_eq!(json_of(&described.document())["properties"][0]["type"], "boolean");
}

#[test]
fn messages_name_their_role() {
    assert_eq!(json_of(&Message::system("a").document())["role"], "system");
    assert_eq!(json_of(&Message::user("a").document())["role"], "user");
    let reply = json_of(&Message::assistant("b").document());
    assert_eq!(reply["role"], "assistant");
    assert_eq!(reply["content"], "b");
}

#[test]
fn a_frame_is_one_line() {
    assert_eq!(frame(vec![0x7b, 0x7d]), vec![0x7b, 0x7d, b'\n']);
    assert_eq!(frame(vec![]), vec![b'\n']);
}

#[test]
fn writes_expected_wire_format_for_structured_requests() {
    let schema = Schema::new(
        "Recipe",
        vec![
            SchemaProperty::string("title"),
            SchemaProperty::integer("minutes").range(double(1.0), double(240.0)),
            SchemaProperty::array("ingredients", SchemaProperty::string("item"))
                .count(Some(1), Some(10)),
        ],
    );
    let sent = sent(&Request::new().user("hi").schema(schema), false);

    // Non-streaming structured requests must not ask the helper to stream.
    assert_eq!(sent["stream"], false);
    assert_eq!(sent["schema"]["name"], "Recipe");
    assert_eq!(sent["schema"]["properties"][1]["type"], "integer");
    assert_eq!(sent["schema"]["properties"][1]["range"][1], 240.0);
    assert_eq!(sent["schema"]["properties"][2]["items"]["type"], "string");
    assert!(sent.get("streamStructured").is_none());
}

#[test]
fn greedy_sampling_is_sent_as_a_flag() {
    let sent = sent(&Request::new().user("hi").sampling(Sampling::Greedy), true);

    assert_eq!(sent["greedy"], true);
    assert!(sent.get("topK").is_none());
    assert!(sent.get("seed").is_none());
}
