use fm_bridge::{Double, Error, Message, Request, Schema, SchemaProperty};

fn double(x: f64) -> Double {
    Double::from_bits(x.to_bits())
}

fn schema_reason(properties: Vec<SchemaProperty>) -> String {
    match Request::new().user("hi").schema(Schema::new("S", properties)).validate() {
        Err(Error::InvalidSchema(why)) => why,
        other => panic!("expected InvalidSchema, got {other:?}"),
    }
}

fn request_reason(request: Request) -> String {
    match request.validate() {
        Err(Error::BadRequest(why)) => why,
        other => panic!("expected BadRequest, got {other:?}"),
    }
}

#[test]
fn rejects_requests_without_a_user_turn() {
    let error = Request::new().system("only instructions").validate().unwrap_err();
    assert!(matches!(error, Error::BadRequest(_)));
}

#[test]
fn rejects_malformed_schemas() {
    let empty = Request::new().user("hi").schema(Schema::new("Empty", vec![]));
    assert!(matches!(empty.validate(), Err(Error::InvalidSchema(_))));

    let bad_object = Request::new().user("hi").schema(Schema::new(
        "S",
        vec![SchemaProperty::object("nested", vec![])],
    ));
    assert!(matches!(bad_object.validate(), Err(Error::InvalidSchema(_))));

    let inverted = Request::new().user("hi").schema(Schema::new(
        "S",
        vec![SchemaProperty::integer("n").range(double(10.0), double(1.0))],
    ));
    assert!(matches!(inverted.validate(), Err(Error::InvalidSchema(_))));
}

#[test]
fn rejects_invalid_temperature() {
    let request = Request::new().user("hi").temperature(double(-1.0));
    assert!(matches!(request.validate(), Err(Error::BadRequest(_))));
}

#[test]
fn refusals_say_what_is_wrong_with_a_request() {
    assert_eq!(
        request_reason(Request::new()),
        "request needs at least one user or assistant message"
    );
    assert_eq!(
        request_reason(Request::new().user(" \t\n").assistant("\u{3000}")),
        "all messages are empty"
    );
    for bad in [-1.0, -f64::MIN_POSITIVE, f64::NAN, f64::INFINITY, f64::NEG_INFINITY] {
        assert_eq!(
            request_reason(Request::new().user("hi").temperature(double(bad))),
            "temperature must be a finite, non-negative number"
        );
    }
}

#[test]
fn sound_requests_pass() {
    for good in [0.0, -0.0, f64::MIN_POSITIVE, 0.7, 2.0, f64::MAX] {
        assert!(Request::new().user("hi").temperature(double(good)).validate().is_ok());
    }
    // One message with text is enough, whoever speaks; an assistant turn counts as a turn.
    assert!(Request::new().system("be brief").user(" ").validate().is_ok());
    assert!(Request::new().messages(vec![Message::assistant("so far")]).validate().is_ok());
    let schema = Schema::new(
        "Recipe",
        vec![
            SchemaProperty::string("title"),
            SchemaProperty::integer("minutes").range(double(1.0), double(240.0)),
            SchemaProperty::array("ingredients", SchemaProperty::string("item"))
                .count(Some(1), Some(10)),
            SchemaProperty::object("source", vec![SchemaProperty::boolean("own")]),
        ],
    );
    assert!(Request::new().user("hi").schema(schema).validate().is_ok());
}

#[test]
fn the_first_complaint_wins() {
    // The turn is looked at before the temperature, and the temperature before the schema.
    let request = Request::new()
        .system("x")
        .temperature(double(-1.0))
        .schema(Schema::new("", vec![]));
    assert_eq!(
        request_reason(request),
        "request needs at least one user or assistant message"
    );
    let request =
        Request::new().user("x").temperature(double(-1.0)).schema(Schema::new("", vec![]));
    assert_eq!(request_reason(request), "temperature must be a finite, non-negative number");
    // The earliest faulty property is the one that is reported.
    assert_eq!(
        schema_reason(vec![
            SchemaProperty::string("fine"),
            SchemaProperty::object("first", vec![]),
            SchemaProperty::string(" "),
        ]),
        "object property 'first' has no nested properties"
    );
}

#[test]
fn refusals_say_what_is_wrong_with_a_schema() {
    let unnamed = Schema::new(" ", vec![SchemaProperty::string("a")]);
    assert_eq!(unnamed.validate(), Err("schema name must not be empty".to_string()));
    let hollow = Schema::new("Hollow", vec![]);
    assert_eq!(hollow.validate(), Err("schema 'Hollow' declares no properties".to_string()));

    assert_eq!(
        schema_reason(vec![SchemaProperty::string("\n")]),
        "a schema property has an empty name"
    );
    let mut missing = SchemaProperty::object("o", vec![]);
    missing.properties = None;
    assert_eq!(schema_reason(vec![missing]), "object property 'o' has no nested properties");
    let mut itemless = SchemaProperty::array("a", SchemaProperty::string("i"));
    itemless.items = None;
    assert_eq!(schema_reason(vec![itemless]), "array property 'a' is missing `items`");
    assert_eq!(
        schema_reason(vec![
            SchemaProperty::array("a", SchemaProperty::string("i")).count(Some(3), Some(2))
        ]),
        "array property 'a' has min count > max count"
    );
    assert_eq!(
        schema_reason(vec![SchemaProperty::number("n").range(double(0.5), double(0.25))]),
        "property 'n' has an inverted range"
    );
}

#[test]
fn faults_are_found_at_every_depth() {
    let deep = SchemaProperty::object(
        "a",
        vec![SchemaProperty::array(
            "b",
            SchemaProperty::object(
                "c",
                vec![SchemaProperty::integer("d").range(double(2.0), double(1.0))],
            ),
        )],
    );
    assert_eq!(deep.validate(), Err("property 'd' has an inverted range".to_string()));
    // The elements of a list are looked at before its count.
    let both = SchemaProperty::array("list", SchemaProperty::string("")).count(Some(2), Some(1));
    assert_eq!(both.validate(), Err("a schema property has an empty name".to_string()));
}

#[test]
fn bounds_that_do_not_apply_are_not_looked_at() {
    let text = SchemaProperty::string("s")
        .range(double(2.0), double(1.0))
        .count(Some(2), Some(1));
    assert_eq!(text.validate(), Ok(()));
    let number = SchemaProperty::number("n").count(Some(2), Some(1));
    assert_eq!(number.validate(), Ok(()));
    let list = SchemaProperty::array("l", SchemaProperty::string("i"))
        .range(double(2.0), double(1.0))
        .count(Some(2), None);
    assert_eq!(list.validate(), Ok(()));
    // What is not a number is never above anything.
    let odd = SchemaProperty::number("n").range(double(f64::NAN), double(1.0));
    assert_eq!(odd.validate(), Ok(()));
    let even = SchemaProperty::number("n").range(double(0.0), double(-0.0));
    assert_eq!(even.validate(), Ok(()));
}

#[test]
fn refusals_are_not_worth_retrying() {
    assert!(!Request::new().validate().unwrap_err().is_retryable());
    let empty = Request::new().user("hi").schema(Schema::new("Empty", vec![]));
    assert!(!empty.validate().unwrap_err().is_retryable());
}
