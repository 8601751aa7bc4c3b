use fm_bridge::events::{
    clamp_count, field_u32, interpret, parse_line, read_fields, read_line, WireEvent,
};
use fm_bridge::{Error, StreamEvent, Unavailable, Usage};

fn value(text: &str) -> serde_json::Value {
    serde_json::from_str(text).expect("valid JSON")
}

fn nothing() -> WireEvent {
    WireEvent {
        error: None,
        code: None,
        reason: None,
        done: None,
        usage: None,
        structured: None,
        snapshot: None,
        delta: None,
        ready: false,
    }
}

#[test]
fn parses_every_event_kind() {
    assert_eq!(
        parse_line(r#"{"delta":"hi"}"#).unwrap(),
        Some(StreamEvent::Delta("hi".into()))
    );
    assert!(matches!(
        parse_line(r#"{"structured":{"a":1}}"#).unwrap(),
        Some(StreamEvent::Structured(_))
    ));
    assert!(matches!(
        parse_line(r#"{"snapshot":{"a":null}}"#).unwrap(),
        Some(StreamEvent::Snapshot(_))
    ));

    let done =
        parse_line(r#"{"done":true,"usage":{"promptTokens":3,"completionTokens":9}}"#).unwrap();
    assert_eq!(
        done,
        Some(StreamEvent::Done(Usage {
            prompt_tokens: 3,
            completion_tokens: 9
        }))
    );

    // Unknown, blank, and non-JSON lines are ignored rather than fatal.
    assert_eq!(parse_line("").unwrap(), None);
    assert_eq!(parse_line("not json at all").unwrap(), None);
    assert_eq!(
        parse_line(r#"{"ready":{"model":"on-device"}}"#).unwrap(),
        None
    );
}

#[test]
fn maps_error_codes_to_variants() {
    let cases = [
        (
            r#"{"error":"off","code":"model_unavailable"}"#,
            "model_unavailable",
        ),
        (r#"{"error":"bad","code":"bad_request"}"#, "bad_request"),
        (
            r#"{"error":"nope","code":"schema_invalid"}"#,
            "schema_invalid",
        ),
        (
            r#"{"error":"blocked","code":"guardrail_violation"}"#,
            "guardrail_violation",
        ),
        (
            r#"{"error":"full","code":"context_exceeded"}"#,
            "context_exceeded",
        ),
    ];

    for (line, code) in cases {
        let error = parse_line(line).unwrap_err();
        let matched = matches!(
            (code, &error),
            ("model_unavailable", Error::ModelUnavailable { .. })
                | ("bad_request", Error::BadRequest(_))
                | ("schema_invalid", Error::InvalidSchema(_))
                | ("guardrail_violation", Error::GuardrailViolation(_))
                | ("context_exceeded", Error::ContextExceeded(_))
        );
        assert!(matched, "code {code} produced {error:?}");
    }

    // Unknown codes, and errors with no code at all, degrade gracefully.
    assert!(matches!(
        parse_line(r#"{"error":"???","code":"brand_new_code"}"#).unwrap_err(),
        Error::Generation(_)
    ));
    assert!(matches!(
        parse_line(r#"{"error":"plain"}"#).unwrap_err(),
        Error::Generation(_)
    ));
}

#[test]
fn failures_carry_their_message_and_reason() {
    let line = r#"{"error":"still downloading","code":"model_unavailable","reason":"model_not_ready"}"#;
    match parse_line(line).unwrap_err() {
        Error::ModelUnavailable { reason, message } => {
            assert_eq!(reason, Unavailable::ModelNotReady);
            assert_eq!(message, "still downloading");
        }
        other => panic!("expected ModelUnavailable, got {other:?}"),
    }
    // A reason that is missing, or no string, is unknown.
    for line in [
        r#"{"error":"x","code":"model_unavailable"}"#,
        r#"{"error":"x","code":"model_unavailable","reason":7}"#,
        r#"{"error":"x","code":"model_unavailable","reason":"brand_new"}"#,
    ] {
        assert!(matches!(
            parse_line(line),
            Err(Error::ModelUnavailable { reason: Unavailable::Unknown, .. })
        ));
    }
    assert!(matches!(
        parse_line(r#"{"error":"m","code":3}"#),
        Err(Error::Generation(m)) if m == "m"
    ));
}

#[test]
fn white_space_round_a_line_does_not_matter() {
    assert_eq!(
        parse_line("  \t{\"delta\":\" hi \"}\r").unwrap(),
        Some(StreamEvent::Delta(" hi ".to_string()))
    );
    assert_eq!(parse_line(" \u{2003}\t").unwrap(), None);
    // White space that JSON itself does not know is trimmed too.
    assert_eq!(
        parse_line("\u{a0}{\"delta\":\"x\"}\u{a0}").unwrap(),
        Some(StreamEvent::Delta("x".to_string()))
    );
}

#[test]
fn lines_that_are_no_object_mean_nothing() {
    for line in ["[]", "\"delta\"", "1", "true", "null", "{", "{} {}", "{\"delta\":\"x\"}x", "{}"] {
        assert_eq!(parse_line(line).unwrap(), None, "{line}");
    }
}

#[test]
fn members_of_the_wrong_type_mean_nothing() {
    for line in [
        r#"{"delta":3}"#,
        r#"{"error":3}"#,
        r#"{"error":null,"code":"bad_request"}"#,
        r#"{"done":false}"#,
        r#"{"done":1}"#,
        r#"{"done":"true"}"#,
        r#"{"usage":{"promptTokens":1}}"#,
        r#"{"Delta":"x"}"#,
    ] {
        assert_eq!(parse_line(line).unwrap(), None, "{line}");
    }
}

#[test]
fn failures_outrank_everything_on_a_line() {
    let all = r#"{"error":"e","done":true,"structured":1,"snapshot":2,"delta":"d"}"#;
    assert!(matches!(parse_line(all), Err(Error::Generation(m)) if m == "e"));
    let rest = r#"{"delta":"d","snapshot":2,"structured":1,"done":true}"#;
    assert_eq!(parse_line(rest).unwrap(), Some(StreamEvent::Done(Usage::default())));
    let rest = r#"{"delta":"d","snapshot":2,"structured":1,"done":false}"#;
    assert_eq!(parse_line(rest).unwrap(), Some(StreamEvent::Structured(value("1"))));
    let rest = r#"{"delta":"d","snapshot":2}"#;
    assert_eq!(parse_line(rest).unwrap(), Some(StreamEvent::Snapshot(value("2"))));
}

#[test]
fn null_payloads_are_payloads() {
    assert_eq!(
        parse_line(r#"{"structured":null}"#).unwrap(),
        Some(StreamEvent::Structured(serde_json::Value::Null))
    );
    assert_eq!(
        parse_line(r#"{"snapshot":null}"#).unwrap(),
        Some(StreamEvent::Snapshot(serde_json::Value::Null))
    );
}

#[test]
fn structured_payloads_are_kept_whole() {
    let line = r#"{"structured":{"title":"Cacio e Pepe","minutes":15,"ingredients":["pasta"]}}"#;
    match parse_line(line).unwrap() {
        Some(StreamEvent::Structured(object)) => {
            assert_eq!(object["title"], "Cacio e Pepe");
            assert_eq!(object["minutes"], 15);
            assert_eq!(object["ingredients"][0], "pasta");
        }
        other => panic!("expected Structured, got {other:?}"),
    }
}

#[test]
fn counts_are_clamped() {
    assert_eq!(clamp_count(None), 0);
    assert_eq!(clamp_count(Some(0)), 0);
    assert_eq!(clamp_count(Some(4294967295)), u32::MAX);
    assert_eq!(clamp_count(Some(4294967296)), u32::MAX);
    assert_eq!(clamp_count(Some(u64::MAX)), u32::MAX);
    assert_eq!(clamp_count(Some(12)), 12);
}

#[test]
fn counts_are_read_from_a_member() {
    let usage = value(
        r#"{"a":5,"big":18446744073709551615,"huge":18446744073709551616,"neg":-1,"half":1.5,"whole":2.0,"text":"7"}"#,
    );
    assert_eq!(field_u32(&usage, "a"), 5);
    assert_eq!(field_u32(&usage, "big"), u32::MAX);
    for key in ["huge", "neg", "half", "whole", "text", "missing"] {
        assert_eq!(field_u32(&usage, key), 0, "{key}");
    }
    assert_eq!(field_u32(&value("[5]"), "a"), 0);
}

#[test]
fn usage_is_read_where_it_is_given() {
    let done = |line: &str| match parse_line(line).unwrap() {
        Some(StreamEvent::Done(usage)) => (usage.prompt_tokens, usage.completion_tokens),
        other => panic!("expected Done, got {other:?}"),
    };
    assert_eq!(done(r#"{"done":true}"#), (0, 0));
    assert_eq!(done(r#"{"done":true,"usage":null}"#), (0, 0));
    assert_eq!(done(r#"{"done":true,"usage":{"promptTokens":7}}"#), (7, 0));
    assert_eq!(done(r#"{"done":true,"usage":{"completionTokens":99999999999}}"#), (0, u32::MAX));
}

#[test]
fn fields_are_read_off_an_object() {
    let fields = read_fields(&value(
        r#"{"error":"e","code":"c","reason":"r","done":true,"usage":{"promptTokens":1},
            "structured":[1],"snapshot":{},"delta":"d"}"#,
    ))
    .expect("an object");
    assert_eq!(fields.error.as_deref(), Some("e"));
    assert_eq!(fields.code.as_deref(), Some("c"));
    assert_eq!(fields.reason.as_deref(), Some("r"));
    assert_eq!(fields.done, Some(true));
    assert_eq!(fields.usage, Some(Usage { prompt_tokens: 1, completion_tokens: 0 }));
    assert_eq!(fields.structured, Some(value("[1]")));
    assert_eq!(fields.snapshot, Some(value("{}")));
    assert_eq!(fields.delta.as_deref(), Some("d"));
    assert!(read_fields(&value("[]")).is_none());
    assert!(read_fields(&value("{}")).expect("an object").delta.is_none());
}

#[test]
fn fields_are_interpreted_by_rank() {
    assert_eq!(interpret(nothing()).unwrap(), None);
    assert_eq!(
        interpret(WireEvent { delta: Some("d".to_string()), ..nothing() }).unwrap(),
        Some(StreamEvent::Delta("d".to_string()))
    );
    let usage = Usage { prompt_tokens: 1, completion_tokens: 2 };
    assert_eq!(
        interpret(WireEvent {
            done: Some(true),
            usage: Some(usage),
            delta: Some("d".to_string()),
            ..nothing()
        })
        .unwrap(),
        Some(StreamEvent::Done(usage))
    );
    assert!(matches!(
        interpret(WireEvent {
            error: Some("m".to_string()),
            code: Some("schema_invalid".to_string()),
            done: Some(true),
            ..nothing()
        }),
        Err(Error::InvalidSchema(m)) if m == "m"
    ));
}

#[test]
fn readiness_is_read_off_the_object() {
    let ready = |line: &str| read_line(line).is_some_and(|fields| fields.announces_ready());
    assert!(ready(r#"{"ready":{"available":true,"contextSize":4096,"supportedLanguages":["en"]}}"#));
    assert!(ready(r#"  {"ready":{"model":"on-device"}}  "#));
    assert!(ready(r#"{"ready":true,"error":null}"#));
    for line in [
        "",
        "so \"ready\" now",
        r#"["ready"]"#,
        r#""ready""#,
        r#"{"delta":"ready"}"#,
        r#"{"log":{"ready":true}}"#,
        r#"{"error":"off","ready":{}}"#,
    ] {
        assert!(!ready(line), "{line}");
    }
}

#[test]
fn lines_are_read_or_skipped() {
    assert_eq!(read_line(r#"{"delta":"d"}"#).and_then(|fields| fields.delta).as_deref(), Some("d"));
    assert!(read_line(r#"{"ready":null}"#).expect("an object").ready);
    assert!(!read_line("{}").expect("an object").ready);
    for line in ["", " \t", "{", "[]", "1"] {
        assert!(read_line(line).is_none(), "{line}");
    }
}
