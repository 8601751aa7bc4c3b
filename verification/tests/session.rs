use std::io::ErrorKind;
use std::path::{Path, PathBuf};
use std::time::Duration;

use fm_bridge::session::{
    acquire_slot, conclude, timed_out, unanswered, Exit, Pending, ReadOutcome, ReapOutcome,
    Running, SlotOutcome, StartOutcome, Step,
};
use fm_bridge::{
    Bridge, Completion, Double, Error, Request, Schema, SchemaProperty, StreamEvent, Unavailable,
    Usage,
};

fn bridge() -> Bridge {
    Bridge::new(PathBuf::from("/tmp/FMBridge"))
}

fn double(x: f64) -> Double {
    Double::from_bits(x.to_bits())
}

fn io_error(kind: ErrorKind) -> std::io::Error {
    std::io::Error::new(kind, "trouble")
}

fn granted(bridge: &Bridge) -> SlotOutcome {
    SlotOutcome::Granted(bridge.limiter().try_acquire_owned().expect("a free slot"))
}

fn exit(code: i32, stderr: &str) -> Exit {
    Exit { success: code == 0, signal: None, code: Some(code), stderr: stderr.to_string() }
}

fn start(bridge: &Bridge, pending: Pending) -> Running {
    pending
        .take_slot(granted(bridge))
        .expect("admitted")
        .started(StartOutcome::Started)
        .expect("started")
}

/// Feeds the lines of a helper and its exit, as a driver does.
fn drive(mut running: Running, lines: &[&str], exit: Exit) -> (Vec<StreamEvent>, Result<Completion, Error>) {
    let mut events = Vec::new();
    let mut next = 0;
    loop {
        let read = match lines.get(next) {
            Some(line) => ReadOutcome::Line(line.to_string()),
            None => ReadOutcome::End,
        };
        next += 1;
        match running.on_read(read) {
            Ok(Step::ReadOn) => {}
            Ok(Step::Yield(event)) => events.push(event),
            Ok(Step::YieldLast(event)) => {
                events.push(event);
                break;
            }
            Ok(Step::Reap) => break,
            Err(error) => return (events, Err(error)),
        }
    }
    (events, running.finish(ReapOutcome::Exited(exit)))
}

fn complete(request: Request, lines: &[&str], exit: Exit) -> Result<Completion, Error> {
    let bridge = bridge();
    let pending = bridge.complete(request, true).expect("queued");
    drive(start(&bridge, pending), lines, exit).1
}

fn stream(request: Request, lines: &[&str], exit: Exit) -> (Vec<StreamEvent>, Result<Completion, Error>) {
    let bridge = bridge();
    let pending = bridge.stream(request, true).expect("queued");
    drive(start(&bridge, pending), lines, exit)
}

fn probe(lines: &[&str], exit: Exit) -> Result<Completion, Error> {
    let bridge = bridge();
    let pending = bridge.check_availability(true).expect("queued");
    drive(start(&bridge, pending), lines, exit).1
}

const TEXT: [&str; 5] = [
    r#"{"delta":"Hello"}"#,
    r#"{"delta":", "}"#,
    r#"{"delta":"world"}"#,
    r#"{"delta":"!"}"#,
    r#"{"done":true,"usage":{"promptTokens":7,"completionTokens":4}}"#,
];

fn recipe_schema() -> Schema {
    Schema::new(
        "Recipe",
        vec![
            SchemaProperty::string("title"),
            SchemaProperty::integer("minutes").range(double(1.0), double(240.0)),
            SchemaProperty::array("ingredients", SchemaProperty::string("item"))
                .count(Some(1), Some(10)),
        ],
    )
}

const RECIPE: &str =
    r#"{"structured":{"title":"Cacio e Pepe","minutes":15,"ingredients":["pasta","cheese","pepper"]}}"#;

#[test]
fn complete_concatenates_streamed_deltas() {
    let response = complete(Request::new().user("hi"), &TEXT, exit(0, ""))
        .expect("completion should succeed");

    assert_eq!(response.text, "Hello, world!");
    assert_eq!(response.usage.prompt_tokens, 7);
    assert_eq!(response.usage.completion_tokens, 4);
    assert_eq!(response.usage.total_tokens(), 11);
    assert!(response.structured.is_none());
}

#[test]
fn stream_yields_deltas_in_order_then_done() {
    let (events, end) = stream(Request::new().user("hi"), &TEXT, exit(0, ""));
    let deltas: Vec<_> = events
        .iter()
        .filter_map(|event| match event {
            StreamEvent::Delta(text) => Some(text.as_str()),
            _ => None,
        })
        .collect();

    assert_eq!(deltas, ["Hello", ", ", "world", "!"]);
    assert!(matches!(events.last(), Some(StreamEvent::Done(_))));
    assert_eq!(end.unwrap(), Completion::default());
}

#[test]
fn ignores_unknown_events_and_stray_stdout() {
    let lines = [
        "objc[123]: Class Foo is implemented in both",
        "",
        r#"{"ready":{"model":"on-device"}}"#,
        r#"{"delta":"real "}"#,
        r#"{"someFutureEvent":1}"#,
        r#"{"delta":"text"}"#,
        r#"{"done":true}"#,
    ];
    let response = complete(Request::new().user("hi"), &lines, exit(0, "")).expect("completion");
    assert_eq!(response.text, "real text");
}

#[test]
fn complete_returns_structured_payload() {
    let request = Request::new().user("a pasta recipe").schema(recipe_schema());
    let response =
        complete(request, &[RECIPE, r#"{"done":true}"#], exit(0, "")).expect("completion");

    let structured = response.structured.as_ref().expect("structured payload");
    assert_eq!(structured["title"], "Cacio e Pepe");
    assert_eq!(structured["minutes"], 15);
    assert_eq!(structured["ingredients"].as_array().unwrap().len(), 3);
    assert!(response.text.is_empty());
}

#[test]
fn structured_streaming_emits_snapshots_then_final_object() {
    let request =
        Request::new().user("a pasta recipe").schema(recipe_schema()).stream_structured(true);
    let lines = [
        r#"{"snapshot":{"title":"Cacio"}}"#,
        r#"{"snapshot":{"title":"Cacio e Pepe","minutes":null}}"#,
        RECIPE,
        r#"{"done":true}"#,
    ];
    let (events, end) = stream(request, &lines, exit(0, ""));

    let snapshots: Vec<_> =
        events.iter().filter(|event| matches!(event, StreamEvent::Snapshot(_))).collect();
    assert_eq!(snapshots.len(), 2, "expected two partial snapshots");
    match &events[2] {
        StreamEvent::Structured(object) => assert_eq!(object["title"], "Cacio e Pepe"),
        other => panic!("expected Structured, got {other:?}"),
    }
    assert!(matches!(events.last(), Some(StreamEvent::Done(_))));
    assert!(end.is_ok());
}

#[test]
fn typed_error_codes_map_to_error_variants() {
    let cases = [
        ("model_unavailable", "Apple Intelligence is turned off."),
        ("bad_request", "empty prompt"),
        ("schema_invalid", "duplicate property name"),
        ("guardrail_violation", "blocked"),
        ("context_exceeded", "too long"),
    ];

    for (code, message) in cases {
        let line = format!(r#"{{"error":"{message}","code":"{code}"}}"#);
        let error = complete(Request::new().user("hi"), &[&line], exit(1, "")).unwrap_err();

        let matched = match (code, &error) {
            ("model_unavailable", Error::ModelUnavailable { message: m, .. }) => m == message,
            ("bad_request", Error::BadRequest(m)) => m == message,
            ("schema_invalid", Error::InvalidSchema(m)) => m == message,
            ("guardrail_violation", Error::GuardrailViolation(m)) => m == message,
            ("context_exceeded", Error::ContextExceeded(m)) => m == message,
            _ => false,
        };
        assert!(matched, "code {code} produced {error:?}");
    }
}

#[test]
fn unknown_error_codes_degrade_to_generation_errors() {
    let line = r#"{"error":"who knows","code":"some_future_code"}"#;
    let error = complete(Request::new().user("hi"), &[line], exit(1, "")).unwrap_err();
    assert!(matches!(error, Error::Generation(m) if m == "who knows"));
}

#[test]
fn errors_surface_through_the_stream_api_too() {
    let line = r#"{"error":"nope","code":"guardrail_violation"}"#;
    let (events, end) = stream(Request::new().user("hi"), &[line], exit(1, ""));
    assert!(events.is_empty());
    assert!(matches!(end, Err(Error::GuardrailViolation(_))));
}

#[test]
fn crash_before_completion_reports_exit_status_and_stderr() {
    let crashed = exit(9, "dyld: FoundationModels not loaded\n");
    let error = complete(Request::new().user("hi"), &[], crashed).unwrap_err();

    match error {
        Error::ProcessFailed { status, stderr } => {
            assert_eq!(status, "exit code 9");
            assert_eq!(stderr, "dyld: FoundationModels not loaded\n");
        }
        other => panic!("expected ProcessFailed, got {other:?}"),
    }
}

#[test]
fn missing_binary_is_reported_clearly() {
    let bridge = Bridge::new(PathBuf::from("/nonexistent/path/to/FMBridge"));
    for result in [
        bridge.complete(Request::new().user("hi"), false),
        bridge.stream(Request::new().user("hi"), false),
        bridge.check_availability(false),
    ] {
        assert!(matches!(
            result,
            Err(Error::BinaryNotFound(path)) if path == Path::new("/nonexistent/path/to/FMBridge")
        ));
    }
    assert!(bridge.ensure_binary(true).is_ok());
    assert!(matches!(bridge.ensure_binary(false), Err(Error::BinaryNotFound(_))));
}

#[test]
fn requests_are_validated_before_spawning() {
    // Validation must fail whether or not the binary is there, proving no process is spawned for
    // a malformed request.
    let bridge = Bridge::new(PathBuf::from("/nonexistent/path/to/FMBridge"));
    for is_file in [false, true] {
        let no_user_turn = bridge.complete(Request::new().system("hi"), is_file).unwrap_err();
        assert!(matches!(no_user_turn, Error::BadRequest(_)));

        let bad_schema = bridge
            .complete(Request::new().user("hi").schema(Schema::new("Empty", vec![])), is_file)
            .unwrap_err();
        assert!(matches!(bad_schema, Error::InvalidSchema(_)));

        let streamed = bridge.stream(Request::new().system("hi"), is_file).unwrap_err();
        assert!(matches!(streamed, Error::BadRequest(_)));
    }
}

#[test]
fn slow_helpers_hit_the_timeout() {
    let limit = Duration::from_millis(300);
    let bridge = bridge().max_concurrency(2).timeout(Some(limit));
    for pending in [
        bridge.complete(Request::new().user("hi"), true),
        bridge.stream(Request::new().user("hi"), true),
    ] {
        let mut running = start(&bridge, pending.unwrap());
        assert_eq!(running.time_limit(), Some(limit));
        let error = running.on_read(ReadOutcome::Elapsed).unwrap_err();
        assert!(matches!(error, Error::Timeout(d) if d == limit));
        assert!(error.is_retryable());
    }
}

#[test]
fn probe_succeeds_when_the_model_is_ready() {
    probe(&[r#"{"ready":{"model":"on-device"}}"#], exit(0, "")).expect("probe should succeed");
}

#[test]
fn probe_reports_why_the_model_is_unavailable() {
    let line = r#"{"error":"Turn on Apple Intelligence in System Settings.","code":"model_unavailable","reason":"not_enabled"}"#;
    let error = probe(&[line], exit(1, "")).unwrap_err();

    match error {
        Error::ModelUnavailable { reason, message } => {
            assert_eq!(reason, Unavailable::NotEnabled);
            assert!(message.contains("System Settings"));
        }
        other => panic!("expected ModelUnavailable, got {other:?}"),
    }
}

#[test]
fn a_probe_reports_the_last_failure_before_the_answer() {
    let first = r#"{"error":"one","code":"bad_request"}"#;
    let second = r#"{"error":"two","code":"context_exceeded"}"#;
    let ready = r#"{"ready":true}"#;
    assert!(matches!(
        probe(&[first, "noise", second], exit(0, "")),
        Err(Error::ContextExceeded(m)) if m == "two"
    ));
    assert!(matches!(
        probe(&[first, ready, second], exit(0, "")),
        Err(Error::BadRequest(m)) if m == "one"
    ));
    // Once the model is ready, neither what follows nor the exit matters.
    assert!(probe(&[ready, first], exit(0, "")).is_ok());
    assert!(probe(&["noise", ready], exit(3, "x")).is_ok());
}

#[test]
fn a_probe_without_an_answer_fails() {
    for lines in [
        vec![],
        vec!["so \"ready\" now"],
        vec![r#"{"delta":"ready"}"#, r#"{"done":true}"#],
        vec![r#"["ready"]"#],
    ] {
        assert!(matches!(
            probe(&lines, exit(3, "no model")),
            Err(Error::ProcessFailed { status, stderr })
                if status == "exit code 3" && stderr == "no model"
        ));
        assert!(matches!(
            probe(&lines, exit(0, " odd\n")),
            Err(Error::Protocol(m)) if m == "FMBridge exited without answering the probe: odd"
        ));
    }
    // A stray line is no answer, so a failure after it is still heard.
    let failure = r#"{"error":"off","code":"model_unavailable","reason":"not_enabled"}"#;
    assert!(matches!(
        probe(&["so \"ready\" now", failure], exit(3, "")),
        Err(Error::ModelUnavailable { reason: Unavailable::NotEnabled, .. })
    ));
    // Nor is an answer that comes with a failure.
    assert!(matches!(
        probe(&[r#"{"ready":{},"error":"off","code":"bad_request"}"#], exit(0, "")),
        Err(Error::BadRequest(m)) if m == "off"
    ));
    // It ends the probe all the same: what follows is not heard.
    let both = r#"{"ready":{},"error":"off","code":"model_unavailable"}"#;
    let late = r#"{"error":"late","code":"context_exceeded"}"#;
    for lines in [vec![both, late], vec![both, r#"{"ready":{}}"#]] {
        assert!(matches!(
            probe(&lines, exit(0, "")),
            Err(Error::ModelUnavailable { message, .. }) if message == "off"
        ));
    }
    assert!(matches!(
        unanswered(exit(0, "")),
        Error::Protocol(m) if m == "FMBridge exited without answering the probe"
    ));
}

#[test]
fn a_probe_that_cannot_be_reaped_fails_unless_it_was_answered() {
    let bridge = bridge().max_concurrency(8).timeout(Some(Duration::from_secs(7)));
    let asked = || start(&bridge, bridge.check_availability(true).unwrap());
    assert!(matches!(
        asked().finish(ReapOutcome::Failed(io_error(ErrorKind::Other))),
        Err(Error::Io(_))
    ));
    assert!(matches!(
        asked().finish(ReapOutcome::Elapsed),
        Err(Error::Timeout(d)) if d == Duration::from_secs(7)
    ));
    let mut answered = asked();
    let step = answered.on_read(ReadOutcome::Line(r#"{"ready":{}}"#.to_string())).unwrap();
    assert_eq!(step, Step::Reap);
    assert!(answered.finish(ReapOutcome::Elapsed).is_ok());
}

#[test]
fn time_can_run_out_at_every_stage() {
    let limit = Duration::from_millis(250);
    let bridge = bridge().max_concurrency(8).timeout(Some(limit));
    let is_timeout = |error: Error| {
        assert!(error.is_retryable());
        matches!(error, Error::Timeout(d) if d == limit)
    };
    for streams in [false, true] {
        let pending = || {
            let request = Request::new().user("hi");
            if streams {
                bridge.stream(request, true).unwrap()
            } else {
                bridge.complete(request, true).unwrap()
            }
        };
        assert!(is_timeout(pending().take_slot(SlotOutcome::Elapsed).unwrap_err()));
        let admitted = pending().take_slot(granted(&bridge)).unwrap();
        assert!(is_timeout(admitted.started(StartOutcome::Elapsed).unwrap_err()));
        let mut running = start(&bridge, pending());
        assert!(is_timeout(running.on_read(ReadOutcome::Elapsed).unwrap_err()));
        assert!(is_timeout(running.finish(ReapOutcome::Elapsed).unwrap_err()));
    }
    let mut probing = start(&bridge, bridge.check_availability(true).unwrap());
    assert!(is_timeout(probing.on_read(ReadOutcome::Elapsed).unwrap_err()));
}

#[test]
fn a_saturated_bridge_times_out_instead_of_hanging() {
    let limit = Duration::from_millis(400);
    let bridge = bridge().max_concurrency(1).timeout(Some(limit));
    // Occupy the single slot with a request that will not finish.
    let held = start(&bridge, bridge.stream(Request::new().user("first"), true).unwrap());
    assert!(bridge.limiter().try_acquire_owned().is_err());

    let second = bridge.complete(Request::new().user("second"), true).unwrap();
    assert_eq!(second.time_limit(), Some(limit));
    let error = second.take_slot(SlotOutcome::Elapsed).unwrap_err();
    assert!(matches!(error, Error::Timeout(d) if d == limit));
    assert!(error.is_retryable());
    drop(held);
}

#[test]
fn streams_release_their_slot_when_dropped() {
    let bridge = bridge().max_concurrency(1);
    let running = start(&bridge, bridge.stream(Request::new().user("hi"), true).unwrap());
    assert_eq!(bridge.available_slots(), 0, "stream should hold the slot");
    drop(running);
    assert_eq!(bridge.available_slots(), 1, "dropping a stream must release its slot");
}

#[test]
fn a_freed_slot_is_handed_to_the_next_waiter() {
    let bridge = bridge().max_concurrency(1);
    let first = start(&bridge, bridge.complete(Request::new().user("first"), true).unwrap());
    let second = bridge.clone().complete(Request::new().user("second"), true).unwrap();
    assert!(bridge.limiter().try_acquire_owned().is_err());
    drive(first, &TEXT, exit(0, "")).1.expect("first completion");
    drive(start(&bridge, second), &TEXT, exit(0, "")).1.expect("second completion");
    assert_eq!(bridge.available_slots(), 1);
}

#[test]
fn failed_requests_release_their_slot() {
    let bridge = bridge();
    let admitted = bridge
        .complete(Request::new().user("hi"), true)
        .unwrap()
        .take_slot(granted(&bridge))
        .unwrap();
    assert_eq!(bridge.available_slots(), 0);
    assert!(admitted.started(StartOutcome::SpawnFailed(io_error(ErrorKind::NotFound))).is_err());
    assert_eq!(bridge.available_slots(), 1);
}

#[test]
fn streaming_a_structured_request_requires_opting_in() {
    let bridge = bridge();
    let error =
        bridge.stream(Request::new().user("hi").schema(recipe_schema()), true).unwrap_err();
    assert!(matches!(&error, Error::BadRequest(m) if m.contains("stream_structured")));
    assert!(matches!(
        error,
        Error::BadRequest(m) if m == "structured requests cannot be streamed unless `Request::stream_structured(true)` is set; use `complete` instead"
    ));

    // With the opt-in it streams normally.
    let request = Request::new().user("hi").schema(recipe_schema()).stream_structured(true);
    let (events, _) = stream(request, &[r#"{"snapshot":{}}"#, RECIPE, r#"{"done":true}"#], exit(0, ""));
    assert!(events.iter().any(|e| matches!(e, StreamEvent::Snapshot(_))));
}

#[test]
fn every_response_reaches_its_own_caller() {
    let bridge = bridge().max_concurrency(24);
    let runs: Vec<(String, Running)> = (0..24)
        .map(|index| {
            let marker = format!("prompt-{index}");
            let pending = bridge.clone().complete(Request::new().user(&marker), true).unwrap();
            (marker, start(&bridge, pending))
        })
        .collect();
    for (marker, running) in runs {
        let line = format!(r#"{{"delta":"{marker}"}}"#);
        let response = drive(running, &[&line, r#"{"done":true}"#], exit(0, "")).1.unwrap();
        assert_eq!(response.text, marker, "a caller received another caller's response");
    }
}

#[test]
fn what_is_sent_depends_on_the_task() {
    let bridge = bridge().max_concurrency(8);
    let structured = || Request::new().user("hi").schema(recipe_schema()).stream_structured(true);
    let admitted = |pending: Pending| pending.take_slot(granted(&bridge)).unwrap();

    let text = admitted(bridge.complete(Request::new().user("hi"), true).unwrap());
    assert!(text.wire().expect("a request").stream);
    assert_eq!(text.binary_path(), Path::new("/tmp/FMBridge"));

    // Non-streaming structured requests must not ask the helper to stream.
    let object = admitted(bridge.complete(structured(), true).unwrap());
    let wire = object.wire().expect("a request");
    assert!(!wire.stream);
    assert!(!wire.stream_structured);
    assert_eq!(wire.schema, Some(&recipe_schema()));

    let streamed = admitted(bridge.stream(structured(), true).unwrap());
    let wire = streamed.wire().expect("a request");
    assert!(wire.stream);
    assert!(wire.stream_structured);

    let probe = admitted(bridge.check_availability(true).unwrap());
    assert!(probe.wire().is_none());
}

#[test]
fn a_slot_is_granted_or_not() {
    let limit = Some(Duration::from_secs(2));
    assert!(acquire_slot(granted(&bridge()), limit).is_ok());
    assert!(matches!(
        acquire_slot(SlotOutcome::Elapsed, limit),
        Err(Error::Timeout(d)) if d == Duration::from_secs(2)
    ));
    assert!(matches!(
        acquire_slot(SlotOutcome::Elapsed, None),
        Err(Error::Timeout(d)) if d == Duration::from_secs(0)
    ));
    assert!(matches!(
        acquire_slot(SlotOutcome::Closed, limit),
        Err(Error::Protocol(m)) if m == "concurrency limiter was closed"
    ));
    assert!(matches!(timed_out(limit), Error::Timeout(d) if d == Duration::from_secs(2)));
    let pending = bridge().check_availability(true).unwrap();
    assert!(matches!(pending.take_slot(SlotOutcome::Closed), Err(Error::Protocol(_))));
}

#[test]
fn a_start_can_fail_in_several_ways() {
    let bridge = bridge();
    let started = |outcome: StartOutcome| {
        bridge
            .complete(Request::new().user("hi"), true)
            .unwrap()
            .take_slot(granted(&bridge))
            .unwrap()
            .started(outcome)
    };
    assert!(started(StartOutcome::Started).is_ok());
    assert!(matches!(
        started(StartOutcome::SpawnFailed(io_error(ErrorKind::PermissionDenied))),
        Err(Error::Spawn { path, source })
            if path == Path::new("/tmp/FMBridge") && source.kind() == ErrorKind::PermissionDenied
    ));
    let json = serde_json::from_str::<serde_json::Value>("{").unwrap_err();
    assert!(matches!(started(StartOutcome::EncodeFailed(json)), Err(Error::Json(_))));
    assert!(matches!(
        started(StartOutcome::WriteFailed(io_error(ErrorKind::TimedOut))),
        Err(Error::Io(source)) if source.kind() == ErrorKind::TimedOut
    ));
    assert!(matches!(
        started(StartOutcome::WriterPanicked("task 3 panicked".to_string())),
        Err(Error::Protocol(m)) if m == "stdin writer panicked: task 3 panicked"
    ));
}

#[test]
fn a_helper_that_does_not_read_is_judged_by_its_exit() {
    let bridge = bridge();
    let running = bridge
        .complete(Request::new().user("hi"), true)
        .unwrap()
        .take_slot(granted(&bridge))
        .unwrap()
        .started(StartOutcome::WriteFailed(io_error(ErrorKind::BrokenPipe)))
        .expect("not a failure yet");
    let (_, end) = drive(running, &[], exit(2, "bad flag"));
    assert!(matches!(
        end,
        Err(Error::ProcessFailed { status, stderr }) if status == "exit code 2" && stderr == "bad flag"
    ));
}

#[test]
fn reading_can_fail() {
    let bridge = bridge();
    let mut running = start(&bridge, bridge.complete(Request::new().user("hi"), true).unwrap());
    assert!(matches!(
        running.on_read(ReadOutcome::Failed(io_error(ErrorKind::InvalidData))),
        Err(Error::Io(source)) if source.kind() == ErrorKind::InvalidData
    ));
    assert!(matches!(
        running.finish(ReapOutcome::Failed(io_error(ErrorKind::Other))),
        Err(Error::Io(source)) if source.kind() == ErrorKind::Other
    ));
}

#[test]
fn exits_are_turned_into_verdicts() {
    assert!(conclude(exit(0, "noise"), true).is_ok());
    assert!(matches!(
        conclude(exit(0, ""), false),
        Err(Error::Protocol(m)) if m == "FMBridge exited without sending a completion event"
    ));
    assert!(matches!(
        conclude(exit(0, " why \n"), false),
        Err(Error::Protocol(m)) if m == "FMBridge exited without sending a completion event: why"
    ));
    let killed = Exit { success: false, signal: Some(9), code: None, stderr: String::new() };
    assert!(matches!(
        conclude(killed, true),
        Err(Error::ProcessFailed { status, stderr })
            if status == "killed by signal 9" && stderr.is_empty()
    ));
}

#[test]
fn a_response_needs_its_end_and_a_good_exit() {
    let hi = || Request::new().user("hi");
    assert!(matches!(complete(hi(), &TEXT[..4], exit(0, "")), Err(Error::Protocol(_))));
    assert!(matches!(complete(hi(), &TEXT, exit(1, "")), Err(Error::ProcessFailed { .. })));
    let (events, end) = stream(hi(), &TEXT[..2], exit(0, ""));
    assert_eq!(events.len(), 2);
    assert!(matches!(end, Err(Error::Protocol(_))));
}

#[test]
fn nothing_after_the_end_is_heard() {
    let mut lines = TEXT.to_vec();
    lines.push(r#"{"delta":"more"}"#);
    lines.push(r#"{"error":"late","code":"bad_request"}"#);
    let response = complete(Request::new().user("hi"), &lines, exit(0, "")).unwrap();
    assert_eq!(response.text, "Hello, world!");
    let (events, end) = stream(Request::new().user("hi"), &lines, exit(0, ""));
    assert_eq!(events.len(), 5);
    assert!(end.is_ok());
}

#[test]
fn the_first_failure_is_the_one_reported() {
    let lines = [
        r#"{"delta":"so far"}"#,
        r#"{"error":"one","code":"guardrail_violation"}"#,
        r#"{"error":"two","code":"bad_request"}"#,
    ];
    assert!(matches!(
        complete(Request::new().user("hi"), &lines, exit(1, "")),
        Err(Error::GuardrailViolation(m)) if m == "one"
    ));
    let (events, end) = stream(Request::new().user("hi"), &lines, exit(1, ""));
    assert_eq!(events, [StreamEvent::Delta("so far".to_string())]);
    assert!(matches!(end, Err(Error::GuardrailViolation(m)) if m == "one"));
}

#[test]
fn streaming_and_collecting_agree() {
    let lines = [
        r#"{"delta":"a"}"#,
        r#"{"structured":1}"#,
        "stray",
        r#"{"structured":2}"#,
        r#"{"delta":"b"}"#,
        r#"{"done":true,"usage":{"promptTokens":5}}"#,
    ];
    let collected = complete(Request::new().user("hi"), &lines, exit(0, "")).unwrap();
    let (events, end) = stream(Request::new().user("hi"), &lines, exit(0, ""));
    assert!(end.is_ok());
    let text: String = events
        .iter()
        .map(|event| match event {
            StreamEvent::Delta(text) => text.as_str(),
            _ => "",
        })
        .collect();
    assert_eq!(text, collected.text);
    assert_eq!(collected.text, "ab");
    // The last object is the one that counts.
    assert_eq!(collected.structured, Some(serde_json::Value::from(2)));
    assert_eq!(collected.usage, Usage { prompt_tokens: 5, completion_tokens: 0 });
    assert_eq!(events.len(), 5);
}

#[test]
fn stray_lines_change_nothing() {
    let clean = complete(Request::new().user("hi"), &TEXT, exit(0, "")).unwrap();
    for at in 0..TEXT.len() {
        let mut noisy = TEXT.to_vec();
        noisy.insert(at, "[warning] {not json");
        assert_eq!(complete(Request::new().user("hi"), &noisy, exit(0, "")).unwrap(), clean);
    }
}

#[test]
fn nothing_comes_after_the_end() {
    let bridge = bridge().max_concurrency(16).timeout(Some(Duration::from_secs(1)));
    let streaming = || start(&bridge, bridge.stream(Request::new().user("hi"), true).unwrap());
    let line = |text: &str| ReadOutcome::Line(text.to_string());
    for end in [
        ReadOutcome::Elapsed,
        ReadOutcome::Failed(io_error(ErrorKind::Other)),
        ReadOutcome::End,
        line(r#"{"done":true}"#),
        line(r#"{"error":"e"}"#),
    ] {
        let mut running = streaming();
        assert!(matches!(running.on_read(line(TEXT[0])), Ok(Step::Yield(_))));
        let last = running.on_read(end);
        assert!(matches!(last, Err(_) | Ok(Step::Reap) | Ok(Step::YieldLast(_))));
        // Neither an event nor a failure nor the time running out is heard any more.
        assert_eq!(running.on_read(line(TEXT[1])).unwrap(), Step::Reap);
        assert_eq!(running.on_read(line(r#"{"error":"late"}"#)).unwrap(), Step::Reap);
        assert_eq!(running.on_read(line(r#"{"done":true}"#)).unwrap(), Step::Reap);
        assert_eq!(running.on_read(ReadOutcome::Elapsed).unwrap(), Step::Reap);
        let finished = matches!(last, Ok(Step::YieldLast(_)));
        assert_eq!(running.finish(ReapOutcome::Exited(exit(0, ""))).is_ok(), finished);
    }
}

#[test]
fn text_after_the_end_is_not_collected() {
    let bridge = bridge();
    let mut running = start(&bridge, bridge.complete(Request::new().user("hi"), true).unwrap());
    for text in TEXT {
        running.on_read(ReadOutcome::Line(text.to_string())).unwrap();
    }
    let more = r#"{"delta":"more"}"#.to_string();
    assert_eq!(running.on_read(ReadOutcome::Line(more)).unwrap(), Step::Reap);
    let response = running.finish(ReapOutcome::Exited(exit(0, ""))).unwrap();
    assert_eq!(response.text, "Hello, world!");
}

#[test]
fn some_starts_are_accepted() {
    let bridge = bridge();
    let admitted = bridge.check_availability(true).unwrap().take_slot(granted(&bridge)).unwrap();
    assert!(admitted.accepts(&StartOutcome::Started));
    assert!(admitted.accepts(&StartOutcome::WriteFailed(io_error(ErrorKind::BrokenPipe))));
    let json = serde_json::from_str::<serde_json::Value>("{").unwrap_err();
    for outcome in [
        StartOutcome::WriteFailed(io_error(ErrorKind::TimedOut)),
        StartOutcome::SpawnFailed(io_error(ErrorKind::BrokenPipe)),
        StartOutcome::EncodeFailed(json),
        StartOutcome::WriterPanicked(String::new()),
        StartOutcome::Elapsed,
    ] {
        assert!(!admitted.accepts(&outcome), "{outcome:?}");
    }
}
