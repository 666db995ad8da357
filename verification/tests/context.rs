use leptos_sse::context::ConnectionState;
use leptos_sse::context::Delivery;
use leptos_sse::context::DispatchOutcome;
use leptos_sse::context::ProvideOutcome;
use leptos_sse::context::Registration;
use leptos_sse::context::SseContext;
use leptos_sse::create_sse_signal;
use leptos_sse::create_sse_signal_local;
use leptos_sse::patch::PatchError;
use leptos_sse::provide_sse;
use leptos_sse::registry::RegisterError;
use leptos_sse::registry::SignalKind;
use leptos_sse::ServerSignalUpdate;
use serde_json::Value;

fn json(text: &str) -> Value {
    serde_json::from_str(text).unwrap()
}

fn envelope(name: &str, old: &str, new: &str) -> String {
    let update = ServerSignalUpdate::new_from_json::<()>(name, &json(old), &json(new));
    format!(
        "{{\"name\":{},\"patch\":{}}}",
        serde_json::to_string(update.name()).unwrap(),
        serde_json::to_string(update.patch()).unwrap()
    )
}

fn receive(context: &mut SseContext, text: &str) -> DispatchOutcome {
    context.on_message(text).outcome
}

fn connected() -> SseContext {
    let mut context = SseContext::new();
    assert_eq!(provide_sse(&mut context, "/sse"), ProvideOutcome::Connect);
    context.opened();
    context
}

const CREATED: Registration = Registration { created: true, replayed: 0, skipped: 0 };
const EXISTING: Registration = Registration { created: false, replayed: 0, skipped: 0 };
const APPLIED: DispatchOutcome = DispatchOutcome::Applied { kind: SignalKind::Shared, skipped: 0 };

#[test]
fn a_new_context_is_empty_and_closed() {
    let context = SseContext::new();
    assert_eq!(context.connection(), ConnectionState::Closed);
    assert!(!context.is_initialized());
    assert_eq!(context.endpoint(), "");
    assert_eq!(context.value("counter"), None);
    assert_eq!(context.kind_of("counter"), None);
    assert_eq!(context.waiting("counter"), 0);
}

#[test]
fn the_connection_goes_through_its_states() {
    let mut context = SseContext::new();
    assert_eq!(provide_sse(&mut context, "http://localhost:3000/sse"), ProvideOutcome::Connect);
    assert_eq!(context.connection(), ConnectionState::Connecting);
    assert!(context.is_initialized());
    assert_eq!(context.endpoint(), "http://localhost:3000/sse");
    context.opened();
    assert_eq!(context.connection(), ConnectionState::Open);
    context.errored();
    assert_eq!(context.connection(), ConnectionState::Failed);
    assert!(context.is_initialized());
    context.opened();
    assert_eq!(context.connection(), ConnectionState::Open);
    context.close();
    assert_eq!(context.connection(), ConnectionState::Closed);
    assert_eq!(context.endpoint(), "");
    assert!(!context.is_initialized());
}

#[test]
fn a_second_connection_is_not_opened() {
    let mut context = SseContext::new();
    assert_eq!(provide_sse(&mut context, "/sse"), ProvideOutcome::Connect);
    assert_eq!(provide_sse(&mut context, "/other"), ProvideOutcome::AlreadyInitialized);
    assert_eq!(context.endpoint(), "/sse");
    assert_eq!(context.connection(), ConnectionState::Connecting);
    context.opened();
    assert_eq!(context.provide("/third"), ProvideOutcome::AlreadyInitialized);
    assert_eq!(context.endpoint(), "/sse");
    assert_eq!(context.connection(), ConnectionState::Open);
    context.errored();
    assert_eq!(provide_sse(&mut context, "/fourth"), ProvideOutcome::AlreadyInitialized);
    assert_eq!(context.connection(), ConnectionState::Failed);
}

#[test]
fn a_closed_connection_can_be_provided_again() {
    let mut context = connected();
    context.close();
    assert_eq!(provide_sse(&mut context, "/again"), ProvideOutcome::Connect);
    assert_eq!(context.endpoint(), "/again");
    assert_eq!(context.connection(), ConnectionState::Connecting);
}

#[test]
fn stream_events_without_a_connection_change_nothing() {
    let mut context = SseContext::new();
    context.opened();
    assert_eq!(context.connection(), ConnectionState::Closed);
    context.errored();
    assert_eq!(context.connection(), ConnectionState::Closed);
    let text = envelope("counter", r#"{"value":0}"#, r#"{"value":1}"#);
    assert_eq!(receive(&mut context, &text), DispatchOutcome::NotConnected);
    assert_eq!(context.waiting("counter"), 0);
}

#[test]
fn a_signal_cannot_be_created_without_a_connection() {
    let mut context = SseContext::new();
    assert_eq!(
        create_sse_signal(&mut context, "counter", json(r#"{"value":0}"#)),
        Err(RegisterError::NotInitialized)
    );
    assert_eq!(
        create_sse_signal_local(&mut context, "counter", json(r#"{"value":0}"#)),
        Err(RegisterError::NotInitialized)
    );
    assert_eq!(context.value("counter"), None);
    assert_eq!(context.kind_of("counter"), None);
}

#[test]
fn a_signal_starts_from_its_initial_value() {
    let mut context = connected();
    assert_eq!(create_sse_signal(&mut context, "counter", json(r#"{"value":0}"#)), Ok(CREATED));
    assert_eq!(context.value("counter"), Some(&json(r#"{"value":0}"#)));
    assert_eq!(context.kind_of("counter"), Some(SignalKind::Shared));
    assert_eq!(create_sse_signal_local(&mut context, "title", json("\"\"")), Ok(CREATED));
    assert_eq!(context.value("title"), Some(&json("\"\"")));
    assert_eq!(context.kind_of("title"), Some(SignalKind::Local));
}

#[test]
fn lookup_searches_the_map_of_the_kind_only() {
    let mut context = connected();
    create_sse_signal(&mut context, "a", json("1")).unwrap();
    create_sse_signal_local(&mut context, "b", json("2")).unwrap();
    assert_eq!(context.lookup(SignalKind::Shared, "a"), Some(&json("1")));
    assert_eq!(context.lookup(SignalKind::Local, "a"), None);
    assert_eq!(context.lookup(SignalKind::Local, "b"), Some(&json("2")));
    assert_eq!(context.lookup(SignalKind::Shared, "b"), None);
    assert_eq!(context.lookup(SignalKind::Shared, "c"), None);
    assert_eq!(context.lookup(SignalKind::Shared, "A"), None);
    assert_eq!(context.value("a "), None);
}

#[test]
fn a_name_cannot_have_both_kinds() {
    let mut context = connected();
    create_sse_signal(&mut context, "a", json("1")).unwrap();
    assert_eq!(
        create_sse_signal_local(&mut context, "a", json("2")),
        Err(RegisterError::KindConflict)
    );
    assert_eq!(context.kind_of("a"), Some(SignalKind::Shared));
    assert_eq!(context.value("a"), Some(&json("1")));
    create_sse_signal_local(&mut context, "b", json("3")).unwrap();
    assert_eq!(create_sse_signal(&mut context, "b", json("4")), Err(RegisterError::KindConflict));
    assert_eq!(context.value("b"), Some(&json("3")));
}

#[test]
fn a_message_for_a_cell_is_applied() {
    let mut context = connected();
    create_sse_signal(&mut context, "counter", json(r#"{"value":0}"#)).unwrap();
    let text = r#"{"name":"counter","patch":[{"op":"replace","path":"/value","value":1}]}"#;
    assert_eq!(receive(&mut context, text), APPLIED);
    assert_eq!(context.value("counter"), Some(&json(r#"{"value":1}"#)));
    assert_eq!(context.waiting("counter"), 0);
}

#[test]
fn a_message_for_a_local_cell_is_applied() {
    let mut context = connected();
    create_sse_signal_local(&mut context, "counter", json(r#"{"value":0}"#)).unwrap();
    let text = envelope("counter", r#"{"value":0}"#, r#"{"value":3}"#);
    assert_eq!(
        receive(&mut context, &text),
        DispatchOutcome::Applied { kind: SignalKind::Local, skipped: 0 }
    );
    assert_eq!(context.value("counter"), Some(&json(r#"{"value":3}"#)));
}

#[test]
fn messages_are_handled_while_the_stream_is_opening_or_failed() {
    let mut context = SseContext::new();
    provide_sse(&mut context, "/sse");
    create_sse_signal(&mut context, "n", json("0")).unwrap();
    assert_eq!(receive(&mut context, &envelope("n", "0", "1")), APPLIED);
    context.errored();
    assert_eq!(receive(&mut context, &envelope("n", "1", "2")), APPLIED);
    assert_eq!(context.value("n"), Some(&json("2")));
}

#[test]
fn early_messages_wait_for_the_registration() {
    let mut context = connected();
    let first = envelope("counter", r#"{"value":0}"#, r#"{"value":1}"#);
    let second = envelope("counter", r#"{"value":1}"#, r#"{"value":2}"#);
    assert_eq!(receive(&mut context, &first), DispatchOutcome::Buffered);
    assert_eq!(context.waiting("counter"), 1);
    assert_eq!(receive(&mut context, &second), DispatchOutcome::Buffered);
    assert_eq!(context.waiting("counter"), 2);
    assert_eq!(context.value("counter"), None);
    assert_eq!(
        create_sse_signal(&mut context, "counter", json(r#"{"value":0}"#)),
        Ok(Registration { created: true, replayed: 2, skipped: 0 })
    );
    assert_eq!(context.value("counter"), Some(&json(r#"{"value":2}"#)));
    assert_eq!(context.waiting("counter"), 0);
}

#[test]
fn three_early_patches_apply_in_their_order() {
    let v0 = json(r#"{"log":[]}"#);
    let first = r#"[{"op":"add","path":"/log/-","value":"one"}]"#;
    let second = r#"[{"op":"add","path":"/log/0","value":"two"}]"#;
    let third = r#"[{"op":"move","from":"/log/1","path":"/last"},{"op":"add","path":"/log/-","value":"three"}]"#;
    let mut expected = v0.clone();
    for p in [first, second, third] {
        let patch: json_patch::Patch = serde_json::from_str(p).unwrap();
        expected = leptos_sse::patch::apply(expected, &patch).unwrap();
    }
    assert_eq!(expected, json(r#"{"log":["two","three"],"last":"one"}"#));

    let mut context = connected();
    for p in [first, second, third] {
        let text = format!("{{\"name\":\"x\",\"patch\":{}}}", p);
        assert_eq!(receive(&mut context, &text), DispatchOutcome::Buffered);
    }
    assert_eq!(
        create_sse_signal(&mut context, "x", v0),
        Ok(Registration { created: true, replayed: 3, skipped: 0 })
    );
    assert_eq!(context.value("x"), Some(&expected));
}

#[test]
fn an_early_patch_that_does_not_apply_is_skipped() {
    let mut context = connected();
    receive(&mut context, &envelope("counter", r#"{"value":0}"#, r#"{"value":1}"#));
    receive(&mut context, r#"{"name":"counter","patch":[{"op":"remove","path":"/nothing"}]}"#);
    receive(&mut context, &envelope("counter", r#"{"value":1}"#, r#"{"value":2}"#));
    assert_eq!(
        create_sse_signal(&mut context, "counter", json(r#"{"value":0}"#)),
        Ok(Registration { created: true, replayed: 3, skipped: 1 })
    );
    assert_eq!(context.value("counter"), Some(&json(r#"{"value":2}"#)));
    assert_eq!(context.waiting("counter"), 0);
}

#[test]
fn arrival_before_or_after_registration_gives_the_same_cell() {
    let text = envelope("n", r#"{"a":[1]}"#, r#"{"a":[1,2],"b":null}"#);
    let mut early = connected();
    receive(&mut early, &text);
    create_sse_signal(&mut early, "n", json(r#"{"a":[1]}"#)).unwrap();
    let mut late = connected();
    create_sse_signal(&mut late, "n", json(r#"{"a":[1]}"#)).unwrap();
    receive(&mut late, &text);
    assert_eq!(early.value("n"), late.value("n"));
    assert_eq!(early.value("n"), Some(&json(r#"{"a":[1,2],"b":null}"#)));
    assert_eq!(early.waiting("n"), 0);
    assert_eq!(late.waiting("n"), 0);
}

#[test]
fn registering_twice_keeps_the_cell() {
    let mut context = connected();
    receive(&mut context, &envelope("counter", r#"{"value":0}"#, r#"{"value":1}"#));
    assert_eq!(
        create_sse_signal(&mut context, "counter", json(r#"{"value":0}"#)),
        Ok(Registration { created: true, replayed: 1, skipped: 0 })
    );
    assert_eq!(create_sse_signal(&mut context, "counter", json(r#"{"value":0}"#)), Ok(EXISTING));
    assert_eq!(context.value("counter"), Some(&json(r#"{"value":1}"#)));
    assert_eq!(create_sse_signal(&mut context, "counter", json(r#"{"value":50}"#)), Ok(EXISTING));
    assert_eq!(context.value("counter"), Some(&json(r#"{"value":1}"#)));
    assert_eq!(context.waiting("counter"), 0);
    assert_eq!(
        receive(&mut context, &envelope("counter", r#"{"value":1}"#, r#"{"value":2}"#)),
        APPLIED
    );
    assert_eq!(context.value("counter"), Some(&json(r#"{"value":2}"#)));
    assert_eq!(context.lookup(SignalKind::Shared, "counter"), Some(&json(r#"{"value":2}"#)));
}

#[test]
fn signals_do_not_touch_each_other() {
    let mut context = connected();
    create_sse_signal(&mut context, "b", json(r#"{"value":10}"#)).unwrap();
    receive(&mut context, &envelope("c", "0", "1"));

    assert_eq!(receive(&mut context, &envelope("a", "0", "1")), DispatchOutcome::Buffered);
    assert_eq!(context.value("b"), Some(&json(r#"{"value":10}"#)));
    assert_eq!(context.waiting("b"), 0);
    assert_eq!(context.waiting("c"), 1);
    assert_eq!(context.waiting("a"), 1);

    create_sse_signal(&mut context, "a", json("0")).unwrap();
    assert_eq!(context.value("a"), Some(&json("1")));
    assert_eq!(context.value("b"), Some(&json(r#"{"value":10}"#)));
    assert_eq!(context.waiting("c"), 1);

    assert_eq!(receive(&mut context, &envelope("a", "1", "2")), APPLIED);
    assert_eq!(context.value("a"), Some(&json("2")));
    assert_eq!(context.value("b"), Some(&json(r#"{"value":10}"#)));
    assert_eq!(context.value("c"), None);
    assert_eq!(context.waiting("c"), 1);

    assert_eq!(
        receive(&mut context, &envelope("b", r#"{"value":10}"#, r#"{"value":11}"#)),
        APPLIED
    );
    assert_eq!(context.value("a"), Some(&json("2")));
    assert_eq!(context.value("b"), Some(&json(r#"{"value":11}"#)));
}

#[test]
fn names_are_compared_exactly() {
    let mut context = connected();
    create_sse_signal(&mut context, "counter", json("0")).unwrap();
    assert_eq!(receive(&mut context, &envelope("count", "0", "1")), DispatchOutcome::Buffered);
    assert_eq!(receive(&mut context, &envelope("counter2", "0", "1")), DispatchOutcome::Buffered);
    assert_eq!(receive(&mut context, &envelope("Counter", "0", "1")), DispatchOutcome::Buffered);
    assert_eq!(context.value("counter"), Some(&json("0")));
    assert_eq!(context.waiting("count"), 1);
    assert_eq!(context.waiting("counter2"), 1);
    assert_eq!(context.waiting("Counter"), 1);
    assert_eq!(context.waiting("counter"), 0);
}

#[test]
fn a_patch_that_does_not_apply_leaves_the_cell() {
    let mut context = connected();
    create_sse_signal(&mut context, "x", json(r#"{"value":0}"#)).unwrap();
    create_sse_signal(&mut context, "y", json(r#"{"value":0}"#)).unwrap();
    let bad = r#"{"name":"x","patch":[{"op":"replace","path":"/value","value":9},{"op":"remove","path":"/missing"}]}"#;
    assert_eq!(
        receive(&mut context, bad),
        DispatchOutcome::Failed {
            kind: SignalKind::Shared,
            error: PatchError::PathNotFound,
            skipped: 0
        }
    );
    assert_eq!(context.value("x"), Some(&json(r#"{"value":0}"#)));
    assert_eq!(
        receive(&mut context, &envelope("y", r#"{"value":0}"#, r#"{"value":1}"#)),
        APPLIED
    );
    assert_eq!(context.value("y"), Some(&json(r#"{"value":1}"#)));
    assert_eq!(context.value("x"), Some(&json(r#"{"value":0}"#)));
    assert_eq!(
        receive(&mut context, &envelope("x", r#"{"value":0}"#, r#"{"value":1}"#)),
        APPLIED
    );
    assert_eq!(context.value("x"), Some(&json(r#"{"value":1}"#)));
}

#[test]
fn a_failed_test_operation_is_reported() {
    let mut context = connected();
    create_sse_signal_local(&mut context, "x", json(r#"{"value":0}"#)).unwrap();
    let bad = r#"{"name":"x","patch":[{"op":"test","path":"/value","value":1}]}"#;
    assert_eq!(
        receive(&mut context, bad),
        DispatchOutcome::Failed {
            kind: SignalKind::Local,
            error: PatchError::TestFailed,
            skipped: 0
        }
    );
    let bad = r#"{"name":"x","patch":[{"op":"move","from":"/value","path":"/value/in"}]}"#;
    assert_eq!(
        receive(&mut context, bad),
        DispatchOutcome::Failed {
            kind: SignalKind::Local,
            error: PatchError::TypeMismatch,
            skipped: 0
        }
    );
    assert_eq!(context.value("x"), Some(&json(r#"{"value":0}"#)));
}

#[test]
fn a_malformed_message_is_dropped() {
    let mut context = connected();
    create_sse_signal(&mut context, "counter", json(r#"{"value":0}"#)).unwrap();
    receive(&mut context, &envelope("later", "0", "1"));
    assert_eq!(receive(&mut context, "{not json"), DispatchOutcome::Malformed);
    assert_eq!(context.value("counter"), Some(&json(r#"{"value":0}"#)));
    assert_eq!(context.waiting("counter"), 0);
    assert_eq!(context.waiting("later"), 1);
    assert_eq!(context.connection(), ConnectionState::Open);
    assert_eq!(receive(&mut context, r#"{"name":"counter"}"#), DispatchOutcome::Malformed);
    assert_eq!(context.waiting("counter"), 0);
    assert_eq!(
        receive(&mut context, &envelope("counter", r#"{"value":0}"#, r#"{"value":1}"#)),
        APPLIED
    );
    assert_eq!(context.value("counter"), Some(&json(r#"{"value":1}"#)));
}

#[test]
fn closing_keeps_cells_and_waiting_patches() {
    let mut context = connected();
    create_sse_signal(&mut context, "a", json("1")).unwrap();
    receive(&mut context, &envelope("b", "0", "1"));
    context.close();
    assert_eq!(context.value("a"), Some(&json("1")));
    assert_eq!(context.waiting("b"), 1);
    assert_eq!(receive(&mut context, &envelope("a", "1", "2")), DispatchOutcome::NotConnected);
    assert_eq!(receive(&mut context, &envelope("b", "1", "2")), DispatchOutcome::NotConnected);
    assert_eq!(context.value("a"), Some(&json("1")));
    assert_eq!(context.waiting("b"), 1);
    assert_eq!(create_sse_signal(&mut context, "b", json("0")), Err(RegisterError::NotInitialized));
    provide_sse(&mut context, "/sse");
    assert_eq!(
        create_sse_signal(&mut context, "b", json("0")),
        Ok(Registration { created: true, replayed: 1, skipped: 0 })
    );
    assert_eq!(context.value("b"), Some(&json("1")));
}

#[test]
fn dispatch_takes_an_envelope_as_it_is() {
    let mut context = connected();
    let update = ServerSignalUpdate::new_from_json::<()>("n", &json("[1]"), &json("[1,2]"));
    assert_eq!(context.dispatch(update.clone()), DispatchOutcome::Buffered);
    assert_eq!(context.register(SignalKind::Local, "n", json("[1]")).unwrap().replayed, 1);
    assert_eq!(context.value("n"), Some(&json("[1,2]")));
    assert_eq!(
        context.dispatch(update),
        DispatchOutcome::Applied { kind: SignalKind::Local, skipped: 0 }
    );
    assert_eq!(context.value("n"), Some(&json("[1,2,2]")));
}

#[test]
fn a_delivery_names_the_signal() {
    let mut context = SseContext::new();
    let text = envelope("counter", "0", "1");
    assert_eq!(
        context.on_message(&text),
        Delivery { signal: None, outcome: DispatchOutcome::NotConnected }
    );
    provide_sse(&mut context, "/sse");
    assert_eq!(
        context.on_message("{not json"),
        Delivery { signal: None, outcome: DispatchOutcome::Malformed }
    );
    assert_eq!(
        context.on_message(&text),
        Delivery { signal: Some("counter".to_string()), outcome: DispatchOutcome::Buffered }
    );
    create_sse_signal(&mut context, "counter", json("0")).unwrap();
    assert_eq!(
        context.on_message(&envelope("counter", "1", "2")),
        Delivery { signal: Some("counter".to_string()), outcome: APPLIED }
    );
    assert_eq!(
        context.on_message(r#"{"name":"counter","patch":[{"op":"test","path":"","value":0}]}"#),
        Delivery {
            signal: Some("counter".to_string()),
            outcome: DispatchOutcome::Failed {
                kind: SignalKind::Shared,
                error: PatchError::TestFailed,
                skipped: 0
            }
        }
    );
    assert_eq!(context.value("counter"), Some(&json("2")));
}
