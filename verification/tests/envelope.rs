use json_patch::Patch;
use leptos_sse::ServerSignalUpdate;
use serde_json::Value;

fn json(text: &str) -> Value {
    serde_json::from_str(text).unwrap()
}

fn patch(text: &str) -> Patch {
    serde_json::from_str(text).unwrap()
}

fn broken() -> serde_json::Error {
    serde_json::from_str::<Value>("{").unwrap_err()
}

#[test]
fn new_from_json_holds_the_name_and_the_diff() {
    let update = ServerSignalUpdate::new_from_json::<()>(
        "counter",
        &json(r#"{"value":0}"#),
        &json(r#"{"value":1}"#),
    );
    assert_eq!(update.name(), "counter");
    assert_eq!(update.patch(), &patch(r#"[{"op":"replace","path":"/value","value":1}]"#));
}

#[test]
fn new_holds_the_name_and_the_diff() {
    let update =
        ServerSignalUpdate::new("counter", Ok(json(r#"{"value":1}"#)), Ok(json(r#"{"value":2}"#)))
            .unwrap();
    assert_eq!(update.name(), "counter");
    assert_eq!(update.patch(), &patch(r#"[{"op":"replace","path":"/value","value":2}]"#));
    assert_eq!(
        update,
        ServerSignalUpdate::new_from_json::<()>(
            "counter",
            &json(r#"{"value":1}"#),
            &json(r#"{"value":2}"#)
        )
    );
}

#[test]
fn new_returns_the_first_error() {
    let first = broken();
    let text = first.to_string();
    let r = ServerSignalUpdate::new("counter", Err(first), Ok(json("1")));
    assert_eq!(r.unwrap_err().to_string(), text);

    let second = serde_json::from_str::<Value>("[1,").unwrap_err();
    let text = second.to_string();
    let r = ServerSignalUpdate::new("counter", Ok(json("1")), Err(second));
    assert_eq!(r.unwrap_err().to_string(), text);

    let first = broken();
    let text = first.to_string();
    let second = serde_json::from_str::<Value>("[1,").unwrap_err();
    assert_ne!(text, second.to_string());
    let r = ServerSignalUpdate::new("counter", Err(first), Err(second));
    assert_eq!(r.unwrap_err().to_string(), text);
}

#[test]
fn parts_go_in_and_come_out() {
    let p = patch(r#"[{"op":"remove","path":"/a"}]"#);
    let update = ServerSignalUpdate::from_parts("x".to_string(), p.clone());
    assert_eq!(update.name(), "x");
    assert_eq!(update.patch(), &p);
    let copy = update.clone();
    assert_eq!(copy, update);
    let (name, taken) = update.into_parts();
    assert_eq!(name, "x");
    assert_eq!(taken, p);
}

#[test]
fn decode_reads_the_wire_form() {
    let update = ServerSignalUpdate::decode(
        r#"{"name":"counter","patch":[{"op":"replace","path":"/value","value":1}]}"#,
    )
    .unwrap();
    assert_eq!(update.name(), "counter");
    assert_eq!(update.patch(), &patch(r#"[{"op":"replace","path":"/value","value":1}]"#));
}

#[test]
fn decode_reads_every_operation() {
    let text = r#"{"name":"doc","patch":[
        {"op":"add","path":"/a","value":[1,2]},
        {"op":"remove","path":"/b"},
        {"op":"replace","path":"/c","value":null},
        {"op":"move","from":"/d","path":"/e"},
        {"op":"copy","from":"/e","path":"/f"},
        {"op":"test","path":"/f","value":{"g":true}}]}"#;
    let update = ServerSignalUpdate::decode(text).unwrap();
    assert_eq!(update.name(), "doc");
    assert_eq!(update.patch().0.len(), 6);
    assert_eq!(
        serde_json::to_value(update.patch()).unwrap(),
        json(text).get("patch").unwrap().clone()
    );
}

#[test]
fn decode_ignores_other_members() {
    let update =
        ServerSignalUpdate::decode(r#"{"id":7,"patch":[],"name":"x","more":{"name":"y"}}"#)
            .unwrap();
    assert_eq!(update.name(), "x");
    assert_eq!(update.patch().0.len(), 0);
}

#[test]
fn decode_takes_an_empty_name() {
    let update = ServerSignalUpdate::decode(r#"{"name":"","patch":[]}"#).unwrap();
    assert_eq!(update.name(), "");
}

#[test]
fn decode_refuses_what_is_no_json() {
    assert_eq!(ServerSignalUpdate::decode("{not json"), None);
    assert_eq!(ServerSignalUpdate::decode(""), None);
    assert_eq!(ServerSignalUpdate::decode(r#"{"name":"x","patch":[]} trailing"#), None);
}

#[test]
fn decode_refuses_what_is_no_envelope() {
    assert_eq!(ServerSignalUpdate::decode("null"), None);
    assert_eq!(ServerSignalUpdate::decode("7"), None);
    assert_eq!(ServerSignalUpdate::decode(r#"["x",[]]"#), None);
    assert_eq!(ServerSignalUpdate::decode(r#"{"patch":[]}"#), None);
    assert_eq!(ServerSignalUpdate::decode(r#"{"name":"x"}"#), None);
    assert_eq!(ServerSignalUpdate::decode(r#"{"name":7,"patch":[]}"#), None);
    assert_eq!(ServerSignalUpdate::decode(r#"{"name":null,"patch":[]}"#), None);
    assert_eq!(ServerSignalUpdate::decode(r#"{"name":"x","patch":{}}"#), None);
    assert_eq!(ServerSignalUpdate::decode(r#"{"name":"x","patch":"[]"}"#), None);
}

#[test]
fn decode_refuses_a_broken_operation() {
    assert_eq!(
        ServerSignalUpdate::decode(r#"{"name":"x","patch":[{"op":"grow","path":"/a"}]}"#),
        None
    );
    assert_eq!(
        ServerSignalUpdate::decode(r#"{"name":"x","patch":[{"op":"add","path":"/a"}]}"#),
        None
    );
    assert_eq!(
        ServerSignalUpdate::decode(r#"{"name":"x","patch":[{"op":"remove","path":"a"}]}"#),
        None
    );
    assert_eq!(
        ServerSignalUpdate::decode(r#"{"name":"x","patch":[{"path":"/a","value":1}]}"#),
        None
    );
}

#[test]
fn from_document_reads_an_object() {
    let doc = json(r#"{"name":"x","patch":[{"op":"remove","path":"/a"}]}"#);
    let update = ServerSignalUpdate::from_document(&doc).unwrap();
    assert_eq!(update.name(), "x");
    assert_eq!(update.patch(), &patch(r#"[{"op":"remove","path":"/a"}]"#));
    assert_eq!(ServerSignalUpdate::from_document(&json(r#"[{"name":"x","patch":[]}]"#)), None);
}

#[test]
fn assemble_needs_both_parts() {
    let p = patch("[]");
    assert_eq!(
        ServerSignalUpdate::assemble(Some("x"), Some(p.clone())),
        Some(ServerSignalUpdate::from_parts("x".to_string(), p.clone()))
    );
    assert_eq!(ServerSignalUpdate::assemble(None, Some(p)), None);
    assert_eq!(ServerSignalUpdate::assemble(Some("x"), None), None);
    assert_eq!(ServerSignalUpdate::assemble(None, None), None);
}
