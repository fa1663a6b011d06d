//! The value codec: reference marshalling in and out of arbitrary JSON
//! trees, and the structural rules a sentinel object must satisfy.

use thirtyfour::{
    decode_value, decode_value_response, encode_value, Json, RefKind, RemoteRef, SessionId,
    WebDriverError, WebValue, ELEMENT_KEY, SHADOW_ROOT_KEY,
};

fn obj(entries: Vec<(&str, Json)>) -> Json {
    Json::Object(entries.into_iter().map(|(k, v)| (k.to_string(), v)).collect())
}

fn sentinel(handle: &str) -> Json {
    obj(vec![(ELEMENT_KEY, Json::Str(handle.to_string()))])
}

fn session() -> SessionId {
    SessionId::new("sess-42".to_string())
}

#[test]
fn decode_then_encode_reproduces_wire_tree() {
    // A tree with sentinel objects at several depths, next to ordinary
    // objects and arrays.
    let wire = obj(vec![
        ("first", sentinel("elem-1")),
        (
            "nested",
            Json::Array(vec![
                Json::Int(3),
                sentinel("elem-2"),
                obj(vec![("inner", sentinel("elem-3")), ("plain", Json::Null)]),
            ]),
        ),
        ("scalar", Json::Bool(true)),
    ]);
    let decoded = decode_value(&wire, &session());
    let encoded = encode_value(&decoded);
    assert_eq!(encoded, wire);
}

#[test]
fn decode_then_encode_reproduces_tree_without_references() {
    let wire = Json::Array(vec![
        Json::Null,
        Json::Int(-7),
        Json::Str("plain".to_string()),
        obj(vec![("k", Json::Array(vec![]))]),
    ]);
    let decoded = decode_value(&wire, &session());
    assert_eq!(encode_value(&decoded), wire);
}

#[test]
fn encode_then_decode_reproduces_value() {
    let value = WebValue::Array(vec![
        WebValue::Ref(RemoteRef {
            session: "sess-42".to_string(),
            handle: "elem-9".to_string(),
            kind: RefKind::Element,
        }),
        WebValue::Object(vec![("x".to_string(), WebValue::Int(1))]),
    ]);
    let encoded = encode_value(&value);
    let decoded = decode_value(&encoded, &session());
    assert_eq!(decoded, value);
}

#[test]
fn sentinel_decodes_to_element_handle() {
    let decoded = decode_value(&sentinel("abc"), &session());
    assert_eq!(
        decoded,
        WebValue::Ref(RemoteRef {
            session: "sess-42".to_string(),
            handle: "abc".to_string(),
            kind: RefKind::Element,
        })
    );
}

#[test]
fn shadow_root_sentinel_decodes_to_shadow_handle() {
    let wire = obj(vec![(SHADOW_ROOT_KEY, Json::Str("sh-1".to_string()))]);
    let decoded = decode_value(&wire, &session());
    assert_eq!(
        decoded,
        WebValue::Ref(RemoteRef {
            session: "sess-42".to_string(),
            handle: "sh-1".to_string(),
            kind: RefKind::ShadowRoot,
        })
    );
}

#[test]
fn window_sentinel_decodes_to_window_handle() {
    let wire = obj(vec![(thirtyfour::WINDOW_KEY, Json::Str("w-2".to_string()))]);
    let decoded = decode_value(&wire, &session());
    assert_eq!(
        decoded,
        WebValue::Ref(RemoteRef {
            session: "sess-42".to_string(),
            handle: "w-2".to_string(),
            kind: RefKind::Window,
        })
    );
}

#[test]
fn sentinel_with_extra_key_is_a_plain_object() {
    // {"element-6066-11e4-a52e-4f735466cecf": "abc", "extra": 1} is not
    // a pure single-entry reference object.
    let wire = obj(vec![
        (ELEMENT_KEY, Json::Str("abc".to_string())),
        ("extra", Json::Int(1)),
    ]);
    let decoded = decode_value(&wire, &session());
    assert_eq!(
        decoded,
        WebValue::Object(vec![
            (ELEMENT_KEY.to_string(), WebValue::Str("abc".to_string())),
            ("extra".to_string(), WebValue::Int(1)),
        ])
    );
}

#[test]
fn sentinel_with_misspelled_key_is_a_plain_object() {
    let wire = obj(vec![(
        "element-6066-11e4-a52e-4f735466cecd",
        Json::Str("abc".to_string()),
    )]);
    let decoded = decode_value(&wire, &session());
    assert!(matches!(decoded, WebValue::Object(_)));
}

#[test]
fn sentinel_with_non_string_value_is_a_plain_object() {
    let wire = obj(vec![(ELEMENT_KEY, Json::Int(5))]);
    let decoded = decode_value(&wire, &session());
    assert!(matches!(decoded, WebValue::Object(_)));
}

#[test]
fn decode_never_checks_reference_liveness() {
    // A handle to an object the server may long have dropped still
    // decodes: validity only surfaces when the handle is used.
    let response = obj(vec![("value", sentinel("stale-handle"))]);
    let decoded = decode_value_response(&response, &session()).expect("decoding is structural");
    assert!(matches!(decoded, WebValue::Ref(_)));
}

#[test]
fn value_response_without_value_field_is_decoding_error() {
    let response = obj(vec![("status", Json::Int(0))]);
    assert_eq!(
        decode_value_response(&response, &session()),
        Err(WebDriverError::Decoding)
    );
}

#[test]
fn handle_equality_is_per_session_reference_string() {
    let a = RemoteRef {
        session: "s".to_string(),
        handle: "h".to_string(),
        kind: RefKind::Element,
    };
    let b = RemoteRef {
        session: "s".to_string(),
        handle: "h".to_string(),
        kind: RefKind::Element,
    };
    let c = RemoteRef {
        session: "s".to_string(),
        handle: "other".to_string(),
        kind: RefKind::Element,
    };
    assert!(a.same_as(&b));
    assert!(!a.same_as(&c));
}

#[test]
fn typed_extraction_from_decoded_results() {
    let value = decode_value(&Json::Int(2), &session());
    assert_eq!(value.as_int(), Some(2));
    assert_eq!(value.as_bool(), None);

    let value = decode_value(&Json::Bool(true), &session());
    assert_eq!(value.as_bool(), Some(true));

    let value = decode_value(&Json::Str("w".to_string()), &session());
    assert_eq!(value.as_str().map(|s| s.as_str()), Some("w"));

    let value = decode_value(&sentinel("e-1"), &session());
    let handle = value.as_ref_handle().expect("a sentinel decodes to a handle");
    assert_eq!(handle.handle, "e-1");
    assert_eq!(handle.kind, RefKind::Element);
}

#[test]
fn deep_clone_copies_the_whole_tree() {
    let tree = obj(vec![
        ("a", Json::Array(vec![Json::Int(1), Json::Str("x".to_string())])),
        ("b", sentinel("e")),
    ]);
    assert_eq!(tree.deep_clone(), tree);
}
