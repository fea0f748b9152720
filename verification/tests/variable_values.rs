use runtrue_persistence::config::{
    check_stored_variable_snapshot, check_stored_variable_value, plan_variable_put,
    plan_variable_snapshot, VariableValue,
};
use runtrue_persistence::digest::content_digest_sha256;
use runtrue_persistence::error::ControlPlaneError;

#[test]
fn variable_values_are_hashed_in_canonical_form() {
    let p = plan_variable_put("key", "tenant", "workspace", "REGION", br#"{"b": 1, "a": [true, null]}"#)
        .unwrap();
    assert_eq!(p.canonical, br#"{"a":[true,null],"b":1}"#.to_vec());
    assert_eq!(p.request_hash, content_digest_sha256(br#"{"a":[true,null],"b":1}"#));
    assert_eq!(p.operation, "variable.put:tenant:workspace:REGION");
    let q = plan_variable_put("key", "tenant", "workspace", "REGION", br#"{"a":[true,null],"b":1}"#)
        .unwrap();
    assert_eq!(p, q);
}

#[test]
fn variable_puts_are_checked_in_order() {
    assert_eq!(
        plan_variable_put("", "tenant", "workspace", "REGION", b"1"),
        Err(ControlPlaneError::InvalidInput("invalid idempotency key"))
    );
    assert_eq!(
        plan_variable_put("key", "tenant", "", "REGION", b"not json"),
        Err(ControlPlaneError::InvalidInput("empty, oversized, or NUL text"))
    );
    assert_eq!(
        plan_variable_put("key", "tenant", "workspace", "REGION", b"not json"),
        Err(ControlPlaneError::InvalidInput("variable value is not JSON"))
    );
    let mut big = b"\"".to_vec();
    big.extend(std::iter::repeat(b'x').take(16 * 1024 * 1024));
    big.push(b'"');
    assert_eq!(
        plan_variable_put("key", "tenant", "workspace", "REGION", &big),
        Err(ControlPlaneError::InvalidInput("variable value is too large"))
    );
}

#[test]
fn stored_variable_values_must_be_canonical() {
    assert_eq!(check_stored_variable_value(br#"{"a":1,"b":2}"#), Ok(()));
    assert_eq!(
        check_stored_variable_value(br#"{"b":2,"a":1}"#),
        Err(ControlPlaneError::CorruptState("variable value is not canonical"))
    );
    assert_eq!(
        check_stored_variable_value(b"{"),
        Err(ControlPlaneError::CorruptState("variable value is not canonical"))
    );
}

fn value(name: &str, json: &str) -> VariableValue {
    VariableValue { name: name.into(), value_json: json.as_bytes().to_vec() }
}

#[test]
fn snapshots_digest_their_canonical_values() {
    let values = vec![value("REGION", r#""eu""#), value("LIMITS", r#"{"z": 2, "y": 1}"#)];
    let (bytes, digest) = plan_variable_snapshot("snap", "tenant", "workspace", 1, &values).unwrap();
    let expected = br#"{"LIMITS":{"y":1,"z":2},"REGION":"eu"}"#;
    assert_eq!(bytes, expected.to_vec());
    assert_eq!(digest, content_digest_sha256(expected));
    assert_eq!(check_stored_variable_snapshot(&bytes, &digest), Ok(()));
    assert_eq!(
        check_stored_variable_snapshot(&bytes, &content_digest_sha256(b"other")),
        Err(ControlPlaneError::CorruptState("variable snapshot digest changed"))
    );
    let (empty, _) = plan_variable_snapshot("snap", "tenant", "workspace", 2, &Vec::new()).unwrap();
    assert_eq!(empty, b"{}".to_vec());
}

#[test]
fn snapshot_requests_are_checked() {
    assert_eq!(
        plan_variable_snapshot("snap", "tenant", "workspace", 0, &Vec::new()),
        Err(ControlPlaneError::InvalidInput("variable snapshot version starts at one"))
    );
    assert_eq!(
        plan_variable_snapshot("snap", "tenant", "workspace", 1, &vec![value("", "1")]),
        Err(ControlPlaneError::InvalidInput("empty, oversized, or NUL text"))
    );
    assert_eq!(
        plan_variable_snapshot("snap", "tenant", "workspace", 1, &vec![value("A", "nope")]),
        Err(ControlPlaneError::InvalidInput("variable value is not JSON"))
    );
}

#[test]
fn json_strings_escape_as_serde_json_does() {
    let mut out = Vec::new();
    runtrue_persistence::json::push_json_string(&mut out, "a\"b\\\n\t\u{1}\u{1f}é/");
    assert_eq!(out, r#""a\"b\\\n\t\u0001\u001fé/""#.as_bytes().to_vec());
    assert_eq!(out, serde_json::to_vec("a\"b\\\n\t\u{1}\u{1f}é/").unwrap());
}
