use scheduler::json::{unexpected, DecodeError, JsonNumber, JsonValue};

fn float_text(n: &serde_json::Number) -> String {
    n.to_string()
}

fn convert(v: &serde_json::Value) -> JsonValue {
    match v {
        serde_json::Value::Null => JsonValue::Null,
        serde_json::Value::Bool(b) => JsonValue::Bool(*b),
        serde_json::Value::Number(n) => JsonValue::Number(if let Some(u) = n.as_u64() {
            JsonNumber::PosInt(u)
        } else if let Some(i) = n.as_i64() {
            JsonNumber::NegInt(i)
        } else {
            JsonNumber::Float(float_text(n))
        }),
        serde_json::Value::String(s) => JsonValue::String(s.clone()),
        serde_json::Value::Array(items) => JsonValue::Array(items.iter().map(convert).collect()),
        serde_json::Value::Object(entries) => {
            JsonValue::Object(entries.iter().map(|(k, v)| (k.clone(), convert(v))).collect())
        }
    }
}

fn samples() -> Vec<serde_json::Value> {
    let text = "[null, true, false, 0, 17, -3, 2.5, 1e300, \"plain\", \"quote \\\" and \\n newline\", \"caf\u{e9}\", [], [1], {}, {\"a\": 1}]";
    match serde_json::from_str::<serde_json::Value>(text).unwrap() {
        serde_json::Value::Array(items) => items,
        _ => unreachable!(),
    }
}

fn invalid_type(v: &JsonValue, expected: &str) -> String {
    DecodeError::InvalidType { unexpected: unexpected(v), expected: expected.to_string() }.to_string()
}

#[test]
fn string_errors_agree_with_serde_json() {
    for v in samples() {
        if v.is_string() {
            continue;
        }
        let theirs = serde_json::from_value::<String>(v.clone()).unwrap_err().to_string();
        assert_eq!(invalid_type(&convert(&v), "a string"), theirs);
    }
}

#[test]
fn unit_errors_agree_with_serde_json() {
    for v in samples() {
        if v.is_null() {
            continue;
        }
        let theirs = serde_json::from_value::<()>(v.clone()).unwrap_err().to_string();
        assert_eq!(invalid_type(&convert(&v), "unit"), theirs);
    }
}

#[test]
fn optional_string_errors_agree_with_serde_json() {
    for v in samples() {
        if v.is_null() || v.is_string() {
            continue;
        }
        let theirs = serde_json::from_value::<Option<String>>(v.clone()).unwrap_err().to_string();
        assert_eq!(invalid_type(&convert(&v), "a string"), theirs);
    }
}
