use scheduler::config::{config_defaults, loads_dotenv, AppConfig};
use scheduler::handlers::{begin_create, finish_create, CreateDecision};
use scheduler::json::JsonValue;
use scheduler::message::{ActionType, Message};
use scheduler::text::{debug_quoted, i64_to_decimal, u64_to_decimal};
use scheduler::time::Timestamp;

fn message(action_type: ActionType, attributes: JsonValue) -> Message {
    Message {
        id: 42,
        delivery_time: Timestamp { secs: 1_700_000_123, nanos: 9 },
        action_type,
        version: 2,
        attributes,
    }
}

#[test]
fn action_type_names() {
    for (t, json, shown, code) in [
        (ActionType::Log, "log", "Log", 0),
        (ActionType::Http, "http", "Http", 1),
        (ActionType::Sns, "sns", "Sns", 2),
    ] {
        assert_eq!(t.serialized_name(), json);
        assert_eq!(t.to_string(), shown);
        assert_eq!(t.db_code(), code);
        assert_eq!(ActionType::from_name(json), Some(t));
        assert_eq!(ActionType::from_db_code(code), Some(t));
    }
    assert_eq!(ActionType::from_name("Log"), None);
    assert_eq!(ActionType::from_db_code(3), None);
    assert_eq!(ActionType::from_db_code(-1), None);
}

#[test]
fn create_rejects_invalid_attributes() {
    match begin_create(&message(ActionType::Log, JsonValue::Null)) {
        CreateDecision::Reject(reply) => {
            assert_eq!(reply.status, 400);
            assert_eq!(reply.body, "invalid type: null, expected struct LogV1");
        }
        CreateDecision::Store => panic!("expected a rejection"),
    }
}

#[test]
fn create_stores_valid_message() {
    let msg = message(
        ActionType::Log,
        JsonValue::Object(vec![
            ("logType".to_string(), JsonValue::String("info".to_string())),
            ("logValue".to_string(), JsonValue::String("x".to_string())),
        ]),
    );
    assert!(matches!(begin_create(&msg), CreateDecision::Store));
    let (reply, notify) = finish_create(&msg, true);
    assert_eq!(reply.status, 201);
    assert_eq!(reply.body, "");
    assert_eq!(notify, Some(Timestamp { secs: 1_700_000_123, nanos: 9 }));
    let (reply, notify) = finish_create(&msg, false);
    assert_eq!(reply.status, 500);
    assert_eq!(reply.body, "");
    assert_eq!(notify, None);
}

#[test]
fn settings() {
    let d = config_defaults();
    assert_eq!(
        d,
        vec![
            ("api_host".to_string(), "0.0.0.0".to_string()),
            ("api_port".to_string(), "8000".to_string()),
            ("rust_env".to_string(), "local".to_string()),
        ]
    );
    assert!(loads_dotenv("local"));
    assert!(!loads_dotenv("production"));
    let cfg = AppConfig {
        api_host: "127.0.0.1".to_string(),
        api_port: "8080".to_string(),
        database_url: "postgres://db".to_string(),
        rust_env: "local".to_string(),
    };
    assert_eq!(cfg.bind_address(), "127.0.0.1:8080");
}

#[test]
fn test_route_text() {
    assert_eq!(scheduler::test(), "HELLO");
}

#[test]
fn number_text() {
    assert_eq!(u64_to_decimal(0), "0");
    assert_eq!(u64_to_decimal(1234567890), "1234567890");
    assert_eq!(u64_to_decimal(u64::MAX), "18446744073709551615");
    assert_eq!(i64_to_decimal(-1), "-1");
    assert_eq!(i64_to_decimal(i64::MIN), "-9223372036854775808");
    assert_eq!(i64_to_decimal(77), "77");
    assert_eq!(debug_quoted("a\"b\n"), "\"a\\\"b\\n\"");
}
