use scheduler::action_builder::{create_action, validate_action, Action, ActionError};
use scheduler::actions::http::{AuthMethod, HttpMethod, HttpV1};
use scheduler::actions::log::{LogType, LogV1};
use scheduler::actions::sns::{default_region, SnsV1};
use scheduler::json::{DecodeError, JsonNumber, JsonValue};
use scheduler::message::{ActionType, Message};
use scheduler::process_loop::{DeliveryScheduler, DeliveryUpdate};
use scheduler::time::Timestamp;

fn s(text: &str) -> JsonValue {
    JsonValue::String(text.to_string())
}

fn obj(entries: Vec<(&str, JsonValue)>) -> JsonValue {
    JsonValue::Object(entries.into_iter().map(|(k, v)| (k.to_string(), v)).collect())
}

fn err_text<T>(r: Result<T, ActionError>) -> String {
    match r {
        Ok(_) => panic!("expected an error"),
        Err(e) => e.to_string(),
    }
}

fn message(action_type: ActionType, attributes: JsonValue) -> Message {
    Message {
        id: 7,
        delivery_time: Timestamp { secs: 1_700_000_000, nanos: 0 },
        action_type,
        version: 1,
        attributes,
    }
}

#[test]
fn log_action_from_object() {
    let a = LogV1::init(&obj(vec![("logType", s("warn")), ("logValue", s("disk almost full"))]))
        .ok()
        .unwrap();
    assert_eq!(a.log_type(), LogType::Warn);
    assert_eq!(a.log_value(), "disk almost full");
}

#[test]
fn log_action_ignores_unknown_entries_and_order() {
    let a = LogV1::init(&obj(vec![
        ("extra", JsonValue::Number(JsonNumber::PosInt(3))),
        ("logValue", s("x")),
        ("logType", s("error")),
    ]))
    .ok()
    .unwrap();
    assert_eq!(a.log_type(), LogType::Error);
    assert_eq!(a.log_value(), "x");
}

#[test]
fn log_action_from_array() {
    let a = LogV1::init(&JsonValue::Array(vec![s("info"), s("hello")])).ok().unwrap();
    assert_eq!(a.log_type(), LogType::Info);
    assert_eq!(a.log_value(), "hello");
}

#[test]
fn log_level_as_single_entry_map() {
    let a = LogV1::init(&obj(vec![("logType", obj(vec![("info", JsonValue::Null)])), ("logValue", s("v"))]))
        .ok()
        .unwrap();
    assert_eq!(a.log_type(), LogType::Info);
}

#[test]
fn log_action_missing_field() {
    assert_eq!(err_text(LogV1::init(&obj(vec![("logType", s("info"))]))), "missing field `logValue`");
    assert_eq!(err_text(LogV1::init(&obj(vec![]))), "missing field `logType`");
}

#[test]
fn log_action_unknown_level() {
    assert_eq!(
        err_text(LogV1::init(&obj(vec![("logType", s("debug")), ("logValue", s("v"))]))),
        "unknown variant `debug`, expected one of `info`, `warn`, `error`"
    );
}

#[test]
fn log_action_wrong_types() {
    assert_eq!(
        err_text(LogV1::init(&obj(vec![("logType", s("info")), ("logValue", JsonValue::Number(JsonNumber::PosInt(5)))]))),
        "invalid type: integer `5`, expected a string"
    );
    assert_eq!(
        err_text(LogV1::init(&obj(vec![("logType", s("info")), ("logValue", JsonValue::Number(JsonNumber::NegInt(-12)))]))),
        "invalid type: integer `-12`, expected a string"
    );
    assert_eq!(
        err_text(LogV1::init(&obj(vec![("logType", s("info")), ("logValue", JsonValue::Number(JsonNumber::Float("1.5".to_string())))]))),
        "invalid type: floating point `1.5`, expected a string"
    );
    assert_eq!(
        err_text(LogV1::init(&obj(vec![("logType", JsonValue::Bool(true)), ("logValue", s("v"))]))),
        "invalid type: boolean `true`, expected string or map"
    );
    assert_eq!(err_text(LogV1::init(&JsonValue::Null)), "invalid type: null, expected struct LogV1");
    assert_eq!(err_text(LogV1::init(&s("hi"))), "invalid type: string \"hi\", expected struct LogV1");
}

#[test]
fn log_action_first_bad_entry_wins() {
    assert_eq!(
        err_text(LogV1::init(&obj(vec![("logValue", JsonValue::Bool(false)), ("logType", s("nope"))]))),
        "invalid type: boolean `false`, expected a string"
    );
}

#[test]
fn log_action_duplicate_field() {
    assert_eq!(
        err_text(LogV1::init(&obj(vec![("logType", s("info")), ("logType", s("warn")), ("logValue", s("v"))]))),
        "duplicate field `logType`"
    );
}

#[test]
fn log_action_array_lengths() {
    assert_eq!(
        err_text(LogV1::init(&JsonValue::Array(vec![s("info")]))),
        "invalid length 1, expected struct LogV1 with 2 elements"
    );
    assert_eq!(
        err_text(LogV1::init(&JsonValue::Array(vec![s("info"), s("a"), s("b")]))),
        "invalid length 3, expected fewer elements in array"
    );
}

#[test]
fn log_level_map_shapes() {
    assert_eq!(
        err_text(LogV1::init(&obj(vec![("logType", obj(vec![])), ("logValue", s("v"))]))),
        "invalid value: map, expected map with a single key"
    );
    assert_eq!(
        err_text(LogV1::init(&obj(vec![("logType", obj(vec![("info", JsonValue::Number(JsonNumber::PosInt(1)))])), ("logValue", s("v"))]))),
        "invalid type: integer `1`, expected unit"
    );
    assert_eq!(
        err_text(LogV1::init(&obj(vec![("logType", JsonValue::Array(vec![])), ("logValue", s("v"))]))),
        "invalid type: sequence, expected string or map"
    );
}

#[test]
fn http_action_basic_auth() {
    let a = HttpV1::init(&obj(vec![
        ("auth", obj(vec![("basic", obj(vec![("username", s("u")), ("password", s("p"))]))])),
        ("url", s("http://example.com")),
        ("method", s("post")),
        ("body", s("{}")),
    ]))
    .ok()
    .unwrap();
    let plan = a.request_plan();
    assert_eq!(plan.method, HttpMethod::Post);
    assert_eq!(plan.url, "http://example.com");
    assert_eq!(plan.json_body, Some("{}".to_string()));
    match plan.auth {
        AuthMethod::Basic { username, password } => {
            assert_eq!(username, "u");
            assert_eq!(password, Some("p".to_string()));
        }
        _ => panic!("expected basic auth"),
    }
}

#[test]
fn http_action_password_optional() {
    for password in [None, Some(JsonValue::Null)] {
        let mut basic = vec![("username", s("u"))];
        if let Some(p) = password {
            basic.push(("password", p));
        }
        let a = HttpV1::init(&obj(vec![
            ("auth", obj(vec![("basic", obj(basic))])),
            ("url", s("http://h")),
            ("method", s("get")),
        ]))
        .ok()
        .unwrap();
        match a.request_plan().auth {
            AuthMethod::Basic { password, .. } => assert_eq!(password, None),
            _ => panic!("expected basic auth"),
        }
    }
}

#[test]
fn http_action_body_rules() {
    let get_with_body = HttpV1::init(&obj(vec![
        ("auth", s("none")),
        ("url", s("http://h")),
        ("method", s("get")),
        ("body", s("data")),
    ]))
    .ok()
    .unwrap();
    assert_eq!(get_with_body.request_plan().json_body, None);
    let put_without_body = HttpV1::init(&obj(vec![
        ("auth", obj(vec![("bearer", obj(vec![("token", s("t"))]))])),
        ("url", s("http://h")),
        ("method", s("put")),
    ]))
    .ok()
    .unwrap();
    let plan = put_without_body.request_plan();
    assert_eq!(plan.method, HttpMethod::Put);
    assert_eq!(plan.json_body, None);
    match plan.auth {
        AuthMethod::Bearer { token } => assert_eq!(token, "t"),
        _ => panic!("expected bearer auth"),
    }
    let delete_with_body = HttpV1::init(&obj(vec![
        ("auth", s("none")),
        ("url", s("http://h")),
        ("method", s("delete")),
        ("body", s("x")),
    ]))
    .ok()
    .unwrap();
    assert_eq!(delete_with_body.request_plan().json_body, Some("x".to_string()));
}

#[test]
fn http_action_errors() {
    assert_eq!(
        err_text(HttpV1::init(&obj(vec![("auth", s("basic")), ("url", s("u")), ("method", s("get"))]))),
        "invalid type: unit variant, expected struct variant"
    );
    assert_eq!(
        err_text(HttpV1::init(&obj(vec![("auth", obj(vec![("bearer", JsonValue::Array(vec![]))])), ("url", s("u")), ("method", s("get"))]))),
        "invalid type: sequence, expected struct variant"
    );
    assert_eq!(
        err_text(HttpV1::init(&obj(vec![("auth", obj(vec![("bearer", obj(vec![]))])), ("url", s("u")), ("method", s("get"))]))),
        "missing field `token`"
    );
    assert_eq!(
        err_text(HttpV1::init(&obj(vec![("auth", s("oauth")), ("url", s("u")), ("method", s("get"))]))),
        "unknown variant `oauth`, expected one of `basic`, `bearer`, `none`"
    );
    assert_eq!(
        err_text(HttpV1::init(&obj(vec![("auth", s("none")), ("url", s("u")), ("method", s("GET"))]))),
        "unknown variant `GET`, expected one of `get`, `post`, `patch`, `put`, `delete`"
    );
    assert_eq!(
        err_text(HttpV1::init(&obj(vec![("auth", s("none")), ("method", s("get"))]))),
        "missing field `url`"
    );
    assert_eq!(
        err_text(HttpV1::init(&JsonValue::Array(vec![s("none"), s("u")]))),
        "invalid length 2, expected struct HttpV1 with 4 elements"
    );
}

#[test]
fn http_action_from_array_takes_default_body() {
    let a = HttpV1::init(&JsonValue::Array(vec![s("none"), s("http://h"), s("patch")])).ok().unwrap();
    let plan = a.request_plan();
    assert_eq!(plan.method, HttpMethod::Patch);
    assert_eq!(plan.json_body, None);
}

#[test]
fn sns_action_defaults() {
    let a = SnsV1::init(&obj(vec![("topicArn", s("arn:aws:sns:t"))])).ok().unwrap();
    assert_eq!(a.topic_arn(), "arn:aws:sns:t");
    assert_eq!(a.region(), "us-west-2");
    assert_eq!(a.message(), "");
    assert_eq!(default_region(), "us-west-2");
}

#[test]
fn sns_action_all_fields() {
    let a = SnsV1::init(&obj(vec![("message", s("m")), ("region", s("eu-west-1")), ("topicArn", s("t"))]))
        .ok()
        .unwrap();
    assert_eq!(a.topic_arn(), "t");
    assert_eq!(a.region(), "eu-west-1");
    assert_eq!(a.message(), "m");
    assert_eq!(err_text(SnsV1::init(&obj(vec![("region", s("r"))]))), "missing field `topicArn`");
    assert_eq!(
        err_text(SnsV1::init(&JsonValue::Array(vec![]))),
        "invalid length 0, expected struct SnsV1 with 3 elements"
    );
    let from_array = SnsV1::init(&JsonValue::Array(vec![s("t")])).ok().unwrap();
    assert_eq!(from_array.region(), "us-west-2");
}

#[test]
fn validation_matches_creation() {
    let good = message(ActionType::Log, obj(vec![("logType", s("info")), ("logValue", s("v"))]));
    assert!(validate_action(&good).is_none());
    match create_action(&good) {
        Ok(Action::Log(a)) => assert_eq!(a.log_type(), LogType::Info),
        _ => panic!("expected a log action"),
    }
    let bad = message(ActionType::Sns, obj(vec![]));
    assert_eq!(validate_action(&bad).unwrap().to_string(), "missing field `topicArn`");
    assert_eq!(err_text(create_action(&bad)), "missing field `topicArn`");
    let http = message(ActionType::Http, obj(vec![("auth", s("none")), ("url", s("u")), ("method", s("get"))]));
    assert!(matches!(create_action(&http), Ok(Action::Http(_))));
}

#[test]
fn exec_error_message() {
    assert_eq!(ActionError::ExecError("connection refused".to_string()).to_string(), "connection refused");
    let e = DecodeError::MissingField { field: "x".to_string() };
    assert_eq!(ActionError::ParseError(e).to_string(), "missing field `x`");
}

#[test]
fn object_and_array_forms_decode_alike() {
    let as_object = obj(vec![("logType", JsonValue::Number(JsonNumber::PosInt(5))), ("logValue", s("x"))]);
    let as_array = JsonValue::Array(vec![JsonValue::Number(JsonNumber::PosInt(5)), s("x")]);
    assert_eq!(err_text(LogV1::init(&as_object)), err_text(LogV1::init(&as_array)));
    let as_object = obj(vec![
        ("topicArn", s("t")),
        ("region", s("r")),
        ("message", s("m")),
    ]);
    let as_array = JsonValue::Array(vec![s("t"), s("r"), s("m")]);
    let a = SnsV1::init(&as_object).ok().unwrap();
    let b = SnsV1::init(&as_array).ok().unwrap();
    assert_eq!((a.topic_arn(), a.region(), a.message()), (b.topic_arn(), b.region(), b.message()));
}

#[test]
fn scheduled_times_keep_the_earliest() {
    let start = Timestamp { secs: 1_000, nanos: 0 };
    let mut sched = DeliveryScheduler::new(start);
    for secs in [900, 950, 800, 1_200, 850] {
        sched.on_update(DeliveryUpdate::Scheduled(Timestamp { secs, nanos: 0 }), Timestamp { secs: 0, nanos: 0 });
    }
    assert_eq!(sched.next_delivery, Timestamp { secs: 800, nanos: 0 });
}
