//! The log action: writes a value to the service log at a chosen level.
use vstd::prelude::*;

use crate::action_builder::{ActionError, ActionErrorView};
use crate::decode::{
    complete_fields_spec, decode_record, decode_record_spec, decode_value_spec, field_names,
    log_level_names, log_type_at, map_fields_spec, position, position_from, required_field,
    scan_entries_spec, schema_view, values_view, FieldKind, FieldSpecView, FieldValue,
    FieldValueView,
};
use crate::json::JsonValue;

verus! {

/// The level at which a log action writes.
#[derive(Clone, Copy, Debug, PartialEq, Eq, Structural)]
pub enum LogType {
    Info,
    Warn,
    Error,
}

/// A log action: `logType` (`info`, `warn` or `error`) and `logValue`.
pub struct LogV1 {
    log_type: LogType,
    log_value: String,
}

pub struct LogV1View {
    pub log_type: LogType,
    pub log_value: Seq<char>,
}

impl View for LogV1 {
    type V = LogV1View;

    closed spec fn view(&self) -> LogV1View {
        LogV1View { log_type: self.log_type, log_value: self.log_value@ }
    }
}

/// The fields of a log action.
pub open spec fn log_schema() -> Seq<FieldSpecView> {
    seq![
        FieldSpecView { name: "logType"@, kind: FieldKind::LogLevel, default: None },
        FieldSpecView { name: "logValue"@, kind: FieldKind::Text, default: None },
    ]
}

pub open spec fn log_level_of(v: FieldValueView) -> LogType {
    match v {
        FieldValueView::LogLevel(l) => l,
        _ => LogType::Info,
    }
}

pub open spec fn text_field(v: FieldValueView) -> Seq<char> {
    match v {
        FieldValueView::Text(s) => s,
        _ => Seq::empty(),
    }
}

/// What `LogV1::init` gives for the attributes `v`.
pub open spec fn log_v1_spec(v: JsonValue) -> Result<LogV1View, ActionErrorView> {
    match decode_record_spec(v, "LogV1"@, log_schema()) {
        Err(e) => Err(ActionErrorView::ParseError(e)),
        Ok(fs) => Ok(LogV1View { log_type: log_level_of(fs[0]), log_value: text_field(fs[1]) }),
    }
}

pub open spec fn log_result_view(r: Result<LogV1, ActionError>) -> Result<LogV1View, ActionErrorView> {
    match r {
        Ok(a) => Ok(a@),
        Err(e) => Err(e@),
    }
}

impl LogV1 {
    /// Reads a log action from message attributes.
    pub fn init(attributes: &JsonValue) -> (r: Result<LogV1, ActionError>)
        ensures
            log_result_view(r) == log_v1_spec(*attributes),
    {
        let mut schema = Vec::new();
        schema.push(required_field("logType", FieldKind::LogLevel));
        schema.push(required_field("logValue", FieldKind::Text));
        assert(schema_view(schema@) =~= log_schema());
        match decode_record(attributes, "LogV1", &schema) {
            Err(e) => Err(ActionError::ParseError(e)),
            Ok(fields) => {
                let ghost fv = values_view(fields@);
                assert(fv[0] is LogLevel && fv[1] is Text);
                let mut fields = fields;
                let value = fields.pop();
                let level = fields.pop();
                match (level, value) {
                    (Some(FieldValue::LogLevel(l)), Some(FieldValue::Text(s))) => Ok(
                        LogV1 { log_type: l, log_value: s },
                    ),
                    _ => vstd::pervasive::unreached(),
                }
            },
        }
    }

    /// The level to write at.
    pub fn log_type(&self) -> (r: LogType)
        ensures
            r == self@.log_type,
    {
        self.log_type
    }

    /// The text to write.
    pub fn log_value(&self) -> (r: &String)
        ensures
            r@ == self@.log_value,
    {
        &self.log_value
    }
}

/// An object that gives `logType` as one of the level names and then
/// `logValue` as a string decodes to that level and that text.
pub proof fn log_object_decodes(v: JsonValue, level: int)
    requires
        0 <= level < 3,
        v is Object,
        v->Object_0@.len() == 2,
        v->Object_0@[0].0@ == "logType"@,
        v->Object_0@[1].0@ == "logValue"@,
        v->Object_0@[0].1 is String,
        v->Object_0@[0].1->String_0@ == log_level_names()[level],
        v->Object_0@[1].1 is String,
    ensures
        log_v1_spec(v) == Ok::<LogV1View, ActionErrorView>(
            LogV1View {
                log_type: log_type_at(level),
                log_value: text_field(FieldValueView::Text(v->Object_0@[1].1->String_0@)),
            },
        ),
{
    reveal_strlit("logType");
    reveal_strlit("logValue");
    reveal_strlit("info");
    reveal_strlit("warn");
    reveal_strlit("error");
    reveal_with_fuel(scan_entries_spec, 3);
    reveal_with_fuel(position_from, 4);
    reveal_with_fuel(complete_fields_spec, 3);
    let entries = v->Object_0@;
    let sv = log_schema();
    assert(field_names(sv) =~= seq!["logType"@, "logValue"@]);
    assert("logType"@[3] != "logValue"@[3]);
    assert(position(field_names(sv), "logType"@) == 0);
    assert(position(field_names(sv), "logValue"@) == 1);
    assert("info"@[0] != "warn"@[0]);
    assert("info"@[0] != "error"@[0]);
    assert("warn"@[0] != "error"@[0]);
    assert(position(log_level_names(), log_level_names()[level]) == level);
    assert(decode_value_spec(FieldKind::LogLevel, entries[0].1) is Ok);
    assert(map_fields_spec(entries, sv) is Ok);
}


/// An object that gives `logType` as `info`, `warn` or `error` and then
/// `logValue` as a string decodes to level Info, Warn or Error respectively,
/// with that text.
pub proof fn log_level_named_by_text(v: JsonValue)
    requires
        v is Object,
        v->Object_0@.len() == 2,
        v->Object_0@[0].0@ == "logType"@,
        v->Object_0@[1].0@ == "logValue"@,
        v->Object_0@[0].1 is String,
        v->Object_0@[1].1 is String,
    ensures
        ({
            let n = v->Object_0@[0].1->String_0@;
            let expect = |level: LogType|
                Ok::<LogV1View, ActionErrorView>(
                    LogV1View { log_type: level, log_value: v->Object_0@[1].1->String_0@ },
                );
            &&& n == "info"@ ==> log_v1_spec(v) == expect(LogType::Info)
            &&& n == "warn"@ ==> log_v1_spec(v) == expect(LogType::Warn)
            &&& n == "error"@ ==> log_v1_spec(v) == expect(LogType::Error)
        }),
{
    reveal_strlit("info");
    reveal_strlit("warn");
    reveal_strlit("error");
    assert("info"@[0] != "warn"@[0]);
    assert("info"@[0] != "error"@[0]);
    assert("warn"@[0] != "error"@[0]);
    let n = v->Object_0@[0].1->String_0@;
    if n == "info"@ {
        log_object_decodes(v, 0);
        assert(log_v1_spec(v) == Ok::<LogV1View, ActionErrorView>(
            LogV1View { log_type: LogType::Info, log_value: v->Object_0@[1].1->String_0@ },
        ));
    } else if n == "warn"@ {
        log_object_decodes(v, 1);
        assert(log_v1_spec(v) == Ok::<LogV1View, ActionErrorView>(
            LogV1View { log_type: LogType::Warn, log_value: v->Object_0@[1].1->String_0@ },
        ));
    } else if n == "error"@ {
        log_object_decodes(v, 2);
        assert(log_v1_spec(v) == Ok::<LogV1View, ActionErrorView>(
            LogV1View { log_type: LogType::Error, log_value: v->Object_0@[1].1->String_0@ },
        ));
    }
}

} // verus!
