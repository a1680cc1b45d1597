//! Decoding of JSON attributes into records described by a schema: named
//! fields, each of a known kind, some with a default.
//!
//! A record accepts a JSON object, whose entries are read in order (entries
//! with unknown names are skipped, a second entry for a field is an error,
//! the first invalid field value is reported), or a JSON array, whose items
//! are the fields in declaration order. A field missing at the end takes its
//! default, is `None` when optional, and is an error otherwise.
use vstd::prelude::*;

use crate::actions::http::{AuthMethod, AuthMethodView, HttpMethod};
use crate::actions::log::LogType;
use crate::json::{
    invalid_type, unexpected, DecodeError, DecodeErrorView, JsonValue, Unexpected, UnexpectedView,
};
use crate::text::{decimal, u64_to_decimal};

verus! {

/// The kinds of value a field can hold.
#[derive(Clone, Copy, Debug, PartialEq, Eq, Structural)]
pub enum FieldKind {
    /// A string.
    Text,
    /// A string or `null`; `None` when the field is absent.
    OptionalText,
    /// A log level: `info`, `warn` or `error`.
    LogLevel,
    /// An HTTP method: `get`, `post`, `patch`, `put` or `delete`.
    Method,
    /// An authentication method: `basic`, `bearer` or `none`.
    Auth,
}

/// One field of a record.
pub struct FieldSpec {
    pub name: String,
    pub kind: FieldKind,
    /// The text the field takes when it is absent (text fields only).
    pub default: Option<String>,
}

pub struct FieldSpecView {
    pub name: Seq<char>,
    pub kind: FieldKind,
    pub default: Option<Seq<char>>,
}

impl View for FieldSpec {
    type V = FieldSpecView;

    open spec fn view(&self) -> FieldSpecView {
        FieldSpecView { name: self.name@, kind: self.kind, default: self.default.deep_view() }
    }
}

/// A decoded field.
pub enum FieldValue {
    Text(String),
    OptionalText(Option<String>),
    LogLevel(LogType),
    Method(HttpMethod),
    Auth(AuthMethod),
}

pub enum FieldValueView {
    Text(Seq<char>),
    OptionalText(Option<Seq<char>>),
    LogLevel(LogType),
    Method(HttpMethod),
    Auth(AuthMethodView),
}

impl View for FieldValue {
    type V = FieldValueView;

    open spec fn view(&self) -> FieldValueView {
        match self {
            FieldValue::Text(s) => FieldValueView::Text(s@),
            FieldValue::OptionalText(o) => FieldValueView::OptionalText(o.deep_view()),
            FieldValue::LogLevel(l) => FieldValueView::LogLevel(*l),
            FieldValue::Method(m) => FieldValueView::Method(*m),
            FieldValue::Auth(a) => FieldValueView::Auth(a@),
        }
    }
}

pub open spec fn schema_view(s: Seq<FieldSpec>) -> Seq<FieldSpecView> {
    s.map_values(|f: FieldSpec| f@)
}

pub open spec fn values_view(s: Seq<FieldValue>) -> Seq<FieldValueView> {
    s.map_values(|f: FieldValue| f@)
}

pub open spec fn value_result_view(r: Result<FieldValue, DecodeError>) -> Result<
    FieldValueView,
    DecodeErrorView,
> {
    match r {
        Ok(v) => Ok(v@),
        Err(e) => Err(e@),
    }
}

pub open spec fn values_result_view(r: Result<Vec<FieldValue>, DecodeError>) -> Result<
    Seq<FieldValueView>,
    DecodeErrorView,
> {
    match r {
        Ok(v) => Ok(values_view(v@)),
        Err(e) => Err(e@),
    }
}

/// Whether a decoded value is of the given kind.
pub open spec fn of_kind(v: FieldValueView, k: FieldKind) -> bool {
    match k {
        FieldKind::Text => v is Text,
        FieldKind::OptionalText => v is OptionalText,
        FieldKind::LogLevel => v is LogLevel,
        FieldKind::Method => v is Method,
        FieldKind::Auth => v is Auth,
    }
}

/// Whether each decoded value has the kind of its field.
pub open spec fn fits_schema(vs: Seq<FieldValueView>, schema: Seq<FieldSpecView>) -> bool {
    &&& vs.len() == schema.len()
    &&& forall|j: int| 0 <= j < vs.len() ==> of_kind(#[trigger] vs[j], schema[j].kind)
}

pub open spec fn kind_rank(k: FieldKind) -> nat {
    if k is Auth {
        1
    } else {
        0
    }
}

pub open spec fn schema_rank(s: Seq<FieldSpecView>) -> nat {
    if exists|j: int| 0 <= j < s.len() && (#[trigger] s[j]).kind is Auth {
        1
    } else {
        0
    }
}

/// The first index at or after `j` that holds `name`, or the length when none does.
pub open spec fn position_from(names: Seq<Seq<char>>, name: Seq<char>, j: int) -> int
    decreases names.len() - j,
{
    if j >= names.len() || j < 0 {
        names.len() as int
    } else if names[j] == name {
        j
    } else {
        position_from(names, name, j + 1)
    }
}

/// The first index that holds `name`, or the length when none does.
pub open spec fn position(names: Seq<Seq<char>>, name: Seq<char>) -> int {
    position_from(names, name, 0)
}

pub open spec fn field_names(schema: Seq<FieldSpecView>) -> Seq<Seq<char>> {
    schema.map_values(|f: FieldSpecView| f.name)
}

pub open spec fn log_level_names() -> Seq<Seq<char>> {
    seq!["info"@, "warn"@, "error"@]
}

pub open spec fn method_names() -> Seq<Seq<char>> {
    seq!["get"@, "post"@, "patch"@, "put"@, "delete"@]
}

pub open spec fn auth_names() -> Seq<Seq<char>> {
    seq!["basic"@, "bearer"@, "none"@]
}

pub open spec fn basic_schema() -> Seq<FieldSpecView> {
    seq![
        FieldSpecView { name: "username"@, kind: FieldKind::Text, default: None },
        FieldSpecView { name: "password"@, kind: FieldKind::OptionalText, default: None },
    ]
}

pub open spec fn bearer_schema() -> Seq<FieldSpecView> {
    seq![FieldSpecView { name: "token"@, kind: FieldKind::Text, default: None }]
}

pub open spec fn decode_text_spec(v: JsonValue) -> Result<FieldValueView, DecodeErrorView> {
    match v {
        JsonValue::String(s) => Ok(FieldValueView::Text(s@)),
        _ => Err(invalid_type(v, "a string"@)),
    }
}

pub open spec fn decode_optional_text_spec(v: JsonValue) -> Result<FieldValueView, DecodeErrorView> {
    match v {
        JsonValue::Null => Ok(FieldValueView::OptionalText(None)),
        JsonValue::String(s) => Ok(FieldValueView::OptionalText(Some(s@))),
        _ => Err(invalid_type(v, "a string"@)),
    }
}

/// An enum is a string naming a variant, or an object with one entry whose
/// key names the variant and whose value is the variant's content.
pub open spec fn enum_access_spec(v: JsonValue) -> Result<
    (Seq<char>, Option<JsonValue>),
    DecodeErrorView,
> {
    match v {
        JsonValue::String(s) => Ok((s@, None)),
        JsonValue::Object(entries) => if entries@.len() == 1 {
            Ok((entries@[0].0@, Some(entries@[0].1)))
        } else {
            Err(
                DecodeErrorView::InvalidValue {
                    unexpected: UnexpectedView::Mapping,
                    expected: "map with a single key"@,
                },
            )
        },
        _ => Err(invalid_type(v, "string or map"@)),
    }
}

/// A variant without content accepts no content or `null`.
pub open spec fn unit_variant_spec(content: Option<JsonValue>) -> Result<(), DecodeErrorView> {
    match content {
        None => Ok(()),
        Some(JsonValue::Null) => Ok(()),
        Some(c) => Err(invalid_type(c, "unit"@)),
    }
}

/// The index of the variant that `v` names among `names`, for an enum whose
/// variants carry no content.
pub open spec fn unit_enum_spec(v: JsonValue, names: Seq<Seq<char>>) -> Result<int, DecodeErrorView> {
    match enum_access_spec(v) {
        Err(e) => Err(e),
        Ok((name, content)) => {
            let i = position(names, name);
            if i >= names.len() {
                Err(DecodeErrorView::UnknownVariant { variant: name, expected: names })
            } else {
                match unit_variant_spec(content) {
                    Err(e) => Err(e),
                    Ok(_) => Ok(i),
                }
            }
        },
    }
}

pub open spec fn log_type_at(i: int) -> LogType {
    if i == 0 {
        LogType::Info
    } else if i == 1 {
        LogType::Warn
    } else {
        LogType::Error
    }
}

pub open spec fn method_at(i: int) -> HttpMethod {
    if i == 0 {
        HttpMethod::Get
    } else if i == 1 {
        HttpMethod::Post
    } else if i == 2 {
        HttpMethod::Patch
    } else if i == 3 {
        HttpMethod::Put
    } else {
        HttpMethod::Delete
    }
}

pub open spec fn text_of(v: FieldValueView) -> Seq<char> {
    match v {
        FieldValueView::Text(s) => s,
        _ => Seq::empty(),
    }
}

pub open spec fn optional_text_of(v: FieldValueView) -> Option<Seq<char>> {
    match v {
        FieldValueView::OptionalText(o) => o,
        _ => None,
    }
}

/// Decodes one field value of the given kind.
pub open spec fn decode_value_spec(kind: FieldKind, v: JsonValue) -> Result<
    FieldValueView,
    DecodeErrorView,
>
    decreases kind_rank(kind), 2nat, 0nat,
{
    match kind {
        FieldKind::Text => decode_text_spec(v),
        FieldKind::OptionalText => decode_optional_text_spec(v),
        FieldKind::LogLevel => match unit_enum_spec(v, log_level_names()) {
            Err(e) => Err(e),
            Ok(i) => Ok(FieldValueView::LogLevel(log_type_at(i))),
        },
        FieldKind::Method => match unit_enum_spec(v, method_names()) {
            Err(e) => Err(e),
            Ok(i) => Ok(FieldValueView::Method(method_at(i))),
        },
        FieldKind::Auth => decode_auth_spec(v),
    }
}

/// Decodes an authentication method: `basic` and `bearer` carry an object
/// with their fields, `none` carries nothing.
pub open spec fn decode_auth_spec(v: JsonValue) -> Result<FieldValueView, DecodeErrorView>
    decreases 1nat, 1nat, 0nat,
{
    match enum_access_spec(v) {
        Err(e) => Err(e),
        Ok((name, content)) => {
            let i = position(auth_names(), name);
            if i == 0 || i == 1 {
                let schema = if i == 0 {
                    basic_schema()
                } else {
                    bearer_schema()
                };
                let fields = match content {
                    None => Err(
                        DecodeErrorView::InvalidType {
                            unexpected: UnexpectedView::UnitVariant,
                            expected: "struct variant"@,
                        },
                    ),
                    Some(JsonValue::Object(entries)) => {
                        proof {
                            assert(schema_rank(schema) == 0) by {
                                if exists|j: int|
                                    0 <= j < schema.len() && (#[trigger] schema[j]).kind is Auth {
                                    let j = choose|j: int|
                                        0 <= j < schema.len() && (#[trigger] schema[j]).kind is Auth;
                                    assert(j == 0 || j == 1);
                                }
                            }
                        }
                        map_fields_spec(entries@, schema)
                    },
                    Some(c) => Err(invalid_type(c, "struct variant"@)),
                };
                match fields {
                    Err(e) => Err(e),
                    Ok(fs) => if i == 0 {
                        Ok(
                            FieldValueView::Auth(
                                AuthMethodView::Basic {
                                    username: text_of(fs[0]),
                                    password: optional_text_of(fs[1]),
                                },
                            ),
                        )
                    } else {
                        Ok(FieldValueView::Auth(AuthMethodView::Bearer { token: text_of(fs[0]) }))
                    },
                }
            } else if i == 2 {
                match unit_variant_spec(content) {
                    Err(e) => Err(e),
                    Ok(_) => Ok(FieldValueView::Auth(AuthMethodView::NoAuth)),
                }
            } else {
                Err(DecodeErrorView::UnknownVariant { variant: name, expected: auth_names() })
            }
        },
    }
}

/// Reads the fields of a record from object entries, then completes the
/// fields that were absent.
pub open spec fn map_fields_spec(
    entries: Seq<(String, JsonValue)>,
    schema: Seq<FieldSpecView>,
) -> Result<Seq<FieldValueView>, DecodeErrorView>
    decreases schema_rank(schema), 4nat, 0nat,
{
    match scan_entries_spec(entries, schema, 0, Seq::new(schema.len(), |j: int| None)) {
        Err(e) => Err(e),
        Ok(found) => complete_fields_spec(schema, found, 0),
    }
}

/// Reads the entries from index `i` on, with `found` the fields read so far.
pub open spec fn scan_entries_spec(
    entries: Seq<(String, JsonValue)>,
    schema: Seq<FieldSpecView>,
    i: int,
    found: Seq<Option<FieldValueView>>,
) -> Result<Seq<Option<FieldValueView>>, DecodeErrorView>
    decreases schema_rank(schema), 3nat, entries.len() - i,
{
    if i < 0 || i >= entries.len() {
        Ok(found)
    } else {
        let j = position(field_names(schema), entries[i].0@);
        if j >= schema.len() || j < 0 {
            scan_entries_spec(entries, schema, i + 1, found)
        } else if found[j] is Some {
            Err(DecodeErrorView::DuplicateField { field: schema[j].name })
        } else {
            proof {
                if schema[j].kind is Auth {
                    assert(0 <= j < schema.len() && (#[trigger] schema[j]).kind is Auth);
                }
            }
            match decode_value_spec(schema[j].kind, entries[i].1) {
                Err(e) => Err(e),
                Ok(v) => scan_entries_spec(entries, schema, i + 1, found.update(j, Some(v))),
            }
        }
    }
}

/// The value a field takes when no entry gave it one.
pub open spec fn absent_field_spec(f: FieldSpecView) -> Result<FieldValueView, DecodeErrorView> {
    match f.default {
        Some(d) => Ok(FieldValueView::Text(d)),
        None => if f.kind is OptionalText {
            Ok(FieldValueView::OptionalText(None))
        } else {
            Err(DecodeErrorView::MissingField { field: f.name })
        },
    }
}

/// The fields from index `j` on, each the value read or else its absent value.
pub open spec fn complete_fields_spec(
    schema: Seq<FieldSpecView>,
    found: Seq<Option<FieldValueView>>,
    j: int,
) -> Result<Seq<FieldValueView>, DecodeErrorView>
    decreases schema.len() - j,
{
    if j < 0 || j >= schema.len() {
        Ok(Seq::empty())
    } else {
        let this = match found[j] {
            Some(v) => Ok(v),
            None => absent_field_spec(schema[j]),
        };
        match this {
            Err(e) => Err(e),
            Ok(v) => match complete_fields_spec(schema, found, j + 1) {
                Err(e) => Err(e),
                Ok(rest) => Ok(seq![v] + rest),
            },
        }
    }
}

/// Reads the fields from index `j` on from array items; a field past the end
/// of the array takes its default or is an error.
pub open spec fn seq_fields_spec(
    items: Seq<JsonValue>,
    schema: Seq<FieldSpecView>,
    j: int,
    expecting: Seq<char>,
) -> Result<Seq<FieldValueView>, DecodeErrorView>
    decreases schema.len() - j,
{
    if j < 0 || j >= schema.len() {
        Ok(Seq::empty())
    } else {
        let this = if j < items.len() {
            decode_value_spec(schema[j].kind, items[j])
        } else {
            match schema[j].default {
                Some(d) => Ok(FieldValueView::Text(d)),
                None => Err(DecodeErrorView::InvalidLength { len: j as usize, expected: expecting }),
            }
        };
        match this {
            Err(e) => Err(e),
            Ok(v) => match seq_fields_spec(items, schema, j + 1, expecting) {
                Err(e) => Err(e),
                Ok(rest) => Ok(seq![v] + rest),
            },
        }
    }
}

/// How a record read from an array is described when the array is too short.
pub open spec fn expecting_elements(name: Seq<char>, n: nat) -> Seq<char> {
    if n == 1 {
        "struct "@ + name + " with 1 element"@
    } else {
        "struct "@ + name + " with "@ + decimal(n) + " elements"@
    }
}

/// Decodes the record `name` with the given fields from a JSON value.
pub open spec fn decode_record_spec(
    v: JsonValue,
    name: Seq<char>,
    schema: Seq<FieldSpecView>,
) -> Result<Seq<FieldValueView>, DecodeErrorView> {
    match v {
        JsonValue::Object(entries) => map_fields_spec(entries@, schema),
        JsonValue::Array(items) => match seq_fields_spec(
            items@,
            schema,
            0,
            expecting_elements(name, schema.len()),
        ) {
            Err(e) => Err(e),
            Ok(fs) => if items@.len() > schema.len() {
                Err(
                    DecodeErrorView::InvalidLength {
                        len: items@.len() as usize,
                        expected: "fewer elements in array"@,
                    },
                )
            } else {
                Ok(fs)
            },
        },
        _ => Err(invalid_type(v, "struct "@ + name)),
    }
}


proof fn lemma_scan_after_insert(
    entries: Seq<(String, JsonValue)>,
    schema: Seq<FieldSpecView>,
    k: int,
    extra: (String, JsonValue),
    i: int,
    found: Seq<Option<FieldValueView>>,
)
    requires
        0 <= k <= i <= entries.len(),
    ensures
        scan_entries_spec(entries.insert(k, extra), schema, i + 1, found) == scan_entries_spec(
            entries,
            schema,
            i,
            found,
        ),
    decreases entries.len() - i,
{
    let ins = entries.insert(k, extra);
    if i < entries.len() {
        assert(ins[i + 1] == entries[i]);
        let j = position(field_names(schema), entries[i].0@);
        if j >= schema.len() || j < 0 {
            lemma_scan_after_insert(entries, schema, k, extra, i + 1, found);
        } else if found[j] is Some {
        } else {
            match decode_value_spec(schema[j].kind, entries[i].1) {
                Err(e) => {},
                Ok(v) => {
                    lemma_scan_after_insert(entries, schema, k, extra, i + 1, found.update(j, Some(v)));
                },
            }
        }
    }
}

proof fn lemma_scan_before_insert(
    entries: Seq<(String, JsonValue)>,
    schema: Seq<FieldSpecView>,
    k: int,
    extra: (String, JsonValue),
    i: int,
    found: Seq<Option<FieldValueView>>,
)
    requires
        0 <= i <= k <= entries.len(),
        position(field_names(schema), extra.0@) >= schema.len(),
    ensures
        scan_entries_spec(entries.insert(k, extra), schema, i, found) == scan_entries_spec(
            entries,
            schema,
            i,
            found,
        ),
    decreases k - i,
{
    let ins = entries.insert(k, extra);
    if i == k {
        assert(ins[k] == extra);
        lemma_scan_after_insert(entries, schema, k, extra, k, found);
    } else {
        assert(ins[i] == entries[i]);
        let j = position(field_names(schema), entries[i].0@);
        if j >= schema.len() || j < 0 {
            lemma_scan_before_insert(entries, schema, k, extra, i + 1, found);
        } else if found[j] is Some {
        } else {
            match decode_value_spec(schema[j].kind, entries[i].1) {
                Err(e) => {},
                Ok(v) => {
                    lemma_scan_before_insert(entries, schema, k, extra, i + 1, found.update(j, Some(v)));
                },
            }
        }
    }
}

proof fn lemma_position_of_absent(names: Seq<Seq<char>>, name: Seq<char>, j: int)
    requires
        0 <= j <= names.len(),
        !names.contains(name),
    ensures
        position_from(names, name, j) == names.len(),
    decreases names.len() - j,
{
    if j < names.len() {
        lemma_position_of_absent(names, name, j + 1);
    }
}

/// An object entry whose name is not a field of the record does not change
/// what the object decodes to, wherever it stands.
pub proof fn unknown_entries_are_ignored(
    entries: Seq<(String, JsonValue)>,
    schema: Seq<FieldSpecView>,
    k: int,
    extra: (String, JsonValue),
)
    requires
        0 <= k <= entries.len(),
        !field_names(schema).contains(extra.0@),
    ensures
        map_fields_spec(entries.insert(k, extra), schema) == map_fields_spec(entries, schema),
{
    lemma_position_of_absent(field_names(schema), extra.0@, 0);
    lemma_scan_before_insert(
        entries,
        schema,
        k,
        extra,
        0,
        Seq::new(schema.len(), |j: int| None),
    );
}

proof fn lemma_position_of_distinct(names: Seq<Seq<char>>, i: int, j: int)
    requires
        0 <= j <= i < names.len(),
        forall|a: int, b: int| 0 <= a < b < names.len() ==> names[a] != names[b],
    ensures
        position_from(names, names[i], j) == i,
    decreases i - j,
{
    if j < i {
        lemma_position_of_distinct(names, i, j + 1);
    }
}

/// The entries from `i` on that hold field `i` onwards, in field order: they
/// are read as the array items from `i` on would be.
proof fn lemma_scan_in_field_order(
    entries: Seq<(String, JsonValue)>,
    items: Seq<JsonValue>,
    schema: Seq<FieldSpecView>,
    expecting: Seq<char>,
    i: int,
    found: Seq<Option<FieldValueView>>,
)
    requires
        0 <= i <= schema.len(),
        entries.len() == schema.len(),
        items.len() == schema.len(),
        found.len() == schema.len(),
        forall|j: int| 0 <= j < schema.len() ==> (#[trigger] entries[j]).0@ == schema[j].name,
        forall|j: int| 0 <= j < schema.len() ==> (#[trigger] entries[j]).1 == items[j],
        forall|a: int, b: int| 0 <= a < b < schema.len() ==> schema[a].name != schema[b].name,
        forall|j: int| i <= j < schema.len() ==> (#[trigger] found[j]) is None,
    ensures
        match seq_fields_spec(items, schema, i, expecting) {
            Err(e) => scan_entries_spec(entries, schema, i, found) == Err::<
                Seq<Option<FieldValueView>>,
                DecodeErrorView,
            >(e),
            Ok(rest) => rest.len() == schema.len() - i && scan_entries_spec(
                entries,
                schema,
                i,
                found,
            ) == Ok::<Seq<Option<FieldValueView>>, DecodeErrorView>(
                Seq::new(
                    schema.len(),
                    |j: int|
                        if j < i {
                            found[j]
                        } else {
                            Some(rest[j - i])
                        },
                ),
            ),
        },
    decreases schema.len() - i,
{
    if i < schema.len() {
        let names = field_names(schema);
        lemma_position_of_distinct(names, i, 0);
        assert(names[i] == entries[i].0@);
        match decode_value_spec(schema[i].kind, items[i]) {
            Err(e) => {},
            Ok(v) => {
                let next = found.update(i, Some(v));
                lemma_scan_in_field_order(entries, items, schema, expecting, i + 1, next);
                match seq_fields_spec(items, schema, i + 1, expecting) {
                    Err(e) => {},
                    Ok(rest) => {
                        let all = seq![v] + rest;
                        assert(Seq::new(
                            schema.len(),
                            |j: int|
                                if j < i + 1 {
                                    next[j]
                                } else {
                                    Some(rest[j - (i + 1)])
                                },
                        ) =~= Seq::new(
                            schema.len(),
                            |j: int|
                                if j < i {
                                    found[j]
                                } else {
                                    Some(all[j - i])
                                },
                        ));
                    },
                }
            },
        }
    } else {
        assert(found =~= Seq::new(
            schema.len(),
            |j: int|
                if j < i {
                    found[j]
                } else {
                    Some(Seq::<FieldValueView>::empty()[j - i])
                },
        ));
    }
}

proof fn lemma_complete_all_found(
    schema: Seq<FieldSpecView>,
    values: Seq<FieldValueView>,
    j: int,
)
    requires
        0 <= j <= schema.len(),
        values.len() == schema.len(),
    ensures
        complete_fields_spec(schema, values.map_values(|v: FieldValueView| Some(v)), j) == Ok::<
            Seq<FieldValueView>,
            DecodeErrorView,
        >(values.subrange(j, values.len() as int)),
    decreases schema.len() - j,
{
    if j < schema.len() {
        lemma_complete_all_found(schema, values, j + 1);
        assert(seq![values[j]] + values.subrange(j + 1, values.len() as int) =~= values.subrange(
            j,
            values.len() as int,
        ));
    } else {
        assert(values.subrange(j, values.len() as int) =~= Seq::<FieldValueView>::empty());
    }
}

proof fn lemma_map_and_seq_fields_agree(
    entries: Seq<(String, JsonValue)>,
    items: Seq<JsonValue>,
    schema: Seq<FieldSpecView>,
    expecting: Seq<char>,
)
    requires
        entries.len() == schema.len(),
        items.len() == schema.len(),
        forall|j: int| 0 <= j < schema.len() ==> (#[trigger] entries[j]).0@ == schema[j].name,
        forall|j: int| 0 <= j < schema.len() ==> (#[trigger] entries[j]).1 == items[j],
        forall|a: int, b: int| 0 <= a < b < schema.len() ==> schema[a].name != schema[b].name,
    ensures
        map_fields_spec(entries, schema) == seq_fields_spec(items, schema, 0, expecting),
{
    let none = Seq::new(schema.len(), |j: int| None::<FieldValueView>);
    lemma_scan_in_field_order(entries, items, schema, expecting, 0, none);
    match seq_fields_spec(items, schema, 0, expecting) {
        Err(e) => {},
        Ok(values) => {
            let found = Seq::new(
                schema.len(),
                |j: int|
                    if j < 0 {
                        none[j]
                    } else {
                        Some(values[j - 0])
                    },
            );
            assert(found =~= values.map_values(|v: FieldValueView| Some(v)));
            lemma_complete_all_found(schema, values, 0);
            assert(values.subrange(0, values.len() as int) =~= values);
        },
    }
}
/// A record written as an object whose entries are its fields in order, and
/// the same record written as the array of those values, decode alike.
pub proof fn object_and_array_forms_agree(
    object: JsonValue,
    array: JsonValue,
    name: Seq<char>,
    schema: Seq<FieldSpecView>,
)
    requires
        object is Object,
        array is Array,
        object->Object_0@.len() == schema.len(),
        array->Array_0@.len() == schema.len(),
        forall|j: int|
            0 <= j < schema.len() ==> (#[trigger] object->Object_0@[j]).0@ == schema[j].name
                && object->Object_0@[j].1 == array->Array_0@[j],
        forall|a: int, b: int| 0 <= a < b < schema.len() ==> schema[a].name != schema[b].name,
    ensures
        decode_record_spec(object, name, schema) == decode_record_spec(array, name, schema),
{
    let entries = object->Object_0@;
    let items = array->Array_0@;
    assert forall|j: int| 0 <= j < schema.len() implies (#[trigger] entries[j]).0@
        == schema[j].name by {}
    assert forall|j: int| 0 <= j < schema.len() implies (#[trigger] entries[j]).1 == items[j] by {}
    lemma_map_and_seq_fields_agree(
        entries,
        items,
        schema,
        expecting_elements(name, schema.len()),
    );
}

pub open spec fn found_view(s: Seq<Option<FieldValue>>) -> Seq<Option<FieldValueView>> {
    s.map_values(
        |o: Option<FieldValue>|
            match o {
                Some(v) => Some(v@),
                None => None,
            },
    )
}

proof fn lemma_rank_bound(schema: Seq<FieldSpecView>, j: int)
    requires
        0 <= j < schema.len(),
    ensures
        kind_rank(schema[j].kind) <= schema_rank(schema),
{
    if schema[j].kind is Auth {
        assert(0 <= j < schema.len() && (#[trigger] schema[j]).kind is Auth);
    }
}

proof fn lemma_no_auth_rank(schema: Seq<FieldSpecView>)
    requires
        forall|j: int| 0 <= j < schema.len() ==> !((#[trigger] schema[j]).kind is Auth),
    ensures
        schema_rank(schema) == 0,
{
}

fn text(s: &str) -> (r: String)
    ensures
        r@ == s@,
{
    String::from_str(s)
}

fn name_list_3(a: &str, b: &str, c: &str) -> (r: Vec<String>)
    ensures
        r.deep_view() == seq![a@, b@, c@],
{
    let mut v: Vec<String> = Vec::new();
    v.push(text(a));
    v.push(text(b));
    v.push(text(c));
    assert(v.deep_view() =~= seq![a@, b@, c@]);
    v
}

fn log_level_name_list() -> (r: Vec<String>)
    ensures
        r.deep_view() == log_level_names(),
{
    name_list_3("info", "warn", "error")
}

fn auth_name_list() -> (r: Vec<String>)
    ensures
        r.deep_view() == auth_names(),
{
    name_list_3("basic", "bearer", "none")
}

fn method_name_list() -> (r: Vec<String>)
    ensures
        r.deep_view() == method_names(),
{
    let mut v: Vec<String> = Vec::new();
    v.push(text("get"));
    v.push(text("post"));
    v.push(text("patch"));
    v.push(text("put"));
    v.push(text("delete"));
    assert(v.deep_view() =~= method_names());
    v
}

/// A field of the given kind with no default.
pub fn required_field(name: &str, kind: FieldKind) -> (r: FieldSpec)
    ensures
        r@ == (FieldSpecView { name: name@, kind, default: None }),
{
    FieldSpec { name: text(name), kind, default: None }
}

/// A text field that takes `default` when absent.
pub fn defaulted_field(name: &str, default: &str) -> (r: FieldSpec)
    ensures
        r@ == (FieldSpecView { name: name@, kind: FieldKind::Text, default: Some(default@) }),
{
    FieldSpec { name: text(name), kind: FieldKind::Text, default: Some(text(default)) }
}

fn basic_schema_vec() -> (r: Vec<FieldSpec>)
    ensures
        schema_view(r@) == basic_schema(),
{
    let mut v: Vec<FieldSpec> = Vec::new();
    v.push(required_field("username", FieldKind::Text));
    v.push(required_field("password", FieldKind::OptionalText));
    assert(schema_view(v@) =~= basic_schema());
    v
}

fn bearer_schema_vec() -> (r: Vec<FieldSpec>)
    ensures
        schema_view(r@) == bearer_schema(),
{
    let mut v: Vec<FieldSpec> = Vec::new();
    v.push(required_field("token", FieldKind::Text));
    assert(schema_view(v@) =~= bearer_schema());
    v
}

fn position_of(names: &Vec<String>, name: &String) -> (r: usize)
    ensures
        r as int == position(names.deep_view(), name@),
        r <= names.len(),
{
    let ghost dv = names.deep_view();
    let mut i: usize = 0;
    while i < names.len()
        invariant
            i <= names.len(),
            dv == names.deep_view(),
            position(dv, name@) == position_from(dv, name@, i as int),
        decreases names.len() - i,
    {
        if names[i] == *name {
            return i;
        }
        i = i + 1;
    }
    i
}

fn field_position(schema: &Vec<FieldSpec>, key: &String) -> (r: usize)
    ensures
        r as int == position(field_names(schema_view(schema@)), key@),
        r <= schema.len(),
{
    let ghost names = field_names(schema_view(schema@));
    let mut i: usize = 0;
    while i < schema.len()
        invariant
            i <= schema.len(),
            names == field_names(schema_view(schema@)),
            names.len() == schema.len(),
            position(names, key@) == position_from(names, key@, i as int),
        decreases schema.len() - i,
    {
        assert(names[i as int] == schema@[i as int].name@);
        if schema[i].name == *key {
            return i;
        }
        i = i + 1;
    }
    i
}

fn decode_text(v: &JsonValue) -> (r: Result<FieldValue, DecodeError>)
    ensures
        value_result_view(r) == decode_text_spec(*v),
{
    match v {
        JsonValue::String(s) => Ok(FieldValue::Text(s.clone())),
        _ => Err(DecodeError::InvalidType { unexpected: unexpected(v), expected: text("a string") }),
    }
}

fn decode_optional_text(v: &JsonValue) -> (r: Result<FieldValue, DecodeError>)
    ensures
        value_result_view(r) == decode_optional_text_spec(*v),
{
    match v {
        JsonValue::Null => Ok(FieldValue::OptionalText(None)),
        JsonValue::String(s) => Ok(FieldValue::OptionalText(Some(s.clone()))),
        _ => Err(DecodeError::InvalidType { unexpected: unexpected(v), expected: text("a string") }),
    }
}

fn enum_access(v: &JsonValue) -> (r: Result<(String, Option<&JsonValue>), DecodeError>)
    ensures
        match (r, enum_access_spec(*v)) {
            (Ok((n, c)), Ok((sn, sc))) => n@ == sn && match c {
                Some(x) => sc == Some(*x),
                None => sc is None,
            },
            (Err(e), Err(se)) => e@ == se,
            _ => false,
        },
{
    match v {
        JsonValue::String(s) => Ok((s.clone(), None)),
        JsonValue::Object(entries) => {
            if entries.len() == 1 {
                Ok((entries[0].0.clone(), Some(&entries[0].1)))
            } else {
                Err(
                    DecodeError::InvalidValue {
                        unexpected: Unexpected::Mapping,
                        expected: text("map with a single key"),
                    },
                )
            }
        },
        _ => Err(
            DecodeError::InvalidType { unexpected: unexpected(v), expected: text("string or map") },
        ),
    }
}

fn unit_variant(content: Option<&JsonValue>) -> (r: Result<(), DecodeError>)
    ensures
        match r {
            Ok(_) => unit_variant_spec(
                match content {
                    Some(x) => Some(*x),
                    None => None,
                },
            ) is Ok,
            Err(e) => unit_variant_spec(
                match content {
                    Some(x) => Some(*x),
                    None => None,
                },
            ) == Err::<(), DecodeErrorView>(e@),
        },
{
    match content {
        None => Ok(()),
        Some(JsonValue::Null) => Ok(()),
        Some(c) => Err(DecodeError::InvalidType { unexpected: unexpected(c), expected: text("unit") }),
    }
}

fn unit_enum(v: &JsonValue, names: Vec<String>) -> (r: Result<usize, DecodeError>)
    ensures
        match (r, unit_enum_spec(*v, names.deep_view())) {
            (Ok(i), Ok(si)) => i as int == si && si < names.len(),
            (Err(e), Err(se)) => e@ == se,
            _ => false,
        },
{
    let ghost dv = names.deep_view();
    let (name, content) = match enum_access(v) {
        Err(e) => return Err(e),
        Ok(x) => x,
    };
    let i = position_of(&names, &name);
    if i >= names.len() {
        return Err(DecodeError::UnknownVariant { variant: name, expected: names });
    }
    match unit_variant(content) {
        Err(e) => Err(e),
        Ok(_) => Ok(i),
    }
}

fn log_type_at_index(i: usize) -> (r: LogType)
    ensures
        r == log_type_at(i as int),
{
    if i == 0 {
        LogType::Info
    } else if i == 1 {
        LogType::Warn
    } else {
        LogType::Error
    }
}

fn method_at_index(i: usize) -> (r: HttpMethod)
    ensures
        r == method_at(i as int),
{
    if i == 0 {
        HttpMethod::Get
    } else if i == 1 {
        HttpMethod::Post
    } else if i == 2 {
        HttpMethod::Patch
    } else if i == 3 {
        HttpMethod::Put
    } else {
        HttpMethod::Delete
    }
}

/// Decodes one field value of the given kind.
pub fn decode_value(kind: FieldKind, v: &JsonValue) -> (r: Result<FieldValue, DecodeError>)
    ensures
        value_result_view(r) == decode_value_spec(kind, *v),
        r is Ok ==> of_kind(r->Ok_0@, kind),
    decreases kind_rank(kind), 2nat, 0nat,
{
    match kind {
        FieldKind::Text => decode_text(v),
        FieldKind::OptionalText => decode_optional_text(v),
        FieldKind::LogLevel => match unit_enum(v, log_level_name_list()) {
            Err(e) => Err(e),
            Ok(i) => Ok(FieldValue::LogLevel(log_type_at_index(i))),
        },
        FieldKind::Method => match unit_enum(v, method_name_list()) {
            Err(e) => Err(e),
            Ok(i) => Ok(FieldValue::Method(method_at_index(i))),
        },
        FieldKind::Auth => decode_auth(v),
    }
}

fn decode_auth(v: &JsonValue) -> (r: Result<FieldValue, DecodeError>)
    ensures
        value_result_view(r) == decode_auth_spec(*v),
        r is Ok ==> r->Ok_0 is Auth,
    decreases 1nat, 1nat, 0nat,
{
    let (name, content) = match enum_access(v) {
        Err(e) => return Err(e),
        Ok(x) => x,
    };
    let names = auth_name_list();
    let i = position_of(&names, &name);
    if i == 0 || i == 1 {
        let schema = if i == 0 {
            basic_schema_vec()
        } else {
            bearer_schema_vec()
        };
        proof {
            lemma_no_auth_rank(schema_view(schema@));
        }
        let fields = match content {
            None => {
                return Err(
                    DecodeError::InvalidType {
                        unexpected: Unexpected::UnitVariant,
                        expected: text("struct variant"),
                    },
                );
            },
            Some(JsonValue::Object(entries)) => match map_fields(entries, &schema) {
                Err(e) => return Err(e),
                Ok(fs) => fs,
            },
            Some(c) => {
                return Err(
                    DecodeError::InvalidType {
                        unexpected: unexpected(c),
                        expected: text("struct variant"),
                    },
                );
            },
        };
        let ghost fv = values_view(fields@);
        assert(fits_schema(fv, schema_view(schema@)));
        let mut fields = fields;
        if i == 0 {
            assert(of_kind(fv[0], FieldKind::Text));
            assert(of_kind(fv[1], FieldKind::OptionalText));
            let p = fields.pop();
            let u = fields.pop();
            match (u, p) {
                (Some(FieldValue::Text(u)), Some(FieldValue::OptionalText(p))) => Ok(
                    FieldValue::Auth(AuthMethod::Basic { username: u, password: p }),
                ),
                _ => vstd::pervasive::unreached(),
            }
        } else {
            assert(of_kind(fv[0], FieldKind::Text));
            let t = fields.pop();
            match t {
                Some(FieldValue::Text(t)) => Ok(FieldValue::Auth(AuthMethod::Bearer { token: t })),
                _ => vstd::pervasive::unreached(),
            }
        }
    } else if i == 2 {
        match unit_variant(content) {
            Err(e) => Err(e),
            Ok(_) => Ok(FieldValue::Auth(AuthMethod::NoAuth)),
        }
    } else {
        Err(DecodeError::UnknownVariant { variant: name, expected: names })
    }
}

fn absent_field(f: &FieldSpec) -> (r: Result<FieldValue, DecodeError>)
    ensures
        value_result_view(r) == absent_field_spec(f@),
        r is Ok ==> of_kind(r->Ok_0@, f.kind) || f.default is Some,
{
    match &f.default {
        Some(d) => Ok(FieldValue::Text(d.clone())),
        None => match f.kind {
            FieldKind::OptionalText => Ok(FieldValue::OptionalText(None)),
            _ => Err(DecodeError::MissingField { field: f.name.clone() }),
        },
    }
}

fn complete_fields(schema: &Vec<FieldSpec>, found: Vec<Option<FieldValue>>) -> (r: Result<
    Vec<FieldValue>,
    DecodeError,
>)
    requires
        found@.len() == schema@.len(),
        forall|j: int|
            0 <= j < found@.len() && (#[trigger] found@[j]) is Some ==> of_kind(
                found@[j]->Some_0@,
                schema@[j].kind,
            ),
        forall|j: int|
            0 <= j < schema@.len() && (#[trigger] schema@[j]).default is Some ==> schema@[j].kind
                is Text,
    ensures
        values_result_view(r) == complete_fields_spec(
            schema_view(schema@),
            found_view(found@),
            0,
        ),
        r is Ok ==> fits_schema(values_view(r->Ok_0@), schema_view(schema@)),
{
    let ghost sv = schema_view(schema@);
    let ghost fv = found_view(found@);
    let ghost orig = found@;
    let mut pending = found;
    let mut out: Vec<FieldValue> = Vec::new();
    let mut j: usize = 0;
    while j < schema.len()
        invariant
            j <= schema.len(),
            sv == schema_view(schema@),
            fv == found_view(orig),
            orig == found@,
            orig.len() == schema@.len(),
            pending@ == orig.skip(j as int),
            out@.len() == j,
            forall|k: int| 0 <= k < j ==> of_kind((#[trigger] out@[k])@, sv[k].kind),
            complete_fields_spec(sv, fv, 0) == match complete_fields_spec(sv, fv, j as int) {
                Err(e) => Err(e),
                Ok(rest) => Ok(values_view(out@) + rest),
            },
            forall|k: int|
                0 <= k < orig.len() && (#[trigger] orig[k]) is Some ==> of_kind(
                    orig[k]->Some_0@,
                    schema@[k].kind,
                ),
            forall|k: int|
                0 <= k < schema@.len() && (#[trigger] schema@[k]).default is Some
                    ==> schema@[k].kind is Text,
        decreases schema.len() - j,
    {
        let slot = pending.remove(0);
        assert(slot == orig[j as int]);
        let v = match slot {
            Some(v) => v,
            None => {
                let a = absent_field(&schema[j]);
                proof {
                    assert(fv[j as int] is None);
                    assert(sv[j as int] == schema@[j as int]@);
                }
                match a {
                    Err(e) => {
                        assert(complete_fields_spec(sv, fv, j as int) == Err::<
                            Seq<FieldValueView>,
                            DecodeErrorView,
                        >(e@));
                        return Err(e);
                    },
                    Ok(v) => v,
                }
            },
        };
        proof {
            assert(pending@ =~= orig.skip(j + 1));
            assert(values_view(out@.push(v)) =~= values_view(out@) + seq![v@]);
            let rest_next = complete_fields_spec(sv, fv, j + 1);
            match rest_next {
                Err(e) => {},
                Ok(rest) => {
                    assert(values_view(out@) + (seq![v@] + rest) =~= values_view(out@) + seq![v@]
                        + rest);
                },
            }
        }
        out.push(v);
        j = j + 1;
    }
    proof {
        assert(values_view(out@) + Seq::<FieldValueView>::empty() =~= values_view(out@));
    }
    Ok(out)
}

fn map_fields(entries: &Vec<(String, JsonValue)>, schema: &Vec<FieldSpec>) -> (r: Result<
    Vec<FieldValue>,
    DecodeError,
>)
    requires
        forall|j: int|
            0 <= j < schema@.len() && (#[trigger] schema@[j]).default is Some ==> schema@[j].kind
                is Text,
    ensures
        values_result_view(r) == map_fields_spec(entries@, schema_view(schema@)),
        r is Ok ==> fits_schema(values_view(r->Ok_0@), schema_view(schema@)),
    decreases schema_rank(schema_view(schema@)), 4nat, 0nat,
{
    let ghost sv = schema_view(schema@);
    let n = schema.len();
    let mut found: Vec<Option<FieldValue>> = Vec::new();
    let mut k: usize = 0;
    while k < n
        invariant
            k <= n,
            n == schema@.len(),
            found_view(found@) =~= Seq::new(k as nat, |j: int| None::<FieldValueView>),
            found@.len() == k,
            forall|j: int| 0 <= j < k ==> (#[trigger] found@[j]) is None,
        decreases n - k,
    {
        found.push(None);
        k = k + 1;
        assert(found_view(found@) =~= Seq::new(k as nat, |j: int| None::<FieldValueView>));
    }
    let ghost init = found_view(found@);
    assert(init =~= Seq::new(sv.len(), |j: int| None::<FieldValueView>));
    let mut i: usize = 0;
    while i < entries.len()
        invariant
            i <= entries.len(),
            sv == schema_view(schema@),
            n == schema@.len(),
            found@.len() == n,
            init == Seq::new(sv.len(), |j: int| None::<FieldValueView>),
            scan_entries_spec(entries@, sv, 0, init) == scan_entries_spec(
                entries@,
                sv,
                i as int,
                found_view(found@),
            ),
            forall|j: int|
                0 <= j < found@.len() && (#[trigger] found@[j]) is Some ==> of_kind(
                    found@[j]->Some_0@,
                    schema@[j].kind,
                ),
        decreases entries.len() - i,
    {
        let j = field_position(schema, &entries[i].0);
        if j < n {
            if found[j].is_some() {
                return Err(DecodeError::DuplicateField { field: schema[j].name.clone() });
            }
            proof {
                lemma_rank_bound(sv, j as int);
            }
            match decode_value(schema[j].kind, &entries[i].1) {
                Err(e) => {
                    return Err(e);
                },
                Ok(v) => {
                    let ghost before = found_view(found@);
                    found.set(j, Some(v));
                    assert(found_view(found@) =~= before.update(j as int, Some(v@)));
                },
            }
        }
        i = i + 1;
    }
    complete_fields(schema, found)
}

fn seq_fields(items: &Vec<JsonValue>, schema: &Vec<FieldSpec>, expecting: &String) -> (r: Result<
    Vec<FieldValue>,
    DecodeError,
>)
    requires
        forall|j: int|
            0 <= j < schema@.len() && (#[trigger] schema@[j]).default is Some ==> schema@[j].kind
                is Text,
    ensures
        values_result_view(r) == seq_fields_spec(items@, schema_view(schema@), 0, expecting@),
        r is Ok ==> fits_schema(values_view(r->Ok_0@), schema_view(schema@)),
{
    let ghost sv = schema_view(schema@);
    let mut out: Vec<FieldValue> = Vec::new();
    let mut j: usize = 0;
    while j < schema.len()
        invariant
            j <= schema.len(),
            sv == schema_view(schema@),
            out@.len() == j,
            forall|k: int| 0 <= k < j ==> of_kind((#[trigger] out@[k])@, sv[k].kind),
            seq_fields_spec(items@, sv, 0, expecting@) == match seq_fields_spec(
                items@,
                sv,
                j as int,
                expecting@,
            ) {
                Err(e) => Err(e),
                Ok(rest) => Ok(values_view(out@) + rest),
            },
            forall|k: int|
                0 <= k < schema@.len() && (#[trigger] schema@[k]).default is Some
                    ==> schema@[k].kind is Text,
        decreases schema.len() - j,
    {
        let v = if j < items.len() {
            match decode_value(schema[j].kind, &items[j]) {
                Err(e) => return Err(e),
                Ok(v) => v,
            }
        } else {
            match &schema[j].default {
                Some(d) => FieldValue::Text(d.clone()),
                None => {
                    return Err(DecodeError::InvalidLength { len: j, expected: expecting.clone() });
                },
            }
        };
        proof {
            assert(values_view(out@.push(v)) =~= values_view(out@) + seq![v@]);
            let rest_next = seq_fields_spec(items@, sv, j + 1, expecting@);
            match rest_next {
                Err(e) => {},
                Ok(rest) => {
                    assert(values_view(out@) + (seq![v@] + rest) =~= values_view(out@) + seq![v@]
                        + rest);
                },
            }
        }
        out.push(v);
        j = j + 1;
    }
    proof {
        assert(values_view(out@) + Seq::<FieldValueView>::empty() =~= values_view(out@));
    }
    Ok(out)
}

fn elements_expected(name: &str, n: usize) -> (r: String)
    ensures
        r@ == expecting_elements(name@, n as nat),
{
    let mut s = text("struct ");
    s.append(name);
    if n == 1 {
        s.append(" with 1 element");
    } else {
        s.append(" with ");
        s.append(u64_to_decimal(n as u64).as_str());
        s.append(" elements");
    }
    s
}

/// Decodes the record `name` with the fields of `schema` from `v`.
pub fn decode_record(v: &JsonValue, name: &str, schema: &Vec<FieldSpec>) -> (r: Result<
    Vec<FieldValue>,
    DecodeError,
>)
    requires
        forall|j: int|
            0 <= j < schema@.len() && (#[trigger] schema@[j]).default is Some ==> schema@[j].kind
                is Text,
    ensures
        values_result_view(r) == decode_record_spec(*v, name@, schema_view(schema@)),
        r is Ok ==> fits_schema(values_view(r->Ok_0@), schema_view(schema@)),
{
    match v {
        JsonValue::Object(entries) => map_fields(entries, schema),
        JsonValue::Array(items) => {
            let expecting = elements_expected(name, schema.len());
            match seq_fields(items, schema, &expecting) {
                Err(e) => Err(e),
                Ok(fs) => {
                    if items.len() > schema.len() {
                        Err(
                            DecodeError::InvalidLength {
                                len: items.len(),
                                expected: text("fewer elements in array"),
                            },
                        )
                    } else {
                        Ok(fs)
                    }
                },
            }
        },
        _ => {
            let mut expected = text("struct ");
            expected.append(name);
            Err(DecodeError::InvalidType { unexpected: unexpected(v), expected })
        },
    }
}

} // verus!
