//! JSON values as the action attributes carry them, and the errors that
//! decoding them into typed actions reports.
use vstd::prelude::*;

use crate::text::{debug_quoted, debug_text, decimal, i64_to_decimal, signed_decimal, u64_to_decimal};

verus! {

/// A JSON number. Integers keep their value; a floating-point number is kept
/// as the decimal text that the JSON layer renders for it.
pub enum JsonNumber {
    PosInt(u64),
    NegInt(i64),
    Float(String),
}

/// A JSON document. Object entries are kept in the order in which the JSON
/// layer iterates them.
pub enum JsonValue {
    Null,
    Bool(bool),
    Number(JsonNumber),
    String(String),
    Array(Vec<JsonValue>),
    Object(Vec<(String, JsonValue)>),
}

/// What a decoder found where it expected something else.
pub enum Unexpected {
    Null,
    Bool(bool),
    Unsigned(u64),
    Signed(i64),
    Float(String),
    Str(String),
    Sequence,
    Mapping,
    UnitVariant,
}

pub enum UnexpectedView {
    Null,
    Bool(bool),
    Unsigned(u64),
    Signed(i64),
    Float(Seq<char>),
    Str(Seq<char>),
    Sequence,
    Mapping,
    UnitVariant,
}

impl View for Unexpected {
    type V = UnexpectedView;

    open spec fn view(&self) -> UnexpectedView {
        match self {
            Unexpected::Null => UnexpectedView::Null,
            Unexpected::Bool(b) => UnexpectedView::Bool(*b),
            Unexpected::Unsigned(u) => UnexpectedView::Unsigned(*u),
            Unexpected::Signed(i) => UnexpectedView::Signed(*i),
            Unexpected::Float(t) => UnexpectedView::Float(t@),
            Unexpected::Str(s) => UnexpectedView::Str(s@),
            Unexpected::Sequence => UnexpectedView::Sequence,
            Unexpected::Mapping => UnexpectedView::Mapping,
            Unexpected::UnitVariant => UnexpectedView::UnitVariant,
        }
    }
}

/// Why a JSON value does not decode into the type that was asked for.
#[allow(inconsistent_fields)]
pub enum DecodeError {
    InvalidType { unexpected: Unexpected, expected: String },
    InvalidValue { unexpected: Unexpected, expected: String },
    InvalidLength { len: usize, expected: String },
    UnknownVariant { variant: String, expected: Vec<String> },
    MissingField { field: String },
    DuplicateField { field: String },
}

#[allow(inconsistent_fields)]
pub enum DecodeErrorView {
    InvalidType { unexpected: UnexpectedView, expected: Seq<char> },
    InvalidValue { unexpected: UnexpectedView, expected: Seq<char> },
    InvalidLength { len: usize, expected: Seq<char> },
    UnknownVariant { variant: Seq<char>, expected: Seq<Seq<char>> },
    MissingField { field: Seq<char> },
    DuplicateField { field: Seq<char> },
}

impl View for DecodeError {
    type V = DecodeErrorView;

    open spec fn view(&self) -> DecodeErrorView {
        match self {
            DecodeError::InvalidType { unexpected, expected } => DecodeErrorView::InvalidType {
                unexpected: unexpected@,
                expected: expected@,
            },
            DecodeError::InvalidValue { unexpected, expected } => DecodeErrorView::InvalidValue {
                unexpected: unexpected@,
                expected: expected@,
            },
            DecodeError::InvalidLength { len, expected } => DecodeErrorView::InvalidLength {
                len: *len,
                expected: expected@,
            },
            DecodeError::UnknownVariant { variant, expected } => DecodeErrorView::UnknownVariant {
                variant: variant@,
                expected: expected.deep_view(),
            },
            DecodeError::MissingField { field } => DecodeErrorView::MissingField { field: field@ },
            DecodeError::DuplicateField { field } => DecodeErrorView::DuplicateField {
                field: field@,
            },
        }
    }
}

/// How a JSON value is described when it is not what was expected.
pub open spec fn unexpected_of(v: JsonValue) -> UnexpectedView {
    match v {
        JsonValue::Null => UnexpectedView::Null,
        JsonValue::Bool(b) => UnexpectedView::Bool(b),
        JsonValue::Number(JsonNumber::PosInt(u)) => UnexpectedView::Unsigned(u),
        JsonValue::Number(JsonNumber::NegInt(i)) => UnexpectedView::Signed(i),
        JsonValue::Number(JsonNumber::Float(t)) => UnexpectedView::Float(t@),
        JsonValue::String(s) => UnexpectedView::Str(s@),
        JsonValue::Array(_) => UnexpectedView::Sequence,
        JsonValue::Object(_) => UnexpectedView::Mapping,
    }
}

/// The error for a value of the wrong JSON type.
pub open spec fn invalid_type(v: JsonValue, expected: Seq<char>) -> DecodeErrorView {
    DecodeErrorView::InvalidType { unexpected: unexpected_of(v), expected }
}

/// The text that describes an unexpected value in an error message.
pub open spec fn unexpected_text(u: UnexpectedView) -> Seq<char> {
    match u {
        UnexpectedView::Null => "null"@,
        UnexpectedView::Bool(b) => if b {
            "boolean `true`"@
        } else {
            "boolean `false`"@
        },
        UnexpectedView::Unsigned(n) => "integer `"@ + decimal(n as nat) + "`"@,
        UnexpectedView::Signed(n) => "integer `"@ + signed_decimal(n as int) + "`"@,
        UnexpectedView::Float(t) => "floating point `"@ + t + "`"@,
        UnexpectedView::Str(s) => "string "@ + debug_text(s),
        UnexpectedView::Sequence => "sequence"@,
        UnexpectedView::Mapping => "map"@,
        UnexpectedView::UnitVariant => "unit variant"@,
    }
}

/// The names, each in backticks, separated by `, `.
pub open spec fn backticked_list(names: Seq<Seq<char>>) -> Seq<char>
    decreases names.len(),
{
    if names.len() == 0 {
        Seq::empty()
    } else if names.len() == 1 {
        "`"@ + names[0] + "`"@
    } else {
        backticked_list(names.drop_last()) + ", `"@ + names.last() + "`"@
    }
}

/// How a list of accepted names is written in an error message.
pub open spec fn one_of_text(names: Seq<Seq<char>>) -> Seq<char> {
    if names.len() == 0 {
        Seq::empty()
    } else if names.len() == 1 {
        "`"@ + names[0] + "`"@
    } else if names.len() == 2 {
        "`"@ + names[0] + "` or `"@ + names[1] + "`"@
    } else {
        "one of "@ + backticked_list(names)
    }
}

/// The message of a decoding error.
pub open spec fn error_message(e: DecodeErrorView) -> Seq<char> {
    match e {
        DecodeErrorView::InvalidType { unexpected, expected } => "invalid type: "@ + unexpected_text(
            unexpected,
        ) + ", expected "@ + expected,
        DecodeErrorView::InvalidValue { unexpected, expected } => "invalid value: "@
            + unexpected_text(unexpected) + ", expected "@ + expected,
        DecodeErrorView::InvalidLength { len, expected } => "invalid length "@ + decimal(
            len as nat,
        ) + ", expected "@ + expected,
        DecodeErrorView::UnknownVariant { variant, expected } => if expected.len() == 0 {
            "unknown variant `"@ + variant + "`, there are no variants"@
        } else {
            "unknown variant `"@ + variant + "`, expected "@ + one_of_text(expected)
        },
        DecodeErrorView::MissingField { field } => "missing field `"@ + field + "`"@,
        DecodeErrorView::DuplicateField { field } => "duplicate field `"@ + field + "`"@,
    }
}

/// Describes `v` for an error message.
pub fn unexpected(v: &JsonValue) -> (r: Unexpected)
    ensures
        r@ == unexpected_of(*v),
{
    match v {
        JsonValue::Null => Unexpected::Null,
        JsonValue::Bool(b) => Unexpected::Bool(*b),
        JsonValue::Number(JsonNumber::PosInt(u)) => Unexpected::Unsigned(*u),
        JsonValue::Number(JsonNumber::NegInt(i)) => Unexpected::Signed(*i),
        JsonValue::Number(JsonNumber::Float(t)) => Unexpected::Float(t.clone()),
        JsonValue::String(s) => Unexpected::Str(s.clone()),
        JsonValue::Array(_) => Unexpected::Sequence,
        JsonValue::Object(_) => Unexpected::Mapping,
    }
}

impl Unexpected {
    /// The description of the unexpected value in an error message.
    pub fn to_text(&self) -> (r: String)
        ensures
            r@ == unexpected_text(self@),
    {
        match self {
            Unexpected::Null => String::from_str("null"),
            Unexpected::Bool(b) => if *b {
                String::from_str("boolean `true`")
            } else {
                String::from_str("boolean `false`")
            },
            Unexpected::Unsigned(n) => {
                let mut s = String::from_str("integer `");
                s.append(u64_to_decimal(*n).as_str());
                s.append("`");
                s
            },
            Unexpected::Signed(n) => {
                let mut s = String::from_str("integer `");
                s.append(i64_to_decimal(*n).as_str());
                s.append("`");
                s
            },
            Unexpected::Float(t) => {
                let mut s = String::from_str("floating point `");
                s.append(t.as_str());
                s.append("`");
                s
            },
            Unexpected::Str(t) => {
                let mut s = String::from_str("string ");
                s.append(debug_quoted(t.as_str()).as_str());
                s
            },
            Unexpected::Sequence => String::from_str("sequence"),
            Unexpected::Mapping => String::from_str("map"),
            Unexpected::UnitVariant => String::from_str("unit variant"),
        }
    }
}

fn backticked(names: &Vec<String>) -> (r: String)
    ensures
        r@ == backticked_list(names.deep_view()),
{
    let mut s = String::new();
    let mut i: usize = 0;
    while i < names.len()
        invariant
            i <= names.len(),
            s@ == backticked_list(names.deep_view().take(i as int)),
        decreases names.len() - i,
    {
        proof {
            let dv = names.deep_view();
            assert(dv.take(i + 1).drop_last() =~= dv.take(i as int));
            assert(dv.take(i + 1).last() == names@[i as int]@);
            if i == 0 {
                assert(dv.take(0) =~= Seq::<Seq<char>>::empty());
                assert(Seq::<char>::empty() + "`"@ =~= "`"@);
            }
        }
        if i == 0 {
            s.append("`");
        } else {
            s.append(", `");
        }
        s.append(names[i].as_str());
        s.append("`");
        i = i + 1;
    }
    proof {
        assert(names.deep_view().take(names.len() as int) =~= names.deep_view());
    }
    s
}

fn one_of(names: &Vec<String>) -> (r: String)
    ensures
        r@ == one_of_text(names.deep_view()),
{
    let n = names.len();
    if n == 0 {
        String::new()
    } else if n == 1 {
        let mut s = String::from_str("`");
        s.append(names[0].as_str());
        s.append("`");
        s
    } else if n == 2 {
        let mut s = String::from_str("`");
        s.append(names[0].as_str());
        s.append("` or `");
        s.append(names[1].as_str());
        s.append("`");
        s
    } else {
        let mut s = String::from_str("one of ");
        s.append(backticked(names).as_str());
        s
    }
}

impl DecodeError {
    /// The message of this error, as the JSON layer words it.
    pub fn to_string(&self) -> (r: String)
        ensures
            r@ == error_message(self@),
    {
        match self {
            DecodeError::InvalidType { unexpected, expected } => {
                let mut s = String::from_str("invalid type: ");
                s.append(unexpected.to_text().as_str());
                s.append(", expected ");
                s.append(expected.as_str());
                s
            },
            DecodeError::InvalidValue { unexpected, expected } => {
                let mut s = String::from_str("invalid value: ");
                s.append(unexpected.to_text().as_str());
                s.append(", expected ");
                s.append(expected.as_str());
                s
            },
            DecodeError::InvalidLength { len, expected } => {
                let mut s = String::from_str("invalid length ");
                s.append(u64_to_decimal(*len as u64).as_str());
                s.append(", expected ");
                s.append(expected.as_str());
                s
            },
            DecodeError::UnknownVariant { variant, expected } => {
                let mut s = String::from_str("unknown variant `");
                s.append(variant.as_str());
                if expected.len() == 0 {
                    s.append("`, there are no variants");
                } else {
                    s.append("`, expected ");
                    s.append(one_of(expected).as_str());
                }
                s
            },
            DecodeError::MissingField { field } => {
                let mut s = String::from_str("missing field `");
                s.append(field.as_str());
                s.append("`");
                s
            },
            DecodeError::DuplicateField { field } => {
                let mut s = String::from_str("duplicate field `");
                s.append(field.as_str());
                s.append("`");
                s
            },
        }
    }
}

} // verus!
