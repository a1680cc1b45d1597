//! Scheduled messages and the kinds of action they carry.
use vstd::prelude::*;

use crate::json::JsonValue;
use crate::time::Timestamp;

verus! {

/// The kind of action a message carries.
#[derive(Clone, Copy, Debug, PartialEq, Eq, Structural)]
pub enum ActionType {
    Log,
    Http,
    Sns,
}

/// The name under which a type is written in JSON.
pub open spec fn serialized_name_spec(t: ActionType) -> Seq<char> {
    match t {
        ActionType::Log => "log"@,
        ActionType::Http => "http"@,
        ActionType::Sns => "sns"@,
    }
}

/// The name under which a type is shown in logs.
pub open spec fn display_name_spec(t: ActionType) -> Seq<char> {
    match t {
        ActionType::Log => "Log"@,
        ActionType::Http => "Http"@,
        ActionType::Sns => "Sns"@,
    }
}

/// The number that stands for a type in the database.
pub open spec fn db_code_spec(t: ActionType) -> i16 {
    match t {
        ActionType::Log => 0,
        ActionType::Http => 1,
        ActionType::Sns => 2,
    }
}

impl ActionType {
    /// The name under which this type is written in JSON.
    pub fn serialized_name(&self) -> (r: &'static str)
        ensures
            r@ == serialized_name_spec(*self),
    {
        match self {
            ActionType::Log => "log",
            ActionType::Http => "http",
            ActionType::Sns => "sns",
        }
    }

    /// The name under which this type is shown in logs.
    pub fn to_string(&self) -> (r: String)
        ensures
            r@ == display_name_spec(*self),
    {
        match self {
            ActionType::Log => String::from_str("Log"),
            ActionType::Http => String::from_str("Http"),
            ActionType::Sns => String::from_str("Sns"),
        }
    }

    /// The type written in JSON as `name`, if any.
    pub fn from_name(name: &str) -> (r: Option<ActionType>)
        ensures
            r is Some <==> exists|t: ActionType| serialized_name_spec(t) == name@,
            r is Some ==> serialized_name_spec(r->Some_0) == name@,
    {
        proof {
            reveal_strlit("log");
            reveal_strlit("http");
            reveal_strlit("sns");
        }
        let n = String::from_str(name);
        if n == String::from_str("log") {
            assert(serialized_name_spec(ActionType::Log) == name@);
            Some(ActionType::Log)
        } else if n == String::from_str("http") {
            assert(serialized_name_spec(ActionType::Http) == name@);
            Some(ActionType::Http)
        } else if n == String::from_str("sns") {
            assert(serialized_name_spec(ActionType::Sns) == name@);
            Some(ActionType::Sns)
        } else {
            proof {
                assert forall|t: ActionType| serialized_name_spec(t) != name@ by {
                    match t {
                        ActionType::Log => {},
                        ActionType::Http => {},
                        ActionType::Sns => {},
                    }
                }
            }
            None
        }
    }

    /// The number that stands for this type in the database.
    pub fn db_code(&self) -> (r: i16)
        ensures
            r == db_code_spec(*self),
    {
        match self {
            ActionType::Log => 0,
            ActionType::Http => 1,
            ActionType::Sns => 2,
        }
    }

    /// The type that `code` stands for in the database, if any.
    pub fn from_db_code(code: i16) -> (r: Option<ActionType>)
        ensures
            r is Some <==> 0 <= code <= 2,
            r is Some ==> db_code_spec(r->Some_0) == code,
    {
        if code == 0 {
            Some(ActionType::Log)
        } else if code == 1 {
            Some(ActionType::Http)
        } else if code == 2 {
            Some(ActionType::Sns)
        } else {
            None
        }
    }
}

/// Decoding a type's JSON name gives the type back.
pub proof fn serialized_name_round_trip(t: ActionType)
    ensures
        forall|u: ActionType| serialized_name_spec(u) == serialized_name_spec(t) ==> u == t,
{
    reveal_strlit("log");
    reveal_strlit("http");
    reveal_strlit("sns");
    assert forall|u: ActionType| serialized_name_spec(u) == serialized_name_spec(t) implies u == t by {
        match (u, t) {
            (ActionType::Log, ActionType::Http) => assert(serialized_name_spec(u)[0] != serialized_name_spec(t)[0]),
            (ActionType::Log, ActionType::Sns) => assert(serialized_name_spec(u)[0] != serialized_name_spec(t)[0]),
            (ActionType::Http, ActionType::Log) => assert(serialized_name_spec(u)[0] != serialized_name_spec(t)[0]),
            (ActionType::Http, ActionType::Sns) => assert(serialized_name_spec(u)[0] != serialized_name_spec(t)[0]),
            (ActionType::Sns, ActionType::Log) => assert(serialized_name_spec(u)[0] != serialized_name_spec(t)[0]),
            (ActionType::Sns, ActionType::Http) => assert(serialized_name_spec(u)[0] != serialized_name_spec(t)[0]),
            _ => {},
        }
    }
}

/// Each type has its own database number, within `0..=2`, and reading a
/// number back gives the type that wrote it.
pub proof fn db_code_round_trip(t: ActionType)
    ensures
        0 <= db_code_spec(t) <= 2,
        forall|u: ActionType| db_code_spec(u) == db_code_spec(t) ==> u == t,
{
}

/// A message to deliver at a given time: the action it carries is of type
/// `action_type`, described by `attributes`.
pub struct Message {
    pub id: u128,
    pub delivery_time: Timestamp,
    pub action_type: ActionType,
    pub version: i16,
    pub attributes: JsonValue,
}


/// The JSON names of the types are `log`, `http` and `sns`, their database
/// numbers 0, 1 and 2, and their shown names `Log`, `Http` and `Sns`.
pub proof fn action_type_names_and_codes()
    ensures
        serialized_name_spec(ActionType::Log) == "log"@ && db_code_spec(ActionType::Log) == 0
            && display_name_spec(ActionType::Log) == "Log"@,
        serialized_name_spec(ActionType::Http) == "http"@ && db_code_spec(ActionType::Http) == 1
            && display_name_spec(ActionType::Http) == "Http"@,
        serialized_name_spec(ActionType::Sns) == "sns"@ && db_code_spec(ActionType::Sns) == 2
            && display_name_spec(ActionType::Sns) == "Sns"@,
{
}

} // verus!
