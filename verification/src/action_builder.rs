//! Building the action that a message asks for, and the errors it can meet.
use vstd::prelude::*;

use crate::actions::http::{http_result_view, http_v1_spec, HttpV1, HttpV1View};
use crate::actions::log::{log_result_view, log_v1_spec, LogV1, LogV1View};
use crate::actions::sns::{sns_result_view, sns_v1_spec, SnsV1, SnsV1View};
use crate::json::{error_message, DecodeError, DecodeErrorView, JsonValue};
use crate::message::{ActionType, Message};

verus! {

/// Why an action could not be built or carried out.
pub enum ActionError {
    /// The attributes do not describe the action.
    ParseError(DecodeError),
    /// Carrying out the action failed, with the failure's message.
    ExecError(String),
}

pub enum ActionErrorView {
    ParseError(DecodeErrorView),
    ExecError(Seq<char>),
}

impl View for ActionError {
    type V = ActionErrorView;

    open spec fn view(&self) -> ActionErrorView {
        match self {
            ActionError::ParseError(e) => ActionErrorView::ParseError(e@),
            ActionError::ExecError(s) => ActionErrorView::ExecError(s@),
        }
    }
}

/// The message of an action error.
pub open spec fn action_error_message(e: ActionErrorView) -> Seq<char> {
    match e {
        ActionErrorView::ParseError(d) => error_message(d),
        ActionErrorView::ExecError(s) => s,
    }
}

impl ActionError {
    /// The message of this error.
    pub fn to_string(&self) -> (r: String)
        ensures
            r@ == action_error_message(self@),
    {
        match self {
            ActionError::ParseError(e) => e.to_string(),
            ActionError::ExecError(s) => s.clone(),
        }
    }
}

/// An action ready to be carried out.
pub enum Action {
    Log(LogV1),
    Http(HttpV1),
    Sns(SnsV1),
}

pub enum ActionView {
    Log(LogV1View),
    Http(HttpV1View),
    Sns(SnsV1View),
}

impl View for Action {
    type V = ActionView;

    open spec fn view(&self) -> ActionView {
        match self {
            Action::Log(a) => ActionView::Log(a@),
            Action::Http(a) => ActionView::Http(a@),
            Action::Sns(a) => ActionView::Sns(a@),
        }
    }
}

/// The action that a message of the given type asks for, read from its
/// attributes. Every version of a type reads the same way.
pub open spec fn action_spec(action_type: ActionType, attributes: JsonValue) -> Result<
    ActionView,
    ActionErrorView,
> {
    match action_type {
        ActionType::Log => match log_v1_spec(attributes) {
            Ok(a) => Ok(ActionView::Log(a)),
            Err(e) => Err(e),
        },
        ActionType::Http => match http_v1_spec(attributes) {
            Ok(a) => Ok(ActionView::Http(a)),
            Err(e) => Err(e),
        },
        ActionType::Sns => match sns_v1_spec(attributes) {
            Ok(a) => Ok(ActionView::Sns(a)),
            Err(e) => Err(e),
        },
    }
}

pub open spec fn action_result_view(r: Result<Action, ActionError>) -> Result<ActionView, ActionErrorView> {
    match r {
        Ok(a) => Ok(a@),
        Err(e) => Err(e@),
    }
}

/// What validating a message of the given type and attributes reports: the
/// error that building its action meets, if any.
pub open spec fn validation_spec(action_type: ActionType, attributes: JsonValue) -> Option<
    ActionErrorView,
> {
    match action_spec(action_type, attributes) {
        Ok(_) => None,
        Err(e) => Some(e),
    }
}

pub open spec fn validation_view(r: Option<ActionError>) -> Option<ActionErrorView> {
    match r {
        Some(e) => Some(e@),
        None => None,
    }
}

/// The error that building the message's action meets, if any.
pub fn validate_action(msg: &Message) -> (r: Option<ActionError>)
    ensures
        validation_view(r) == validation_spec(msg.action_type, msg.attributes),
{
    let attr = &msg.attributes;
    match msg.action_type {
        ActionType::Log => {
            let r = LogV1::init(attr);
            proof {
                assert(log_result_view(r) == log_v1_spec(*attr));
            }
            match r {
                Ok(_) => None,
                Err(e) => Some(e),
            }
        },
        ActionType::Http => {
            let r = HttpV1::init(attr);
            proof {
                assert(http_result_view(r) == http_v1_spec(*attr));
            }
            match r {
                Ok(_) => None,
                Err(e) => Some(e),
            }
        },
        ActionType::Sns => {
            let r = SnsV1::init(attr);
            proof {
                assert(sns_result_view(r) == sns_v1_spec(*attr));
            }
            match r {
                Ok(_) => None,
                Err(e) => Some(e),
            }
        },
    }
}

/// Builds the action that the message asks for.
pub fn create_action(msg: &Message) -> (r: Result<Action, ActionError>)
    ensures
        action_result_view(r) == action_spec(msg.action_type, msg.attributes),
{
    let attr = &msg.attributes;
    match msg.action_type {
        ActionType::Log => match LogV1::init(attr) {
            Ok(a) => Ok(Action::Log(a)),
            Err(e) => Err(e),
        },
        ActionType::Http => match HttpV1::init(attr) {
            Ok(a) => Ok(Action::Http(a)),
            Err(e) => Err(e),
        },
        ActionType::Sns => match SnsV1::init(attr) {
            Ok(a) => Ok(Action::Sns(a)),
            Err(e) => Err(e),
        },
    }
}

/// A message passes validation exactly when its action can be built, and a
/// refused message is refused with the error that building its action meets.
pub proof fn validation_agrees_with_creation(action_type: ActionType, attributes: JsonValue)
    ensures
        validation_spec(action_type, attributes) is None <==> action_spec(
            action_type,
            attributes,
        ) is Ok,
        validation_spec(action_type, attributes) matches Some(e) ==> action_spec(
            action_type,
            attributes,
        ) == Err::<ActionView, ActionErrorView>(e),
{
}

} // verus!
