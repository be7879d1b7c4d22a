//! Subscribing.
//!
//! A request to subscribe arrives as a form with a name and an email
//! address. It is answered in two steps. First the form is converted into a
//! subscriber; a form that does not convert is rejected and nothing is
//! stored. Then the subscriber's row is handed to the store, once, and the
//! store's answer decides between success and failure:
//!
//! ```text
//! Received --> Validated --> Persisted      200
//!         \             \--> PersistFailed  500
//!          \-> Rejected                     400
//! ```
//!
//! The library takes the decisions; the program around it decodes the form,
//! writes the row and sends the response.

use vstd::prelude::*;
use vstd::std_specs::convert::TryFromSpecImpl;
use crate::domain::new_subscriber::NewSubscriber;
use crate::domain::subscriber_email::{SubscriberEmail, valid_email};
use crate::domain::subscriber_name::{SubscriberName, name_violation, valid_name};
use crate::domain::validation_error::{Rule, ValidationError};
use crate::store::{SubscriptionRow, fresh_uuid, utc_now};

verus! {

/// The fields of the subscription form, as submitted.
#[derive(Debug, PartialEq, Eq)]
pub struct FormData {
    pub name: String,
    pub email: String,
}

/// A form that does not give a subscriber, with the first refusal met: that
/// of the name where the name is refused, else that of the address.
#[derive(Debug, PartialEq, Eq)]
pub struct ConversionError {
    pub cause: ValidationError,
}

/// The refusal that stops `form` from giving a subscriber, if there is one.
pub open spec fn first_refusal(form: FormData) -> Option<ValidationError> {
    if let Some(rule) = name_violation(form.name@) {
        Some(ValidationError { raw: form.name, rule })
    } else if !valid_email(form.email@) {
        Some(ValidationError { raw: form.email, rule: Rule::MalformedEmail })
    } else {
        None
    }
}

/// What converting `form` gives: the subscriber it describes, or the first
/// refusal met.
pub open spec fn conversion(form: FormData) -> Result<NewSubscriber, ConversionError> {
    match SubscriberName::parse_spec(form.name) {
        Err(cause) => Err(ConversionError { cause }),
        Ok(name) => match SubscriberEmail::parse_spec(form.email) {
            Err(cause) => Err(ConversionError { cause }),
            Ok(email) => Ok(NewSubscriber { email, name }),
        },
    }
}

/// `conversion` in terms of the text of the two fields.
pub proof fn lemma_conversion(form: FormData)
    ensures
        conversion(form) is Ok <==> valid_name(form.name@) && valid_email(form.email@),
        conversion(form) matches Ok(subscriber) ==> subscriber.name@ == form.name@
            && subscriber.email@ == form.email@,
        conversion(form) matches Err(e) ==> Some(e.cause) == first_refusal(form),
{
    SubscriberName::lemma_parse_spec(form.name);
    SubscriberEmail::lemma_parse_spec(form.email);
}

impl TryFrom<FormData> for NewSubscriber {
    type Error = ConversionError;

    /// The subscriber that `value` describes. The name is looked at first,
    /// so where both fields would be refused the error is the name's.
    fn try_from(value: FormData) -> (r: Result<Self, Self::Error>)
        ensures
            r == conversion(value),
            r is Ok <==> valid_name(value.name@) && valid_email(value.email@),
            r matches Ok(subscriber) ==> subscriber.name@ == value.name@ && subscriber.email@
                == value.email@,
            r matches Err(e) ==> Some(e.cause) == first_refusal(value),
    {
        let name = match SubscriberName::parse(value.name) {
            Ok(name) => name,
            Err(cause) => {
                return Err(ConversionError { cause });
            },
        };
        let email = match SubscriberEmail::parse(value.email) {
            Ok(email) => email,
            Err(cause) => {
                return Err(ConversionError { cause });
            },
        };
        Ok(NewSubscriber { email, name })
    }
}

impl TryFromSpecImpl<FormData> for NewSubscriber {
    open spec fn obeys_try_from_spec() -> bool {
        true
    }

    open spec fn try_from_spec(v: FormData) -> Result<Self, Self::Error> {
        conversion(v)
    }
}

/// The row to store for `subscriber`: under a fresh version 4 UUID, as
/// subscribed now, with the status `confirmed`. Each call draws a new
/// identifier and reads the clock again. Writing the row is the caller's
/// part.
pub fn insert_subscriber(subscriber: &NewSubscriber) -> (row: SubscriptionRow)
    ensures
        row.records(subscriber),
        row.wf(),
{
    SubscriptionRow::new(fresh_uuid(), utc_now(), subscriber)
}

/// How a request is answered. No answer has a body.
#[derive(Debug, Clone, Copy, PartialEq, Eq, Structural)]
pub enum Response {
    Success,
    BadRequest,
    InternalServerError,
}

impl Response {
    /// The HTTP status of the answer.
    pub open spec fn code(self) -> u16 {
        match self {
            Response::Success => 200,
            Response::BadRequest => 400,
            Response::InternalServerError => 500,
        }
    }

    /// The HTTP status of the answer.
    pub fn status_code(&self) -> (code: u16)
        ensures
            code == self.code(),
    {
        match self {
            Response::Success => 200,
            Response::BadRequest => 400,
            Response::InternalServerError => 500,
        }
    }
}

/// A subscriber that could not be stored, with what the store said.
#[derive(Debug, PartialEq, Eq)]
pub struct StoreError {
    pub cause: String,
    pub subscriber: NewSubscriber,
}

/// Where a request stands.
#[derive(Debug, PartialEq, Eq)]
pub enum RequestState {
    /// The form has arrived.
    Received(FormData),
    /// The form gave a subscriber, who is to be stored.
    Validated(NewSubscriber),
    /// The form gave no subscriber.
    Rejected(ConversionError),
    /// The subscriber was stored.
    Persisted,
    /// The store failed.
    PersistFailed(StoreError),
}

impl RequestState {
    /// The request has its answer.
    pub open spec fn is_terminal(self) -> bool {
        self is Rejected || self is Persisted || self is PersistFailed
    }

    /// The state after validation.
    pub open spec fn validate_spec(self) -> RequestState {
        match self {
            RequestState::Received(form) => match conversion(form) {
                Ok(subscriber) => RequestState::Validated(subscriber),
                Err(e) => RequestState::Rejected(e),
            },
            other => other,
        }
    }

    /// The state after the store has answered with `outcome`.
    pub open spec fn conclude_spec(self, outcome: Result<(), String>) -> RequestState {
        match self {
            RequestState::Validated(subscriber) => match outcome {
                Ok(_) => RequestState::Persisted,
                Err(cause) => RequestState::PersistFailed(StoreError { cause, subscriber }),
            },
            other => other,
        }
    }

    /// The answer to the request, once it has one.
    pub open spec fn response_spec(self) -> Option<Response> {
        match self {
            RequestState::Received(_) => None,
            RequestState::Validated(_) => None,
            RequestState::Rejected(_) => Some(Response::BadRequest),
            RequestState::Persisted => Some(Response::Success),
            RequestState::PersistFailed(_) => Some(Response::InternalServerError),
        }
    }

    /// Converts the form of a received request: the request is then
    /// validated, or rejected with the conversion's error. In any other
    /// state nothing changes.
    pub fn validate(self) -> (next: RequestState)
        ensures
            next == self.validate_spec(),
            self is Received ==> next is Validated || next is Rejected,
    {
        match self {
            RequestState::Received(form) => match NewSubscriber::try_from(form) {
                Ok(subscriber) => RequestState::Validated(subscriber),
                Err(e) => RequestState::Rejected(e),
            },
            other => other,
        }
    }

    /// Takes the store's answer for a validated request: the request is
    /// then persisted, or has failed with what the store said. In any other
    /// state nothing changes; a rejected request in particular stays
    /// rejected whatever a store may say.
    pub fn conclude(self, outcome: Result<(), String>) -> (next: RequestState)
        ensures
            next == self.conclude_spec(outcome),
            self is Validated ==> next.is_terminal(),
    {
        match self {
            RequestState::Validated(subscriber) => match outcome {
                Ok(_) => RequestState::Persisted,
                Err(cause) => RequestState::PersistFailed(StoreError { cause, subscriber }),
            },
            other => other,
        }
    }

    /// The answer to send, once the request has one.
    pub fn response(&self) -> (r: Option<Response>)
        ensures
            r == self.response_spec(),
            r is Some <==> self.is_terminal(),
    {
        match self {
            RequestState::Received(_) => None,
            RequestState::Validated(_) => None,
            RequestState::Rejected(_) => Some(Response::BadRequest),
            RequestState::Persisted => Some(Response::Success),
            RequestState::PersistFailed(_) => Some(Response::InternalServerError),
        }
    }
}

/// Takes a submitted form as far as the library alone can: the request is
/// validated where the form gives a subscriber, and rejected where it does
/// not.
pub fn subscribe(form: FormData) -> (state: RequestState)
    ensures
        state == RequestState::Received(form).validate_spec(),
        state is Validated <==> valid_name(form.name@) && valid_email(form.email@),
        state matches RequestState::Validated(subscriber) ==> subscriber.name@ == form.name@
            && subscriber.email@ == form.email@,
        state matches RequestState::Rejected(e) ==> Some(e.cause) == first_refusal(form),
        !(state is Validated) ==> state is Rejected,
{
    proof {
        lemma_conversion(form);
    }
    RequestState::Received(form).validate()
}

/// A request that has its answer keeps it: neither step changes a terminal
/// state.
pub proof fn lemma_terminal_states_are_final(state: RequestState, outcome: Result<(), String>)
    requires
        state.is_terminal(),
    ensures
        state.validate_spec() == state,
        state.conclude_spec(outcome) == state,
{
}

/// Every request is answered after the two steps, and the answer is 400
/// exactly when the form gives no subscriber, 200 exactly when it gives one
/// and the store succeeds, 500 exactly when it gives one and the store
/// fails. A rejected form never reaches the store: its request is terminal
/// before the store's answer is taken.
pub proof fn lemma_every_request_is_answered(form: FormData, outcome: Result<(), String>)
    ensures
        ({
            let validated = RequestState::Received(form).validate_spec();
            let last = validated.conclude_spec(outcome);
            let converts = valid_name(form.name@) && valid_email(form.email@);
            &&& last.is_terminal()
            &&& !converts <==> validated.is_terminal()
            &&& !converts <==> last.response_spec() == Some(Response::BadRequest)
            &&& converts && outcome is Ok <==> last.response_spec() == Some(Response::Success)
            &&& converts && outcome is Err <==> last.response_spec() == Some(
                Response::InternalServerError,
            )
        }),
{
    lemma_conversion(form);
}

} // verus!
