use zero2prod::domain::new_subscriber::NewSubscriber;
use zero2prod::domain::validation_error::{Rule, ValidationError};
use zero2prod::routes::subscriptions::{
    insert_subscriber, subscribe, ConversionError, FormData, RequestState, Response, StoreError,
};

fn form(name: &str, email: &str) -> FormData {
    FormData { name: name.to_string(), email: email.to_string() }
}

fn refusal(raw: &str, rule: Rule) -> ConversionError {
    ConversionError { cause: ValidationError { raw: raw.to_string(), rule } }
}

fn status(state: &RequestState) -> Option<u16> {
    state.response().map(|response| response.status_code())
}

#[test]
fn a_valid_form_converts_into_a_subscriber() {
    let subscriber = NewSubscriber::try_from(form("alex kalinin", "alex@kalinin.uk")).unwrap();
    assert_eq!(subscriber.name.as_ref(), "alex kalinin");
    assert_eq!(subscriber.email.as_ref(), "alex@kalinin.uk");
    let subscriber: NewSubscriber = form("alex kalinin", "alex@kalinin.uk").try_into().unwrap();
    assert_eq!(subscriber.name.as_ref(), "alex kalinin");
}

#[test]
fn a_form_with_a_bad_name_does_not_convert() {
    assert_eq!(
        NewSubscriber::try_from(form("", "alex@kalinin.uk")),
        Err(refusal("", Rule::EmptyName))
    );
    assert_eq!(
        NewSubscriber::try_from(form("a<b", "alex@kalinin.uk")),
        Err(refusal("a<b", Rule::ForbiddenCharacter))
    );
    let long = "n".repeat(257);
    assert_eq!(
        NewSubscriber::try_from(form(&long, "alex@kalinin.uk")),
        Err(refusal(&long, Rule::NameTooLong))
    );
}

#[test]
fn a_form_with_a_bad_email_does_not_convert() {
    assert_eq!(
        NewSubscriber::try_from(form("alex kalinin", "foo")),
        Err(refusal("foo", Rule::MalformedEmail))
    );
    assert_eq!(
        NewSubscriber::try_from(form("alex kalinin", "")),
        Err(refusal("", Rule::MalformedEmail))
    );
}

#[test]
fn where_both_fields_are_bad_the_name_is_reported() {
    assert_eq!(
        NewSubscriber::try_from(form("alex/kalinin", "foo")),
        Err(refusal("alex/kalinin", Rule::ForbiddenCharacter))
    );
}

#[test]
fn subscribe_returns_a_200_for_valid_form_data() {
    let state = subscribe(form("alex kalinin", "alex@kalinin.uk"));
    assert_eq!(status(&state), None);
    let subscriber = match state {
        RequestState::Validated(subscriber) => subscriber,
        other => panic!("{:?}", other),
    };
    let row = insert_subscriber(&subscriber);
    assert_eq!(row.name, "alex kalinin");
    assert_eq!(row.email, "alex@kalinin.uk");

    let state = RequestState::Validated(subscriber).conclude(Ok(()));
    assert_eq!(state, RequestState::Persisted);
    assert_eq!(state.response(), Some(Response::Success));
    assert_eq!(200, status(&state).unwrap());
}

#[test]
fn subscribe_returns_a_200_when_fields_are_present_but_empty() {
    let test_cases = vec![
        (form("", "alex@kalinin.uk"), refusal("", Rule::EmptyName), "empty name"),
        (form("alex kalinin", ""), refusal("", Rule::MalformedEmail), "empty email"),
        (form("alex kalinin", "foo"), refusal("foo", Rule::MalformedEmail), "invalid email"),
    ];

    for (body, error, description) in test_cases {
        let state = subscribe(body);
        assert_eq!(
            Some(400),
            status(&state),
            "The API did not return a 400 Bad Request when the payload was {}",
            description
        );
        assert_eq!(state, RequestState::Rejected(error));
    }
}

#[test]
fn a_rejected_request_stays_rejected_whatever_the_store_says() {
    let state = subscribe(form("", "alex@kalinin.uk"));
    let state = state.conclude(Ok(()));
    assert_eq!(state, RequestState::Rejected(refusal("", Rule::EmptyName)));
    assert_eq!(state.response(), Some(Response::BadRequest));
    let state = state.conclude(Err("connection refused".to_string()));
    assert_eq!(state, RequestState::Rejected(refusal("", Rule::EmptyName)));
    let state = state.validate();
    assert_eq!(state, RequestState::Rejected(refusal("", Rule::EmptyName)));
}

#[test]
fn subscribe_returns_a_500_when_the_store_fails() {
    let state = subscribe(form("alex kalinin", "alex@kalinin.uk"));
    let state = state.conclude(Err("pool timed out while waiting for an open connection".to_string()));
    assert_eq!(state.response(), Some(Response::InternalServerError));
    assert_eq!(Some(500), status(&state));
    match state {
        RequestState::PersistFailed(StoreError { cause, subscriber }) => {
            assert_eq!(cause, "pool timed out while waiting for an open connection");
            assert_eq!(subscriber.name.as_ref(), "alex kalinin");
            assert_eq!(subscriber.email.as_ref(), "alex@kalinin.uk");
        }
        other => panic!("{:?}", other),
    }
}

#[test]
fn a_request_with_an_answer_keeps_it() {
    let persisted = RequestState::Persisted.conclude(Err("late failure".to_string()));
    assert_eq!(persisted, RequestState::Persisted);
    assert_eq!(RequestState::Persisted.validate(), RequestState::Persisted);

    let failed = subscribe(form("alex kalinin", "alex@kalinin.uk")).conclude(Err("down".to_string()));
    let failed = failed.conclude(Ok(()));
    assert_eq!(failed.response(), Some(Response::InternalServerError));
    let failed = failed.validate();
    assert_eq!(failed.response(), Some(Response::InternalServerError));
}

#[test]
fn a_received_request_waits_for_validation() {
    let state = RequestState::Received(form("alex kalinin", "alex@kalinin.uk"));
    assert_eq!(state.response(), None);
    let state = state.conclude(Ok(()));
    assert_eq!(state, RequestState::Received(form("alex kalinin", "alex@kalinin.uk")));
    let state = state.validate();
    assert_eq!(state, subscribe(form("alex kalinin", "alex@kalinin.uk")));
    assert_eq!(state.response(), None);
    let state = state.validate();
    assert_eq!(state, subscribe(form("alex kalinin", "alex@kalinin.uk")));
}

#[test]
fn the_status_codes_are_200_400_and_500() {
    assert_eq!(Response::Success.status_code(), 200);
    assert_eq!(Response::BadRequest.status_code(), 400);
    assert_eq!(Response::InternalServerError.status_code(), 500);
}
