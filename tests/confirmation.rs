use newsletter::confirm::{confirm, Parameters, SubscriptionTokenError};
use newsletter::store::{Store, SubscriberStatus};
use newsletter::token::SubscriptionToken;

#[test]
fn confirmations_without_token_are_rejected_with_a_400() {
    let mut store = Store::new();
    let params = Parameters { subscription_token: String::new() };
    let err = confirm(&mut store, &params).err().unwrap();
    assert_eq!(err.status_code(), 400);
    assert!(matches!(err, SubscriptionTokenError::ValidationError(_)));
}

#[test]
fn clicking_on_the_confirmation_link_confirms_a_subscriber() {
    let mut store = Store::new();
    store.add_subscriber(1, "ursula_le_guin@gmail.com".into(), "le guin".into());
    let token = SubscriptionToken::generate_subscription_token();
    assert!(store.add_token(&token, 1));
    let params = Parameters { subscription_token: token.as_str().into() };
    let response = confirm(&mut store, &params).ok().unwrap();
    assert_eq!(response.status, 200);
    assert_eq!(store.subscribers[0].email, "ursula_le_guin@gmail.com");
    assert_eq!(store.subscribers[0].name, "le guin");
    assert_eq!(store.subscribers[0].status, SubscriberStatus::Confirmed);
}

#[test]
fn confirming_twice_succeeds_both_times() {
    let mut store = Store::new();
    store.add_subscriber(1, "a@example.com".into(), "a".into());
    store.add_subscriber(2, "b@example.com".into(), "b".into());
    let token = SubscriptionToken::generate_subscription_token();
    assert!(store.add_token(&token, 1));
    let params = Parameters { subscription_token: token.as_str().into() };
    assert!(confirm(&mut store, &params).is_ok());
    assert!(confirm(&mut store, &params).is_ok());
    assert_eq!(store.subscribers[0].status, SubscriberStatus::Confirmed);
    assert_eq!(store.subscribers[1].status, SubscriberStatus::PendingConfirmation);
}

#[test]
fn unknown_well_formed_token_is_a_401() {
    let mut store = Store::new();
    store.add_subscriber(1, "a@example.com".into(), "a".into());
    let params = Parameters { subscription_token: "abcdefghijklmnopqrstuvwxy".into() };
    let err = confirm(&mut store, &params).err().unwrap();
    assert_eq!(err.status_code(), 401);
    match err {
        SubscriptionTokenError::AuthorizationError(m) => assert_eq!(m, "Invalid subscription token"),
        _ => panic!("expected an authorization error"),
    }
    assert_eq!(store.subscribers[0].status, SubscriberStatus::PendingConfirmation);
}

#[test]
fn malformed_token_message_quotes_it() {
    let mut store = Store::new();
    let params = Parameters { subscription_token: "short".into() };
    match confirm(&mut store, &params).err().unwrap() {
        SubscriptionTokenError::ValidationError(m) => assert_eq!(m, "Invalid Token: short."),
        _ => panic!("expected a validation error"),
    }
}

#[test]
fn duplicate_token_is_refused() {
    let mut store = Store::new();
    let token = SubscriptionToken::parse("abcdefghijklmnopqrstuvwxy".into()).unwrap();
    assert!(store.add_token(&token, 1));
    assert!(!store.add_token(&token, 2));
    assert_eq!(store.tokens.len(), 1);
}

#[test]
fn unexpected_confirmation_error_is_a_500() {
    let e = SubscriptionTokenError::UnexpectedError("db".into());
    assert_eq!(e.status_code(), 500);
    let v: SubscriptionTokenError = String::from("x").into();
    assert_eq!(v.status_code(), 400);
}
