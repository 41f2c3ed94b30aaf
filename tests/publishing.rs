use newsletter::delivery::{retry_delay_seconds, DeliveryOutcome};
use newsletter::error_chain::error_chain_fmt;
use newsletter::newsletter::{Content, Newsletter, NewsletterFormData, PublishError};
use newsletter::store::{publish_newsletter, Store, SubscriberStatus};
use newsletter::token::SubscriptionToken;
use newsletter::confirm::{confirm, Parameters};

const NOTICE: &str = "The newsletter issue has been accepted - emails will go out shortly.";

fn form(title: &str, text: &str, html: &str, key: &str) -> NewsletterFormData {
    NewsletterFormData {
        title: title.into(),
        text_content: text.into(),
        html_content: html.into(),
        idempotency_key: key.into(),
    }
}

fn add_confirmed(store: &mut Store, id: u128, email: &str) {
    store.add_subscriber(id, email.into(), "le guin".into());
    let token = SubscriptionToken::generate_subscription_token();
    assert!(store.add_token(&token, id));
    let params = Parameters { subscription_token: token.as_str().into() };
    assert!(confirm(store, &params).is_ok());
}

/// Drains the queue with a transport that accepts everything; returns the
/// recipients in the order they were sent to.
fn drain(store: &mut Store) -> Vec<String> {
    let mut sent = Vec::new();
    while let Some(claim) = store.claim_task(0) {
        sent.push(claim.subscriber_email.clone());
        assert!(store.complete_delivery(&claim, DeliveryOutcome::Delivered, 0, 0));
    }
    sent
}

#[test]
fn newsletters_are_not_delivered_to_unconfirmed_subscribers() {
    let mut store = Store::new();
    store.add_subscriber(1, "ursula_le_guin@gmail.com".into(), "le guin".into());
    let response = publish_newsletter(&mut store, 7, form("Test", "Test", "Test", "k-1")).ok().unwrap();
    assert_eq!(response.status, 303);
    assert_eq!(response.location, "/admin/newsletters");
    assert_eq!(response.body, NOTICE);
    assert_eq!(store.queue.len(), 0);
    assert!(drain(&mut store).is_empty());
}

#[test]
fn newsletters_are_delivered_to_confirmed_subscribers() {
    let mut store = Store::new();
    add_confirmed(&mut store, 1, "a@example.com");
    store.add_subscriber(2, "b@example.com".into(), "b".into());
    add_confirmed(&mut store, 3, "c@example.com");
    let response = publish_newsletter(&mut store, 7, form("Test", "Test", "Test", "k-1")).ok().unwrap();
    assert_eq!(response.status, 303);
    assert_eq!(store.queue.len(), 2);
    assert_eq!(store.issues.len(), 1);
    assert_eq!(store.issues[0].title, "Test");
    let sent = drain(&mut store);
    assert_eq!(sent, vec!["a@example.com".to_string(), "c@example.com".to_string()]);
    assert_eq!(store.queue.len(), 0);
}

#[test]
fn newsletters_returns_error_message_for_empty_data() {
    let cases = vec![
        form("Test", "", "test", "k-1"),
        form("", "Test", "Test", "k-2"),
        form("test", "Test", "", "k-3"),
    ];
    for case in cases {
        let mut store = Store::new();
        add_confirmed(&mut store, 1, "a@example.com");
        let err = publish_newsletter(&mut store, 7, case).err().unwrap();
        let response = err.error_response();
        assert_eq!(response.status, 303);
        assert_eq!(response.location, "/admin/newsletters");
        assert_eq!(response.body, "Fields cannot be empty");
        assert_eq!(store.issues.len(), 0);
        assert_eq!(store.queue.len(), 0);
        assert_eq!(store.records.len(), 0);
    }
}

#[test]
fn newsletter_creation_is_idempotent() {
    let mut store = Store::new();
    add_confirmed(&mut store, 1, "a@example.com");
    let body = form(
        "Newsletter title",
        "Newsletter body as plain text",
        "<p>Newsletter body as HTML</p>",
        "0b6c1a4e-key",
    );
    let first = publish_newsletter(&mut store, 7, form(&body.title, &body.text_content, &body.html_content, &body.idempotency_key)).ok().unwrap();
    assert_eq!(first.body, NOTICE);
    let second = publish_newsletter(&mut store, 7, body).ok().unwrap();
    assert_eq!(second.status, first.status);
    assert_eq!(second.location, first.location);
    assert_eq!(second.body, first.body);
    assert_eq!(store.queue.len(), 1);
    assert_eq!(store.issues.len(), 1);
    assert_eq!(drain(&mut store).len(), 1);
}

#[test]
fn concurrent_form_submission_is_handled_gracefully() {
    let mut store = Store::new();
    add_confirmed(&mut store, 1, "a@example.com");
    let r1 = publish_newsletter(&mut store, 7, form("Newsletter title", "Newsletter body as plain text", "<p>Newsletter body as HTML</p>", "same")).ok().unwrap();
    let r2 = publish_newsletter(&mut store, 7, form("Newsletter title", "Newsletter body as plain text", "<p>Newsletter body as HTML</p>", "same")).ok().unwrap();
    assert_eq!(r1.status, r2.status);
    assert_eq!(r1.body, r2.body);
    assert_eq!(drain(&mut store).len(), 1);
}

#[test]
fn same_key_from_another_actor_is_a_new_submission() {
    let mut store = Store::new();
    add_confirmed(&mut store, 1, "a@example.com");
    publish_newsletter(&mut store, 7, form("T", "t", "h", "key")).ok().unwrap();
    publish_newsletter(&mut store, 8, form("T", "t", "h", "key")).ok().unwrap();
    assert_eq!(store.issues.len(), 2);
    assert_eq!(store.queue.len(), 2);
    assert_eq!(store.records.len(), 2);
}

#[test]
fn replay_keeps_the_first_response_after_other_publishes() {
    let mut store = Store::new();
    add_confirmed(&mut store, 1, "a@example.com");
    publish_newsletter(&mut store, 7, form("T", "t", "h", "k1")).ok().unwrap();
    publish_newsletter(&mut store, 7, form("U", "u", "i", "k2")).ok().unwrap();
    let queued = store.queue.len();
    let again = publish_newsletter(&mut store, 7, form("V", "v", "j", "k1")).ok().unwrap();
    assert_eq!(again.body, NOTICE);
    assert_eq!(store.queue.len(), queued);
    assert_eq!(store.issues.len(), 2);
}

#[test]
fn transient_failure_reschedules_with_one_more_retry() {
    let mut store = Store::new();
    add_confirmed(&mut store, 1, "a@example.com");
    add_confirmed(&mut store, 2, "b@example.com");
    publish_newsletter(&mut store, 7, form("T", "t", "h", "k")).ok().unwrap();
    let claim = store.claim_task(100).unwrap();
    assert_eq!(claim.subscriber_email, "a@example.com");
    assert!(store.complete_delivery(&claim, DeliveryOutcome::TransientFailure, 100, 30));
    assert_eq!(store.queue[0].retry_count, 1);
    assert_eq!(store.queue[0].next_attempt_not_before, 130);
    assert!(!store.queue[0].in_flight);
    // The other recipient is not held up.
    let next = store.claim_task(100).unwrap();
    assert_eq!(next.subscriber_email, "b@example.com");
    assert!(store.complete_delivery(&next, DeliveryOutcome::Delivered, 100, 30));
    assert!(store.claim_task(129).is_none());
    let retry = store.claim_task(130).unwrap();
    assert_eq!(retry.retry_count, 1);
    assert!(store.complete_delivery(&retry, DeliveryOutcome::Delivered, 130, 30));
    assert_eq!(store.queue.len(), 0);
}

#[test]
fn retry_time_saturates() {
    let mut store = Store::new();
    add_confirmed(&mut store, 1, "a@example.com");
    publish_newsletter(&mut store, 7, form("T", "t", "h", "k")).ok().unwrap();
    let claim = store.claim_task(u64::MAX - 1).unwrap();
    assert!(store.complete_delivery(&claim, DeliveryOutcome::TransientFailure, u64::MAX - 1, 10));
    assert_eq!(store.queue[0].next_attempt_not_before, u64::MAX);
}

#[test]
fn permanent_failure_drops_only_that_task() {
    let mut store = Store::new();
    add_confirmed(&mut store, 1, "bad@example.com");
    add_confirmed(&mut store, 2, "good@example.com");
    publish_newsletter(&mut store, 7, form("T", "t", "h", "k")).ok().unwrap();
    let claim = store.claim_task(0).unwrap();
    assert!(store.complete_delivery(&claim, DeliveryOutcome::PermanentFailure, 0, 0));
    assert_eq!(store.queue.len(), 1);
    assert_eq!(store.queue[0].subscriber_email, "good@example.com");
}

#[test]
fn claimed_task_is_not_claimed_twice() {
    let mut store = Store::new();
    add_confirmed(&mut store, 1, "a@example.com");
    publish_newsletter(&mut store, 7, form("T", "t", "h", "k")).ok().unwrap();
    let claim = store.claim_task(0).unwrap();
    assert!(store.claim_task(0).is_none());
    assert!(store.complete_delivery(&claim, DeliveryOutcome::Delivered, 0, 0));
    assert!(!store.complete_delivery(&claim, DeliveryOutcome::Delivered, 0, 0));
}

#[test]
fn content_parse_wraps_text_in_a_paragraph() {
    let c = Content::parse("Hello");
    assert_eq!(c.text, "Hello");
    assert_eq!(c.html, "<p>Hello</p>");
}

#[test]
fn valid_form_keeps_both_bodies_verbatim() {
    let n = Newsletter::try_from(form("T", "plain", "<b>rich</b>", "k")).ok().unwrap();
    assert_eq!(n.title, "T");
    assert_eq!(n.content.text, "plain");
    assert_eq!(n.content.html, "<b>rich</b>");
}

#[test]
fn unexpected_publish_error_is_a_500() {
    let e: PublishError = String::from("db down").into();
    assert!(matches!(e, PublishError::UnexpectedError(_)));
    let r = e.error_response();
    assert_eq!(r.status, 500);
    assert_eq!(r.location, "");
}

#[test]
fn error_chain_lists_every_cause() {
    let chain = vec!["outer".to_string(), "middle".to_string(), "root".to_string()];
    assert_eq!(error_chain_fmt(&chain), "outer\n\nCaused by:\n\tmiddle\nCaused by:\n\troot\n");
    assert_eq!(error_chain_fmt(&vec!["only".to_string()]), "only\n\n");
    assert_eq!(error_chain_fmt(&Vec::new()), "");
}

#[test]
fn status_stays_pending_without_confirmation() {
    let mut store = Store::new();
    store.add_subscriber(1, "a@example.com".into(), "a".into());
    assert_eq!(store.subscribers[0].status, SubscriberStatus::PendingConfirmation);
}

#[test]
fn retry_delay_grows_linearly_then_caps() {
    assert_eq!(retry_delay_seconds(0), 30);
    assert_eq!(retry_delay_seconds(3), 120);
    assert_eq!(retry_delay_seconds(118), 3570);
    assert_eq!(retry_delay_seconds(119), 3600);
    assert_eq!(retry_delay_seconds(u32::MAX), 3600);
}

#[test]
fn lapsed_claim_can_be_taken_again() {
    let mut store = Store::new();
    add_confirmed(&mut store, 1, "a@example.com");
    publish_newsletter(&mut store, 7, form("T", "t", "h", "k")).ok().unwrap();
    let first = store.claim_task(1000).unwrap();
    assert_eq!(store.queue[0].claimed_until, 1600);
    assert!(store.claim_task(1599).is_none());
    let second = store.claim_task(1600).unwrap();
    assert_eq!(second.subscriber_email, first.subscriber_email);
    assert_eq!(store.queue[0].claimed_until, 2200);
    assert!(store.complete_delivery(&second, DeliveryOutcome::Delivered, 1601, 0));
    assert_eq!(store.queue.len(), 0);
}
