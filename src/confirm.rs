use crate::response::Response;
use crate::store::{Store, Subscriber, SubscriberStatus, TokenEntry};
use crate::token::{invalid_token_message, is_valid_token, SubscriptionToken};
use vstd::prelude::*;
use vstd::string::StringExecFns;

verus! {

/// The query string of a confirmation link.
pub struct Parameters {
    pub subscription_token: String,
}

/// Why a confirmation was refused.
pub enum SubscriptionTokenError {
    /// The token does not have the token format.
    ValidationError(String),
    /// The token is well formed but belongs to no subscriber.
    AuthorizationError(String),
    /// The store failed.
    UnexpectedError(String),
}

impl SubscriptionTokenError {
    /// The HTTP status a client sees for this error.
    pub fn status_code(&self) -> (code: u16)
        ensures
            self is ValidationError ==> code == 400,
            self is AuthorizationError ==> code == 401,
            self is UnexpectedError ==> code == 500,
    {
        match self {
            SubscriptionTokenError::ValidationError(_) => 400,
            SubscriptionTokenError::AuthorizationError(_) => 401,
            SubscriptionTokenError::UnexpectedError(_) => 500,
        }
    }
}

impl From<String> for SubscriptionTokenError {
    fn from(e: String) -> (r: Self) {
        SubscriptionTokenError::ValidationError(e)
    }
}

impl vstd::std_specs::convert::FromSpecImpl<String> for SubscriptionTokenError {
    open spec fn obeys_from_spec() -> bool {
        true
    }

    open spec fn from_spec(e: String) -> Self {
        SubscriptionTokenError::ValidationError(e)
    }
}

/// Some entry of `toks` holds the token text `t`.
pub open spec fn token_known(toks: Seq<TokenEntry>, t: Seq<char>) -> bool {
    exists|i: int| 0 <= i < toks.len() && (#[trigger] toks[i]).token@ == t
}

/// `b` is `a` after confirming subscriber `id`.
pub open spec fn confirmed_if_id(a: Subscriber, b: Subscriber, id: u128) -> bool {
    &&& b.id == a.id
    &&& b.email@ == a.email@
    &&& b.name@ == a.name@
    &&& b.status == (if a.id == id { SubscriberStatus::Confirmed } else { a.status })
}

/// `new` is `old` with every subscriber of id `id` confirmed.
pub open spec fn subscribers_confirmed(old: Seq<Subscriber>, new: Seq<Subscriber>, id: u128) -> bool {
    new.len() == old.len() && forall|j: int| 0 <= j < old.len() ==> confirmed_if_id(#[trigger] old[j], new[j], id)
}

/// The message given for a well-formed but unknown token.
pub open spec fn unknown_token_message() -> Seq<char> {
    "Invalid subscription token"@
}

/// The response of a successful confirmation: a bare 200.
pub open spec fn confirmed_response() -> (u16, Seq<char>, Seq<char>) {
    (200u16, Seq::empty(), Seq::empty())
}

impl Store {
    /// What `confirm` does, for every outcome.
    pub open spec fn confirm_post(
        old: &Store,
        new: &Store,
        raw: Seq<char>,
        r: Result<Response, SubscriptionTokenError>,
    ) -> bool {
        if !is_valid_token(raw) {
            *new == *old && (r matches Err(SubscriptionTokenError::ValidationError(m)) && m@ == invalid_token_message(raw))
        } else if !token_known(old.tokens@, raw) {
            *new == *old && (r matches Err(SubscriptionTokenError::AuthorizationError(m)) && m@ == unknown_token_message())
        } else {
            &&& (r matches Ok(resp) && resp@ == confirmed_response())
            &&& new.same_but_subscribers(old)
            &&& exists|i: int|
                0 <= i < old.tokens@.len() && (#[trigger] old.tokens@[i]).token@ == raw
                    && subscribers_confirmed(old.subscribers@, new.subscribers@, old.tokens@[i].subscriber_id)
        }
    }
}

/// The subscriber the token stands for, if any.
pub fn get_subscriber_id_from_token(store: &Store, subscription_token: &SubscriptionToken) -> (r: Option<u128>)
    ensures
        r is None <==> !token_known(store.tokens@, subscription_token@),
        r matches Some(id) ==> exists|i: int|
            0 <= i < store.tokens@.len() && (#[trigger] store.tokens@[i]).token@ == subscription_token@
                && store.tokens@[i].subscriber_id == id,
{
    let mut i: usize = 0;
    while i < store.tokens.len()
        invariant
            i <= store.tokens@.len(),
            forall|j: int| 0 <= j < i ==> (#[trigger] store.tokens@[j]).token@ != subscription_token@,
        decreases store.tokens@.len() - i,
    {
        if subscription_token.is_text(&store.tokens[i].token) {
            return Some(store.tokens[i].subscriber_id);
        }
        i = i + 1;
    }
    None
}

/// Marks subscriber `subscriber_id` as confirmed; confirming twice is
/// harmless.
pub fn confirm_subscriber(store: &mut Store, subscriber_id: u128)
    ensures
        subscribers_confirmed(old(store).subscribers@, final(store).subscribers@, subscriber_id),
        final(store).same_but_subscribers(old(store)),
{
    let mut i: usize = 0;
    while i < store.subscribers.len()
        invariant
            i <= store.subscribers@.len(),
            store.subscribers@.len() == old(store).subscribers@.len(),
            store.same_but_subscribers(old(store)),
            forall|j: int| 0 <= j < i ==> confirmed_if_id(#[trigger] old(store).subscribers@[j], store.subscribers@[j], subscriber_id),
            forall|j: int| i <= j < store.subscribers@.len() ==> #[trigger] store.subscribers@[j] == old(store).subscribers@[j],
        decreases store.subscribers@.len() - i,
    {
        if store.subscribers[i].id == subscriber_id {
            store.subscribers[i].status = SubscriberStatus::Confirmed;
        }
        i = i + 1;
    }
}

/// Confirms the subscription a link's token stands for. A malformed token is
/// a validation error, an unknown one an authorization error; both change
/// nothing.
pub fn confirm(store: &mut Store, parameters: &Parameters) -> (r: Result<Response, SubscriptionTokenError>)
    ensures
        Store::confirm_post(old(store), final(store), parameters.subscription_token@, r),
{
    let token = match SubscriptionToken::parse(parameters.subscription_token.clone()) {
        Ok(t) => t,
        Err(e) => return Err(SubscriptionTokenError::from(e)),
    };
    match get_subscriber_id_from_token(store, &token) {
        None => Err(SubscriptionTokenError::AuthorizationError(String::from_str("Invalid subscription token"))),
        Some(subscriber_id) => {
            confirm_subscriber(store, subscriber_id);
            Ok(Response::with_status(200))
        },
    }
}

} // verus!
