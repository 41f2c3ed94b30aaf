use vstd::prelude::*;
use vstd::string::{StrSliceExecFns, StringExecFns};

verus! {

/// Number of characters in every subscription token.
pub const TOKEN_LEN: usize = 25;

/// A character allowed in a token: an ASCII letter of either case or a digit.
pub open spec fn is_token_char(c: char) -> bool {
    ('a' <= c && c <= 'z') || ('A' <= c && c <= 'Z') || ('0' <= c && c <= '9')
}

/// The format every token has: exactly 25 characters, all alphanumeric.
pub open spec fn is_valid_token(s: Seq<char>) -> bool {
    s.len() == TOKEN_LEN as nat && forall|i: int| 0 <= i < s.len() ==> is_token_char(#[trigger] s[i])
}

/// The message carried by the error of `SubscriptionToken::parse`.
pub open spec fn invalid_token_message(s: Seq<char>) -> Seq<char> {
    "Invalid Token: "@ + s + "."@
}

/// An opaque, fixed-format token that identifies a pending subscription.
#[derive(Debug)]
pub struct SubscriptionToken(String);

impl View for SubscriptionToken {
    type V = Seq<char>;

    closed spec fn view(&self) -> Seq<char> {
        self.0@
    }
}

impl SubscriptionToken {
    /// Well-formed tokens always carry a valid token string.
    pub open spec fn wf(&self) -> bool {
        is_valid_token(self@)
    }

    /// Accepts `s` exactly when it has the token format; otherwise returns a
    /// message that quotes the rejected string.
    pub fn parse(s: String) -> (r: Result<SubscriptionToken, String>)
        ensures
            r is Ok <==> is_valid_token(s@),
            r matches Ok(t) ==> t@ == s@ && t.wf(),
            r matches Err(e) ==> e@ == invalid_token_message(s@),
    {
        if is_token_string(s.as_str()) {
            Ok(SubscriptionToken(s))
        } else {
            let msg = String::from_str("Invalid Token: ");
            let msg = msg.concat(s.as_str());
            let msg = msg.concat(".");
            proof {
                reveal_strlit("Invalid Token: ");
                reveal_strlit(".");
            }
            Err(msg)
        }
    }

    /// Draws a fresh token of 25 random alphanumeric characters.
    pub fn generate_subscription_token() -> (t: SubscriptionToken)
        ensures
            t.wf(),
    {
        let mut rng = rand::thread_rng();
        let mut token = String::new();
        let mut i: usize = 0;
        while i < TOKEN_LEN
            invariant
                i <= TOKEN_LEN,
                token@.len() == i as nat,
                forall|j: int| 0 <= j < token@.len() ==> is_token_char(#[trigger] token@[j]),
            decreases TOKEN_LEN - i,
        {
            let b = sample_alphanumeric(&mut rng);
            push_char(&mut token, b as char);
            i = i + 1;
        }
        SubscriptionToken(token)
    }

    /// Whether `s` holds exactly this token's text.
    pub fn is_text(&self, s: &String) -> (r: bool)
        ensures
            r == (s@ == self@),
    {
        *s == self.0
    }

    /// The token's text.
    pub fn as_str(&self) -> (r: &str)
        ensures
            r@ == self@,
    {
        self.0.as_str()
    }
}

/// Checks the token format character by character.
pub fn is_token_string(s: &str) -> (r: bool)
    ensures
        r == is_valid_token(s@),
{
    let n = s.unicode_len();
    if n != TOKEN_LEN {
        return false;
    }
    let mut i: usize = 0;
    while i < n
        invariant
            n == s@.len(),
            i <= n,
            forall|j: int| 0 <= j < i ==> is_token_char(#[trigger] s@[j]),
        decreases n - i,
    {
        let c = s.get_char(i);
        let ok = ('a' <= c && c <= 'z') || ('A' <= c && c <= 'Z') || ('0' <= c && c <= '9');
        if !ok {
            return false;
        }
        i = i + 1;
    }
    true
}

#[verifier::external_type_specification]
#[verifier::external_body]
pub struct ExThreadRng(rand::rngs::ThreadRng);

/// Relies on rand::thread_rng, which hands out the thread's lazily seeded
/// generator; nothing is promised of its state. It panics only where the
/// operating system's entropy source cannot be read.
pub assume_specification[ rand::thread_rng ]() -> rand::rngs::ThreadRng;

/// Relies on rand's `Alphanumeric` distribution, which returns one byte of
/// `A-Z`, `a-z` or `0-9`.
#[verifier::external_body]
fn sample_alphanumeric(rng: &mut rand::rngs::ThreadRng) -> (b: u8)
    ensures
        is_token_char(b as char),
{
    rand::Rng::sample(rng, rand::distributions::Alphanumeric)
}

/// Relies on String::push: appends one character.
#[verifier::external_body]
fn push_char(s: &mut String, c: char)
    ensures
        final(s)@ == old(s)@.push(c),
{
    s.push(c);
}

} // verus!
