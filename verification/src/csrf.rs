//! Per-session anti-forgery tokens.
//!
//! A session holds at most one pending anti-forgery token, a random
//! unguessable value with its own short expiration. Issuing replaces any
//! prior pending token; validation fails closed when no token is stored,
//! when the stored token has expired, or when the submitted value is not
//! an exact match. The token authenticates request intent within an
//! already-authenticated session: it has no role and no cross-session
//! validity.

use vstd::prelude::*;

verus! {

/// Lifetime of an anti-forgery token, in seconds.
pub const CSRF_TOKEN_DURATION: u64 = 600;

/// A pending anti-forgery token: its value and its expiry instant.
#[derive(Debug, Clone, PartialEq, Eq)]
pub struct CsrfToken {
    pub value: String,
    pub expires_at: u64,
}

/// The anti-forgery slot of one session: at most one pending token.
#[derive(Debug, Clone, PartialEq, Eq)]
pub struct SessionCsrf {
    pub pending: Option<CsrfToken>,
}

/// Relies on uuid::Uuid::new_v4 and its hyphenated rendering: a random
/// version-4 identifier printed as 36 characters. Nothing can be promised
/// of the drawn value itself.
#[verifier::external_body]
fn fresh_token_value() -> (r: String)
    ensures
        r@.len() == 36,
{
    uuid::Uuid::new_v4().to_string()
}

/// The expiry stamped on a token issued at `now`, saturating at the top
/// of the clock's range.
pub open spec fn spec_csrf_expiry(now: u64) -> u64 {
    if now + CSRF_TOKEN_DURATION <= u64::MAX {
        (now + CSRF_TOKEN_DURATION) as u64
    } else {
        u64::MAX
    }
}

/// Whether a session slot accepts a submitted value at `now`: a token is
/// pending, it has not expired (the expiry instant itself is still
/// acceptable), and the submitted value equals the stored one exactly.
pub open spec fn csrf_accepts(slot: Option<CsrfToken>, submitted: Seq<char>, now: u64) -> bool {
    slot matches Some(t) && now <= t.expires_at && submitted == t.value@
}

impl SessionCsrf {
    /// A fresh session slot with no pending token.
    pub fn new() -> (r: SessionCsrf)
        ensures
            r.pending is None,
    {
        SessionCsrf { pending: None }
    }

    /// Issues a fresh anti-forgery token as of the instant `now`,
    /// replacing any prior pending token, and returns its value.
    pub fn issue_at(&mut self, now: u64) -> (r: String)
        ensures
            final(self).pending matches Some(t) && t.value@ == r@ && t.expires_at
                == spec_csrf_expiry(now),
            r@.len() == 36,
    {
        let value = fresh_token_value();
        let expires_at = if now <= u64::MAX - CSRF_TOKEN_DURATION {
            now + CSRF_TOKEN_DURATION
        } else {
            u64::MAX
        };
        let token = value.clone();
        self.pending = Some(CsrfToken { value, expires_at });
        token
    }

    /// Issues a fresh anti-forgery token as of the present instant.
    pub fn issue(&mut self) -> (r: String)
        ensures
            exists|now: u64|
                final(self).pending matches Some(t) && t.value@ == r@ && t.expires_at
                    == #[trigger] spec_csrf_expiry(now),
            r@.len() == 36,
    {
        let now = crate::token::unix_now();
        let r = self.issue_at(now);
        proof {
            assert(exists|n: u64|
                final(self).pending matches Some(t) && t.value@ == r@ && t.expires_at
                    == #[trigger] spec_csrf_expiry(n)) by {
                assert(final(self).pending matches Some(t) && t.value@ == r@ && t.expires_at
                    == spec_csrf_expiry(now));
            }
        }
        r
    }

    /// Validates a submitted value against the pending token as of the
    /// instant `now`. Fails closed: denies when no token is pending, when
    /// the pending token has expired, or when the values differ.
    pub fn validate_at(&self, submitted: &String, now: u64) -> (r: bool)
        ensures
            r == csrf_accepts(self.pending, submitted@, now),
    {
        match &self.pending {
            Option::None => false,
            Option::Some(t) => now <= t.expires_at && *submitted == t.value,
        }
    }

    /// Validates a submitted value against the pending token as of the
    /// present instant.
    pub fn validate(&self, submitted: &String) -> (r: bool)
        ensures
            exists|now: u64| r == csrf_accepts(self.pending, submitted@, now),
    {
        let now = crate::token::unix_now();
        let r = self.validate_at(submitted, now);
        proof {
            assert(exists|n: u64| r == csrf_accepts(self.pending, submitted@, n)) by {
                assert(r == csrf_accepts(self.pending, submitted@, now));
            }
        }
        r
    }
}

/// A freshly issued token validates in its own session: issuing stamps a
/// pending token, and for any instant up to its expiry, validating that
/// same value succeeds.
pub proof fn lemma_issue_then_validate(slot: SessionCsrf, value: Seq<char>, now: u64, later: u64)
    requires
        slot.pending matches Some(t) && t.value@ == value && t.expires_at == spec_csrf_expiry(now),
        later <= spec_csrf_expiry(now),
    ensures
        csrf_accepts(slot.pending, value, later),
{
}

/// A token validates in a session only if it equals that session's own
/// pending token and that token is unexpired: a value accepted by one
/// session is exactly its stored value, so a token issued to a different
/// session validates only when the two stored values coincide.
pub proof fn lemma_validate_requires_match(slot: SessionCsrf, submitted: Seq<char>, now: u64)
    requires
        csrf_accepts(slot.pending, submitted, now),
    ensures
        slot.pending matches Some(t) && submitted == t.value@ && now <= t.expires_at,
{
}

} // verus!
