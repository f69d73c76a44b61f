//! Signed, expiring tokens in two independent roles.
//!
//! A token carries a subject, a role tag, and three timestamps
//! (issued-at, not-before, expires-at), and is signed under the secret
//! bound to its role: an access secret for short-lived access tokens, a
//! refresh secret for long-lived refresh tokens. Validation decodes the
//! claims, requires the embedded role to equal the expected one, checks
//! the signature under the expected role's secret, and then the time
//! window; boundary instants (`now == expires_at`, `now == not_before`)
//! are valid.

use vstd::prelude::*;
use jsonwebtoken::{decode, encode, Algorithm, DecodingKey, EncodingKey, Header, Validation};
use serde_json::Value;

verus! {

/// Lifetime of an access token, in seconds.
pub const ACCESS_TOKEN_DURATION: u64 = 60 * 15;

/// Lifetime of a refresh token, in seconds.
pub const REFRESH_TOKEN_DURATION: u64 = 3600 * 24 * 7;

/// The role a token is minted for. An access token proves recent
/// authentication; a refresh token only mints new access tokens.
#[derive(Debug, Clone, Copy, PartialEq, Eq, Structural)]
pub enum Role {
    Access,
    Refresh,
}

/// The claims carried by a token.
#[derive(Debug, Clone, PartialEq, Eq)]
pub struct TokenClaims {
    pub sub: String,
    pub role: Role,
    pub exp: u64,
    pub nbf: u64,
    pub iat: u64,
}

/// The mathematical image of a token's claims.
pub struct ClaimsModel {
    pub sub: Seq<char>,
    pub role: Role,
    pub exp: u64,
    pub nbf: u64,
    pub iat: u64,
}

impl View for TokenClaims {
    type V = ClaimsModel;

    open spec fn view(&self) -> ClaimsModel {
        ClaimsModel { sub: self.sub@, role: self.role, exp: self.exp, nbf: self.nbf, iat: self.iat }
    }
}

/// The claims that decoding a token yields when its signature is ignored:
/// `None` when the token is not a well-formed token of this shape; a
/// function of the token alone.
pub uninterp spec fn jwt_payload(token: Seq<char>) -> Option<ClaimsModel>;

/// Whether a token's signature verifies under a secret; a function of the
/// token and the secret alone. False when the token is malformed.
pub uninterp spec fn jwt_signed(token: Seq<char>, secret: Seq<u8>) -> bool;

/// Relies on jsonwebtoken::encode (HS256, default header): the returned
/// compact token embeds exactly these claims, and its signature verifies
/// under the signing secret; decoding what encode produced yields the
/// claims that were encoded. Encoding cannot fail here: the secret key's
/// family matches HS256, the header and the JSON object of claims
/// serialize unconditionally, and HMAC signing accepts any key.
#[verifier::external_body]
fn encode_claims(claims: &TokenClaims, secret: &[u8]) -> (r: Option<String>)
    ensures
        r is Some,
        r matches Some(t) ==> jwt_payload(t@) == Some(claims@) && jwt_signed(t@, secret@),
{
    let role = match claims.role { Role::Access => "Access", Role::Refresh => "Refresh" };
    let mut m = serde_json::Map::new();
    m.insert("sub".to_string(), Value::from(claims.sub.as_str()));
    m.insert("role".to_string(), Value::from(role));
    m.insert("exp".to_string(), Value::from(claims.exp));
    m.insert("nbf".to_string(), Value::from(claims.nbf));
    m.insert("iat".to_string(), Value::from(claims.iat));
    let key = EncodingKey::from_secret(secret);
    encode(&Header::default(), &Value::Object(m), &key).ok()
}

/// Relies on jsonwebtoken::decode with signature validation disabled:
/// splitting the compact token and deserializing its payload is a
/// function of the token alone; a token that does not parse into claims
/// of this shape yields `None`.
#[verifier::external_body]
fn parse_claims(token: &str) -> (r: Option<TokenClaims>)
    ensures
        r matches Some(c) ==> jwt_payload(token@) == Some(c@),
        r is None ==> jwt_payload(token@) is None,
{
    let mut v = Validation::new(Algorithm::HS256);
    v.insecure_disable_signature_validation();
    v.validate_exp = false;
    v.validate_aud = false;
    v.set_required_spec_claims::<&str>(&[]);
    let key = DecodingKey::from_secret(b"");
    let d = decode::<Value>(token, &key, &v).ok()?.claims;
    let role = match d.get("role")?.as_str()? {
        "Access" => Role::Access,
        "Refresh" => Role::Refresh,
        _ => return None,
    };
    let sub = d.get("sub")?.as_str()?.to_string();
    let (exp, nbf, iat) = (d.get("exp")?.as_u64()?, d.get("nbf")?.as_u64()?, d.get("iat")?.as_u64()?);
    Some(TokenClaims { sub, role, exp, nbf, iat })
}

/// Relies on jsonwebtoken::decode (HS256, claim validation disabled):
/// whether the token's signature verifies under the secret is a function
/// of the token and the secret alone; a malformed token does not verify.
#[verifier::external_body]
fn signature_valid(token: &str, secret: &[u8]) -> (r: bool)
    ensures
        r == jwt_signed(token@, secret@),
{
    let mut v = Validation::new(Algorithm::HS256);
    v.validate_exp = false;
    v.validate_aud = false;
    v.set_required_spec_claims::<&str>(&[]);
    let key = DecodingKey::from_secret(secret);
    decode::<Value>(token, &key, &v).is_ok()
}

/// Relies on jsonwebtoken::get_current_timestamp: the current time as
/// whole seconds since the Unix epoch. On a machine whose clock precedes
/// the epoch the underlying call aborts rather than returning.
#[verifier::external_body]
pub(crate) fn unix_now() -> (r: u64)
{
    jsonwebtoken::get_current_timestamp()
}

/// A missing secret at setup: a fatal configuration error.
#[derive(Debug, Clone, Copy, PartialEq, Eq, Structural)]
pub enum ConfigError {
    MissingAccessSecret,
    MissingRefreshSecret,
}

/// A failure while minting a token.
#[derive(Debug, Clone, Copy, PartialEq, Eq, Structural)]
pub enum TokenError {
    EncodingFailed,
}

/// The outcome of validating a token.
#[derive(Debug, Clone, PartialEq, Eq)]
pub enum VerifyOutcome {
    /// The token is authentic, timely and of the expected role; carries
    /// its subject.
    Valid(String),
    /// The token's expiry lies in the past.
    Expired,
    /// The token's not-before instant lies in the future.
    NotYetValid,
    /// The token's signature does not verify under the expected role's
    /// secret.
    BadSignature,
    /// The token's embedded role differs from the expected one.
    RoleMismatch,
    /// The token does not decode into claims of the expected shape.
    Malformed,
}

/// The mathematical image of a validation outcome.
pub enum OutcomeModel {
    Valid(Seq<char>),
    Expired,
    NotYetValid,
    BadSignature,
    RoleMismatch,
    Malformed,
}

impl View for VerifyOutcome {
    type V = OutcomeModel;

    open spec fn view(&self) -> OutcomeModel {
        match self {
            VerifyOutcome::Valid(sub) => OutcomeModel::Valid(sub@),
            VerifyOutcome::Expired => OutcomeModel::Expired,
            VerifyOutcome::NotYetValid => OutcomeModel::NotYetValid,
            VerifyOutcome::BadSignature => OutcomeModel::BadSignature,
            VerifyOutcome::RoleMismatch => OutcomeModel::RoleMismatch,
            VerifyOutcome::Malformed => OutcomeModel::Malformed,
        }
    }
}

/// The lifetime a role's tokens are minted with.
pub open spec fn spec_duration(role: Role) -> u64 {
    match role {
        Role::Access => ACCESS_TOKEN_DURATION,
        Role::Refresh => REFRESH_TOKEN_DURATION,
    }
}

/// The expiry stamped on a token minted at `now`, saturating at the top
/// of the clock's range.
pub open spec fn spec_expiry(role: Role, now: u64) -> u64 {
    if now + spec_duration(role) <= u64::MAX {
        (now + spec_duration(role)) as u64
    } else {
        u64::MAX
    }
}

/// What validating a token yields, given its decoded payload, whether its
/// signature verifies under the expected role's secret, the expected
/// role, and the current time. The embedded role is checked before the
/// signature, so a token of the wrong role is reported as a role
/// mismatch, never accepted, whatever it was signed with.
pub open spec fn verify_model(
    payload: Option<ClaimsModel>,
    signed: bool,
    expected: Role,
    now: u64,
) -> OutcomeModel {
    match payload {
        Option::None => OutcomeModel::Malformed,
        Option::Some(c) => {
            if c.role != expected {
                OutcomeModel::RoleMismatch
            } else if !signed {
                OutcomeModel::BadSignature
            } else if now > c.exp {
                OutcomeModel::Expired
            } else if now < c.nbf {
                OutcomeModel::NotYetValid
            } else {
                OutcomeModel::Valid(c.sub)
            }
        },
    }
}

/// The token service: one signing secret per role, resolved once at
/// setup.
#[derive(Debug, Clone)]
pub struct TokenService {
    access_secret: Vec<u8>,
    refresh_secret: Vec<u8>,
}

impl TokenService {
    /// The secret this service signs and checks the given role with.
    pub closed spec fn secret_for(&self, role: Role) -> Seq<u8> {
        match role {
            Role::Access => self.access_secret@,
            Role::Refresh => self.refresh_secret@,
        }
    }

    /// Resolves the two signing secrets once. A missing secret is a fatal
    /// configuration error: the access secret is required first.
    pub fn new(access_secret: Option<Vec<u8>>, refresh_secret: Option<Vec<u8>>) -> (r: Result<
        TokenService,
        ConfigError,
    >)
        ensures
            access_secret is None ==> r == Err::<TokenService, _>(ConfigError::MissingAccessSecret),
            access_secret is Some && refresh_secret is None ==> r == Err::<TokenService, _>(
                ConfigError::MissingRefreshSecret,
            ),
            r matches Ok(s) ==> access_secret matches Some(a) && refresh_secret matches Some(f)
                && s.secret_for(Role::Access) == a@ && s.secret_for(Role::Refresh) == f@,
    {
        match (access_secret, refresh_secret) {
            (Option::None, _) => Err(ConfigError::MissingAccessSecret),
            (Option::Some(_), Option::None) => Err(ConfigError::MissingRefreshSecret),
            (Option::Some(a), Option::Some(f)) => Ok(TokenService { access_secret: a, refresh_secret: f }),
        }
    }

    /// Mints a token for `subject` in `role` as of the instant `now`:
    /// issued-at and not-before are stamped `now`, the expiry `now` plus
    /// the role's lifetime, and the token is signed under the role's
    /// secret. Minting always succeeds: the secrets were resolved at
    /// setup, and HS256 encoding has no failure path.
    pub fn create_at(&self, subject: &str, role: Role, now: u64) -> (r: Result<String, TokenError>)
        ensures
            r is Ok,
            r matches Ok(t) ==> jwt_payload(t@) == Some(
                ClaimsModel { sub: subject@, role, exp: spec_expiry(role, now), nbf: now, iat: now },
            ) && jwt_signed(t@, self.secret_for(role)),
    {
        let duration = match role {
            Role::Access => ACCESS_TOKEN_DURATION,
            Role::Refresh => REFRESH_TOKEN_DURATION,
        };
        let exp = if now <= u64::MAX - duration { now + duration } else { u64::MAX };
        let claims = TokenClaims { sub: subject.to_owned(), role, exp, nbf: now, iat: now };
        let secret = match role {
            Role::Access => self.access_secret.as_slice(),
            Role::Refresh => self.refresh_secret.as_slice(),
        };
        match encode_claims(&claims, secret) {
            Option::Some(t) => Ok(t),
            Option::None => Err(TokenError::EncodingFailed),
        }
    }

    /// Mints a token for `subject` in `role` as of the present instant.
    pub fn create(&self, subject: &str, role: Role) -> (r: Result<String, TokenError>)
        ensures
            r is Ok,
            r matches Ok(t) ==> exists|now: u64|
                jwt_payload(t@) == Some(
                    ClaimsModel {
                        sub: subject@,
                        role,
                        exp: spec_expiry(role, now),
                        nbf: now,
                        iat: now,
                    },
                ) && jwt_signed(t@, self.secret_for(role)),
    {
        let now = unix_now();
        let r = self.create_at(subject, role, now);
        proof {
            if r is Ok {
                assert(exists|n: u64|
                    jwt_payload(r->Ok_0@) == Some(
                        ClaimsModel {
                            sub: subject@,
                            role,
                            exp: spec_expiry(role, n),
                            nbf: n,
                            iat: n,
                        },
                    ) && jwt_signed(r->Ok_0@, self.secret_for(role))) by {
                    assert(jwt_payload(r->Ok_0@) == Some(
                        ClaimsModel {
                            sub: subject@,
                            role,
                            exp: spec_expiry(role, now),
                            nbf: now,
                            iat: now,
                        },
                    ) && jwt_signed(r->Ok_0@, self.secret_for(role)));
                }
            }
        }
        r
    }

    /// Validates a token against the expected role as of the instant
    /// `now`: decodes the claims, requires the embedded role to equal the
    /// expected one, checks the signature under the expected role's
    /// secret, and then that `not_before <= now <= expires_at`, both
    /// bounds inclusive. Returns the subject when every check passes.
    pub fn verify_at(&self, token: &str, expected: Role, now: u64) -> (r: VerifyOutcome)
        ensures
            r@ == verify_model(
                jwt_payload(token@),
                jwt_signed(token@, self.secret_for(expected)),
                expected,
                now,
            ),
    {
        let claims = match parse_claims(token) {
            Option::Some(c) => c,
            Option::None => return VerifyOutcome::Malformed,
        };
        if claims.role != expected {
            return VerifyOutcome::RoleMismatch;
        }
        let secret = match expected {
            Role::Access => self.access_secret.as_slice(),
            Role::Refresh => self.refresh_secret.as_slice(),
        };
        if !signature_valid(token, secret) {
            return VerifyOutcome::BadSignature;
        }
        if now > claims.exp {
            return VerifyOutcome::Expired;
        }
        if now < claims.nbf {
            return VerifyOutcome::NotYetValid;
        }
        VerifyOutcome::Valid(claims.sub)
    }

    /// Validates a token against the expected role as of the present
    /// instant.
    pub fn verify(&self, token: &str, expected: Role) -> (r: VerifyOutcome)
        ensures
            exists|now: u64|
                r@ == verify_model(
                    jwt_payload(token@),
                    jwt_signed(token@, self.secret_for(expected)),
                    expected,
                    now,
                ),
    {
        let now = unix_now();
        let r = self.verify_at(token, expected, now);
        proof {
            assert(exists|n: u64|
                r@ == verify_model(
                    jwt_payload(token@),
                    jwt_signed(token@, self.secret_for(expected)),
                    expected,
                    n,
                )) by {
                assert(r@ == verify_model(
                    jwt_payload(token@),
                    jwt_signed(token@, self.secret_for(expected)),
                    expected,
                    now,
                ));
            }
        }
        r
    }
}

/// A freshly minted token validates as its own role: if a token's payload
/// is the claims that minting for `(sub, role)` at `now` stamps, its
/// signature verifies under the checking secret, and the checking instant
/// lies within the token's window, then validation yields the subject.
/// Both window bounds are inclusive.
pub proof fn lemma_create_then_verify(
    token: Seq<char>,
    secret: Seq<u8>,
    sub: Seq<char>,
    role: Role,
    now: u64,
    check: u64,
)
    requires
        jwt_payload(token) == Some(
            ClaimsModel { sub, role, exp: spec_expiry(role, now), nbf: now, iat: now },
        ),
        jwt_signed(token, secret),
        now <= check <= spec_expiry(role, now),
    ensures
        verify_model(jwt_payload(token), jwt_signed(token, secret), role, check)
            == OutcomeModel::Valid(sub),
{
}

/// A token whose embedded role differs from the expected one is reported
/// as a role mismatch and never accepted, whatever its signature status
/// and whatever the time.
pub proof fn lemma_role_mismatch(payload: Option<ClaimsModel>, signed: bool, expected: Role, now: u64)
    requires
        payload matches Some(c) && c.role != expected,
    ensures
        verify_model(payload, signed, expected, now) == OutcomeModel::RoleMismatch,
{
}

/// A well-signed token of the expected role whose expiry lies in the past
/// is reported expired.
pub proof fn lemma_expired(payload: Option<ClaimsModel>, expected: Role, now: u64)
    requires
        payload matches Some(c) && c.role == expected && c.exp < now,
    ensures
        verify_model(payload, true, expected, now) == OutcomeModel::Expired,
{
}

/// A well-signed token of the expected role whose not-before instant lies
/// in the future, and which has not expired, is reported not yet valid.
pub proof fn lemma_not_yet_valid(payload: Option<ClaimsModel>, expected: Role, now: u64)
    requires
        payload matches Some(c) && c.role == expected && now <= c.exp && now < c.nbf,
    ensures
        verify_model(payload, true, expected, now) == OutcomeModel::NotYetValid,
{
}

} // verus!
