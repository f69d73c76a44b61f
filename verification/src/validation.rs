//! Input validation for registration and login: password strength and
//! email shape.

use vstd::prelude::*;
use vstd::string::StrSliceExecFns;

verus! {

/// Lowest acceptable strength score for a new password. The strength
/// estimator grades from 0 to 4; 3 is "safely unguessable".
pub const ZXCVBN_THRESHOLD: u8 = 3;

/// Minimum length for a password, in characters.
pub const MIN_PASSWORD_LENGTH: usize = 8;

/// Maximum length for a password, in characters.
pub const MAX_PASSWORD_LENGTH: usize = 64;

/// The strength score the estimator assigns to a password given the
/// context words and a reference year (a score from 0 to 4). The
/// estimator grades date- and year-bearing passwords against a reference
/// year it reads from the clock once per process, so the score is a
/// function of these three arguments and of nothing else.
pub uninterp spec fn zxcvbn_score(
    password: Seq<char>,
    user_inputs: Seq<Seq<char>>,
    reference_year: int,
) -> u8;

/// Whether an email address is well-formed; a function of the address alone.
pub uninterp spec fn email_accepted(email: Seq<char>) -> bool;

/// Relies on zxcvbn::zxcvbn: the returned score lies between 0 and 4 and
/// is the score function at the process's reference year, the current
/// UTC year read from the clock at the estimator's first use. The call
/// fails only for an empty password or an unusable system clock.
#[verifier::external_body]
pub(crate) fn strength_score(password: &str, user_inputs: &Vec<String>) -> (r: Option<u8>)
    ensures
        r matches Some(s) ==> s <= 4 && (exists|year: int|
            s == zxcvbn_score(password@, user_inputs.deep_view(), year)),
        password@.len() == 0 ==> r is None,
{
    let refs: Vec<&str> = user_inputs.iter().map(|s| s.as_str()).collect();
    match zxcvbn::zxcvbn(password, &refs) {
        Ok(estimate) => Some(estimate.score()),
        Err(_) => None,
    }
}

/// Whether a password is within the accepted length bounds.
pub open spec fn password_length_ok(password: Seq<char>) -> bool {
    MIN_PASSWORD_LENGTH <= password.len() <= MAX_PASSWORD_LENGTH
}

/// Whether a password of acceptable length reaches the strength
/// threshold at a given reference year.
pub open spec fn password_strong(
    password: Seq<char>,
    user_inputs: Seq<Seq<char>>,
    reference_year: int,
) -> bool {
    password_length_ok(password) && zxcvbn_score(password, user_inputs, reference_year)
        >= ZXCVBN_THRESHOLD
}

/// A password is acceptable when its length is within bounds and the
/// strength estimator grades it at or above the threshold. Fails closed:
/// when the estimator returns no score, the password is rejected; a
/// password the estimator grades below the threshold at every reference
/// year is always rejected.
pub fn is_password_valid(password: &String) -> (r: bool)
    ensures
        r ==> (exists|year: int| password_strong(password@, Seq::empty(), year)),
        !password_length_ok(password@) ==> !r,
        (forall|year: int|
            zxcvbn_score(password@, Seq::empty(), year) < ZXCVBN_THRESHOLD) ==> !r,
{
    let len = password.as_str().unicode_len();
    if len < MIN_PASSWORD_LENGTH || len > MAX_PASSWORD_LENGTH {
        return false;
    }
    let empty: Vec<String> = Vec::new();
    assert(empty.deep_view() =~= Seq::<Seq<char>>::empty());
    match strength_score(password.as_str(), &empty) {
        Some(score) => {
            let r = score >= ZXCVBN_THRESHOLD;
            proof {
                if r {
                    let y = choose|y: int|
                        score == zxcvbn_score(password@, Seq::<Seq<char>>::empty(), y);
                    assert(password_strong(password@, Seq::empty(), y));
                }
            }
            r
        },
        None => false,
    }
}

/// Relies on regex::Regex::is_match with a fixed pattern for email
/// addresses (local part, @, domain or bracketed address): whether the
/// address matches is a function of the address alone.
#[verifier::external_body]
pub fn is_email_valid(email: &String) -> (r: bool)
    ensures
        r == email_accepted(email@),
{
    let re = regex::Regex::new(
        r#"(?:[a-z0-9!#$%&'*+/=?^_`{|}~-]+(?:\.[a-z0-9!#$%&'*+/=?^_`{|}~-]+)*|"(?:[\x01-\x08\x0b\x0c\x0e-\x1f\x21\x23-\x5b\x5d-\x7f]|\\[\x01-\x09\x0b\x0c\x0e-\x7f])*")@(?:(?:[a-z0-9](?:[a-z0-9-]*[a-z0-9])?\.)+[a-z0-9](?:[a-z0-9-]*[a-z0-9])?|\[(?:(?:25[0-5]|2[0-4][0-9]|[01]?[0-9][0-9]?)\.){3}(?:25[0-5]|2[0-4][0-9]|[01]?[0-9][0-9]?|[a-z0-9-]*[a-z0-9]:(?:[\x01-\x08\x0b\x0c\x0e-\x1f\x21-\x5a\x53-\x7f]|\\[\x01-\x09\x0b\x0c\x0e-\x7f])+)\])"#,
    ).unwrap();
    re.is_match(email)
}

} // verus!
