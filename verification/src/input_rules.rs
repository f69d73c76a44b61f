//! Input validation for the review platform: password strength in the
//! context of a username, and length bounds for grades, comments,
//! usernames and establishment names.

use vstd::prelude::*;
use vstd::string::StrSliceExecFns;
use crate::validation::{
    strength_score, zxcvbn_score, password_length_ok, password_strong, ZXCVBN_THRESHOLD,
    MIN_PASSWORD_LENGTH, MAX_PASSWORD_LENGTH,
};

verus! {

/// Lowest acceptable review grade.
pub const MIN_GRADE_REVIEW: u8 = 1;

/// Highest acceptable review grade.
pub const MAX_GRADE_REVIEW: u8 = 5;

/// Minimum length for a review comment, in characters.
pub const COMMENT_MIN_LENGTH: usize = 1;

/// Maximum length for a review comment, in characters.
pub const COMMENT_MAX_LENGTH: usize = 1024;

/// Minimum length for a username, in characters.
pub const USERNAME_MIN_LENGTH: usize = 1;

/// Maximum length for a username, in characters.
pub const USERNAME_MAX_LENGTH: usize = 32;

/// Minimum length for an establishment name, in characters.
pub const ESTABLISHMENT_MIN_LENGTH: usize = 1;

/// Maximum length for an establishment name, in characters.
pub const ESTABLISHMENT_MAX_LENGTH: usize = 32;

/// A password is acceptable when its length is within bounds and the
/// strength estimator, given the username as context, grades it at or
/// above the threshold. Fails closed: when the estimator returns no
/// score, the password is rejected; a password the estimator grades
/// below the threshold at every reference year is always rejected.
pub fn is_password_valid(username: &str, password: &str) -> (r: bool)
    ensures
        r ==> (exists|year: int| password_strong(password@, seq![username@], year)),
        !password_length_ok(password@) ==> !r,
        (forall|year: int|
            zxcvbn_score(password@, seq![username@], year) < ZXCVBN_THRESHOLD) ==> !r,
{
    let len = password.unicode_len();
    if len < MIN_PASSWORD_LENGTH || len > MAX_PASSWORD_LENGTH {
        return false;
    }
    let mut inputs: Vec<String> = Vec::new();
    inputs.push(username.to_owned());
    assert(inputs.deep_view() =~= seq![username@]);
    match strength_score(password, &inputs) {
        Some(score) => {
            let r = score >= ZXCVBN_THRESHOLD;
            proof {
                if r {
                    let y = choose|y: int| score == zxcvbn_score(password@, seq![username@], y);
                    assert(password_strong(password@, seq![username@], y));
                }
            }
            r
        },
        None => false,
    }
}

/// Whether a review grade lies within the accepted bounds.
pub open spec fn grade_ok(grade: u8) -> bool {
    MIN_GRADE_REVIEW <= grade <= MAX_GRADE_REVIEW
}

pub fn is_grade_valid(grade: u8) -> (r: bool)
    ensures
        r == grade_ok(grade),
{
    grade >= MIN_GRADE_REVIEW && grade <= MAX_GRADE_REVIEW
}

/// Whether a review comment has an accepted length.
pub open spec fn comment_length_ok(input: Seq<char>) -> bool {
    COMMENT_MIN_LENGTH <= input.len() <= COMMENT_MAX_LENGTH
}

pub fn is_comment_length_valid(input: &str) -> (r: bool)
    ensures
        r == comment_length_ok(input@),
{
    let len = input.unicode_len();
    len >= COMMENT_MIN_LENGTH && len <= COMMENT_MAX_LENGTH
}

/// Whether a username has an accepted length.
pub open spec fn username_length_ok(input: Seq<char>) -> bool {
    USERNAME_MIN_LENGTH <= input.len() <= USERNAME_MAX_LENGTH
}

pub fn is_username_length_valid(input: &str) -> (r: bool)
    ensures
        r == username_length_ok(input@),
{
    let len = input.unicode_len();
    len >= USERNAME_MIN_LENGTH && len <= USERNAME_MAX_LENGTH
}

/// Whether an establishment name has an accepted length.
pub open spec fn establishment_length_ok(input: Seq<char>) -> bool {
    ESTABLISHMENT_MIN_LENGTH <= input.len() <= ESTABLISHMENT_MAX_LENGTH
}

pub fn is_establishment_length_valid(input: &str) -> (r: bool)
    ensures
        r == establishment_length_ok(input@),
{
    let len = input.unicode_len();
    len >= ESTABLISHMENT_MIN_LENGTH && len <= ESTABLISHMENT_MAX_LENGTH
}

} // verus!
