//! Request flows: the decision core of each handler.
//!
//! Each flow takes plain values (the caller's input, the stored records
//! it concerns, the clock) and decides: it validates, authorizes, hashes
//! or mints as the handler requires, and returns either the result to
//! act on or the exact error to report. Reading the request and writing
//! the response stay with the caller.

use vstd::prelude::*;
use crate::authz::{check_permission, spec_default_rules, spec_policy_allows, Action, UserRole};
use crate::credentials::{argon2_verifies, hash_password, verify_password, CredentialHasher};
use crate::csrf::{csrf_accepts, SessionCsrf};
use crate::input_rules::{
    establishment_length_ok, grade_ok, is_establishment_length_valid, is_grade_valid,
    is_comment_length_valid, is_username_length_valid, comment_length_ok, username_length_ok,
};
use crate::store::{
    by_reviewer, not_review_key, of_establishment, review_models, spec_has_review, spec_has_user,
    Database, Review, User,
};
use crate::text::{normalize_identifier, normalized};
use crate::token::{
    jwt_payload, jwt_signed, spec_expiry, verify_model, ClaimsModel, OutcomeModel, Role,
    TokenService, VerifyOutcome,
};
use crate::validation::{
    email_accepted, is_email_valid, is_password_valid, password_length_ok, password_strong,
    zxcvbn_score, ZXCVBN_THRESHOLD,
};

verus! {

/// A normalized email with the freshly derived hash of its password:
/// what registration stores.
#[derive(Debug, Clone, PartialEq, Eq)]
pub struct RegisteredCredential {
    pub email: String,
    pub hash: String,
}

/// Why a registration request is refused.
#[derive(Debug, Clone, Copy, PartialEq, Eq, Structural)]
pub enum RegisterError {
    /// The two passwords differ, the email is malformed, or the password
    /// is too weak.
    InvalidInput,
    /// Hash derivation failed: a fatal configuration error.
    HashingFailed,
}

/// Decides a registration request: the email is normalized and must be
/// well-formed, the two passwords must match, and the password must be
/// strong; the accepted password is hashed. Looking the email up and
/// storing the record stay with the caller. Each rejection condition is
/// pinned below; acceptance itself cannot be promised, because it rests
/// on the strength estimator and the hash derivation, two outside calls
/// that may refuse (the flow then fails closed with the same uniform
/// error, or reports the fatal hashing failure).
pub fn register_request(email: &String, password: &String, password2: &String) -> (r: Result<
    RegisteredCredential,
    RegisterError,
>)
    ensures
        password@ != password2@ ==> r == Err::<RegisteredCredential, _>(
            RegisterError::InvalidInput,
        ),
        !email_accepted(normalized(email@)) ==> r == Err::<RegisteredCredential, _>(
            RegisterError::InvalidInput,
        ),
        !password_length_ok(password@) ==> r == Err::<RegisteredCredential, _>(
            RegisterError::InvalidInput,
        ),
        (forall|year: int|
            zxcvbn_score(password@, Seq::empty(), year) < ZXCVBN_THRESHOLD) ==> r == Err::<
            RegisteredCredential,
            _,
        >(RegisterError::InvalidInput),
        r matches Ok(c) ==> c.email@ == normalized(email@) && argon2_verifies(password@, c.hash@)
            && password@ == password2@ && email_accepted(normalized(email@)) && (exists|year: int|
            password_strong(password@, Seq::empty(), year)),
        r == Err::<RegisteredCredential, _>(RegisterError::HashingFailed) ==> password@
            == password2@ && email_accepted(normalized(email@)) && (exists|year: int|
            password_strong(password@, Seq::empty(), year)),
{
    let email_n = normalize_identifier(email.as_str());
    let passwords_match = *password == *password2;
    let email_ok = is_email_valid(&email_n);
    let password_ok = is_password_valid(password);
    if !passwords_match || !email_ok || !password_ok {
        return Err(RegisterError::InvalidInput);
    }
    match hash_password(password.as_str()) {
        Ok(hash) => Ok(RegisteredCredential { email: email_n, hash }),
        Err(_) => Err(RegisterError::HashingFailed),
    }
}

/// A stored account's credential material, as the account collaborator
/// hands it over: the password hash and whether the account is verified.
#[derive(Debug, Clone, PartialEq, Eq)]
pub struct StoredAccount {
    pub hash: String,
    pub verified: bool,
}

/// Decides a login attempt with constant effort. When an account was
/// found, the submitted password is verified against its hash and the
/// account must be verified; when none was found, the same verification
/// is run against the decoy hash before denying, so that an unknown
/// identifier costs the same as a wrong password.
pub fn check_login(stored: Option<&StoredAccount>, password: &String, hasher: &CredentialHasher) -> (r:
    bool)
    ensures
        match stored {
            Some(a) => r == (a.verified && argon2_verifies(password@, a.hash@)),
            None => !r,
        },
{
    match stored {
        Option::Some(account) => account.verified && verify_password(
            password.as_str(),
            account.hash.as_str(),
        ),
        Option::None => {
            let _ = verify_password(password.as_str(), hasher.default_hash().as_str());
            false
        },
    }
}

/// Why a login request is refused.
#[derive(Debug, Clone, Copy, PartialEq, Eq, Structural)]
pub enum LoginError {
    /// No account matches, the account is unverified, or the password is
    /// wrong; reported uniformly.
    InvalidCredentials,
}

/// Decides a login request: checks the credentials with constant effort
/// and, on success, mints a refresh token for the subject.
pub fn login_request(
    stored: Option<&StoredAccount>,
    subject: &String,
    password: &String,
    hasher: &CredentialHasher,
    tokens: &TokenService,
) -> (r: Result<String, LoginError>)
    ensures
        (match stored {
            Some(a) => !(a.verified && argon2_verifies(password@, a.hash@)),
            None => true,
        }) ==> r == Err::<String, _>(LoginError::InvalidCredentials),
        (stored matches Some(a) && a.verified && argon2_verifies(password@, a.hash@)) ==> r is Ok,
        r is Err ==> (match stored {
            Some(a) => !(a.verified && argon2_verifies(password@, a.hash@)),
            None => true,
        }),
        r matches Ok(t) ==> stored matches Some(a) && a.verified && argon2_verifies(
            password@,
            a.hash@,
        ) && (exists|now: u64|
            jwt_payload(t@) == Some(
                ClaimsModel {
                    sub: subject@,
                    role: Role::Refresh,
                    exp: spec_expiry(Role::Refresh, now),
                    nbf: now,
                    iat: now,
                },
            ) && jwt_signed(t@, tokens.secret_for(Role::Refresh))),
{
    if !check_login(stored, password, hasher) {
        return Err(LoginError::InvalidCredentials);
    }
    Ok(tokens.create(subject.as_str(), Role::Refresh).unwrap())
}

/// Why an access-token request is refused.
#[derive(Debug, Clone, PartialEq, Eq)]
pub enum RefreshError {
    /// The presented refresh token did not validate; carries the exact
    /// validation outcome.
    NotAuthenticated(VerifyOutcome),
}

/// Decides an access-token request: the presented refresh token is
/// validated as of the instant `now`, and for a valid one an access
/// token is minted for the same subject, stamped `now`.
pub fn refresh_access_at(tokens: &TokenService, refresh_token: &str, now: u64) -> (r: Result<
    String,
    RefreshError,
>)
    ensures
        !(verify_model(
            jwt_payload(refresh_token@),
            jwt_signed(refresh_token@, tokens.secret_for(Role::Refresh)),
            Role::Refresh,
            now,
        ) is Valid) ==> (r matches Err(e) && e matches RefreshError::NotAuthenticated(o) && o@
            == verify_model(
            jwt_payload(refresh_token@),
            jwt_signed(refresh_token@, tokens.secret_for(Role::Refresh)),
            Role::Refresh,
            now,
        )),
        verify_model(
            jwt_payload(refresh_token@),
            jwt_signed(refresh_token@, tokens.secret_for(Role::Refresh)),
            Role::Refresh,
            now,
        ) is Valid ==> r is Ok,
        r matches Ok(t) ==> (verify_model(
            jwt_payload(refresh_token@),
            jwt_signed(refresh_token@, tokens.secret_for(Role::Refresh)),
            Role::Refresh,
            now,
        ) matches OutcomeModel::Valid(sub) && jwt_payload(t@) == Some(
            ClaimsModel {
                sub,
                role: Role::Access,
                exp: spec_expiry(Role::Access, now),
                nbf: now,
                iat: now,
            },
        ) && jwt_signed(t@, tokens.secret_for(Role::Access))),
{
    match tokens.verify_at(refresh_token, Role::Refresh, now) {
        VerifyOutcome::Valid(subject) => Ok(
            tokens.create_at(subject.as_str(), Role::Access, now).unwrap(),
        ),
        outcome => Err(RefreshError::NotAuthenticated(outcome)),
    }
}

/// Why a password change request is refused.
#[derive(Debug, Clone, Copy, PartialEq, Eq, Structural)]
pub enum ChangePasswordError {
    /// The anti-forgery check failed; no detail on which sub-check.
    CsrfRejected,
    /// The two new passwords differ.
    PasswordMismatch,
    /// The new password equals the old one.
    SameAsOld,
    /// The new password is too weak.
    WeakPassword,
    /// The old password does not match the stored hash.
    WrongOldPassword,
    /// Hash derivation failed: a fatal configuration error.
    HashingFailed,
}

/// Decides a password change request: the session's anti-forgery token
/// must accept the submitted one at `now`, the two new passwords must
/// match, differ from the old one and be strong, and the old password
/// must verify against the stored hash; the accepted new password is
/// hashed. Storing the new hash stays with the caller. Every error is
/// tied below to the check that raises it; success on a fully valid
/// request cannot be promised, because the strength estimator and the
/// hash derivation are outside calls that may refuse.
pub fn change_password_request(
    csrf: &SessionCsrf,
    submitted_csrf: &String,
    now: u64,
    old_password: &String,
    new_password: &String,
    new_password2: &String,
    stored_hash: &String,
) -> (r: Result<String, ChangePasswordError>)
    ensures
        !csrf_accepts(csrf.pending, submitted_csrf@, now) ==> r == Err::<String, _>(
            ChangePasswordError::CsrfRejected,
        ),
        csrf_accepts(csrf.pending, submitted_csrf@, now) && new_password@ != new_password2@ ==> r
            == Err::<String, _>(ChangePasswordError::PasswordMismatch),
        csrf_accepts(csrf.pending, submitted_csrf@, now) && new_password@ == new_password2@
            && new_password@ == old_password@ ==> r == Err::<String, _>(
            ChangePasswordError::SameAsOld,
        ),
        csrf_accepts(csrf.pending, submitted_csrf@, now) && new_password@ == new_password2@
            && new_password@ != old_password@ && !password_length_ok(new_password@) ==> r == Err::<
            String,
            _,
        >(ChangePasswordError::WeakPassword),
        csrf_accepts(csrf.pending, submitted_csrf@, now) && new_password@ == new_password2@
            && new_password@ != old_password@ && (forall|year: int|
            zxcvbn_score(new_password@, Seq::empty(), year) < ZXCVBN_THRESHOLD) ==> r == Err::<
            String,
            _,
        >(ChangePasswordError::WeakPassword),
        r == Err::<String, _>(ChangePasswordError::CsrfRejected) ==> !csrf_accepts(
            csrf.pending,
            submitted_csrf@,
            now,
        ),
        r == Err::<String, _>(ChangePasswordError::PasswordMismatch) ==> csrf_accepts(
            csrf.pending,
            submitted_csrf@,
            now,
        ) && new_password@ != new_password2@,
        r == Err::<String, _>(ChangePasswordError::SameAsOld) ==> csrf_accepts(
            csrf.pending,
            submitted_csrf@,
            now,
        ) && new_password@ == new_password2@ && new_password@ == old_password@,
        r == Err::<String, _>(ChangePasswordError::WeakPassword) ==> csrf_accepts(
            csrf.pending,
            submitted_csrf@,
            now,
        ) && new_password@ == new_password2@ && new_password@ != old_password@,
        r == Err::<String, _>(ChangePasswordError::WrongOldPassword) ==> csrf_accepts(
            csrf.pending,
            submitted_csrf@,
            now,
        ) && new_password@ == new_password2@ && new_password@ != old_password@
            && !argon2_verifies(old_password@, stored_hash@),
        r matches Ok(h) ==> csrf_accepts(csrf.pending, submitted_csrf@, now) && new_password@
            == new_password2@ && new_password@ != old_password@ && (exists|year: int|
            password_strong(new_password@, Seq::empty(), year)) && argon2_verifies(
            old_password@,
            stored_hash@,
        ) && argon2_verifies(new_password@, h@),
        r == Err::<String, _>(ChangePasswordError::HashingFailed) ==> csrf_accepts(
            csrf.pending,
            submitted_csrf@,
            now,
        ) && new_password@ == new_password2@ && new_password@ != old_password@
            && argon2_verifies(old_password@, stored_hash@),
{
    if !csrf.validate_at(submitted_csrf, now) {
        return Err(ChangePasswordError::CsrfRejected);
    }
    if *new_password != *new_password2 {
        return Err(ChangePasswordError::PasswordMismatch);
    }
    if *new_password == *old_password {
        return Err(ChangePasswordError::SameAsOld);
    }
    if !is_password_valid(new_password) {
        return Err(ChangePasswordError::WeakPassword);
    }
    if !verify_password(old_password.as_str(), stored_hash.as_str()) {
        return Err(ChangePasswordError::WrongOldPassword);
    }
    match hash_password(new_password.as_str()) {
        Ok(h) => Ok(h),
        Err(_) => Err(ChangePasswordError::HashingFailed),
    }
}

/// Why a signup on the review platform is refused.
#[derive(Debug, Clone, Copy, PartialEq, Eq, Structural)]
pub enum SignupError {
    /// The normalized username's length is out of bounds.
    InvalidUsername,
    /// The password is too weak in the context of this username.
    WeakPassword,
    /// Hash derivation failed: a fatal configuration error.
    HashingFailed,
    /// The normalized owned establishment's length is out of bounds.
    InvalidEstablishment,
    /// The normalized username is already taken.
    UsernameTaken,
}

/// A role with its owned establishment normalized; other roles unchanged.
pub open spec fn spec_normalized_role(role: crate::authz::RoleModel) -> crate::authz::RoleModel {
    match role {
        crate::authz::RoleModel::Owner(e) => crate::authz::RoleModel::Owner(normalized(e)),
        r => r,
    }
}

/// Decides a signup on the review platform: the username is normalized
/// and must have an accepted length, the password must be strong in the
/// context of the username, an owner's establishment is normalized and
/// must have an accepted length, and the username must be free; the
/// accepted account is stored with the password hashed. Each rejection
/// is pinned below; acceptance cannot be promised, because the strength
/// estimator and the hash derivation are outside calls that may refuse.
pub fn register_user(db: &mut Database, username: &String, password: &String, role: UserRole) -> (r:
    Result<User, SignupError>)
    requires
        old(db).wf(),
    ensures
        final(db).wf(),
        r is Err ==> final(db)@ == old(db)@,
        !username_length_ok(normalized(username@)) ==> r == Err::<User, _>(
            SignupError::InvalidUsername,
        ),
        username_length_ok(normalized(username@)) && !password_length_ok(password@) ==> r == Err::<
            User,
            _,
        >(SignupError::WeakPassword),
        username_length_ok(normalized(username@)) && (forall|year: int|
            zxcvbn_score(password@, seq![normalized(username@)], year) < ZXCVBN_THRESHOLD) ==> r
            == Err::<User, _>(SignupError::WeakPassword),
        r == Err::<User, _>(SignupError::InvalidUsername) ==> !username_length_ok(
            normalized(username@),
        ),
        r == Err::<User, _>(SignupError::WeakPassword) ==> username_length_ok(
            normalized(username@),
        ),
        r == Err::<User, _>(SignupError::InvalidEstablishment) ==> (role@ matches
            crate::authz::RoleModel::Owner(e) && !establishment_length_ok(normalized(e)))
            && username_length_ok(normalized(username@)),
        r == Err::<User, _>(SignupError::UsernameTaken) ==> spec_has_user(
            old(db)@.users,
            normalized(username@),
        ),
        r matches Ok(u) ==> {
            &&& u@.name == normalized(username@)
            &&& argon2_verifies(password@, u@.password)
            &&& u@.role == spec_normalized_role(role@)
            &&& (exists|year: int| password_strong(password@, seq![normalized(username@)], year))
            &&& !spec_has_user(old(db)@.users, normalized(username@))
            &&& final(db)@.users == old(db)@.users.push(u@)
            &&& final(db)@.reviews == old(db)@.reviews
        },
{
    let name = normalize_identifier(username.as_str());
    if !is_username_length_valid(name.as_str()) {
        return Err(SignupError::InvalidUsername);
    }
    if !crate::input_rules::is_password_valid(name.as_str(), password.as_str()) {
        return Err(SignupError::WeakPassword);
    }
    let normalized_role = match role {
        UserRole::Owner { owned_establishment } => {
            let e = normalize_identifier(owned_establishment.as_str());
            if !is_establishment_length_valid(e.as_str()) {
                return Err(SignupError::InvalidEstablishment);
            }
            UserRole::Owner { owned_establishment: e }
        },
        other => other,
    };
    let hash = match hash_password(password.as_str()) {
        Ok(h) => h,
        Err(_) => return Err(SignupError::HashingFailed),
    };
    let user = User::new(name.as_str(), hash.as_str(), normalized_role);
    match user.save(db) {
        Ok(_) => Ok(user),
        Err(_) => Err(SignupError::UsernameTaken),
    }
}

/// Whether some stored account bears this name and verifies this
/// password.
pub open spec fn spec_login_ok(
    users: Seq<crate::store::UserModel>,
    name: Seq<char>,
    password: Seq<char>,
) -> bool {
    exists|i: int|
        0 <= i < users.len() && (#[trigger] users[i]).name == name && argon2_verifies(
            password,
            users[i].password,
        )
}

/// Decides a login on the review platform with constant effort: the
/// username is normalized and looked up; when an account was found the
/// password is verified against its hash, and when none was found the
/// same verification is run against the decoy hash before denying.
pub fn login_user(db: &Database, username: &String, password: &String, hasher: &CredentialHasher) -> (r:
    Option<User>)
    requires
        db.wf(),
    ensures
        match r {
            Some(u) => db@.users.contains(u@) && u@.name == normalized(username@)
                && argon2_verifies(password@, u@.password),
            None => !spec_login_ok(db@.users, normalized(username@), password@),
        },
{
    let name = normalize_identifier(username.as_str());
    match User::get(db, name.as_str()) {
        Option::Some(u) => {
            if verify_password(password.as_str(), u.password.as_str()) {
                Some(u)
            } else {
                proof {
                    assert forall|i: int|
                        0 <= i < db@.users.len() implies !((#[trigger] db@.users[i]).name
                        == normalized(username@) && argon2_verifies(
                        password@,
                        db@.users[i].password,
                    )) by {
                        let m = choose|j: int|
                            0 <= j < db@.users.len() && db@.users[j] == u@;
                        if db@.users[i].name == normalized(username@) {
                            assert(db@.users[i] == db@.users[m]);
                        }
                    }
                }
                None
            }
        },
        Option::None => {
            let _ = verify_password(password.as_str(), hasher.default_hash().as_str());
            None
        },
    }
}

/// Why a review operation is refused.
#[derive(Debug, Clone, Copy, PartialEq, Eq, Structural)]
pub enum ReviewError {
    /// The normalized establishment's length is out of bounds.
    InvalidEstablishment,
    /// The policy denies the action.
    NotAuthorized,
    /// The comment's length is out of bounds.
    InvalidComment,
    /// The grade is out of bounds.
    InvalidGrade,
    /// The principal already reviewed this establishment.
    AlreadyReviewed,
    /// The normalized author name's length is out of bounds.
    InvalidAuthor,
    /// No review bears this author and establishment.
    NotFound,
}

/// Decides a request to add a review: the establishment is normalized
/// and must have an accepted length, the policy must allow the principal
/// to write there, the comment and grade must be within bounds, and the
/// principal must not have reviewed the establishment yet; the accepted
/// review is stored.
pub fn add_review_request(
    db: &mut Database,
    user: &User,
    establishment: &String,
    comment: &String,
    grade: u8,
) -> (r: Result<Review, ReviewError>)
    requires
        old(db).wf(),
    ensures
        final(db).wf(),
        r is Err ==> final(db)@ == old(db)@,
        !establishment_length_ok(normalized(establishment@)) ==> r == Err::<Review, _>(
            ReviewError::InvalidEstablishment,
        ),
        establishment_length_ok(normalized(establishment@)) && !spec_policy_allows(
            spec_default_rules(),
            user@.role,
            normalized(establishment@),
            Action::Write,
        ) ==> r == Err::<Review, _>(ReviewError::NotAuthorized),
        establishment_length_ok(normalized(establishment@)) && spec_policy_allows(
            spec_default_rules(),
            user@.role,
            normalized(establishment@),
            Action::Write,
        ) && !comment_length_ok(comment@) ==> r == Err::<Review, _>(ReviewError::InvalidComment),
        establishment_length_ok(normalized(establishment@)) && spec_policy_allows(
            spec_default_rules(),
            user@.role,
            normalized(establishment@),
            Action::Write,
        ) && comment_length_ok(comment@) && !grade_ok(grade) ==> r == Err::<Review, _>(
            ReviewError::InvalidGrade,
        ),
        establishment_length_ok(normalized(establishment@)) && spec_policy_allows(
            spec_default_rules(),
            user@.role,
            normalized(establishment@),
            Action::Write,
        ) && comment_length_ok(comment@) && grade_ok(grade) && spec_has_review(
            old(db)@.reviews,
            user@.name,
            normalized(establishment@),
        ) ==> r == Err::<Review, _>(ReviewError::AlreadyReviewed),
        establishment_length_ok(normalized(establishment@)) && spec_policy_allows(
            spec_default_rules(),
            user@.role,
            normalized(establishment@),
            Action::Write,
        ) && comment_length_ok(comment@) && grade_ok(grade) && !spec_has_review(
            old(db)@.reviews,
            user@.name,
            normalized(establishment@),
        ) ==> r is Ok,
        r == Err::<Review, _>(ReviewError::AlreadyReviewed) ==> spec_has_review(
            old(db)@.reviews,
            user@.name,
            normalized(establishment@),
        ),
        r matches Ok(v) ==> {
            &&& v@.establishment == normalized(establishment@)
            &&& v@.reviewer == user@.name
            &&& v@.comment == comment@
            &&& v@.grade == grade
            &&& establishment_length_ok(normalized(establishment@))
            &&& spec_policy_allows(
                spec_default_rules(),
                user@.role,
                normalized(establishment@),
                Action::Write,
            )
            &&& comment_length_ok(comment@)
            &&& grade_ok(grade)
            &&& !spec_has_review(old(db)@.reviews, user@.name, normalized(establishment@))
            &&& final(db)@.reviews == old(db)@.reviews.push(v@)
            &&& final(db)@.users == old(db)@.users
        },
{
    let est = normalize_identifier(establishment.as_str());
    if !is_establishment_length_valid(est.as_str()) {
        return Err(ReviewError::InvalidEstablishment);
    }
    if !check_permission(&user.role, est.as_str(), Action::Write) {
        return Err(ReviewError::NotAuthorized);
    }
    if !is_comment_length_valid(comment.as_str()) {
        return Err(ReviewError::InvalidComment);
    }
    if !is_grade_valid(grade) {
        return Err(ReviewError::InvalidGrade);
    }
    let review = Review::new(est.as_str(), user.name.as_str(), comment.as_str(), grade);
    match review.save(db) {
        Ok(_) => Ok(review),
        Err(_) => Err(ReviewError::AlreadyReviewed),
    }
}

/// Decides a request to list one's own reviews: the policy must allow
/// the principal to read their own authored content; the reviews by the
/// principal are returned in store order.
pub fn list_own_reviews_request(db: &Database, user: &User) -> (r: Result<Vec<Review>, ReviewError>)
    ensures
        !spec_policy_allows(spec_default_rules(), user@.role, ""@, Action::ReadOwn) ==> r == Err::<
            Vec<Review>,
            _,
        >(ReviewError::NotAuthorized),
        spec_policy_allows(spec_default_rules(), user@.role, ""@, Action::ReadOwn) ==> r is Ok,
        r matches Ok(v) ==> spec_policy_allows(spec_default_rules(), user@.role, ""@, Action::ReadOwn)
            && review_models(v@) =~= db@.reviews.filter(by_reviewer(user@.name)),
{
    if !check_permission(&user.role, "", Action::ReadOwn) {
        return Err(ReviewError::NotAuthorized);
    }
    Ok(Review::written_by(db, user.name.as_str()))
}

/// Decides a request to list an establishment's reviews: the
/// establishment is normalized and must have an accepted length, and the
/// policy must allow the principal to read there; the establishment's
/// reviews are returned in store order.
pub fn list_establishment_reviews_request(db: &Database, user: &User, establishment: &String) -> (r:
    Result<Vec<Review>, ReviewError>)
    ensures
        !establishment_length_ok(normalized(establishment@)) ==> r == Err::<Vec<Review>, _>(
            ReviewError::InvalidEstablishment,
        ),
        establishment_length_ok(normalized(establishment@)) && !spec_policy_allows(
            spec_default_rules(),
            user@.role,
            normalized(establishment@),
            Action::Read,
        ) ==> r == Err::<Vec<Review>, _>(ReviewError::NotAuthorized),
        establishment_length_ok(normalized(establishment@)) && spec_policy_allows(
            spec_default_rules(),
            user@.role,
            normalized(establishment@),
            Action::Read,
        ) ==> r is Ok,
        r matches Ok(v) ==> establishment_length_ok(normalized(establishment@))
            && spec_policy_allows(
            spec_default_rules(),
            user@.role,
            normalized(establishment@),
            Action::Read,
        ) && review_models(v@) =~= db@.reviews.filter(of_establishment(normalized(establishment@))),
{
    let est = normalize_identifier(establishment.as_str());
    if !is_establishment_length_valid(est.as_str()) {
        return Err(ReviewError::InvalidEstablishment);
    }
    if !check_permission(&user.role, est.as_str(), Action::Read) {
        return Err(ReviewError::NotAuthorized);
    }
    Ok(Review::of(db, est.as_str()))
}

/// Decides a request to delete a review: the establishment and the
/// author name are normalized and must have accepted lengths, the policy
/// must allow the principal to delete there, and the review must exist;
/// it is removed from the store and returned.
pub fn delete_review_request(
    db: &mut Database,
    user: &User,
    establishment: &String,
    author: &String,
) -> (r: Result<Review, ReviewError>)
    requires
        old(db).wf(),
    ensures
        final(db).wf(),
        r is Err ==> final(db)@ == old(db)@,
        !establishment_length_ok(normalized(establishment@)) ==> r == Err::<Review, _>(
            ReviewError::InvalidEstablishment,
        ),
        establishment_length_ok(normalized(establishment@)) && !spec_policy_allows(
            spec_default_rules(),
            user@.role,
            normalized(establishment@),
            Action::Delete,
        ) ==> r == Err::<Review, _>(ReviewError::NotAuthorized),
        establishment_length_ok(normalized(establishment@)) && spec_policy_allows(
            spec_default_rules(),
            user@.role,
            normalized(establishment@),
            Action::Delete,
        ) && !username_length_ok(normalized(author@)) ==> r == Err::<Review, _>(
            ReviewError::InvalidAuthor,
        ),
        establishment_length_ok(normalized(establishment@)) && spec_policy_allows(
            spec_default_rules(),
            user@.role,
            normalized(establishment@),
            Action::Delete,
        ) && username_length_ok(normalized(author@)) && !spec_has_review(
            old(db)@.reviews,
            normalized(author@),
            normalized(establishment@),
        ) ==> r == Err::<Review, _>(ReviewError::NotFound),
        establishment_length_ok(normalized(establishment@)) && spec_policy_allows(
            spec_default_rules(),
            user@.role,
            normalized(establishment@),
            Action::Delete,
        ) && username_length_ok(normalized(author@)) && spec_has_review(
            old(db)@.reviews,
            normalized(author@),
            normalized(establishment@),
        ) ==> r is Ok,
        r == Err::<Review, _>(ReviewError::NotFound) ==> !spec_has_review(
            old(db)@.reviews,
            normalized(author@),
            normalized(establishment@),
        ),
        r matches Ok(v) ==> {
            &&& old(db)@.reviews.contains(v@)
            &&& v@.reviewer == normalized(author@)
            &&& v@.establishment == normalized(establishment@)
            &&& spec_policy_allows(
                spec_default_rules(),
                user@.role,
                normalized(establishment@),
                Action::Delete,
            )
            &&& final(db)@.reviews =~= old(db)@.reviews.filter(
                not_review_key(normalized(author@), normalized(establishment@)),
            )
            &&& final(db)@.users == old(db)@.users
        },
{
    let est = normalize_identifier(establishment.as_str());
    if !is_establishment_length_valid(est.as_str()) {
        return Err(ReviewError::InvalidEstablishment);
    }
    if !check_permission(&user.role, est.as_str(), Action::Delete) {
        return Err(ReviewError::NotAuthorized);
    }
    let name = normalize_identifier(author.as_str());
    if !is_username_length_valid(name.as_str()) {
        return Err(ReviewError::InvalidAuthor);
    }
    match Review::get(db, name.as_str(), est.as_str()) {
        Option::Some(review) => {
            review.delete(db);
            Ok(review)
        },
        Option::None => Err(ReviewError::NotFound),
    }
}

} // verus!
