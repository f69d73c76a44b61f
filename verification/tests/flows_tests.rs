use auth_core::authz::UserRole;
use auth_core::credentials::{verify_password, CredentialHasher};
use auth_core::csrf::SessionCsrf;
use auth_core::flows::{
    add_review_request, change_password_request, check_login, delete_review_request,
    list_establishment_reviews_request, list_own_reviews_request, login_request, login_user,
    register_request, register_user, ChangePasswordError, LoginError, RegisterError, ReviewError,
    SignupError, StoredAccount,
};
use auth_core::store::{Database, User};
use auth_core::token::{Role, TokenService, VerifyOutcome};

const NOW: u64 = 1_700_000_000;

fn seeded() -> Database {
    let mut db = Database::new();
    db.init();
    db
}

#[test]
fn register_then_login_end_to_end() {
    let email = "someone@unit.test".to_string();
    let password = "correcthorsebatterystaple".to_string();
    let credential = register_request(&email, &password, &password).unwrap();
    assert_eq!(credential.email, "someone@unit.test");
    assert!(verify_password("correcthorsebatterystaple", &credential.hash));
    assert!(!verify_password("Correcthorsebatterystaple1", &credential.hash));
}

#[test]
fn register_rejects_bad_input() {
    let password = "correcthorsebatterystaple".to_string();
    let other = "correcthorsebatterystapl3".to_string();
    assert_eq!(
        register_request(&"someone@unit.test".to_string(), &password, &other),
        Err(RegisterError::InvalidInput)
    );
    assert_eq!(
        register_request(&"not an email".to_string(), &password, &password),
        Err(RegisterError::InvalidInput)
    );
    let weak = "zxcvbn".to_string();
    assert_eq!(
        register_request(&"someone@unit.test".to_string(), &weak, &weak),
        Err(RegisterError::InvalidInput)
    );
}

#[test]
fn register_normalizes_email() {
    let password = "correcthorsebatterystaple".to_string();
    let credential =
        register_request(&"  Someone@Unit.TEST ".to_string(), &password, &password).unwrap();
    assert_eq!(credential.email, "someone@unit.test");
}

#[test]
fn unknown_identifier_still_costs_a_verification() {
    let hasher = CredentialHasher::setup().unwrap();
    assert!(!check_login(None, &"any password".to_string(), &hasher));
}

#[test]
fn login_request_mints_refresh_token() {
    let hasher = CredentialHasher::setup().unwrap();
    let tokens = TokenService::new(
        Some(b"access_secret".to_vec()),
        Some(b"refresh_secret".to_vec()),
    )
    .unwrap();
    let credential = register_request(
        &"ghost@test.com".to_string(),
        &"correcthorsebatterystaple".to_string(),
        &"correcthorsebatterystaple".to_string(),
    )
    .unwrap();
    let account = StoredAccount { hash: credential.hash, verified: true };
    let token = login_request(
        Some(&account),
        &"ghost@test.com".to_string(),
        &"correcthorsebatterystaple".to_string(),
        &hasher,
        &tokens,
    )
    .unwrap();
    assert_eq!(
        tokens.verify(&token, Role::Refresh),
        VerifyOutcome::Valid("ghost@test.com".to_string())
    );
    let denied = login_request(
        Some(&account),
        &"ghost@test.com".to_string(),
        &"wrong password 123".to_string(),
        &hasher,
        &tokens,
    );
    assert_eq!(denied.unwrap_err(), LoginError::InvalidCredentials);
    let unknown = login_request(
        None,
        &"ghost@test.com".to_string(),
        &"correcthorsebatterystaple".to_string(),
        &hasher,
        &tokens,
    );
    assert_eq!(unknown.unwrap_err(), LoginError::InvalidCredentials);
}

#[test]
fn unverified_account_cannot_login() {
    let hasher = CredentialHasher::setup().unwrap();
    let credential = register_request(
        &"person@unit.test".to_string(),
        &"correcthorsebatterystaple".to_string(),
        &"correcthorsebatterystaple".to_string(),
    )
    .unwrap();
    let account = StoredAccount { hash: credential.hash, verified: false };
    assert!(!check_login(Some(&account), &"correcthorsebatterystaple".to_string(), &hasher));
}

#[test]
fn change_password_happy_path() {
    let mut session = SessionCsrf::new();
    let csrf = session.issue_at(NOW);
    let stored = auth_core::credentials::hash_password("old horse battery staple").unwrap();
    let new_hash = change_password_request(
        &session,
        &csrf,
        NOW + 10,
        &"old horse battery staple".to_string(),
        &"brand new horse staple".to_string(),
        &"brand new horse staple".to_string(),
        &stored,
    )
    .unwrap();
    assert!(verify_password("brand new horse staple", &new_hash));
}

#[test]
fn change_password_rejects_bad_requests() {
    let mut session = SessionCsrf::new();
    let csrf = session.issue_at(NOW);
    let stored = auth_core::credentials::hash_password("old horse battery staple").unwrap();
    let old = "old horse battery staple".to_string();
    let new = "brand new horse staple".to_string();
    assert_eq!(
        change_password_request(&session, &"not the token".to_string(), NOW, &old, &new, &new, &stored),
        Err(ChangePasswordError::CsrfRejected)
    );
    assert_eq!(
        change_password_request(&session, &csrf, NOW + 601, &old, &new, &new, &stored),
        Err(ChangePasswordError::CsrfRejected)
    );
    assert_eq!(
        change_password_request(&session, &csrf, NOW, &old, &new, &"different".to_string(), &stored),
        Err(ChangePasswordError::PasswordMismatch)
    );
    assert_eq!(
        change_password_request(&session, &csrf, NOW, &old, &old, &old, &stored),
        Err(ChangePasswordError::SameAsOld)
    );
    assert_eq!(
        change_password_request(&session, &csrf, NOW, &old, &"zxcvbn".to_string(), &"zxcvbn".to_string(), &stored),
        Err(ChangePasswordError::WeakPassword)
    );
    assert_eq!(
        change_password_request(&session, &csrf, NOW, &"not the old one!".to_string(), &new, &new, &stored),
        Err(ChangePasswordError::WrongOldPassword)
    );
}

#[test]
fn signup_and_login_on_review_platform() {
    let mut db = seeded();
    let hasher = CredentialHasher::setup().unwrap();
    let user = register_user(
        &mut db,
        &" Alice ".to_string(),
        &"correcthorsebatterystaple".to_string(),
        UserRole::Reviewer,
    )
    .unwrap();
    assert_eq!(user.name, "alice");
    let back = login_user(&db, &"ALICE".to_string(), &"correcthorsebatterystaple".to_string(), &hasher)
        .unwrap();
    assert_eq!(back.name, "alice");
    assert!(login_user(&db, &"alice".to_string(), &"wrong password 123".to_string(), &hasher)
        .is_none());
    assert!(login_user(&db, &"nobody".to_string(), &"correcthorsebatterystaple".to_string(), &hasher)
        .is_none());
}

#[test]
fn signup_rejections() {
    let mut db = seeded();
    let strong = "correcthorsebatterystaple".to_string();
    assert_eq!(
        register_user(&mut db, &"  ".to_string(), &strong, UserRole::Reviewer).unwrap_err(),
        SignupError::InvalidUsername
    );
    assert_eq!(
        register_user(&mut db, &"bob".to_string(), &"zxcvbn".to_string(), UserRole::Reviewer)
            .unwrap_err(),
        SignupError::WeakPassword
    );
    assert_eq!(
        register_user(
            &mut db,
            &"bob".to_string(),
            &strong,
            UserRole::Owner { owned_establishment: "   ".to_string() },
        )
        .unwrap_err(),
        SignupError::InvalidEstablishment
    );
    assert_eq!(
        register_user(&mut db, &"Sire Debeugg".to_string(), &strong, UserRole::Reviewer)
            .unwrap_err(),
        SignupError::UsernameTaken
    );
}

#[test]
fn add_review_flow() {
    let mut db = seeded();
    let reviewer = db.get_user("sire debeugg").unwrap();
    let review = add_review_request(
        &mut db,
        &reviewer,
        &" Chez Marcel ".to_string(),
        &"Pas mal.".to_string(),
        3,
    )
    .unwrap();
    assert_eq!(review.establishment, "chez marcel");
    assert_eq!(review.reviewer, "sire debeugg");
    assert_eq!(
        add_review_request(&mut db, &reviewer, &"chez marcel".to_string(), &"bis".to_string(), 2)
            .unwrap_err(),
        ReviewError::AlreadyReviewed
    );
    assert_eq!(
        add_review_request(&mut db, &reviewer, &"autre lieu".to_string(), &"".to_string(), 2)
            .unwrap_err(),
        ReviewError::InvalidComment
    );
    assert_eq!(
        add_review_request(&mut db, &reviewer, &"autre lieu".to_string(), &"ok".to_string(), 6)
            .unwrap_err(),
        ReviewError::InvalidGrade
    );
    assert_eq!(
        add_review_request(&mut db, &reviewer, &"".to_string(), &"ok".to_string(), 2)
            .unwrap_err(),
        ReviewError::InvalidEstablishment
    );
    let owner = db.get_user("conte devvisse").unwrap();
    assert_eq!(
        add_review_request(&mut db, &owner, &"McDonalds".to_string(), &"super".to_string(), 5)
            .unwrap_err(),
        ReviewError::NotAuthorized
    );
    assert!(add_review_request(&mut db, &owner, &"ailleurs".to_string(), &"super".to_string(), 5)
        .is_ok());
}

#[test]
fn list_reviews_flows() {
    let db = seeded();
    let reviewer = db.get_user("sire debeugg").unwrap();
    let own = list_own_reviews_request(&db, &reviewer).unwrap();
    assert_eq!(own.len(), 3);
    assert_eq!(
        list_establishment_reviews_request(&db, &reviewer, &"mcdonalds".to_string()).unwrap_err(),
        ReviewError::NotAuthorized
    );
    let owner = db.get_user("conte devvisse").unwrap();
    let theirs = list_establishment_reviews_request(&db, &owner, &"McDonalds".to_string()).unwrap();
    assert_eq!(theirs.len(), 1);
    assert_eq!(theirs[0].comment, "À fuire !");
    assert_eq!(
        list_establishment_reviews_request(&db, &owner, &"bistrot des lutins".to_string())
            .unwrap_err(),
        ReviewError::NotAuthorized
    );
    let admin = db.get_user("thestrongestone").unwrap();
    assert_eq!(
        list_establishment_reviews_request(&db, &admin, &"bistrot des lutins".to_string())
            .unwrap()
            .len(),
        1
    );
}

#[test]
fn delete_review_flow() {
    let mut db = seeded();
    let reviewer = db.get_user("sire debeugg").unwrap();
    assert_eq!(
        delete_review_request(&mut db, &reviewer, &"mcdonalds".to_string(), &"sire debeugg".to_string())
            .unwrap_err(),
        ReviewError::NotAuthorized
    );
    let admin = db.get_user("thestrongestone").unwrap();
    assert_eq!(
        delete_review_request(&mut db, &admin, &"mcdonalds".to_string(), &"nobody".to_string())
            .unwrap_err(),
        ReviewError::NotFound
    );
    let removed = delete_review_request(
        &mut db,
        &admin,
        &"McDonalds".to_string(),
        &"Sire Debeugg".to_string(),
    )
    .unwrap();
    assert_eq!(removed.comment, "À fuire !");
    assert!(auth_core::store::Review::get(&db, "sire debeugg", "mcdonalds").is_none());
}

#[test]
fn seeded_passwords_verify() {
    let db = seeded();
    let user = db.get_user("sire debeugg").unwrap();
    assert!(verify_password("0n_d17_ch1ffr3r_3t_p4s_crypt3r", &user.password));
    assert!(!verify_password("wrong", &user.password));
}

#[test]
fn owner_user_struct_roundtrip() {
    let mut db = Database::new();
    let owner = User::new(
        "pat",
        "hash",
        UserRole::Owner { owned_establishment: "chez pat".to_string() },
    );
    assert_eq!(owner.save(&mut db), Ok(()));
    let back = User::get(&db, "pat").unwrap();
    match back.role {
        UserRole::Owner { owned_establishment } => assert_eq!(owned_establishment, "chez pat"),
        _ => panic!("expected an owner"),
    }
}
