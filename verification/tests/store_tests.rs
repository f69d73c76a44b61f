use auth_core::authz::UserRole;
use auth_core::store::{Database, Review, StoreError, User};

fn seeded() -> Database {
    let mut db = Database::new();
    db.init();
    db
}

#[test]
fn init_seeds_three_users() {
    let db = seeded();
    let reviewer = db.get_user("sire debeugg").unwrap();
    assert!(matches!(reviewer.role, UserRole::Reviewer));
    let owner = db.get_user("conte devvisse").unwrap();
    match owner.role {
        UserRole::Owner { owned_establishment } => assert_eq!(owned_establishment, "mcdonalds"),
        _ => panic!("expected an owner"),
    }
    let admin = db.get_user("thestrongestone").unwrap();
    assert!(matches!(admin.role, UserRole::Admin));
    assert!(db.get_user("nobody").is_none());
}

#[test]
fn init_seeds_four_reviews() {
    let db = seeded();
    assert_eq!(Review::written_by(&db, "sire debeugg").len(), 3);
    assert_eq!(Review::written_by(&db, "conte devvisse").len(), 1);
    assert_eq!(Review::of(&db, "mcdonalds").len(), 1);
    let review = Review::get(&db, "sire debeugg", "mcdonalds").unwrap();
    assert_eq!(review.grade, 1);
    assert_eq!(review.comment, "À fuire !");
}

#[test]
fn store_user_rejects_taken_name() {
    let mut db = seeded();
    let dup = User::new("sire debeugg", "hash", UserRole::Reviewer);
    assert_eq!(dup.save(&mut db), Err(StoreError::Duplicate));
    let fresh = User::new("newcomer", "hash", UserRole::Reviewer);
    assert_eq!(fresh.save(&mut db), Ok(()));
    assert!(db.get_user("newcomer").is_some());
}

#[test]
fn store_review_rejects_duplicate_key() {
    let mut db = seeded();
    let dup = Review::new("mcdonalds", "sire debeugg", "again", 3);
    assert_eq!(dup.save(&mut db), Err(StoreError::Duplicate));
    let other = Review::new("mcdonalds", "conte devvisse", "fine", 3);
    assert_eq!(other.save(&mut db), Ok(()));
    assert_eq!(Review::of(&db, "mcdonalds").len(), 2);
}

#[test]
fn delete_review_removes_exactly_one() {
    let mut db = seeded();
    let review = Review::get(&db, "sire debeugg", "mcdonalds").unwrap();
    review.delete(&mut db);
    assert!(Review::get(&db, "sire debeugg", "mcdonalds").is_none());
    assert_eq!(Review::written_by(&db, "sire debeugg").len(), 2);
    assert_eq!(Review::of(&db, "mcdonalds").len(), 0);
}

#[test]
fn default_user_is_blank_reviewer() {
    let user = User::default();
    assert_eq!(user.name, "");
    assert_eq!(user.password, "");
    assert!(matches!(user.role, UserRole::Reviewer));
}
