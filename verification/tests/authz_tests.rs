use auth_core::authz::{check_permission, Action, UserRole};

fn owner(establishment: &str) -> UserRole {
    UserRole::Owner { owned_establishment: establishment.to_string() }
}

#[test]
fn reviewer_can_read_own_anywhere() {
    assert!(check_permission(&UserRole::Reviewer, "notMyEstablishment", Action::ReadOwn));
    assert!(check_permission(&UserRole::Reviewer, "", Action::ReadOwn));
}

#[test]
fn reviewer_can_write() {
    assert!(check_permission(&UserRole::Reviewer, "notMyEstablishment", Action::Write));
}

#[test]
fn reviewer_cannot_read_establishment_reviews() {
    assert!(!check_permission(&UserRole::Reviewer, "notMyEstablishment", Action::Read));
}

#[test]
fn reviewer_cannot_delete() {
    assert!(!check_permission(&UserRole::Reviewer, "notMyEstablishment", Action::Delete));
}

#[test]
fn owner_can_read_own_anywhere() {
    assert!(check_permission(&owner("myEstablishment"), "notMyEstablishment", Action::ReadOwn));
}

#[test]
fn owner_cannot_write_on_own_establishment() {
    assert!(!check_permission(&owner("myEstablishment"), "myEstablishment", Action::Write));
}

#[test]
fn owner_can_write_elsewhere() {
    assert!(check_permission(&owner("myEstablishment"), "notMyEstablishment", Action::Write));
}

#[test]
fn owner_can_read_own_establishment_reviews() {
    assert!(check_permission(&owner("myEstablishment"), "myEstablishment", Action::Read));
}

#[test]
fn owner_cannot_read_other_establishment_reviews() {
    assert!(!check_permission(&owner("myEstablishment"), "notMyEstablishment", Action::Read));
}

#[test]
fn owner_cannot_delete() {
    assert!(!check_permission(&owner("myEstablishment"), "notMyEstablishment", Action::Delete));
    assert!(!check_permission(&owner("myEstablishment"), "myEstablishment", Action::Delete));
}

#[test]
fn admin_is_allowed_everything() {
    assert!(check_permission(&UserRole::Admin, "notMyEstablishment", Action::ReadOwn));
    assert!(check_permission(&UserRole::Admin, "notMyEstablishment", Action::Write));
    assert!(check_permission(&UserRole::Admin, "notMyEstablishment", Action::Read));
    assert!(check_permission(&UserRole::Admin, "notMyEstablishment", Action::Delete));
    assert!(check_permission(&UserRole::Admin, "", Action::Delete));
}
