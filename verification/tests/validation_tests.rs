use auth_core::input_rules::{
    is_comment_length_valid, is_establishment_length_valid, is_grade_valid,
    is_username_length_valid, COMMENT_MAX_LENGTH, ESTABLISHMENT_MAX_LENGTH, USERNAME_MAX_LENGTH,
};
use auth_core::text::normalize_identifier;
use auth_core::validation::{is_email_valid, is_password_valid};

fn password_valid(p: &str) -> bool {
    is_password_valid(&p.to_string())
}

#[test]
fn password_validation_test() {
    assert!(!password_valid("zxcvbn"));
    assert!(!password_valid("qwER43@!"));
    assert!(!password_valid("Tr0ub4dour&3"));
    assert!(password_valid("correcthorsebatterystaple"));
    assert!(password_valid("coRrecth0rseba++ery9.23.2007staple$"));
    assert!(!password_valid(""));
    assert!(!password_valid("pässwörd"));
    assert!(password_valid("a b c 1 2 3"));
}

fn email_valid(e: &str) -> bool {
    is_email_valid(&e.to_string())
}

#[test]
fn mail_regex_test() {
    assert!(!email_valid("toto"));
    assert!(email_valid("filipe.fortunato@heig-vd.ch"));
    assert!(email_valid("fabio@disapproved.solutions"));
    assert!(!email_valid("john@aol...com"));
    assert!(!email_valid("unit@test"));
    assert!(!email_valid("unit@test."));
    assert!(!email_valid("UNIT@TEST.COM"));
    assert!(email_valid("123@unit.test"));
    assert!(!email_valid(""));
}

#[test]
fn password_validation_with_username_test() {
    let cases: [(&str, &str, bool); 9] = [
        ("username", "zxcvbn", false),
        ("username", "qwER43@!", false),
        ("username", "Tr0ub4dour&3", false),
        ("username", "correcthorsebatterystaple", true),
        ("username", "coRrecth0rseba++ery9.23.2007staple$", true),
        ("username", "", false),
        ("username", "pässwörd", false),
        ("username", "a b c 1 2 3", true),
        ("Tr0ub4dour&3", "Tr0ub4dour&3", false),
    ];
    for (username, password, expected) in cases {
        assert_eq!(
            auth_core::input_rules::is_password_valid(username, password),
            expected,
            "{username} / {password}"
        );
    }
}

#[test]
fn grade_validation_test() {
    assert!(!is_grade_valid(0));
    assert!(is_grade_valid(1));
    assert!(is_grade_valid(2));
    assert!(is_grade_valid(3));
    assert!(is_grade_valid(4));
    assert!(is_grade_valid(5));
    assert!(!is_grade_valid(6));
}

#[test]
fn comment_validation_test() {
    assert!(!is_comment_length_valid(""));
    assert!(is_comment_length_valid("a"));
    assert!(is_comment_length_valid(&"a".repeat(COMMENT_MAX_LENGTH)));
    assert!(!is_comment_length_valid(&"a".repeat(COMMENT_MAX_LENGTH + 1)));
}

#[test]
fn username_validation_test() {
    assert!(!is_username_length_valid(""));
    assert!(is_username_length_valid("a"));
    assert!(is_username_length_valid(&"a".repeat(USERNAME_MAX_LENGTH)));
    assert!(!is_username_length_valid(&"a".repeat(USERNAME_MAX_LENGTH + 1)));
}

#[test]
fn establishment_validation_test() {
    assert!(!is_establishment_length_valid(""));
    assert!(is_establishment_length_valid("a"));
    assert!(is_establishment_length_valid(&"a".repeat(ESTABLISHMENT_MAX_LENGTH)));
    assert!(!is_establishment_length_valid(&"a".repeat(ESTABLISHMENT_MAX_LENGTH + 1)));
}

#[test]
fn normalization_trims_and_lowercases() {
    assert_eq!(normalize_identifier("  Unit@Test.COM \n"), "unit@test.com");
    assert_eq!(normalize_identifier("McDonalds"), "mcdonalds");
    assert_eq!(normalize_identifier("   "), "");
    assert_eq!(normalize_identifier(""), "");
    assert_eq!(normalize_identifier("a b"), "a b");
    assert_eq!(normalize_identifier("\tAbC1!\r"), "abc1!");
}
