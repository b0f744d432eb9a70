//! Identifier generation and scrambling, date formatting, configuration
//! decisions, password handling and the user flows.

use yay_crm::conf::{get_log_level, set_env_vars, LogLevel};
use yay_crm::crud::{util_find_one, Table};
use yay_crm::errors::{ServiceErrorLocal, UserError};
use yay_crm::general::{get_uuid, shuffle_id};
use yay_crm::pwd::{default_password, pwd_hasher};
use yay_crm::time::{format_date_in_language, u32_to_dec_string, DateParts, Weekday};
use yay_crm::users::{create, delete_one, update_one, Roles, User, UserFromJson};

#[test]
fn generated_identifiers_are_plain_lower_hex() {
    let id = get_uuid();
    assert_eq!(id.len(), 32);
    assert!(id.chars().all(|c| matches!(c, '0'..='9' | 'a'..='f')));
    assert_ne!(get_uuid(), id);
}

#[test]
fn shuffle_keeps_length_and_characters() {
    let id = "abcdef0123456789".to_string();
    let scrambled = shuffle_id(id.clone());
    assert_eq!(scrambled.len(), id.len());
    let mut expected: Vec<char> = id.chars().collect();
    let mut got: Vec<char> = scrambled.chars().collect();
    expected.sort_unstable();
    got.sort_unstable();
    assert_eq!(got, expected);
}

#[test]
fn shuffle_of_one_character_is_that_character() {
    assert_eq!(shuffle_id("z".to_string()), "z");
}

#[test]
fn decimal_rendering_is_exact() {
    assert_eq!(u32_to_dec_string(0), "0");
    assert_eq!(u32_to_dec_string(7), "7");
    assert_eq!(u32_to_dec_string(10), "10");
    assert_eq!(u32_to_dec_string(2024), "2024");
    assert_eq!(u32_to_dec_string(4294967295), "4294967295");
}

#[test]
fn dates_format_in_both_languages() {
    let date = DateParts { year: 2024, month: 1, day: 5, weekday: Weekday::Mon, hour: 10, minute: 5 };
    assert_eq!(format_date_in_language(&date, "es"), "Lun, 5 de Enero de 2024, 10:5");
    assert_eq!(format_date_in_language(&date, "en"), "Mon, 5 de January de 2024, 10:5");
    // An unknown language falls back to English months and Spanish weekdays.
    assert_eq!(format_date_in_language(&date, "fr"), "Lun, 5 de January de 2024, 10:5");
}

#[test]
fn the_template_port_is_dropped_unless_the_setting_was_empty() {
    let conf = set_env_vars(
        "0.0.0.0".to_string(),
        "8080".to_string(),
        "http".to_string(),
        "0.0.0.0".to_string(),
        "9999".to_string(),
    );
    assert_eq!(conf.server_address, "0.0.0.0");
    assert_eq!(conf.server_port, "8080");
    assert_eq!(conf.hbs_target_port, "");
    let empty = set_env_vars(
        "a".to_string(),
        "b".to_string(),
        "c".to_string(),
        "d".to_string(),
        String::new(),
    );
    assert_eq!(empty.hbs_target_port, ":");
}

#[test]
fn log_levels_follow_the_setting() {
    assert_eq!(get_log_level("off"), LogLevel::Off);
    assert_eq!(get_log_level("error"), LogLevel::Error);
    assert_eq!(get_log_level("warn"), LogLevel::Warn);
    assert_eq!(get_log_level("info"), LogLevel::Info);
    assert_eq!(get_log_level("debug"), LogLevel::Debug);
    assert_eq!(get_log_level("trace"), LogLevel::Trace);
    assert_eq!(get_log_level("anything else"), LogLevel::Debug);
}

#[test]
fn service_errors_render_their_bodies() {
    assert_eq!(
        ServiceErrorLocal::InternalServerError.error_response(),
        "Internal Server Error, Please try later"
    );
    assert_eq!(ServiceErrorLocal::BadRequest("why".to_string()).error_response(), "why");
    assert_eq!(ServiceErrorLocal::JWKSFetchError.error_response(), "Could not fetch JWKS");
}

#[test]
fn password_hashing_produces_a_real_hash() {
    let hash = pwd_hasher("a strong password".to_string()).expect("hashing succeeds");
    assert!(hash.starts_with("$argon2"));
    let again = pwd_hasher("a strong password".to_string()).expect("hashing succeeds");
    assert_ne!(hash, again);
}

#[test]
fn the_fallback_password_names_the_identifier() {
    assert_eq!(default_password(&"abc".to_string()), "default_passwd_for_userabc");
}

fn sample_user() -> UserFromJson {
    UserFromJson {
        name: "Ana".to_string(),
        last_name: "Ruiz".to_string(),
        email: "ana@x.com".to_string(),
        role: Roles::ADMIN,
        notes: Some("first".to_string()),
        password: Some("0123456789abc".to_string()),
    }
}

#[test]
fn user_creation_hashes_the_password_and_labels_the_role() {
    let mut table: Table<User> = Table::new();
    let rec = create(&mut table, sample_user(), 50).expect("valid creation");
    assert_eq!(rec.fields.role_string.as_deref(), Some("ADMIN"));
    let stored_password = rec.fields.password.expect("a password is always stored");
    assert!(stored_password.starts_with("$argon2"));
    assert_eq!(rec.date_created, 50);
    assert_eq!(rec.date_modified, 50);
    assert!(!rec.deleted);
}

#[test]
fn user_creation_without_a_password_stores_the_fallback() {
    let mut table: Table<User> = Table::new();
    let mut user = sample_user();
    user.password = None;
    let rec = create(&mut table, user, 50).expect("valid creation");
    let stored_password = rec.fields.password.expect("a password is always stored");
    assert_eq!(stored_password, format!("default_passwd_for_user{}", rec.uuid));
}

#[test]
fn user_update_keeps_the_stored_password_when_none_is_submitted() {
    let mut table: Table<User> = Table::new();
    let rec = create(&mut table, sample_user(), 50).expect("valid creation");
    let old_password = rec.fields.password.clone().expect("stored");
    let body = User {
        name: "Ana".to_string(),
        last_name: "Ruiz".to_string(),
        email: "ana@x.com".to_string(),
        role: Roles::EDITOR,
        password: None,
        notes: Some("promoted".to_string()),
        role_string: None,
    };
    let updated = update_one(&mut table, &rec.uuid, body, false, 60).expect("present");
    assert_eq!(updated.fields.password.as_deref(), Some(old_password.as_str()));
    assert_eq!(updated.fields.role_string.as_deref(), Some("EDITOR"));
    assert_eq!(updated.date_created, 50);
    assert_eq!(updated.date_modified, 60);
}

#[test]
fn user_delete_soft_deletes_and_update_missing_reports_not_found() {
    let mut table: Table<User> = Table::new();
    let rec = create(&mut table, sample_user(), 50).expect("valid creation");
    let gone = delete_one(&mut table, &rec.uuid, 70).expect("present");
    assert!(gone.deleted);
    let direct = util_find_one(&table, &rec.uuid).expect("still retrievable");
    assert!(direct.deleted);

    let body = User {
        name: "Eva".to_string(),
        last_name: "Cruz".to_string(),
        email: "eva@x.com".to_string(),
        role: Roles::EDITOR,
        password: None,
        notes: None,
        role_string: None,
    };
    let outcome = update_one(&mut table, &"missing00".to_string(), body, false, 80);
    assert_eq!(outcome.unwrap_err(), UserError::NoUsersFound);
}
