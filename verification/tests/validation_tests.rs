//! Validation rules across the entities: which submissions pass, which field
//! constraints are reported, and the report lines built from them.

use yay_crm::clinical::{validate_clinical, Clinical, ClinicalViolation};
use yay_crm::crud::Table;
use yay_crm::enterprise::{create, validate_enterprise, Enterprise, EnterpriseViolation};
use yay_crm::errors::{ClinicalError, EnterpriseError, SchoolError, UserError};
use yay_crm::messages::{get_validation_errors, FieldIssue};
use yay_crm::sales::{SalesFunnel, SchoolLevel};
use yay_crm::school::{validate_school, School, SchoolViolation};
use yay_crm::users::{validate_user_from_json, Roles, UserFromJson, UserViolation};

fn valid_enterprise() -> Enterprise {
    Enterprise {
        name: "Ana".to_string(),
        last_name: "Ruiz".to_string(),
        is_company: true,
        company_name: Some("Acme".to_string()),
        line_of_business: None,
        phone: None,
        email: "ana@x.com".to_string(),
        fb: Some("https://fb.example/ana".to_string()),
        instagram: None,
        linked_in: None,
        tik_tok: None,
        twitter: None,
        first_contact_date: None,
        sales_funnel: SalesFunnel::NEED,
        notes: String::new(),
        services_offered: vec![],
        resolution: None,
        created_by: None,
        modified_by: None,
    }
}

fn valid_school() -> School {
    School {
        name: "Ana".to_string(),
        last_name: "Ruiz".to_string(),
        school_name: "Colegio Real".to_string(),
        school_level: vec![SchoolLevel::KINDER],
        email: "direccion@colegio.edu".to_string(),
        phone: "5550002".to_string(),
        fb: None,
        instagram: None,
        linked_in: None,
        tik_tok: None,
        twitter: None,
        first_contact_date: None,
        sales_funnel: SalesFunnel::QUOTE,
        notes: String::new(),
        services_offered: vec![],
        created_by: None,
        modified_by: None,
    }
}

fn valid_clinical() -> Clinical {
    Clinical {
        name: "Ana".to_string(),
        last_name: "Ruiz".to_string(),
        is_company: false,
        clinic_name: Some("Clinica Sur".to_string()),
        clinic_web: None,
        clinic_email: Some("contacto@clinica.mx".to_string()),
        specialty: "dermatology".to_string(),
        email: Some("ana@x.com".to_string()),
        phone: "5550003".to_string(),
        fb: None,
        instagram: None,
        linked_in: None,
        tik_tok: None,
        twitter: None,
        first_contact_date: None,
        sales_funnel: SalesFunnel::WIN,
        notes: String::new(),
        services_offered: vec![],
        created_by: None,
        modified_by: None,
    }
}

fn valid_user() -> UserFromJson {
    UserFromJson {
        name: "Ana".to_string(),
        last_name: "Ruiz".to_string(),
        email: "ana@x.com".to_string(),
        role: Roles::EDITOR,
        notes: None,
        password: Some("0123456789abc".to_string()),
    }
}

#[test]
fn a_valid_enterprise_reports_nothing() {
    assert!(validate_enterprise(&valid_enterprise()).is_empty());
}

#[test]
fn enterprise_short_name_is_reported() {
    let mut e = valid_enterprise();
    e.name = "A".to_string();
    assert_eq!(validate_enterprise(&e), vec![EnterpriseViolation::NameLength]);
}

#[test]
fn enterprise_bad_email_is_reported() {
    let mut e = valid_enterprise();
    e.email = "not-an-email".to_string();
    assert_eq!(validate_enterprise(&e), vec![EnterpriseViolation::Email]);
}

#[test]
fn enterprise_empty_email_is_reported() {
    let mut e = valid_enterprise();
    e.email = String::new();
    assert_eq!(validate_enterprise(&e), vec![EnterpriseViolation::Email]);
}

#[test]
fn enterprise_bad_facebook_url_is_reported() {
    let mut e = valid_enterprise();
    e.fb = Some("not a url".to_string());
    assert_eq!(validate_enterprise(&e), vec![EnterpriseViolation::FacebookUrl]);
}

#[test]
fn enterprise_violations_come_in_field_order() {
    let mut e = valid_enterprise();
    e.name = "A".to_string();
    e.company_name = Some("B".to_string());
    e.email = "broken".to_string();
    assert_eq!(
        validate_enterprise(&e),
        vec![
            EnterpriseViolation::NameLength,
            EnterpriseViolation::CompanyNameLength,
            EnterpriseViolation::Email,
        ]
    );
}

#[test]
fn an_invalid_enterprise_is_rejected_before_the_table() {
    let mut table: Table<Enterprise> = Table::new();
    let mut e = valid_enterprise();
    e.email = "broken".to_string();
    let outcome = create(&mut table, e, 1);
    assert_eq!(outcome.unwrap_err(), EnterpriseError::EnterpriseCreationFailure);
    assert!(yay_crm::crud::util_find_all(&table).is_empty());
}

#[test]
fn school_violations_are_reported() {
    let mut s = valid_school();
    s.school_name = "X".to_string();
    s.email = "broken".to_string();
    assert_eq!(
        validate_school(&s),
        vec![SchoolViolation::SchoolNameLength, SchoolViolation::Email]
    );
    assert!(validate_school(&valid_school()).is_empty());
}

#[test]
fn clinical_violations_are_reported() {
    let mut c = valid_clinical();
    c.clinic_email = Some("broken".to_string());
    c.fb = Some("not a url".to_string());
    assert_eq!(
        validate_clinical(&c),
        vec![ClinicalViolation::ClinicEmail, ClinicalViolation::FacebookUrl]
    );
    assert!(validate_clinical(&valid_clinical()).is_empty());
}

#[test]
fn user_password_bounds_are_reported() {
    let mut u = valid_user();
    u.password = Some("short".to_string());
    assert_eq!(validate_user_from_json(&u), vec![UserViolation::PasswordLength]);
    let mut long = valid_user();
    long.password = Some("x".repeat(256));
    assert_eq!(validate_user_from_json(&long), vec![UserViolation::PasswordLength]);
    let mut none = valid_user();
    none.password = None;
    assert!(validate_user_from_json(&none).is_empty());
}

#[test]
fn user_name_bounds_are_reported() {
    let mut u = valid_user();
    u.name = "A".to_string();
    assert_eq!(validate_user_from_json(&u), vec![UserViolation::NameLength]);
    let mut long = valid_user();
    long.name = "x".repeat(36);
    assert_eq!(validate_user_from_json(&long), vec![UserViolation::NameLength]);
}

#[test]
fn validation_report_lines_name_field_and_kind() {
    let issues = vec![
        FieldIssue { field: "name".to_string(), code: "length".to_string() },
        FieldIssue { field: "email".to_string(), code: "email".to_string() },
    ];
    let lines = get_validation_errors(&issues);
    assert_eq!(
        lines,
        vec![
            " 'name' no cumple con el formato de length".to_string(),
            " 'email' no cumple con el formato de email".to_string(),
        ]
    );
}

#[test]
fn violation_fields_and_codes_match_their_constraints() {
    assert_eq!(EnterpriseViolation::FacebookUrl.field(), "fb");
    assert_eq!(EnterpriseViolation::FacebookUrl.code(), "url");
    assert_eq!(SchoolViolation::Email.field(), "email");
    assert_eq!(SchoolViolation::Email.code(), "email");
    assert_eq!(ClinicalViolation::ClinicNameLength.field(), "clinic_name");
    assert_eq!(ClinicalViolation::ClinicNameLength.code(), "length");
    assert_eq!(UserViolation::PasswordLength.field(), "password");
    assert_eq!(UserViolation::PasswordLength.code(), "length");
}

#[test]
fn error_enums_carry_status_codes_and_messages() {
    assert_eq!(EnterpriseError::NoEnterprisesFound.status_code(), 404);
    assert_eq!(EnterpriseError::EnterpriseCreationFailure.status_code(), 500);
    assert_eq!(EnterpriseError::NoEnterprisesFound.message(), "NoEnterprisesFound");
    assert_eq!(ClinicalError::NoClinicalsFound.status_code(), 404);
    assert_eq!(ClinicalError::ClinicalCreationFailure.message(), "ClinicalCreationFailure");
    assert_eq!(SchoolError::SchoolCreationFailure.status_code(), 500);
    assert_eq!(SchoolError::NoSchoolsFound.message(), "NoSchoolsFound");
    assert_eq!(UserError::NoUsersFound.status_code(), 404);
    assert_eq!(UserError::UserCreationFailure.message(), "UserCreationFailure");
}
