//! The clinical and school flows: creation, merge update and soft deletion,
//! with each failure outcome reached.

use yay_crm::clinical;
use yay_crm::clinical::Clinical;
use yay_crm::crud::{util_find_all_deleted, util_find_all_non_deleted, util_find_one, Table};
use yay_crm::errors::{ClinicalError, SchoolError};
use yay_crm::sales::{SalesFunnel, SchoolLevel, ServicesOffered};
use yay_crm::school;
use yay_crm::school::School;

fn a_clinical() -> Clinical {
    Clinical {
        name: "Ana".to_string(),
        last_name: "Ruiz".to_string(),
        is_company: false,
        clinic_name: Some("Clinica Sur".to_string()),
        clinic_web: None,
        clinic_email: None,
        specialty: "dermatology".to_string(),
        email: Some("ana@x.com".to_string()),
        phone: "5550003".to_string(),
        fb: None,
        instagram: None,
        linked_in: None,
        tik_tok: None,
        twitter: None,
        first_contact_date: Some(1),
        sales_funnel: SalesFunnel::RESEARCH,
        notes: "initial".to_string(),
        services_offered: vec![ServicesOffered::WEBSERVICES],
        created_by: Some("seller".to_string()),
        modified_by: None,
    }
}

fn a_school() -> School {
    School {
        name: "Ana".to_string(),
        last_name: "Ruiz".to_string(),
        school_name: "Colegio Real".to_string(),
        school_level: vec![SchoolLevel::ELEMENTARY],
        email: "direccion@colegio.edu".to_string(),
        phone: "5550002".to_string(),
        fb: None,
        instagram: None,
        linked_in: None,
        tik_tok: None,
        twitter: None,
        first_contact_date: None,
        sales_funnel: SalesFunnel::NEGOTIATION,
        notes: "visit planned".to_string(),
        services_offered: vec![],
        created_by: Some("seller".to_string()),
        modified_by: None,
    }
}

#[test]
fn clinical_create_update_delete_round() {
    let mut table: Table<Clinical> = Table::new();
    let rec = clinical::create(&mut table, a_clinical(), 100).expect("valid creation");
    assert_eq!(rec.date_created, 100);
    assert!(!rec.deleted);
    // The clinical creation stores the submission as given.
    assert_eq!(rec.fields.first_contact_date, Some(1));

    let mut changed = a_clinical();
    changed.notes = "follow-up".to_string();
    changed.created_by = Some("intruder".to_string());
    let updated = clinical::update_one(&mut table, &rec.uuid, changed, false, 200).expect("present");
    assert_eq!(updated.date_created, 100);
    assert_eq!(updated.date_modified, 200);
    assert_eq!(updated.fields.notes, "follow-up");
    assert_eq!(updated.fields.created_by, Some("seller".to_string()));

    let gone = clinical::delete_one(&mut table, &rec.uuid, 300).expect("present");
    assert!(gone.deleted);
    assert!(util_find_one(&table, &rec.uuid).expect("retrievable").deleted);
    assert!(util_find_all_non_deleted(&table).is_empty());
    assert_eq!(util_find_all_deleted(&table).len(), 1);
}

#[test]
fn clinical_failures_are_distinct() {
    let mut table: Table<Clinical> = Table::new();
    let mut invalid = a_clinical();
    invalid.name = "A".to_string();
    assert_eq!(
        clinical::create(&mut table, invalid, 1).unwrap_err(),
        ClinicalError::ClinicalCreationFailure
    );
    assert_eq!(
        clinical::delete_one(&mut table, &"missing00".to_string(), 1).unwrap_err(),
        ClinicalError::NoClinicalsFound
    );
    assert_eq!(
        clinical::update_one(&mut table, &"missing00".to_string(), a_clinical(), false, 1)
            .unwrap_err(),
        ClinicalError::NoClinicalsFound
    );
}

#[test]
fn school_create_update_delete_round() {
    let mut table: Table<School> = Table::new();
    let rec = school::create(&mut table, a_school(), 100).expect("valid creation");
    assert_eq!(rec.fields.first_contact_date, Some(100));
    assert!(!rec.deleted);

    let mut changed = a_school();
    changed.notes = "visited".to_string();
    let updated = school::update_one(&mut table, &rec.uuid, changed, false, 200).expect("present");
    assert_eq!(updated.date_created, 100);
    assert_eq!(updated.date_modified, 200);
    assert_eq!(updated.fields.notes, "visited");
    assert_eq!(updated.fields.created_by, Some("seller".to_string()));

    let gone = school::delete_one(&mut table, &rec.uuid, 300).expect("present");
    assert!(gone.deleted);
    assert_eq!(util_find_all_deleted(&table).len(), 1);
    assert!(util_find_all_non_deleted(&table).is_empty());
}

#[test]
fn school_failures_are_distinct() {
    let mut table: Table<School> = Table::new();
    let mut invalid = a_school();
    invalid.email = "broken".to_string();
    assert_eq!(
        school::create(&mut table, invalid, 1).unwrap_err(),
        SchoolError::SchoolCreationFailure
    );
    assert_eq!(
        school::delete_one(&mut table, &"missing00".to_string(), 1).unwrap_err(),
        SchoolError::NoSchoolsFound
    );
    let mut invalid_update = a_school();
    invalid_update.name = "A".to_string();
    assert_eq!(
        school::update_one(&mut table, &"missing00".to_string(), invalid_update, false, 1)
            .unwrap_err(),
        SchoolError::SchoolCreationFailure
    );
}
