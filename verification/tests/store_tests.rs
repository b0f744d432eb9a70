//! The store's behaviour end to end: creation, lookup, merge updates, soft
//! deletion and the filtered listings, exercised through the enterprise
//! entity.

use yay_crm::crud::{
    util_add_one, util_delete_one, util_find_all, util_find_all_deleted,
    util_find_all_non_deleted, util_find_one, util_update_one, Table,
};
use yay_crm::enterprise::{create, delete_one, update_one, Enterprise};
use yay_crm::errors::EnterpriseError;
use yay_crm::sales::{SalesFunnel, ServicesOffered};

fn ana() -> Enterprise {
    Enterprise {
        name: "Ana".to_string(),
        last_name: "Ruiz".to_string(),
        is_company: false,
        company_name: None,
        line_of_business: None,
        phone: Some("5550001".to_string()),
        email: "ana@x.com".to_string(),
        fb: None,
        instagram: None,
        linked_in: None,
        tik_tok: None,
        twitter: None,
        first_contact_date: None,
        sales_funnel: SalesFunnel::PROSPECT,
        notes: "first call".to_string(),
        services_offered: vec![ServicesOffered::BRANDING],
        resolution: None,
        created_by: Some("seller".to_string()),
        modified_by: None,
    }
}

#[test]
fn create_assigns_uuid_and_defaults() {
    let mut table: Table<Enterprise> = Table::new();
    let rec = create(&mut table, ana(), 1_000).expect("valid creation");
    assert_eq!(rec.uuid.len(), 32);
    assert!(rec.uuid.chars().all(|c| c.is_ascii_hexdigit() && !c.is_ascii_uppercase()));
    assert!(!rec.deleted);
    assert_eq!(rec.date_created, 1_000);
    assert_eq!(rec.date_modified, 1_000);
    assert_eq!(rec.fields.first_contact_date, Some(1_000));
    let found = util_find_one(&table, &rec.uuid).expect("created record is retrievable");
    assert_eq!(found.uuid, rec.uuid);
    assert_eq!(found.fields.name, "Ana");
    assert_eq!(found.fields.email, "ana@x.com");
    assert!(!found.deleted);
    assert_eq!(found.date_created, found.date_modified);
}

#[test]
fn lookup_is_stable_across_repeats() {
    let mut table: Table<Enterprise> = Table::new();
    let rec = create(&mut table, ana(), 5).expect("valid creation");
    let first = util_find_one(&table, &rec.uuid).expect("present");
    let second = util_find_one(&table, &rec.uuid).expect("still present");
    assert_eq!(first.uuid, second.uuid);
    assert_eq!(first.fields.name, second.fields.name);
    assert_eq!(first.date_created, second.date_created);
    assert_eq!(first.date_modified, second.date_modified);
}

#[test]
fn add_one_round_trip_keeps_submitted_fields() {
    let mut table: Table<Enterprise> = Table::new();
    let id = "abc123".to_string();
    let stored = util_add_one(&mut table, id.clone(), ana(), 42).expect("fresh identifier");
    assert_eq!(stored.uuid, "abc123");
    assert_eq!(stored.date_created, 42);
    assert_eq!(stored.date_modified, 42);
    assert!(!stored.deleted);
    let found = util_find_one(&table, &id).expect("present");
    assert_eq!(found.fields.name, "Ana");
    assert_eq!(found.fields.last_name, "Ruiz");
    assert_eq!(found.fields.email, "ana@x.com");
    assert_eq!(found.fields.notes, "first call");
    assert_eq!(found.fields.services_offered, vec![ServicesOffered::BRANDING]);
}

#[test]
fn add_one_refuses_an_occupied_identifier() {
    let mut table: Table<Enterprise> = Table::new();
    let id = "abc123".to_string();
    assert!(util_add_one(&mut table, id.clone(), ana(), 1).is_some());
    assert!(util_add_one(&mut table, id.clone(), ana(), 2).is_none());
    let all = util_find_all(&table);
    assert_eq!(all.len(), 1);
    assert_eq!(all[0].date_created, 1);
}

#[test]
fn update_preserves_creation_time_and_advances_modification() {
    let mut table: Table<Enterprise> = Table::new();
    let rec = create(&mut table, ana(), 100).expect("valid creation");
    let mut changed = ana();
    changed.notes = "second call".to_string();
    let updated = update_one(&mut table, &rec.uuid, changed, false, 200).expect("present");
    assert_eq!(updated.date_created, 100);
    assert_eq!(updated.date_modified, 200);
    assert!(updated.date_modified > rec.date_modified);
    assert_eq!(updated.fields.notes, "second call");
}

#[test]
fn update_keeps_other_fields_and_who_created() {
    let mut table: Table<Enterprise> = Table::new();
    let rec = create(&mut table, ana(), 100).expect("valid creation");
    let mut changed = ana();
    changed.notes = "renegotiated".to_string();
    changed.created_by = Some("intruder".to_string());
    let updated = update_one(&mut table, &rec.uuid, changed, false, 300).expect("present");
    assert_eq!(updated.fields.name, "Ana");
    assert_eq!(updated.fields.email, "ana@x.com");
    assert_eq!(updated.fields.notes, "renegotiated");
    assert_eq!(updated.fields.created_by, Some("seller".to_string()));
    assert_eq!(updated.date_created, 100);
    assert_eq!(updated.date_modified, 300);
}

#[test]
fn update_on_a_missing_identifier_never_creates() {
    let mut table: Table<Enterprise> = Table::new();
    let missing = "0000never0000".to_string();
    let outcome = util_update_one(&mut table, &missing, ana(), false, 7);
    assert!(outcome.is_none());
    assert!(util_find_all(&table).is_empty());
    let through_handler = update_one(&mut table, &missing, ana(), false, 7);
    assert_eq!(through_handler.unwrap_err(), EnterpriseError::NoEnterprisesFound);
    assert!(util_find_all(&table).is_empty());
}

#[test]
fn soft_delete_keeps_the_record_and_moves_it_between_listings() {
    let mut table: Table<Enterprise> = Table::new();
    let rec = create(&mut table, ana(), 10).expect("valid creation");
    let patched = delete_one(&mut table, &rec.uuid, 20).expect("present");
    assert!(patched.deleted);
    assert_eq!(patched.date_created, 10);
    assert_eq!(patched.date_modified, 20);
    assert_eq!(patched.fields.name, "Ana");

    let direct = util_find_one(&table, &rec.uuid).expect("still retrievable");
    assert!(direct.deleted);
    assert_eq!(direct.fields.email, "ana@x.com");

    let active = util_find_all_non_deleted(&table);
    assert!(active.iter().all(|r| r.uuid != rec.uuid));
    let deleted = util_find_all_deleted(&table);
    assert!(deleted.iter().any(|r| r.uuid == rec.uuid));
}

#[test]
fn soft_delete_is_idempotent() {
    let mut table: Table<Enterprise> = Table::new();
    let rec = create(&mut table, ana(), 10).expect("valid creation");
    let first = delete_one(&mut table, &rec.uuid, 20).expect("present");
    assert!(first.deleted);
    let second = delete_one(&mut table, &rec.uuid, 30).expect("still present");
    assert!(second.deleted);
    assert_eq!(second.date_created, 10);
    assert_eq!(second.date_modified, 30);
    let direct = util_find_one(&table, &rec.uuid).expect("still retrievable");
    assert!(direct.deleted);
}

#[test]
fn delete_on_a_missing_identifier_reports_not_found() {
    let mut table: Table<Enterprise> = Table::new();
    let missing = "0000never0000".to_string();
    let outcome = util_delete_one(&mut table, &missing, 7);
    assert!(outcome.is_none());
    let through_handler = delete_one(&mut table, &missing, 7);
    assert_eq!(through_handler.unwrap_err(), EnterpriseError::NoEnterprisesFound);
}

#[test]
fn listings_split_the_table_by_the_deletion_flag() {
    let mut table: Table<Enterprise> = Table::new();
    let kept = create(&mut table, ana(), 1).expect("valid creation");
    let mut other = ana();
    other.name = "Eva".to_string();
    let gone = create(&mut table, other, 2).expect("valid creation");
    delete_one(&mut table, &gone.uuid, 3).expect("present");

    let all = util_find_all(&table);
    assert_eq!(all.len(), 2);
    let active = util_find_all_non_deleted(&table);
    assert_eq!(active.len(), 1);
    assert_eq!(active[0].uuid, kept.uuid);
    let deleted = util_find_all_deleted(&table);
    assert_eq!(deleted.len(), 1);
    assert_eq!(deleted[0].uuid, gone.uuid);
}

#[test]
fn created_identifiers_differ() {
    let mut table: Table<Enterprise> = Table::new();
    let a = create(&mut table, ana(), 1).expect("valid creation");
    let b = create(&mut table, ana(), 2).expect("valid creation");
    assert_ne!(a.uuid, b.uuid);
    assert_eq!(util_find_all(&table).len(), 2);
}
