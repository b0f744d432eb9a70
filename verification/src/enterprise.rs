//! The enterprise entity: its record shape, validation rules, and the
//! operations its handlers decide — create, merge update and soft delete on
//! the enterprise table.

use crate::crud::dup_copy_vec;
use crate::crud::dup_opt_string;
use crate::crud::spec_merged;
use crate::crud::spec_new_record;
use crate::crud::spec_soft_deleted;
use crate::crud::util_add_one;
use crate::crud::util_delete_one;
use crate::crud::util_find_one;
use crate::crud::util_update_one;
use crate::crud::view_opt_string;
use crate::crud::Fields;
use crate::crud::Stored;
use crate::crud::Table;
use crate::errors::EnterpriseError;
use crate::general::create_option_tags_info_for_services_and_funnel;
use crate::general::get_uuid;
use crate::general::spec_selected_tags;
use crate::is_lower_hex_char;
use crate::sales::GeneralTags;
use crate::sales::SalesFunnel;
use crate::sales::ServicesOffered;
use crate::validation::is_email;
use crate::validation::is_url;
use crate::validation::validate_email;
use crate::validation::validate_url;
use vstd::prelude::*;
use vstd::string::StrSliceExecFns;

verus! {

/// A response body that carries just an enterprise identifier.
pub struct EnterpriseUuid {
    pub uuid: String,
}

/// The business fields of an enterprise record, as the store keeps them.
#[derive(Debug)]
pub struct Enterprise {
    pub name: String,
    pub last_name: String,
    pub is_company: bool,
    pub company_name: Option<String>,
    pub line_of_business: Option<String>,
    pub phone: Option<String>,
    pub email: String,
    pub fb: Option<String>,
    pub instagram: Option<String>,
    pub linked_in: Option<String>,
    pub tik_tok: Option<String>,
    pub twitter: Option<String>,
    pub first_contact_date: Option<i64>,
    pub sales_funnel: SalesFunnel,
    pub notes: String,
    pub services_offered: Vec<ServicesOffered>,
    pub resolution: Option<String>,
    pub created_by: Option<String>,
    pub modified_by: Option<String>,
}

/// The view of an enterprise's business fields.
pub struct EnterpriseV {
    pub name: Seq<char>,
    pub last_name: Seq<char>,
    pub is_company: bool,
    pub company_name: Option<Seq<char>>,
    pub line_of_business: Option<Seq<char>>,
    pub phone: Option<Seq<char>>,
    pub email: Seq<char>,
    pub fb: Option<Seq<char>>,
    pub instagram: Option<Seq<char>>,
    pub linked_in: Option<Seq<char>>,
    pub tik_tok: Option<Seq<char>>,
    pub twitter: Option<Seq<char>>,
    pub first_contact_date: Option<i64>,
    pub sales_funnel: SalesFunnel,
    pub notes: Seq<char>,
    pub services_offered: Seq<ServicesOffered>,
    pub resolution: Option<Seq<char>>,
    pub created_by: Option<Seq<char>>,
    pub modified_by: Option<Seq<char>>,
}

impl View for Enterprise {
    type V = EnterpriseV;

    open spec fn view(&self) -> EnterpriseV {
        EnterpriseV {
            name: self.name@,
            last_name: self.last_name@,
            is_company: self.is_company,
            company_name: view_opt_string(self.company_name),
            line_of_business: view_opt_string(self.line_of_business),
            phone: view_opt_string(self.phone),
            email: self.email@,
            fb: view_opt_string(self.fb),
            instagram: view_opt_string(self.instagram),
            linked_in: view_opt_string(self.linked_in),
            tik_tok: view_opt_string(self.tik_tok),
            twitter: view_opt_string(self.twitter),
            first_contact_date: self.first_contact_date,
            sales_funnel: self.sales_funnel,
            notes: self.notes@,
            services_offered: self.services_offered@,
            resolution: view_opt_string(self.resolution),
            created_by: view_opt_string(self.created_by),
            modified_by: view_opt_string(self.modified_by),
        }
    }
}

impl Fields for Enterprise {
    fn dup(&self) -> (r: Self) {
        Enterprise {
            name: self.name.clone(),
            last_name: self.last_name.clone(),
            is_company: self.is_company,
            company_name: dup_opt_string(&self.company_name),
            line_of_business: dup_opt_string(&self.line_of_business),
            phone: dup_opt_string(&self.phone),
            email: self.email.clone(),
            fb: dup_opt_string(&self.fb),
            instagram: dup_opt_string(&self.instagram),
            linked_in: dup_opt_string(&self.linked_in),
            tik_tok: dup_opt_string(&self.tik_tok),
            twitter: dup_opt_string(&self.twitter),
            first_contact_date: self.first_contact_date,
            sales_funnel: self.sales_funnel,
            notes: self.notes.clone(),
            services_offered: dup_copy_vec(&self.services_offered),
            resolution: dup_opt_string(&self.resolution),
            created_by: dup_opt_string(&self.created_by),
            modified_by: dup_opt_string(&self.modified_by),
        }
    }
}

/// An error message produced while rendering an enterprise template.
pub struct EnterpriseHandlebarsError {
    pub error: String,
}

impl EnterpriseHandlebarsError {
    pub fn new(error: String) -> (r: EnterpriseHandlebarsError)
        ensures
            r.error == error,
    {
        EnterpriseHandlebarsError { error }
    }
}

/// A field constraint that an enterprise submission violated.
#[derive(Clone, Copy, Debug, PartialEq, Eq, Structural)]
pub enum EnterpriseViolation {
    NameLength,
    LastNameLength,
    CompanyNameLength,
    Email,
    FacebookUrl,
}

impl EnterpriseViolation {
    /// The field that the violated constraint sits on.
    pub fn field(&self) -> (r: String)
        ensures
            r@ == (match self {
                EnterpriseViolation::NameLength => "name"@,
                EnterpriseViolation::LastNameLength => "last_name"@,
                EnterpriseViolation::CompanyNameLength => "company_name"@,
                EnterpriseViolation::Email => "email"@,
                EnterpriseViolation::FacebookUrl => "fb"@,
            }),
    {
        match self {
            EnterpriseViolation::NameLength => "name".to_owned(),
            EnterpriseViolation::LastNameLength => "last_name".to_owned(),
            EnterpriseViolation::CompanyNameLength => "company_name".to_owned(),
            EnterpriseViolation::Email => "email".to_owned(),
            EnterpriseViolation::FacebookUrl => "fb".to_owned(),
        }
    }

    /// The constraint kind, as the validation report names it.
    pub fn code(&self) -> (r: String)
        ensures
            r@ == (match self {
                EnterpriseViolation::NameLength => "length"@,
                EnterpriseViolation::LastNameLength => "length"@,
                EnterpriseViolation::CompanyNameLength => "length"@,
                EnterpriseViolation::Email => "email"@,
                EnterpriseViolation::FacebookUrl => "url"@,
            }),
    {
        match self {
            EnterpriseViolation::NameLength => "length".to_owned(),
            EnterpriseViolation::LastNameLength => "length".to_owned(),
            EnterpriseViolation::CompanyNameLength => "length".to_owned(),
            EnterpriseViolation::Email => "email".to_owned(),
            EnterpriseViolation::FacebookUrl => "url".to_owned(),
        }
    }
}

/// Every field constraint of an enterprise submission: names at least two
/// characters, a company name (when given) at least two characters, a
/// well-formed email, and a well-formed Facebook URL when given.
pub open spec fn spec_enterprise_valid(e: Enterprise) -> bool {
    &&& e.name@.len() >= 2
    &&& e.last_name@.len() >= 2
    &&& (e.company_name matches Some(s) ==> s@.len() >= 2)
    &&& is_email(e.email@)
    &&& (e.fb matches Some(s) ==> is_url(s@))
}

/// The violations of an enterprise submission, in field order.
pub open spec fn spec_enterprise_violations(e: Enterprise) -> Seq<EnterpriseViolation> {
    (if e.name@.len() < 2 {
        seq![EnterpriseViolation::NameLength]
    } else {
        Seq::<EnterpriseViolation>::empty()
    }) + (if e.last_name@.len() < 2 {
        seq![EnterpriseViolation::LastNameLength]
    } else {
        Seq::<EnterpriseViolation>::empty()
    }) + (if e.company_name matches Some(s) && s@.len() < 2 {
        seq![EnterpriseViolation::CompanyNameLength]
    } else {
        Seq::<EnterpriseViolation>::empty()
    }) + (if !is_email(e.email@) {
        seq![EnterpriseViolation::Email]
    } else {
        Seq::<EnterpriseViolation>::empty()
    }) + (if e.fb matches Some(s) && !is_url(s@) {
        seq![EnterpriseViolation::FacebookUrl]
    } else {
        Seq::<EnterpriseViolation>::empty()
    })
}

/// Checks every field constraint of an enterprise submission and reports the
/// violated ones; an empty report means the submission is valid.
pub fn validate_enterprise(e: &Enterprise) -> (r: Vec<EnterpriseViolation>)
    ensures
        r@ == spec_enterprise_violations(*e),
        r@.len() == 0 <==> spec_enterprise_valid(*e),
{
    let mut out: Vec<EnterpriseViolation> = Vec::new();
    if e.name.as_str().unicode_len() < 2 {
        out.push(EnterpriseViolation::NameLength);
    }
    if e.last_name.as_str().unicode_len() < 2 {
        out.push(EnterpriseViolation::LastNameLength);
    }
    match &e.company_name {
        Some(s) => {
            if s.as_str().unicode_len() < 2 {
                out.push(EnterpriseViolation::CompanyNameLength);
            }
        },
        None => {},
    }
    if !validate_email(e.email.as_str()) {
        out.push(EnterpriseViolation::Email);
    }
    match &e.fb {
        Some(s) => {
            if !validate_url(s.as_str()) {
                out.push(EnterpriseViolation::FacebookUrl);
            }
        },
        None => {},
    }
    proof {
        assert(out@ =~= spec_enterprise_violations(*e));
    }
    out
}

/// The payload that a creation stores: the submission, with the first-contact
/// date set to the moment of creation.
pub open spec fn spec_create_payload(body: Enterprise, now: i64) -> Enterprise {
    Enterprise { first_contact_date: Some(now), ..body }
}

/// The payload that a merge update stores: the submission, with the
/// server-owned record of who created the enterprise taken from the stored
/// record, not from the client.
pub open spec fn spec_update_payload(body: Enterprise, stored: Enterprise) -> Enterprise {
    Enterprise { created_by: stored.created_by, ..body }
}

/// Creates an enterprise: validates the submission, assigns a fresh
/// identifier and stores the record with both timestamps set to `now` and the
/// first-contact date filled in. An invalid submission is rejected before
/// anything reaches the table; a creation failure leaves the table unchanged.
pub fn create(table: &mut Table<Enterprise>, body: Enterprise, now: i64) -> (r: Result<
    Stored<Enterprise>,
    EnterpriseError,
>)
    requires
        old(table).wf(),
    ensures
        final(table).wf(),
        !spec_enterprise_valid(body) ==> (r matches Err(e) && e
            == EnterpriseError::EnterpriseCreationFailure),
        match r {
            Ok(rec) => {
                &&& spec_enterprise_valid(body)
                &&& rec.uuid@.len() == 32
                &&& forall|i: int| 0 <= i < rec.uuid@.len() ==> is_lower_hex_char(#[trigger] rec.uuid@[i])
                &&& !old(table).has_key(rec.uuid@)
                &&& rec@ == spec_new_record(rec.uuid, spec_create_payload(body, now), now)@
                &&& !rec.deleted
                &&& rec.date_created == now
                &&& rec.date_modified == now
                &&& rec.fields@ == spec_create_payload(body, now)@
                &&& final(table).has_key(rec.uuid@)
                &&& final(table).at_key(rec.uuid@)@ == rec@
                &&& final(table).rows_view().len() == old(table).rows_view().len() + 1
                &&& forall|k: Seq<char>|
                    k != rec.uuid@ ==> (final(table).has_key(k) <==> old(table).has_key(k))
                        && (old(table).has_key(k) ==> final(table).at_key(k) == old(
                        table,
                    ).at_key(k))
            },
            Err(e) => *final(table) == *old(table) && e
                == EnterpriseError::EnterpriseCreationFailure,
        },
{
    let violations = validate_enterprise(&body);
    if violations.len() > 0 {
        return Err(EnterpriseError::EnterpriseCreationFailure);
    }
    let new_uuid = get_uuid();
    let payload = Enterprise { first_contact_date: Some(now), ..body };
    match util_add_one(table, new_uuid, payload, now) {
        Some(rec) => Ok(rec),
        None => Err(EnterpriseError::EnterpriseCreationFailure),
    }
}

/// Merge-updates the enterprise at `uuid`: validates the submission, verifies
/// existence, and overwrites the stored business fields with the submitted
/// ones — keeping the identifier, the creation time and who created the
/// record — while refreshing the modification time. Succeeds exactly on a
/// valid submission against a present identifier; everything else leaves the
/// table unchanged.
pub fn update_one(
    table: &mut Table<Enterprise>,
    uuid: &String,
    body: Enterprise,
    deleted: bool,
    now: i64,
) -> (r: Result<Stored<Enterprise>, EnterpriseError>)
    requires
        old(table).wf(),
    ensures
        final(table).wf(),
        r is Ok <==> spec_enterprise_valid(body) && old(table).has_key(uuid@),
        match r {
            Ok(rec) => {
                &&& rec@ == spec_merged(
                    old(table).at_key(uuid@),
                    spec_update_payload(body, old(table).at_key(uuid@).fields),
                    deleted,
                    now,
                )@
                &&& rec.uuid@ == uuid@
                &&& rec.date_created == old(table).at_key(uuid@).date_created
                &&& rec.date_modified == now
                &&& rec.fields@.created_by == old(table).at_key(uuid@).fields@.created_by
                &&& rec.fields@.notes == body@.notes
                &&& rec.fields@.name == body@.name
                &&& rec.fields@.email == body@.email
                &&& final(table).has_key(uuid@)
                &&& final(table).at_key(uuid@)@ == rec@
                &&& final(table).rows_view().len() == old(table).rows_view().len()
                &&& forall|k: Seq<char>|
                    k != uuid@ ==> (final(table).has_key(k) <==> old(table).has_key(k))
                        && (old(table).has_key(k) ==> final(table).at_key(k) == old(
                        table,
                    ).at_key(k))
            },
            Err(e) => {
                &&& *final(table) == *old(table)
                &&& (e == EnterpriseError::EnterpriseCreationFailure <==> !spec_enterprise_valid(
                    body,
                ))
                &&& (e == EnterpriseError::NoEnterprisesFound <==> spec_enterprise_valid(body)
                    && !old(table).has_key(uuid@))
            },
        },
{
    let violations = validate_enterprise(&body);
    if violations.len() > 0 {
        return Err(EnterpriseError::EnterpriseCreationFailure);
    }
    match util_find_one(table, uuid) {
        None => Err(EnterpriseError::NoEnterprisesFound),
        Some(stored) => {
            let payload = Enterprise { created_by: dup_opt_string(&stored.fields.created_by), ..body };
            match util_update_one(table, uuid, payload, deleted, now) {
                Some(rec) => Ok(rec),
                None => {
                    proof {
                        assert(false);
                    }
                    Err(EnterpriseError::NoEnterprisesFound)
                },
            }
        },
    }
}

/// Pairs every record of a listing with the option tags selected for it, as
/// the table pages show them: each entry keeps its record and carries the
/// catalogue of service and funnel tags with that record's selections.
pub fn general_tags(records: Vec<Stored<Enterprise>>) -> (r: Vec<GeneralTags<Stored<Enterprise>>>)
    ensures
        r@.len() == records@.len(),
        forall|i: int|
            0 <= i < r@.len() ==> (#[trigger] r@[i]).section == records@[i] && spec_selected_tags(
                r@[i].services_tag@,
                r@[i].funnel_tag@,
                records@[i].fields.services_offered@,
                records@[i].fields.sales_funnel,
            ),
{
    let ghost orig = records@;
    let mut records = records;
    let mut out: Vec<GeneralTags<Stored<Enterprise>>> = Vec::new();
    while records.len() > 0
        invariant
            out@.len() + records@.len() == orig.len(),
            records@ == orig.skip(out@.len() as int),
            forall|i: int|
                0 <= i < out@.len() ==> (#[trigger] out@[i]).section == orig[i]
                    && spec_selected_tags(
                    out@[i].services_tag@,
                    out@[i].funnel_tag@,
                    orig[i].fields.services_offered@,
                    orig[i].fields.sales_funnel,
                ),
        decreases records@.len(),
    {
        let ghost done = out@.len() as int;
        let record = records.remove(0);
        proof {
            assert(record == orig[done]);
            assert(records@ =~= orig.skip(done + 1));
        }
        let (services_tag, funnel_tag) = create_option_tags_info_for_services_and_funnel(
            dup_copy_vec(&record.fields.services_offered),
            record.fields.sales_funnel,
        );
        out.push(GeneralTags { section: record, funnel_tag, services_tag });
    }
    out
}

/// Soft-deletes the enterprise at `uuid`: verifies existence, then sets the
/// deletion flag and refreshes the modification time through a partial patch,
/// leaving every other field untouched. The record stays in the table.
pub fn delete_one(table: &mut Table<Enterprise>, uuid: &String, now: i64) -> (r: Result<
    Stored<Enterprise>,
    EnterpriseError,
>)
    requires
        old(table).wf(),
    ensures
        final(table).wf(),
        r is Ok <==> old(table).has_key(uuid@),
        match r {
            Ok(rec) => {
                &&& rec@ == spec_soft_deleted(old(table).at_key(uuid@), now)@
                &&& rec.deleted
                &&& rec.uuid@ == uuid@
                &&& rec.date_created == old(table).at_key(uuid@).date_created
                &&& rec.date_modified == now
                &&& rec.fields@ == old(table).at_key(uuid@).fields@
                &&& final(table).has_key(uuid@)
                &&& final(table).at_key(uuid@) == spec_soft_deleted(old(table).at_key(uuid@), now)
                &&& final(table).rows_view().len() == old(table).rows_view().len()
                &&& forall|k: Seq<char>|
                    k != uuid@ ==> (final(table).has_key(k) <==> old(table).has_key(k))
                        && (old(table).has_key(k) ==> final(table).at_key(k) == old(
                        table,
                    ).at_key(k))
            },
            Err(e) => *final(table) == *old(table) && e == EnterpriseError::NoEnterprisesFound
                && !old(table).has_key(uuid@),
        },
{
    match util_delete_one(table, uuid, now) {
        Some(rec) => Ok(rec),
        None => Err(EnterpriseError::NoEnterprisesFound),
    }
}

} // verus!
