//! The clinical entity: its record shape, validation rules, and the
//! operations its handlers decide — create, merge update and soft delete on
//! the clinical table.

use crate::crud::dup_copy_vec;
use crate::crud::dup_opt_string;
use crate::crud::spec_merged;
use crate::crud::spec_new_record;
use crate::crud::spec_soft_deleted;
use crate::crud::util_add_one;
use crate::crud::util_delete_one;
use crate::crud::util_find_one;
use crate::crud::util_update_one;
use crate::crud::view_opt_string;
use crate::crud::Fields;
use crate::crud::Stored;
use crate::crud::Table;
use crate::errors::ClinicalError;
use crate::general::create_option_tags_info_for_services_and_funnel;
use crate::general::get_uuid;
use crate::general::spec_selected_tags;
use crate::is_lower_hex_char;
use crate::sales::GeneralTags;
use crate::sales::SalesFunnel;
use crate::sales::ServicesOffered;
use crate::validation::is_email;
use crate::validation::is_url;
use crate::validation::validate_email;
use crate::validation::validate_url;
use vstd::prelude::*;
use vstd::string::StrSliceExecFns;

verus! {

/// A response body that carries just a clinical identifier.
pub struct ClinicalUuid {
    pub uuid: String,
}

/// The business fields of a clinical record, as the store keeps them.
#[derive(Debug)]
pub struct Clinical {
    pub name: String,
    pub last_name: String,
    pub is_company: bool,
    pub clinic_name: Option<String>,
    pub clinic_web: Option<String>,
    pub clinic_email: Option<String>,
    pub specialty: String,
    pub email: Option<String>,
    pub phone: String,
    pub fb: Option<String>,
    pub instagram: Option<String>,
    pub linked_in: Option<String>,
    pub tik_tok: Option<String>,
    pub twitter: Option<String>,
    pub first_contact_date: Option<i64>,
    pub sales_funnel: SalesFunnel,
    pub notes: String,
    pub services_offered: Vec<ServicesOffered>,
    pub created_by: Option<String>,
    pub modified_by: Option<String>,
}

/// The view of a clinical record's business fields.
pub struct ClinicalV {
    pub name: Seq<char>,
    pub last_name: Seq<char>,
    pub is_company: bool,
    pub clinic_name: Option<Seq<char>>,
    pub clinic_web: Option<Seq<char>>,
    pub clinic_email: Option<Seq<char>>,
    pub specialty: Seq<char>,
    pub email: Option<Seq<char>>,
    pub phone: Seq<char>,
    pub fb: Option<Seq<char>>,
    pub instagram: Option<Seq<char>>,
    pub linked_in: Option<Seq<char>>,
    pub tik_tok: Option<Seq<char>>,
    pub twitter: Option<Seq<char>>,
    pub first_contact_date: Option<i64>,
    pub sales_funnel: SalesFunnel,
    pub notes: Seq<char>,
    pub services_offered: Seq<ServicesOffered>,
    pub created_by: Option<Seq<char>>,
    pub modified_by: Option<Seq<char>>,
}

impl View for Clinical {
    type V = ClinicalV;

    open spec fn view(&self) -> ClinicalV {
        ClinicalV {
            name: self.name@,
            last_name: self.last_name@,
            is_company: self.is_company,
            clinic_name: view_opt_string(self.clinic_name),
            clinic_web: view_opt_string(self.clinic_web),
            clinic_email: view_opt_string(self.clinic_email),
            specialty: self.specialty@,
            email: view_opt_string(self.email),
            phone: self.phone@,
            fb: view_opt_string(self.fb),
            instagram: view_opt_string(self.instagram),
            linked_in: view_opt_string(self.linked_in),
            tik_tok: view_opt_string(self.tik_tok),
            twitter: view_opt_string(self.twitter),
            first_contact_date: self.first_contact_date,
            sales_funnel: self.sales_funnel,
            notes: self.notes@,
            services_offered: self.services_offered@,
            created_by: view_opt_string(self.created_by),
            modified_by: view_opt_string(self.modified_by),
        }
    }
}

impl Fields for Clinical {
    fn dup(&self) -> (r: Self) {
        Clinical {
            name: self.name.clone(),
            last_name: self.last_name.clone(),
            is_company: self.is_company,
            clinic_name: dup_opt_string(&self.clinic_name),
            clinic_web: dup_opt_string(&self.clinic_web),
            clinic_email: dup_opt_string(&self.clinic_email),
            specialty: self.specialty.clone(),
            email: dup_opt_string(&self.email),
            phone: self.phone.clone(),
            fb: dup_opt_string(&self.fb),
            instagram: dup_opt_string(&self.instagram),
            linked_in: dup_opt_string(&self.linked_in),
            tik_tok: dup_opt_string(&self.tik_tok),
            twitter: dup_opt_string(&self.twitter),
            first_contact_date: self.first_contact_date,
            sales_funnel: self.sales_funnel,
            notes: self.notes.clone(),
            services_offered: dup_copy_vec(&self.services_offered),
            created_by: dup_opt_string(&self.created_by),
            modified_by: dup_opt_string(&self.modified_by),
        }
    }
}

/// An error message produced while rendering a clinical template.
pub struct ClinicalHandlebarsError {
    pub error: String,
}

impl ClinicalHandlebarsError {
    pub fn new(error: String) -> (r: ClinicalHandlebarsError)
        ensures
            r.error == error,
    {
        ClinicalHandlebarsError { error }
    }
}

/// A field constraint that a clinical submission violated.
#[derive(Clone, Copy, Debug, PartialEq, Eq, Structural)]
pub enum ClinicalViolation {
    NameLength,
    LastNameLength,
    ClinicNameLength,
    ClinicEmail,
    Email,
    FacebookUrl,
}

impl ClinicalViolation {
    /// The field that the violated constraint sits on.
    pub fn field(&self) -> (r: String)
        ensures
            r@ == (match self {
                ClinicalViolation::NameLength => "name"@,
                ClinicalViolation::LastNameLength => "last_name"@,
                ClinicalViolation::ClinicNameLength => "clinic_name"@,
                ClinicalViolation::ClinicEmail => "clinic_email"@,
                ClinicalViolation::Email => "email"@,
                ClinicalViolation::FacebookUrl => "fb"@,
            }),
    {
        match self {
            ClinicalViolation::NameLength => "name".to_owned(),
            ClinicalViolation::LastNameLength => "last_name".to_owned(),
            ClinicalViolation::ClinicNameLength => "clinic_name".to_owned(),
            ClinicalViolation::ClinicEmail => "clinic_email".to_owned(),
            ClinicalViolation::Email => "email".to_owned(),
            ClinicalViolation::FacebookUrl => "fb".to_owned(),
        }
    }

    /// The constraint kind, as the validation report names it.
    pub fn code(&self) -> (r: String)
        ensures
            r@ == (match self {
                ClinicalViolation::NameLength => "length"@,
                ClinicalViolation::LastNameLength => "length"@,
                ClinicalViolation::ClinicNameLength => "length"@,
                ClinicalViolation::ClinicEmail => "email"@,
                ClinicalViolation::Email => "email"@,
                ClinicalViolation::FacebookUrl => "url"@,
            }),
    {
        match self {
            ClinicalViolation::NameLength => "length".to_owned(),
            ClinicalViolation::LastNameLength => "length".to_owned(),
            ClinicalViolation::ClinicNameLength => "length".to_owned(),
            ClinicalViolation::ClinicEmail => "email".to_owned(),
            ClinicalViolation::Email => "email".to_owned(),
            ClinicalViolation::FacebookUrl => "url".to_owned(),
        }
    }
}

/// Every field constraint of a clinical submission: names at least two
/// characters, a clinic name (when given) at least two characters, well-formed
/// email addresses where given, and a well-formed Facebook URL when given.
pub open spec fn spec_clinical_valid(c: Clinical) -> bool {
    &&& c.name@.len() >= 2
    &&& c.last_name@.len() >= 2
    &&& (c.clinic_name matches Some(s) ==> s@.len() >= 2)
    &&& (c.clinic_email matches Some(s) ==> is_email(s@))
    &&& (c.email matches Some(s) ==> is_email(s@))
    &&& (c.fb matches Some(s) ==> is_url(s@))
}

/// The violations of a clinical submission, in field order.
pub open spec fn spec_clinical_violations(c: Clinical) -> Seq<ClinicalViolation> {
    (if c.name@.len() < 2 {
        seq![ClinicalViolation::NameLength]
    } else {
        Seq::<ClinicalViolation>::empty()
    }) + (if c.last_name@.len() < 2 {
        seq![ClinicalViolation::LastNameLength]
    } else {
        Seq::<ClinicalViolation>::empty()
    }) + (if c.clinic_name matches Some(s) && s@.len() < 2 {
        seq![ClinicalViolation::ClinicNameLength]
    } else {
        Seq::<ClinicalViolation>::empty()
    }) + (if c.clinic_email matches Some(s) && !is_email(s@) {
        seq![ClinicalViolation::ClinicEmail]
    } else {
        Seq::<ClinicalViolation>::empty()
    }) + (if c.email matches Some(s) && !is_email(s@) {
        seq![ClinicalViolation::Email]
    } else {
        Seq::<ClinicalViolation>::empty()
    }) + (if c.fb matches Some(s) && !is_url(s@) {
        seq![ClinicalViolation::FacebookUrl]
    } else {
        Seq::<ClinicalViolation>::empty()
    })
}

/// Checks every field constraint of a clinical submission and reports the
/// violated ones; an empty report means the submission is valid.
pub fn validate_clinical(c: &Clinical) -> (r: Vec<ClinicalViolation>)
    ensures
        r@ == spec_clinical_violations(*c),
        r@.len() == 0 <==> spec_clinical_valid(*c),
{
    let mut out: Vec<ClinicalViolation> = Vec::new();
    if c.name.as_str().unicode_len() < 2 {
        out.push(ClinicalViolation::NameLength);
    }
    if c.last_name.as_str().unicode_len() < 2 {
        out.push(ClinicalViolation::LastNameLength);
    }
    match &c.clinic_name {
        Some(s) => {
            if s.as_str().unicode_len() < 2 {
                out.push(ClinicalViolation::ClinicNameLength);
            }
        },
        None => {},
    }
    match &c.clinic_email {
        Some(s) => {
            if !validate_email(s.as_str()) {
                out.push(ClinicalViolation::ClinicEmail);
            }
        },
        None => {},
    }
    match &c.email {
        Some(s) => {
            if !validate_email(s.as_str()) {
                out.push(ClinicalViolation::Email);
            }
        },
        None => {},
    }
    match &c.fb {
        Some(s) => {
            if !validate_url(s.as_str()) {
                out.push(ClinicalViolation::FacebookUrl);
            }
        },
        None => {},
    }
    proof {
        assert(out@ =~= spec_clinical_violations(*c));
    }
    out
}

/// The payload that a merge update stores: the submission, with the
/// server-owned record of who created the entry taken from the stored record.
pub open spec fn spec_update_payload(body: Clinical, stored: Clinical) -> Clinical {
    Clinical { created_by: stored.created_by, ..body }
}

/// Creates a clinical record: validates the submission, assigns a fresh
/// identifier and stores the submitted fields with both timestamps set to
/// `now`. An invalid submission is rejected before anything reaches the
/// table; a creation failure leaves the table unchanged.
pub fn create(table: &mut Table<Clinical>, body: Clinical, now: i64) -> (r: Result<
    Stored<Clinical>,
    ClinicalError,
>)
    requires
        old(table).wf(),
    ensures
        final(table).wf(),
        !spec_clinical_valid(body) ==> (r matches Err(e) && e
            == ClinicalError::ClinicalCreationFailure),
        match r {
            Ok(rec) => {
                &&& spec_clinical_valid(body)
                &&& rec.uuid@.len() == 32
                &&& forall|i: int| 0 <= i < rec.uuid@.len() ==> is_lower_hex_char(#[trigger] rec.uuid@[i])
                &&& !old(table).has_key(rec.uuid@)
                &&& rec@ == spec_new_record(rec.uuid, body, now)@
                &&& !rec.deleted
                &&& rec.date_created == now
                &&& rec.date_modified == now
                &&& rec.fields@ == body@
                &&& final(table).has_key(rec.uuid@)
                &&& final(table).at_key(rec.uuid@)@ == rec@
                &&& final(table).rows_view().len() == old(table).rows_view().len() + 1
                &&& forall|k: Seq<char>|
                    k != rec.uuid@ ==> (final(table).has_key(k) <==> old(table).has_key(k))
                        && (old(table).has_key(k) ==> final(table).at_key(k) == old(
                        table,
                    ).at_key(k))
            },
            Err(e) => *final(table) == *old(table) && e == ClinicalError::ClinicalCreationFailure,
        },
{
    let violations = validate_clinical(&body);
    if violations.len() > 0 {
        return Err(ClinicalError::ClinicalCreationFailure);
    }
    let new_uuid = get_uuid();
    match util_add_one(table, new_uuid, body, now) {
        Some(rec) => Ok(rec),
        None => Err(ClinicalError::ClinicalCreationFailure),
    }
}

/// Merge-updates the clinical record at `uuid`: validates the submission,
/// verifies existence, and overwrites the stored business fields with the
/// submitted ones — keeping the identifier, the creation time and who created
/// the record — while refreshing the modification time. Succeeds exactly on a
/// valid submission against a present identifier.
pub fn update_one(
    table: &mut Table<Clinical>,
    uuid: &String,
    body: Clinical,
    deleted: bool,
    now: i64,
) -> (r: Result<Stored<Clinical>, ClinicalError>)
    requires
        old(table).wf(),
    ensures
        final(table).wf(),
        r is Ok <==> spec_clinical_valid(body) && old(table).has_key(uuid@),
        match r {
            Ok(rec) => {
                &&& rec@ == spec_merged(
                    old(table).at_key(uuid@),
                    spec_update_payload(body, old(table).at_key(uuid@).fields),
                    deleted,
                    now,
                )@
                &&& rec.uuid@ == uuid@
                &&& rec.date_created == old(table).at_key(uuid@).date_created
                &&& rec.date_modified == now
                &&& rec.fields@.created_by == old(table).at_key(uuid@).fields@.created_by
                &&& rec.fields@.notes == body@.notes
                &&& rec.fields@.name == body@.name
                &&& rec.fields@.email == body@.email
                &&& final(table).has_key(uuid@)
                &&& final(table).at_key(uuid@)@ == rec@
                &&& final(table).rows_view().len() == old(table).rows_view().len()
                &&& forall|k: Seq<char>|
                    k != uuid@ ==> (final(table).has_key(k) <==> old(table).has_key(k))
                        && (old(table).has_key(k) ==> final(table).at_key(k) == old(
                        table,
                    ).at_key(k))
            },
            Err(e) => {
                &&& *final(table) == *old(table)
                &&& (e == ClinicalError::ClinicalCreationFailure <==> !spec_clinical_valid(body))
                &&& (e == ClinicalError::NoClinicalsFound <==> spec_clinical_valid(body) && !old(
                    table,
                ).has_key(uuid@))
            },
        },
{
    let violations = validate_clinical(&body);
    if violations.len() > 0 {
        return Err(ClinicalError::ClinicalCreationFailure);
    }
    match util_find_one(table, uuid) {
        None => Err(ClinicalError::NoClinicalsFound),
        Some(stored) => {
            let payload = Clinical { created_by: dup_opt_string(&stored.fields.created_by), ..body };
            match util_update_one(table, uuid, payload, deleted, now) {
                Some(rec) => Ok(rec),
                None => {
                    proof {
                        assert(false);
                    }
                    Err(ClinicalError::NoClinicalsFound)
                },
            }
        },
    }
}

/// Pairs every record of a listing with the option tags selected for it, as
/// the table pages show them: each entry keeps its record and carries the
/// catalogue of service and funnel tags with that record's selections.
pub fn general_tags(records: Vec<Stored<Clinical>>) -> (r: Vec<GeneralTags<Stored<Clinical>>>)
    ensures
        r@.len() == records@.len(),
        forall|i: int|
            0 <= i < r@.len() ==> (#[trigger] r@[i]).section == records@[i] && spec_selected_tags(
                r@[i].services_tag@,
                r@[i].funnel_tag@,
                records@[i].fields.services_offered@,
                records@[i].fields.sales_funnel,
            ),
{
    let ghost orig = records@;
    let mut records = records;
    let mut out: Vec<GeneralTags<Stored<Clinical>>> = Vec::new();
    while records.len() > 0
        invariant
            out@.len() + records@.len() == orig.len(),
            records@ == orig.skip(out@.len() as int),
            forall|i: int|
                0 <= i < out@.len() ==> (#[trigger] out@[i]).section == orig[i]
                    && spec_selected_tags(
                    out@[i].services_tag@,
                    out@[i].funnel_tag@,
                    orig[i].fields.services_offered@,
                    orig[i].fields.sales_funnel,
                ),
        decreases records@.len(),
    {
        let ghost done = out@.len() as int;
        let record = records.remove(0);
        proof {
            assert(record == orig[done]);
            assert(records@ =~= orig.skip(done + 1));
        }
        let (services_tag, funnel_tag) = create_option_tags_info_for_services_and_funnel(
            dup_copy_vec(&record.fields.services_offered),
            record.fields.sales_funnel,
        );
        out.push(GeneralTags { section: record, funnel_tag, services_tag });
    }
    out
}

/// Soft-deletes the clinical record at `uuid`: verifies existence, then sets
/// the deletion flag and refreshes the modification time through a partial
/// patch, leaving every other field untouched. The record stays in the table.
pub fn delete_one(table: &mut Table<Clinical>, uuid: &String, now: i64) -> (r: Result<
    Stored<Clinical>,
    ClinicalError,
>)
    requires
        old(table).wf(),
    ensures
        final(table).wf(),
        r is Ok <==> old(table).has_key(uuid@),
        match r {
            Ok(rec) => {
                &&& rec@ == spec_soft_deleted(old(table).at_key(uuid@), now)@
                &&& rec.deleted
                &&& rec.uuid@ == uuid@
                &&& rec.date_created == old(table).at_key(uuid@).date_created
                &&& rec.date_modified == now
                &&& rec.fields@ == old(table).at_key(uuid@).fields@
                &&& final(table).has_key(uuid@)
                &&& final(table).at_key(uuid@) == spec_soft_deleted(old(table).at_key(uuid@), now)
                &&& final(table).rows_view().len() == old(table).rows_view().len()
                &&& forall|k: Seq<char>|
                    k != uuid@ ==> (final(table).has_key(k) <==> old(table).has_key(k))
                        && (old(table).has_key(k) ==> final(table).at_key(k) == old(
                        table,
                    ).at_key(k))
            },
            Err(e) => *final(table) == *old(table) && e == ClinicalError::NoClinicalsFound && !old(
                table,
            ).has_key(uuid@),
        },
{
    match util_delete_one(table, uuid, now) {
        Some(rec) => Ok(rec),
        None => Err(ClinicalError::NoClinicalsFound),
    }
}

} // verus!
