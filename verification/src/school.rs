//! The school entity: its record shape, validation rules, and the operations
//! its handlers decide — create, merge update and soft delete on the school
//! table.

use crate::crud::dup_copy_vec;
use crate::crud::dup_opt_string;
use crate::crud::spec_merged;
use crate::crud::spec_new_record;
use crate::crud::spec_soft_deleted;
use crate::crud::util_add_one;
use crate::crud::util_delete_one;
use crate::crud::util_find_one;
use crate::crud::util_update_one;
use crate::crud::view_opt_string;
use crate::crud::Fields;
use crate::crud::Stored;
use crate::crud::Table;
use crate::errors::SchoolError;
use crate::general::create_option_tags_info_for_services_and_funnel;
use crate::general::get_uuid;
use crate::general::spec_selected_tags;
use crate::is_lower_hex_char;
use crate::sales::GeneralTags;
use crate::sales::SalesFunnel;
use crate::sales::SchoolLevel;
use crate::sales::ServicesOffered;
use crate::validation::is_email;
use crate::validation::is_url;
use crate::validation::validate_email;
use crate::validation::validate_url;
use vstd::prelude::*;
use vstd::string::StrSliceExecFns;

verus! {

/// A response body that carries just a school identifier.
pub struct SchoolUuid {
    pub uuid: String,
}

/// The business fields of a school record, as the store keeps them.
#[derive(Debug)]
pub struct School {
    pub name: String,
    pub last_name: String,
    pub school_name: String,
    pub school_level: Vec<SchoolLevel>,
    pub email: String,
    pub phone: String,
    pub fb: Option<String>,
    pub instagram: Option<String>,
    pub linked_in: Option<String>,
    pub tik_tok: Option<String>,
    pub twitter: Option<String>,
    pub first_contact_date: Option<i64>,
    pub sales_funnel: SalesFunnel,
    pub notes: String,
    pub services_offered: Vec<ServicesOffered>,
    pub created_by: Option<String>,
    pub modified_by: Option<String>,
}

/// The view of a school record's business fields.
pub struct SchoolV {
    pub name: Seq<char>,
    pub last_name: Seq<char>,
    pub school_name: Seq<char>,
    pub school_level: Seq<SchoolLevel>,
    pub email: Seq<char>,
    pub phone: Seq<char>,
    pub fb: Option<Seq<char>>,
    pub instagram: Option<Seq<char>>,
    pub linked_in: Option<Seq<char>>,
    pub tik_tok: Option<Seq<char>>,
    pub twitter: Option<Seq<char>>,
    pub first_contact_date: Option<i64>,
    pub sales_funnel: SalesFunnel,
    pub notes: Seq<char>,
    pub services_offered: Seq<ServicesOffered>,
    pub created_by: Option<Seq<char>>,
    pub modified_by: Option<Seq<char>>,
}

impl View for School {
    type V = SchoolV;

    open spec fn view(&self) -> SchoolV {
        SchoolV {
            name: self.name@,
            last_name: self.last_name@,
            school_name: self.school_name@,
            school_level: self.school_level@,
            email: self.email@,
            phone: self.phone@,
            fb: view_opt_string(self.fb),
            instagram: view_opt_string(self.instagram),
            linked_in: view_opt_string(self.linked_in),
            tik_tok: view_opt_string(self.tik_tok),
            twitter: view_opt_string(self.twitter),
            first_contact_date: self.first_contact_date,
            sales_funnel: self.sales_funnel,
            notes: self.notes@,
            services_offered: self.services_offered@,
            created_by: view_opt_string(self.created_by),
            modified_by: view_opt_string(self.modified_by),
        }
    }
}

impl Fields for School {
    fn dup(&self) -> (r: Self) {
        School {
            name: self.name.clone(),
            last_name: self.last_name.clone(),
            school_name: self.school_name.clone(),
            school_level: dup_copy_vec(&self.school_level),
            email: self.email.clone(),
            phone: self.phone.clone(),
            fb: dup_opt_string(&self.fb),
            instagram: dup_opt_string(&self.instagram),
            linked_in: dup_opt_string(&self.linked_in),
            tik_tok: dup_opt_string(&self.tik_tok),
            twitter: dup_opt_string(&self.twitter),
            first_contact_date: self.first_contact_date,
            sales_funnel: self.sales_funnel,
            notes: self.notes.clone(),
            services_offered: dup_copy_vec(&self.services_offered),
            created_by: dup_opt_string(&self.created_by),
            modified_by: dup_opt_string(&self.modified_by),
        }
    }
}

/// An error message produced while rendering a school template.
pub struct SchoolHandlebarsError {
    pub error: String,
}

impl SchoolHandlebarsError {
    pub fn new(error: String) -> (r: SchoolHandlebarsError)
        ensures
            r.error == error,
    {
        SchoolHandlebarsError { error }
    }
}

/// A field constraint that a school submission violated.
#[derive(Clone, Copy, Debug, PartialEq, Eq, Structural)]
pub enum SchoolViolation {
    NameLength,
    LastNameLength,
    SchoolNameLength,
    Email,
    FacebookUrl,
}

impl SchoolViolation {
    /// The field that the violated constraint sits on.
    pub fn field(&self) -> (r: String)
        ensures
            r@ == (match self {
                SchoolViolation::NameLength => "name"@,
                SchoolViolation::LastNameLength => "last_name"@,
                SchoolViolation::SchoolNameLength => "school_name"@,
                SchoolViolation::Email => "email"@,
                SchoolViolation::FacebookUrl => "fb"@,
            }),
    {
        match self {
            SchoolViolation::NameLength => "name".to_owned(),
            SchoolViolation::LastNameLength => "last_name".to_owned(),
            SchoolViolation::SchoolNameLength => "school_name".to_owned(),
            SchoolViolation::Email => "email".to_owned(),
            SchoolViolation::FacebookUrl => "fb".to_owned(),
        }
    }

    /// The constraint kind, as the validation report names it.
    pub fn code(&self) -> (r: String)
        ensures
            r@ == (match self {
                SchoolViolation::NameLength => "length"@,
                SchoolViolation::LastNameLength => "length"@,
                SchoolViolation::SchoolNameLength => "length"@,
                SchoolViolation::Email => "email"@,
                SchoolViolation::FacebookUrl => "url"@,
            }),
    {
        match self {
            SchoolViolation::NameLength => "length".to_owned(),
            SchoolViolation::LastNameLength => "length".to_owned(),
            SchoolViolation::SchoolNameLength => "length".to_owned(),
            SchoolViolation::Email => "email".to_owned(),
            SchoolViolation::FacebookUrl => "url".to_owned(),
        }
    }
}

/// Every field constraint of a school submission: names and the school name
/// at least two characters, a well-formed email, and a well-formed Facebook
/// URL when given.
pub open spec fn spec_school_valid(s: School) -> bool {
    &&& s.name@.len() >= 2
    &&& s.last_name@.len() >= 2
    &&& s.school_name@.len() >= 2
    &&& is_email(s.email@)
    &&& (s.fb matches Some(u) ==> is_url(u@))
}

/// The violations of a school submission, in field order.
pub open spec fn spec_school_violations(s: School) -> Seq<SchoolViolation> {
    (if s.name@.len() < 2 {
        seq![SchoolViolation::NameLength]
    } else {
        Seq::<SchoolViolation>::empty()
    }) + (if s.last_name@.len() < 2 {
        seq![SchoolViolation::LastNameLength]
    } else {
        Seq::<SchoolViolation>::empty()
    }) + (if s.school_name@.len() < 2 {
        seq![SchoolViolation::SchoolNameLength]
    } else {
        Seq::<SchoolViolation>::empty()
    }) + (if !is_email(s.email@) {
        seq![SchoolViolation::Email]
    } else {
        Seq::<SchoolViolation>::empty()
    }) + (if s.fb matches Some(u) && !is_url(u@) {
        seq![SchoolViolation::FacebookUrl]
    } else {
        Seq::<SchoolViolation>::empty()
    })
}

/// Checks every field constraint of a school submission and reports the
/// violated ones; an empty report means the submission is valid.
pub fn validate_school(s: &School) -> (r: Vec<SchoolViolation>)
    ensures
        r@ == spec_school_violations(*s),
        r@.len() == 0 <==> spec_school_valid(*s),
{
    let mut out: Vec<SchoolViolation> = Vec::new();
    if s.name.as_str().unicode_len() < 2 {
        out.push(SchoolViolation::NameLength);
    }
    if s.last_name.as_str().unicode_len() < 2 {
        out.push(SchoolViolation::LastNameLength);
    }
    if s.school_name.as_str().unicode_len() < 2 {
        out.push(SchoolViolation::SchoolNameLength);
    }
    if !validate_email(s.email.as_str()) {
        out.push(SchoolViolation::Email);
    }
    match &s.fb {
        Some(u) => {
            if !validate_url(u.as_str()) {
                out.push(SchoolViolation::FacebookUrl);
            }
        },
        None => {},
    }
    proof {
        assert(out@ =~= spec_school_violations(*s));
    }
    out
}

/// The payload that a creation stores: the submission, with the first-contact
/// date set to the moment of creation.
pub open spec fn spec_create_payload(body: School, now: i64) -> School {
    School { first_contact_date: Some(now), ..body }
}

/// The payload that a merge update stores: the submission, with the
/// server-owned record of who created the school taken from the stored
/// record.
pub open spec fn spec_update_payload(body: School, stored: School) -> School {
    School { created_by: stored.created_by, ..body }
}

/// Creates a school: validates the submission, assigns a fresh identifier and
/// stores the record with both timestamps set to `now` and the first-contact
/// date filled in. An invalid submission is rejected before anything reaches
/// the table; a creation failure leaves the table unchanged.
pub fn create(table: &mut Table<School>, body: School, now: i64) -> (r: Result<
    Stored<School>,
    SchoolError,
>)
    requires
        old(table).wf(),
    ensures
        final(table).wf(),
        !spec_school_valid(body) ==> (r matches Err(e) && e == SchoolError::SchoolCreationFailure),
        match r {
            Ok(rec) => {
                &&& spec_school_valid(body)
                &&& rec.uuid@.len() == 32
                &&& forall|i: int| 0 <= i < rec.uuid@.len() ==> is_lower_hex_char(#[trigger] rec.uuid@[i])
                &&& !old(table).has_key(rec.uuid@)
                &&& rec@ == spec_new_record(rec.uuid, spec_create_payload(body, now), now)@
                &&& !rec.deleted
                &&& rec.date_created == now
                &&& rec.date_modified == now
                &&& rec.fields@ == spec_create_payload(body, now)@
                &&& final(table).has_key(rec.uuid@)
                &&& final(table).at_key(rec.uuid@)@ == rec@
                &&& final(table).rows_view().len() == old(table).rows_view().len() + 1
                &&& forall|k: Seq<char>|
                    k != rec.uuid@ ==> (final(table).has_key(k) <==> old(table).has_key(k))
                        && (old(table).has_key(k) ==> final(table).at_key(k) == old(
                        table,
                    ).at_key(k))
            },
            Err(e) => *final(table) == *old(table) && e == SchoolError::SchoolCreationFailure,
        },
{
    let violations = validate_school(&body);
    if violations.len() > 0 {
        return Err(SchoolError::SchoolCreationFailure);
    }
    let new_uuid = get_uuid();
    let payload = School { first_contact_date: Some(now), ..body };
    match util_add_one(table, new_uuid, payload, now) {
        Some(rec) => Ok(rec),
        None => Err(SchoolError::SchoolCreationFailure),
    }
}

/// Merge-updates the school at `uuid`: validates the submission, verifies
/// existence, and overwrites the stored business fields with the submitted
/// ones — keeping the identifier, the creation time and who created the
/// record — while refreshing the modification time. Succeeds exactly on a
/// valid submission against a present identifier.
pub fn update_one(
    table: &mut Table<School>,
    uuid: &String,
    body: School,
    deleted: bool,
    now: i64,
) -> (r: Result<Stored<School>, SchoolError>)
    requires
        old(table).wf(),
    ensures
        final(table).wf(),
        r is Ok <==> spec_school_valid(body) && old(table).has_key(uuid@),
        match r {
            Ok(rec) => {
                &&& rec@ == spec_merged(
                    old(table).at_key(uuid@),
                    spec_update_payload(body, old(table).at_key(uuid@).fields),
                    deleted,
                    now,
                )@
                &&& rec.uuid@ == uuid@
                &&& rec.date_created == old(table).at_key(uuid@).date_created
                &&& rec.date_modified == now
                &&& rec.fields@.created_by == old(table).at_key(uuid@).fields@.created_by
                &&& rec.fields@.notes == body@.notes
                &&& rec.fields@.name == body@.name
                &&& rec.fields@.email == body@.email
                &&& final(table).has_key(uuid@)
                &&& final(table).at_key(uuid@)@ == rec@
                &&& final(table).rows_view().len() == old(table).rows_view().len()
                &&& forall|k: Seq<char>|
                    k != uuid@ ==> (final(table).has_key(k) <==> old(table).has_key(k))
                        && (old(table).has_key(k) ==> final(table).at_key(k) == old(
                        table,
                    ).at_key(k))
            },
            Err(e) => {
                &&& *final(table) == *old(table)
                &&& (e == SchoolError::SchoolCreationFailure <==> !spec_school_valid(body))
                &&& (e == SchoolError::NoSchoolsFound <==> spec_school_valid(body) && !old(
                    table,
                ).has_key(uuid@))
            },
        },
{
    let violations = validate_school(&body);
    if violations.len() > 0 {
        return Err(SchoolError::SchoolCreationFailure);
    }
    match util_find_one(table, uuid) {
        None => Err(SchoolError::NoSchoolsFound),
        Some(stored) => {
            let payload = School { created_by: dup_opt_string(&stored.fields.created_by), ..body };
            match util_update_one(table, uuid, payload, deleted, now) {
                Some(rec) => Ok(rec),
                None => {
                    proof {
                        assert(false);
                    }
                    Err(SchoolError::NoSchoolsFound)
                },
            }
        },
    }
}

/// Pairs every record of a listing with the option tags selected for it, as
/// the table pages show them: each entry keeps its record and carries the
/// catalogue of service and funnel tags with that record's selections.
pub fn general_tags(records: Vec<Stored<School>>) -> (r: Vec<GeneralTags<Stored<School>>>)
    ensures
        r@.len() == records@.len(),
        forall|i: int|
            0 <= i < r@.len() ==> (#[trigger] r@[i]).section == records@[i] && spec_selected_tags(
                r@[i].services_tag@,
                r@[i].funnel_tag@,
                records@[i].fields.services_offered@,
                records@[i].fields.sales_funnel,
            ),
{
    let ghost orig = records@;
    let mut records = records;
    let mut out: Vec<GeneralTags<Stored<School>>> = Vec::new();
    while records.len() > 0
        invariant
            out@.len() + records@.len() == orig.len(),
            records@ == orig.skip(out@.len() as int),
            forall|i: int|
                0 <= i < out@.len() ==> (#[trigger] out@[i]).section == orig[i]
                    && spec_selected_tags(
                    out@[i].services_tag@,
                    out@[i].funnel_tag@,
                    orig[i].fields.services_offered@,
                    orig[i].fields.sales_funnel,
                ),
        decreases records@.len(),
    {
        let ghost done = out@.len() as int;
        let school = records.remove(0);
        proof {
            assert(school == orig[done]);
            assert(records@ =~= orig.skip(done + 1));
        }
        let (services_tag, funnel_tag) = create_option_tags_info_for_services_and_funnel(
            dup_copy_vec(&school.fields.services_offered),
            school.fields.sales_funnel,
        );
        out.push(GeneralTags { section: school, funnel_tag, services_tag });
    }
    out
}

/// Soft-deletes the school at `uuid`: verifies existence, then sets the
/// deletion flag and refreshes the modification time through a partial patch,
/// leaving every other field untouched. The record stays in the table.
pub fn delete_one(table: &mut Table<School>, uuid: &String, now: i64) -> (r: Result<
    Stored<School>,
    SchoolError,
>)
    requires
        old(table).wf(),
    ensures
        final(table).wf(),
        r is Ok <==> old(table).has_key(uuid@),
        match r {
            Ok(rec) => {
                &&& rec@ == spec_soft_deleted(old(table).at_key(uuid@), now)@
                &&& rec.deleted
                &&& rec.uuid@ == uuid@
                &&& rec.date_created == old(table).at_key(uuid@).date_created
                &&& rec.date_modified == now
                &&& rec.fields@ == old(table).at_key(uuid@).fields@
                &&& final(table).has_key(uuid@)
                &&& final(table).at_key(uuid@) == spec_soft_deleted(old(table).at_key(uuid@), now)
                &&& final(table).rows_view().len() == old(table).rows_view().len()
                &&& forall|k: Seq<char>|
                    k != uuid@ ==> (final(table).has_key(k) <==> old(table).has_key(k))
                        && (old(table).has_key(k) ==> final(table).at_key(k) == old(
                        table,
                    ).at_key(k))
            },
            Err(e) => *final(table) == *old(table) && e == SchoolError::NoSchoolsFound && !old(
                table,
            ).has_key(uuid@),
        },
{
    match util_delete_one(table, uuid, now) {
        Some(rec) => Ok(rec),
        None => Err(SchoolError::NoSchoolsFound),
    }
}

} // verus!
