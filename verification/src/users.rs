//! The user entity: its record shape, roles and validation rules.

use crate::crud::dup_opt_string;
use crate::crud::spec_soft_deleted;
use crate::crud::util_add_one;
use crate::crud::util_delete_one;
use crate::crud::util_find_one;
use crate::crud::util_update_one;
use crate::crud::view_opt_string;
use crate::crud::Fields;
use crate::crud::Stored;
use crate::crud::Table;
use crate::errors::UserError;
use crate::general::get_uuid;
use crate::pwd::default_password;
use crate::pwd::pwd_hasher;
use crate::pwd::resolve_new_password;
use crate::validation::is_email;
use crate::validation::validate_email;
use vstd::prelude::*;
use vstd::string::StrSliceExecFns;

verus! {

/// Shortest accepted name or last name, in characters.
pub const MINIMUM_NAMES_LENGTH: usize = 2;

/// Longest accepted name or last name, in characters.
pub const MAXIMUM_NAMES_LENGTH: usize = 35;

/// Shortest accepted password, in characters.
pub const MINIMUM_PASSWORD_LENGTH: usize = 10;

/// Longest accepted password, in characters.
pub const MAXIMUM_PASSWORD_LENGTH: usize = 255;

/// Role that decides what a user may edit.
#[derive(Clone, Copy, Debug, PartialEq, Eq, Structural)]
pub enum Roles {
    ADMIN,
    EDITOR,
}

impl Roles {
    /// The label shown for this role.
    pub open spec fn spec_text(self) -> Seq<char> {
        match self {
            Roles::ADMIN => "ADMIN"@,
            Roles::EDITOR => "EDITOR"@,
        }
    }

    /// Returns the label shown for this role.
    pub fn text(&self) -> (r: String)
        ensures
            r@ == self.spec_text(),
    {
        match self {
            Roles::ADMIN => "ADMIN".to_owned(),
            Roles::EDITOR => "EDITOR".to_owned(),
        }
    }
}

/// An option tag for one role.
pub struct RolesTag {
    pub value: Roles,
    pub text: String,
    pub selected: bool,
}

/// A response body that carries just a user identifier.
pub struct UserUuid {
    pub uuid: String,
}

/// The business fields of a user record, as the store keeps them.
#[derive(Debug)]
pub struct User {
    pub name: String,
    pub last_name: String,
    pub email: String,
    pub role: Roles,
    pub password: Option<String>,
    pub notes: Option<String>,
    pub role_string: Option<String>,
}

/// A user as a creation request submits it.
#[derive(Debug)]
pub struct UserFromJson {
    pub name: String,
    pub last_name: String,
    pub email: String,
    pub role: Roles,
    pub notes: Option<String>,
    pub password: Option<String>,
}

/// The view of a user's business fields.
pub struct UserV {
    pub name: Seq<char>,
    pub last_name: Seq<char>,
    pub email: Seq<char>,
    pub role: Roles,
    pub password: Option<Seq<char>>,
    pub notes: Option<Seq<char>>,
    pub role_string: Option<Seq<char>>,
}

impl View for User {
    type V = UserV;

    open spec fn view(&self) -> UserV {
        UserV {
            name: self.name@,
            last_name: self.last_name@,
            email: self.email@,
            role: self.role,
            password: view_opt_string(self.password),
            notes: view_opt_string(self.notes),
            role_string: view_opt_string(self.role_string),
        }
    }
}

impl Fields for User {
    fn dup(&self) -> (r: Self) {
        User {
            name: self.name.clone(),
            last_name: self.last_name.clone(),
            email: self.email.clone(),
            role: self.role,
            password: dup_opt_string(&self.password),
            notes: dup_opt_string(&self.notes),
            role_string: dup_opt_string(&self.role_string),
        }
    }
}

impl User {
    /// The user record that a creation request yields: the submitted fields,
    /// with the role's label denormalised beside the role.
    pub fn new(user: UserFromJson) -> (r: User)
        ensures
            r.name == user.name,
            r.last_name == user.last_name,
            r.email == user.email,
            r.role == user.role,
            r.password == user.password,
            r.notes == user.notes,
            r.role_string matches Some(s) && s@ == user.role.spec_text(),
    {
        let role_string = Some(user.role.text());
        User {
            name: user.name,
            last_name: user.last_name,
            email: user.email,
            role: user.role,
            password: user.password,
            notes: user.notes,
            role_string,
        }
    }
}

/// An error message produced while rendering a user template.
pub struct UserHandlebarsError {
    pub error: String,
}

impl UserHandlebarsError {
    pub fn new(error: String) -> (r: UserHandlebarsError)
        ensures
            r.error == error,
    {
        UserHandlebarsError { error }
    }
}

/// The server-reconciled parts of a user update: the stored creation time and
/// the password that the merged record will keep.
pub struct UserPartials {
    pub date_created: Option<i64>,
    pub password: String,
}

/// A partial user, as a filtered query submits it: only the fields present
/// take part.
pub struct Projection {
    pub name: Option<String>,
    pub last_name: Option<String>,
    pub email: Option<String>,
    pub role: Option<Roles>,
    pub deleted: Option<bool>,
}

/// A field constraint that a user submission violated.
#[derive(Clone, Copy, Debug, PartialEq, Eq, Structural)]
pub enum UserViolation {
    NameLength,
    LastNameLength,
    Email,
    PasswordLength,
}

impl UserViolation {
    /// The field that the violated constraint sits on.
    pub fn field(&self) -> (r: String)
        ensures
            r@ == (match self {
                UserViolation::NameLength => "name"@,
                UserViolation::LastNameLength => "last_name"@,
                UserViolation::Email => "email"@,
                UserViolation::PasswordLength => "password"@,
            }),
    {
        match self {
            UserViolation::NameLength => "name".to_owned(),
            UserViolation::LastNameLength => "last_name".to_owned(),
            UserViolation::Email => "email".to_owned(),
            UserViolation::PasswordLength => "password".to_owned(),
        }
    }

    /// The constraint kind, as the validation report names it.
    pub fn code(&self) -> (r: String)
        ensures
            r@ == (match self {
                UserViolation::NameLength => "length"@,
                UserViolation::LastNameLength => "length"@,
                UserViolation::Email => "email"@,
                UserViolation::PasswordLength => "length"@,
            }),
    {
        match self {
            UserViolation::NameLength => "length".to_owned(),
            UserViolation::LastNameLength => "length".to_owned(),
            UserViolation::Email => "email".to_owned(),
            UserViolation::PasswordLength => "length".to_owned(),
        }
    }
}

/// The field constraints shared by user submissions: names of two to
/// thirty-five characters, a well-formed email, and — when a password is
/// submitted — ten to two hundred and fifty-five characters of it.
pub open spec fn spec_user_fields_valid(
    name: Seq<char>,
    last_name: Seq<char>,
    email: Seq<char>,
    password: Option<Seq<char>>,
) -> bool {
    &&& MINIMUM_NAMES_LENGTH <= name.len() <= MAXIMUM_NAMES_LENGTH
    &&& MINIMUM_NAMES_LENGTH <= last_name.len() <= MAXIMUM_NAMES_LENGTH
    &&& is_email(email)
    &&& (password matches Some(p) ==> MINIMUM_PASSWORD_LENGTH <= p.len()
        <= MAXIMUM_PASSWORD_LENGTH)
}

/// The violations of a user submission, in field order.
pub open spec fn spec_user_fields_violations(
    name: Seq<char>,
    last_name: Seq<char>,
    email: Seq<char>,
    password: Option<Seq<char>>,
) -> Seq<UserViolation> {
    (if !(MINIMUM_NAMES_LENGTH <= name.len() <= MAXIMUM_NAMES_LENGTH) {
        seq![UserViolation::NameLength]
    } else {
        Seq::<UserViolation>::empty()
    }) + (if !(MINIMUM_NAMES_LENGTH <= last_name.len() <= MAXIMUM_NAMES_LENGTH) {
        seq![UserViolation::LastNameLength]
    } else {
        Seq::<UserViolation>::empty()
    }) + (if !is_email(email) {
        seq![UserViolation::Email]
    } else {
        Seq::<UserViolation>::empty()
    }) + (if password matches Some(p) && !(MINIMUM_PASSWORD_LENGTH <= p.len()
        <= MAXIMUM_PASSWORD_LENGTH) {
        seq![UserViolation::PasswordLength]
    } else {
        Seq::<UserViolation>::empty()
    })
}

/// Checks the shared user field constraints and reports the violated ones.
fn validate_user_fields(
    name: &String,
    last_name: &String,
    email: &String,
    password: &Option<String>,
) -> (r: Vec<UserViolation>)
    ensures
        r@ == spec_user_fields_violations(name@, last_name@, email@, view_opt_string(*password)),
        r@.len() == 0 <==> spec_user_fields_valid(
            name@,
            last_name@,
            email@,
            view_opt_string(*password),
        ),
{
    let mut out: Vec<UserViolation> = Vec::new();
    let name_len = name.as_str().unicode_len();
    if name_len < MINIMUM_NAMES_LENGTH || name_len > MAXIMUM_NAMES_LENGTH {
        out.push(UserViolation::NameLength);
    }
    let last_name_len = last_name.as_str().unicode_len();
    if last_name_len < MINIMUM_NAMES_LENGTH || last_name_len > MAXIMUM_NAMES_LENGTH {
        out.push(UserViolation::LastNameLength);
    }
    if !validate_email(email.as_str()) {
        out.push(UserViolation::Email);
    }
    match password {
        Some(p) => {
            let p_len = p.as_str().unicode_len();
            if p_len < MINIMUM_PASSWORD_LENGTH || p_len > MAXIMUM_PASSWORD_LENGTH {
                out.push(UserViolation::PasswordLength);
            }
        },
        None => {},
    }
    proof {
        assert(out@ =~= spec_user_fields_violations(
            name@,
            last_name@,
            email@,
            view_opt_string(*password),
        ));
    }
    out
}

/// Every field constraint of a stored-shape user submission.
pub open spec fn spec_user_valid(u: User) -> bool {
    spec_user_fields_valid(u.name@, u.last_name@, u.email@, view_opt_string(u.password))
}

/// Checks every field constraint of a stored-shape user submission.
pub fn validate_user(u: &User) -> (r: Vec<UserViolation>)
    ensures
        r@ == spec_user_fields_violations(
            u.name@,
            u.last_name@,
            u.email@,
            view_opt_string(u.password),
        ),
        r@.len() == 0 <==> spec_user_valid(*u),
{
    validate_user_fields(&u.name, &u.last_name, &u.email, &u.password)
}

/// Every field constraint of a creation-shape user submission.
pub open spec fn spec_user_from_json_valid(u: UserFromJson) -> bool {
    spec_user_fields_valid(u.name@, u.last_name@, u.email@, view_opt_string(u.password))
}

/// Checks every field constraint of a creation-shape user submission.
pub fn validate_user_from_json(u: &UserFromJson) -> (r: Vec<UserViolation>)
    ensures
        r@ == spec_user_fields_violations(
            u.name@,
            u.last_name@,
            u.email@,
            view_opt_string(u.password),
        ),
        r@.len() == 0 <==> spec_user_from_json_valid(*u),
{
    validate_user_fields(&u.name, &u.last_name, &u.email, &u.password)
}

/// Creates a user: validates the submission, assigns a fresh identifier,
/// hashes the submitted password — falling back to a password derived from
/// the identifier when none was submitted or hashing failed — and stores the
/// record with both timestamps set to `now`. An invalid submission is
/// rejected before anything reaches the table.
pub fn create(table: &mut Table<User>, user: UserFromJson, now: i64) -> (r: Result<
    Stored<User>,
    UserError,
>)
    requires
        old(table).wf(),
    ensures
        final(table).wf(),
        !spec_user_from_json_valid(user) ==> (r matches Err(e) && e
            == UserError::UserCreationFailure),
        match r {
            Ok(rec) => {
                &&& spec_user_from_json_valid(user)
                &&& rec.uuid@.len() == 32
                &&& forall|i: int|
                    0 <= i < rec.uuid@.len() ==> crate::is_lower_hex_char(#[trigger] rec.uuid@[i])
                &&& !old(table).has_key(rec.uuid@)
                &&& !rec.deleted
                &&& rec.date_created == now
                &&& rec.date_modified == now
                &&& rec.fields@.name == user.name@
                &&& rec.fields@.last_name == user.last_name@
                &&& rec.fields@.email == user.email@
                &&& rec.fields@.role == user.role
                &&& rec.fields@.notes == view_opt_string(user.notes)
                &&& rec.fields@.role_string == Some(user.role.spec_text())
                &&& rec.fields@.password is Some
                &&& (user.password is None ==> rec.fields@.password == Some(
                    "default_passwd_for_user"@ + rec.uuid@,
                ))
                &&& final(table).has_key(rec.uuid@)
                &&& final(table).at_key(rec.uuid@)@ == rec@
                &&& final(table).rows_view().len() == old(table).rows_view().len() + 1
                &&& forall|k: Seq<char>|
                    k != rec.uuid@ ==> (final(table).has_key(k) <==> old(table).has_key(k))
                        && (old(table).has_key(k) ==> final(table).at_key(k) == old(
                        table,
                    ).at_key(k))
            },
            Err(e) => *final(table) == *old(table) && e == UserError::UserCreationFailure,
        },
{
    let violations = validate_user_from_json(&user);
    if violations.len() > 0 {
        return Err(UserError::UserCreationFailure);
    }
    let new_uuid = get_uuid();
    let hashed: String = match user.password {
        Some(pw) => resolve_new_password(pwd_hasher(pw), &new_uuid),
        None => default_password(&new_uuid),
    };
    let payload = User {
        name: user.name,
        last_name: user.last_name,
        email: user.email,
        role: user.role,
        password: Some(hashed),
        notes: user.notes,
        role_string: Some(user.role.text()),
    };
    match util_add_one(table, new_uuid, payload, now) {
        Some(rec) => Ok(rec),
        None => Err(UserError::UserCreationFailure),
    }
}

/// Merge-updates the user at `uuid`: validates the submission, verifies
/// existence, and overwrites the stored business fields with the submitted
/// ones — keeping the identifier and the creation time — while refreshing the
/// modification time. A submitted password is hashed anew; without one the
/// stored password is kept, or the identifier-derived fallback stored when
/// none exists. Succeeds exactly on a valid submission against a present
/// identifier.
pub fn update_one(
    table: &mut Table<User>,
    uuid: &String,
    body: User,
    deleted: bool,
    now: i64,
) -> (r: Result<Stored<User>, UserError>)
    requires
        old(table).wf(),
    ensures
        final(table).wf(),
        r is Ok <==> spec_user_valid(body) && old(table).has_key(uuid@),
        match r {
            Ok(rec) => {
                &&& rec.uuid@ == uuid@
                &&& rec.deleted == deleted
                &&& rec.date_created == old(table).at_key(uuid@).date_created
                &&& rec.date_modified == now
                &&& rec.fields@.name == body.name@
                &&& rec.fields@.last_name == body.last_name@
                &&& rec.fields@.email == body.email@
                &&& rec.fields@.role == body.role
                &&& rec.fields@.notes == view_opt_string(body.notes)
                &&& rec.fields@.role_string == Some(body.role.spec_text())
                &&& rec.fields@.password is Some
                &&& (body.password is None && old(table).at_key(uuid@).fields.password is Some
                    ==> rec.fields@.password == old(table).at_key(uuid@).fields@.password)
                &&& (body.password is None && old(table).at_key(uuid@).fields.password is None
                    ==> rec.fields@.password == Some("default_passwd_for_user"@ + uuid@))
                &&& final(table).has_key(uuid@)
                &&& final(table).at_key(uuid@)@ == rec@
                &&& final(table).rows_view().len() == old(table).rows_view().len()
                &&& forall|k: Seq<char>|
                    k != uuid@ ==> (final(table).has_key(k) <==> old(table).has_key(k))
                        && (old(table).has_key(k) ==> final(table).at_key(k) == old(
                        table,
                    ).at_key(k))
            },
            Err(e) => {
                &&& *final(table) == *old(table)
                &&& (e == UserError::UserCreationFailure <==> !spec_user_valid(body))
                &&& (e == UserError::NoUsersFound <==> spec_user_valid(body) && !old(
                    table,
                ).has_key(uuid@))
            },
        },
{
    let violations = validate_user(&body);
    if violations.len() > 0 {
        return Err(UserError::UserCreationFailure);
    }
    match util_find_one(table, uuid) {
        None => Err(UserError::NoUsersFound),
        Some(stored) => {
            let resolved: String = match body.password {
                Some(pw) => resolve_new_password(pwd_hasher(pw), uuid),
                None => match &stored.fields.password {
                    Some(sp) => sp.clone(),
                    None => default_password(uuid),
                },
            };
            let payload = User {
                name: body.name,
                last_name: body.last_name,
                email: body.email,
                role: body.role,
                password: Some(resolved),
                notes: body.notes,
                role_string: Some(body.role.text()),
            };
            match util_update_one(table, uuid, payload, deleted, now) {
                Some(rec) => Ok(rec),
                None => {
                    proof {
                        assert(false);
                    }
                    Err(UserError::NoUsersFound)
                },
            }
        },
    }
}

/// Soft-deletes the user at `uuid`: verifies existence, then sets the
/// deletion flag and refreshes the modification time through a partial patch,
/// leaving every other field untouched. The record stays in the table.
pub fn delete_one(table: &mut Table<User>, uuid: &String, now: i64) -> (r: Result<
    Stored<User>,
    UserError,
>)
    requires
        old(table).wf(),
    ensures
        final(table).wf(),
        r is Ok <==> old(table).has_key(uuid@),
        match r {
            Ok(rec) => {
                &&& rec@ == spec_soft_deleted(old(table).at_key(uuid@), now)@
                &&& rec.deleted
                &&& rec.uuid@ == uuid@
                &&& rec.date_created == old(table).at_key(uuid@).date_created
                &&& rec.date_modified == now
                &&& rec.fields@ == old(table).at_key(uuid@).fields@
                &&& final(table).has_key(uuid@)
                &&& final(table).at_key(uuid@) == spec_soft_deleted(old(table).at_key(uuid@), now)
                &&& final(table).rows_view().len() == old(table).rows_view().len()
                &&& forall|k: Seq<char>|
                    k != uuid@ ==> (final(table).has_key(k) <==> old(table).has_key(k))
                        && (old(table).has_key(k) ==> final(table).at_key(k) == old(
                        table,
                    ).at_key(k))
            },
            Err(e) => *final(table) == *old(table) && e == UserError::NoUsersFound && !old(
                table,
            ).has_key(uuid@),
        },
{
    match util_delete_one(table, uuid, now) {
        Some(rec) => Ok(rec),
        None => Err(UserError::NoUsersFound),
    }
}

} // verus!
