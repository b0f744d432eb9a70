//! The error outcomes that handlers convert failures into. Each carries a
//! status code and an identifying message, never internal error detail.

use vstd::prelude::*;

verus! {

/// Failure outcome of an enterprise operation.
#[derive(Clone, Copy, Debug, PartialEq, Eq, Structural)]
pub enum EnterpriseError {
    NoEnterprisesFound,
    EnterpriseCreationFailure,
}

impl EnterpriseError {
    /// The status code that this failure is reported with.
    pub fn status_code(&self) -> (r: u16)
        ensures
            r == (match self {
                EnterpriseError::NoEnterprisesFound => 404u16,
                EnterpriseError::EnterpriseCreationFailure => 500u16,
            }),
    {
        match self {
            EnterpriseError::NoEnterprisesFound => 404,
            EnterpriseError::EnterpriseCreationFailure => 500,
        }
    }

    /// The identifying message of this failure.
    pub fn message(&self) -> (r: String)
        ensures
            r@ == (match self {
                EnterpriseError::NoEnterprisesFound => "NoEnterprisesFound"@,
                EnterpriseError::EnterpriseCreationFailure => "EnterpriseCreationFailure"@,
            }),
    {
        match self {
            EnterpriseError::NoEnterprisesFound => "NoEnterprisesFound".to_owned(),
            EnterpriseError::EnterpriseCreationFailure => "EnterpriseCreationFailure".to_owned(),
        }
    }
}

/// Failure outcome of a clinical operation.
#[derive(Clone, Copy, Debug, PartialEq, Eq, Structural)]
pub enum ClinicalError {
    NoClinicalsFound,
    ClinicalCreationFailure,
}

impl ClinicalError {
    /// The status code that this failure is reported with.
    pub fn status_code(&self) -> (r: u16)
        ensures
            r == (match self {
                ClinicalError::NoClinicalsFound => 404u16,
                ClinicalError::ClinicalCreationFailure => 500u16,
            }),
    {
        match self {
            ClinicalError::NoClinicalsFound => 404,
            ClinicalError::ClinicalCreationFailure => 500,
        }
    }

    /// The identifying message of this failure.
    pub fn message(&self) -> (r: String)
        ensures
            r@ == (match self {
                ClinicalError::NoClinicalsFound => "NoClinicalsFound"@,
                ClinicalError::ClinicalCreationFailure => "ClinicalCreationFailure"@,
            }),
    {
        match self {
            ClinicalError::NoClinicalsFound => "NoClinicalsFound".to_owned(),
            ClinicalError::ClinicalCreationFailure => "ClinicalCreationFailure".to_owned(),
        }
    }
}

/// Failure outcome of a school operation.
#[derive(Clone, Copy, Debug, PartialEq, Eq, Structural)]
pub enum SchoolError {
    NoSchoolsFound,
    SchoolCreationFailure,
}

impl SchoolError {
    /// The status code that this failure is reported with.
    pub fn status_code(&self) -> (r: u16)
        ensures
            r == (match self {
                SchoolError::NoSchoolsFound => 404u16,
                SchoolError::SchoolCreationFailure => 500u16,
            }),
    {
        match self {
            SchoolError::NoSchoolsFound => 404,
            SchoolError::SchoolCreationFailure => 500,
        }
    }

    /// The identifying message of this failure.
    pub fn message(&self) -> (r: String)
        ensures
            r@ == (match self {
                SchoolError::NoSchoolsFound => "NoSchoolsFound"@,
                SchoolError::SchoolCreationFailure => "SchoolCreationFailure"@,
            }),
    {
        match self {
            SchoolError::NoSchoolsFound => "NoSchoolsFound".to_owned(),
            SchoolError::SchoolCreationFailure => "SchoolCreationFailure".to_owned(),
        }
    }
}

/// Failure outcome of a user operation.
#[derive(Clone, Copy, Debug, PartialEq, Eq, Structural)]
pub enum UserError {
    NoUsersFound,
    UserCreationFailure,
}

impl UserError {
    /// The status code that this failure is reported with.
    pub fn status_code(&self) -> (r: u16)
        ensures
            r == (match self {
                UserError::NoUsersFound => 404u16,
                UserError::UserCreationFailure => 500u16,
            }),
    {
        match self {
            UserError::NoUsersFound => 404,
            UserError::UserCreationFailure => 500,
        }
    }

    /// The identifying message of this failure.
    pub fn message(&self) -> (r: String)
        ensures
            r@ == (match self {
                UserError::NoUsersFound => "NoUsersFound"@,
                UserError::UserCreationFailure => "UserCreationFailure"@,
            }),
    {
        match self {
            UserError::NoUsersFound => "NoUsersFound".to_owned(),
            UserError::UserCreationFailure => "UserCreationFailure".to_owned(),
        }
    }
}

/// Failure outcome of the authentication middleware.
pub enum ServiceErrorLocal {
    InternalServerError,
    BadRequest(String),
    JWKSFetchError,
}

impl ServiceErrorLocal {
    /// The body that this failure is reported with.
    pub fn error_response(&self) -> (r: String)
        ensures
            r@ == (match self {
                ServiceErrorLocal::InternalServerError => (
                "Internal Server Error, Please try later"@),
                ServiceErrorLocal::BadRequest(message) => message@,
                ServiceErrorLocal::JWKSFetchError => "Could not fetch JWKS"@,
            }),
    {
        match self {
            ServiceErrorLocal::InternalServerError => "Internal Server Error, Please try later".to_owned(),
            ServiceErrorLocal::BadRequest(message) => message.clone(),
            ServiceErrorLocal::JWKSFetchError => "Could not fetch JWKS".to_owned(),
        }
    }
}

/// An error message produced while rendering the help pages.
pub struct HelpDataError {
    pub error: String,
}

impl HelpDataError {
    pub fn new(error: String) -> (r: HelpDataError)
        ensures
            r.error == error,
    {
        HelpDataError { error }
    }
}

} // verus!
