//! The errors a reconciliation can end in, each with the message the status
//! record carries.

use vstd::prelude::*;

verus! {

/// Why a reconciliation step failed.
#[derive(Debug)]
pub enum Error {
    /// The requested cluster-wide role is not marked issuance-eligible (or
    /// does not exist with the marker).
    RoleNotEligible,
    /// The provisioned identity came back without a name.
    MissingName,
    /// The token secret carries no payload map at all.
    SecretNoData,
    /// The token secret's payload lacks the named field.
    MissingField(String),
    /// The named payload — the token — is not valid UTF-8 text.
    NotUtf8(String),
    /// An API call failed; the underlying message.
    Api(String),
}

/// The human-readable message for an error, as recorded in the request
/// status.
pub open spec fn spec_error_message(e: Error) -> Seq<char> {
    match e {
        Error::RoleNotEligible => "Role lacks the annotation kufefe.io/role"@,
        Error::MissingName => "ServiceAccount name is missing"@,
        Error::SecretNoData => "Secret has no data"@,
        Error::MissingField(f) => "Secret has no property "@ + f@,
        Error::NotUtf8(f) => "Could not parse "@ + f@,
        Error::Api(m) => m@,
    }
}

impl Error {
    /// Renders the error as the message the status record carries.
    pub fn message(&self) -> (r: String)
        ensures
            r@ == spec_error_message(*self),
    {
        match self {
            Error::RoleNotEligible => "Role lacks the annotation kufefe.io/role".to_owned(),
            Error::MissingName => "ServiceAccount name is missing".to_owned(),
            Error::SecretNoData => "Secret has no data".to_owned(),
            Error::MissingField(f) => {
                let r = "Secret has no property ".to_owned().concat(f.as_str());
                r
            },
            Error::NotUtf8(f) => {
                let r = "Could not parse ".to_owned().concat(f.as_str());
                r
            },
            Error::Api(m) => m.clone(),
        }
    }
}

} // verus!
