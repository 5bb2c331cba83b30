//! Why a bot is not admitted.

use crate::common::text::{join2, owned};
use vstd::prelude::*;
use vstd::string::StringExecFns;

verus! {

/// The reason of a denial.
#[derive(Debug, Clone)]
pub enum AdmissionError {
    /// The object is of another kind: the kind found, the kind expected.
    InvalidKind(String, String),
    /// The object is of a version that is not known: the version found,
    /// the kind.
    InvalidVersion(String, String),
    /// The object breaks a rule of the operator.
    ValidationError(String),
}

/// What a validation yields.
pub type AdmissionResult<T> = Result<T, AdmissionError>;

impl AdmissionError {
    /// The message of the denial.
    pub open spec fn message(&self) -> Seq<char> {
        match self {
            AdmissionError::InvalidKind(found, expected) => "invalid kind: "@ + found@ + " expected "@
                + expected@,
            AdmissionError::InvalidVersion(found, kind) => "invalid version: "@ + found@ + " for "@ + kind@,
            AdmissionError::ValidationError(m) => "validation error: "@ + m@,
        }
    }

    /// The message of the denial, as the response carries it.
    pub fn to_string(&self) -> (r: String)
        ensures
            r@ == self.message(),
    {
        match self {
            AdmissionError::InvalidKind(found, expected) => owned("invalid kind: ").concat(
                found.as_str(),
            ).concat(" expected ").concat(expected.as_str()),
            AdmissionError::InvalidVersion(found, kind) => owned("invalid version: ").concat(
                found.as_str(),
            ).concat(" for ").concat(kind.as_str()),
            AdmissionError::ValidationError(m) => join2("validation error: ", m.as_str()),
        }
    }
}

} // verus!
