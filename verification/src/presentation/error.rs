use crate::use_case::error::UseCaseError;
use vstd::prelude::*;
use vstd::std_specs::convert::FromSpecImpl;
use vstd::string::StringExecFns;

verus! {

/// What a client is told of a failure: that nothing was found, or that
/// something else went wrong.
#[derive(Debug, Clone, Copy, PartialEq, Eq, Structural)]
pub enum PresentationalError {
    NotFound,
    InternalServerError,
}

impl From<UseCaseError> for PresentationalError {
    /// `NotFound` stays `NotFound`; every other error becomes
    /// `InternalServerError`.
    fn from(error: UseCaseError) -> (shown: Self) {
        match error {
            UseCaseError::NotFound { entity_type: _, entity_id: _ } => PresentationalError::NotFound,
            _ => PresentationalError::InternalServerError,
        }
    }
}

impl FromSpecImpl<UseCaseError> for PresentationalError {
    open spec fn obeys_from_spec() -> bool {
        true
    }

    open spec fn from_spec(error: UseCaseError) -> Self {
        if error is NotFound {
            PresentationalError::NotFound
        } else {
            PresentationalError::InternalServerError
        }
    }
}

impl PresentationalError {
    /// The text shown for the error.
    pub open spec fn text(self) -> Seq<char> {
        match self {
            PresentationalError::NotFound => "Not Found"@,
            PresentationalError::InternalServerError => "Internal Server Error"@,
        }
    }

    /// "Not Found" or "Internal Server Error".
    pub fn to_string(&self) -> (shown: String)
        ensures
            shown@ == self.text(),
    {
        match self {
            PresentationalError::NotFound => String::from_str("Not Found"),
            PresentationalError::InternalServerError => String::from_str("Internal Server Error"),
        }
    }
}

} // verus!
