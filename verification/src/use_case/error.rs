use crate::domain::error::DomainError;
use vstd::prelude::*;
use vstd::std_specs::convert::FromSpecImpl;

verus! {

/// What can go wrong in a use case: the errors of the domain, with
/// `Infrastructure` under the name `Other`.
#[derive(Debug, PartialEq, Eq)]
pub enum UseCaseError {
    Validation(String),
    NotFound { entity_type: String, entity_id: i64 },
    Other(String),
    Unexpected(String),
}

impl From<DomainError> for UseCaseError {
    /// Validation to Validation, NotFound to NotFound, Infrastructure to
    /// Other, Unexpected to Unexpected; what each carries is kept.
    fn from(error: DomainError) -> (mapped: Self) {
        match error {
            DomainError::Validation(message) => UseCaseError::Validation(message),
            DomainError::NotFound { entity_type, entity_id } => UseCaseError::NotFound {
                entity_type,
                entity_id,
            },
            DomainError::Infrastructure(message) => UseCaseError::Other(message),
            DomainError::Unexpected(message) => UseCaseError::Unexpected(message),
        }
    }
}

impl FromSpecImpl<DomainError> for UseCaseError {
    open spec fn obeys_from_spec() -> bool {
        true
    }

    open spec fn from_spec(error: DomainError) -> Self {
        match error {
            DomainError::Validation(message) => UseCaseError::Validation(message),
            DomainError::NotFound { entity_type, entity_id } => UseCaseError::NotFound {
                entity_type,
                entity_id,
            },
            DomainError::Infrastructure(message) => UseCaseError::Other(message),
            DomainError::Unexpected(message) => UseCaseError::Unexpected(message),
        }
    }
}

} // verus!
