use vstd::prelude::*;

verus! {

/// A `DomainError` as plain data.
pub enum DomainErrorView {
    Validation(Seq<char>),
    NotFound { entity_type: Seq<char>, entity_id: i64 },
    Infrastructure(Seq<char>),
    Unexpected(Seq<char>),
}

/// What can go wrong below the use cases.
#[derive(Debug, PartialEq, Eq)]
pub enum DomainError {
    /// The input was rejected.
    Validation(String),
    /// No entity of that type has that id.
    NotFound { entity_type: String, entity_id: i64 },
    /// The store failed; the text is the driver's own.
    Infrastructure(String),
    /// Something that should not occur did.
    Unexpected(String),
}

impl View for DomainError {
    type V = DomainErrorView;

    open spec fn view(&self) -> DomainErrorView {
        match *self {
            DomainError::Validation(message) => DomainErrorView::Validation(message@),
            DomainError::NotFound { entity_type, entity_id } => DomainErrorView::NotFound {
                entity_type: entity_type@,
                entity_id,
            },
            DomainError::Infrastructure(message) => DomainErrorView::Infrastructure(message@),
            DomainError::Unexpected(message) => DomainErrorView::Unexpected(message@),
        }
    }
}

} // verus!
