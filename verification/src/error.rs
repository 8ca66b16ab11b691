//! The refusals of the store.
use vstd::prelude::*;

verus! {

/// Why an operation was refused. Every error is final for the operation that
/// raised it, and an operation that fails leaves every account it was given
/// as it found it.
#[derive(Debug, Clone, Copy, PartialEq, Eq, Structural)]
pub enum ComponentError {
    /// The address of a record to create is already occupied.
    AlreadyExists,
    /// A record or a component key is not where it was looked for.
    NotFound,
    /// A signature or authority is missing or is not the expected one, or a
    /// component or instance is outside the granted capability set.
    Unauthorized,
    /// An entity that still holds components was to be destroyed.
    NotEmpty,
    /// A payload is longer than the declared maximum size of its component.
    PayloadTooLarge,
    /// A storage size or a counter is beyond what the ledger can hold.
    SizeOverflow,
    /// The component schema is already in the catalogue.
    DuplicateSchema,
    /// The entity is already linked to the mint.
    AlreadyLinked,
    /// The singleton record was initialised before.
    AlreadyInitialized,
}

impl ComponentError {
    /// The text that describes the error.
    pub open spec fn spec_message(self) -> Seq<char> {
        match self {
            ComponentError::AlreadyExists => "Account Already Exists!"@,
            ComponentError::NotFound => "Not Found!"@,
            ComponentError::Unauthorized => "Unauthorized!"@,
            ComponentError::NotEmpty => "Entity Not Empty!"@,
            ComponentError::PayloadTooLarge => "Invalid Data Length!"@,
            ComponentError::SizeOverflow => "Size Overflow!"@,
            ComponentError::DuplicateSchema => "Duplicate Schema!"@,
            ComponentError::AlreadyLinked => "Already Linked!"@,
            ComponentError::AlreadyInitialized => "Already Initialized!"@,
        }
    }

    /// The text that describes the error.
    pub fn message(&self) -> (text: String)
        ensures
            text@ == self.spec_message(),
    {
        match self {
            ComponentError::AlreadyExists => "Account Already Exists!".to_owned(),
            ComponentError::NotFound => "Not Found!".to_owned(),
            ComponentError::Unauthorized => "Unauthorized!".to_owned(),
            ComponentError::NotEmpty => "Entity Not Empty!".to_owned(),
            ComponentError::PayloadTooLarge => "Invalid Data Length!".to_owned(),
            ComponentError::SizeOverflow => "Size Overflow!".to_owned(),
            ComponentError::DuplicateSchema => "Duplicate Schema!".to_owned(),
            ComponentError::AlreadyLinked => "Already Linked!".to_owned(),
            ComponentError::AlreadyInitialized => "Already Initialized!".to_owned(),
        }
    }
}

} // verus!
