//! What can go wrong when a command is handled or a store is used.

use vstd::prelude::*;
use super::events::SpecState;
use super::value_objects::ValidationError;

verus! {

/// Every failure that the service reports.
#[derive(Debug)]
pub enum DomainError {
    SpecNotFound(u128),
    InvalidStateTransition { from: SpecState, to: SpecState },
    VersionMismatch { expected: u32, actual: u32 },
    DuplicateSpecName(String),
    InvalidStateForOperation(SpecState),
    ValidationError(ValidationError),
    EventStoreError(String),
    ProjectionError(String),
}

pub enum DomainErrorView {
    SpecNotFound(u128),
    InvalidStateTransition { from: SpecState, to: SpecState },
    VersionMismatch { expected: u32, actual: u32 },
    DuplicateSpecName(Seq<char>),
    InvalidStateForOperation(SpecState),
    ValidationError(ValidationError),
    EventStoreError(Seq<char>),
    ProjectionError(Seq<char>),
}

impl View for DomainError {
    type V = DomainErrorView;

    open spec fn view(&self) -> DomainErrorView {
        match self {
            DomainError::SpecNotFound(id) => DomainErrorView::SpecNotFound(*id),
            DomainError::InvalidStateTransition { from, to } => {
                DomainErrorView::InvalidStateTransition { from: *from, to: *to }
            },
            DomainError::VersionMismatch { expected, actual } => {
                DomainErrorView::VersionMismatch { expected: *expected, actual: *actual }
            },
            DomainError::DuplicateSpecName(name) => DomainErrorView::DuplicateSpecName(name@),
            DomainError::InvalidStateForOperation(state) => {
                DomainErrorView::InvalidStateForOperation(*state)
            },
            DomainError::ValidationError(e) => DomainErrorView::ValidationError(*e),
            DomainError::EventStoreError(msg) => DomainErrorView::EventStoreError(msg@),
            DomainError::ProjectionError(msg) => DomainErrorView::ProjectionError(msg@),
        }
    }
}

impl Clone for DomainError {
    fn clone(&self) -> (copy: Self)
        ensures
            copy == *self,
    {
        match self {
            DomainError::SpecNotFound(id) => DomainError::SpecNotFound(*id),
            DomainError::InvalidStateTransition { from, to } => {
                DomainError::InvalidStateTransition { from: *from, to: *to }
            },
            DomainError::VersionMismatch { expected, actual } => {
                DomainError::VersionMismatch { expected: *expected, actual: *actual }
            },
            DomainError::DuplicateSpecName(name) => DomainError::DuplicateSpecName(name.clone()),
            DomainError::InvalidStateForOperation(state) => {
                DomainError::InvalidStateForOperation(*state)
            },
            DomainError::ValidationError(e) => DomainError::ValidationError(*e),
            DomainError::EventStoreError(msg) => DomainError::EventStoreError(msg.clone()),
            DomainError::ProjectionError(msg) => DomainError::ProjectionError(msg.clone()),
        }
    }
}

impl From<ValidationError> for DomainError {
    fn from(e: ValidationError) -> (r: Self) {
        DomainError::ValidationError(e)
    }
}

impl vstd::std_specs::convert::FromSpecImpl<ValidationError> for DomainError {
    open spec fn obeys_from_spec() -> bool {
        true
    }

    open spec fn from_spec(e: ValidationError) -> Self {
        DomainError::ValidationError(e)
    }
}

} // verus!
