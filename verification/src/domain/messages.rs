//! The wording of errors.

use vstd::prelude::*;
use vstd::string::*;
use super::errors::{DomainError, DomainErrorView};
use super::events::SpecState;
use super::identifiers::{id_text, uuid_text};
use super::value_objects::{ValidationError, Version};

verus! {

/// The character of a decimal digit.
pub open spec fn digit_char(d: int) -> char {
    ((48 + d) as u8) as char
}

/// A number in decimal, without leading zeros.
pub open spec fn decimal(n: nat) -> Seq<char>
    decreases n,
{
    if n < 10 {
        seq![digit_char(n as int)]
    } else {
        decimal(n / 10).push(digit_char((n % 10) as int))
    }
}

/// The name of a state, capitalised.
pub open spec fn state_name(state: SpecState) -> Seq<char> {
    match state {
        SpecState::Draft => "Draft"@,
        SpecState::Published => "Published"@,
        SpecState::Deprecated => "Deprecated"@,
        SpecState::Deleted => "Deleted"@,
    }
}

/// What a validation error says.
pub open spec fn validation_text(e: ValidationError) -> Seq<char> {
    match e {
        ValidationError::EmptyName => "Name cannot be empty"@,
        ValidationError::NameTooLong => "Name too long (max 255 characters)"@,
        ValidationError::InvalidCharacters => "Name contains invalid characters"@,
        ValidationError::EmptyContent => "Content cannot be empty"@,
        ValidationError::ContentTooLarge => "Content too large (max 2048 characters)"@,
        ValidationError::InvalidYaml => "Invalid YAML content"@,
    }
}

/// What an error says.
pub open spec fn error_text(e: DomainErrorView) -> Seq<char> {
    match e {
        DomainErrorView::SpecNotFound(id) => "Spec not found: "@ + uuid_text(id),
        DomainErrorView::InvalidStateTransition { from, to } => "Invalid state transition from "@
            + state_name(from) + " to "@ + state_name(to),
        DomainErrorView::VersionMismatch { expected, actual } => "Version mismatch: expected "@
            + decimal(expected as nat) + ", got "@ + decimal(actual as nat),
        DomainErrorView::DuplicateSpecName(name) => "Spec already exists with name: "@ + name,
        DomainErrorView::InvalidStateForOperation(state) => "Cannot modify spec in "@ + state_name(
            state,
        ) + " state"@,
        DomainErrorView::ValidationError(e) => "Validation error: "@ + validation_text(e),
        DomainErrorView::EventStoreError(msg) => "Event store error: "@ + msg,
        DomainErrorView::ProjectionError(msg) => "Projection error: "@ + msg,
    }
}

fn digit_text(d: u32) -> (s: &'static str)
    requires
        d < 10,
    ensures
        s@ == seq![digit_char(d as int)],
{
    proof {
        reveal_strlit("0");
        reveal_strlit("1");
        reveal_strlit("2");
        reveal_strlit("3");
        reveal_strlit("4");
        reveal_strlit("5");
        reveal_strlit("6");
        reveal_strlit("7");
        reveal_strlit("8");
        reveal_strlit("9");
    }
    let s = match d {
        0 => "0",
        1 => "1",
        2 => "2",
        3 => "3",
        4 => "4",
        5 => "5",
        6 => "6",
        7 => "7",
        8 => "8",
        _ => "9",
    };
    assert(s@ =~= seq![digit_char(d as int)]);
    s
}

/// Writes a number in decimal.
pub fn decimal_text(n: u32) -> (s: String)
    ensures
        s@ == decimal(n as nat),
    decreases n,
{
    if n < 10 {
        digit_text(n).to_owned()
    } else {
        let mut s = decimal_text(n / 10);
        s.append(digit_text(n % 10));
        assert(s@ =~= decimal((n / 10) as nat).push(digit_char((n % 10) as int)));
        s
    }
}

impl Version {
    /// The version in decimal.
    pub fn to_string(&self) -> (s: String)
        ensures
            s@ == decimal(self@ as nat),
    {
        decimal_text(self.as_u32())
    }
}

impl SpecState {
    /// The name of the state, capitalised.
    pub fn name(&self) -> (s: &'static str)
        ensures
            s@ == state_name(*self),
    {
        match self {
            SpecState::Draft => "Draft",
            SpecState::Published => "Published",
            SpecState::Deprecated => "Deprecated",
            SpecState::Deleted => "Deleted",
        }
    }
}

impl ValidationError {
    /// What the error says.
    pub fn message(&self) -> (s: &'static str)
        ensures
            s@ == validation_text(*self),
    {
        match self {
            ValidationError::EmptyName => "Name cannot be empty",
            ValidationError::NameTooLong => "Name too long (max 255 characters)",
            ValidationError::InvalidCharacters => "Name contains invalid characters",
            ValidationError::EmptyContent => "Content cannot be empty",
            ValidationError::ContentTooLarge => "Content too large (max 2048 characters)",
            ValidationError::InvalidYaml => "Invalid YAML content",
        }
    }
}

impl DomainError {
    /// What the error says.
    pub fn message(&self) -> (s: String)
        ensures
            s@ == error_text(self@),
    {
        match self {
            DomainError::SpecNotFound(id) => {
                let mut s = "Spec not found: ".to_owned();
                s.append(id_text(*id).as_str());
                s
            },
            DomainError::InvalidStateTransition { from, to } => {
                let mut s = "Invalid state transition from ".to_owned();
                s.append(from.name());
                s.append(" to ");
                s.append(to.name());
                s
            },
            DomainError::VersionMismatch { expected, actual } => {
                let mut s = "Version mismatch: expected ".to_owned();
                s.append(decimal_text(*expected).as_str());
                s.append(", got ");
                s.append(decimal_text(*actual).as_str());
                s
            },
            DomainError::DuplicateSpecName(name) => {
                let mut s = "Spec already exists with name: ".to_owned();
                s.append(name.as_str());
                s
            },
            DomainError::InvalidStateForOperation(state) => {
                let mut s = "Cannot modify spec in ".to_owned();
                s.append(state.name());
                s.append(" state");
                s
            },
            DomainError::ValidationError(e) => {
                let mut s = "Validation error: ".to_owned();
                s.append(e.message());
                s
            },
            DomainError::EventStoreError(msg) => {
                let mut s = "Event store error: ".to_owned();
                s.append(msg.as_str());
                s
            },
            DomainError::ProjectionError(msg) => {
                let mut s = "Projection error: ".to_owned();
                s.append(msg.as_str());
                s
            },
        }
    }
}

} // verus!
