//! Rows as a relational store holds them, and what reading them back makes of them.

use vstd::prelude::*;
use vstd::string::*;
use crate::domain::errors::{DomainError, DomainErrorView};
use crate::domain::events::{
    state_of_label, text, EventEnvelope, EventEnvelopeView, EventMetadata, SpecEvent, SpecState,
    Timestamp,
};
use crate::domain::identifiers::{id_text, parse_id, uuid_of_text, uuid_text};
use crate::domain::instants::{instant_of_text, parse_instant};
use super::projections::{
    SpecProjection, SpecProjectionView, SpecSummaryProjection, SpecSummaryProjectionView,
};

verus! {

/// A row of the table of current state: identifier, state and times as text, the
/// version as a 64-bit integer.
#[derive(Debug)]
pub struct ProjectionRow {
    pub id: String,
    pub name: String,
    pub content: String,
    pub description: Option<String>,
    pub version: i64,
    pub state: String,
    pub created_at: String,
    pub updated_at: String,
    pub created_by: String,
    pub updated_by: String,
}

/// The columns of a row of current state that a list reads.
#[derive(Debug)]
pub struct SummaryRow {
    pub id: String,
    pub name: String,
    pub description: Option<String>,
    pub version: i64,
    pub state: String,
    pub updated_at: String,
}

impl Clone for SummaryRow {
    fn clone(&self) -> (copy: Self)
        ensures
            copy == *self,
    {
        SummaryRow {
            id: self.id.clone(),
            name: self.name.clone(),
            description: self.description.clone(),
            version: self.version,
            state: self.state.clone(),
            updated_at: self.updated_at.clone(),
        }
    }
}

/// A row of the table of events, with what decoding its two documents gave: the
/// event and the metadata, or what the decoder said against them.
#[derive(Debug)]
pub struct EventRow {
    pub event_id: String,
    pub aggregate_id: String,
    pub sequence_number: i64,
    pub event: Result<SpecEvent, String>,
    pub metadata: Result<EventMetadata, String>,
}

/// The columns of a row of the table of events that are no documents.
#[derive(Debug)]
pub struct EventColumns {
    pub event_id: String,
    pub aggregate_id: String,
    pub sequence_number: i64,
    pub event_type: String,
}

/// The instant that a text stands for.
pub open spec fn instant(text: Seq<char>) -> Option<Timestamp> {
    match instant_of_text(text) {
        Some(t) => Some(Timestamp { secs: t.0, nanos: t.1 }),
        None => None,
    }
}

/// The version that a stored number stands for: its lowest 32 bits.
pub open spec fn stored_version(version: i64) -> u32 {
    version as u32
}

/// Whether a row of current state reads back: its state must be one of the four
/// labels, its identifier must read as an identifier, and its times as instants.
pub open spec fn row_reads(row: ProjectionRow) -> bool {
    &&& state_of_label(row.state@) is Some
    &&& uuid_of_text(row.id@) is Some
    &&& instant(row.created_at@) is Some
    &&& instant(row.updated_at@) is Some
}

/// What a row of current state reads back as.
pub open spec fn row_value(row: ProjectionRow) -> SpecProjectionView {
    SpecProjectionView {
        id: uuid_of_text(row.id@)->0,
        name: row.name@,
        content: row.content@,
        description: text(row.description),
        version: stored_version(row.version),
        state: state_of_label(row.state@)->0,
        created_at: instant(row.created_at@)->0,
        updated_at: instant(row.updated_at@)->0,
        created_by: row.created_by@,
        updated_by: row.updated_by@,
    }
}

/// Whether the columns that a list reads read back.
pub open spec fn summary_reads(row: SummaryRow) -> bool {
    &&& state_of_label(row.state@) is Some
    &&& uuid_of_text(row.id@) is Some
    &&& instant(row.updated_at@) is Some
}

/// What the columns that a list reads read back as.
pub open spec fn summary_value(row: SummaryRow) -> SpecSummaryProjectionView {
    SpecSummaryProjectionView {
        id: uuid_of_text(row.id@)->0,
        name: row.name@,
        description: text(row.description),
        latest_version: stored_version(row.version),
        state: state_of_label(row.state@)->0,
        updated_at: instant(row.updated_at@)->0,
    }
}

fn version_of(version: i64) -> (v: u32)
    ensures
        v == stored_version(version),
{
    #[verifier::truncate]
    (version as u32)
}

/// Reads a row of current state back. A state that is no label is reported as
/// "Invalid state", before anything else is looked at; an identifier or a time that
/// does not read is reported in the parser's words.
pub fn row_to_projection(row: ProjectionRow) -> (r: Result<SpecProjection, DomainError>)
    ensures
        match r {
            Ok(projection) => row_reads(row) && projection@ == row_value(row),
            Err(e) => !row_reads(row) && e is ProjectionError && (state_of_label(row.state@)
                is None ==> e@ == DomainErrorView::ProjectionError("Invalid state"@)),
        },
{
    let state = match SpecState::from_label(row.state.as_str()) {
        Some(state) => state,
        None => {
            return Err(DomainError::ProjectionError("Invalid state".to_owned()));
        },
    };
    let id = match parse_id(row.id.as_str()) {
        Ok(id) => id,
        Err(msg) => {
            return Err(DomainError::ProjectionError(msg));
        },
    };
    let created_at = match parse_instant(row.created_at.as_str()) {
        Ok(t) => t,
        Err(msg) => {
            return Err(DomainError::ProjectionError(msg));
        },
    };
    let updated_at = match parse_instant(row.updated_at.as_str()) {
        Ok(t) => t,
        Err(msg) => {
            return Err(DomainError::ProjectionError(msg));
        },
    };
    Ok(
        SpecProjection {
            id,
            name: row.name,
            content: row.content,
            description: row.description,
            version: version_of(row.version),
            state,
            created_at,
            updated_at,
            created_by: row.created_by,
            updated_by: row.updated_by,
        },
    )
}

/// Reads the columns that a list reads back, as `row_to_projection` does.
pub fn row_to_summary(row: SummaryRow) -> (r: Result<SpecSummaryProjection, DomainError>)
    ensures
        match r {
            Ok(summary) => summary_reads(row) && summary@ == summary_value(row),
            Err(e) => !summary_reads(row) && e is ProjectionError && (state_of_label(row.state@)
                is None ==> e@ == DomainErrorView::ProjectionError("Invalid state"@)),
        },
{
    let state = match SpecState::from_label(row.state.as_str()) {
        Some(state) => state,
        None => {
            return Err(DomainError::ProjectionError("Invalid state".to_owned()));
        },
    };
    let id = match parse_id(row.id.as_str()) {
        Ok(id) => id,
        Err(msg) => {
            return Err(DomainError::ProjectionError(msg));
        },
    };
    let updated_at = match parse_instant(row.updated_at.as_str()) {
        Ok(t) => t,
        Err(msg) => {
            return Err(DomainError::ProjectionError(msg));
        },
    };
    Ok(
        SpecSummaryProjection {
            id,
            name: row.name,
            description: row.description,
            latest_version: version_of(row.version),
            state,
            updated_at,
        },
    )
}

/// Reads the rows of a list back, in order. The first row that does not read
/// fails the whole list.
pub fn rows_to_summaries(rows: Vec<SummaryRow>) -> (r: Result<
    Vec<SpecSummaryProjection>,
    DomainError,
>)
    ensures
        match r {
            Ok(summaries) => {
                &&& summaries@.len() == rows@.len()
                &&& forall|i: int|
                    0 <= i < rows@.len() ==> summary_reads(rows@[i]) && (
                    #[trigger] summaries@[i])@ == summary_value(rows@[i])
            },
            Err(e) => e is ProjectionError && exists|i: int|
                0 <= i < rows@.len() && !summary_reads(#[trigger] rows@[i]) && forall|j: int|
                    0 <= j < i ==> summary_reads(#[trigger] rows@[j]),
        },
{
    let mut summaries: Vec<SpecSummaryProjection> = Vec::new();
    let mut i: usize = 0;
    while i < rows.len()
        invariant
            i <= rows@.len(),
            summaries@.len() == i,
            forall|j: int| 0 <= j < i ==> summary_reads(#[trigger] rows@[j]),
            forall|j: int| 0 <= j < i ==> (#[trigger] summaries@[j])@ == summary_value(rows@[j]),
        decreases rows@.len() - i,
    {
        match row_to_summary(rows[i].clone()) {
            Ok(summary) => {
                summaries.push(summary);
            },
            Err(e) => {
                assert(!summary_reads(rows@[i as int]));
                return Err(e);
            },
        }
        i += 1;
    }
    Ok(summaries)
}

/// What the decoder said against a row's documents, if it said anything: against
/// the event first, then against the metadata.
pub open spec fn decoder_complaint(row: EventRow) -> Option<Seq<char>> {
    match row.event {
        Err(msg) => Some(msg@),
        Ok(_) => match row.metadata {
            Err(msg) => Some(msg@),
            Ok(_) => None,
        },
    }
}

/// Whether a row of the table of events reads back as an event of the specification
/// given, or, where none is given, of the one that the row names: both documents
/// must have decoded, and the identifiers must read as identifiers.
pub open spec fn event_row_reads(row: EventRow, known: Option<u128>) -> bool {
    &&& row.event is Ok
    &&& row.metadata is Ok
    &&& known is None ==> uuid_of_text(row.aggregate_id@) is Some
    &&& uuid_of_text(row.event_id@) is Some
}

/// What a row of the table of events reads back as.
pub open spec fn event_row_value(row: EventRow, known: Option<u128>) -> EventEnvelopeView {
    EventEnvelopeView {
        event_id: uuid_of_text(row.event_id@)->0,
        aggregate_id: match known {
            Some(id) => id,
            None => uuid_of_text(row.aggregate_id@)->0,
        },
        sequence_number: row.sequence_number,
        event: row.event->Ok_0@,
        metadata: row.metadata->Ok_0@,
    }
}

fn decode(row: EventRow, known: Option<u128>) -> (r: Result<EventEnvelope, DomainError>)
    ensures
        match r {
            Ok(envelope) => event_row_reads(row, known) && envelope@ == event_row_value(row, known),
            Err(e) => {
                &&& !event_row_reads(row, known)
                &&& e is EventStoreError
                &&& decoder_complaint(row) is Some ==> e@ == DomainErrorView::EventStoreError(
                    decoder_complaint(row)->0,
                )
            },
        },
{
    let event = match row.event {
        Ok(event) => event,
        Err(msg) => {
            return Err(DomainError::EventStoreError(msg));
        },
    };
    let metadata = match row.metadata {
        Ok(metadata) => metadata,
        Err(msg) => {
            return Err(DomainError::EventStoreError(msg));
        },
    };
    let aggregate_id = match known {
        Some(id) => id,
        None => match parse_id(row.aggregate_id.as_str()) {
            Ok(id) => id,
            Err(msg) => {
                return Err(DomainError::EventStoreError(msg));
            },
        },
    };
    let event_id = match parse_id(row.event_id.as_str()) {
        Ok(id) => id,
        Err(msg) => {
            return Err(DomainError::EventStoreError(msg));
        },
    };
    Ok(
        EventEnvelope {
            event_id,
            aggregate_id,
            sequence_number: row.sequence_number,
            event,
            metadata,
        },
    )
}

/// Reads a row of the events of the specification `aggregate_id` back. What the
/// decoder said against the event is reported first, then what it said against the
/// metadata, then an identifier of the event that does not read.
pub fn row_to_envelope(row: EventRow, aggregate_id: u128) -> (r: Result<
    EventEnvelope,
    DomainError,
>)
    ensures
        match r {
            Ok(envelope) => event_row_reads(row, Some(aggregate_id)) && envelope@
                == event_row_value(row, Some(aggregate_id)),
            Err(e) => {
                &&& !event_row_reads(row, Some(aggregate_id))
                &&& e is EventStoreError
                &&& decoder_complaint(row) is Some ==> e@ == DomainErrorView::EventStoreError(
                    decoder_complaint(row)->0,
                )
            },
        },
{
    decode(row, Some(aggregate_id))
}

/// Reads a row of the whole log back, with the specification that it names. What
/// the decoder said against the event is reported first, then what it said against
/// the metadata, then an identifier of the specification that does not read, then
/// one of the event.
pub fn row_to_entry(row: EventRow) -> (r: Result<(u128, EventEnvelope), DomainError>)
    ensures
        match r {
            Ok(entry) => event_row_reads(row, None) && entry.1@ == event_row_value(row, None)
                && entry.0 == entry.1.aggregate_id,
            Err(e) => {
                &&& !event_row_reads(row, None)
                &&& e is EventStoreError
                &&& decoder_complaint(row) is Some ==> e@ == DomainErrorView::EventStoreError(
                    decoder_complaint(row)->0,
                )
            },
        },
{
    match decode(row, None) {
        Ok(envelope) => Ok((envelope.aggregate_id, envelope)),
        Err(e) => Err(e),
    }
}

/// The columns under which an envelope is stored, besides its two documents: the
/// identifiers as text, the sequence number, and the word for the kind of event.
/// The identifiers read back from their columns as they were.
pub fn envelope_columns(envelope: &EventEnvelope) -> (columns: EventColumns)
    ensures
        columns.event_id@ == uuid_text(envelope.event_id),
        columns.aggregate_id@ == uuid_text(envelope.aggregate_id),
        uuid_of_text(columns.event_id@) == Some(envelope.event_id),
        uuid_of_text(columns.aggregate_id@) == Some(envelope.aggregate_id),
        columns.sequence_number == envelope.sequence_number,
        columns.event_type@ == envelope@.event.event_type(),
{
    EventColumns {
        event_id: id_text(envelope.event_id),
        aggregate_id: id_text(envelope.aggregate_id),
        sequence_number: envelope.sequence_number,
        event_type: envelope.event.event_type().to_owned(),
    }
}

} // verus!
