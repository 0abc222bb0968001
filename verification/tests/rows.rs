use spec_server::domain::errors::DomainError;
use spec_server::domain::events::{
    EventEnvelope, EventMetadata, SpecCreated, SpecEvent, SpecState, Timestamp,
};
use spec_server::infrastructure::rows::{
    envelope_columns, row_to_entry, row_to_envelope, row_to_projection, row_to_summary,
    rows_to_summaries, EventRow, ProjectionRow, SummaryRow,
};

const ID: &str = "a1a2a3a4-b1b2-c1c2-d1d2-d3d4d5d6d7d8";
const ID_NUMBER: u128 = 0xa1a2a3a4b1b2c1c2d1d2d3d4d5d6d7d8;

fn row() -> ProjectionRow {
    ProjectionRow {
        id: ID.to_string(),
        name: "auth".to_string(),
        content: "a: 1".to_string(),
        description: Some("d".to_string()),
        version: 3,
        state: "published".to_string(),
        created_at: "2024-01-02T03:04:05+00:00".to_string(),
        updated_at: "2024-01-02T04:04:05.250+01:00".to_string(),
        created_by: "c".to_string(),
        updated_by: "u".to_string(),
    }
}

fn summary(id: &str, state: &str) -> SummaryRow {
    SummaryRow {
        id: id.to_string(),
        name: "auth".to_string(),
        description: None,
        version: 2,
        state: state.to_string(),
        updated_at: "1970-01-01T00:00:01Z".to_string(),
    }
}

fn event() -> SpecEvent {
    SpecEvent::Created(SpecCreated {
        spec_id: 1,
        name: "auth".to_string(),
        content: "a: 1".to_string(),
        description: None,
        created_by: "c".to_string(),
        created_at: Timestamp { secs: 1, nanos: 0 },
    })
}

fn event_row() -> EventRow {
    EventRow {
        event_id: "00000000-0000-0000-0000-00000000000b".to_string(),
        aggregate_id: ID.to_string(),
        sequence_number: 4,
        event: Ok(event()),
        metadata: Ok(EventMetadata::default()),
    }
}

fn store_error<T: std::fmt::Debug>(r: Result<T, DomainError>) -> String {
    match r {
        Err(DomainError::EventStoreError(msg)) => msg,
        other => panic!("{other:?}"),
    }
}

#[test]
fn row_reads_back_as_a_projection() {
    let projection = row_to_projection(row()).unwrap();
    assert_eq!(projection.id, ID_NUMBER);
    assert_eq!(projection.name, "auth");
    assert_eq!(projection.content, "a: 1");
    assert_eq!(projection.description.as_deref(), Some("d"));
    assert_eq!(projection.version, 3);
    assert_eq!(projection.state, SpecState::Published);
    assert_eq!(projection.created_at, Timestamp { secs: 1704164645, nanos: 0 });
    assert_eq!(projection.updated_at, Timestamp { secs: 1704164645, nanos: 250_000_000 });
    assert_eq!(projection.created_by, "c");
    assert_eq!(projection.updated_by, "u");
}

#[test]
fn row_with_an_unknown_state_is_invalid() {
    let mut bad = row();
    bad.state = "Published".to_string();
    bad.id = "junk".to_string();
    match row_to_projection(bad) {
        Err(DomainError::ProjectionError(msg)) => assert_eq!(msg, "Invalid state"),
        other => panic!("{other:?}"),
    }
}

#[test]
fn row_with_a_bad_identifier_or_time_is_refused() {
    let mut bad = row();
    bad.id = "junk".to_string();
    assert!(matches!(row_to_projection(bad), Err(DomainError::ProjectionError(_))));
    let mut bad = row();
    bad.created_at = "yesterday".to_string();
    assert!(matches!(row_to_projection(bad), Err(DomainError::ProjectionError(_))));
    let mut bad = row();
    bad.updated_at = "2024-01-02".to_string();
    assert!(matches!(row_to_projection(bad), Err(DomainError::ProjectionError(_))));
}

#[test]
fn stored_version_keeps_its_low_32_bits() {
    let mut wide = row();
    wide.version = (1i64 << 32) + 7;
    assert_eq!(row_to_projection(wide).unwrap().version, 7);
    let mut negative = row();
    negative.version = -1;
    assert_eq!(row_to_projection(negative).unwrap().version, u32::MAX);
}

#[test]
fn summary_row_reads_back() {
    let s = row_to_summary(summary(ID, "deleted")).unwrap();
    assert_eq!(s.id, ID_NUMBER);
    assert_eq!(s.name, "auth");
    assert_eq!(s.description, None);
    assert_eq!(s.latest_version, 2);
    assert_eq!(s.state, SpecState::Deleted);
    assert_eq!(s.updated_at, Timestamp { secs: 1, nanos: 0 });
    match row_to_summary(summary(ID, "gone")) {
        Err(DomainError::ProjectionError(msg)) => assert_eq!(msg, "Invalid state"),
        other => panic!("{other:?}"),
    }
    assert!(row_to_summary(summary("junk", "draft")).is_err());
}

#[test]
fn list_of_rows_fails_on_its_first_bad_row() {
    let good = rows_to_summaries(vec![summary(ID, "draft"), summary(ID, "published")]).unwrap();
    assert_eq!(good.len(), 2);
    assert_eq!(good[1].state, SpecState::Published);
    assert!(rows_to_summaries(Vec::new()).unwrap().is_empty());
    let bad = rows_to_summaries(vec![
        summary(ID, "draft"),
        summary(ID, "nope"),
        summary("junk", "draft"),
    ]);
    match bad {
        Err(DomainError::ProjectionError(msg)) => assert_eq!(msg, "Invalid state"),
        other => panic!("{other:?}"),
    }
}

#[test]
fn event_row_reads_back_as_an_envelope() {
    let envelope = row_to_envelope(event_row(), 77).unwrap();
    assert_eq!(envelope.event_id, 0xb);
    assert_eq!(envelope.aggregate_id, 77);
    assert_eq!(envelope.sequence_number, 4);
    assert_eq!(envelope.event.event_type(), "created");
    let (id, envelope) = row_to_entry(event_row()).unwrap();
    assert_eq!(id, ID_NUMBER);
    assert_eq!(envelope.aggregate_id, ID_NUMBER);
    assert_eq!(envelope.event_id, 0xb);
}

#[test]
fn event_row_reports_the_decoder_first() {
    let mut bad = event_row();
    bad.event = Err("bad event".to_string());
    bad.metadata = Err("bad metadata".to_string());
    bad.event_id = "junk".to_string();
    assert_eq!(store_error(row_to_envelope(bad, 1)), "bad event");
    let mut bad = event_row();
    bad.metadata = Err("bad metadata".to_string());
    bad.aggregate_id = "junk".to_string();
    assert_eq!(store_error(row_to_entry(bad)), "bad metadata");
    let mut bad = event_row();
    bad.aggregate_id = "junk".to_string();
    assert!(row_to_envelope(event_row_with(&bad), 1).is_ok());
    assert!(!store_error(row_to_entry(bad)).is_empty());
    let mut bad = event_row();
    bad.event_id = "junk".to_string();
    assert!(!store_error(row_to_envelope(bad, 1)).is_empty());
}

fn event_row_with(row: &EventRow) -> EventRow {
    EventRow {
        event_id: row.event_id.clone(),
        aggregate_id: row.aggregate_id.clone(),
        sequence_number: row.sequence_number,
        event: Ok(event()),
        metadata: Ok(EventMetadata::default()),
    }
}

#[test]
fn envelope_reads_back_from_its_columns() {
    for (event_id, aggregate_id) in [(0u128, u128::MAX), (ID_NUMBER, 0x10), (1, 1)] {
        let envelope = EventEnvelope {
            event_id,
            aggregate_id,
            sequence_number: 3,
            event: event(),
            metadata: EventMetadata::default(),
        };
        let columns = envelope_columns(&envelope);
        let row = |columns: &spec_server::infrastructure::rows::EventColumns| EventRow {
            event_id: columns.event_id.clone(),
            aggregate_id: columns.aggregate_id.clone(),
            sequence_number: columns.sequence_number,
            event: Ok(event()),
            metadata: Ok(EventMetadata::default()),
        };
        let (id, read) = row_to_entry(row(&columns)).unwrap();
        assert_eq!(id, aggregate_id);
        assert_eq!(format!("{read:?}"), format!("{envelope:?}"));
        let read = row_to_envelope(row(&columns), aggregate_id).unwrap();
        assert_eq!(format!("{read:?}"), format!("{envelope:?}"));
    }
}

#[test]
fn envelope_is_stored_under_text_columns() {
    let columns = envelope_columns(&EventEnvelope {
        event_id: ID_NUMBER,
        aggregate_id: 0x10,
        sequence_number: 9,
        event: event(),
        metadata: EventMetadata::default(),
    });
    assert_eq!(columns.event_id, ID);
    assert_eq!(columns.aggregate_id, "00000000-0000-0000-0000-000000000010");
    assert_eq!(columns.sequence_number, 9);
    assert_eq!(columns.event_type, "created");
}
