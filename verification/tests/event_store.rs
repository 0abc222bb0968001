use spec_server::domain::events::{
    EventMetadata, SpecCreated, SpecEvent, SpecState, SpecStateChanged, SpecUpdated, Timestamp,
};
use spec_server::infrastructure::event_store::{stamp, EventLog};
use spec_server::infrastructure::paging::window_bounds;

fn created(id: u128) -> SpecEvent {
    SpecEvent::Created(SpecCreated {
        spec_id: id,
        name: "auth".to_string(),
        content: "a: 1".to_string(),
        description: None,
        created_by: "u1".to_string(),
        created_at: Timestamp { secs: 1, nanos: 0 },
    })
}

fn updated(id: u128, version: u32) -> SpecEvent {
    SpecEvent::Updated(SpecUpdated {
        spec_id: id,
        version,
        content: format!("a: {version}"),
        description: None,
        updated_by: "u1".to_string(),
        updated_at: Timestamp { secs: 2, nanos: 0 },
    })
}

fn published(id: u128) -> SpecEvent {
    SpecEvent::StateChanged(SpecStateChanged {
        spec_id: id,
        version: 1,
        from_state: SpecState::Draft,
        to_state: SpecState::Published,
        reason: None,
        changed_by: "u1".to_string(),
        changed_at: Timestamp { secs: 3, nanos: 0 },
    })
}

fn agent(name: &str) -> EventMetadata {
    EventMetadata {
        correlation_id: Some(5),
        causation_id: None,
        user_agent: Some(name.to_string()),
        ip_address: Some("127.0.0.1".to_string()),
    }
}

#[test]
fn new_log_is_empty() {
    let log = EventLog::new();
    assert_eq!(log.len(), 0);
    assert_eq!(log.last_sequence(1), 0);
    assert!(log.get_events(1, None).is_empty());
    assert!(log.get_all_events(0, 10).is_empty());
}

#[test]
fn append_numbers_events_from_one() {
    let mut log = EventLog::new();
    let envelopes = log
        .append_events(1, vec![created(1), updated(1, 2), published(1)], agent("cli"))
        .unwrap();
    assert_eq!(envelopes.len(), 3);
    for (i, envelope) in envelopes.iter().enumerate() {
        assert_eq!(envelope.aggregate_id, 1);
        assert_eq!(envelope.sequence_number, i as i64 + 1);
        assert_eq!(envelope.metadata.correlation_id, Some(5));
        assert_eq!(envelope.metadata.user_agent.as_deref(), Some("cli"));
        assert_eq!(envelope.metadata.ip_address.as_deref(), Some("127.0.0.1"));
    }
    assert_eq!(envelopes[0].event.event_type(), "created");
    assert_eq!(envelopes[1].event.event_type(), "updated");
    assert_eq!(envelopes[2].event.event_type(), "state_changed");
    assert_eq!(log.len(), 3);
    assert_eq!(log.last_sequence(1), 3);
}

#[test]
fn append_gives_every_event_an_identifier_of_its_own() {
    let mut log = EventLog::new();
    let envelopes = log
        .append_events(1, vec![created(1), updated(1, 2)], EventMetadata::default())
        .unwrap();
    assert_ne!(envelopes[0].event_id, envelopes[1].event_id);
}

#[test]
fn append_continues_the_numbering_of_each_spec() {
    let mut log = EventLog::new();
    log.append_events(1, vec![created(1)], EventMetadata::default()).unwrap();
    log.append_events(2, vec![created(2), updated(2, 2)], EventMetadata::default()).unwrap();
    let more = log.append_events(1, vec![updated(1, 2), updated(1, 3)], EventMetadata::default()).unwrap();
    assert_eq!(more[0].sequence_number, 2);
    assert_eq!(more[1].sequence_number, 3);
    let numbers: Vec<i64> = log.get_events(1, None).iter().map(|e| e.sequence_number).collect();
    assert_eq!(numbers, vec![1, 2, 3]);
    let numbers: Vec<i64> = log.get_events(2, None).iter().map(|e| e.sequence_number).collect();
    assert_eq!(numbers, vec![1, 2]);
    assert_eq!(log.last_sequence(1), 3);
    assert_eq!(log.last_sequence(2), 2);
    assert_eq!(log.last_sequence(3), 0);
}

#[test]
fn append_of_nothing_changes_nothing() {
    let mut log = EventLog::new();
    log.append_events(1, vec![created(1)], EventMetadata::default()).unwrap();
    assert!(log.append_events(1, Vec::new(), EventMetadata::default()).unwrap().is_empty());
    assert_eq!(log.len(), 1);
}

#[test]
fn get_events_reads_after_a_sequence_number() {
    let mut log = EventLog::new();
    log.append_events(1, vec![created(1), updated(1, 2), updated(1, 3)], EventMetadata::default())
        .unwrap();
    log.append_events(2, vec![created(2)], EventMetadata::default()).unwrap();
    log.append_events(1, vec![updated(1, 4)], EventMetadata::default()).unwrap();
    let numbers = |from: Option<i64>| -> Vec<i64> {
        log.get_events(1, from).iter().map(|e| e.sequence_number).collect()
    };
    assert_eq!(numbers(None), vec![1, 2, 3, 4]);
    assert_eq!(numbers(Some(0)), vec![1, 2, 3, 4]);
    assert_eq!(numbers(Some(-3)), vec![1, 2, 3, 4]);
    assert_eq!(numbers(Some(2)), vec![3, 4]);
    assert_eq!(numbers(Some(4)), Vec::<i64>::new());
    assert_eq!(numbers(Some(9)), Vec::<i64>::new());
    assert!(log.get_events(3, None).is_empty());
}

#[test]
fn get_events_hands_back_what_was_appended() {
    let mut log = EventLog::new();
    let appended = log.append_events(1, vec![created(1), updated(1, 2)], agent("x")).unwrap();
    let read = log.get_events(1, None);
    assert_eq!(format!("{read:?}"), format!("{appended:?}"));
}

#[test]
fn get_all_events_reads_the_log_in_pages() {
    let mut log = EventLog::new();
    log.append_events(1, vec![created(1), updated(1, 2)], EventMetadata::default()).unwrap();
    log.append_events(2, vec![created(2)], EventMetadata::default()).unwrap();
    log.append_events(1, vec![published(1)], EventMetadata::default()).unwrap();
    let read = |from: i64, limit: i64| -> Vec<(u128, i64)> {
        log.get_all_events(from, limit)
            .iter()
            .map(|(id, e)| {
                assert_eq!(*id, e.aggregate_id);
                (*id, e.sequence_number)
            })
            .collect()
    };
    assert_eq!(read(0, 100), vec![(1, 1), (1, 2), (2, 1), (1, 3)]);
    assert_eq!(read(0, 2), vec![(1, 1), (1, 2)]);
    assert_eq!(read(2, 1), vec![(2, 1)]);
    assert_eq!(read(3, 5), vec![(1, 3)]);
    assert_eq!(read(4, 5), vec![]);
    assert_eq!(read(40, 5), vec![]);
    assert_eq!(read(1, 0), vec![]);
    assert_eq!(read(-7, 1), vec![(1, 1)]);
    assert_eq!(read(1, -1), vec![(1, 2), (2, 1), (1, 3)]);
}

#[test]
fn stamp_numbers_on_from_the_last_sequence() {
    let envelopes = stamp(9, 41, vec![created(9), updated(9, 2)], agent("s"));
    assert_eq!(envelopes.len(), 2);
    assert_eq!(envelopes[0].sequence_number, 42);
    assert_eq!(envelopes[1].sequence_number, 43);
    assert_eq!(envelopes[0].aggregate_id, 9);
    assert_eq!(envelopes[1].event.event_type(), "updated");
    assert_eq!(envelopes[1].metadata.user_agent.as_deref(), Some("s"));
}

#[test]
fn window_bounds_cut_a_page() {
    assert_eq!(window_bounds(10, 3, 0), (0, 3));
    assert_eq!(window_bounds(10, 3, 8), (8, 10));
    assert_eq!(window_bounds(10, 3, 10), (10, 10));
    assert_eq!(window_bounds(10, 3, 11), (10, 10));
    assert_eq!(window_bounds(10, -1, 4), (4, 10));
    assert_eq!(window_bounds(10, 0, 4), (4, 4));
    assert_eq!(window_bounds(10, 5, -2), (0, 5));
    assert_eq!(window_bounds(0, 5, 0), (0, 0));
    assert_eq!(window_bounds(10, i64::MAX, i64::MAX), (10, 10));
    assert_eq!(window_bounds(10, i64::MAX, 1), (1, 10));
}
