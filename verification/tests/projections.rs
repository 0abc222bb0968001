use spec_server::domain::errors::DomainError;
use spec_server::domain::events::{
    SpecCreated, SpecEvent, SpecState, SpecStateChanged, SpecUpdated, Timestamp,
};
use spec_server::infrastructure::listing::{is_listed, list_order};
use spec_server::infrastructure::projections::{ProjectionStore, SpecProjection};

fn at(secs: i64) -> Timestamp {
    Timestamp { secs, nanos: 0 }
}

fn created(id: u128, name: &str, secs: i64) -> SpecEvent {
    SpecEvent::Created(SpecCreated {
        spec_id: id,
        name: name.to_string(),
        content: "a: 1".to_string(),
        description: Some("first".to_string()),
        created_by: "u1".to_string(),
        created_at: at(secs),
    })
}

fn updated(id: u128, version: u32, description: Option<&str>, secs: i64) -> SpecEvent {
    SpecEvent::Updated(SpecUpdated {
        spec_id: id,
        version,
        content: format!("a: {version}"),
        description: description.map(|d| d.to_string()),
        updated_by: "u2".to_string(),
        updated_at: at(secs),
    })
}

fn moved(id: u128, to: SpecState, secs: i64) -> SpecEvent {
    SpecEvent::StateChanged(SpecStateChanged {
        spec_id: id,
        version: 1,
        from_state: SpecState::Draft,
        to_state: to,
        reason: None,
        changed_by: "u3".to_string(),
        changed_at: at(secs),
    })
}

fn store_of(events: &[SpecEvent]) -> ProjectionStore {
    let mut store = ProjectionStore::new(true);
    for event in events {
        store.apply_event(event.spec_id(), event).unwrap();
    }
    store
}

fn message(r: Result<(), DomainError>) -> String {
    match r {
        Err(DomainError::ProjectionError(msg)) => msg,
        other => panic!("{other:?}"),
    }
}

#[test]
fn new_store_holds_nothing() {
    let store = ProjectionStore::new(true);
    assert!(store.get_by_id(1).is_none());
    assert!(store.get_by_name("auth").is_none());
    assert!(store.get_version(1, 1).is_none());
    assert!(store.list_by_state(None, 10, 0).is_empty());
}

#[test]
fn created_inserts_a_draft_at_version_one() {
    let store = store_of(&[created(1, "auth", 10)]);
    let row = store.get_by_id(1).unwrap();
    assert_eq!(row.id, 1);
    assert_eq!(row.name, "auth");
    assert_eq!(row.content, "a: 1");
    assert_eq!(row.description.as_deref(), Some("first"));
    assert_eq!(row.version, 1);
    assert_eq!(row.state, SpecState::Draft);
    assert_eq!(row.created_at, at(10));
    assert_eq!(row.updated_at, at(10));
    assert_eq!(row.created_by, "u1");
    assert_eq!(row.updated_by, "u1");
    assert_eq!(
        store.get_version(1, 1),
        Some(("a: 1".to_string(), Some("first".to_string())))
    );
    assert_eq!(store.get_version(1, 2), None);
    assert_eq!(store.get_version(2, 1), None);
}

#[test]
fn updated_rewrites_the_row_and_records_the_version() {
    let store = store_of(&[created(1, "auth", 10), updated(1, 2, None, 20)]);
    let row = store.get_by_id(1).unwrap();
    assert_eq!(row.content, "a: 2");
    assert_eq!(row.description, None);
    assert_eq!(row.version, 2);
    assert_eq!(row.state, SpecState::Draft);
    assert_eq!(row.updated_at, at(20));
    assert_eq!(row.updated_by, "u2");
    assert_eq!(row.created_at, at(10));
    assert_eq!(row.created_by, "u1");
    assert_eq!(row.name, "auth");
    assert_eq!(
        store.get_version(1, 1),
        Some(("a: 1".to_string(), Some("first".to_string())))
    );
    assert_eq!(store.get_version(1, 2), Some(("a: 2".to_string(), None)));
}

#[test]
fn state_change_rewrites_state_and_time_only() {
    let store = store_of(&[created(1, "auth", 10), moved(1, SpecState::Published, 30)]);
    let row = store.get_by_id(1).unwrap();
    assert_eq!(row.state, SpecState::Published);
    assert_eq!(row.updated_at, at(30));
    assert_eq!(row.updated_by, "u1");
    assert_eq!(row.version, 1);
    assert_eq!(store.get_version(1, 1).unwrap().0, "a: 1");
    assert_eq!(store.get_version(1, 2), None);
}

#[test]
fn events_touch_the_row_of_their_spec_only() {
    let store = store_of(&[
        created(1, "auth", 10),
        created(2, "billing", 11),
        updated(2, 2, Some("second"), 20),
        moved(2, SpecState::Deleted, 30),
    ]);
    let untouched = store.get_by_id(1).unwrap();
    assert_eq!(untouched.version, 1);
    assert_eq!(untouched.state, SpecState::Draft);
    assert_eq!(untouched.updated_at, at(10));
    let touched = store.get_by_id(2).unwrap();
    assert_eq!(touched.version, 2);
    assert_eq!(touched.state, SpecState::Deleted);
    assert_eq!(touched.description.as_deref(), Some("second"));
}

#[test]
fn second_created_for_a_spec_is_refused() {
    let mut store = store_of(&[created(1, "auth", 10)]);
    let before = format!("{:?}", store.get_by_id(1));
    let r = store.apply_event(1, &created(1, "other", 99));
    assert_eq!(message(r), "UNIQUE constraint failed: spec_projections.id");
    assert_eq!(format!("{:?}", store.get_by_id(1)), before);
}

#[test]
fn created_after_an_update_to_version_one_is_refused() {
    let mut store = ProjectionStore::new(true);
    store.apply_event(1, &updated(1, 1, None, 5)).unwrap();
    assert!(store.get_by_id(1).is_none());
    let r = store.apply_event(1, &created(1, "auth", 10));
    assert_eq!(
        message(r),
        "UNIQUE constraint failed: spec_version_history.id, spec_version_history.version"
    );
    assert!(store.get_by_id(1).is_none());
    assert_eq!(store.get_version(1, 1).unwrap().0, "a: 1");
}

#[test]
fn update_applied_twice_is_refused_the_second_time() {
    let mut store = store_of(&[created(1, "auth", 10), updated(1, 2, None, 20)]);
    let mut again = updated(1, 2, Some("again"), 25);
    if let SpecEvent::Updated(e) = &mut again {
        e.content = "a: 22".to_string();
    }
    let r = store.apply_event(1, &again);
    assert_eq!(
        message(r),
        "UNIQUE constraint failed: spec_version_history.id, spec_version_history.version"
    );
    assert_eq!(store.get_by_id(1).unwrap().content, "a: 2");
    assert_eq!(store.get_by_id(1).unwrap().updated_at, at(20));
    assert_eq!(store.get_version(1, 2), Some(("a: 2".to_string(), None)));
}

#[test]
fn get_version_returns_what_each_event_supplied() {
    let store = store_of(&[
        created(1, "auth", 10),
        updated(1, 2, Some("second"), 20),
        created(2, "billing", 21),
        updated(1, 3, None, 30),
    ]);
    assert_eq!(
        store.get_version(1, 1),
        Some(("a: 1".to_string(), Some("first".to_string())))
    );
    assert_eq!(
        store.get_version(1, 2),
        Some(("a: 2".to_string(), Some("second".to_string())))
    );
    assert_eq!(store.get_version(1, 3), Some(("a: 3".to_string(), None)));
    assert_eq!(store.get_version(1, 4), None);
    assert_eq!(store.get_version(2, 2), None);
}

#[test]
fn get_by_name_finds_the_oldest_row_under_the_name() {
    let store = store_of(&[
        created(1, "auth", 10),
        created(2, "billing", 11),
        created(3, "auth", 12),
    ]);
    assert_eq!(store.get_by_name("auth").unwrap().id, 1);
    assert_eq!(store.get_by_name("billing").unwrap().id, 2);
    assert!(store.get_by_name("Auth").is_none());
    assert!(store.get_by_name("").is_none());
}

#[test]
fn list_without_a_state_never_shows_deleted_specs() {
    let store = store_of(&[
        created(1, "a", 10),
        created(2, "b", 11),
        created(3, "c", 12),
        created(4, "d", 13),
        moved(2, SpecState::Published, 20),
        moved(3, SpecState::Deleted, 21),
        moved(4, SpecState::Deprecated, 22),
    ]);
    let listed = store.list_by_state(None, 100, 0);
    let ids: Vec<u128> = listed.iter().map(|s| s.id).collect();
    assert_eq!(ids, vec![4, 2, 1]);
    assert!(listed.iter().all(|s| s.state != SpecState::Deleted));
}

#[test]
fn list_with_a_state_shows_that_state() {
    let store = store_of(&[
        created(1, "a", 10),
        created(2, "b", 11),
        created(3, "c", 12),
        moved(2, SpecState::Published, 20),
        moved(3, SpecState::Deleted, 21),
    ]);
    let ids = |state: SpecState| -> Vec<u128> {
        store.list_by_state(Some(state), 100, 0).iter().map(|s| s.id).collect()
    };
    assert_eq!(ids(SpecState::Draft), vec![1]);
    assert_eq!(ids(SpecState::Published), vec![2]);
    assert_eq!(ids(SpecState::Deleted), vec![3]);
    assert_eq!(ids(SpecState::Deprecated), Vec::<u128>::new());
}

#[test]
fn list_shows_the_latest_update_first() {
    let store = store_of(&[
        created(1, "a", 10),
        created(2, "b", 30),
        created(3, "c", 20),
        created(4, "d", 20),
        updated(1, 2, None, 25),
    ]);
    let listed = store.list_by_state(None, 100, 0);
    let ids: Vec<u128> = listed.iter().map(|s| s.id).collect();
    assert_eq!(ids, vec![2, 1, 3, 4]);
    assert_eq!(listed[1].latest_version, 2);
    assert_eq!(listed[1].name, "a");
    assert_eq!(listed[1].description, None);
    assert_eq!(listed[1].updated_at, at(25));
    assert_eq!(listed[0].description.as_deref(), Some("first"));
}

#[test]
fn list_orders_by_seconds_then_nanoseconds() {
    let mut store = ProjectionStore::new(true);
    for (id, secs, nanos) in [(1u128, 5i64, 0u32), (2, 5, 900), (3, 4, 999_999_999), (4, -1, 0)] {
        let mut event = created(id, "n", secs);
        if let SpecEvent::Created(e) = &mut event {
            e.created_at = Timestamp { secs, nanos };
        }
        store.apply_event(id, &event).unwrap();
    }
    let ids: Vec<u128> = store.list_by_state(None, 100, 0).iter().map(|s| s.id).collect();
    assert_eq!(ids, vec![2, 1, 3, 4]);
}

#[test]
fn list_is_cut_by_limit_and_offset() {
    let mut events = Vec::new();
    for id in 1..=5u128 {
        events.push(created(id, "n", 100 - id as i64));
    }
    let store = store_of(&events);
    let ids = |limit: i64, offset: i64| -> Vec<u128> {
        store.list_by_state(None, limit, offset).iter().map(|s| s.id).collect()
    };
    assert_eq!(ids(2, 0), vec![1, 2]);
    assert_eq!(ids(2, 2), vec![3, 4]);
    assert_eq!(ids(2, 4), vec![5]);
    assert_eq!(ids(2, 5), Vec::<u128>::new());
    assert_eq!(ids(0, 0), Vec::<u128>::new());
    assert_eq!(ids(-1, 3), vec![4, 5]);
    assert_eq!(ids(3, -4), vec![1, 2, 3]);
    assert_eq!(ids(100, 0), vec![1, 2, 3, 4, 5]);
}

#[test]
fn clear_forgets_rows_and_history() {
    let mut store = store_of(&[created(1, "auth", 10), updated(1, 2, None, 20)]);
    store.clear();
    assert!(store.get_by_id(1).is_none());
    assert!(store.get_version(1, 1).is_none());
    assert!(store.list_by_state(None, 10, 0).is_empty());
    store.apply_event(1, &created(1, "auth", 10)).unwrap();
    assert_eq!(store.get_by_id(1).unwrap().version, 1);
}

#[test]
fn list_order_gives_places_of_admitted_rows() {
    let row = |id: u128, state: SpecState, secs: i64| SpecProjection {
        id,
        name: "n".to_string(),
        content: "a: 1".to_string(),
        description: None,
        version: 1,
        state,
        created_at: at(0),
        updated_at: at(secs),
        created_by: "u".to_string(),
        updated_by: "u".to_string(),
    };
    let rows = vec![
        row(1, SpecState::Draft, 10),
        row(2, SpecState::Deleted, 50),
        row(3, SpecState::Draft, 30),
        row(4, SpecState::Published, 30),
    ];
    assert_eq!(list_order(&rows, None), vec![2, 3, 0]);
    assert_eq!(list_order(&rows, Some(SpecState::Draft)), vec![2, 0]);
    assert_eq!(list_order(&rows, Some(SpecState::Deleted)), vec![1]);
    assert!(is_listed(SpecState::Draft, None));
    assert!(!is_listed(SpecState::Deleted, None));
    assert!(is_listed(SpecState::Deleted, Some(SpecState::Deleted)));
    assert!(!is_listed(SpecState::Draft, Some(SpecState::Deleted)));
}

#[test]
fn store_answers_alike_with_and_without_its_cache() {
    let events = [
        created(1, "a", 10),
        created(2, "b", 11),
        updated(1, 2, Some("second"), 20),
        moved(2, SpecState::Published, 21),
        updated(1, 3, None, 30),
        moved(1, SpecState::Deleted, 31),
        updated(9, 4, None, 40),
    ];
    let mut cached = ProjectionStore::new(true);
    let mut plain = ProjectionStore::new(false);
    for event in &events {
        let a = cached.apply_event(event.spec_id(), event);
        let b = plain.apply_event(event.spec_id(), event);
        assert_eq!(format!("{a:?}"), format!("{b:?}"));
        for id in [1u128, 2, 3, 9] {
            assert_eq!(
                format!("{:?}", cached.get_by_id(id)),
                format!("{:?}", plain.get_by_id(id)),
                "{id}"
            );
        }
    }
    let row = cached.get_by_id(1).unwrap();
    assert_eq!((row.version, row.state), (3, SpecState::Deleted));
    assert_eq!(row.description, None);
    assert_eq!(row.updated_at, at(31));
    assert!(cached.get_by_id(9).is_none());
    assert!(cached.apply_event(1, &created(1, "again", 50)).is_err());
    assert_eq!(cached.get_by_id(1).unwrap().name, "a");
    cached.clear();
    plain.clear();
    assert!(cached.get_by_id(1).is_none());
    assert!(plain.get_by_id(1).is_none());
    cached.apply_event(1, &created(1, "anew", 60)).unwrap();
    assert_eq!(cached.get_by_id(1).unwrap().name, "anew");
}
