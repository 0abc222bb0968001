use spec_server::api::dispatch::{
    attempt, attempt_at, decide, decide_at, events_of, load, Refusal,
};
use spec_server::api::rest::{
    correlated, create_spec, deprecate_spec, get_spec, get_spec_version, handle_domain_error, handle_refusal,
    health_check, list_arguments, list_specs, projection_to_response, publish_spec, summary_to_response,
    to_create, to_deprecate, to_publish, to_update, update_spec, AppState, CreateSpecRequest, DeprecateSpecRequest, ListSpecsQuery,
    PublishSpecRequest, UpdateSpecRequest, DEFAULT_LIMIT, MAX_LIMIT,
};
use spec_server::domain::commands::{DeleteSpec, SpecCommand, UpdateSpec};
use spec_server::domain::errors::DomainError;
use spec_server::domain::events::{
    EventMetadata, SpecCreated, SpecEvent, SpecState, SpecUpdated, Timestamp,
};
use spec_server::domain::value_objects::ValidationError;
use spec_server::infrastructure::event_processor::{EventProcessor, Pace};
use spec_server::infrastructure::event_store::EventLog;
use spec_server::infrastructure::projections::{
    ProjectionStore, SpecProjection, SpecSummaryProjection,
};

fn fresh() -> AppState {
    AppState { event_store: EventLog::new(), projection_store: ProjectionStore::new(true) }
}

fn catch_up(state: &mut AppState, processor: &mut EventProcessor) {
    while processor.step(&state.event_store, &mut state.projection_store, false) == Pace::Proceed {}
}

fn create(state: &mut AppState, name: &str, content: &str) -> u128 {
    let (status, response) = create_spec(
        state,
        CreateSpecRequest {
            name: name.to_string(),
            content: content.to_string(),
            description: None,
        },
    )
    .unwrap();
    assert_eq!(status, 201);
    assert_eq!(response.version, 1);
    response.id
}

#[test]
fn health_is_200() {
    assert_eq!(health_check(), 200);
}

#[test]
fn post_specs_appends_a_created_event() {
    let mut state = fresh();
    let id = create(&mut state, "auth", "a: 1");
    let stored = state.event_store.get_events(id, None);
    assert_eq!(stored.len(), 1);
    assert_eq!(stored[0].sequence_number, 1);
    assert_eq!(stored[0].aggregate_id, id);
    assert!(stored[0].metadata.correlation_id.is_some());
    assert_eq!(stored[0].metadata.causation_id, None);
    assert_eq!(stored[0].metadata.user_agent, None);
    assert_eq!(stored[0].metadata.ip_address, None);
    match &stored[0].event {
        SpecEvent::Created(e) => {
            assert_eq!(e.spec_id, id);
            assert_eq!(e.name, "auth");
            assert_eq!(e.content, "a: 1");
            assert_eq!(e.created_by, "user@example.com");
        }
        other => panic!("{other:?}"),
    }
}

#[test]
fn post_specs_with_a_bad_name_is_400() {
    let mut state = fresh();
    let (status, body) = create_spec(
        &mut state,
        CreateSpecRequest {
            name: "bad name".to_string(),
            content: "a: 1".to_string(),
            description: None,
        },
    )
    .unwrap_err();
    assert_eq!(status, 400);
    assert_eq!(body.error, "Validation failed");
    assert_eq!(
        body.details.as_deref(),
        Some("Validation error: Name contains invalid characters")
    );
    assert_eq!(state.event_store.len(), 0);
}

#[test]
fn put_spec_answers_with_the_new_version() {
    let mut state = fresh();
    let id = create(&mut state, "auth", "a: 1");
    for expected in 2..5u32 {
        let response = update_spec(
            &mut state,
            id,
            UpdateSpecRequest { content: format!("a: {expected}"), description: None },
        )
        .unwrap();
        assert_eq!(response.version, expected);
    }
    let stored = state.event_store.get_events(id, Some(1));
    assert_eq!(stored.len(), 3);
    assert_eq!(stored[0].metadata.correlation_id, None);
    match &stored[2].event {
        SpecEvent::Updated(e) => {
            assert_eq!(e.version, 4);
            assert_eq!(e.updated_by, "user@example.com");
        }
        other => panic!("{other:?}"),
    }
}

#[test]
fn put_spec_that_is_missing_is_404_without_details() {
    let mut state = fresh();
    let (status, body) = update_spec(
        &mut state,
        77,
        UpdateSpecRequest { content: "a: 2".to_string(), description: None },
    )
    .unwrap_err();
    assert_eq!(status, 404);
    assert_eq!(body.error, "Spec not found");
    assert_eq!(body.details, None);
    assert_eq!(state.event_store.len(), 0);
}

#[test]
fn put_spec_with_bad_content_is_400_and_appends_nothing() {
    let mut state = fresh();
    let id = create(&mut state, "auth", "a: 1");
    let (status, body) = update_spec(
        &mut state,
        id,
        UpdateSpecRequest { content: "key: : :".to_string(), description: None },
    )
    .unwrap_err();
    assert_eq!(status, 400);
    assert_eq!(body.error, "Validation failed");
    assert_eq!(body.details.as_deref(), Some("Validation error: Invalid YAML content"));
    assert_eq!(state.event_store.len(), 1);
}

#[test]
fn publish_then_deprecate_is_200_each() {
    let mut state = fresh();
    let id = create(&mut state, "auth", "a: 1");
    assert_eq!(publish_spec(&mut state, id, PublishSpecRequest { version: Some(1) }).unwrap(), 200);
    assert_eq!(
        deprecate_spec(&mut state, id, DeprecateSpecRequest { reason: "obsolete".to_string() })
            .unwrap(),
        200
    );
    let stored = state.event_store.get_events(id, None);
    assert_eq!(stored.len(), 3);
    match &stored[2].event {
        SpecEvent::StateChanged(e) => {
            assert_eq!(e.to_state, SpecState::Deprecated);
            assert_eq!(e.reason.as_deref(), Some("obsolete"));
            assert_eq!(e.changed_by, "admin@example.com");
        }
        other => panic!("{other:?}"),
    }
}

#[test]
fn publish_with_a_stale_version_is_409() {
    let mut state = fresh();
    let id = create(&mut state, "auth", "a: 1");
    update_spec(&mut state, id, UpdateSpecRequest { content: "a: 2".to_string(), description: None })
        .unwrap();
    let (status, body) =
        publish_spec(&mut state, id, PublishSpecRequest { version: Some(1) }).unwrap_err();
    assert_eq!(status, 409);
    assert_eq!(body.error, "Version mismatch");
    assert_eq!(body.details.as_deref(), Some("Version mismatch: expected 2, got 1"));
    assert_eq!(state.event_store.len(), 2);
}

#[test]
fn deprecate_of_a_draft_is_400() {
    let mut state = fresh();
    let id = create(&mut state, "auth", "a: 1");
    let (status, body) =
        deprecate_spec(&mut state, id, DeprecateSpecRequest { reason: "r".to_string() })
            .unwrap_err();
    assert_eq!(status, 400);
    assert_eq!(body.error, "Invalid state transition");
    assert_eq!(
        body.details.as_deref(),
        Some("Invalid state transition from Draft to Deprecated")
    );
    assert_eq!(state.event_store.len(), 1);
    assert_eq!(
        publish_spec(&mut state, 5, PublishSpecRequest { version: None }).unwrap_err().0,
        404
    );
}

#[test]
fn get_spec_shows_the_row() {
    let mut state = fresh();
    let mut processor = EventProcessor::new(0);
    let id = create(&mut state, "auth", "a: 1");
    assert_eq!(get_spec(&state, id).unwrap_err().0, 404);
    catch_up(&mut state, &mut processor);
    publish_spec(&mut state, id, PublishSpecRequest { version: None }).unwrap();
    catch_up(&mut state, &mut processor);
    let shown = get_spec(&state, id).unwrap();
    assert_eq!(shown.id, id);
    assert_eq!(shown.name, "auth");
    assert_eq!(shown.content, "a: 1");
    assert_eq!(shown.version, 1);
    assert_eq!(shown.state, "published");
    assert_eq!(shown.created_by, "user@example.com");
    assert_eq!(shown.updated_by, "user@example.com");
    let (status, body) = get_spec(&state, id ^ 1).unwrap_err();
    assert_eq!(status, 404);
    assert_eq!(body.error, "Spec not found");
    assert_eq!(body.details, None);
}

#[test]
fn get_version_shows_what_the_version_held() {
    let mut state = fresh();
    let mut processor = EventProcessor::new(0);
    let id = create(&mut state, "auth", "a: 1");
    update_spec(
        &mut state,
        id,
        UpdateSpecRequest { content: "a: 2".to_string(), description: Some("two".to_string()) },
    )
    .unwrap();
    catch_up(&mut state, &mut processor);
    let one = get_spec_version(&state, id, 1).unwrap();
    assert_eq!((one.id, one.version), (id, 1));
    assert_eq!(one.content, "a: 1");
    assert_eq!(one.description, None);
    let two = get_spec_version(&state, id, 2).unwrap();
    assert_eq!(two.content, "a: 2");
    assert_eq!(two.description.as_deref(), Some("two"));
    let (status, body) = get_spec_version(&state, id, 3).unwrap_err();
    assert_eq!(status, 404);
    assert_eq!(body.error, "Version not found");
    assert_eq!(body.details, None);
}

#[test]
fn list_defaults_to_twenty_and_stops_at_a_hundred() {
    assert_eq!(DEFAULT_LIMIT, 20);
    assert_eq!(MAX_LIMIT, 100);
    let mut state = fresh();
    let mut processor = EventProcessor::new(0);
    for i in 0..120 {
        create(&mut state, &format!("spec-{i}"), "a: 1");
    }
    catch_up(&mut state, &mut processor);
    let page = list_specs(&state, ListSpecsQuery { state: None, limit: None, offset: None });
    assert_eq!(page.specs.len(), 20);
    assert_eq!((page.total, page.limit, page.offset), (20, 20, 0));
    let page = list_specs(&state, ListSpecsQuery { state: None, limit: Some(500), offset: Some(10) });
    assert_eq!(page.specs.len(), 100);
    assert_eq!((page.total, page.limit, page.offset), (100, 100, 10));
    let page = list_specs(&state, ListSpecsQuery { state: None, limit: Some(7), offset: Some(118) });
    assert_eq!(page.specs.len(), 2);
    assert_eq!((page.total, page.limit, page.offset), (2, 7, 118));
    let page = list_specs(&state, ListSpecsQuery { state: None, limit: Some(-1), offset: None });
    assert_eq!(page.specs.len(), 100);
    assert_eq!((page.total, page.limit, page.offset), (100, 100, 0));
    assert!(page.specs.iter().all(|s| s.state == "draft" && s.latest_version == 1));
}

#[test]
fn list_filters_by_the_state_that_the_word_names() {
    let mut state = fresh();
    let mut processor = EventProcessor::new(0);
    let a = create(&mut state, "a", "a: 1");
    let b = create(&mut state, "b", "a: 1");
    let c = create(&mut state, "c", "a: 1");
    publish_spec(&mut state, b, PublishSpecRequest { version: None }).unwrap();
    attempt(
        &mut state.event_store,
        c,
        SpecCommand::Delete(DeleteSpec { spec_id: c, deleted_by: "x".to_string() }),
        EventMetadata::default(),
    )
    .unwrap();
    catch_up(&mut state, &mut processor);
    let ids = |word: Option<&str>| -> Vec<u128> {
        let mut ids: Vec<u128> = list_specs(
            &state,
            ListSpecsQuery { state: word.map(|w| w.to_string()), limit: None, offset: None },
        )
        .specs
        .iter()
        .map(|s| s.id)
        .collect();
        ids.sort();
        ids
    };
    let sorted = |mut v: Vec<u128>| {
        v.sort();
        v
    };
    assert_eq!(ids(None), sorted(vec![a, b]));
    assert_eq!(ids(Some("draft")), vec![a]);
    assert_eq!(ids(Some("published")), vec![b]);
    assert_eq!(ids(Some("deleted")), vec![c]);
    assert_eq!(ids(Some("deprecated")), Vec::<u128>::new());
    assert_eq!(ids(Some("nonsense")), sorted(vec![a, b]));
}

#[test]
fn errors_map_to_statuses() {
    let cases: Vec<(DomainError, u16, &str, &str)> = vec![
        (
            DomainError::SpecNotFound(0xa1a2a3a4b1b2c1c2d1d2d3d4d5d6d7d8),
            404,
            "Spec not found",
            "Spec not found: a1a2a3a4-b1b2-c1c2-d1d2-d3d4d5d6d7d8",
        ),
        (
            DomainError::InvalidStateTransition {
                from: SpecState::Published,
                to: SpecState::Published,
            },
            400,
            "Invalid state transition",
            "Invalid state transition from Published to Published",
        ),
        (
            DomainError::VersionMismatch { expected: 4294967295, actual: 0 },
            409,
            "Version mismatch",
            "Version mismatch: expected 4294967295, got 0",
        ),
        (
            DomainError::DuplicateSpecName("auth".to_string()),
            409,
            "Spec name already exists",
            "Spec already exists with name: auth",
        ),
        (
            DomainError::InvalidStateForOperation(SpecState::Deleted),
            400,
            "Invalid operation for current state",
            "Cannot modify spec in Deleted state",
        ),
        (
            DomainError::ValidationError(ValidationError::ContentTooLarge),
            400,
            "Validation failed",
            "Validation error: Content too large (max 2048 characters)",
        ),
        (
            DomainError::EventStoreError("disk".to_string()),
            500,
            "Internal server error",
            "Event store error: disk",
        ),
        (
            DomainError::ProjectionError("row".to_string()),
            500,
            "Internal server error",
            "Projection error: row",
        ),
    ];
    for (error, status, headline, details) in cases {
        assert_eq!(error.message(), details);
        assert_eq!(error.clone().message(), details);
        let (got, body) = handle_domain_error(&error);
        assert_eq!(got, status);
        assert_eq!(body.error, headline);
        assert_eq!(body.details.as_deref(), Some(details));
    }
}

#[test]
fn refusals_map_to_statuses() {
    let (status, body) = handle_refusal(&Refusal::NotFound);
    assert_eq!((status, body.error.as_str(), body.details), (404, "Spec not found", None));
    let e = || DomainError::DuplicateSpecName("n".to_string());
    assert_eq!(handle_refusal(&Refusal::Load(e())).0, 409);
    assert_eq!(handle_refusal(&Refusal::Command(e())).0, 409);
    assert_eq!(handle_refusal(&Refusal::Append(e())).0, 409);
}

#[test]
fn validation_errors_have_their_wording() {
    assert_eq!(ValidationError::EmptyName.message(), "Name cannot be empty");
    assert_eq!(ValidationError::NameTooLong.message(), "Name too long (max 255 characters)");
    assert_eq!(ValidationError::InvalidCharacters.message(), "Name contains invalid characters");
    assert_eq!(ValidationError::EmptyContent.message(), "Content cannot be empty");
    assert_eq!(ValidationError::InvalidYaml.message(), "Invalid YAML content");
    assert_eq!(DomainError::from(ValidationError::EmptyName).message(), "Validation error: Name cannot be empty");
}

#[test]
fn responses_show_states_in_lower_case() {
    let at = Timestamp { secs: 3, nanos: 4 };
    let shown = projection_to_response(SpecProjection {
        id: 9,
        name: "auth".to_string(),
        content: "a: 1".to_string(),
        description: Some("d".to_string()),
        version: 3,
        state: SpecState::Deprecated,
        created_at: at,
        updated_at: Timestamp { secs: 5, nanos: 6 },
        created_by: "c".to_string(),
        updated_by: "u".to_string(),
    });
    assert_eq!(shown.id, 9);
    assert_eq!(shown.state, "deprecated");
    assert_eq!(shown.description.as_deref(), Some("d"));
    assert_eq!(shown.version, 3);
    assert_eq!(shown.created_at, at);
    assert_eq!(shown.updated_at, Timestamp { secs: 5, nanos: 6 });
    assert_eq!((shown.created_by.as_str(), shown.updated_by.as_str()), ("c", "u"));
    let entry = summary_to_response(SpecSummaryProjection {
        id: 9,
        name: "auth".to_string(),
        description: None,
        latest_version: 3,
        state: SpecState::Deleted,
        updated_at: at,
    });
    assert_eq!(entry.state, "deleted");
    assert_eq!(entry.latest_version, 3);
    assert_eq!(entry.name, "auth");
    assert_eq!(entry.updated_at, at);
}

#[test]
fn load_rebuilds_a_spec_from_its_stream() {
    let mut log = EventLog::new();
    assert!(load(&log, 1).is_none());
    log.append_events(
        1,
        vec![SpecEvent::Created(SpecCreated {
            spec_id: 1,
            name: "auth".to_string(),
            content: "a: 1".to_string(),
            description: None,
            created_by: "u".to_string(),
            created_at: Timestamp { secs: 1, nanos: 0 },
        })],
        EventMetadata::default(),
    )
    .unwrap();
    log.append_events(
        2,
        vec![SpecEvent::Updated(SpecUpdated {
            spec_id: 2,
            version: 2,
            content: "a: 2".to_string(),
            description: None,
            updated_by: "u".to_string(),
            updated_at: Timestamp { secs: 1, nanos: 0 },
        })],
        EventMetadata::default(),
    )
    .unwrap();
    assert_eq!(load(&log, 1).unwrap().unwrap().name.as_str(), "auth");
    assert!(matches!(load(&log, 2), Some(Err(DomainError::EventStoreError(_)))));
    assert_eq!(events_of(&log.get_events(1, None)).len(), 1);
}

#[test]
fn attempt_names_the_step_at_which_it_stopped() {
    let mut log = EventLog::new();
    let update = |id: u128, content: &str| {
        SpecCommand::Update(UpdateSpec {
            spec_id: id,
            content: content.to_string(),
            description: None,
            updated_by: "u".to_string(),
        })
    };
    let at = Timestamp { secs: 9, nanos: 9 };
    assert!(matches!(
        attempt_at(&mut log, 1, update(1, "a: 2"), EventMetadata::default(), at),
        Err(Refusal::NotFound)
    ));
    log.append_events(
        1,
        vec![SpecEvent::Created(SpecCreated {
            spec_id: 1,
            name: "auth".to_string(),
            content: "a: 1".to_string(),
            description: None,
            created_by: "u".to_string(),
            created_at: Timestamp { secs: 1, nanos: 0 },
        })],
        EventMetadata::default(),
    )
    .unwrap();
    assert!(matches!(
        attempt_at(&mut log, 1, update(1, ""), EventMetadata::default(), at),
        Err(Refusal::Command(DomainError::ValidationError(ValidationError::EmptyContent)))
    ));
    assert_eq!(log.len(), 1);
    let (spec, envelopes) =
        attempt_at(&mut log, 1, update(1, "a: 2"), EventMetadata::default(), at).unwrap();
    assert_eq!(spec.version.as_u32(), 1);
    assert_eq!(envelopes.len(), 1);
    assert_eq!(envelopes[0].sequence_number, 2);
    match &envelopes[0].event {
        SpecEvent::Updated(e) => assert_eq!((e.version, e.updated_at), (2, at)),
        other => panic!("{other:?}"),
    }
    assert_eq!(log.len(), 2);
}

#[test]
fn update_at_the_last_version_is_refused() {
    let mut log = EventLog::new();
    log.append_events(
        1,
        vec![
            SpecEvent::Created(SpecCreated {
                spec_id: 1,
                name: "auth".to_string(),
                content: "a: 1".to_string(),
                description: None,
                created_by: "u".to_string(),
                created_at: Timestamp { secs: 1, nanos: 0 },
            }),
            SpecEvent::Updated(SpecUpdated {
                spec_id: 1,
                version: u32::MAX,
                content: "a: 2".to_string(),
                description: None,
                updated_by: "u".to_string(),
                updated_at: Timestamp { secs: 2, nanos: 0 },
            }),
        ],
        EventMetadata::default(),
    )
    .unwrap();
    let r = attempt(
        &mut log,
        1,
        SpecCommand::Update(UpdateSpec {
            spec_id: 1,
            content: "a: 3".to_string(),
            description: None,
            updated_by: "u".to_string(),
        }),
        EventMetadata::default(),
    );
    match r {
        Err(Refusal::Command(DomainError::EventStoreError(msg))) => {
            assert_eq!(msg, "Version limit reached")
        }
        other => panic!("{other:?}"),
    }
    assert_eq!(log.len(), 2);
}

#[test]
fn rows_show_the_state_that_the_events_replay_to() {
    let mut state = fresh();
    let mut processor = EventProcessor::new(0);
    let a = create(&mut state, "a", "a: 1");
    let b = create(&mut state, "b", "b: 1");
    update_spec(
        &mut state,
        a,
        UpdateSpecRequest { content: "a: 2".to_string(), description: Some("two".to_string()) },
    )
    .unwrap();
    publish_spec(&mut state, a, PublishSpecRequest { version: Some(2) }).unwrap();
    catch_up(&mut state, &mut processor);
    update_spec(&mut state, b, UpdateSpecRequest { content: "b: 2".to_string(), description: None })
        .unwrap();
    deprecate_spec(&mut state, a, DeprecateSpecRequest { reason: "r".to_string() }).unwrap();
    catch_up(&mut state, &mut processor);
    assert_eq!(processor.position(), state.event_store.len() as i64);

    for id in [a, b] {
        let spec = load(&state.event_store, id).unwrap().unwrap();
        let row = state.projection_store.get_by_id(id).unwrap();
        assert_eq!(row.id, spec.id);
        assert_eq!(row.name, spec.name.as_str());
        assert_eq!(row.content, spec.content.as_str());
        assert_eq!(row.description, spec.description);
        assert_eq!(row.version, spec.version.as_u32());
        assert_eq!(row.state, spec.state);
        assert_eq!(row.created_at, spec.created_at);
        assert_eq!(row.updated_at, spec.updated_at);
        assert_eq!(row.created_by, spec.created_by);
        assert_eq!(row.updated_by, spec.updated_by);
        for version in 1..=spec.version.as_u32() {
            assert!(state.projection_store.get_version(id, version).is_some());
        }
        assert!(state.projection_store.get_version(id, spec.version.as_u32() + 1).is_none());
    }
}

#[test]
fn list_arguments_follow_the_query() {
    let query = |state: Option<&str>, limit: Option<i64>, offset: Option<i64>| ListSpecsQuery {
        state: state.map(|s| s.to_string()),
        limit,
        offset,
    };
    assert_eq!(list_arguments(&query(None, None, None)), (None, 20, 0));
    assert_eq!(
        list_arguments(&query(Some("deprecated"), Some(100), Some(7))),
        (Some(SpecState::Deprecated), 100, 7)
    );
    assert_eq!(list_arguments(&query(Some("x"), Some(101), Some(-7))), (None, 100, -7));
    assert_eq!(
        list_arguments(&query(Some("draft"), Some(-3), None)),
        (Some(SpecState::Draft), 100, 0)
    );
    assert_eq!(list_arguments(&query(None, Some(0), None)), (None, 0, 0));
    assert_eq!(list_arguments(&query(None, Some(99), None)), (None, 99, 0));
    assert_eq!(list_arguments(&query(None, Some(i64::MIN), None)), (None, 100, 0));
}

#[test]
fn rest_requests_stand_for_commands() {
    let create = to_create(CreateSpecRequest {
        name: "n".to_string(),
        content: "c".to_string(),
        description: Some(String::new()),
    });
    assert_eq!((create.name.as_str(), create.content.as_str()), ("n", "c"));
    assert_eq!(create.description.as_deref(), Some(""));
    assert_eq!(create.created_by, "user@example.com");
    match to_update(7, UpdateSpecRequest { content: "c".to_string(), description: None }) {
        SpecCommand::Update(c) => {
            assert_eq!((c.spec_id, c.content.as_str(), c.description), (7, "c", None));
            assert_eq!(c.updated_by, "user@example.com");
        }
        other => panic!("{other:?}"),
    }
    match to_publish(7, PublishSpecRequest { version: None }) {
        SpecCommand::Publish(c) => {
            assert_eq!((c.spec_id, c.version), (7, None));
            assert_eq!(c.published_by, "admin@example.com");
        }
        other => panic!("{other:?}"),
    }
    match to_deprecate(7, DeprecateSpecRequest { reason: "r".to_string() }) {
        SpecCommand::Deprecate(c) => {
            assert_eq!((c.spec_id, c.reason.as_str()), (7, "r"));
            assert_eq!(c.deprecated_by, "admin@example.com");
        }
        other => panic!("{other:?}"),
    }
    let metadata = correlated(9);
    assert_eq!(metadata.correlation_id, Some(9));
    assert_eq!(metadata.causation_id, None);
    assert_eq!((metadata.user_agent, metadata.ip_address), (None, None));
}

#[test]
fn decide_appends_nothing() {
    let mut log = EventLog::new();
    log.append_events(
        1,
        vec![SpecEvent::Created(SpecCreated {
            spec_id: 1,
            name: "auth".to_string(),
            content: "a: 1".to_string(),
            description: None,
            created_by: "u".to_string(),
            created_at: Timestamp { secs: 1, nanos: 0 },
        })],
        EventMetadata::default(),
    )
    .unwrap();
    let update = || {
        SpecCommand::Update(UpdateSpec {
            spec_id: 1,
            content: "a: 2".to_string(),
            description: None,
            updated_by: "u".to_string(),
        })
    };
    let stored = log.get_events(1, None);
    let at = Timestamp { secs: 4, nanos: 5 };
    let (spec, events) = decide_at(&stored, update(), at).unwrap();
    assert_eq!(spec.version.as_u32(), 1);
    assert_eq!(events.len(), 1);
    match &events[0] {
        SpecEvent::Updated(e) => assert_eq!((e.version, e.updated_at), (2, at)),
        other => panic!("{other:?}"),
    }
    assert_eq!(log.len(), 1);
    let (_, events) = decide(&stored, update()).unwrap();
    assert_eq!(events.len(), 1);
    assert!(matches!(decide(&Vec::new(), update()), Err(Refusal::NotFound)));
    assert!(matches!(
        decide_at(&log.get_events(2, None), update(), at),
        Err(Refusal::NotFound)
    ));
    let mut broken = log.get_events(1, None);
    broken.remove(0);
    broken.push(stored[0].clone());
    broken.push(stored[0].clone());
    assert!(matches!(decide_at(&broken, update(), at), Err(Refusal::Load(_))));
}
