//! The REST surface: what each route does with its request, up to the status and
//! the body of the answer.

use vstd::prelude::*;
use vstd::string::*;
use crate::domain::aggregates::{creation, outcome, Spec};
use crate::domain::commands::{
    CreateSpec, CreateSpecView, DeprecateSpec, DeprecateSpecView, PublishSpec, PublishSpecView,
    SpecCommand, SpecCommandView, UpdateSpec, UpdateSpecView,
};
use crate::domain::errors::{DomainError, DomainErrorView};
use crate::domain::events::{
    event_views, state_label, state_of_label, text, EventEnvelopeView, EventMetadata, SpecEvent,
    SpecState, Timestamp,
};
use crate::domain::messages::error_text;
use crate::domain::sources::{fresh_id, marked_random};
use crate::infrastructure::event_store::{envelope_views, stamped, stream, valid_log, EventLog};
use crate::infrastructure::listing::{is_listing, listing};
use crate::infrastructure::projections::{
    listing_page, row_by_id, summary_views, version_content, ProjectionStore, SpecProjection,
    SpecProjectionView, SpecSummaryProjection, SpecSummaryProjectionView,
};
use crate::infrastructure::histories::kept;
use crate::infrastructure::event_store::appended;
use super::dispatch::{
    attempt, judged, no_metadata, request_metadata, Refusal, RefusalView,
};

verus! {

/// How many specifications a list holds where the request names no limit.
pub const DEFAULT_LIMIT: i64 = 20;

/// How many specifications a list holds at most.
pub const MAX_LIMIT: i64 = 100;

/// The stores that the routes work on.
pub struct AppState {
    pub event_store: EventLog,
    pub projection_store: ProjectionStore,
}

#[derive(Debug)]
pub struct CreateSpecRequest {
    pub name: String,
    pub content: String,
    pub description: Option<String>,
}

#[derive(Debug, Clone, Copy, PartialEq, Eq, Structural)]
pub struct CreateSpecResponse {
    pub id: u128,
    pub version: u32,
}

#[derive(Debug)]
pub struct UpdateSpecRequest {
    pub content: String,
    pub description: Option<String>,
}

#[derive(Debug, Clone, Copy, PartialEq, Eq, Structural)]
pub struct UpdateSpecResponse {
    pub version: u32,
}

#[derive(Debug, Clone, Copy, PartialEq, Eq, Structural)]
pub struct PublishSpecRequest {
    pub version: Option<u32>,
}

#[derive(Debug)]
pub struct DeprecateSpecRequest {
    pub reason: String,
}

#[derive(Debug)]
pub struct ListSpecsQuery {
    pub state: Option<String>,
    pub limit: Option<i64>,
    pub offset: Option<i64>,
}

/// The full state of a specification, as the answer shows it.
#[derive(Debug)]
pub struct SpecResponse {
    pub id: u128,
    pub name: String,
    pub content: String,
    pub description: Option<String>,
    pub version: u32,
    pub state: String,
    pub created_at: Timestamp,
    pub updated_at: Timestamp,
    pub created_by: String,
    pub updated_by: String,
}

pub struct SpecResponseView {
    pub id: u128,
    pub name: Seq<char>,
    pub content: Seq<char>,
    pub description: Option<Seq<char>>,
    pub version: u32,
    pub state: Seq<char>,
    pub created_at: Timestamp,
    pub updated_at: Timestamp,
    pub created_by: Seq<char>,
    pub updated_by: Seq<char>,
}

impl View for SpecResponse {
    type V = SpecResponseView;

    open spec fn view(&self) -> SpecResponseView {
        SpecResponseView {
            id: self.id,
            name: self.name@,
            content: self.content@,
            description: text(self.description),
            version: self.version,
            state: self.state@,
            created_at: self.created_at,
            updated_at: self.updated_at,
            created_by: self.created_by@,
            updated_by: self.updated_by@,
        }
    }
}

/// One entry of a list, as the answer shows it.
#[derive(Debug)]
pub struct SpecSummaryResponse {
    pub id: u128,
    pub name: String,
    pub description: Option<String>,
    pub latest_version: u32,
    pub state: String,
    pub updated_at: Timestamp,
}

pub struct SpecSummaryResponseView {
    pub id: u128,
    pub name: Seq<char>,
    pub description: Option<Seq<char>>,
    pub latest_version: u32,
    pub state: Seq<char>,
    pub updated_at: Timestamp,
}

impl View for SpecSummaryResponse {
    type V = SpecSummaryResponseView;

    open spec fn view(&self) -> SpecSummaryResponseView {
        SpecSummaryResponseView {
            id: self.id,
            name: self.name@,
            description: text(self.description),
            latest_version: self.latest_version,
            state: self.state@,
            updated_at: self.updated_at,
        }
    }
}

/// A page of a list, with the limit and the offset that were applied; `total` is
/// the number of entries on the page.
#[derive(Debug)]
pub struct ListSpecsResponse {
    pub specs: Vec<SpecSummaryResponse>,
    pub total: usize,
    pub limit: i64,
    pub offset: i64,
}

/// One version of a specification, as the answer shows it.
#[derive(Debug)]
pub struct SpecVersionResponse {
    pub id: u128,
    pub version: u32,
    pub content: String,
    pub description: Option<String>,
}

/// The body of an answer that reports a failure.
#[derive(Debug)]
pub struct ErrorResponse {
    pub error: String,
    pub details: Option<String>,
}

pub struct ErrorResponseView {
    pub error: Seq<char>,
    pub details: Option<Seq<char>>,
}

impl View for ErrorResponse {
    type V = ErrorResponseView;

    open spec fn view(&self) -> ErrorResponseView {
        ErrorResponseView { error: self.error@, details: text(self.details) }
    }
}

/// The status under which an error is reported: 404 for what is not found, 400 for
/// what the state of the specification or the rules of validation forbid, 409 for
/// what conflicts with what is stored, 500 for the rest.
pub open spec fn error_status(e: DomainErrorView) -> u16 {
    match e {
        DomainErrorView::SpecNotFound(_) => 404,
        DomainErrorView::InvalidStateTransition { .. } => 400,
        DomainErrorView::VersionMismatch { .. } => 409,
        DomainErrorView::DuplicateSpecName(_) => 409,
        DomainErrorView::InvalidStateForOperation(_) => 400,
        DomainErrorView::ValidationError(_) => 400,
        _ => 500,
    }
}

/// The short wording under which an error is reported.
pub open spec fn error_headline(e: DomainErrorView) -> Seq<char> {
    match e {
        DomainErrorView::SpecNotFound(_) => "Spec not found"@,
        DomainErrorView::InvalidStateTransition { .. } => "Invalid state transition"@,
        DomainErrorView::VersionMismatch { .. } => "Version mismatch"@,
        DomainErrorView::DuplicateSpecName(_) => "Spec name already exists"@,
        DomainErrorView::InvalidStateForOperation(_) => "Invalid operation for current state"@,
        DomainErrorView::ValidationError(_) => "Validation failed"@,
        _ => "Internal server error"@,
    }
}

/// The answer that reports an error: its status, its headline, and what the error
/// says as details.
pub open spec fn error_reply(e: DomainErrorView) -> (u16, ErrorResponseView) {
    (error_status(e), ErrorResponseView { error: error_headline(e), details: Some(error_text(e)) })
}

/// The answer that reports that something is not there.
pub open spec fn missing_reply(what: Seq<char>) -> (u16, ErrorResponseView) {
    (404, ErrorResponseView { error: what, details: None })
}

/// The answer that reports why a command led to no event.
pub open spec fn refusal_reply(x: RefusalView) -> (u16, ErrorResponseView) {
    match x {
        RefusalView::NotFound => missing_reply("Spec not found"@),
        RefusalView::Load(e) => error_reply(e),
        RefusalView::Command(e) => error_reply(e),
        RefusalView::Append(e) => error_reply(e),
    }
}

/// The view of an answer that reports a failure.
pub open spec fn failure(e: (u16, ErrorResponse)) -> (u16, ErrorResponseView) {
    (e.0, e.1@)
}

/// The answer that reports an error.
pub fn handle_domain_error(error: &DomainError) -> (reply: (u16, ErrorResponse))
    ensures
        failure(reply) == error_reply(error@),
{
    let (status, message) = match error {
        DomainError::SpecNotFound(_) => (404u16, "Spec not found"),
        DomainError::InvalidStateTransition { .. } => (400u16, "Invalid state transition"),
        DomainError::VersionMismatch { .. } => (409u16, "Version mismatch"),
        DomainError::DuplicateSpecName(_) => (409u16, "Spec name already exists"),
        DomainError::InvalidStateForOperation(_) => (400u16, "Invalid operation for current state"),
        DomainError::ValidationError(_) => (400u16, "Validation failed"),
        _ => (500u16, "Internal server error"),
    };
    (status, ErrorResponse { error: message.to_owned(), details: Some(error.message()) })
}

fn not_found(what: &str) -> (reply: (u16, ErrorResponse))
    ensures
        failure(reply) == missing_reply(what@),
{
    (404, ErrorResponse { error: what.to_owned(), details: None })
}

/// The answer that reports why a command led to no event.
pub fn handle_refusal(refusal: &Refusal) -> (reply: (u16, ErrorResponse))
    ensures
        failure(reply) == refusal_reply(refusal@),
{
    match refusal {
        Refusal::NotFound => not_found("Spec not found"),
        Refusal::Load(e) => handle_domain_error(e),
        Refusal::Command(e) => handle_domain_error(e),
        Refusal::Append(e) => handle_domain_error(e),
    }
}

/// What an answer shows of a row.
pub open spec fn response_of(row: SpecProjectionView) -> SpecResponseView {
    SpecResponseView {
        id: row.id,
        name: row.name,
        content: row.content,
        description: row.description,
        version: row.version,
        state: state_label(row.state),
        created_at: row.created_at,
        updated_at: row.updated_at,
        created_by: row.created_by,
        updated_by: row.updated_by,
    }
}

/// What an answer shows of an entry of a list.
pub open spec fn summary_response_of(s: SpecSummaryProjectionView) -> SpecSummaryResponseView {
    SpecSummaryResponseView {
        id: s.id,
        name: s.name,
        description: s.description,
        latest_version: s.latest_version,
        state: state_label(s.state),
        updated_at: s.updated_at,
    }
}

pub fn projection_to_response(proj: SpecProjection) -> (response: SpecResponse)
    ensures
        response@ == response_of(proj@),
{
    SpecResponse {
        id: proj.id,
        name: proj.name,
        content: proj.content,
        description: proj.description,
        version: proj.version,
        state: proj.state.as_str().to_owned(),
        created_at: proj.created_at,
        updated_at: proj.updated_at,
        created_by: proj.created_by,
        updated_by: proj.updated_by,
    }
}

pub fn summary_to_response(summary: SpecSummaryProjection) -> (response: SpecSummaryResponse)
    ensures
        response@ == summary_response_of(summary@),
{
    SpecSummaryResponse {
        id: summary.id,
        name: summary.name,
        description: summary.description,
        latest_version: summary.latest_version,
        state: summary.state.as_str().to_owned(),
        updated_at: summary.updated_at,
    }
}

/// The state that a list is asked for: the state that the word names, or none
/// where no word is given or the word names no state.
pub open spec fn state_filter(word: Option<String>) -> Option<SpecState> {
    match word {
        Some(w) => state_of_label(w@),
        None => None,
    }
}

/// The limit that a list is cut at: the one asked for, or 20 where none is asked
/// for, and never more than 100. A negative limit asks for no bound, and gets 100
/// as any limit above 100 does.
pub open spec fn page_limit(limit: Option<i64>) -> i64 {
    let asked = match limit {
        Some(n) => n,
        None => DEFAULT_LIMIT,
    };
    if 0 <= asked < MAX_LIMIT {
        asked
    } else {
        MAX_LIMIT
    }
}

/// The offset that a list starts at: the one asked for, or 0.
pub open spec fn page_offset(offset: Option<i64>) -> i64 {
    match offset {
        Some(n) => n,
        None => 0,
    }
}

/// The views of the entries of a list.
pub open spec fn summary_response_views(specs: Seq<SpecSummaryResponse>) -> Seq<
    SpecSummaryResponseView,
> {
    specs.map_values(|s: SpecSummaryResponse| s@)
}

/// Whom the routes act for where they change a specification's content.
pub open spec fn author() -> Seq<char> {
    "user@example.com"@
}

/// Whom the routes act for where they move a specification along its lifecycle.
pub open spec fn steward() -> Seq<char> {
    "admin@example.com"@
}

/// The command that a request to create stands for.
pub open spec fn create_command(req: CreateSpecRequest) -> CreateSpecView {
    CreateSpecView {
        name: req.name@,
        content: req.content@,
        description: text(req.description),
        created_by: author(),
    }
}

/// The command that a request to update stands for.
pub open spec fn update_command(id: u128, req: UpdateSpecRequest) -> SpecCommandView {
    SpecCommandView::Update(
        UpdateSpecView {
            spec_id: id,
            content: req.content@,
            description: text(req.description),
            updated_by: author(),
        },
    )
}

/// The command that a request to publish stands for.
pub open spec fn publish_command(id: u128, req: PublishSpecRequest) -> SpecCommandView {
    SpecCommandView::Publish(
        PublishSpecView { spec_id: id, version: req.version, published_by: steward() },
    )
}

/// The command that a request to deprecate stands for.
pub open spec fn deprecate_command(id: u128, req: DeprecateSpecRequest) -> SpecCommandView {
    SpecCommandView::Deprecate(
        DeprecateSpecView { spec_id: id, reason: req.reason@, deprecated_by: steward() },
    )
}

/// Builds the command that a request to create stands for.
pub fn to_create(req: CreateSpecRequest) -> (command: CreateSpec)
    ensures
        command@ == create_command(req),
{
    CreateSpec {
        name: req.name,
        content: req.content,
        description: req.description,
        created_by: "user@example.com".to_owned(),
    }
}

/// Builds the command that a request to update stands for.
pub fn to_update(id: u128, req: UpdateSpecRequest) -> (command: SpecCommand)
    ensures
        command@ == update_command(id, req),
{
    SpecCommand::Update(
        UpdateSpec {
            spec_id: id,
            content: req.content,
            description: req.description,
            updated_by: "user@example.com".to_owned(),
        },
    )
}

/// Builds the command that a request to publish stands for.
pub fn to_publish(id: u128, req: PublishSpecRequest) -> (command: SpecCommand)
    ensures
        command@ == publish_command(id, req),
{
    SpecCommand::Publish(
        PublishSpec {
            spec_id: id,
            version: req.version,
            published_by: "admin@example.com".to_owned(),
        },
    )
}

/// Builds the command that a request to deprecate stands for.
pub fn to_deprecate(id: u128, req: DeprecateSpecRequest) -> (command: SpecCommand)
    ensures
        command@ == deprecate_command(id, req),
{
    SpecCommand::Deprecate(
        DeprecateSpec {
            spec_id: id,
            reason: req.reason,
            deprecated_by: "admin@example.com".to_owned(),
        },
    )
}

/// The metadata of an event that a request with the correlation identifier
/// `correlation` caused.
pub fn correlated(correlation: u128) -> (metadata: EventMetadata)
    ensures
        metadata@ == request_metadata(correlation),
{
    EventMetadata {
        correlation_id: Some(correlation),
        causation_id: None,
        user_agent: None,
        ip_address: None,
    }
}

/// What `POST /specs` comes to, for the identifiers and the instant that were
/// drawn: a request that breaks a rule is answered with that error and appends
/// nothing; any other appends one Created event under the new identifier and is
/// answered with 201, the identifier and version 1.
pub open spec fn create_posted(
    before: Seq<EventEnvelopeView>,
    after: Seq<EventEnvelopeView>,
    req: CreateSpecRequest,
    spec_id: u128,
    at: Timestamp,
    correlation: u128,
    reply: Result<(u16, CreateSpecResponse), (u16, ErrorResponseView)>,
) -> bool {
    match creation(create_command(req), spec_id, at) {
        Err(e) => reply == Err::<(u16, CreateSpecResponse), (u16, ErrorResponseView)>(
            error_reply(e),
        ) && after == before,
        Ok(events) => if before.len() + events.len() > i64::MAX {
            reply == Err::<(u16, CreateSpecResponse), (u16, ErrorResponseView)>(
                error_reply(DomainErrorView::EventStoreError("Event log is full"@)),
            ) && after == before
        } else {
            reply == Ok::<(u16, CreateSpecResponse), (u16, ErrorResponseView)>(
                (201, CreateSpecResponse { id: spec_id, version: 1 }),
            ) && appended(before, after, spec_id, events, request_metadata(correlation))
        },
    }
}

/// What a route that changes a specification comes to, as of the instant `at`: a
/// command that yields no event is answered with the reason and appends nothing;
/// any other appends what it yields, without metadata.
pub open spec fn command_posted(
    before: Seq<EventEnvelopeView>,
    after: Seq<EventEnvelopeView>,
    id: u128,
    command: SpecCommandView,
    at: Timestamp,
    failed: Option<(u16, ErrorResponseView)>,
) -> bool {
    match judged(before, id, command, at) {
        Err(x) => failed == Some(refusal_reply(x)) && after == before,
        Ok((spec, events)) => failed is None && appended(before, after, id, events, no_metadata()),
    }
}

/// The version that a specification has after a request to update it, as of `at`.
pub open spec fn version_after_update(
    before: Seq<EventEnvelopeView>,
    id: u128,
    command: SpecCommandView,
    at: Timestamp,
) -> u32 {
    match judged(before, id, command, at) {
        Ok((spec, _)) => (spec.version + 1) as u32,
        Err(_) => 0,
    }
}

/// The view of what `POST /specs` answers.
pub open spec fn create_reply(r: Result<(u16, CreateSpecResponse), (u16, ErrorResponse)>) -> Result<
    (u16, CreateSpecResponse),
    (u16, ErrorResponseView),
> {
    match r {
        Ok(x) => Ok(x),
        Err(e) => Err(failure(e)),
    }
}

/// The failure in an answer, if it reports one.
pub open spec fn failed<T>(r: Result<T, (u16, ErrorResponse)>) -> Option<(u16, ErrorResponseView)> {
    match r {
        Ok(_) => None,
        Err(e) => Some(failure(e)),
    }
}

/// Answers `POST /specs`: creates a specification under a fresh identifier.
pub fn create_spec(state: &mut AppState, req: CreateSpecRequest) -> (r: Result<
    (u16, CreateSpecResponse),
    (u16, ErrorResponse),
>)
    ensures
        final(state).projection_store@ == old(state).projection_store@,
        exists|spec_id: u128, at: Timestamp, correlation: u128|
            marked_random(spec_id) && marked_random(correlation) && #[trigger] create_posted(
                old(state).event_store@,
                final(state).event_store@,
                req,
                spec_id,
                at,
                correlation,
                create_reply(r),
            ),
{
    let ghost before = state.event_store@;
    let command = to_create(req);
    let ghost given = command@;
    let correlation = fresh_id();
    let created = Spec::create(command);
    let ghost (spec_id, at) = choose|spec_id: u128, at: Timestamp|
        marked_random(spec_id) && outcome(created) == #[trigger] creation(given, spec_id, at);
    assert(marked_random(spec_id) && outcome(created) == creation(given, spec_id, at));
    let events = match created {
        Ok(events) => events,
        Err(e) => {
            let reply = handle_domain_error(&e);
            assert(create_posted(
                before,
                state.event_store@,
                req,
                spec_id,
                at,
                correlation,
                create_reply(Err(reply)),
            ));
            return Err(reply);
        },
    };
    assert(event_views(events@) == creation(given, spec_id, at)->Ok_0);
    assert(event_views(events@).len() == events@.len());
    assert(event_views(events@)[0] == events@[0]@);
    let id = match &events[0] {
        SpecEvent::Created(e) => e.spec_id,
        _ => vstd::pervasive::unreached(),
    };
    match state.event_store.append_events(id, events, correlated(correlation)) {
        Ok(envelopes) => {
            let reply = (201u16, CreateSpecResponse { id, version: 1 });
            assert(create_posted(
                before,
                state.event_store@,
                req,
                spec_id,
                at,
                correlation,
                create_reply(Ok(reply)),
            )) by {
                assert(stamped(
                    envelope_views(envelopes@),
                    spec_id,
                    stream(before, spec_id).len() as int,
                    creation(given, spec_id, at)->Ok_0,
                    request_metadata(correlation),
                ));
            }
            Ok(reply)
        },
        Err(e) => {
            let reply = handle_domain_error(&e);
            assert(create_posted(
                before,
                state.event_store@,
                req,
                spec_id,
                at,
                correlation,
                create_reply(Err(reply)),
            ));
            Err(reply)
        },
    }
}

/// Answers `PUT /specs/:id`: gives the specification new content and answers with
/// the version that the content got.
pub fn update_spec(state: &mut AppState, id: u128, req: UpdateSpecRequest) -> (r: Result<
    UpdateSpecResponse,
    (u16, ErrorResponse),
>)
    ensures
        final(state).projection_store@ == old(state).projection_store@,
        valid_log(old(state).event_store@),
        valid_log(final(state).event_store@),
        kept(old(state).event_store@) ==> kept(final(state).event_store@),
        exists|at: Timestamp| #[trigger]
            command_posted(
                old(state).event_store@,
                final(state).event_store@,
                id,
                update_command(id, req),
                at,
                failed(r),
            ) && (r matches Ok(response) ==> response.version == version_after_update(
                old(state).event_store@,
                id,
                update_command(id, req),
                at,
            )),
{
    let ghost before = state.event_store@;
    let command = to_update(id, req);
    let ghost given = command@;
    let attempted = attempt(&mut state.event_store, id, command, EventMetadata::default());
    let ghost at = choose|at: Timestamp|
        match #[trigger] judged(before, id, given, at) {
            Err(refusal) => attempted matches Err(x) && x@ == refusal && state.event_store@
                == before,
            Ok((spec, events)) => {
                &&& attempted matches Ok((s, envelopes)) && s@ == spec && state.event_store@
                    == before + envelope_views(envelopes@) && stamped(
                    envelope_views(envelopes@),
                    id,
                    stream(before, id).len() as int,
                    events,
                    no_metadata(),
                )
            },
        };
    match attempted {
        Ok((spec, envelopes)) => {
            let version = match &envelopes[0].event {
                SpecEvent::Updated(e) => e.version,
                _ => {
                    assert(envelope_views(envelopes@)[0] == envelopes@[0]@);
                    vstd::pervasive::unreached()
                },
            };
            assert(envelope_views(envelopes@)[0] == envelopes@[0]@);
            let r = Ok(UpdateSpecResponse { version });
            assert(command_posted(before, state.event_store@, id, given, at, failed(r)));
            r
        },
        Err(refusal) => {
            let r = Err(handle_refusal(&refusal));
            assert(command_posted(before, state.event_store@, id, given, at, failed(r)));
            r
        },
    }
}

/// Answers `POST /specs/:id/publish`: publishes a draft, and answers with 200.
pub fn publish_spec(state: &mut AppState, id: u128, req: PublishSpecRequest) -> (r: Result<
    u16,
    (u16, ErrorResponse),
>)
    ensures
        final(state).projection_store@ == old(state).projection_store@,
        valid_log(old(state).event_store@),
        valid_log(final(state).event_store@),
        kept(old(state).event_store@) ==> kept(final(state).event_store@),
        r matches Ok(status) ==> status == 200,
        exists|at: Timestamp| #[trigger]
            command_posted(
                old(state).event_store@,
                final(state).event_store@,
                id,
                publish_command(id, req),
                at,
                failed(r),
            ),
{
    settle(state, id, to_publish(id, req))
}

/// Answers `POST /specs/:id/deprecate`: deprecates a published specification, and
/// answers with 200.
pub fn deprecate_spec(state: &mut AppState, id: u128, req: DeprecateSpecRequest) -> (r: Result<
    u16,
    (u16, ErrorResponse),
>)
    ensures
        final(state).projection_store@ == old(state).projection_store@,
        valid_log(old(state).event_store@),
        valid_log(final(state).event_store@),
        kept(old(state).event_store@) ==> kept(final(state).event_store@),
        r matches Ok(status) ==> status == 200,
        exists|at: Timestamp| #[trigger]
            command_posted(
                old(state).event_store@,
                final(state).event_store@,
                id,
                deprecate_command(id, req),
                at,
                failed(r),
            ),
{
    settle(state, id, to_deprecate(id, req))
}

/// Handles a command without metadata and answers with 200 or with why the command
/// led to no event.
fn settle(state: &mut AppState, id: u128, command: SpecCommand) -> (r: Result<
    u16,
    (u16, ErrorResponse),
>)
    ensures
        final(state).projection_store@ == old(state).projection_store@,
        valid_log(old(state).event_store@),
        valid_log(final(state).event_store@),
        kept(old(state).event_store@) ==> kept(final(state).event_store@),
        r matches Ok(status) ==> status == 200,
        exists|at: Timestamp| #[trigger]
            command_posted(
                old(state).event_store@,
                final(state).event_store@,
                id,
                command@,
                at,
                failed(r),
            ),
{
    let ghost before = state.event_store@;
    let ghost given = command@;
    let attempted = attempt(&mut state.event_store, id, command, EventMetadata::default());
    let ghost at = choose|at: Timestamp|
        match #[trigger] judged(before, id, given, at) {
            Err(refusal) => attempted matches Err(x) && x@ == refusal && state.event_store@
                == before,
            Ok((spec, events)) => {
                &&& attempted matches Ok((s, envelopes)) && s@ == spec && state.event_store@
                    == before + envelope_views(envelopes@) && stamped(
                    envelope_views(envelopes@),
                    id,
                    stream(before, id).len() as int,
                    events,
                    no_metadata(),
                )
            },
        };
    let r = match attempted {
        Ok(_) => Ok(200u16),
        Err(refusal) => Err(handle_refusal(&refusal)),
    };
    assert(command_posted(before, state.event_store@, id, given, at, failed(r)));
    r
}

/// Answers `GET /health`.
pub fn health_check() -> (status: u16)
    ensures
        status == 200,
{
    200
}

/// Answers `GET /specs/:id`: the current state of the specification, or 404.
pub fn get_spec(state: &AppState, id: u128) -> (r: Result<SpecResponse, (u16, ErrorResponse)>)
    ensures
        match row_by_id(state.projection_store@.rows, id) {
            Some(row) => r matches Ok(response) && response@ == response_of(row),
            None => r matches Err(e) && failure(e) == missing_reply("Spec not found"@),
        },
{
    match state.projection_store.get_by_id(id) {
        Some(proj) => Ok(projection_to_response(proj)),
        None => Err(not_found("Spec not found")),
    }
}

/// Answers `GET /specs/:id/versions/:version`: the content and the description
/// that the version had, or 404.
pub fn get_spec_version(state: &AppState, id: u128, version: u32) -> (r: Result<
    SpecVersionResponse,
    (u16, ErrorResponse),
>)
    ensures
        match version_content(state.projection_store@.history, id, version) {
            Some(found) => r matches Ok(response) && response.id == id && response.version
                == version && response.content@ == found.0 && text(response.description)
                == found.1,
            None => r matches Err(e) && failure(e) == missing_reply("Version not found"@),
        },
{
    match state.projection_store.get_version(id, version) {
        Some((content, description)) => Ok(
            SpecVersionResponse { id, version, content, description },
        ),
        None => Err(not_found("Version not found")),
    }
}

/// What a query for a list asks of the read models: the state to list, the limit
/// and the offset.
pub fn list_arguments(query: &ListSpecsQuery) -> (arguments: (Option<SpecState>, i64, i64))
    ensures
        arguments.0 == state_filter(query.state),
        arguments.1 == page_limit(query.limit),
        arguments.2 == page_offset(query.offset),
{
    let filter = match &query.state {
        Some(word) => SpecState::from_label(word.as_str()),
        None => None,
    };
    let asked = match query.limit {
        Some(n) => n,
        None => DEFAULT_LIMIT,
    };
    let limit = if 0 <= asked && asked < MAX_LIMIT {
        asked
    } else {
        MAX_LIMIT
    };
    let offset = match query.offset {
        Some(n) => n,
        None => 0,
    };
    (filter, limit, offset)
}

/// Answers `GET /specs`: one page of the list of specifications.
pub fn list_specs(state: &AppState, query: ListSpecsQuery) -> (response: ListSpecsResponse)
    ensures
        response.limit == page_limit(query.limit),
        response.offset == page_offset(query.offset),
        response.total == response.specs@.len(),
        response.specs@.len() <= MAX_LIMIT,
        is_listing(
            state.projection_store@.rows,
            state_filter(query.state),
            listing(state.projection_store@.rows, state_filter(query.state)),
        ),
        summary_response_views(response.specs@) == listing_page(
            state.projection_store@.rows,
            state_filter(query.state),
            page_limit(query.limit) as int,
            page_offset(query.offset) as int,
        ).map_values(|s: SpecSummaryProjectionView| summary_response_of(s)),
{
    let (filter, limit, offset) = list_arguments(&query);
    let summaries = state.projection_store.list_by_state(filter, limit, offset);
    let total = summaries.len();
    let ghost listed_views = summary_views(summaries@);
    let mut specs: Vec<SpecSummaryResponse> = Vec::new();
    let mut i: usize = 0;
    while i < summaries.len()
        invariant
            i <= summaries@.len(),
            specs@.len() == i,
            forall|j: int|
                0 <= j < i ==> (#[trigger] specs@[j])@ == summary_response_of(summaries@[j]@),
        decreases summaries@.len() - i,
    {
        specs.push(summary_to_response(summaries[i].clone()));
        i += 1;
    }
    assert(summary_response_views(specs@) =~= listed_views.map_values(
        |s: SpecSummaryProjectionView| summary_response_of(s),
    ));
    ListSpecsResponse { specs, total, limit, offset }
}

} // verus!
