//! The RPC surface: what each call does with its request, up to the answer or the
//! status that reports a failure.

use vstd::prelude::*;
use vstd::string::*;
use crate::domain::aggregates::{creation, outcome, Spec};
use crate::domain::commands::{
    CreateSpec, CreateSpecView, DeprecateSpec, DeprecateSpecView, PublishSpec, PublishSpecView,
    SpecCommand, SpecCommandView, UpdateSpec, UpdateSpecView,
};
use crate::domain::errors::{DomainError, DomainErrorView};
use crate::domain::events::{
    event_views, text, EventEnvelope, EventEnvelopeView, EventMetadata, SpecEvent, SpecEventView,
    SpecState, Timestamp,
};
use crate::domain::identifiers::{id_text, parse_id, uuid_of_text, uuid_text};
use crate::domain::messages::error_text;
use crate::domain::sources::{fresh_id, marked_random};
use crate::infrastructure::event_store::{
    envelope_views, lemma_events_after, stamped, stream, valid_log,
};
use crate::infrastructure::listing::{is_listing, listing};
use crate::infrastructure::projections::{
    listing_page, row_by_id, summary_views, version_content, SpecProjection, SpecProjectionView,
    SpecSummaryProjection, SpecSummaryProjectionView,
};
use crate::infrastructure::histories::kept;
use crate::infrastructure::event_store::appended;
use super::dispatch::{
    attempt, judged, no_metadata, request_metadata, Refusal, RefusalView,
};
use super::rest::{correlated, AppState};

verus! {

/// The kind of a failure, as the caller sees it.
#[derive(Debug, Clone, Copy, PartialEq, Eq, Structural)]
pub enum Code {
    InvalidArgument,
    NotFound,
    AlreadyExists,
    FailedPrecondition,
    Aborted,
    Internal,
}

/// The status that reports a failure: its kind and what it says.
#[derive(Debug)]
pub struct Status {
    pub code: Code,
    pub message: String,
}

pub struct StatusView {
    pub code: Code,
    pub message: Seq<char>,
}

impl View for Status {
    type V = StatusView;

    open spec fn view(&self) -> StatusView {
        StatusView { code: self.code, message: self.message@ }
    }
}

/// A state on the wire. The numbers on the wire count the states from 0 in the
/// order of the lifecycle.
#[derive(Debug, Clone, Copy, PartialEq, Eq, Structural)]
pub enum ProtoSpecState {
    Draft,
    Published,
    Deprecated,
    Deleted,
}

/// The kind of an event on the wire. The numbers on the wire count the kinds from 0.
#[derive(Debug, Clone, Copy, PartialEq, Eq, Structural)]
pub enum EventType {
    Created,
    Updated,
    StateChanged,
}

/// An instant on the wire: seconds and nanoseconds.
#[derive(Debug, Clone, Copy, PartialEq, Eq, Structural)]
pub struct ProtoTimestamp {
    pub seconds: i64,
    pub nanos: i32,
}

/// The state on the wire that stands for a state.
pub open spec fn proto_of_state(state: SpecState) -> ProtoSpecState {
    match state {
        SpecState::Draft => ProtoSpecState::Draft,
        SpecState::Published => ProtoSpecState::Published,
        SpecState::Deprecated => ProtoSpecState::Deprecated,
        SpecState::Deleted => ProtoSpecState::Deleted,
    }
}

/// The state that a state on the wire stands for.
pub open spec fn state_of_proto(state: ProtoSpecState) -> SpecState {
    match state {
        ProtoSpecState::Draft => SpecState::Draft,
        ProtoSpecState::Published => SpecState::Published,
        ProtoSpecState::Deprecated => SpecState::Deprecated,
        ProtoSpecState::Deleted => SpecState::Deleted,
    }
}

/// The number of a state on the wire.
pub open spec fn state_number(state: ProtoSpecState) -> i32 {
    match state {
        ProtoSpecState::Draft => 0,
        ProtoSpecState::Published => 1,
        ProtoSpecState::Deprecated => 2,
        ProtoSpecState::Deleted => 3,
    }
}

/// The state on the wire that has a number, if one has it.
pub open spec fn state_of_number(n: i32) -> Option<ProtoSpecState> {
    if n == 0 {
        Some(ProtoSpecState::Draft)
    } else if n == 1 {
        Some(ProtoSpecState::Published)
    } else if n == 2 {
        Some(ProtoSpecState::Deprecated)
    } else if n == 3 {
        Some(ProtoSpecState::Deleted)
    } else {
        None
    }
}

/// The number of a kind of event on the wire.
pub open spec fn event_type_number(kind: EventType) -> i32 {
    match kind {
        EventType::Created => 0,
        EventType::Updated => 1,
        EventType::StateChanged => 2,
    }
}

/// An instant as it goes on the wire: nanoseconds that do not fit go as 0.
pub open spec fn proto_instant(t: Timestamp) -> ProtoTimestamp {
    ProtoTimestamp {
        seconds: t.secs,
        nanos: if t.nanos <= i32::MAX {
            t.nanos as i32
        } else {
            0
        },
    }
}

impl ProtoSpecState {
    /// The number of the state on the wire.
    pub fn number(&self) -> (n: i32)
        ensures
            n == state_number(*self),
            state_of_number(n) == Some(*self),
    {
        match self {
            ProtoSpecState::Draft => 0,
            ProtoSpecState::Published => 1,
            ProtoSpecState::Deprecated => 2,
            ProtoSpecState::Deleted => 3,
        }
    }

    /// The state that has the number `n` on the wire, if one has it.
    pub fn from_number(n: i32) -> (state: Option<ProtoSpecState>)
        ensures
            state == state_of_number(n),
    {
        if n == 0 {
            Some(ProtoSpecState::Draft)
        } else if n == 1 {
            Some(ProtoSpecState::Published)
        } else if n == 2 {
            Some(ProtoSpecState::Deprecated)
        } else if n == 3 {
            Some(ProtoSpecState::Deleted)
        } else {
            None
        }
    }
}

impl EventType {
    /// The number of the kind on the wire.
    pub fn number(&self) -> (n: i32)
        ensures
            n == event_type_number(*self),
    {
        match self {
            EventType::Created => 0,
            EventType::Updated => 1,
            EventType::StateChanged => 2,
        }
    }
}

pub fn domain_state_to_proto(state: SpecState) -> (proto: ProtoSpecState)
    ensures
        proto == proto_of_state(state),
        state_of_proto(proto) == state,
{
    match state {
        SpecState::Draft => ProtoSpecState::Draft,
        SpecState::Published => ProtoSpecState::Published,
        SpecState::Deprecated => ProtoSpecState::Deprecated,
        SpecState::Deleted => ProtoSpecState::Deleted,
    }
}

pub fn proto_state_to_domain(state: ProtoSpecState) -> (domain: SpecState)
    ensures
        domain == state_of_proto(state),
        proto_of_state(domain) == state,
{
    match state {
        ProtoSpecState::Draft => SpecState::Draft,
        ProtoSpecState::Published => SpecState::Published,
        ProtoSpecState::Deprecated => SpecState::Deprecated,
        ProtoSpecState::Deleted => SpecState::Deleted,
    }
}

pub fn chrono_to_proto_timestamp(t: Timestamp) -> (proto: ProtoTimestamp)
    ensures
        proto == proto_instant(t),
{
    ProtoTimestamp {
        seconds: t.secs,
        nanos: if t.nanos <= i32::MAX as u32 {
            t.nanos as i32
        } else {
            0
        },
    }
}

pub fn get_event_timestamp(event: &SpecEvent) -> (t: Timestamp)
    ensures
        t == event@.timestamp(),
{
    match event {
        SpecEvent::Created(e) => e.created_at,
        SpecEvent::Updated(e) => e.updated_at,
        SpecEvent::StateChanged(e) => e.changed_at,
    }
}

pub fn get_event_user(event: &SpecEvent) -> (user: String)
    ensures
        user@ == event@.user(),
{
    match event {
        SpecEvent::Created(e) => e.created_by.clone(),
        SpecEvent::Updated(e) => e.updated_by.clone(),
        SpecEvent::StateChanged(e) => e.changed_by.clone(),
    }
}

/// The kind under which an error is reported: what is not found as NotFound, what
/// the state of the specification forbids as FailedPrecondition, a version that is
/// not the current one as Aborted, a name that is taken as AlreadyExists, what breaks
/// a rule of validation as InvalidArgument, the rest as Internal.
pub open spec fn error_code(e: DomainErrorView) -> Code {
    match e {
        DomainErrorView::SpecNotFound(_) => Code::NotFound,
        DomainErrorView::InvalidStateTransition { .. } => Code::FailedPrecondition,
        DomainErrorView::VersionMismatch { .. } => Code::Aborted,
        DomainErrorView::DuplicateSpecName(_) => Code::AlreadyExists,
        DomainErrorView::InvalidStateForOperation(_) => Code::FailedPrecondition,
        DomainErrorView::ValidationError(_) => Code::InvalidArgument,
        _ => Code::Internal,
    }
}

/// The status that reports an error: its kind, and what the error says; of a
/// specification that is not found it says no more than that.
pub open spec fn error_status(e: DomainErrorView) -> StatusView {
    StatusView {
        code: error_code(e),
        message: if e is SpecNotFound {
            "Spec not found"@
        } else {
            error_text(e)
        },
    }
}

/// The status that reports a failure inside the service, with what the error says.
pub open spec fn internal(e: DomainErrorView) -> StatusView {
    StatusView { code: Code::Internal, message: error_text(e) }
}

/// The status that reports why a command led to no event.
pub open spec fn refusal_status(x: RefusalView) -> StatusView {
    match x {
        RefusalView::NotFound => StatusView { code: Code::NotFound, message: "Spec not found"@ },
        RefusalView::Load(e) => internal(e),
        RefusalView::Command(e) => error_status(e),
        RefusalView::Append(e) => internal(e),
    }
}

/// The status that reports an identifier that cannot be read.
pub open spec fn invalid_id() -> StatusView {
    StatusView { code: Code::InvalidArgument, message: "Invalid spec ID"@ }
}

fn status(code: Code, message: &str) -> (s: Status)
    ensures
        s@ == (StatusView { code, message: message@ }),
{
    Status { code, message: message.to_owned() }
}

/// The status that reports an error.
pub fn handle_domain_error(error: &DomainError) -> (s: Status)
    ensures
        s@ == error_status(error@),
{
    match error {
        DomainError::SpecNotFound(_) => status(Code::NotFound, "Spec not found"),
        DomainError::InvalidStateTransition { .. } => Status {
            code: Code::FailedPrecondition,
            message: error.message(),
        },
        DomainError::VersionMismatch { .. } => Status {
            code: Code::Aborted,
            message: error.message(),
        },
        DomainError::DuplicateSpecName(_) => Status {
            code: Code::AlreadyExists,
            message: error.message(),
        },
        DomainError::InvalidStateForOperation(_) => Status {
            code: Code::FailedPrecondition,
            message: error.message(),
        },
        DomainError::ValidationError(_) => Status {
            code: Code::InvalidArgument,
            message: error.message(),
        },
        _ => Status { code: Code::Internal, message: error.message() },
    }
}

/// The status that reports why a command led to no event.
pub fn handle_refusal(refusal: &Refusal) -> (s: Status)
    ensures
        s@ == refusal_status(refusal@),
{
    match refusal {
        Refusal::NotFound => status(Code::NotFound, "Spec not found"),
        Refusal::Load(e) => internal_error(e),
        Refusal::Command(e) => handle_domain_error(e),
        Refusal::Append(e) => internal_error(e),
    }
}

/// A text that may be missing, as the text itself or as the empty text.
pub open spec fn or_empty(o: Option<Seq<char>>) -> Seq<char> {
    match o {
        Some(s) => s,
        None => Seq::empty(),
    }
}

fn unwrap_or_default(o: Option<String>) -> (s: String)
    ensures
        s@ == or_empty(text(o)),
{
    match o {
        Some(s) => s,
        None => String::new(),
    }
}

#[derive(Debug)]
pub struct CreateSpecRequest {
    pub name: String,
    pub content: String,
    pub description: String,
}

#[derive(Debug)]
pub struct CreateSpecResponse {
    pub id: String,
    pub version: u32,
}

#[derive(Debug)]
pub struct UpdateSpecRequest {
    pub id: String,
    pub content: String,
    pub description: Option<String>,
}

#[derive(Debug, Clone, Copy, PartialEq, Eq, Structural)]
pub struct UpdateSpecResponse {
    pub version: u32,
}

#[derive(Debug)]
pub struct GetSpecRequest {
    pub id: String,
    pub version: Option<u32>,
}

#[derive(Debug)]
pub struct GetSpecResponse {
    pub id: String,
    pub name: String,
    pub content: String,
    pub description: String,
    pub version: u32,
    pub state: i32,
    pub created_at: Option<ProtoTimestamp>,
    pub updated_at: Option<ProtoTimestamp>,
}

pub struct GetSpecResponseView {
    pub id: Seq<char>,
    pub name: Seq<char>,
    pub content: Seq<char>,
    pub description: Seq<char>,
    pub version: u32,
    pub state: i32,
    pub created_at: Option<ProtoTimestamp>,
    pub updated_at: Option<ProtoTimestamp>,
}

impl View for GetSpecResponse {
    type V = GetSpecResponseView;

    open spec fn view(&self) -> GetSpecResponseView {
        GetSpecResponseView {
            id: self.id@,
            name: self.name@,
            content: self.content@,
            description: self.description@,
            version: self.version,
            state: self.state,
            created_at: self.created_at,
            updated_at: self.updated_at,
        }
    }
}

#[derive(Debug, Clone, Copy, PartialEq, Eq, Structural)]
pub struct ListSpecsRequest {
    pub state: Option<i32>,
    pub page_size: i32,
}

#[derive(Debug)]
pub struct SpecSummary {
    pub id: String,
    pub name: String,
    pub description: String,
    pub latest_version: u32,
    pub state: i32,
    pub updated_at: Option<ProtoTimestamp>,
}

pub struct SpecSummaryView {
    pub id: Seq<char>,
    pub name: Seq<char>,
    pub description: Seq<char>,
    pub latest_version: u32,
    pub state: i32,
    pub updated_at: Option<ProtoTimestamp>,
}

impl View for SpecSummary {
    type V = SpecSummaryView;

    open spec fn view(&self) -> SpecSummaryView {
        SpecSummaryView {
            id: self.id@,
            name: self.name@,
            description: self.description@,
            latest_version: self.latest_version,
            state: self.state,
            updated_at: self.updated_at,
        }
    }
}

#[derive(Debug)]
pub struct ListSpecsResponse {
    pub specs: Vec<SpecSummary>,
    pub next_page_token: String,
}

#[derive(Debug)]
pub struct PublishSpecRequest {
    pub id: String,
    pub version: Option<u32>,
}

#[derive(Debug, Clone, Copy, PartialEq, Eq, Structural)]
pub struct PublishSpecResponse {
    pub published_version: u32,
}

#[derive(Debug)]
pub struct DeprecateSpecRequest {
    pub id: String,
    pub reason: String,
}

#[derive(Debug, Clone, Copy, PartialEq, Eq, Structural)]
pub struct DeprecateSpecResponse {
    pub success: bool,
}

#[derive(Debug)]
pub struct GetSpecHistoryRequest {
    pub id: String,
}

#[derive(Debug)]
pub struct CreatePayload {
    pub name: String,
    pub content: String,
    pub description: String,
}

#[derive(Debug)]
pub struct UpdatePayload {
    pub content: String,
    pub description: Option<String>,
}

#[derive(Debug)]
pub struct StateChangePayload {
    pub from_state: i32,
    pub to_state: i32,
    pub reason: Option<String>,
}

/// What an event on the wire carries, by its kind.
#[derive(Debug)]
pub enum Payload {
    Create(CreatePayload),
    Update(UpdatePayload),
    StateChange(StateChangePayload),
}

#[allow(inconsistent_fields)]
pub enum PayloadView {
    Create { name: Seq<char>, content: Seq<char>, description: Seq<char> },
    Update { content: Seq<char>, description: Option<Seq<char>> },
    StateChange { from_state: i32, to_state: i32, reason: Option<Seq<char>> },
}

impl View for Payload {
    type V = PayloadView;

    open spec fn view(&self) -> PayloadView {
        match self {
            Payload::Create(p) => PayloadView::Create {
                name: p.name@,
                content: p.content@,
                description: p.description@,
            },
            Payload::Update(p) => PayloadView::Update {
                content: p.content@,
                description: text(p.description),
            },
            Payload::StateChange(p) => PayloadView::StateChange {
                from_state: p.from_state,
                to_state: p.to_state,
                reason: text(p.reason),
            },
        }
    }
}

/// An event on the wire.
#[derive(Debug)]
pub struct ProtoSpecEvent {
    pub event_id: String,
    pub event_type: i32,
    pub occurred_at: Option<ProtoTimestamp>,
    pub user_id: String,
    pub payload: Option<Payload>,
}

pub struct ProtoSpecEventView {
    pub event_id: Seq<char>,
    pub event_type: i32,
    pub occurred_at: Option<ProtoTimestamp>,
    pub user_id: Seq<char>,
    pub payload: Option<PayloadView>,
}

impl View for ProtoSpecEvent {
    type V = ProtoSpecEventView;

    open spec fn view(&self) -> ProtoSpecEventView {
        ProtoSpecEventView {
            event_id: self.event_id@,
            event_type: self.event_type,
            occurred_at: self.occurred_at,
            user_id: self.user_id@,
            payload: match self.payload {
                Some(p) => Some(p@),
                None => None,
            },
        }
    }
}

#[derive(Debug)]
pub struct GetSpecHistoryResponse {
    pub events: Vec<ProtoSpecEvent>,
}

/// Whom the calls act for where they change a specification's content.
pub open spec fn rpc_author() -> Seq<char> {
    "grpc-user@example.com"@
}

/// Whom the calls act for where they move a specification along its lifecycle.
pub open spec fn rpc_steward() -> Seq<char> {
    "grpc-admin@example.com"@
}

/// The command that a request to create stands for. An empty description is none.
pub open spec fn create_command(req: CreateSpecRequest) -> CreateSpecView {
    CreateSpecView {
        name: req.name@,
        content: req.content@,
        description: if req.description@.len() == 0 {
            None
        } else {
            Some(req.description@)
        },
        created_by: rpc_author(),
    }
}

/// The command that a request to update stands for.
pub open spec fn update_command(id: u128, req: UpdateSpecRequest) -> SpecCommandView {
    SpecCommandView::Update(
        UpdateSpecView {
            spec_id: id,
            content: req.content@,
            description: text(req.description),
            updated_by: rpc_author(),
        },
    )
}

/// The command that a request to publish stands for.
pub open spec fn publish_command(id: u128, req: PublishSpecRequest) -> SpecCommandView {
    SpecCommandView::Publish(
        PublishSpecView { spec_id: id, version: req.version, published_by: rpc_steward() },
    )
}

/// The command that a request to deprecate stands for.
pub open spec fn deprecate_command(id: u128, req: DeprecateSpecRequest) -> SpecCommandView {
    SpecCommandView::Deprecate(
        DeprecateSpecView { spec_id: id, reason: req.reason@, deprecated_by: rpc_steward() },
    )
}

/// Builds the command that a request to create stands for.
pub fn to_create(req: CreateSpecRequest) -> (command: CreateSpec)
    ensures
        command@ == create_command(req),
{
    let description = if req.description.as_str().is_empty() {
        None
    } else {
        Some(req.description)
    };
    CreateSpec {
        name: req.name,
        content: req.content,
        description,
        created_by: "grpc-user@example.com".to_owned(),
    }
}

/// Builds the command that a request to update stands for.
pub fn to_update(id: u128, req: UpdateSpecRequest) -> (command: SpecCommand)
    ensures
        command@ == update_command(id, req),
{
    SpecCommand::Update(
        UpdateSpec {
            spec_id: id,
            content: req.content,
            description: req.description,
            updated_by: "grpc-user@example.com".to_owned(),
        },
    )
}

/// Builds the command that a request to publish stands for.
pub fn to_publish(id: u128, req: PublishSpecRequest) -> (command: SpecCommand)
    ensures
        command@ == publish_command(id, req),
{
    SpecCommand::Publish(
        PublishSpec {
            spec_id: id,
            version: req.version,
            published_by: "grpc-admin@example.com".to_owned(),
        },
    )
}

/// Builds the command that a request to deprecate stands for.
pub fn to_deprecate(id: u128, req: DeprecateSpecRequest) -> (command: SpecCommand)
    ensures
        command@ == deprecate_command(id, req),
{
    SpecCommand::Deprecate(
        DeprecateSpec {
            spec_id: id,
            reason: req.reason,
            deprecated_by: "grpc-admin@example.com".to_owned(),
        },
    )
}

/// Reads the identifier of a request.
pub fn read_id(text: &str) -> (r: Result<u128, Status>)
    ensures
        match uuid_of_text(text@) {
            Some(id) => r matches Ok(x) && x == id,
            None => r matches Err(s) && s@ == invalid_id(),
        },
{
    match parse_id(text) {
        Ok(id) => Ok(id),
        Err(_) => Err(status(Code::InvalidArgument, "Invalid spec ID")),
    }
}

/// The status that reports a request to create that breaks a rule.
pub open spec fn validation_status(e: DomainErrorView) -> StatusView {
    StatusView { code: Code::InvalidArgument, message: "Validation failed: "@ + error_text(e) }
}

/// The status that reports that created events could not be stored.
pub open spec fn storing_status(e: DomainErrorView) -> StatusView {
    StatusView { code: Code::Internal, message: "Failed to store events: "@ + error_text(e) }
}

/// The status that reports a request to create that breaks a rule.
pub fn validation_failed(error: &DomainError) -> (s: Status)
    ensures
        s@ == validation_status(error@),
{
    let mut message = "Validation failed: ".to_owned();
    message.append(error.message().as_str());
    Status { code: Code::InvalidArgument, message }
}

/// The status that reports that created events could not be stored.
pub fn storing_failed(error: &DomainError) -> (s: Status)
    ensures
        s@ == storing_status(error@),
{
    let mut message = "Failed to store events: ".to_owned();
    message.append(error.message().as_str());
    Status { code: Code::Internal, message }
}

/// The status that reports a failure inside the service, with what the error says.
pub fn internal_error(error: &DomainError) -> (s: Status)
    ensures
        s@ == internal(error@),
{
    Status { code: Code::Internal, message: error.message() }
}

/// The failure in an answer, if it reports one.
pub open spec fn failed<T>(r: Result<T, Status>) -> Option<StatusView> {
    match r {
        Ok(_) => None,
        Err(s) => Some(s@),
    }
}

/// The view of what a call to create answers.
pub open spec fn create_reply(r: Result<CreateSpecResponse, Status>) -> Result<
    (Seq<char>, u32),
    StatusView,
> {
    match r {
        Ok(response) => Ok((response.id@, response.version)),
        Err(s) => Err(s@),
    }
}

/// What a call to create comes to, for the identifiers and the instant that were
/// drawn: a request that breaks a rule is answered as an invalid argument and
/// appends nothing; any other appends one Created event under the new identifier
/// and is answered with the identifier as text and version 1.
pub open spec fn create_called(
    before: Seq<EventEnvelopeView>,
    after: Seq<EventEnvelopeView>,
    req: CreateSpecRequest,
    spec_id: u128,
    at: Timestamp,
    correlation: u128,
    reply: Result<(Seq<char>, u32), StatusView>,
) -> bool {
    match creation(create_command(req), spec_id, at) {
        Err(e) => reply == Err::<(Seq<char>, u32), StatusView>(validation_status(e)) && after
            == before,
        Ok(events) => if before.len() + events.len() > i64::MAX {
            reply == Err::<(Seq<char>, u32), StatusView>(
                storing_status(DomainErrorView::EventStoreError("Event log is full"@)),
            ) && after == before
        } else {
            reply == Ok::<(Seq<char>, u32), StatusView>((uuid_text(spec_id), 1)) && appended(
                before,
                after,
                spec_id,
                events,
                request_metadata(correlation),
            )
        },
    }
}

/// What a call that changes a specification comes to, as of the instant `at`: a
/// command that yields no event is answered with the reason and appends nothing;
/// any other appends what it yields, without metadata.
pub open spec fn command_called(
    before: Seq<EventEnvelopeView>,
    after: Seq<EventEnvelopeView>,
    id: u128,
    command: SpecCommandView,
    at: Timestamp,
    failed: Option<StatusView>,
) -> bool {
    match judged(before, id, command, at) {
        Err(x) => failed == Some(refusal_status(x)) && after == before,
        Ok((spec, events)) => failed is None && appended(before, after, id, events, no_metadata()),
    }
}

/// The version on which a command was decided, as of `at`.
pub open spec fn version_before(
    before: Seq<EventEnvelopeView>,
    id: u128,
    command: SpecCommandView,
    at: Timestamp,
) -> u32 {
    match judged(before, id, command, at) {
        Ok((spec, _)) => spec.version,
        Err(_) => 0,
    }
}

/// Answers a call to create a specification.
pub fn create_spec(state: &mut AppState, req: CreateSpecRequest) -> (r: Result<
    CreateSpecResponse,
    Status,
>)
    ensures
        final(state).projection_store@ == old(state).projection_store@,
        exists|spec_id: u128, at: Timestamp, correlation: u128|
            marked_random(spec_id) && marked_random(correlation) && #[trigger] create_called(
                old(state).event_store@,
                final(state).event_store@,
                req,
                spec_id,
                at,
                correlation,
                create_reply(r),
            ),
{
    let ghost before = state.event_store@;
    let command = to_create(req);
    let ghost given = command@;
    let correlation = fresh_id();
    let created = Spec::create(command);
    let ghost (spec_id, at) = choose|spec_id: u128, at: Timestamp|
        marked_random(spec_id) && outcome(created) == #[trigger] creation(given, spec_id, at);
    assert(marked_random(spec_id) && outcome(created) == creation(given, spec_id, at));
    let events = match created {
        Ok(events) => events,
        Err(e) => {
            let r = Err(validation_failed(&e));
            assert(create_called(
                before,
                state.event_store@,
                req,
                spec_id,
                at,
                correlation,
                create_reply(r),
            ));
            return r;
        },
    };
    assert(event_views(events@) == creation(given, spec_id, at)->Ok_0);
    assert(event_views(events@).len() == events@.len());
    assert(event_views(events@)[0] == events@[0]@);
    let id = match &events[0] {
        SpecEvent::Created(e) => e.spec_id,
        _ => vstd::pervasive::unreached(),
    };
    match state.event_store.append_events(id, events, correlated(correlation)) {
        Ok(envelopes) => {
            let r = Ok(CreateSpecResponse { id: id_text(id), version: 1 });
            assert(create_called(
                before,
                state.event_store@,
                req,
                spec_id,
                at,
                correlation,
                create_reply(r),
            )) by {
                assert(stamped(
                    envelope_views(envelopes@),
                    spec_id,
                    stream(before, spec_id).len() as int,
                    creation(given, spec_id, at)->Ok_0,
                    request_metadata(correlation),
                ));
            }
            r
        },
        Err(e) => {
            let r = Err(storing_failed(&e));
            assert(create_called(
                before,
                state.event_store@,
                req,
                spec_id,
                at,
                correlation,
                create_reply(r),
            ));
            r
        },
    }
}

/// Handles a command without metadata and hands back the state on which it was
/// decided and the envelopes that were appended, or the status that says why the
/// command led to no event.
fn call(state: &mut AppState, id: u128, command: SpecCommand) -> (r: Result<
    (Spec, Vec<EventEnvelope>),
    Status,
>)
    ensures
        final(state).projection_store@ == old(state).projection_store@,
        valid_log(old(state).event_store@),
        valid_log(final(state).event_store@),
        kept(old(state).event_store@) ==> kept(final(state).event_store@),
        exists|at: Timestamp| #[trigger]
            command_called(
                old(state).event_store@,
                final(state).event_store@,
                id,
                command@,
                at,
                failed(r),
            ) && (r matches Ok((spec, envelopes)) ==> spec@.version == version_before(
                old(state).event_store@,
                id,
                command@,
                at,
            ) && envelopes@.len() == judged(old(state).event_store@, id, command@, at)->Ok_0.1.len()
                && (forall|i: int|
                0 <= i < envelopes@.len() ==> (#[trigger] envelopes@[i])@.event == judged(
                    old(state).event_store@,
                    id,
                    command@,
                    at,
                )->Ok_0.1[i])),
{
    let ghost before = state.event_store@;
    let ghost given = command@;
    let attempted = attempt(&mut state.event_store, id, command, EventMetadata::default());
    let ghost at = choose|at: Timestamp|
        match #[trigger] judged(before, id, given, at) {
            Err(refusal) => attempted matches Err(x) && x@ == refusal && state.event_store@
                == before,
            Ok((spec, events)) => {
                &&& attempted matches Ok((s, envelopes)) && s@ == spec && state.event_store@
                    == before + envelope_views(envelopes@) && stamped(
                    envelope_views(envelopes@),
                    id,
                    stream(before, id).len() as int,
                    events,
                    no_metadata(),
                )
            },
        };
    let r = match attempted {
        Ok((spec, envelopes)) => {
            assert forall|i: int| 0 <= i < envelopes@.len() implies (
            #[trigger] envelopes@[i])@.event == judged(before, id, given, at)->Ok_0.1[i] by {
                assert(envelope_views(envelopes@)[i] == envelopes@[i]@);
            }
            assert(envelope_views(envelopes@).len() == envelopes@.len());
            Ok((spec, envelopes))
        },
        Err(refusal) => Err(handle_refusal(&refusal)),
    };
    assert(command_called(before, state.event_store@, id, given, at, failed(r)));
    r
}

/// Answers a call to update a specification: with the version that the new
/// content got.
pub fn update_spec(state: &mut AppState, req: UpdateSpecRequest) -> (r: Result<
    UpdateSpecResponse,
    Status,
>)
    ensures
        final(state).projection_store@ == old(state).projection_store@,
        kept(old(state).event_store@) ==> kept(final(state).event_store@),
        match uuid_of_text(req.id@) {
            None => failed(r) == Some(invalid_id()) && final(state).event_store@ == old(
                state,
            ).event_store@,
            Some(id) => exists|at: Timestamp| #[trigger]
                command_called(
                    old(state).event_store@,
                    final(state).event_store@,
                    id,
                    update_command(id, req),
                    at,
                    failed(r),
                ) && (r matches Ok(response) ==> response.version == version_before(
                    old(state).event_store@,
                    id,
                    update_command(id, req),
                    at,
                ) + 1),
        },
{
    let id = match read_id(req.id.as_str()) {
        Ok(id) => id,
        Err(s) => {
            return Err(s);
        },
    };
    match call(state, id, to_update(id, req)) {
        Ok((_, envelopes)) => {
            let version = match &envelopes[0].event {
                SpecEvent::Updated(e) => e.version,
                _ => vstd::pervasive::unreached(),
            };
            Ok(UpdateSpecResponse { version })
        },
        Err(s) => Err(s),
    }
}

/// Answers a call to publish a specification: with the version that was published.
pub fn publish_spec(state: &mut AppState, req: PublishSpecRequest) -> (r: Result<
    PublishSpecResponse,
    Status,
>)
    ensures
        final(state).projection_store@ == old(state).projection_store@,
        kept(old(state).event_store@) ==> kept(final(state).event_store@),
        match uuid_of_text(req.id@) {
            None => failed(r) == Some(invalid_id()) && final(state).event_store@ == old(
                state,
            ).event_store@,
            Some(id) => exists|at: Timestamp| #[trigger]
                command_called(
                    old(state).event_store@,
                    final(state).event_store@,
                    id,
                    publish_command(id, req),
                    at,
                    failed(r),
                ) && (r matches Ok(response) ==> response.published_version == version_before(
                    old(state).event_store@,
                    id,
                    publish_command(id, req),
                    at,
                )),
        },
{
    let id = match read_id(req.id.as_str()) {
        Ok(id) => id,
        Err(s) => {
            return Err(s);
        },
    };
    match call(state, id, to_publish(id, req)) {
        Ok((spec, _)) => Ok(PublishSpecResponse { published_version: spec.version.as_u32() }),
        Err(s) => Err(s),
    }
}

/// Answers a call to deprecate a specification.
pub fn deprecate_spec(state: &mut AppState, req: DeprecateSpecRequest) -> (r: Result<
    DeprecateSpecResponse,
    Status,
>)
    ensures
        final(state).projection_store@ == old(state).projection_store@,
        kept(old(state).event_store@) ==> kept(final(state).event_store@),
        r matches Ok(response) ==> response.success,
        match uuid_of_text(req.id@) {
            None => failed(r) == Some(invalid_id()) && final(state).event_store@ == old(
                state,
            ).event_store@,
            Some(id) => exists|at: Timestamp| #[trigger]
                command_called(
                    old(state).event_store@,
                    final(state).event_store@,
                    id,
                    deprecate_command(id, req),
                    at,
                    failed(r),
                ),
        },
{
    let id = match read_id(req.id.as_str()) {
        Ok(id) => id,
        Err(s) => {
            return Err(s);
        },
    };
    match call(state, id, to_deprecate(id, req)) {
        Ok(_) => Ok(DeprecateSpecResponse { success: true }),
        Err(s) => Err(s),
    }
}

/// The status that reports that something is not there.
pub open spec fn not_found(what: Seq<char>) -> StatusView {
    StatusView { code: Code::NotFound, message: what }
}

/// The answer that shows a row, with the content, description and version given.
pub open spec fn shown(
    row: SpecProjectionView,
    content: Seq<char>,
    description: Option<Seq<char>>,
    version: u32,
) -> GetSpecResponseView {
    GetSpecResponseView {
        id: uuid_text(row.id),
        name: row.name,
        content,
        description: or_empty(description),
        version,
        state: state_number(proto_of_state(row.state)),
        created_at: Some(proto_instant(row.created_at)),
        updated_at: Some(proto_instant(row.updated_at)),
    }
}

/// What a call to get a specification answers. Where a version is asked for, its
/// content and description are shown with the name, state and times of the current
/// row; where none is asked for, the current row is shown.
pub open spec fn gotten(
    rows: Seq<SpecProjectionView>,
    history: Seq<crate::infrastructure::projections::VersionRecordView>,
    id: u128,
    version: Option<u32>,
) -> Result<GetSpecResponseView, StatusView> {
    match version {
        Some(v) => match version_content(history, id, v) {
            None => Err(not_found("Version not found"@)),
            Some(found) => match row_by_id(rows, id) {
                None => Err(not_found("Spec not found"@)),
                Some(row) => Ok(shown(row, found.0, found.1, v)),
            },
        },
        None => match row_by_id(rows, id) {
            None => Err(not_found("Spec not found"@)),
            Some(row) => Ok(shown(row, row.content, row.description, row.version)),
        },
    }
}

/// The view of what a call to get a specification answers.
pub open spec fn get_reply(r: Result<GetSpecResponse, Status>) -> Result<
    GetSpecResponseView,
    StatusView,
> {
    match r {
        Ok(response) => Ok(response@),
        Err(s) => Err(s@),
    }
}

/// Builds the answer that shows a row, with the content, description and version
/// given.
pub fn show(row: SpecProjection, content: String, description: Option<String>, version: u32) -> (r:
    GetSpecResponse)
    ensures
        r@ == shown(row@, content@, text(description), version),
{
    GetSpecResponse {
        id: id_text(row.id),
        name: row.name,
        content,
        description: unwrap_or_default(description),
        version,
        state: domain_state_to_proto(row.state).number(),
        created_at: Some(chrono_to_proto_timestamp(row.created_at)),
        updated_at: Some(chrono_to_proto_timestamp(row.updated_at)),
    }
}

/// Answers a call to get a specification, at its current version or at one that
/// is asked for.
pub fn get_spec(state: &AppState, req: GetSpecRequest) -> (r: Result<GetSpecResponse, Status>)
    ensures
        match uuid_of_text(req.id@) {
            None => failed(r) == Some(invalid_id()),
            Some(id) => get_reply(r) == gotten(
                state.projection_store@.rows,
                state.projection_store@.history,
                id,
                req.version,
            ),
        },
{
    let id = match read_id(req.id.as_str()) {
        Ok(id) => id,
        Err(s) => {
            return Err(s);
        },
    };
    match req.version {
        Some(version) => {
            let (content, description) = match state.projection_store.get_version(id, version) {
                Some(found) => found,
                None => {
                    return Err(status(Code::NotFound, "Version not found"));
                },
            };
            match state.projection_store.get_by_id(id) {
                Some(current) => Ok(show(current, content, description, version)),
                None => Err(status(Code::NotFound, "Spec not found")),
            }
        },
        None => match state.projection_store.get_by_id(id) {
            Some(row) => {
                let content = row.content.clone();
                let description = row.description.clone();
                let version = row.version;
                Ok(show(row, content, description, version))
            },
            None => Err(status(Code::NotFound, "Spec not found")),
        },
    }
}

/// The state that a list is asked for: the state that the number names, or none
/// where no number is given or the number names no state.
pub open spec fn state_filter(number: Option<i32>) -> Option<SpecState> {
    match number {
        Some(n) => match state_of_number(n) {
            Some(proto) => Some(state_of_proto(proto)),
            None => None,
        },
        None => None,
    }
}

/// What a list shows of one specification on the wire.
pub open spec fn summary_of(s: SpecSummaryProjectionView) -> SpecSummaryView {
    SpecSummaryView {
        id: uuid_text(s.id),
        name: s.name,
        description: or_empty(s.description),
        latest_version: s.latest_version,
        state: state_number(proto_of_state(s.state)),
        updated_at: Some(proto_instant(s.updated_at)),
    }
}

/// The views of the entries of a list.
pub open spec fn summaries(specs: Seq<SpecSummary>) -> Seq<SpecSummaryView> {
    specs.map_values(|s: SpecSummary| s@)
}

/// Builds the entry of a list that shows one specification.
pub fn summarize(entry: &SpecSummaryProjection) -> (s: SpecSummary)
    ensures
        s@ == summary_of(entry@),
{
    SpecSummary {
        id: id_text(entry.id),
        name: entry.name.clone(),
        description: unwrap_or_default(entry.description.clone()),
        latest_version: entry.latest_version,
        state: domain_state_to_proto(entry.state).number(),
        updated_at: Some(chrono_to_proto_timestamp(entry.updated_at)),
    }
}

/// The state that a request for a list asks for.
pub fn list_filter(req: &ListSpecsRequest) -> (filter: Option<SpecState>)
    ensures
        filter == state_filter(req.state),
{
    match req.state {
        Some(n) => match ProtoSpecState::from_number(n) {
            Some(proto) => Some(proto_state_to_domain(proto)),
            None => None,
        },
        None => None,
    }
}

/// Answers a call to list specifications: the first page of the given size, with
/// no token for a next page.
pub fn list_specs(state: &AppState, req: ListSpecsRequest) -> (response: ListSpecsResponse)
    ensures
        response.next_page_token@ == Seq::<char>::empty(),
        is_listing(
            state.projection_store@.rows,
            state_filter(req.state),
            listing(state.projection_store@.rows, state_filter(req.state)),
        ),
        summaries(response.specs@) == listing_page(
            state.projection_store@.rows,
            state_filter(req.state),
            req.page_size as int,
            0,
        ).map_values(|s: SpecSummaryProjectionView| summary_of(s)),
{
    let filter = list_filter(&req);
    let found = state.projection_store.list_by_state(filter, req.page_size as i64, 0);
    let ghost found_views = summary_views(found@);
    let mut specs: Vec<SpecSummary> = Vec::new();
    let mut i: usize = 0;
    while i < found.len()
        invariant
            i <= found@.len(),
            specs@.len() == i,
            forall|j: int| 0 <= j < i ==> (#[trigger] specs@[j])@ == summary_of(found@[j]@),
        decreases found@.len() - i,
    {
        specs.push(summarize(&found[i]));
        i += 1;
    }
    assert(summaries(specs@) =~= found_views.map_values(
        |s: SpecSummaryProjectionView| summary_of(s),
    ));
    ListSpecsResponse { specs, next_page_token: String::new() }
}

/// What an event carries on the wire.
pub open spec fn payload_of(event: SpecEventView) -> PayloadView {
    match event {
        SpecEventView::Created(e) => PayloadView::Create {
            name: e.name,
            content: e.content,
            description: or_empty(e.description),
        },
        SpecEventView::Updated(e) => PayloadView::Update {
            content: e.content,
            description: e.description,
        },
        SpecEventView::StateChanged(e) => PayloadView::StateChange {
            from_state: state_number(proto_of_state(e.from_state)),
            to_state: state_number(proto_of_state(e.to_state)),
            reason: e.reason,
        },
    }
}

/// The kind of an event on the wire.
pub open spec fn kind_of(event: SpecEventView) -> EventType {
    match event {
        SpecEventView::Created(_) => EventType::Created,
        SpecEventView::Updated(_) => EventType::Updated,
        SpecEventView::StateChanged(_) => EventType::StateChanged,
    }
}

/// An envelope as it goes on the wire.
pub open spec fn wire_event(envelope: EventEnvelopeView) -> ProtoSpecEventView {
    ProtoSpecEventView {
        event_id: uuid_text(envelope.event_id),
        event_type: event_type_number(kind_of(envelope.event)),
        occurred_at: Some(proto_instant(envelope.event.timestamp())),
        user_id: envelope.event.user(),
        payload: Some(payload_of(envelope.event)),
    }
}

/// The views of events on the wire.
pub open spec fn wire_events(events: Seq<ProtoSpecEvent>) -> Seq<ProtoSpecEventView> {
    events.map_values(|e: ProtoSpecEvent| e@)
}

/// Puts an envelope on the wire.
pub fn to_wire(envelope: &EventEnvelope) -> (e: ProtoSpecEvent)
    ensures
        e@ == wire_event(envelope@),
{
    let (kind, payload) = match &envelope.event {
        SpecEvent::Created(e) => (
            EventType::Created,
            Payload::Create(
                CreatePayload {
                    name: e.name.clone(),
                    content: e.content.clone(),
                    description: unwrap_or_default(e.description.clone()),
                },
            ),
        ),
        SpecEvent::Updated(e) => (
            EventType::Updated,
            Payload::Update(
                UpdatePayload { content: e.content.clone(), description: e.description.clone() },
            ),
        ),
        SpecEvent::StateChanged(e) => (
            EventType::StateChanged,
            Payload::StateChange(
                StateChangePayload {
                    from_state: domain_state_to_proto(e.from_state).number(),
                    to_state: domain_state_to_proto(e.to_state).number(),
                    reason: e.reason.clone(),
                },
            ),
        ),
    };
    ProtoSpecEvent {
        event_id: id_text(envelope.event_id),
        event_type: kind.number(),
        occurred_at: Some(chrono_to_proto_timestamp(get_event_timestamp(&envelope.event))),
        user_id: get_event_user(&envelope.event),
        payload: Some(payload),
    }
}

/// Answers a call for the history of a specification: its events, oldest first.
pub fn get_spec_history(state: &AppState, req: GetSpecHistoryRequest) -> (r: Result<
    GetSpecHistoryResponse,
    Status,
>)
    ensures
        match uuid_of_text(req.id@) {
            None => failed(r) == Some(invalid_id()),
            Some(id) => r matches Ok(response) && wire_events(response.events@) == stream(
                state.event_store@,
                id,
            ).map_values(|e: EventEnvelopeView| wire_event(e)),
        },
{
    let id = match read_id(req.id.as_str()) {
        Ok(id) => id,
        Err(s) => {
            return Err(s);
        },
    };
    let envelopes = state.event_store.get_events(id, None);
    proof {
        lemma_events_after(state.event_store@, id, 0);
        assert(stream(state.event_store@, id).skip(0) =~= stream(state.event_store@, id));
    }
    let mut events: Vec<ProtoSpecEvent> = Vec::new();
    let mut i: usize = 0;
    while i < envelopes.len()
        invariant
            i <= envelopes@.len(),
            events@.len() == i,
            forall|j: int| 0 <= j < i ==> (#[trigger] events@[j])@ == wire_event(envelopes@[j]@),
        decreases envelopes@.len() - i,
    {
        events.push(to_wire(&envelopes[i]));
        i += 1;
    }
    assert(wire_events(events@) =~= envelope_views(envelopes@).map_values(
        |e: EventEnvelopeView| wire_event(e),
    ));
    Ok(GetSpecHistoryResponse { events })
}

} // verus!
