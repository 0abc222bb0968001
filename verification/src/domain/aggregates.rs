//! The aggregate: one specification, rebuilt from its events for every command.

use vstd::prelude::*;
use vstd::string::*;
use super::commands::{
    CreateSpec, CreateSpecView, DeleteSpec, DeleteSpecView, DeprecateSpec, DeprecateSpecView,
    PublishSpec, PublishSpecView, SpecCommand, SpecCommandView, UpdateSpec, UpdateSpecView,
};
use super::errors::{DomainError, DomainErrorView};
use super::events::{
    event_views, text, SpecCreated, SpecCreatedView, SpecEvent, SpecEventView, SpecState,
    SpecStateChanged, SpecStateChangedView, SpecUpdated, SpecUpdatedView, Timestamp,
};
use super::sources::{fresh_id, marked_random, now};
use super::value_objects::{content_error, name_error, SpecContent, SpecName, Version};

verus! {

/// The state of one specification.
#[derive(Debug)]
pub struct Spec {
    pub id: u128,
    pub name: SpecName,
    pub content: SpecContent,
    pub description: Option<String>,
    pub version: Version,
    pub state: SpecState,
    pub created_at: Timestamp,
    pub updated_at: Timestamp,
    pub created_by: String,
    pub updated_by: String,
}

pub struct SpecView {
    pub id: u128,
    pub name: Seq<char>,
    pub content: Seq<char>,
    pub description: Option<Seq<char>>,
    pub version: u32,
    pub state: SpecState,
    pub created_at: Timestamp,
    pub updated_at: Timestamp,
    pub created_by: Seq<char>,
    pub updated_by: Seq<char>,
}

impl View for Spec {
    type V = SpecView;

    open spec fn view(&self) -> SpecView {
        SpecView {
            id: self.id,
            name: self.name@,
            content: self.content@,
            description: text(self.description),
            version: self.version@,
            state: self.state,
            created_at: self.created_at,
            updated_at: self.updated_at,
            created_by: self.created_by@,
            updated_by: self.updated_by@,
        }
    }
}

impl Clone for Spec {
    fn clone(&self) -> (copy: Self)
        ensures
            copy@ == self@,
    {
        Spec {
            id: self.id,
            name: self.name.clone(),
            content: self.content.clone(),
            description: self.description.clone(),
            version: self.version,
            state: self.state,
            created_at: self.created_at,
            updated_at: self.updated_at,
            created_by: self.created_by.clone(),
            updated_by: self.updated_by.clone(),
        }
    }
}

/// The views of what a handler returns.
pub open spec fn outcome(r: Result<Vec<SpecEvent>, DomainError>) -> Result<
    Seq<SpecEventView>,
    DomainErrorView,
> {
    match r {
        Ok(events) => Ok(event_views(events@)),
        Err(e) => Err(e@),
    }
}

/// The views of what a replay returns.
pub open spec fn replayed(r: Result<Spec, DomainError>) -> Result<SpecView, DomainErrorView> {
    match r {
        Ok(spec) => Ok(spec@),
        Err(e) => Err(e@),
    }
}

/// What creating a specification yields: the first broken rule of the name, else of
/// the content, else a single Created event that carries the command's values.
pub open spec fn creation(command: CreateSpecView, spec_id: u128, at: Timestamp) -> Result<
    Seq<SpecEventView>,
    DomainErrorView,
> {
    match name_error(command.name) {
        Some(e) => Err(DomainErrorView::ValidationError(e)),
        None => match content_error(command.content) {
            Some(e) => Err(DomainErrorView::ValidationError(e)),
            None => Ok(
                seq![
                    SpecEventView::Created(
                        SpecCreatedView {
                            spec_id,
                            name: command.name,
                            content: command.content,
                            description: command.description,
                            created_by: command.created_by,
                            created_at: at,
                        },
                    ),
                ],
            ),
        },
    }
}

/// A state change of `spec` to `to`, as an event.
pub open spec fn state_change(
    spec: SpecView,
    to: SpecState,
    reason: Option<Seq<char>>,
    by: Seq<char>,
    at: Timestamp,
) -> SpecEventView {
    SpecEventView::StateChanged(
        SpecStateChangedView {
            spec_id: spec.id,
            version: spec.version,
            from_state: spec.state,
            to_state: to,
            reason,
            changed_by: by,
            changed_at: at,
        },
    )
}

/// What an update yields: refused on a deleted specification, then for the first
/// broken rule of the content, else one Updated event with the next version.
pub open spec fn update_decision(spec: SpecView, command: UpdateSpecView, at: Timestamp) -> Result<
    Seq<SpecEventView>,
    DomainErrorView,
> {
    if spec.state == SpecState::Deleted {
        Err(DomainErrorView::InvalidStateForOperation(spec.state))
    } else {
        match content_error(command.content) {
            Some(e) => Err(DomainErrorView::ValidationError(e)),
            None => Ok(
                seq![
                    SpecEventView::Updated(
                        SpecUpdatedView {
                            spec_id: spec.id,
                            version: (spec.version + 1) as u32,
                            content: command.content,
                            description: command.description,
                            updated_by: command.updated_by,
                            updated_at: at,
                        },
                    ),
                ],
            ),
        }
    }
}

/// What publishing yields: refused where a version is given that is not the current
/// one, then where the specification is no draft, else one change to Published.
pub open spec fn publish_decision(
    spec: SpecView,
    command: PublishSpecView,
    at: Timestamp,
) -> Result<Seq<SpecEventView>, DomainErrorView> {
    if command.version is Some && command.version->0 != spec.version {
        Err(
            DomainErrorView::VersionMismatch {
                expected: spec.version,
                actual: command.version->0,
            },
        )
    } else if spec.state != SpecState::Draft {
        Err(DomainErrorView::InvalidStateTransition { from: spec.state, to: SpecState::Published })
    } else {
        Ok(seq![state_change(spec, SpecState::Published, None, command.published_by, at)])
    }
}

/// What deprecating yields: refused unless the specification is published, else one
/// change to Deprecated that carries the reason.
pub open spec fn deprecate_decision(
    spec: SpecView,
    command: DeprecateSpecView,
    at: Timestamp,
) -> Result<Seq<SpecEventView>, DomainErrorView> {
    if spec.state != SpecState::Published {
        Err(
            DomainErrorView::InvalidStateTransition {
                from: spec.state,
                to: SpecState::Deprecated,
            },
        )
    } else {
        Ok(
            seq![
                state_change(
                    spec,
                    SpecState::Deprecated,
                    Some(command.reason),
                    command.deprecated_by,
                    at,
                ),
            ],
        )
    }
}

/// What deleting yields: refused on a deleted specification, else one change to Deleted.
pub open spec fn delete_decision(spec: SpecView, command: DeleteSpecView, at: Timestamp) -> Result<
    Seq<SpecEventView>,
    DomainErrorView,
> {
    if spec.state == SpecState::Deleted {
        Err(DomainErrorView::InvalidStateForOperation(spec.state))
    } else {
        Ok(seq![state_change(spec, SpecState::Deleted, None, command.deleted_by, at)])
    }
}

/// What a command yields on `spec` at the instant `at`. Creating what exists is refused.
pub open spec fn decision(spec: SpecView, command: SpecCommandView, at: Timestamp) -> Result<
    Seq<SpecEventView>,
    DomainErrorView,
> {
    match command {
        SpecCommandView::Create(_) => Err(DomainErrorView::DuplicateSpecName(spec.name)),
        SpecCommandView::Update(c) => update_decision(spec, c, at),
        SpecCommandView::Publish(c) => publish_decision(spec, c, at),
        SpecCommandView::Deprecate(c) => deprecate_decision(spec, c, at),
        SpecCommandView::Delete(c) => delete_decision(spec, c, at),
    }
}

/// Whether handling `command` on `spec` has to count one version further.
pub open spec fn counts_version(spec: SpecView, command: SpecCommandView) -> bool {
    command is Update && spec.state != SpecState::Deleted
}

/// The state that a Created event opens: version 1, a draft, made and last touched
/// by the creator at the time of creation.
pub open spec fn opened(e: SpecCreatedView) -> SpecView {
    SpecView {
        id: e.spec_id,
        name: e.name,
        content: e.content,
        description: e.description,
        version: 1,
        state: SpecState::Draft,
        created_at: e.created_at,
        updated_at: e.created_at,
        created_by: e.created_by,
        updated_by: e.created_by,
    }
}

/// Why an event cannot follow on an existing specification, if it cannot: a Created
/// event never can, and an Updated event only with content that breaks no rule.
pub open spec fn refusal(event: SpecEventView) -> Option<DomainErrorView> {
    match event {
        SpecEventView::Created(_) => Some(
            DomainErrorView::EventStoreError("Cannot apply Created event to existing spec"@),
        ),
        SpecEventView::Updated(e) => match content_error(e.content) {
            Some(err) => Some(DomainErrorView::ValidationError(err)),
            None => None,
        },
        SpecEventView::StateChanged(_) => None,
    }
}

/// The state after `event`. An update replaces content, description, version,
/// updater and time; a state change replaces state and time.
pub open spec fn applied(spec: SpecView, event: SpecEventView) -> SpecView {
    match event {
        SpecEventView::Created(_) => spec,
        SpecEventView::Updated(e) => SpecView {
            content: e.content,
            description: e.description,
            version: e.version,
            updated_by: e.updated_by,
            updated_at: e.updated_at,
            ..spec
        },
        SpecEventView::StateChanged(e) => SpecView {
            state: e.to_state,
            updated_at: e.changed_at,
            ..spec
        },
    }
}

/// Folds `events` onto `spec` from the left, and stops at the first that is refused.
pub open spec fn replay_onto(spec: SpecView, events: Seq<SpecEventView>) -> Result<
    SpecView,
    DomainErrorView,
>
    decreases events.len(),
{
    if events.len() == 0 {
        Ok(spec)
    } else {
        match refusal(events[0]) {
            Some(e) => Err(e),
            None => replay_onto(applied(spec, events[0]), events.drop_first()),
        }
    }
}

/// The state that a stream of events stands for. The stream must open with a Created
/// event whose name and content break no rule; the rest is folded onto what it opens.
pub open spec fn replay(events: Seq<SpecEventView>) -> Result<SpecView, DomainErrorView> {
    if events.len() == 0 {
        Err(DomainErrorView::EventStoreError("No events found"@))
    } else {
        match events[0] {
            SpecEventView::Created(e) => match name_error(e.name) {
                Some(err) => Err(DomainErrorView::ValidationError(err)),
                None => match content_error(e.content) {
                    Some(err) => Err(DomainErrorView::ValidationError(err)),
                    None => replay_onto(opened(e), events.drop_first()),
                },
            },
            _ => Err(DomainErrorView::EventStoreError("First event must be Created"@)),
        }
    }
}

impl Spec {
    /// Handles `command` at the current time.
    ///
    /// The outcome is that of `handle_command_at` for the instant that the clock gave.
    pub fn handle_command(&self, command: SpecCommand) -> (r: Result<Vec<SpecEvent>, DomainError>)
        requires
            counts_version(self@, command@) ==> self@.version < u32::MAX,
        ensures
            exists|at: Timestamp| outcome(r) == #[trigger] decision(self@, command@, at),
    {
        let at = now();
        let ghost given = command@;
        let r = self.handle_command_at(command, at);
        assert(outcome(r) == decision(self@, given, at));
        r
    }

    /// Handles `command` as of the instant `at`: the events that it gives rise to,
    /// or why it is refused. Nothing is changed; the events are for the caller to append.
    pub fn handle_command_at(&self, command: SpecCommand, at: Timestamp) -> (r: Result<
        Vec<SpecEvent>,
        DomainError,
    >)
        requires
            counts_version(self@, command@) ==> self@.version < u32::MAX,
        ensures
            outcome(r) == decision(self@, command@, at),
    {
        match command {
            SpecCommand::Create(_) => Err(DomainError::DuplicateSpecName(self.name.to_string())),
            SpecCommand::Update(cmd) => self.handle_update(cmd, at),
            SpecCommand::Publish(cmd) => self.handle_publish(cmd, at),
            SpecCommand::Deprecate(cmd) => self.handle_deprecate(cmd, at),
            SpecCommand::Delete(cmd) => self.handle_delete(cmd, at),
        }
    }

    /// Creates a specification under a fresh identifier at the current time.
    ///
    /// The outcome is that of `create_with` for the identifier and the instant
    /// that were drawn; the identifier is marked as random.
    pub fn create(command: CreateSpec) -> (r: Result<Vec<SpecEvent>, DomainError>)
        ensures
            exists|spec_id: u128, at: Timestamp|
                marked_random(spec_id) && outcome(r) == #[trigger] creation(command@, spec_id, at),
    {
        let spec_id = fresh_id();
        let at = now();
        let ghost given = command@;
        let r = Self::create_with(command, spec_id, at);
        assert(outcome(r) == creation(given, spec_id, at));
        r
    }

    /// Creates a specification under `spec_id` as of `at`: a single Created event,
    /// or the first rule that the name or the content breaks.
    pub fn create_with(command: CreateSpec, spec_id: u128, at: Timestamp) -> (r: Result<
        Vec<SpecEvent>,
        DomainError,
    >)
        ensures
            outcome(r) == creation(command@, spec_id, at),
    {
        let name = match SpecName::new(command.name) {
            Ok(name) => name,
            Err(e) => {
                return Err(DomainError::ValidationError(e));
            },
        };
        let content = match SpecContent::new(command.content) {
            Ok(content) => content,
            Err(e) => {
                return Err(DomainError::ValidationError(e));
            },
        };
        let event = SpecEvent::Created(
            SpecCreated {
                spec_id,
                name: name.to_string(),
                content: content.as_str().to_owned(),
                description: command.description,
                created_by: command.created_by,
                created_at: at,
            },
        );
        let events = vec![event];
        assert(event_views(events@) =~= seq![event@]);
        Ok(events)
    }

    /// Handles an update as of the instant `at`: refused on a deleted specification,
    /// then for the first rule that the content breaks; else one Updated event with
    /// the next version.
    pub fn handle_update(&self, command: UpdateSpec, at: Timestamp) -> (r: Result<
        Vec<SpecEvent>,
        DomainError,
    >)
        requires
            self@.state != SpecState::Deleted ==> self@.version < u32::MAX,
        ensures
            outcome(r) == update_decision(self@, command@, at),
    {
        if self.state == SpecState::Deleted {
            return Err(DomainError::InvalidStateForOperation(self.state));
        }
        let content = match SpecContent::new(command.content) {
            Ok(content) => content,
            Err(e) => {
                return Err(DomainError::ValidationError(e));
            },
        };
        let event = SpecEvent::Updated(
            SpecUpdated {
                spec_id: self.id,
                version: self.version.increment().as_u32(),
                content: content.as_str().to_owned(),
                description: command.description,
                updated_by: command.updated_by,
                updated_at: at,
            },
        );
        let events = vec![event];
        assert(event_views(events@) =~= seq![event@]);
        Ok(events)
    }

    fn change_state(
        &self,
        to: SpecState,
        reason: Option<String>,
        by: String,
        at: Timestamp,
    ) -> (events: Vec<SpecEvent>)
        ensures
            event_views(events@) == seq![state_change(self@, to, text(reason), by@, at)],
    {
        let event = SpecEvent::StateChanged(
            SpecStateChanged {
                spec_id: self.id,
                version: self.version.as_u32(),
                from_state: self.state,
                to_state: to,
                reason,
                changed_by: by,
                changed_at: at,
            },
        );
        let events = vec![event];
        assert(event_views(events@) =~= seq![event@]);
        events
    }

    /// Handles a request to publish as of the instant `at`: refused where a version is
    /// given that is not the current one, then where the specification is no draft;
    /// else one change of state to Published.
    pub fn handle_publish(&self, command: PublishSpec, at: Timestamp) -> (r: Result<
        Vec<SpecEvent>,
        DomainError,
    >)
        ensures
            outcome(r) == publish_decision(self@, command@, at),
    {
        if let Some(version) = command.version {
            if version != self.version.as_u32() {
                return Err(
                    DomainError::VersionMismatch {
                        expected: self.version.as_u32(),
                        actual: version,
                    },
                );
            }
        }
        if self.state != SpecState::Draft {
            return Err(
                DomainError::InvalidStateTransition { from: self.state, to: SpecState::Published },
            );
        }
        Ok(self.change_state(SpecState::Published, None, command.published_by, at))
    }

    /// Handles a request to deprecate as of the instant `at`: refused unless the
    /// specification is published; else one change of state to Deprecated with the
    /// reason.
    pub fn handle_deprecate(&self, command: DeprecateSpec, at: Timestamp) -> (r: Result<
        Vec<SpecEvent>,
        DomainError,
    >)
        ensures
            outcome(r) == deprecate_decision(self@, command@, at),
    {
        if self.state != SpecState::Published {
            return Err(
                DomainError::InvalidStateTransition {
                    from: self.state,
                    to: SpecState::Deprecated,
                },
            );
        }
        Ok(
            self.change_state(
                SpecState::Deprecated,
                Some(command.reason),
                command.deprecated_by,
                at,
            ),
        )
    }

    /// Handles a request to delete as of the instant `at`: refused on a deleted
    /// specification; else one change of state to Deleted.
    pub fn handle_delete(&self, command: DeleteSpec, at: Timestamp) -> (r: Result<
        Vec<SpecEvent>,
        DomainError,
    >)
        ensures
            outcome(r) == delete_decision(self@, command@, at),
    {
        if self.state == SpecState::Deleted {
            return Err(DomainError::InvalidStateForOperation(self.state));
        }
        Ok(self.change_state(SpecState::Deleted, None, command.deleted_by, at))
    }

    /// Why `event` cannot follow on an existing specification, if it cannot.
    pub fn refuses(event: &SpecEvent) -> (r: Option<DomainError>)
        ensures
            match refusal(event@) {
                Some(e) => r matches Some(x) && x@ == e,
                None => r is None,
            },
    {
        match event {
            SpecEvent::Created(_) => Some(
                DomainError::EventStoreError(
                    "Cannot apply Created event to existing spec".to_owned(),
                ),
            ),
            SpecEvent::Updated(e) => match SpecContent::validate(e.content.as_str()) {
                Some(err) => Some(DomainError::ValidationError(err)),
                None => None,
            },
            SpecEvent::StateChanged(_) => None,
        }
    }

    /// The state after `event`, for an event that can follow on this specification.
    pub fn apply_event(self, event: &SpecEvent) -> (next: Self)
        requires
            refusal(event@) is None,
        ensures
            next@ == applied(self@, event@),
    {
        let mut spec = self;
        match event {
            SpecEvent::Created(_) => {},
            SpecEvent::Updated(e) => {
                spec.content = match SpecContent::new(e.content.clone()) {
                    Ok(content) => content,
                    Err(_) => vstd::pervasive::unreached(),
                };
                spec.description = e.description.clone();
                spec.version = Version::new(e.version);
                spec.updated_by = e.updated_by.clone();
                spec.updated_at = e.updated_at;
            },
            SpecEvent::StateChanged(e) => {
                spec.state = e.to_state;
                spec.updated_at = e.changed_at;
            },
        }
        spec
    }

    /// Rebuilds a specification from its events, oldest first.
    pub fn from_events(events: Vec<SpecEvent>) -> (r: Result<Self, DomainError>)
        ensures
            replayed(r) == replay(event_views(events@)),
    {
        let ghost views = event_views(events@);
        if events.len() == 0 {
            return Err(DomainError::EventStoreError("No events found".to_owned()));
        }
        let mut spec = match &events[0] {
            SpecEvent::Created(e) => {
                let name = match SpecName::new(e.name.clone()) {
                    Ok(name) => name,
                    Err(err) => {
                        return Err(DomainError::ValidationError(err));
                    },
                };
                let content = match SpecContent::new(e.content.clone()) {
                    Ok(content) => content,
                    Err(err) => {
                        return Err(DomainError::ValidationError(err));
                    },
                };
                Spec {
                    id: e.spec_id,
                    name,
                    content,
                    description: e.description.clone(),
                    version: Version::initial(),
                    state: SpecState::Draft,
                    created_at: e.created_at,
                    updated_at: e.created_at,
                    created_by: e.created_by.clone(),
                    updated_by: e.created_by.clone(),
                }
            },
            _ => {
                return Err(DomainError::EventStoreError("First event must be Created".to_owned()));
            },
        };
        let mut i: usize = 1;
        assert(views.subrange(1, views.len() as int) =~= views.drop_first());
        while i < events.len()
            invariant
                1 <= i <= events.len(),
                views == event_views(events@),
                replay(views) == replay_onto(spec@, views.subrange(i as int, views.len() as int)),
            decreases events.len() - i,
        {
            let ghost rest = views.subrange(i as int, views.len() as int);
            assert(rest[0] == events[i as int]@);
            assert(rest.drop_first() =~= views.subrange(i + 1, views.len() as int));
            if let Some(err) = Self::refuses(&events[i]) {
                return Err(err);
            }
            spec = spec.apply_event(&events[i]);
            i += 1;
        }
        Ok(spec)
    }
}

} // verus!
