//! The facts that are appended to the log, and the envelope that carries them.

use vstd::prelude::*;
use vstd::string::*;
use vstd::utf8::*;

verus! {

/// An instant in UTC: whole seconds since 1970-01-01T00:00:00Z and the nanoseconds
/// into that second. Instants are ordered by `secs`, then by `nanos`.
#[derive(Debug, Clone, Copy, PartialEq, Eq, Structural)]
pub struct Timestamp {
    pub secs: i64,
    pub nanos: u32,
}

/// `a` is strictly later than `b`.
pub open spec fn later(a: Timestamp, b: Timestamp) -> bool {
    a.secs > b.secs || (a.secs == b.secs && a.nanos > b.nanos)
}

impl Timestamp {
    /// Whether `self` is strictly later than `other`.
    pub fn is_later_than(&self, other: &Timestamp) -> (b: bool)
        ensures
            b == later(*self, *other),
    {
        self.secs > other.secs || (self.secs == other.secs && self.nanos > other.nanos)
    }
}

/// The view of an optional text.
pub open spec fn text(o: Option<String>) -> Option<Seq<char>> {
    match o {
        Some(s) => Some(s@),
        None => None,
    }
}

/// Whether two texts hold the same characters.
pub fn same_text(a: &str, b: &str) -> (same: bool)
    ensures
        same == (a@ == b@),
{
    let x = a.as_bytes();
    let y = b.as_bytes();
    proof {
        encode_utf8_decode_utf8(a@);
        encode_utf8_decode_utf8(b@);
    }
    if x.len() != y.len() {
        return false;
    }
    let mut i: usize = 0;
    while i < x.len()
        invariant
            i <= x@.len(),
            x@.len() == y@.len(),
            x@ == encode_utf8(a@),
            y@ == encode_utf8(b@),
            decode_utf8(encode_utf8(a@)) == a@,
            decode_utf8(encode_utf8(b@)) == b@,
            forall|j: int| 0 <= j < i ==> x@[j] == y@[j],
        decreases x@.len() - i,
    {
        if x[i] != y[i] {
            return false;
        }
        i += 1;
    }
    assert(x@ =~= y@);
    true
}

/// Where a specification stands in its lifecycle.
#[derive(Debug, Clone, Copy, PartialEq, Eq, Structural)]
pub enum SpecState {
    Draft,
    Published,
    Deprecated,
    Deleted,
}

impl Default for SpecState {
    fn default() -> (s: Self)
        ensures
            s == SpecState::Draft,
    {
        SpecState::Draft
    }
}

/// The edges of the lifecycle: Draft to Published, Published to Deprecated, and
/// from any state but Deleted to Deleted.
pub open spec fn legal_transition(from: SpecState, to: SpecState) -> bool {
    match (from, to) {
        (SpecState::Draft, SpecState::Published) => true,
        (SpecState::Published, SpecState::Deprecated) => true,
        (SpecState::Draft, SpecState::Deleted) => true,
        (SpecState::Published, SpecState::Deleted) => true,
        (SpecState::Deprecated, SpecState::Deleted) => true,
        _ => false,
    }
}

/// The lower-case word under which a state is stored and shown.
pub open spec fn state_label(state: SpecState) -> Seq<char> {
    match state {
        SpecState::Draft => "draft"@,
        SpecState::Published => "published"@,
        SpecState::Deprecated => "deprecated"@,
        SpecState::Deleted => "deleted"@,
    }
}

/// The state that a word stands for, if it is one of the four labels.
pub open spec fn state_of_label(label: Seq<char>) -> Option<SpecState> {
    if label == "draft"@ {
        Some(SpecState::Draft)
    } else if label == "published"@ {
        Some(SpecState::Published)
    } else if label == "deprecated"@ {
        Some(SpecState::Deprecated)
    } else if label == "deleted"@ {
        Some(SpecState::Deleted)
    } else {
        None
    }
}

impl SpecState {
    /// Whether the lifecycle has an edge from `self` to `to`.
    pub fn can_become(&self, to: SpecState) -> (b: bool)
        ensures
            b == legal_transition(*self, to),
    {
        match (*self, to) {
            (SpecState::Draft, SpecState::Published) => true,
            (SpecState::Published, SpecState::Deprecated) => true,
            (SpecState::Draft, SpecState::Deleted) => true,
            (SpecState::Published, SpecState::Deleted) => true,
            (SpecState::Deprecated, SpecState::Deleted) => true,
            _ => false,
        }
    }

    /// The label of this state.
    pub fn as_str(&self) -> (label: &'static str)
        ensures
            label@ == state_label(*self),
    {
        match self {
            SpecState::Draft => "draft",
            SpecState::Published => "published",
            SpecState::Deprecated => "deprecated",
            SpecState::Deleted => "deleted",
        }
    }

    /// Reads a label back; any other word stands for no state.
    pub fn from_label(label: &str) -> (state: Option<SpecState>)
        ensures
            state == state_of_label(label@),
    {
        if same_text(label, "draft") {
            Some(SpecState::Draft)
        } else if same_text(label, "published") {
            Some(SpecState::Published)
        } else if same_text(label, "deprecated") {
            Some(SpecState::Deprecated)
        } else if same_text(label, "deleted") {
            Some(SpecState::Deleted)
        } else {
            None
        }
    }
}

/// Reading a state's label back gives the state.
pub proof fn lemma_label_round_trip(state: SpecState)
    ensures
        state_of_label(state_label(state)) == Some(state),
{
    reveal_strlit("draft");
    reveal_strlit("published");
    reveal_strlit("deprecated");
    reveal_strlit("deleted");
    assert("draft"@.len() == 5);
    assert("published"@.len() == 9);
    assert("deprecated"@.len() == 10);
    assert("deleted"@.len() == 7);
}

/// A specification came into being.
#[derive(Debug)]
pub struct SpecCreated {
    pub spec_id: u128,
    pub name: String,
    pub content: String,
    pub description: Option<String>,
    pub created_by: String,
    pub created_at: Timestamp,
}

pub struct SpecCreatedView {
    pub spec_id: u128,
    pub name: Seq<char>,
    pub content: Seq<char>,
    pub description: Option<Seq<char>>,
    pub created_by: Seq<char>,
    pub created_at: Timestamp,
}

impl View for SpecCreated {
    type V = SpecCreatedView;

    open spec fn view(&self) -> SpecCreatedView {
        SpecCreatedView {
            spec_id: self.spec_id,
            name: self.name@,
            content: self.content@,
            description: text(self.description),
            created_by: self.created_by@,
            created_at: self.created_at,
        }
    }
}

impl Clone for SpecCreated {
    fn clone(&self) -> (copy: Self)
        ensures
            copy == *self,
    {
        SpecCreated {
            spec_id: self.spec_id,
            name: self.name.clone(),
            content: self.content.clone(),
            description: self.description.clone(),
            created_by: self.created_by.clone(),
            created_at: self.created_at,
        }
    }
}

/// A specification got new content, and with it the next version.
#[derive(Debug)]
pub struct SpecUpdated {
    pub spec_id: u128,
    pub version: u32,
    pub content: String,
    pub description: Option<String>,
    pub updated_by: String,
    pub updated_at: Timestamp,
}

pub struct SpecUpdatedView {
    pub spec_id: u128,
    pub version: u32,
    pub content: Seq<char>,
    pub description: Option<Seq<char>>,
    pub updated_by: Seq<char>,
    pub updated_at: Timestamp,
}

impl View for SpecUpdated {
    type V = SpecUpdatedView;

    open spec fn view(&self) -> SpecUpdatedView {
        SpecUpdatedView {
            spec_id: self.spec_id,
            version: self.version,
            content: self.content@,
            description: text(self.description),
            updated_by: self.updated_by@,
            updated_at: self.updated_at,
        }
    }
}

impl Clone for SpecUpdated {
    fn clone(&self) -> (copy: Self)
        ensures
            copy == *self,
    {
        SpecUpdated {
            spec_id: self.spec_id,
            version: self.version,
            content: self.content.clone(),
            description: self.description.clone(),
            updated_by: self.updated_by.clone(),
            updated_at: self.updated_at,
        }
    }
}

/// A specification moved along its lifecycle; its version stayed.
#[derive(Debug)]
pub struct SpecStateChanged {
    pub spec_id: u128,
    pub version: u32,
    pub from_state: SpecState,
    pub to_state: SpecState,
    pub reason: Option<String>,
    pub changed_by: String,
    pub changed_at: Timestamp,
}

pub struct SpecStateChangedView {
    pub spec_id: u128,
    pub version: u32,
    pub from_state: SpecState,
    pub to_state: SpecState,
    pub reason: Option<Seq<char>>,
    pub changed_by: Seq<char>,
    pub changed_at: Timestamp,
}

impl View for SpecStateChanged {
    type V = SpecStateChangedView;

    open spec fn view(&self) -> SpecStateChangedView {
        SpecStateChangedView {
            spec_id: self.spec_id,
            version: self.version,
            from_state: self.from_state,
            to_state: self.to_state,
            reason: text(self.reason),
            changed_by: self.changed_by@,
            changed_at: self.changed_at,
        }
    }
}

impl Clone for SpecStateChanged {
    fn clone(&self) -> (copy: Self)
        ensures
            copy == *self,
    {
        SpecStateChanged {
            spec_id: self.spec_id,
            version: self.version,
            from_state: self.from_state,
            to_state: self.to_state,
            reason: self.reason.clone(),
            changed_by: self.changed_by.clone(),
            changed_at: self.changed_at,
        }
    }
}

/// One fact about one specification.
#[derive(Debug)]
pub enum SpecEvent {
    Created(SpecCreated),
    Updated(SpecUpdated),
    StateChanged(SpecStateChanged),
}

pub enum SpecEventView {
    Created(SpecCreatedView),
    Updated(SpecUpdatedView),
    StateChanged(SpecStateChangedView),
}

impl View for SpecEvent {
    type V = SpecEventView;

    open spec fn view(&self) -> SpecEventView {
        match self {
            SpecEvent::Created(e) => SpecEventView::Created(e@),
            SpecEvent::Updated(e) => SpecEventView::Updated(e@),
            SpecEvent::StateChanged(e) => SpecEventView::StateChanged(e@),
        }
    }
}

impl Clone for SpecEvent {
    fn clone(&self) -> (copy: Self)
        ensures
            copy == *self,
    {
        match self {
            SpecEvent::Created(e) => SpecEvent::Created(e.clone()),
            SpecEvent::Updated(e) => SpecEvent::Updated(e.clone()),
            SpecEvent::StateChanged(e) => SpecEvent::StateChanged(e.clone()),
        }
    }
}

impl SpecEventView {
    /// The specification that the event is about.
    pub open spec fn spec_id(self) -> u128 {
        match self {
            SpecEventView::Created(e) => e.spec_id,
            SpecEventView::Updated(e) => e.spec_id,
            SpecEventView::StateChanged(e) => e.spec_id,
        }
    }

    /// The word that names the variant where events are stored.
    pub open spec fn event_type(self) -> Seq<char> {
        match self {
            SpecEventView::Created(_) => "created"@,
            SpecEventView::Updated(_) => "updated"@,
            SpecEventView::StateChanged(_) => "state_changed"@,
        }
    }

    /// When the fact came about.
    pub open spec fn timestamp(self) -> Timestamp {
        match self {
            SpecEventView::Created(e) => e.created_at,
            SpecEventView::Updated(e) => e.updated_at,
            SpecEventView::StateChanged(e) => e.changed_at,
        }
    }

    /// Who brought the fact about.
    pub open spec fn user(self) -> Seq<char> {
        match self {
            SpecEventView::Created(e) => e.created_by,
            SpecEventView::Updated(e) => e.updated_by,
            SpecEventView::StateChanged(e) => e.changed_by,
        }
    }
}

/// The views of a sequence of events, in order.
pub open spec fn event_views(events: Seq<SpecEvent>) -> Seq<SpecEventView> {
    events.map_values(|e: SpecEvent| e@)
}

impl SpecEvent {
    /// The specification that the event is about.
    pub fn spec_id(&self) -> (id: u128)
        ensures
            id == self@.spec_id(),
    {
        match self {
            SpecEvent::Created(e) => e.spec_id,
            SpecEvent::Updated(e) => e.spec_id,
            SpecEvent::StateChanged(e) => e.spec_id,
        }
    }

    /// The word that names the variant where events are stored.
    pub fn event_type(&self) -> (word: &'static str)
        ensures
            word@ == self@.event_type(),
    {
        match self {
            SpecEvent::Created(_) => "created",
            SpecEvent::Updated(_) => "updated",
            SpecEvent::StateChanged(_) => "state_changed",
        }
    }
}

/// What is known of the request that caused an event.
#[derive(Debug)]
pub struct EventMetadata {
    pub correlation_id: Option<u128>,
    pub causation_id: Option<u128>,
    pub user_agent: Option<String>,
    pub ip_address: Option<String>,
}

pub struct EventMetadataView {
    pub correlation_id: Option<u128>,
    pub causation_id: Option<u128>,
    pub user_agent: Option<Seq<char>>,
    pub ip_address: Option<Seq<char>>,
}

impl View for EventMetadata {
    type V = EventMetadataView;

    open spec fn view(&self) -> EventMetadataView {
        EventMetadataView {
            correlation_id: self.correlation_id,
            causation_id: self.causation_id,
            user_agent: text(self.user_agent),
            ip_address: text(self.ip_address),
        }
    }
}

impl Clone for EventMetadata {
    fn clone(&self) -> (copy: Self)
        ensures
            copy == *self,
    {
        EventMetadata {
            correlation_id: self.correlation_id,
            causation_id: self.causation_id,
            user_agent: self.user_agent.clone(),
            ip_address: self.ip_address.clone(),
        }
    }
}

impl Default for EventMetadata {
    fn default() -> (m: Self)
        ensures
            m@ == (EventMetadataView {
                correlation_id: None,
                causation_id: None,
                user_agent: None,
                ip_address: None,
            }),
    {
        EventMetadata {
            correlation_id: None,
            causation_id: None,
            user_agent: None,
            ip_address: None,
        }
    }
}

/// An event as the log holds it: with its own identifier, the specification it
/// belongs to, and its place among that specification's events, counted from 1.
#[derive(Debug)]
pub struct EventEnvelope {
    pub event_id: u128,
    pub aggregate_id: u128,
    pub sequence_number: i64,
    pub event: SpecEvent,
    pub metadata: EventMetadata,
}

pub struct EventEnvelopeView {
    pub event_id: u128,
    pub aggregate_id: u128,
    pub sequence_number: i64,
    pub event: SpecEventView,
    pub metadata: EventMetadataView,
}

impl View for EventEnvelope {
    type V = EventEnvelopeView;

    open spec fn view(&self) -> EventEnvelopeView {
        EventEnvelopeView {
            event_id: self.event_id,
            aggregate_id: self.aggregate_id,
            sequence_number: self.sequence_number,
            event: self.event@,
            metadata: self.metadata@,
        }
    }
}

impl Clone for EventEnvelope {
    fn clone(&self) -> (copy: Self)
        ensures
            copy == *self,
    {
        EventEnvelope {
            event_id: self.event_id,
            aggregate_id: self.aggregate_id,
            sequence_number: self.sequence_number,
            event: self.event.clone(),
            metadata: self.metadata.clone(),
        }
    }
}

} // verus!
