//! What callers may ask of a specification.

use vstd::prelude::*;
use super::events::text;

verus! {

/// A request to change one specification, or to create one.
#[derive(Debug)]
pub enum SpecCommand {
    Create(CreateSpec),
    Update(UpdateSpec),
    Publish(PublishSpec),
    Deprecate(DeprecateSpec),
    Delete(DeleteSpec),
}

#[derive(Debug)]
pub struct CreateSpec {
    pub name: String,
    pub content: String,
    pub description: Option<String>,
    pub created_by: String,
}

#[derive(Debug)]
pub struct UpdateSpec {
    pub spec_id: u128,
    pub content: String,
    pub description: Option<String>,
    pub updated_by: String,
}

/// Publishes a draft. A `version`, where given, must be the current one.
#[derive(Debug)]
pub struct PublishSpec {
    pub spec_id: u128,
    pub version: Option<u32>,
    pub published_by: String,
}

#[derive(Debug)]
pub struct DeprecateSpec {
    pub spec_id: u128,
    pub reason: String,
    pub deprecated_by: String,
}

#[derive(Debug)]
pub struct DeleteSpec {
    pub spec_id: u128,
    pub deleted_by: String,
}

/// What is known of the request behind a command.
pub struct CommandContext {
    pub correlation_id: Option<u128>,
    pub causation_id: Option<u128>,
    pub user_agent: Option<String>,
    pub ip_address: Option<String>,
}

pub struct CreateSpecView {
    pub name: Seq<char>,
    pub content: Seq<char>,
    pub description: Option<Seq<char>>,
    pub created_by: Seq<char>,
}

pub struct UpdateSpecView {
    pub spec_id: u128,
    pub content: Seq<char>,
    pub description: Option<Seq<char>>,
    pub updated_by: Seq<char>,
}

pub struct PublishSpecView {
    pub spec_id: u128,
    pub version: Option<u32>,
    pub published_by: Seq<char>,
}

pub struct DeprecateSpecView {
    pub spec_id: u128,
    pub reason: Seq<char>,
    pub deprecated_by: Seq<char>,
}

pub struct DeleteSpecView {
    pub spec_id: u128,
    pub deleted_by: Seq<char>,
}

pub enum SpecCommandView {
    Create(CreateSpecView),
    Update(UpdateSpecView),
    Publish(PublishSpecView),
    Deprecate(DeprecateSpecView),
    Delete(DeleteSpecView),
}

impl View for CreateSpec {
    type V = CreateSpecView;

    open spec fn view(&self) -> CreateSpecView {
        CreateSpecView {
            name: self.name@,
            content: self.content@,
            description: text(self.description),
            created_by: self.created_by@,
        }
    }
}

impl View for UpdateSpec {
    type V = UpdateSpecView;

    open spec fn view(&self) -> UpdateSpecView {
        UpdateSpecView {
            spec_id: self.spec_id,
            content: self.content@,
            description: text(self.description),
            updated_by: self.updated_by@,
        }
    }
}

impl View for PublishSpec {
    type V = PublishSpecView;

    open spec fn view(&self) -> PublishSpecView {
        PublishSpecView {
            spec_id: self.spec_id,
            version: self.version,
            published_by: self.published_by@,
        }
    }
}

impl View for DeprecateSpec {
    type V = DeprecateSpecView;

    open spec fn view(&self) -> DeprecateSpecView {
        DeprecateSpecView {
            spec_id: self.spec_id,
            reason: self.reason@,
            deprecated_by: self.deprecated_by@,
        }
    }
}

impl View for DeleteSpec {
    type V = DeleteSpecView;

    open spec fn view(&self) -> DeleteSpecView {
        DeleteSpecView { spec_id: self.spec_id, deleted_by: self.deleted_by@ }
    }
}

impl View for SpecCommand {
    type V = SpecCommandView;

    open spec fn view(&self) -> SpecCommandView {
        match self {
            SpecCommand::Create(c) => SpecCommandView::Create(c@),
            SpecCommand::Update(c) => SpecCommandView::Update(c@),
            SpecCommand::Publish(c) => SpecCommandView::Publish(c@),
            SpecCommand::Deprecate(c) => SpecCommandView::Deprecate(c@),
            SpecCommand::Delete(c) => SpecCommandView::Delete(c@),
        }
    }
}

impl Clone for CreateSpec {
    fn clone(&self) -> (copy: Self)
        ensures
            copy == *self,
    {
        CreateSpec {
            name: self.name.clone(),
            content: self.content.clone(),
            description: self.description.clone(),
            created_by: self.created_by.clone(),
        }
    }
}

impl Clone for UpdateSpec {
    fn clone(&self) -> (copy: Self)
        ensures
            copy == *self,
    {
        UpdateSpec {
            spec_id: self.spec_id,
            content: self.content.clone(),
            description: self.description.clone(),
            updated_by: self.updated_by.clone(),
        }
    }
}

impl Clone for PublishSpec {
    fn clone(&self) -> (copy: Self)
        ensures
            copy == *self,
    {
        PublishSpec {
            spec_id: self.spec_id,
            version: self.version,
            published_by: self.published_by.clone(),
        }
    }
}

impl Clone for DeprecateSpec {
    fn clone(&self) -> (copy: Self)
        ensures
            copy == *self,
    {
        DeprecateSpec {
            spec_id: self.spec_id,
            reason: self.reason.clone(),
            deprecated_by: self.deprecated_by.clone(),
        }
    }
}

impl Clone for DeleteSpec {
    fn clone(&self) -> (copy: Self)
        ensures
            copy == *self,
    {
        DeleteSpec { spec_id: self.spec_id, deleted_by: self.deleted_by.clone() }
    }
}

impl Clone for SpecCommand {
    fn clone(&self) -> (copy: Self)
        ensures
            copy == *self,
    {
        match self {
            SpecCommand::Create(c) => SpecCommand::Create(c.clone()),
            SpecCommand::Update(c) => SpecCommand::Update(c.clone()),
            SpecCommand::Publish(c) => SpecCommand::Publish(c.clone()),
            SpecCommand::Deprecate(c) => SpecCommand::Deprecate(c.clone()),
            SpecCommand::Delete(c) => SpecCommand::Delete(c.clone()),
        }
    }
}

impl From<UpdateSpec> for SpecCommand {
    fn from(cmd: UpdateSpec) -> (command: Self) {
        SpecCommand::Update(cmd)
    }
}

impl vstd::std_specs::convert::FromSpecImpl<UpdateSpec> for SpecCommand {
    open spec fn obeys_from_spec() -> bool {
        true
    }

    open spec fn from_spec(cmd: UpdateSpec) -> Self {
        SpecCommand::Update(cmd)
    }
}

impl From<PublishSpec> for SpecCommand {
    fn from(cmd: PublishSpec) -> (command: Self) {
        SpecCommand::Publish(cmd)
    }
}

impl vstd::std_specs::convert::FromSpecImpl<PublishSpec> for SpecCommand {
    open spec fn obeys_from_spec() -> bool {
        true
    }

    open spec fn from_spec(cmd: PublishSpec) -> Self {
        SpecCommand::Publish(cmd)
    }
}

impl From<DeprecateSpec> for SpecCommand {
    fn from(cmd: DeprecateSpec) -> (command: Self) {
        SpecCommand::Deprecate(cmd)
    }
}

impl vstd::std_specs::convert::FromSpecImpl<DeprecateSpec> for SpecCommand {
    open spec fn obeys_from_spec() -> bool {
        true
    }

    open spec fn from_spec(cmd: DeprecateSpec) -> Self {
        SpecCommand::Deprecate(cmd)
    }
}

} // verus!
