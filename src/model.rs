use vstd::prelude::*;

verus! {

/// What a group shows for goals that missed their deadline.
#[derive(Debug, Clone, Copy, PartialEq, Eq, Structural)]
pub enum GoalBehavior {
    Hide,
    Nice,
    Mean,
}

/// How strictly a group treats deadlines.
#[derive(Debug, Clone, Copy, PartialEq, Eq, Structural)]
pub enum DeadlineType {
    Off,
    Soft,
    Hard,
}

/// A named set of stage labels, greeting and rules that a group uses.
pub struct Tone {
    pub id: i64,
    pub name: String,
    pub user_id: i64,
    pub global: bool,
    pub stages: Vec<String>,
    pub greeting: String,
    pub unmet_behavior: GoalBehavior,
    pub deadline: DeadlineType,
}

/// A group of goals owned by a user.
pub struct Group {
    pub id: i64,
    pub title: String,
    pub description: Option<String>,
    pub user_id: i64,
    pub tone_id: i64,
}

/// A group joined with its tone.
pub struct GroupWithInfo {
    pub id: i64,
    pub title: String,
    pub description: Option<String>,
    pub tone_name: String,
    pub tone_stages: Vec<String>,
    pub greeting: String,
    pub unmet_behavior: GoalBehavior,
    pub deadline: DeadlineType,
    pub tone_id: i64,
    pub user_id: i64,
}

/// A group with its tone, as pages show it.
pub struct GroupDisplay {
    pub id: i64,
    pub title: String,
    pub description: Option<String>,
    pub tone_name: String,
    pub tone_stages: Vec<String>,
    pub greeting: String,
    pub unmet_behavior: GoalBehavior,
    pub deadline: DeadlineType,
    pub tone_id: i64,
    pub user_id: i64,
}

/// A link to a group in the navigation.
pub struct GroupLink {
    pub id: i64,
    pub title: String,
}

/// A goal within a group, at one of the group's stages.
pub struct Goal {
    pub id: i64,
    pub title: String,
    pub description: Option<String>,
    pub stage: i64,
    pub group_id: i64,
    pub deadline: Option<String>,
}

/// A stored passkey credential of a user.
pub struct WebauthnCredential {
    /// The credential's id, a UUID as its 128-bit value.
    pub id: u128,
    pub user_id: i64,
    pub passkey: String,
}

impl GroupDisplay {
    /// The display form of a group with its tone; every field carries over.
    pub fn from(value: GroupWithInfo) -> (r: GroupDisplay)
        ensures
            r.id == value.id,
            r.title == value.title,
            r.description == value.description,
            r.tone_name == value.tone_name,
            r.tone_stages == value.tone_stages,
            r.greeting == value.greeting,
            r.unmet_behavior == value.unmet_behavior,
            r.deadline == value.deadline,
            r.tone_id == value.tone_id,
            r.user_id == value.user_id,
    {
        GroupDisplay {
            id: value.id,
            title: value.title,
            description: value.description,
            tone_name: value.tone_name,
            tone_stages: value.tone_stages,
            greeting: value.greeting,
            unmet_behavior: value.unmet_behavior,
            deadline: value.deadline,
            tone_id: value.tone_id,
            user_id: value.user_id,
        }
    }
}

impl Group {
    /// The group part of a group with its tone.
    pub fn from(value: GroupWithInfo) -> (r: Group)
        ensures
            r.id == value.id,
            r.title == value.title,
            r.description == value.description,
            r.user_id == value.user_id,
            r.tone_id == value.tone_id,
    {
        Group {
            id: value.id,
            title: value.title,
            description: value.description,
            user_id: value.user_id,
            tone_id: value.tone_id,
        }
    }
}

} // verus!
