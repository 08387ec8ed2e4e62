use vstd::prelude::*;
use crate::quest_statuses::QuestStatuses;

verus! {

/// One membership pair: `adventurer_id` is on the crew of `quest_id`.
#[derive(Debug, Clone, Copy, PartialEq, Eq, Structural)]
pub struct QuestAdventurerJunction {
    pub adventurer_id: i32,
    pub quest_id: i32,
}

/// A quest as the quest store holds it.
#[derive(Debug, Clone, PartialEq, Eq)]
pub struct QuestEntity {
    pub id: i32,
    pub name: String,
    pub description: Option<String>,
    pub status: QuestStatuses,
    pub guild_commander_id: i32,
}

/// A quest as shown to callers: the stored record with its live crew size.
#[derive(Debug, Clone, PartialEq, Eq)]
pub struct QuestModel {
    pub id: i32,
    pub name: String,
    pub description: Option<String>,
    pub status: QuestStatuses,
    pub guild_commander_id: i32,
    pub adventurers_count: i64,
}

/// A quest's status and the number of members on its crew at the moment of reading.
#[derive(Debug, Clone, Copy, PartialEq, Eq, Structural)]
pub struct QuestView {
    pub status: QuestStatuses,
    pub participant_count: i64,
}

/// Which quests a board listing asks for; the store decides how it matches.
#[derive(Debug, Clone, PartialEq, Eq)]
pub struct BoardCheckingFilter {
    pub name: Option<String>,
    pub status: Option<QuestStatuses>,
}

/// Registration data for a new identity; `password` holds the secret, or its hash once hashed.
#[derive(Debug, Clone, PartialEq, Eq)]
pub struct RegisterModel {
    pub username: String,
    pub password: String,
    pub display_name: String,
}

impl QuestEntity {
    pub open spec fn spec_to_model(self, adventurers_count: i64) -> QuestModel {
        QuestModel {
            id: self.id,
            name: self.name,
            description: self.description,
            status: self.status,
            guild_commander_id: self.guild_commander_id,
            adventurers_count,
        }
    }

    /// Enriches the record with the crew size read alongside it.
    pub fn to_model(self, adventurers_count: i64) -> (r: QuestModel)
        ensures
            r == self.spec_to_model(adventurers_count),
    {
        QuestModel {
            id: self.id,
            name: self.name,
            description: self.description,
            status: self.status,
            guild_commander_id: self.guild_commander_id,
            adventurers_count,
        }
    }
}

} // verus!
