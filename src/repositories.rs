use vstd::prelude::*;
use crate::errors::StoreError;
use crate::models::{BoardCheckingFilter, QuestAdventurerJunction, QuestEntity, RegisterModel};

verus! {

/// Read side of the quest and roster stores.
pub trait QuestViewingRepository {
    fn view_details(&self, quest_id: i32) -> Result<QuestEntity, StoreError>;

    fn board_checking(&self, filter: &BoardCheckingFilter) -> Result<Vec<QuestEntity>, StoreError>;

    fn adventurers_counting_by_quest_id(&self, quest_id: i32) -> Result<i64, StoreError>;
}

/// Write side of the roster store.
pub trait CrewSwitchBoardRepository {
    fn join(&self, junction: QuestAdventurerJunction) -> Result<(), StoreError>;

    fn leave(&self, junction: QuestAdventurerJunction) -> Result<(), StoreError>;
}

/// Status updates of the quest store; each returns the id of the updated quest.
pub trait JourneyLedgerRepository {
    fn in_journey(&self, quest_id: i32, guild_commander_id: i32) -> Result<i32, StoreError>;

    fn to_completed(&self, quest_id: i32, guild_commander_id: i32) -> Result<i32, StoreError>;

    fn to_failed(&self, quest_id: i32, guild_commander_id: i32) -> Result<i32, StoreError>;
}

/// Persists a new adventurer and returns its id.
pub trait AdventurersRepository {
    fn register(&self, entity: RegisterModel) -> Result<i32, StoreError>;
}

/// Persists a new guild commander and returns its id.
pub trait GuildCommandersRepository {
    fn register(&self, entity: RegisterModel) -> Result<i32, StoreError>;
}

} // verus!
