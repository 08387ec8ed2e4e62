use vstd::prelude::*;
use std::sync::Arc;
use crate::errors::{store_outcome, QuestError, StoreError};
use crate::lifecycle::{check_join, check_leave, join_outcome, leave_outcome};
use crate::models::{QuestAdventurerJunction, QuestEntity};
use crate::repositories::{CrewSwitchBoardRepository, QuestViewingRepository};

verus! {

/// Join and leave, guarded by the quest's status and crew size.
pub struct CrewSwitchBoardUseCase<T1, T2> where
    T1: CrewSwitchBoardRepository + Send + Sync,
    T2: QuestViewingRepository + Send + Sync,
 {
    crew_switchboard_repository: Arc<T1>,
    quest_viewing_repository: Arc<T2>,
}

/// The failures that a join can report: its own guards, or what a store reported.
pub open spec fn is_join_failure(e: QuestError) -> bool {
    e is QuestFull || e is QuestNotJoinable || e is NotFound || e is DuplicateMembership
        || e is Dependency
}

/// The failures that a leave can report: its own guard, or what a store reported.
pub open spec fn is_leave_failure(e: QuestError) -> bool {
    e is QuestNotLeavable || e is NotFound || e is DuplicateMembership || e is Dependency
}

/// The pair to store for a join, given what the reads of the quest and of its crew size
/// returned; or the failure to report instead, in which case nothing is stored.
pub open spec fn join_decision(
    quest: Result<QuestEntity, StoreError>,
    count: Result<i64, StoreError>,
    quest_id: i32,
    adventurer_id: i32,
) -> Result<QuestAdventurerJunction, QuestError> {
    match quest {
        Err(e) => Err(QuestError::spec_from_store(e)),
        Ok(q) => match count {
            Err(e) => Err(QuestError::spec_from_store(e)),
            Ok(c) => match join_outcome(q.status, c as int) {
                Err(e) => Err(e),
                Ok(()) => Ok(QuestAdventurerJunction { adventurer_id, quest_id }),
            },
        },
    }
}

/// The pair to remove for a leave, given what the read of the quest returned; or the failure
/// to report instead, in which case nothing is removed.
pub open spec fn leave_decision(
    quest: Result<QuestEntity, StoreError>,
    quest_id: i32,
    adventurer_id: i32,
) -> Result<QuestAdventurerJunction, QuestError> {
    match quest {
        Err(e) => Err(QuestError::spec_from_store(e)),
        Ok(q) => match leave_outcome(q.status) {
            Err(e) => Err(e),
            Ok(()) => Ok(QuestAdventurerJunction { adventurer_id, quest_id }),
        },
    }
}

/// What a join reports, given its two reads and, where the decision let it reach the store,
/// the store's result.
pub open spec fn join_run(
    quest: Result<QuestEntity, StoreError>,
    count: Result<i64, StoreError>,
    write: Result<(), StoreError>,
    quest_id: i32,
    adventurer_id: i32,
) -> Result<(), QuestError> {
    match join_decision(quest, count, quest_id, adventurer_id) {
        Err(e) => Err(e),
        Ok(_) => match write {
            Ok(()) => Ok(()),
            Err(e) => Err(QuestError::spec_from_store(e)),
        },
    }
}

/// What a leave reports, given its read and, where the decision let it reach the store, the
/// store's result.
pub open spec fn leave_run(
    quest: Result<QuestEntity, StoreError>,
    write: Result<(), StoreError>,
    quest_id: i32,
    adventurer_id: i32,
) -> Result<(), QuestError> {
    match leave_decision(quest, quest_id, adventurer_id) {
        Err(e) => Err(e),
        Ok(_) => match write {
            Ok(()) => Ok(()),
            Err(e) => Err(QuestError::spec_from_store(e)),
        },
    }
}

/// Decides a join from the quest and crew size read for it.
pub fn join_step(
    quest: Result<QuestEntity, StoreError>,
    count: Result<i64, StoreError>,
    quest_id: i32,
    adventurer_id: i32,
) -> (r: Result<QuestAdventurerJunction, QuestError>)
    ensures
        r == join_decision(quest, count, quest_id, adventurer_id),
{
    let quest = match quest {
        Err(e) => return Err(QuestError::from_store(e)),
        Ok(q) => q,
    };
    let count = match count {
        Err(e) => return Err(QuestError::from_store(e)),
        Ok(c) => c,
    };
    match check_join(quest.status, count) {
        Err(e) => Err(e),
        Ok(()) => Ok(QuestAdventurerJunction { adventurer_id, quest_id }),
    }
}

/// Decides a leave from the quest read for it.
pub fn leave_step(quest: Result<QuestEntity, StoreError>, quest_id: i32, adventurer_id: i32) -> (r:
    Result<QuestAdventurerJunction, QuestError>)
    ensures
        r == leave_decision(quest, quest_id, adventurer_id),
{
    let quest = match quest {
        Err(e) => return Err(QuestError::from_store(e)),
        Ok(q) => q,
    };
    match check_leave(quest.status) {
        Err(e) => Err(e),
        Ok(()) => Ok(QuestAdventurerJunction { adventurer_id, quest_id }),
    }
}

impl<T1, T2> CrewSwitchBoardUseCase<T1, T2> where
    T1: CrewSwitchBoardRepository + Send + Sync,
    T2: QuestViewingRepository + Send + Sync,
 {
    /// The roster store this use case writes to.
    pub closed spec fn crew_store(&self) -> Arc<T1> {
        self.crew_switchboard_repository
    }

    /// The store this use case reads quests and crew sizes from.
    pub closed spec fn quest_store(&self) -> Arc<T2> {
        self.quest_viewing_repository
    }

    pub fn new(crew_switchboard_repository: Arc<T1>, quest_viewing_repository: Arc<T2>) -> (r:
        Self)
        ensures
            r.crew_store() == crew_switchboard_repository,
            r.quest_store() == quest_viewing_repository,
    {
        Self { crew_switchboard_repository, quest_viewing_repository }
    }

    /// Reads the quest and its crew size, decides with `join_step`, and stores the pair that
    /// it returns; the store's own result is handed on through `store_outcome`. Whatever the
    /// stores returned, the result is `join_run` of those reads and that write.
    pub fn join(&self, quest_id: i32, adventurer_id: i32) -> (r: Result<(), QuestError>)
        ensures
            r is Err ==> is_join_failure(r->Err_0),
            exists|
                quest: Result<QuestEntity, StoreError>,
                count: Result<i64, StoreError>,
                write: Result<(), StoreError>,
            | r == #[trigger] join_run(quest, count, write, quest_id, adventurer_id),
    {
        let quest = self.quest_viewing_repository.view_details(quest_id);
        if let Err(e) = &quest {
            let failure = QuestError::from_store_ref(e);
            assert(Err::<(), QuestError>(failure) == join_run(quest, Ok(0), Ok(()), quest_id, adventurer_id));
            return Err(failure);
        }
        let count = self.quest_viewing_repository.adventurers_counting_by_quest_id(quest_id);
        let ghost read_quest = quest;
        let ghost read_count = count;
        let junction = match join_step(quest, count, quest_id, adventurer_id) {
            Err(e) => {
                assert(Err::<(), QuestError>(e) == join_run(read_quest, read_count, Ok(()), quest_id, adventurer_id));
                return Err(e);
            },
            Ok(j) => j,
        };
        let write = self.crew_switchboard_repository.join(junction);
        let ghost written = write;
        let r = store_outcome(write);
        assert(r == join_run(read_quest, read_count, written, quest_id, adventurer_id));
        r
    }

    /// Reads the quest, decides with `leave_step`, and removes the pair that it returns; the
    /// store's own result is handed on through `store_outcome`. Whatever the stores returned,
    /// the result is `leave_run` of that read and that write.
    pub fn leave(&self, quest_id: i32, adventurer_id: i32) -> (r: Result<(), QuestError>)
        ensures
            r is Err ==> is_leave_failure(r->Err_0),
            exists|quest: Result<QuestEntity, StoreError>, write: Result<(), StoreError>|
                r == #[trigger] leave_run(quest, write, quest_id, adventurer_id),
    {
        let quest = self.quest_viewing_repository.view_details(quest_id);
        let ghost read_quest = quest;
        let junction = match leave_step(quest, quest_id, adventurer_id) {
            Err(e) => {
                assert(Err::<(), QuestError>(e) == leave_run(read_quest, Ok(()), quest_id, adventurer_id));
                return Err(e);
            },
            Ok(j) => j,
        };
        let write = self.crew_switchboard_repository.leave(junction);
        let ghost written = write;
        let r = store_outcome(write);
        assert(r == leave_run(read_quest, written, quest_id, adventurer_id));
        r
    }
}

} // verus!
