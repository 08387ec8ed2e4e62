use vstd::prelude::*;
use std::sync::Arc;
use crate::errors::{store_outcome, QuestError, StoreError};
use crate::lifecycle::{transition, transition_outcome, JourneyEvent};
use crate::models::QuestEntity;
use crate::quest_statuses::QuestStatuses;
use crate::repositories::{JourneyLedgerRepository, QuestViewingRepository};

verus! {

/// Lifecycle transitions of a quest, guarded by the transition table.
pub struct JourneyLedgerUseCase<T1, T2> where
    T1: JourneyLedgerRepository + Send + Sync,
    T2: QuestViewingRepository + Send + Sync,
 {
    journey_ledger_repository: Arc<T1>,
    quest_viewing_repository: Arc<T2>,
}

/// A failure that only a store can report.
pub open spec fn is_store_failure(e: QuestError) -> bool {
    e is NotFound || e is DuplicateMembership || e is Dependency
}

/// The status that `event` takes the quest to, given what the reads of the quest and of its
/// crew size returned; or the failure to report instead, in which case nothing is written.
pub open spec fn transition_decision(
    quest: Result<QuestEntity, StoreError>,
    count: Result<i64, StoreError>,
    event: JourneyEvent,
) -> Result<QuestStatuses, QuestError> {
    match quest {
        Err(e) => Err(QuestError::spec_from_store(e)),
        Ok(q) => match count {
            Err(e) => Err(QuestError::spec_from_store(e)),
            Ok(c) => transition_outcome(q.status, event, c as int),
        },
    }
}

/// What a transition reports, given its reads and, where the decision let it reach the store,
/// the store's result.
pub open spec fn transition_run(
    quest: Result<QuestEntity, StoreError>,
    count: Result<i64, StoreError>,
    event: JourneyEvent,
    write: Result<i32, StoreError>,
) -> Result<i32, QuestError> {
    match transition_decision(quest, count, event) {
        Err(e) => Err(e),
        Ok(_) => match write {
            Ok(id) => Ok(id),
            Err(e) => Err(QuestError::spec_from_store(e)),
        },
    }
}

/// Decides a lifecycle transition from the quest and crew size read for it.
/// Completing and failing do not depend on the crew size; for them `count` may be any `Ok`.
pub fn transition_step(
    quest: Result<QuestEntity, StoreError>,
    count: Result<i64, StoreError>,
    event: JourneyEvent,
) -> (r: Result<QuestStatuses, QuestError>)
    ensures
        r == transition_decision(quest, count, event),
{
    let quest = match quest {
        Err(e) => return Err(QuestError::from_store(e)),
        Ok(q) => q,
    };
    let count = match count {
        Err(e) => return Err(QuestError::from_store(e)),
        Ok(c) => c,
    };
    transition(quest.status, event, count)
}

impl<T1, T2> JourneyLedgerUseCase<T1, T2> where
    T1: JourneyLedgerRepository + Send + Sync,
    T2: QuestViewingRepository + Send + Sync,
 {
    /// The quest store this use case records transitions in.
    pub closed spec fn ledger_store(&self) -> Arc<T1> {
        self.journey_ledger_repository
    }

    /// The store this use case reads quests and crew sizes from.
    pub closed spec fn quest_store(&self) -> Arc<T2> {
        self.quest_viewing_repository
    }

    pub fn new(journey_ledger_repository: Arc<T1>, quest_viewing_repository: Arc<T2>) -> (r: Self)
        ensures
            r.ledger_store() == journey_ledger_repository,
            r.quest_store() == quest_viewing_repository,
    {
        Self { journey_ledger_repository, quest_viewing_repository }
    }

    /// Launches the quest: reads it and its crew size, decides with `transition_step`, and
    /// only on `Ok(InJourney)` asks the store to record the launch by `guild_commander_id`.
    /// The store's result, the quest's id or its failure, is handed on through
    /// `store_outcome`; the result is `transition_run` of those reads and that write.
    pub fn in_journey(&self, quest_id: i32, guild_commander_id: i32) -> (r: Result<i32, QuestError>)
        ensures
            r is Err ==> r->Err_0 is InvalidLaunchCondition || is_store_failure(r->Err_0),
            exists|
                quest: Result<QuestEntity, StoreError>,
                count: Result<i64, StoreError>,
                write: Result<i32, StoreError>,
            | r == #[trigger] transition_run(quest, count, JourneyEvent::Launch, write),
    {
        let quest = self.quest_viewing_repository.view_details(quest_id);
        if let Err(e) = &quest {
            let failure = QuestError::from_store_ref(e);
            assert(Err::<i32, QuestError>(failure) == transition_run(quest, Ok(0), JourneyEvent::Launch, Ok(0)));
            return Err(failure);
        }
        let count = self.quest_viewing_repository.adventurers_counting_by_quest_id(quest_id);
        let ghost read_quest = quest;
        let ghost read_count = count;
        match transition_step(quest, count, JourneyEvent::Launch) {
            Err(e) => {
                assert(Err::<i32, QuestError>(e) == transition_run(read_quest, read_count, JourneyEvent::Launch, Ok(0)));
                return Err(e);
            },
            Ok(_) => {},
        }
        let write = self.journey_ledger_repository.in_journey(quest_id, guild_commander_id);
        let ghost written = write;
        let r = store_outcome(write);
        assert(r == transition_run(read_quest, read_count, JourneyEvent::Launch, written));
        r
    }

    /// Completes the quest: reads it, decides with `transition_step`, and only on
    /// `Ok(Completed)` asks the store to record the completion by `guild_commander_id`.
    pub fn to_completed(&self, quest_id: i32, guild_commander_id: i32) -> (r: Result<
        i32,
        QuestError,
    >)
        ensures
            r is Err ==> r->Err_0 is InvalidCompletionCondition || is_store_failure(r->Err_0),
            exists|
                quest: Result<QuestEntity, StoreError>,
                count: Result<i64, StoreError>,
                write: Result<i32, StoreError>,
            | r == #[trigger] transition_run(quest, count, JourneyEvent::Complete, write),
    {
        let quest = self.quest_viewing_repository.view_details(quest_id);
        let count: Result<i64, StoreError> = Ok(0);
        let ghost read_quest = quest;
        let ghost read_count = count;
        match transition_step(quest, count, JourneyEvent::Complete) {
            Err(e) => {
                assert(Err::<i32, QuestError>(e) == transition_run(read_quest, read_count, JourneyEvent::Complete, Ok(0)));
                return Err(e);
            },
            Ok(_) => {},
        }
        let write = self.journey_ledger_repository.to_completed(quest_id, guild_commander_id);
        let ghost written = write;
        let r = store_outcome(write);
        assert(r == transition_run(read_quest, read_count, JourneyEvent::Complete, written));
        r
    }

    /// Fails the quest: reads it, decides with `transition_step`, and only on `Ok(Failed)`
    /// asks the store to record the failure by `guild_commander_id`.
    pub fn to_failed(&self, quest_id: i32, guild_commander_id: i32) -> (r: Result<i32, QuestError>)
        ensures
            r is Err ==> r->Err_0 is InvalidFailureCondition || is_store_failure(r->Err_0),
            exists|
                quest: Result<QuestEntity, StoreError>,
                count: Result<i64, StoreError>,
                write: Result<i32, StoreError>,
            | r == #[trigger] transition_run(quest, count, JourneyEvent::MarkFailed, write),
    {
        let quest = self.quest_viewing_repository.view_details(quest_id);
        let count: Result<i64, StoreError> = Ok(0);
        let ghost read_quest = quest;
        let ghost read_count = count;
        match transition_step(quest, count, JourneyEvent::MarkFailed) {
            Err(e) => {
                assert(Err::<i32, QuestError>(e) == transition_run(read_quest, read_count, JourneyEvent::MarkFailed, Ok(0)));
                return Err(e);
            },
            Ok(_) => {},
        }
        let write = self.journey_ledger_repository.to_failed(quest_id, guild_commander_id);
        let ghost written = write;
        let r = store_outcome(write);
        assert(r == transition_run(read_quest, read_count, JourneyEvent::MarkFailed, written));
        r
    }
}

} // verus!
