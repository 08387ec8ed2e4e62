use vstd::prelude::*;
use crate::crew_switchboard::{join_decision, leave_decision};
use crate::errors::{ErrorKind, QuestError, StoreError};
use crate::journey_ledger::transition_decision;
use crate::models::{QuestAdventurerJunction, QuestEntity};
use crate::lifecycle::{JourneyEvent, MAX_ADVENTURERS_PER_QUEST};
use crate::quest_board::{after_join, after_leave, join_result, leave_result, transition_result};
use crate::quest_statuses::QuestStatuses;

verus! {

/// A join on a quest whose crew already holds four members fails with a capacity error,
/// whatever the quest's status.
pub proof fn lemma_full_quest_rejects_join(
    statuses: Map<i32, QuestStatuses>,
    crews: Map<i32, Set<i32>>,
    q: i32,
    a: i32,
)
    requires
        statuses.dom().contains(q),
        crews[q].len() == MAX_ADVENTURERS_PER_QUEST,
    ensures
        join_result(statuses, crews, q, a) == Err::<(), QuestError>(QuestError::QuestFull),
        QuestError::QuestFull.spec_kind() == ErrorKind::CapacityExceeded,
{
}

/// On a quest that is InJourney or Completed, a leave fails as an illegal transition,
/// and so does a join while the crew still has room.
pub proof fn lemma_closed_quest_rejects_crew_changes(
    statuses: Map<i32, QuestStatuses>,
    crews: Map<i32, Set<i32>>,
    q: i32,
    a: i32,
)
    requires
        statuses.dom().contains(q),
        statuses[q] == QuestStatuses::InJourney || statuses[q] == QuestStatuses::Completed,
    ensures
        leave_result(statuses, q) is Err,
        leave_result(statuses, q)->Err_0.spec_kind() == ErrorKind::IllegalTransition,
        crews[q].len() < MAX_ADVENTURERS_PER_QUEST ==> join_result(statuses, crews, q, a) is Err,
        crews[q].len() < MAX_ADVENTURERS_PER_QUEST ==> join_result(
            statuses,
            crews,
            q,
            a,
        )->Err_0.spec_kind() == ErrorKind::IllegalTransition,
{
}

/// A launch succeeds exactly when the quest is Open or Failed and its crew holds one to four
/// members, and then the quest is InJourney; otherwise it fails as an illegal transition.
pub proof fn lemma_launch_guard(
    statuses: Map<i32, QuestStatuses>,
    crews: Map<i32, Set<i32>>,
    q: i32,
)
    requires
        statuses.dom().contains(q),
    ensures
        transition_result(statuses, crews, q, JourneyEvent::Launch) is Ok <==> (
        statuses[q].spec_is_joinable() && 1 <= crews[q].len() <= MAX_ADVENTURERS_PER_QUEST),
        transition_result(statuses, crews, q, JourneyEvent::Launch) is Ok ==> transition_result(
            statuses,
            crews,
            q,
            JourneyEvent::Launch,
        )->Ok_0 == QuestStatuses::InJourney,
        transition_result(statuses, crews, q, JourneyEvent::Launch) is Err ==> transition_result(
            statuses,
            crews,
            q,
            JourneyEvent::Launch,
        )->Err_0.spec_kind() == ErrorKind::IllegalTransition,
{
}

/// Completing or failing a quest succeeds exactly when it is InJourney, reaching Completed or
/// Failed; otherwise it fails as an illegal transition.
pub proof fn lemma_finish_guard(
    statuses: Map<i32, QuestStatuses>,
    crews: Map<i32, Set<i32>>,
    q: i32,
)
    requires
        statuses.dom().contains(q),
    ensures
        transition_result(statuses, crews, q, JourneyEvent::Complete) is Ok <==> statuses[q]
            == QuestStatuses::InJourney,
        transition_result(statuses, crews, q, JourneyEvent::MarkFailed) is Ok <==> statuses[q]
            == QuestStatuses::InJourney,
        transition_result(statuses, crews, q, JourneyEvent::Complete) is Ok ==> transition_result(
            statuses,
            crews,
            q,
            JourneyEvent::Complete,
        )->Ok_0 == QuestStatuses::Completed,
        transition_result(statuses, crews, q, JourneyEvent::MarkFailed) is Ok ==> transition_result(
            statuses,
            crews,
            q,
            JourneyEvent::MarkFailed,
        )->Ok_0 == QuestStatuses::Failed,
        transition_result(statuses, crews, q, JourneyEvent::Complete) is Err ==> transition_result(
            statuses,
            crews,
            q,
            JourneyEvent::Complete,
        )->Err_0.spec_kind() == ErrorKind::IllegalTransition,
        transition_result(statuses, crews, q, JourneyEvent::MarkFailed) is Err
            ==> transition_result(
            statuses,
            crews,
            q,
            JourneyEvent::MarkFailed,
        )->Err_0.spec_kind() == ErrorKind::IllegalTransition,
{
}

/// Leaving a quest one is not on succeeds, where leaving is allowed at all, and changes no crew.
pub proof fn lemma_leave_absent_is_noop(
    statuses: Map<i32, QuestStatuses>,
    crews: Map<i32, Set<i32>>,
    q: i32,
    a: i32,
)
    requires
        statuses.dom().contains(q),
        crews.dom().contains(q),
        statuses[q].spec_is_joinable(),
        !crews[q].contains(a),
    ensures
        leave_result(statuses, q) is Ok,
        after_leave(crews, q, a) == crews,
        after_leave(crews, q, a)[q].len() == crews[q].len(),
{
    assert(crews[q].remove(a) =~= crews[q]);
    assert(after_leave(crews, q, a) =~= crews);
}

/// A join that succeeds, followed by a leave of the same adventurer from the same quest,
/// succeeds and restores every crew, and so the quest's participant count.
pub proof fn lemma_join_leave_round_trip(
    statuses: Map<i32, QuestStatuses>,
    crews: Map<i32, Set<i32>>,
    q: i32,
    a: i32,
)
    requires
        crews.dom().contains(q),
        join_result(statuses, crews, q, a) is Ok,
    ensures
        leave_result(statuses, q) is Ok,
        after_leave(after_join(crews, q, a), q, a) == crews,
        after_leave(after_join(crews, q, a), q, a)[q].len() == crews[q].len(),
{
    assert(crews[q].insert(a).remove(a) =~= crews[q]);
    assert(after_leave(after_join(crews, q, a), q, a) =~= crews);
}

/// For the use cases, given the quest and crew size they read: a crew of four or more fails
/// a join with a capacity error, whatever the status; a quest InJourney or Completed fails a
/// join with room left, and every leave, as an illegal transition. A failed decision hands
/// nothing to the roster store.
pub proof fn lemma_crew_decisions_guard(
    quest: QuestEntity,
    count: i64,
    quest_id: i32,
    adventurer_id: i32,
)
    ensures
        count >= MAX_ADVENTURERS_PER_QUEST ==> join_decision(
            Ok(quest),
            Ok(count),
            quest_id,
            adventurer_id,
        ) == Err::<QuestAdventurerJunction, QuestError>(QuestError::QuestFull),
        !quest.status.spec_is_joinable() && count < MAX_ADVENTURERS_PER_QUEST ==> join_decision(
            Ok(quest),
            Ok(count),
            quest_id,
            adventurer_id,
        ) == Err::<QuestAdventurerJunction, QuestError>(QuestError::QuestNotJoinable),
        !quest.status.spec_is_joinable() ==> leave_decision(Ok(quest), quest_id, adventurer_id)
            == Err::<QuestAdventurerJunction, QuestError>(QuestError::QuestNotLeavable),
        QuestError::QuestNotJoinable.spec_kind() == ErrorKind::IllegalTransition,
        QuestError::QuestNotLeavable.spec_kind() == ErrorKind::IllegalTransition,
{
}

/// For the use cases: a leave on an Open or Failed quest hands the given pair to the roster
/// store, whether or not it is on the crew; and a join that succeeds hands over the very pair
/// that a later leave of the same adventurer from the same quest removes.
pub proof fn lemma_join_leave_same_pair(
    quest: QuestEntity,
    count: Result<i64, StoreError>,
    quest_id: i32,
    adventurer_id: i32,
)
    ensures
        quest.status.spec_is_joinable() ==> leave_decision(Ok(quest), quest_id, adventurer_id)
            == Ok::<QuestAdventurerJunction, QuestError>(
            QuestAdventurerJunction { adventurer_id, quest_id },
        ),
        join_decision(Ok(quest), count, quest_id, adventurer_id) is Ok ==> leave_decision(
            Ok(quest),
            quest_id,
            adventurer_id,
        ) == join_decision(Ok(quest), count, quest_id, adventurer_id),
{
}

/// For the use cases, given the quest and crew size they read: a launch is decided InJourney
/// exactly when the quest is Open or Failed with one to four members, and completing or
/// failing exactly when it is InJourney; every other decision is an illegal transition, and
/// only a successful decision leads to the store's write.
pub proof fn lemma_transition_decisions(quest: QuestEntity, count: i64)
    ensures
        transition_decision(Ok(quest), Ok(count), JourneyEvent::Launch) is Ok <==> (
        quest.status.spec_is_joinable() && 1 <= count <= MAX_ADVENTURERS_PER_QUEST),
        transition_decision(Ok(quest), Ok(count), JourneyEvent::Complete) is Ok <==> quest.status
            == QuestStatuses::InJourney,
        transition_decision(Ok(quest), Ok(count), JourneyEvent::MarkFailed) is Ok <==> quest.status
            == QuestStatuses::InJourney,
        transition_decision(Ok(quest), Ok(count), JourneyEvent::Launch) is Err
            ==> transition_decision(Ok(quest), Ok(count), JourneyEvent::Launch)->Err_0.spec_kind()
            == ErrorKind::IllegalTransition,
        transition_decision(Ok(quest), Ok(count), JourneyEvent::Complete) is Err
            ==> transition_decision(Ok(quest), Ok(count), JourneyEvent::Complete)->Err_0.spec_kind()
            == ErrorKind::IllegalTransition,
        transition_decision(Ok(quest), Ok(count), JourneyEvent::MarkFailed) is Err
            ==> transition_decision(
            Ok(quest),
            Ok(count),
            JourneyEvent::MarkFailed,
        )->Err_0.spec_kind() == ErrorKind::IllegalTransition,
{
}

} // verus!
