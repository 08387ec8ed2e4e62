use vstd::prelude::*;
use crate::errors::QuestError;
use crate::quest_statuses::QuestStatuses;

verus! {

/// Most participants a quest's crew may hold at once.
pub const MAX_ADVENTURERS_PER_QUEST: i64 = 4;

/// A lifecycle event driven by a quest's commander.
#[derive(Debug, Clone, Copy, PartialEq, Eq, Structural)]
pub enum JourneyEvent {
    Launch,
    Complete,
    MarkFailed,
}

/// Outcome of a join attempt on a quest in `status` whose crew holds `count` members.
/// Capacity is checked before status.
pub open spec fn join_outcome(status: QuestStatuses, count: int) -> Result<(), QuestError> {
    if count >= MAX_ADVENTURERS_PER_QUEST {
        Err(QuestError::QuestFull)
    } else if !status.spec_is_joinable() {
        Err(QuestError::QuestNotJoinable)
    } else {
        Ok(())
    }
}

/// Outcome of a leave attempt on a quest in `status`.
pub open spec fn leave_outcome(status: QuestStatuses) -> Result<(), QuestError> {
    if status.spec_is_joinable() {
        Ok(())
    } else {
        Err(QuestError::QuestNotLeavable)
    }
}

/// The transition table: the status reached from `status` on `event`, for a crew of `count`.
pub open spec fn transition_outcome(status: QuestStatuses, event: JourneyEvent, count: int)
    -> Result<QuestStatuses, QuestError>
{
    match event {
        JourneyEvent::Launch => {
            if status.spec_is_joinable() && 0 < count <= MAX_ADVENTURERS_PER_QUEST {
                Ok(QuestStatuses::InJourney)
            } else {
                Err(QuestError::InvalidLaunchCondition)
            }
        },
        JourneyEvent::Complete => {
            if status == QuestStatuses::InJourney {
                Ok(QuestStatuses::Completed)
            } else {
                Err(QuestError::InvalidCompletionCondition)
            }
        },
        JourneyEvent::MarkFailed => {
            if status == QuestStatuses::InJourney {
                Ok(QuestStatuses::Failed)
            } else {
                Err(QuestError::InvalidFailureCondition)
            }
        },
    }
}

/// Decides whether a participant may join a quest in `status` with `count` members.
pub fn check_join(status: QuestStatuses, count: i64) -> (r: Result<(), QuestError>)
    ensures
        r == join_outcome(status, count as int),
{
    if count >= MAX_ADVENTURERS_PER_QUEST {
        return Err(QuestError::QuestFull);
    }
    if !status.is_joinable() {
        return Err(QuestError::QuestNotJoinable);
    }
    Ok(())
}

/// Decides whether a participant may leave a quest in `status`.
pub fn check_leave(status: QuestStatuses) -> (r: Result<(), QuestError>)
    ensures
        r == leave_outcome(status),
{
    if status.is_joinable() {
        Ok(())
    } else {
        Err(QuestError::QuestNotLeavable)
    }
}

/// Applies the transition table to a quest in `status` with `count` members.
pub fn transition(status: QuestStatuses, event: JourneyEvent, count: i64) -> (r: Result<
    QuestStatuses,
    QuestError,
>)
    ensures
        r == transition_outcome(status, event, count as int),
{
    match event {
        JourneyEvent::Launch => {
            if status.is_joinable() && 0 < count && count <= MAX_ADVENTURERS_PER_QUEST {
                Ok(QuestStatuses::InJourney)
            } else {
                Err(QuestError::InvalidLaunchCondition)
            }
        },
        JourneyEvent::Complete => {
            if status == QuestStatuses::InJourney {
                Ok(QuestStatuses::Completed)
            } else {
                Err(QuestError::InvalidCompletionCondition)
            }
        },
        JourneyEvent::MarkFailed => {
            if status == QuestStatuses::InJourney {
                Ok(QuestStatuses::Failed)
            } else {
                Err(QuestError::InvalidFailureCondition)
            }
        },
    }
}

} // verus!
