use quests_tracker::errors::{ErrorKind, QuestError};
use quests_tracker::models::QuestView;
use quests_tracker::quest_board::QuestBoard;
use quests_tracker::quest_statuses::QuestStatuses;

fn open_quest(id: i32) -> QuestBoard {
    let mut board = QuestBoard::new();
    assert!(board.add_quest(id));
    board
}

#[test]
fn full_roster_then_journey_then_completion() {
    let q = 10;
    let mut board = open_quest(q);
    for a in 1..=4 {
        assert_eq!(board.join(q, a), Ok(()));
    }
    assert_eq!(board.count_participants(q), 4);
    let full = board.join(q, 5);
    assert_eq!(full, Err(QuestError::QuestFull));
    assert_eq!(full.unwrap_err().kind(), ErrorKind::CapacityExceeded);
    assert_eq!(board.launch(q), Ok(QuestStatuses::InJourney));
    assert_eq!(
        board.view_details(q),
        Ok(QuestView { status: QuestStatuses::InJourney, participant_count: 4 })
    );
    // Capacity is checked before status, so the full crew still reports it.
    assert_eq!(board.join(q, 5), Err(QuestError::QuestFull));
    assert_eq!(board.leave(q, 1), Err(QuestError::QuestNotLeavable));
    assert_eq!(board.complete(q), Ok(QuestStatuses::Completed));
    let join = board.join(q, 5).unwrap_err();
    let leave = board.leave(q, 1).unwrap_err();
    let launch = board.launch(q).unwrap_err();
    assert_eq!(leave.kind(), ErrorKind::IllegalTransition);
    assert_eq!(launch, QuestError::InvalidLaunchCondition);
    assert_eq!(launch.kind(), ErrorKind::IllegalTransition);
    assert_eq!(join, QuestError::QuestFull);
    assert_eq!(board.count_participants(q), 4);
}

#[test]
fn journey_with_room_rejects_join_as_illegal() {
    let q = 3;
    let mut board = open_quest(q);
    assert_eq!(board.join(q, 1), Ok(()));
    assert_eq!(board.launch(q), Ok(QuestStatuses::InJourney));
    let e = board.join(q, 2).unwrap_err();
    assert_eq!(e, QuestError::QuestNotJoinable);
    assert_eq!(e.kind(), ErrorKind::IllegalTransition);
    assert_eq!(board.complete(q), Ok(QuestStatuses::Completed));
    let e = board.join(q, 2).unwrap_err();
    assert_eq!(e, QuestError::QuestNotJoinable);
    assert_eq!(e.kind(), ErrorKind::IllegalTransition);
    assert_eq!(board.leave(q, 1), Err(QuestError::QuestNotLeavable));
}

#[test]
fn launch_of_empty_quest_fails() {
    let q = 1;
    let mut board = open_quest(q);
    let e = board.launch(q).unwrap_err();
    assert_eq!(e, QuestError::InvalidLaunchCondition);
    assert_eq!(e.kind(), ErrorKind::IllegalTransition);
    assert_eq!(board.view_details(q).unwrap().status, QuestStatuses::Open);
}

#[test]
fn crew_never_exceeds_four() {
    let q = 2;
    let mut board = open_quest(q);
    for a in 0..10 {
        let _ = board.join(q, a);
        assert!(board.count_participants(q) <= 4);
        if a % 3 == 0 {
            let _ = board.leave(q, a - 1);
            assert!(board.count_participants(q) <= 4);
        }
    }
    assert_eq!(board.count_participants(q), 4);
}

#[test]
fn complete_and_fail_need_journey() {
    let q = 5;
    let mut board = open_quest(q);
    assert_eq!(board.complete(q), Err(QuestError::InvalidCompletionCondition));
    assert_eq!(board.fail_quest(q), Err(QuestError::InvalidFailureCondition));
    assert_eq!(board.join(q, 1), Ok(()));
    assert_eq!(board.launch(q), Ok(QuestStatuses::InJourney));
    assert_eq!(board.launch(q), Err(QuestError::InvalidLaunchCondition));
    assert_eq!(board.fail_quest(q), Ok(QuestStatuses::Failed));
    assert_eq!(board.complete(q), Err(QuestError::InvalidCompletionCondition));
    assert_eq!(
        board.fail_quest(q).unwrap_err().kind(),
        ErrorKind::IllegalTransition
    );
}

#[test]
fn failed_quest_can_be_rejoined_and_relaunched() {
    let q = 6;
    let mut board = open_quest(q);
    assert_eq!(board.join(q, 1), Ok(()));
    assert_eq!(board.launch(q), Ok(QuestStatuses::InJourney));
    assert_eq!(board.fail_quest(q), Ok(QuestStatuses::Failed));
    assert_eq!(board.join(q, 2), Ok(()));
    assert_eq!(board.leave(q, 1), Ok(()));
    assert_eq!(board.count_participants(q), 1);
    assert_eq!(board.launch(q), Ok(QuestStatuses::InJourney));
}

#[test]
fn leave_of_absent_member_changes_nothing() {
    let q = 7;
    let mut board = open_quest(q);
    assert_eq!(board.join(q, 1), Ok(()));
    assert_eq!(board.leave(q, 99), Ok(()));
    assert_eq!(board.count_participants(q), 1);
    assert_eq!(board.leave(q, 1), Ok(()));
    assert_eq!(board.leave(q, 1), Ok(()));
    assert_eq!(board.count_participants(q), 0);
}

#[test]
fn join_then_leave_restores_count() {
    let q = 8;
    let mut board = open_quest(q);
    assert_eq!(board.join(q, 1), Ok(()));
    assert_eq!(board.join(q, 2), Ok(()));
    let before = board.count_participants(q);
    assert_eq!(board.join(q, 3), Ok(()));
    assert_eq!(board.count_participants(q), before + 1);
    assert_eq!(board.leave(q, 3), Ok(()));
    assert_eq!(board.count_participants(q), before);
}

#[test]
fn duplicate_join_is_a_conflict() {
    let q = 9;
    let mut board = open_quest(q);
    assert_eq!(board.join(q, 1), Ok(()));
    let e = board.join(q, 1).unwrap_err();
    assert_eq!(e, QuestError::DuplicateMembership);
    assert_eq!(e.kind(), ErrorKind::Conflict);
    assert_eq!(board.count_participants(q), 1);
}

#[test]
fn unknown_quest_is_not_found() {
    let mut board = open_quest(1);
    assert_eq!(board.join(2, 1), Err(QuestError::NotFound));
    assert_eq!(board.leave(2, 1), Err(QuestError::NotFound));
    assert_eq!(board.launch(2), Err(QuestError::NotFound));
    assert_eq!(board.complete(2), Err(QuestError::NotFound));
    assert_eq!(board.fail_quest(2), Err(QuestError::NotFound));
    assert_eq!(board.view_details(2), Err(QuestError::NotFound));
    assert_eq!(board.count_participants(2), 0);
    assert_eq!(QuestError::NotFound.kind(), ErrorKind::NotFound);
}

#[test]
fn quest_ids_are_unique_and_independent() {
    let mut board = open_quest(1);
    assert!(!board.add_quest(1));
    assert!(board.add_quest(2));
    assert_eq!(board.join(1, 7), Ok(()));
    assert_eq!(board.join(2, 7), Ok(()));
    assert_eq!(board.join(2, 8), Ok(()));
    assert_eq!(board.count_participants(1), 1);
    assert_eq!(board.count_participants(2), 2);
    assert_eq!(board.launch(1), Ok(QuestStatuses::InJourney));
    assert_eq!(board.view_details(2).unwrap().status, QuestStatuses::Open);
}
