use std::sync::{Arc, Mutex};

use quests_tracker::crew_switchboard::CrewSwitchBoardUseCase;
use quests_tracker::errors::{QuestError, StoreError};
use quests_tracker::journey_ledger::JourneyLedgerUseCase;
use quests_tracker::models::{
    BoardCheckingFilter, QuestAdventurerJunction, QuestEntity, RegisterModel,
};
use quests_tracker::quest_statuses::QuestStatuses;
use quests_tracker::quest_viewing::QuestViewingUseCase;
use quests_tracker::registration::{AdventurersUsecase, GuildCommandersUseCase};
use quests_tracker::repositories::{
    AdventurersRepository, CrewSwitchBoardRepository, GuildCommandersRepository,
    JourneyLedgerRepository, QuestViewingRepository,
};

/// A store that holds quests and membership pairs in memory and logs every write.
struct MemoryStore {
    quests: Mutex<Vec<QuestEntity>>,
    pairs: Mutex<Vec<QuestAdventurerJunction>>,
    writes: Mutex<Vec<String>>,
    registered: Mutex<Vec<RegisterModel>>,
}

impl MemoryStore {
    fn with_quest(id: i32, status: QuestStatuses) -> Self {
        MemoryStore {
            quests: Mutex::new(vec![QuestEntity {
                id,
                name: format!("quest {}", id),
                description: None,
                status,
                guild_commander_id: 1,
            }]),
            pairs: Mutex::new(Vec::new()),
            writes: Mutex::new(Vec::new()),
            registered: Mutex::new(Vec::new()),
        }
    }

    fn set_status(&self, quest_id: i32, status: QuestStatuses) -> Result<i32, StoreError> {
        let mut quests = self.quests.lock().unwrap();
        match quests.iter_mut().find(|q| q.id == quest_id) {
            Some(q) => {
                q.status = status;
                Ok(quest_id)
            }
            None => Err(StoreError::NotFound),
        }
    }

    fn status(&self, quest_id: i32) -> QuestStatuses {
        self.quests.lock().unwrap().iter().find(|q| q.id == quest_id).unwrap().status
    }

    fn writes(&self) -> Vec<String> {
        self.writes.lock().unwrap().clone()
    }
}

impl QuestViewingRepository for MemoryStore {
    fn view_details(&self, quest_id: i32) -> Result<QuestEntity, StoreError> {
        let quests = self.quests.lock().unwrap();
        quests.iter().find(|q| q.id == quest_id).cloned().ok_or(StoreError::NotFound)
    }

    fn board_checking(&self, filter: &BoardCheckingFilter) -> Result<Vec<QuestEntity>, StoreError> {
        let quests = self.quests.lock().unwrap();
        Ok(quests
            .iter()
            .filter(|q| filter.status.map_or(true, |s| s == q.status))
            .cloned()
            .collect())
    }

    fn adventurers_counting_by_quest_id(&self, quest_id: i32) -> Result<i64, StoreError> {
        let pairs = self.pairs.lock().unwrap();
        Ok(pairs.iter().filter(|p| p.quest_id == quest_id).count() as i64)
    }
}

impl CrewSwitchBoardRepository for MemoryStore {
    fn join(&self, junction: QuestAdventurerJunction) -> Result<(), StoreError> {
        let mut pairs = self.pairs.lock().unwrap();
        if pairs.contains(&junction) {
            return Err(StoreError::DuplicateMembership);
        }
        pairs.push(junction);
        self.writes.lock().unwrap().push(format!("join {} {}", junction.quest_id, junction.adventurer_id));
        Ok(())
    }

    fn leave(&self, junction: QuestAdventurerJunction) -> Result<(), StoreError> {
        self.pairs.lock().unwrap().retain(|p| *p != junction);
        self.writes.lock().unwrap().push(format!("leave {} {}", junction.quest_id, junction.adventurer_id));
        Ok(())
    }
}

impl JourneyLedgerRepository for MemoryStore {
    fn in_journey(&self, quest_id: i32, _guild_commander_id: i32) -> Result<i32, StoreError> {
        self.set_status(quest_id, QuestStatuses::InJourney)
    }

    fn to_completed(&self, quest_id: i32, _guild_commander_id: i32) -> Result<i32, StoreError> {
        self.set_status(quest_id, QuestStatuses::Completed)
    }

    fn to_failed(&self, quest_id: i32, _guild_commander_id: i32) -> Result<i32, StoreError> {
        self.set_status(quest_id, QuestStatuses::Failed)
    }
}

impl AdventurersRepository for MemoryStore {
    fn register(&self, entity: RegisterModel) -> Result<i32, StoreError> {
        let mut stored = self.registered.lock().unwrap();
        stored.push(entity);
        Ok(stored.len() as i32)
    }
}

impl GuildCommandersRepository for MemoryStore {
    fn register(&self, entity: RegisterModel) -> Result<i32, StoreError> {
        let mut stored = self.registered.lock().unwrap();
        stored.push(entity);
        Ok(100 + stored.len() as i32)
    }
}

/// A store whose every call fails as an unreachable database would.
struct DownStore;

impl QuestViewingRepository for DownStore {
    fn view_details(&self, _quest_id: i32) -> Result<QuestEntity, StoreError> {
        Err(StoreError::Unavailable("connection refused".to_string()))
    }

    fn board_checking(&self, _filter: &BoardCheckingFilter) -> Result<Vec<QuestEntity>, StoreError> {
        Err(StoreError::Unavailable("connection refused".to_string()))
    }

    fn adventurers_counting_by_quest_id(&self, _quest_id: i32) -> Result<i64, StoreError> {
        Err(StoreError::Unavailable("connection refused".to_string()))
    }
}

#[test]
fn switchboard_guards_then_writes() {
    let store = Arc::new(MemoryStore::with_quest(1, QuestStatuses::Open));
    let crew = CrewSwitchBoardUseCase::new(Arc::clone(&store), Arc::clone(&store));
    for a in 1..=4 {
        assert_eq!(crew.join(1, a), Ok(()));
    }
    assert_eq!(crew.join(1, 5), Err(QuestError::QuestFull));
    assert_eq!(crew.join(1, 4), Err(QuestError::QuestFull));
    assert_eq!(crew.leave(1, 4), Ok(()));
    assert_eq!(crew.join(1, 3), Err(QuestError::DuplicateMembership));
    assert_eq!(crew.join(2, 3), Err(QuestError::NotFound));
    assert_eq!(
        store.writes(),
        vec!["join 1 1", "join 1 2", "join 1 3", "join 1 4", "leave 1 4"]
    );
}

#[test]
fn switchboard_refuses_closed_quest() {
    let store = Arc::new(MemoryStore::with_quest(1, QuestStatuses::Completed));
    let crew = CrewSwitchBoardUseCase::new(Arc::clone(&store), Arc::clone(&store));
    assert_eq!(crew.join(1, 1), Err(QuestError::QuestNotJoinable));
    assert_eq!(crew.leave(1, 1), Err(QuestError::QuestNotLeavable));
    assert!(store.writes().is_empty());
}

#[test]
fn ledger_runs_the_lifecycle() {
    let store = Arc::new(MemoryStore::with_quest(1, QuestStatuses::Open));
    let crew = CrewSwitchBoardUseCase::new(Arc::clone(&store), Arc::clone(&store));
    let ledger = JourneyLedgerUseCase::new(Arc::clone(&store), Arc::clone(&store));
    assert_eq!(ledger.in_journey(1, 1), Err(QuestError::InvalidLaunchCondition));
    assert_eq!(ledger.to_completed(1, 1), Err(QuestError::InvalidCompletionCondition));
    assert_eq!(ledger.to_failed(1, 1), Err(QuestError::InvalidFailureCondition));
    assert_eq!(crew.join(1, 7), Ok(()));
    assert_eq!(ledger.in_journey(1, 1), Ok(1));
    assert_eq!(store.status(1), QuestStatuses::InJourney);
    assert_eq!(ledger.to_failed(1, 1), Ok(1));
    assert_eq!(store.status(1), QuestStatuses::Failed);
    assert_eq!(ledger.in_journey(1, 1), Ok(1));
    assert_eq!(ledger.to_completed(1, 1), Ok(1));
    assert_eq!(store.status(1), QuestStatuses::Completed);
    assert_eq!(ledger.in_journey(1, 1), Err(QuestError::InvalidLaunchCondition));
}

#[test]
fn viewer_adds_live_count() {
    let store = Arc::new(MemoryStore::with_quest(1, QuestStatuses::Open));
    store.quests.lock().unwrap().push(QuestEntity {
        id: 2,
        name: "second".to_string(),
        description: Some("two".to_string()),
        status: QuestStatuses::Failed,
        guild_commander_id: 3,
    });
    let crew = CrewSwitchBoardUseCase::new(Arc::clone(&store), Arc::clone(&store));
    let viewer = QuestViewingUseCase::new(Arc::clone(&store));
    assert_eq!(crew.join(2, 1), Ok(()));
    assert_eq!(crew.join(2, 2), Ok(()));
    let model = viewer.view_details(2).unwrap();
    assert_eq!(model.adventurers_count, 2);
    assert_eq!(model.status, QuestStatuses::Failed);
    assert_eq!(model.description, Some("two".to_string()));
    assert_eq!(viewer.view_details(3), Err(QuestError::NotFound));
    let all = viewer
        .board_checking(&BoardCheckingFilter { name: None, status: None })
        .unwrap();
    assert_eq!(all.iter().map(|m| (m.id, m.adventurers_count)).collect::<Vec<_>>(), vec![(1, 0), (2, 2)]);
    let failed = viewer
        .board_checking(&BoardCheckingFilter { name: None, status: Some(QuestStatuses::Failed) })
        .unwrap();
    assert_eq!(failed.len(), 1);
    assert_eq!(failed[0].name, "second");
    assert_eq!(failed[0].guild_commander_id, 3);
}

#[test]
fn store_failures_are_surfaced() {
    let down = Arc::new(DownStore);
    let viewer = QuestViewingUseCase::new(Arc::clone(&down));
    let expected = Err(QuestError::Dependency("connection refused".to_string()));
    assert_eq!(viewer.view_details(1), expected);
    assert_eq!(
        viewer.board_checking(&BoardCheckingFilter { name: None, status: None }),
        Err(QuestError::Dependency("connection refused".to_string()))
    );
}

#[test]
fn registration_stores_the_hash() {
    let store = Arc::new(MemoryStore::with_quest(1, QuestStatuses::Open));
    let adventurers = AdventurersUsecase::new(Arc::clone(&store));
    let commanders = GuildCommandersUseCase::new(Arc::clone(&store));
    let model = RegisterModel {
        username: "ayla".to_string(),
        password: "plain".to_string(),
        display_name: "Ayla".to_string(),
    };
    assert_eq!(adventurers.register(model.clone(), "hashed-1".to_string()), Ok(1));
    assert_eq!(commanders.register(model, "hashed-2".to_string()), Ok(102));
    let stored = store.registered.lock().unwrap();
    assert_eq!(stored[0].password, "hashed-1");
    assert_eq!(stored[1].password, "hashed-2");
    assert_eq!(stored[0].username, "ayla");
}

#[test]
fn use_case_scenario_full_roster_to_completion() {
    let store = Arc::new(MemoryStore::with_quest(1, QuestStatuses::Open));
    let crew = CrewSwitchBoardUseCase::new(Arc::clone(&store), Arc::clone(&store));
    let ledger = JourneyLedgerUseCase::new(Arc::clone(&store), Arc::clone(&store));
    let viewer = QuestViewingUseCase::new(Arc::clone(&store));
    for a in 1..=4 {
        assert_eq!(crew.join(1, a), Ok(()));
    }
    assert_eq!(viewer.view_details(1).unwrap().adventurers_count, 4);
    assert_eq!(crew.join(1, 5), Err(QuestError::QuestFull));
    assert_eq!(ledger.in_journey(1, 1), Ok(1));
    assert_eq!(store.status(1), QuestStatuses::InJourney);
    assert_eq!(crew.join(1, 5), Err(QuestError::QuestFull));
    assert_eq!(ledger.to_completed(1, 1), Ok(1));
    assert_eq!(store.status(1), QuestStatuses::Completed);
    assert_eq!(crew.join(1, 5), Err(QuestError::QuestFull));
    assert_eq!(crew.leave(1, 1), Err(QuestError::QuestNotLeavable));
    assert_eq!(ledger.in_journey(1, 1), Err(QuestError::InvalidLaunchCondition));
    assert_eq!(viewer.view_details(1).unwrap().adventurers_count, 4);
}

#[test]
fn use_case_launch_of_empty_quest_fails() {
    let store = Arc::new(MemoryStore::with_quest(1, QuestStatuses::Open));
    let ledger = JourneyLedgerUseCase::new(Arc::clone(&store), Arc::clone(&store));
    assert_eq!(ledger.in_journey(1, 1), Err(QuestError::InvalidLaunchCondition));
    assert_eq!(store.status(1), QuestStatuses::Open);
}

#[test]
fn use_case_leave_of_absent_member_and_round_trip() {
    let store = Arc::new(MemoryStore::with_quest(1, QuestStatuses::Open));
    let crew = CrewSwitchBoardUseCase::new(Arc::clone(&store), Arc::clone(&store));
    let viewer = QuestViewingUseCase::new(Arc::clone(&store));
    assert_eq!(crew.join(1, 1), Ok(()));
    assert_eq!(crew.leave(1, 9), Ok(()));
    assert_eq!(viewer.view_details(1).unwrap().adventurers_count, 1);
    assert_eq!(crew.join(1, 2), Ok(()));
    assert_eq!(crew.leave(1, 2), Ok(()));
    assert_eq!(crew.leave(1, 2), Ok(()));
    assert_eq!(viewer.view_details(1).unwrap().adventurers_count, 1);
}

/// A store whose quest rows read fine but whose crew counts fail from the second quest on.
struct FlakyCounts;

impl QuestViewingRepository for FlakyCounts {
    fn view_details(&self, quest_id: i32) -> Result<QuestEntity, StoreError> {
        Err(if quest_id > 0 { StoreError::NotFound } else { StoreError::Unavailable("x".to_string()) })
    }

    fn board_checking(&self, _filter: &BoardCheckingFilter) -> Result<Vec<QuestEntity>, StoreError> {
        Ok((1..=3)
            .map(|id| QuestEntity {
                id,
                name: format!("q{}", id),
                description: None,
                status: QuestStatuses::Open,
                guild_commander_id: 1,
            })
            .collect())
    }

    fn adventurers_counting_by_quest_id(&self, quest_id: i32) -> Result<i64, StoreError> {
        if quest_id >= 2 {
            Err(StoreError::Unavailable(format!("count {} failed", quest_id)))
        } else {
            Ok(1)
        }
    }
}

#[test]
fn board_checking_stops_at_first_failed_count() {
    let viewer = QuestViewingUseCase::new(Arc::new(FlakyCounts));
    assert_eq!(
        viewer.board_checking(&BoardCheckingFilter { name: None, status: None }),
        Err(QuestError::Dependency("count 2 failed".to_string()))
    );
    assert_eq!(viewer.view_details(5), Err(QuestError::NotFound));
}
