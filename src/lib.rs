//! Quest lifecycle and crew roster rules: who may join or leave a quest, and when a quest
//! may be launched, completed or failed.

pub mod crew_switchboard;
pub mod errors;
pub mod journey_ledger;
pub mod laws;
pub mod lifecycle;
pub mod models;
pub mod quest_board;
pub mod quest_statuses;
pub mod quest_viewing;
pub mod registration;
pub mod repositories;
