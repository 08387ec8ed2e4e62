use vstd::prelude::*;

verus! {

/// Lifecycle status of a quest.
#[derive(Debug, Clone, Copy, PartialEq, Eq, Structural)]
pub enum QuestStatuses {
    Open,
    InJourney,
    Completed,
    Failed,
}

impl QuestStatuses {
    /// A quest accepts new members, and lets members go, only while open or failed.
    pub open spec fn spec_is_joinable(self) -> bool {
        self == QuestStatuses::Open || self == QuestStatuses::Failed
    }

    pub fn is_joinable(&self) -> (r: bool)
        ensures
            r == self.spec_is_joinable(),
    {
        match self {
            QuestStatuses::Open | QuestStatuses::Failed => true,
            _ => false,
        }
    }
}

} // verus!
