use vstd::prelude::*;

verus! {

/// Broad class of a failure, as seen by a caller deciding how to react.
#[derive(Debug, Clone, Copy, PartialEq, Eq, Structural)]
pub enum ErrorKind {
    NotFound,
    CapacityExceeded,
    IllegalTransition,
    Conflict,
    Dependency,
}

/// Failure reported by a persistence collaborator.
#[derive(Debug, Clone, PartialEq, Eq)]
pub enum StoreError {
    /// The referenced quest or participant does not exist.
    NotFound,
    /// The membership pair is already stored.
    DuplicateMembership,
    /// The store itself failed (connection loss and the like); the text is its own.
    Unavailable(String),
}

/// Failure of a core operation.
#[derive(Debug, Clone, PartialEq, Eq)]
pub enum QuestError {
    NotFound,
    QuestFull,
    QuestNotJoinable,
    QuestNotLeavable,
    InvalidLaunchCondition,
    InvalidCompletionCondition,
    InvalidFailureCondition,
    DuplicateMembership,
    Dependency(String),
}

impl QuestError {
    pub open spec fn spec_kind(self) -> ErrorKind {
        match self {
            QuestError::NotFound => ErrorKind::NotFound,
            QuestError::QuestFull => ErrorKind::CapacityExceeded,
            QuestError::QuestNotJoinable => ErrorKind::IllegalTransition,
            QuestError::QuestNotLeavable => ErrorKind::IllegalTransition,
            QuestError::InvalidLaunchCondition => ErrorKind::IllegalTransition,
            QuestError::InvalidCompletionCondition => ErrorKind::IllegalTransition,
            QuestError::InvalidFailureCondition => ErrorKind::IllegalTransition,
            QuestError::DuplicateMembership => ErrorKind::Conflict,
            QuestError::Dependency(_) => ErrorKind::Dependency,
        }
    }

    /// The class this failure belongs to.
    pub fn kind(&self) -> (r: ErrorKind)
        ensures
            r == self.spec_kind(),
    {
        match self {
            QuestError::NotFound => ErrorKind::NotFound,
            QuestError::QuestFull => ErrorKind::CapacityExceeded,
            QuestError::QuestNotJoinable => ErrorKind::IllegalTransition,
            QuestError::QuestNotLeavable => ErrorKind::IllegalTransition,
            QuestError::InvalidLaunchCondition => ErrorKind::IllegalTransition,
            QuestError::InvalidCompletionCondition => ErrorKind::IllegalTransition,
            QuestError::InvalidFailureCondition => ErrorKind::IllegalTransition,
            QuestError::DuplicateMembership => ErrorKind::Conflict,
            QuestError::Dependency(_) => ErrorKind::Dependency,
        }
    }

    pub open spec fn spec_from_store(e: StoreError) -> QuestError {
        match e {
            StoreError::NotFound => QuestError::NotFound,
            StoreError::DuplicateMembership => QuestError::DuplicateMembership,
            StoreError::Unavailable(m) => QuestError::Dependency(m),
        }
    }

    /// A store failure surfaced unchanged to the caller.
    /// As `from_store`, for a failure that stays with its owner.
    pub fn from_store_ref(e: &StoreError) -> (r: QuestError)
        ensures
            r == Self::spec_from_store(*e),
    {
        match e {
            StoreError::NotFound => QuestError::NotFound,
            StoreError::DuplicateMembership => QuestError::DuplicateMembership,
            StoreError::Unavailable(m) => QuestError::Dependency(m.clone()),
        }
    }

    pub fn from_store(e: StoreError) -> (r: QuestError)
        ensures
            r == Self::spec_from_store(e),
    {
        match e {
            StoreError::NotFound => QuestError::NotFound,
            StoreError::DuplicateMembership => QuestError::DuplicateMembership,
            StoreError::Unavailable(m) => QuestError::Dependency(m),
        }
    }
}

/// A store's result, with its failure surfaced unchanged as a core failure.
pub fn store_outcome<T>(r: Result<T, StoreError>) -> (out: Result<T, QuestError>)
    ensures
        r is Ok ==> out == Ok::<T, QuestError>(r->Ok_0),
        r is Err ==> out == Err::<T, QuestError>(QuestError::spec_from_store(r->Err_0)),
{
    match r {
        Ok(v) => Ok(v),
        Err(e) => Err(QuestError::from_store(e)),
    }
}

} // verus!
