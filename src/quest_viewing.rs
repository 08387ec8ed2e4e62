use vstd::prelude::*;
use std::sync::Arc;
use crate::errors::{store_outcome, QuestError, StoreError};
use crate::journey_ledger::is_store_failure;
use crate::models::{BoardCheckingFilter, QuestEntity, QuestModel};
use crate::repositories::QuestViewingRepository;

verus! {

/// Read side: quests with their live crew size.
pub struct QuestViewingUseCase<T> where T: QuestViewingRepository + Send + Sync {
    quest_viewing_repository: Arc<T>,
}

/// The view of one quest, given what the reads of the quest and of its crew size returned.
pub open spec fn view_decision(quest: Result<QuestEntity, StoreError>, count: Result<i64, StoreError>)
    -> Result<QuestModel, QuestError>
{
    match quest {
        Err(e) => Err(QuestError::spec_from_store(e)),
        Ok(q) => match count {
            Err(e) => Err(QuestError::spec_from_store(e)),
            Ok(c) => Ok(q.spec_to_model(c)),
        },
    }
}

/// Builds the view of one quest from the quest and crew size read for it.
pub fn view_step(quest: Result<QuestEntity, StoreError>, count: Result<i64, StoreError>) -> (r:
    Result<QuestModel, QuestError>)
    ensures
        r == view_decision(quest, count),
{
    let quest = match quest {
        Err(e) => return Err(QuestError::from_store(e)),
        Ok(q) => q,
    };
    let count = match count {
        Err(e) => return Err(QuestError::from_store(e)),
        Ok(c) => c,
    };
    Ok(quest.to_model(count))
}

/// The crew sizes read in turn, up to and including the first failed read: the sizes, or
/// that read's failure.
pub open spec fn counts_outcome(counts: Seq<Result<i64, StoreError>>) -> Result<Seq<i64>, QuestError>
    decreases counts.len(),
{
    if counts.len() == 0 {
        Ok(Seq::empty())
    } else {
        match counts_outcome(counts.drop_last()) {
            Err(e) => Err(e),
            Ok(cs) => match counts.last() {
                Err(e) => Err(QuestError::spec_from_store(e)),
                Ok(c) => Ok(cs.push(c)),
            },
        }
    }
}

/// The listing, given what the read of the rows and the reads of their crew sizes returned:
/// the first failure, or one model per row, in the rows' order, with the size at its position.
pub open spec fn board_decision(
    rows: Result<Vec<QuestEntity>, StoreError>,
    counts: Seq<Result<i64, StoreError>>,
) -> Result<Seq<QuestModel>, QuestError> {
    match rows {
        Err(e) => Err(QuestError::spec_from_store(e)),
        Ok(rs) => match counts_outcome(counts) {
            Err(e) => Err(e),
            Ok(cs) => Ok(Seq::new(rs.len() as nat, |i: int| rs@[i].spec_to_model(cs[i]))),
        },
    }
}

/// `r` is the listing that `board_decision` gives for these reads.
pub open spec fn is_board_result(
    r: Result<Vec<QuestModel>, QuestError>,
    rows: Result<Vec<QuestEntity>, StoreError>,
    counts: Seq<Result<i64, StoreError>>,
) -> bool {
    match board_decision(rows, counts) {
        Err(e) => r == Err::<Vec<QuestModel>, QuestError>(e),
        Ok(models) => r is Ok && r->Ok_0@ == models,
    }
}

proof fn lemma_counts_len(counts: Seq<Result<i64, StoreError>>)
    ensures
        counts_outcome(counts) is Ok ==> counts_outcome(counts)->Ok_0.len() == counts.len(),
    decreases counts.len(),
{
    if counts.len() > 0 {
        lemma_counts_len(counts.drop_last());
    }
}

proof fn lemma_counts_failure_stays(counts: Seq<Result<i64, StoreError>>, j: int, k: int)
    requires
        0 <= j <= k <= counts.len(),
        counts_outcome(counts.subrange(0, j)) is Err,
    ensures
        counts_outcome(counts.subrange(0, k)) == counts_outcome(counts.subrange(0, j)),
    decreases k - j,
{
    if j < k {
        lemma_counts_failure_stays(counts, j, k - 1);
        assert(counts.subrange(0, k).drop_last() =~= counts.subrange(0, k - 1));
    }
}

proof fn lemma_counts_failure_is_store(counts: Seq<Result<i64, StoreError>>)
    ensures
        counts_outcome(counts) is Err ==> is_store_failure(counts_outcome(counts)->Err_0),
    decreases counts.len(),
{
    if counts.len() > 0 {
        lemma_counts_failure_is_store(counts.drop_last());
    }
}

proof fn lemma_board_failure_is_store(
    rows: Result<Vec<QuestEntity>, StoreError>,
    counts: Seq<Result<i64, StoreError>>,
)
    ensures
        board_decision(rows, counts) is Err ==> is_store_failure(board_decision(rows, counts)->Err_0),
{
    lemma_counts_failure_is_store(counts);
}

/// Builds the listing from the read of the rows and the reads of their crew sizes, which stop
/// at the first failure.
pub fn board_step(rows: Result<Vec<QuestEntity>, StoreError>, counts: Vec<Result<i64, StoreError>>) -> (r:
    Result<Vec<QuestModel>, QuestError>)
    requires
        rows is Ok && counts_outcome(counts@) is Ok ==> counts.len() == rows->Ok_0.len(),
    ensures
        is_board_result(r, rows, counts@),
{
    let listed = match rows {
        Err(e) => return Err(QuestError::from_store(e)),
        Ok(v) => v,
    };
    let mut sizes: Vec<i64> = Vec::new();
    let mut i: usize = 0;
    while i < counts.len()
        invariant
            i <= counts.len(),
            counts_outcome(counts@.subrange(0, i as int)) == Ok::<Seq<i64>, QuestError>(sizes@),
            rows == Ok::<Vec<QuestEntity>, StoreError>(listed),
        decreases counts.len() - i,
    {
        proof {
            assert(counts@.subrange(0, i + 1).drop_last() =~= counts@.subrange(0, i as int));
        }
        match &counts[i] {
            Err(e) => {
                let failure = QuestError::from_store_ref(e);
                proof {
                    assert(counts@.subrange(0, i + 1).last() == counts@[i as int]);
                    assert(counts_outcome(counts@.subrange(0, i + 1)) == Err::<Seq<i64>, QuestError>(
                        failure,
                    ));
                    lemma_counts_failure_stays(counts@, i + 1, counts.len() as int);
                    assert(counts@.subrange(0, counts.len() as int) =~= counts@);
                    assert(counts_outcome(counts@) == Err::<Seq<i64>, QuestError>(failure));
                }
                return Err(failure);
            },
            Ok(c) => {
                proof {
                    assert(counts@.subrange(0, i + 1).last() == counts@[i as int]);
                }
                sizes.push(*c);
            },
        }
        i = i + 1;
    }
    proof {
        assert(counts@.subrange(0, counts.len() as int) =~= counts@);
        lemma_counts_len(counts@);
    }
    let models = enrich(listed, sizes);
    proof {
        assert(models@ =~= board_decision(rows, counts@)->Ok_0);
    }
    Ok(models)
}

/// One model per row, in the rows' order, each with the crew size at the same position.
pub fn enrich(rows: Vec<QuestEntity>, counts: Vec<i64>) -> (r: Vec<QuestModel>)
    requires
        rows.len() == counts.len(),
    ensures
        r.len() == rows.len(),
        forall|i: int| 0 <= i < rows.len() ==> r@[i] == rows@[i].spec_to_model(counts@[i]),
{
    let mut r: Vec<QuestModel> = Vec::new();
    let mut i: usize = 0;
    while i < rows.len()
        invariant
            rows.len() == counts.len(),
            r.len() == i,
            i <= rows.len(),
            forall|j: int| 0 <= j < i ==> r@[j] == rows@[j].spec_to_model(counts@[j]),
        decreases rows.len() - i,
    {
        let row = &rows[i];
        let description = match &row.description {
            None => None,
            Some(d) => Some(d.clone()),
        };
        r.push(
            QuestModel {
                id: row.id,
                name: row.name.clone(),
                description,
                status: row.status,
                guild_commander_id: row.guild_commander_id,
                adventurers_count: counts[i],
            },
        );
        i = i + 1;
    }
    r
}

impl<T> QuestViewingUseCase<T> where T: QuestViewingRepository + Send + Sync {
    /// The store this use case reads from.
    pub closed spec fn quest_store(&self) -> Arc<T> {
        self.quest_viewing_repository
    }

    pub fn new(quest_viewing_repository: Arc<T>) -> (r: Self)
        ensures
            r.quest_store() == quest_viewing_repository,
    {
        Self { quest_viewing_repository }
    }

    /// Reads one quest and its crew size, and builds its view with `view_step`.
    pub fn view_details(&self, quest_id: i32) -> (r: Result<QuestModel, QuestError>)
        ensures
            r is Err ==> is_store_failure(r->Err_0),
            exists|quest: Result<QuestEntity, StoreError>, count: Result<i64, StoreError>|
                r == #[trigger] view_decision(quest, count),
    {
        let quest = self.quest_viewing_repository.view_details(quest_id);
        if let Err(e) = &quest {
            let failure = QuestError::from_store_ref(e);
            assert(Err::<QuestModel, QuestError>(failure) == view_decision(quest, Ok(0)));
            return Err(failure);
        }
        let count = self.quest_viewing_repository.adventurers_counting_by_quest_id(quest_id);
        view_step(quest, count)
    }

    /// Reads the quests that match `filter`, then the crew size of each row's id in turn,
    /// stopping at the first failed read, and builds the listing with `board_step`.
    pub fn board_checking(&self, filter: &BoardCheckingFilter) -> (r: Result<
        Vec<QuestModel>,
        QuestError,
    >)
        ensures
            r is Err ==> is_store_failure(r->Err_0),
            exists|rows: Result<Vec<QuestEntity>, StoreError>, counts: Seq<Result<i64, StoreError>>|
                #[trigger] is_board_result(r, rows, counts),
    {
        let rows = self.quest_viewing_repository.board_checking(filter);
        let mut counts: Vec<Result<i64, StoreError>> = Vec::new();
        if let Ok(v) = &rows {
            let mut i: usize = 0;
            let mut failed = false;
            while i < v.len() && !failed
                invariant
                    i <= v.len(),
                    counts.len() == i,
                    !failed ==> counts_outcome(counts@) is Ok,
                    failed ==> counts_outcome(counts@) is Err,
                decreases v.len() - i,
            {
                let c = self.quest_viewing_repository.adventurers_counting_by_quest_id(v[i].id);
                failed = c.is_err();
                let ghost before = counts@;
                counts.push(c);
                proof {
                    assert(counts@.drop_last() =~= before);
                }
                i = i + 1;
            }
        }
        let ghost rows_read = rows;
        let ghost counts_read = counts@;
        let r = board_step(rows, counts);
        proof {
            lemma_board_failure_is_store(rows_read, counts_read);
        }
        r
    }
}

} // verus!
