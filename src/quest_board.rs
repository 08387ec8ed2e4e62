use vstd::prelude::*;
use crate::errors::QuestError;
use crate::lifecycle::{
    check_join, check_leave, join_outcome, leave_outcome, transition, transition_outcome,
    JourneyEvent, MAX_ADVENTURERS_PER_QUEST,
};
use crate::crew_switchboard::{join_decision, leave_decision};
use crate::journey_ledger::transition_decision;
use crate::models::{QuestEntity, QuestView};
use crate::quest_statuses::QuestStatuses;

verus! {

broadcast use vstd::seq_lib::group_seq_properties;

/// One stored quest with the ids of the adventurers on its crew.
struct QuestRecord {
    id: i32,
    status: QuestStatuses,
    crew: Vec<i32>,
}

/// An in-memory quest and roster store that applies the same guards as the use cases
/// (`check_join`, `check_leave`, `transition`) inside one `&mut` borrow, so that each guard
/// and its write form a single step. It serves where no database is wanted (embedding,
/// tests), and its contracts show what the stores hold across any sequence of operations:
/// `lemma_agrees_with_use_cases` proves that it decides as the use cases do on the same reads.
pub struct QuestBoard {
    quests: Vec<QuestRecord>,
}

spec fn has_id(qs: Seq<QuestRecord>, id: i32) -> bool {
    exists|i: int| 0 <= i < qs.len() && qs[i].id == id
}

spec fn index_of(qs: Seq<QuestRecord>, id: i32) -> int {
    choose|i: int| 0 <= i < qs.len() && qs[i].id == id
}

spec fn ids_unique(qs: Seq<QuestRecord>) -> bool {
    forall|i: int, j: int| 0 <= i < qs.len() && 0 <= j < qs.len() && i != j ==> qs[i].id != qs[j].id
}

spec fn statuses_of(qs: Seq<QuestRecord>) -> Map<i32, QuestStatuses> {
    Map::new(|id: i32| has_id(qs, id), |id: i32| qs[index_of(qs, id)].status)
}

spec fn crews_of(qs: Seq<QuestRecord>) -> Map<i32, Set<i32>> {
    Map::new(|id: i32| has_id(qs, id), |id: i32| qs[index_of(qs, id)].crew@.to_set())
}

proof fn lemma_index_of(qs: Seq<QuestRecord>, k: int)
    requires
        ids_unique(qs),
        0 <= k < qs.len(),
    ensures
        has_id(qs, qs[k].id),
        index_of(qs, qs[k].id) == k,
{
    let id = qs[k].id;
    assert(has_id(qs, id));
    let j = index_of(qs, id);
    assert(qs[j].id == id);
}

/// Replacing the record at `k` by one with the same id changes only that quest's entries.
proof fn lemma_replace(qs: Seq<QuestRecord>, k: int, r: QuestRecord)
    requires
        ids_unique(qs),
        0 <= k < qs.len(),
        r.id == qs[k].id,
    ensures
        ids_unique(qs.update(k, r)),
        statuses_of(qs.update(k, r)) == statuses_of(qs).insert(r.id, r.status),
        crews_of(qs.update(k, r)) == crews_of(qs).insert(r.id, r.crew@.to_set()),
{
    let nqs = qs.update(k, r);
    assert(ids_unique(nqs));
    assert forall|id: i32| has_id(nqs, id) == (has_id(qs, id) || id == r.id) by {
        if has_id(qs, id) {
            let j = index_of(qs, id);
            assert(nqs[j].id == id);
        }
        if has_id(nqs, id) {
            let j = index_of(nqs, id);
            assert(qs[j].id == id || j == k);
        }
    }
    assert forall|id: i32| has_id(nqs, id) && id != r.id implies index_of(nqs, id) == index_of(
        qs,
        id,
    ) by {
        let j = index_of(qs, id);
        assert(has_id(qs, id));
        lemma_index_of(qs, j);
        lemma_index_of(nqs, j);
    }
    lemma_index_of(nqs, k);
    assert(statuses_of(nqs) =~= statuses_of(qs).insert(r.id, r.status));
    assert(crews_of(nqs) =~= crews_of(qs).insert(r.id, r.crew@.to_set()));
}

/// Appending a record with a fresh id adds exactly that quest's entries.
proof fn lemma_append(qs: Seq<QuestRecord>, r: QuestRecord)
    requires
        ids_unique(qs),
        !has_id(qs, r.id),
    ensures
        ids_unique(qs.push(r)),
        statuses_of(qs.push(r)) == statuses_of(qs).insert(r.id, r.status),
        crews_of(qs.push(r)) == crews_of(qs).insert(r.id, r.crew@.to_set()),
{
    let nqs = qs.push(r);
    let k = qs.len() as int;
    assert forall|i: int, j: int|
        0 <= i < nqs.len() && 0 <= j < nqs.len() && i != j implies nqs[i].id != nqs[j].id by {
        if i == k {
            assert(!(qs[j].id == r.id));
        } else if j == k {
            assert(!(qs[i].id == r.id));
        }
    }
    assert forall|id: i32| has_id(nqs, id) == (has_id(qs, id) || id == r.id) by {
        if has_id(qs, id) {
            let j = index_of(qs, id);
            assert(nqs[j].id == id);
        }
        if has_id(nqs, id) {
            let j = index_of(nqs, id);
            assert(qs[j].id == id || j == k);
        }
        if id == r.id {
            assert(nqs[k].id == id);
        }
    }
    assert forall|id: i32| has_id(nqs, id) && id != r.id implies index_of(nqs, id) == index_of(
        qs,
        id,
    ) by {
        let j = index_of(qs, id);
        assert(has_id(qs, id));
        lemma_index_of(qs, j);
        lemma_index_of(nqs, j);
    }
    lemma_index_of(nqs, k);
    assert(statuses_of(nqs) =~= statuses_of(qs).insert(r.id, r.status));
    assert(crews_of(nqs) =~= crews_of(qs).insert(r.id, r.crew@.to_set()));
}

/// Dropping the one occurrence of `a` from a duplicate-free crew drops it from its set.
proof fn lemma_remove_member(s: Seq<i32>, i: int)
    requires
        s.no_duplicates(),
        0 <= i < s.len(),
    ensures
        s.remove(i).no_duplicates(),
        s.remove(i).to_set() == s.to_set().remove(s[i]),
{
    let t = s.remove(i);
    let a = s[i];
    assert forall|x: i32| t.to_set().contains(x) == s.to_set().remove(a).contains(x) by {
        if t.to_set().contains(x) {
            let j = choose|j: int| 0 <= j < t.len() && t[j] == x;
            if j < i {
                assert(s[j] == x);
            } else {
                assert(s[j + 1] == x);
            }
        }
        if s.to_set().remove(a).contains(x) {
            let j = choose|j: int| 0 <= j < s.len() && s[j] == x;
            if j < i {
                assert(t[j] == x);
            } else {
                assert(t[j - 1] == x);
            }
        }
    }
    assert(t.to_set() =~= s.to_set().remove(a));
}

/// What `join` reports for adventurer `a` and quest `q`, given the quests' statuses and crews.
pub open spec fn join_result(
    statuses: Map<i32, QuestStatuses>,
    crews: Map<i32, Set<i32>>,
    q: i32,
    a: i32,
) -> Result<(), QuestError> {
    if !statuses.dom().contains(q) {
        Err(QuestError::NotFound)
    } else {
        match join_outcome(statuses[q], crews[q].len() as int) {
            Err(e) => Err(e),
            Ok(()) => {
                if crews[q].contains(a) {
                    Err(QuestError::DuplicateMembership)
                } else {
                    Ok(())
                }
            },
        }
    }
}

/// What `leave` reports for quest `q`, given the quests' statuses.
pub open spec fn leave_result(statuses: Map<i32, QuestStatuses>, q: i32) -> Result<(), QuestError> {
    if !statuses.dom().contains(q) {
        Err(QuestError::NotFound)
    } else {
        leave_outcome(statuses[q])
    }
}

/// The status that `event` takes quest `q` to, or the failure it reports.
pub open spec fn transition_result(
    statuses: Map<i32, QuestStatuses>,
    crews: Map<i32, Set<i32>>,
    q: i32,
    event: JourneyEvent,
) -> Result<QuestStatuses, QuestError> {
    if !statuses.dom().contains(q) {
        Err(QuestError::NotFound)
    } else {
        transition_outcome(statuses[q], event, crews[q].len() as int)
    }
}

/// The crews after adventurer `a` joined quest `q`.
pub open spec fn after_join(crews: Map<i32, Set<i32>>, q: i32, a: i32) -> Map<i32, Set<i32>> {
    crews.insert(q, crews[q].insert(a))
}

/// The crews after adventurer `a` left quest `q`.
pub open spec fn after_leave(crews: Map<i32, Set<i32>>, q: i32, a: i32) -> Map<i32, Set<i32>> {
    crews.insert(q, crews[q].remove(a))
}

fn crew_position(crew: &Vec<i32>, a: i32) -> (r: Option<usize>)
    ensures
        r is Some ==> r->Some_0 < crew.len() && crew@[r->Some_0 as int] == a,
        r is None ==> !crew@.contains(a),
{
    let mut i: usize = 0;
    while i < crew.len()
        invariant
            i <= crew.len(),
            forall|j: int| 0 <= j < i ==> crew@[j] != a,
        decreases crew.len() - i,
    {
        if crew[i] == a {
            return Some(i);
        }
        i = i + 1;
    }
    None
}

impl QuestBoard {
    /// Status of each stored quest, by id.
    pub closed spec fn statuses(&self) -> Map<i32, QuestStatuses> {
        statuses_of(self.quests@)
    }

    /// Crew of each stored quest, by id.
    pub closed spec fn crews(&self) -> Map<i32, Set<i32>> {
        crews_of(self.quests@)
    }

    /// Number of adventurers on the crew of quest `q`.
    pub open spec fn participant_count(&self, q: i32) -> nat {
        self.crews()[q].len()
    }

    /// Ids are unique, no crew lists a member twice, and no crew exceeds capacity.
    pub closed spec fn wf(&self) -> bool {
        &&& ids_unique(self.quests@)
        &&& forall|i: int|
            0 <= i < self.quests.len() ==> {
                &&& (#[trigger] self.quests@[i]).crew@.no_duplicates()
                &&& self.quests@[i].crew.len() <= MAX_ADVENTURERS_PER_QUEST
            }
    }

    proof fn lemma_record(&self, k: int)
        requires
            self.wf(),
            0 <= k < self.quests.len(),
        ensures
            self.statuses().dom().contains(self.quests@[k].id),
            self.statuses()[self.quests@[k].id] == self.quests@[k].status,
            self.crews()[self.quests@[k].id] == self.quests@[k].crew@.to_set(),
            self.crews()[self.quests@[k].id].len() == self.quests@[k].crew.len(),
    {
        lemma_index_of(self.quests@, k);
        self.quests@[k].crew@.unique_seq_to_set();
    }

    /// Every stored quest has a crew, and every crew is a finite set of at most four members.
    pub proof fn lemma_crew_within_capacity(&self, q: i32)
        requires
            self.wf(),
        ensures
            self.crews().dom() == self.statuses().dom(),
            self.statuses().dom().contains(q) ==> self.crews()[q].finite(),
            self.statuses().dom().contains(q) ==> self.participant_count(q)
                <= MAX_ADVENTURERS_PER_QUEST,
    {
        assert(self.crews().dom() =~= self.statuses().dom());
        if self.statuses().dom().contains(q) {
            let k = index_of(self.quests@, q);
            self.lemma_record(k);
        }
    }

    /// An empty board.
    pub fn new() -> (r: Self)
        ensures
            r.wf(),
            r.statuses() == Map::<i32, QuestStatuses>::empty(),
            r.crews() == Map::<i32, Set<i32>>::empty(),
    {
        let r = QuestBoard { quests: Vec::new() };
        assert(r.statuses() =~= Map::<i32, QuestStatuses>::empty());
        assert(r.crews() =~= Map::<i32, Set<i32>>::empty());
        r
    }

    fn find(&self, id: i32) -> (r: Option<usize>)
        requires
            self.wf(),
        ensures
            r is Some ==> r->Some_0 < self.quests.len() && self.quests@[r->Some_0 as int].id == id,
            r is None ==> !self.statuses().dom().contains(id),
    {
        let mut i: usize = 0;
        while i < self.quests.len()
            invariant
                i <= self.quests.len(),
                forall|j: int| 0 <= j < i ==> self.quests@[j].id != id,
            decreases self.quests.len() - i,
        {
            if self.quests[i].id == id {
                return Some(i);
            }
            i = i + 1;
        }
        None
    }

    /// Stores a new quest `id` in status Open with an empty crew; false if `id` is taken.
    pub fn add_quest(&mut self, id: i32) -> (r: bool)
        requires
            old(self).wf(),
        ensures
            final(self).wf(),
            r == !old(self).statuses().dom().contains(id),
            r ==> final(self).statuses() == old(self).statuses().insert(id, QuestStatuses::Open),
            r ==> final(self).crews() == old(self).crews().insert(id, Set::<i32>::empty()),
            !r ==> final(self).statuses() == old(self).statuses(),
            !r ==> final(self).crews() == old(self).crews(),
    {
        match self.find(id) {
            Some(_) => false,
            None => {
                let rec = QuestRecord { id, status: QuestStatuses::Open, crew: Vec::new() };
                proof {
                    lemma_append(self.quests@, rec);
                    assert(rec.crew@.to_set() =~= Set::<i32>::empty());
                }
                self.quests.push(rec);
                true
            },
        }
    }

    /// Status and crew size of quest `q`.
    pub fn view_details(&self, q: i32) -> (r: Result<QuestView, QuestError>)
        requires
            self.wf(),
        ensures
            !self.statuses().dom().contains(q) ==> r == Err::<QuestView, QuestError>(
                QuestError::NotFound,
            ),
            self.statuses().dom().contains(q) ==> r == Ok::<QuestView, QuestError>(
                QuestView {
                    status: self.statuses()[q],
                    participant_count: self.participant_count(q) as i64,
                },
            ),
    {
        match self.find(q) {
            None => Err(QuestError::NotFound),
            Some(k) => {
                proof {
                    self.lemma_record(k as int);
                }
                Ok(
                    QuestView {
                        status: self.quests[k].status,
                        participant_count: self.quests[k].crew.len() as i64,
                    },
                )
            },
        }
    }

    /// Crew size of quest `q`; zero for a quest that is not stored.
    pub fn count_participants(&self, q: i32) -> (r: i64)
        requires
            self.wf(),
        ensures
            self.statuses().dom().contains(q) ==> r == self.participant_count(q),
            !self.statuses().dom().contains(q) ==> r == 0,
    {
        match self.find(q) {
            None => 0,
            Some(k) => {
                proof {
                    self.lemma_record(k as int);
                }
                self.quests[k].crew.len() as i64
            },
        }
    }
    /// Puts adventurer `a` on the crew of quest `q`, if the quest exists, has room,
    /// is Open or Failed, and `a` is not on its crew yet.
    pub fn join(&mut self, q: i32, a: i32) -> (r: Result<(), QuestError>)
        requires
            old(self).wf(),
        ensures
            final(self).wf(),
            r == join_result(old(self).statuses(), old(self).crews(), q, a),
            final(self).statuses() == old(self).statuses(),
            r is Ok ==> final(self).crews() == after_join(old(self).crews(), q, a),
            r is Err ==> final(self).crews() == old(self).crews(),
    {
        let k = match self.find(q) {
            None => return Err(QuestError::NotFound),
            Some(k) => k,
        };
        proof {
            self.lemma_record(k as int);
        }
        let count = self.quests[k].crew.len() as i64;
        match check_join(self.quests[k].status, count) {
            Err(e) => return Err(e),
            Ok(()) => {},
        }
        if crew_position(&self.quests[k].crew, a).is_some() {
            return Err(QuestError::DuplicateMembership);
        }
        let ghost before = self.quests@;
        let mut rec = self.quests.remove(k);
        rec.crew.push(a);
        proof {
            before[k as int].crew@.lemma_push_to_set_commute(a);
            lemma_replace(before, k as int, rec);
        }
        self.quests.insert(k, rec);
        proof {
            assert(self.quests@ =~= before.update(k as int, rec));
        }
        Ok(())
    }

    /// Takes adventurer `a` off the crew of quest `q`, if the quest exists and is Open or
    /// Failed; an adventurer not on the crew leaves it unchanged without failing.
    pub fn leave(&mut self, q: i32, a: i32) -> (r: Result<(), QuestError>)
        requires
            old(self).wf(),
        ensures
            final(self).wf(),
            r == leave_result(old(self).statuses(), q),
            final(self).statuses() == old(self).statuses(),
            r is Ok ==> final(self).crews() == after_leave(old(self).crews(), q, a),
            r is Err ==> final(self).crews() == old(self).crews(),
    {
        let k = match self.find(q) {
            None => return Err(QuestError::NotFound),
            Some(k) => k,
        };
        proof {
            self.lemma_record(k as int);
        }
        match check_leave(self.quests[k].status) {
            Err(e) => return Err(e),
            Ok(()) => {},
        }
        let i = match crew_position(&self.quests[k].crew, a) {
            None => {
                proof {
                    let crews = self.crews();
                    assert(crews[q].remove(a) =~= crews[q]);
                    assert(after_leave(crews, q, a) =~= crews);
                }
                return Ok(());
            },
            Some(i) => i,
        };
        let ghost before = self.quests@;
        let mut rec = self.quests.remove(k);
        rec.crew.remove(i);
        proof {
            lemma_remove_member(before[k as int].crew@, i as int);
            lemma_replace(before, k as int, rec);
        }
        self.quests.insert(k, rec);
        proof {
            assert(self.quests@ =~= before.update(k as int, rec));
        }
        Ok(())
    }

    fn advance(&mut self, q: i32, event: JourneyEvent) -> (r: Result<QuestStatuses, QuestError>)
        requires
            old(self).wf(),
        ensures
            final(self).wf(),
            r == transition_result(old(self).statuses(), old(self).crews(), q, event),
            r is Ok ==> final(self).statuses() == old(self).statuses().insert(q, r->Ok_0),
            r is Err ==> final(self).statuses() == old(self).statuses(),
            final(self).crews() == old(self).crews(),
    {
        let k = match self.find(q) {
            None => return Err(QuestError::NotFound),
            Some(k) => k,
        };
        proof {
            self.lemma_record(k as int);
        }
        let count = self.quests[k].crew.len() as i64;
        let next = match transition(self.quests[k].status, event, count) {
            Err(e) => return Err(e),
            Ok(s) => s,
        };
        let ghost before = self.quests@;
        let mut rec = self.quests.remove(k);
        rec.status = next;
        proof {
            assert(rec.crew@ == before[k as int].crew@);
            lemma_replace(before, k as int, rec);
            assert(crews_of(before).insert(q, rec.crew@.to_set()) =~= crews_of(before));
        }
        self.quests.insert(k, rec);
        proof {
            assert(self.quests@ =~= before.update(k as int, rec));
        }
        Ok(next)
    }

    /// Launches quest `q`: Open or Failed with one to four members becomes InJourney.
    pub fn launch(&mut self, q: i32) -> (r: Result<QuestStatuses, QuestError>)
        requires
            old(self).wf(),
        ensures
            final(self).wf(),
            r == transition_result(old(self).statuses(), old(self).crews(), q, JourneyEvent::Launch),
            r is Ok ==> final(self).statuses() == old(self).statuses().insert(q, r->Ok_0),
            r is Err ==> final(self).statuses() == old(self).statuses(),
            final(self).crews() == old(self).crews(),
    {
        self.advance(q, JourneyEvent::Launch)
    }

    /// Completes quest `q`: InJourney becomes Completed.
    pub fn complete(&mut self, q: i32) -> (r: Result<QuestStatuses, QuestError>)
        requires
            old(self).wf(),
        ensures
            final(self).wf(),
            r == transition_result(old(self).statuses(), old(self).crews(), q, JourneyEvent::Complete),
            r is Ok ==> final(self).statuses() == old(self).statuses().insert(q, r->Ok_0),
            r is Err ==> final(self).statuses() == old(self).statuses(),
            final(self).crews() == old(self).crews(),
    {
        self.advance(q, JourneyEvent::Complete)
    }

    /// Fails quest `q`: InJourney becomes Failed.
    pub fn fail_quest(&mut self, q: i32) -> (r: Result<QuestStatuses, QuestError>)
        requires
            old(self).wf(),
        ensures
            final(self).wf(),
            r == transition_result(old(self).statuses(), old(self).crews(), q, JourneyEvent::MarkFailed),
            r is Ok ==> final(self).statuses() == old(self).statuses().insert(q, r->Ok_0),
            r is Err ==> final(self).statuses() == old(self).statuses(),
            final(self).crews() == old(self).crews(),
    {
        self.advance(q, JourneyEvent::MarkFailed)
    }
}

/// On a stored quest, given a record `quest` read with its status and the crew size `count`,
/// the board decides as the use cases do: a join or leave that they refuse, the board refuses
/// with the same error; one that they pass, the board performs, where the store's uniqueness of
/// pairs refuses a duplicate join; and every transition has the same outcome.
pub proof fn lemma_agrees_with_use_cases(
    statuses: Map<i32, QuestStatuses>,
    crews: Map<i32, Set<i32>>,
    quest: QuestEntity,
    count: i64,
    q: i32,
    a: i32,
    event: JourneyEvent,
)
    requires
        statuses.dom().contains(q),
        quest.status == statuses[q],
        count == crews[q].len(),
    ensures
        join_decision(Ok(quest), Ok(count), q, a) is Err ==> join_result(statuses, crews, q, a)
            == Err::<(), QuestError>(join_decision(Ok(quest), Ok(count), q, a)->Err_0),
        join_decision(Ok(quest), Ok(count), q, a) is Ok ==> join_result(statuses, crews, q, a)
            == (if crews[q].contains(a) {
            Err::<(), QuestError>(QuestError::DuplicateMembership)
        } else {
            Ok::<(), QuestError>(())
        }),
        leave_decision(Ok(quest), q, a) is Err ==> leave_result(statuses, q) == Err::<
            (),
            QuestError,
        >(leave_decision(Ok(quest), q, a)->Err_0),
        leave_decision(Ok(quest), q, a) is Ok ==> leave_result(statuses, q) is Ok,
        transition_result(statuses, crews, q, event) == transition_decision(
            Ok(quest),
            Ok(count),
            event,
        ),
{
}

} // verus!
