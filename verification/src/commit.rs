//! Committing proposals: storing each as a backlog item.
use vstd::prelude::*;

use crate::proposal::{ImprovementProposal, Proposal};
use crate::statement::{SqlStatement, SqlText};

verus! {

/// A proposal, stored as the backlog item with the number `id`.
pub open spec fn numbered(proposal: Proposal, id: i64) -> Proposal {
    Proposal { committed_backlog_id: Some(id), ..proposal }
}

/// The commit of some proposals, in order.
#[derive(Debug)]
pub struct ProposalCommit {
    proposals: Vec<ImprovementProposal>,
    ids: Vec<i64>,
}

impl ProposalCommit {
    /// The proposals to store.
    pub closed spec fn proposals(self) -> Seq<ImprovementProposal> {
        self.proposals@
    }

    /// The proposals that were stored, each with its number.
    pub closed spec fn committed(self) -> Seq<Proposal> {
        Seq::new(
            self.ids@.len(),
            |i: int| numbered(self.proposals@[i].deep_view(), self.ids@[i]),
        )
    }

    /// Whether no more proposals were stored than there are.
    pub open spec fn well_formed(self) -> bool {
        self.committed().len() <= self.proposals().len()
    }

    /// Whether a proposal is still to be stored.
    pub open spec fn is_due(self) -> bool {
        self.committed().len() < self.proposals().len()
    }

    /// The proposal whose turn it is.
    pub open spec fn current(self) -> ImprovementProposal {
        self.proposals()[self.committed().len() as int]
    }

    /// The commit of `proposals`, none of them stored yet.
    pub fn new(proposals: Vec<ImprovementProposal>) -> (r: Self)
        ensures
            r.well_formed(),
            r.proposals() == proposals@,
            r.committed() == Seq::<Proposal>::empty(),
    {
        let r = ProposalCommit { proposals, ids: Vec::new() };
        assert(r.committed() =~= Seq::<Proposal>::empty());
        r
    }

    /// The statement to run once, which stores the proposal whose turn it is; there is none
    /// when all are stored.
    pub fn next(&self) -> (r: Option<SqlStatement>)
        requires
            self.well_formed(),
        ensures
            r is Some <==> self.committed().len() < self.proposals().len(),
            r matches Some(statement) ==> statement.deep_view()
                == self.proposals()[self.committed().len() as int].stored(),
    {
        if self.ids.len() < self.proposals.len() {
            Some(self.proposals[self.ids.len()].statement())
        } else {
            None
        }
    }

    /// Notes the number under which the proposal whose turn it is was stored.
    pub fn stored(&mut self, id: i64)
        requires
            old(self).is_due(),
        ensures
            final(self).well_formed(),
            final(self).proposals() == old(self).proposals(),
            final(self).committed() == old(self).committed().push(
                numbered(old(self).current().deep_view(), id),
            ),
    {
        let ghost before = self.committed();
        let ghost due = numbered(self.current().deep_view(), id);
        self.ids.push(id);
        assert(self.committed() =~= before.push(due));
    }

    /// The proposals, each with its number.
    pub fn into_result(self) -> (r: Vec<ImprovementProposal>)
        requires
            self.committed().len() == self.proposals().len(),
        ensures
            r.deep_view() == self.committed(),
    {
        let ghost all = self.proposals@;
        let ghost expected = self.committed();
        let ids = self.ids;
        let mut r: Vec<ImprovementProposal> = Vec::new();
        for proposal in it: self.proposals
            invariant
                it.seq() == all,
                ids@.len() == all.len(),
                expected.len() == all.len(),
                forall|i: int|
                    0 <= i < all.len() ==> #[trigger] expected[i] == numbered(
                        all[i].deep_view(),
                        ids@[i],
                    ),
                r.deep_view() == expected.take(it.index() as int),
        {
            let ghost i = it.index() as int;
            let ghost before = r.deep_view();
            assert(before.len() == i && r.len() == before.len());
            let mut proposal = proposal;
            proposal.commit(ids[r.len()]);
            r.push(proposal);
            assert(r.deep_view() =~= before.push(expected[i]));
            assert(r.deep_view() =~= expected.take(i + 1));
        }
        assert(expected.take(all.len() as int) =~= expected);
        r
    }
}

/// How far a commit has come: the proposals that were stored, and the rows of the backlog, each
/// with its number and the statement that added it.
pub struct CommitState {
    pub committed: Seq<Proposal>,
    pub rows: Seq<(i64, SqlText)>,
}

/// Whether the statement that is due for `proposals`, run once, leads from `before` to `after`: it
/// adds one row, under a number that no other row has.
pub open spec fn stores(
    proposals: Seq<ImprovementProposal>,
    before: CommitState,
    after: CommitState,
    id: i64,
) -> bool {
    let due = proposals[before.committed.len() as int];
    &&& before.committed.len() < proposals.len()
    &&& forall|i: int| 0 <= i < before.rows.len() ==> (#[trigger] before.rows[i]).0 != id
    &&& after.rows == before.rows.push((id, due.stored()))
    &&& after.committed == before.committed.push(numbered(due.deep_view(), id))
}

/// Whether the statement that is due leads from `before` to `after`.
pub open spec fn steps(
    proposals: Seq<ImprovementProposal>,
    before: CommitState,
    after: CommitState,
) -> bool {
    exists|id: i64| stores(proposals, before, after, id)
}

/// Whether the state at `k` follows from the one before.
pub open spec fn is_commit_step(
    proposals: Seq<ImprovementProposal>,
    states: Seq<CommitState>,
    k: int,
) -> bool {
    steps(proposals, states[k - 1], states[k])
}

/// Whether `states` are those of a commit of `proposals`.
pub open spec fn is_commit(proposals: Seq<ImprovementProposal>, states: Seq<CommitState>) -> bool {
    &&& states.len() > 0
    &&& states[0].committed.len() == 0
    &&& forall|k: int|
        0 < k < states.len() ==> #[trigger] is_commit_step(proposals, states, k)
}

/// Whether `state` added one row for each proposal that it stored, in order, to `rows`.
pub open spec fn is_stored_once(
    proposals: Seq<ImprovementProposal>,
    rows: Seq<(i64, SqlText)>,
    state: CommitState,
) -> bool {
    let n = state.committed.len();
    &&& n <= proposals.len()
    &&& state.rows.len() == rows.len() + n
    &&& state.rows.take(rows.len() as int) == rows
    &&& forall|i: int|
        0 <= i < n ==> {
            let row = state.rows[rows.len() + i];
            &&& (#[trigger] state.committed[i]) == numbered(proposals[i].deep_view(), row.0)
            &&& row.1 == proposals[i].stored()
        }
    &&& forall|i: int, j: int|
        0 <= i < state.rows.len() && rows.len() <= j < state.rows.len() && i < j ==> (
        #[trigger] state.rows[i]).0 != (#[trigger] state.rows[j]).0
}

/// However far a commit has come, it has added exactly one row for each proposal that it stored,
/// in the order of the proposals, and changed no other row. Each stored proposal says what it
/// said, under the number of its own row; no two have one number.
pub proof fn law_each_proposal_is_stored_once(
    proposals: Seq<ImprovementProposal>,
    states: Seq<CommitState>,
)
    requires
        is_commit(proposals, states),
    ensures
        is_stored_once(proposals, states[0].rows, states.last()),
    decreases states.len(),
{
    let rows = states[0].rows;
    let last = states.last();
    if states.len() == 1 {
        assert(last.rows.take(rows.len() as int) =~= rows);
    } else {
        let rest = states.drop_last();
        let before = rest.last();
        assert forall|k: int| 0 < k < rest.len() implies #[trigger] is_commit_step(
            proposals,
            rest,
            k,
        ) by {
            assert(is_commit_step(proposals, states, k));
        }
        law_each_proposal_is_stored_once(proposals, rest);
        let k = states.len() - 1;
        assert(states[k] == last && states[k - 1] == before);
        assert(is_commit_step(proposals, states, k));
        let id = choose|id: i64| stores(proposals, before, last, id);
        assert(last.rows.take(rows.len() as int) =~= before.rows.take(rows.len() as int));
        assert forall|i: int| 0 <= i < last.committed.len() implies {
            let row = last.rows[rows.len() + i];
            &&& (#[trigger] last.committed[i]) == numbered(proposals[i].deep_view(), row.0)
            &&& row.1 == proposals[i].stored()
        } by {
            if i < before.committed.len() {
                assert(before.committed[i] == last.committed[i]);
                assert(before.rows[rows.len() + i] == last.rows[rows.len() + i]);
            }
        }
        assert forall|i: int, j: int|
            0 <= i < last.rows.len() && rows.len() <= j < last.rows.len() && i < j implies (
        #[trigger] last.rows[i]).0 != (#[trigger] last.rows[j]).0 by {
            assert(last.rows[i] == before.rows[i]);
            if j < before.rows.len() {
                assert(last.rows[j] == before.rows[j]);
            }
        }
    }
}

} // verus!
