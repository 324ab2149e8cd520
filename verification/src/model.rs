//! The abstract state machine of the proposal store.
//!
//! A [`StoreModel`] is the mathematical value of a
//! [`crate::store::BountyInterface`]: the registered validator addresses, the
//! proposals in submission order, and the next id to hand out. The spec
//! functions here describe exactly how each operation steps this model, and
//! the proof functions state the laws of the workflow: ids are handed out
//! sequentially from one, approval counts match the voter lists, nobody votes
//! twice, and a proposal that reached the quorum stays `Approved`.

use vstd::prelude::*;
use vstd::set_lib::lemma_len_subset;

use crate::proposal::ProposalError;
use crate::proposal::ProposalStatus;

verus! {

/// Number of distinct validator votes at which a proposal becomes `Approved`.
pub const QUORUM_THRESHOLD: u32 = 2;

/// Mathematical value of a single proposal. Addresses and free-text fields
/// are character sequences; counters are unbounded integers.
#[verifier::ext_equal]
pub ghost struct ProposalModel {
    pub id: int,
    pub hunter_address: Seq<char>,
    pub github_pr_url: Seq<char>,
    pub description: Seq<char>,
    pub status: ProposalStatus,
    pub approvals: int,
    pub validators: Seq<Seq<char>>,
    pub timestamp: int,
}

/// Mathematical value of the whole store. `validators` is the registry of
/// authorized addresses; `proposals` is kept in submission order.
#[verifier::ext_equal]
pub ghost struct StoreModel {
    pub contract_address: Seq<char>,
    pub proposals: Seq<ProposalModel>,
    pub validators: Seq<Seq<char>>,
    pub next_proposal_id: int,
}

/// Whether some proposal in `proposals` carries `id`.
pub open spec fn contains_id(proposals: Seq<ProposalModel>, id: int) -> bool {
    exists|i: int| 0 <= i < proposals.len() && proposals[i].id == id
}

/// The position of the proposal carrying `id`. Meaningful only when
/// `contains_id` holds; under `store_wf` that position is unique.
pub open spec fn index_of_id(proposals: Seq<ProposalModel>, id: int) -> int {
    choose|i: int| 0 <= i < proposals.len() && proposals[i].id == id
}

/// Whether `addr` has already voted on `p`.
pub open spec fn has_voted(p: ProposalModel, addr: Seq<char>) -> bool {
    p.validators.contains(addr)
}

/// The proposal a submission creates: `Pending`, no votes, the given stamp.
pub open spec fn fresh_proposal(
    id: int,
    github_pr_url: Seq<char>,
    description: Seq<char>,
    hunter_address: Seq<char>,
    timestamp: int,
) -> ProposalModel {
    ProposalModel {
        id,
        hunter_address,
        github_pr_url,
        description,
        status: ProposalStatus::Pending,
        approvals: 0,
        validators: Seq::empty(),
        timestamp,
    }
}

/// How a submission steps the store: append the fresh proposal under the
/// current counter value, then advance the counter.
pub open spec fn submit_step(
    m: StoreModel,
    github_pr_url: Seq<char>,
    description: Seq<char>,
    hunter_address: Seq<char>,
    timestamp: int,
) -> StoreModel {
    StoreModel {
        proposals: m.proposals.push(
            fresh_proposal(m.next_proposal_id, github_pr_url, description, hunter_address, timestamp),
        ),
        next_proposal_id: m.next_proposal_id + 1,
        ..m
    }
}

/// How one recorded vote changes a proposal: the voter is appended, the count
/// rises by one, and the status becomes `Approved` exactly when the new count
/// reaches the quorum threshold (otherwise it is left alone).
pub open spec fn vote_recorded(p: ProposalModel, addr: Seq<char>) -> ProposalModel {
    ProposalModel {
        approvals: p.approvals + 1,
        validators: p.validators.push(addr),
        status: if p.approvals + 1 >= QUORUM_THRESHOLD {
            ProposalStatus::Approved
        } else {
            p.status
        },
        ..p
    }
}

/// The error an approval attempt reports, if any. The checks happen in this
/// order: validator standing, then existence of the id, then the repeat-vote
/// check; the first failing one decides.
pub open spec fn approve_error(m: StoreModel, id: int, addr: Seq<char>) -> Option<ProposalError> {
    if !m.validators.contains(addr) {
        Some(ProposalError::Unauthorized)
    } else if !contains_id(m.proposals, id) {
        Some(ProposalError::NotFound)
    } else if has_voted(m.proposals[index_of_id(m.proposals, id)], addr) {
        Some(ProposalError::AlreadyVoted)
    } else {
        None
    }
}

/// How an approval steps the store: on any error the store is untouched;
/// otherwise exactly the target proposal is replaced by its voted-on form.
pub open spec fn approve_step(m: StoreModel, id: int, addr: Seq<char>) -> StoreModel {
    if approve_error(m, id, addr) is Some {
        m
    } else {
        let i = index_of_id(m.proposals, id);
        StoreModel { proposals: m.proposals.update(i, vote_recorded(m.proposals[i], addr)), ..m }
    }
}

/// Well-formedness of one proposal against the registry: the approval count
/// is the length of the voter list, no address voted twice, every voter is
/// registered, and the status is `Approved` exactly when the count has
/// reached the quorum.
pub open spec fn proposal_wf(p: ProposalModel, registry: Seq<Seq<char>>) -> bool {
    &&& p.approvals == p.validators.len()
    &&& p.validators.no_duplicates()
    &&& forall|j: int| 0 <= j < p.validators.len() ==> registry.contains(#[trigger] p.validators[j])
    &&& (p.status == ProposalStatus::Approved <==> p.approvals >= QUORUM_THRESHOLD)
}

/// Well-formedness of the store: the id of the proposal at position `i` is
/// `i + 1` (so ids run 1, 2, 3, ... in submission order and the counter sits
/// one past the end), every proposal is well formed, and the registry is
/// small enough that a voter count always fits the counter's machine type.
pub open spec fn store_wf(m: StoreModel) -> bool {
    &&& m.next_proposal_id == m.proposals.len() + 1
    &&& forall|i: int| 0 <= i < m.proposals.len() ==> (#[trigger] m.proposals[i]).id == i + 1
    &&& forall|i: int|
        0 <= i < m.proposals.len() ==> proposal_wf(#[trigger] m.proposals[i], m.validators)
    &&& m.validators.len() < u32::MAX
}

/// A well-formed proposal has no more votes than the registry has entries:
/// its voters are pairwise distinct and all drawn from the registry.
pub proof fn lemma_voter_count_bounded(p: ProposalModel, registry: Seq<Seq<char>>)
    requires
        proposal_wf(p, registry),
    ensures
        p.approvals <= registry.len(),
{
    broadcast use vstd::seq_lib::seq_to_set_is_finite;

    p.validators.unique_seq_to_set();
    registry.lemma_cardinality_of_set();
    assert forall|a: Seq<char>| p.validators.to_set().contains(a) implies registry.to_set().contains(
        a,
    ) by {
        let j = choose|j: int| 0 <= j < p.validators.len() && p.validators[j] == a;
        assert(registry.contains(p.validators[j]));
    };
    lemma_len_subset(p.validators.to_set(), registry.to_set());
}

/// In a well-formed store, the proposal carrying `id` sits at position
/// `id - 1`: the linear-scan lookup and the id arithmetic agree.
pub proof fn lemma_index_of_id(m: StoreModel, id: int)
    requires
        store_wf(m),
        contains_id(m.proposals, id),
    ensures
        1 <= id <= m.proposals.len(),
        index_of_id(m.proposals, id) == id - 1,
        m.proposals[id - 1].id == id,
{
    let i = index_of_id(m.proposals, id);
    assert(0 <= i < m.proposals.len() && m.proposals[i].id == id);
    assert(m.proposals[i].id == i + 1);
}

/// Ids are assigned strictly increasing from 1 with no gaps and no reuse:
/// position `i` holds id `i + 1`, so later submissions carry larger ids.
pub proof fn lemma_ids_sequential(m: StoreModel)
    requires
        store_wf(m),
    ensures
        forall|i: int| 0 <= i < m.proposals.len() ==> (#[trigger] m.proposals[i]).id == i + 1,
        forall|i: int, j: int|
            0 <= i < j < m.proposals.len() ==> (#[trigger] m.proposals[i]).id < (
            #[trigger] m.proposals[j]).id,
{
}

/// After every operation, each approval count equals the length of the
/// proposal's voter list.
pub proof fn lemma_approval_count_matches_voters(m: StoreModel)
    requires
        store_wf(m),
    ensures
        forall|i: int|
            0 <= i < m.proposals.len() ==> (#[trigger] m.proposals[i]).approvals
                == m.proposals[i].validators.len(),
{
}

/// No address appears twice in any proposal's voter list.
pub proof fn lemma_voter_lists_distinct(m: StoreModel)
    requires
        store_wf(m),
    ensures
        forall|i: int|
            0 <= i < m.proposals.len() ==> (#[trigger] m.proposals[i]).validators.no_duplicates(),
{
}

/// A proposal's status is `Approved` exactly when its approval count has
/// reached the quorum threshold.
pub proof fn lemma_quorum_approved(m: StoreModel)
    requires
        store_wf(m),
    ensures
        forall|i: int|
            0 <= i < m.proposals.len() ==> ((#[trigger] m.proposals[i]).status
                == ProposalStatus::Approved <==> m.proposals[i].approvals >= QUORUM_THRESHOLD),
{
}

/// A submission preserves well-formedness: the fresh proposal takes the next
/// sequential id, starts `Pending` with no votes, and disturbs nothing else.
pub proof fn lemma_submit_step_preserves_wf(
    m: StoreModel,
    github_pr_url: Seq<char>,
    description: Seq<char>,
    hunter_address: Seq<char>,
    timestamp: int,
)
    requires
        store_wf(m),
    ensures
        store_wf(submit_step(m, github_pr_url, description, hunter_address, timestamp)),
{
    let m2 = submit_step(m, github_pr_url, description, hunter_address, timestamp);
    assert forall|i: int| 0 <= i < m2.proposals.len() implies proposal_wf(
        #[trigger] m2.proposals[i],
        m2.validators,
    ) by {
        if i < m.proposals.len() {
            assert(m2.proposals[i] == m.proposals[i]);
        } else {
            assert(m2.proposals[i].validators.len() == 0);
        }
    };
}

/// An approval preserves well-formedness. On an error nothing changes; on
/// success the target's voter list grows by the one new, distinct, registered
/// voter, its count follows, and its status follows the quorum rule.
pub proof fn lemma_approve_step_preserves_wf(m: StoreModel, id: int, addr: Seq<char>)
    requires
        store_wf(m),
    ensures
        store_wf(approve_step(m, id, addr)),
{
    if approve_error(m, id, addr) is None {
        lemma_index_of_id(m, id);
        let i = id - 1;
        let p = m.proposals[i];
        let p2 = vote_recorded(p, addr);
        let m2 = approve_step(m, id, addr);
        assert(m2.proposals == m.proposals.update(i, p2));
        assert(!p.validators.contains(addr));
        let vs2 = p.validators.push(addr);
        assert forall|x: int, y: int|
            0 <= x < vs2.len() && 0 <= y < vs2.len() && x != y implies vs2[x] != vs2[y] by {
            if x < p.validators.len() && y < p.validators.len() {
                assert(p.validators.no_duplicates());
            } else if x == p.validators.len() && y < p.validators.len() {
                if vs2[x] == vs2[y] {
                    assert(p.validators[y] == addr);
                    assert(p.validators.contains(addr));
                }
            } else if y == p.validators.len() && x < p.validators.len() {
                if vs2[x] == vs2[y] {
                    assert(p.validators[x] == addr);
                    assert(p.validators.contains(addr));
                }
            }
        };
        assert(vs2.no_duplicates());
        assert forall|j: int| 0 <= j < vs2.len() implies m.validators.contains(
            #[trigger] vs2[j],
        ) by {
            if j < p.validators.len() {
                assert(m.validators.contains(p.validators[j]));
            }
        };
        assert(proposal_wf(p2, m.validators));
        assert forall|k: int| 0 <= k < m2.proposals.len() implies proposal_wf(
            #[trigger] m2.proposals[k],
            m2.validators,
        ) by {
            if k != i {
                assert(m2.proposals[k] == m.proposals[k]);
            }
        };
    }
}

/// An approval never moves a proposal's status away from `Approved`, whether
/// it targets that proposal or any other.
pub proof fn lemma_approved_stable(m: StoreModel, id: int, addr: Seq<char>, i: int)
    requires
        store_wf(m),
        0 <= i < m.proposals.len(),
        m.proposals[i].status == ProposalStatus::Approved,
    ensures
        approve_step(m, id, addr).proposals[i].status == ProposalStatus::Approved,
        approve_step(m, id, addr).proposals.len() == m.proposals.len(),
{
    if approve_error(m, id, addr) is None {
        lemma_index_of_id(m, id);
    }
}

/// Approvals never reorder, add or drop proposals: every position keeps its
/// id, so a listing stays in submission order whatever was approved when.
pub proof fn lemma_approval_preserves_order(m: StoreModel, id: int, addr: Seq<char>)
    requires
        store_wf(m),
    ensures
        approve_step(m, id, addr).proposals.len() == m.proposals.len(),
        forall|i: int|
            0 <= i < m.proposals.len() ==> (#[trigger] approve_step(m, id, addr).proposals[i]).id
                == m.proposals[i].id,
{
    if approve_error(m, id, addr) is None {
        lemma_index_of_id(m, id);
    }
}

/// An approval by an address outside the registry fails with `Unauthorized`
/// and leaves the store exactly as it was.
pub proof fn lemma_unauthorized_rejected(m: StoreModel, id: int, addr: Seq<char>)
    requires
        !m.validators.contains(addr),
    ensures
        approve_error(m, id, addr) == Some(ProposalError::Unauthorized),
        approve_step(m, id, addr) == m,
{
}

/// An approval by a registered validator of an id no proposal carries fails
/// with `NotFound` and leaves the store exactly as it was. (An unregistered
/// address is reported as `Unauthorized` first, whatever the id.)
pub proof fn lemma_missing_id_rejected(m: StoreModel, id: int, addr: Seq<char>)
    requires
        m.validators.contains(addr),
        !contains_id(m.proposals, id),
    ensures
        approve_error(m, id, addr) == Some(ProposalError::NotFound),
        approve_step(m, id, addr) == m,
{
}

/// Voting twice with the same pair: after a successful approval of `id` by
/// `addr`, the count of that proposal has risen by exactly one, and the same
/// approval attempted again fails with `AlreadyVoted` and changes nothing.
pub proof fn lemma_repeat_vote_rejected(m: StoreModel, id: int, addr: Seq<char>)
    requires
        store_wf(m),
        approve_error(m, id, addr) is None,
    ensures
        ({
            let m2 = approve_step(m, id, addr);
            &&& m2.proposals[id - 1].approvals == m.proposals[id - 1].approvals + 1
            &&& approve_error(m2, id, addr) == Some(ProposalError::AlreadyVoted)
            &&& approve_step(m2, id, addr) == m2
        }),
{
    lemma_index_of_id(m, id);
    lemma_approve_step_preserves_wf(m, id, addr);
    let m2 = approve_step(m, id, addr);
    assert(m2.proposals[id - 1].id == id);
    assert(contains_id(m2.proposals, id));
    lemma_index_of_id(m2, id);
    let vs2 = m2.proposals[id - 1].validators;
    assert(vs2 == m.proposals[id - 1].validators.push(addr));
    assert(vs2[vs2.len() - 1] == addr);
    assert(has_voted(m2.proposals[id - 1], addr));
}

} // verus!
