//! The executable proposal store, proved to follow the abstract model.

use vstd::prelude::*;

use crate::model;
use crate::model::ProposalModel;
use crate::model::StoreModel;
use crate::proposal::Proposal;
use crate::proposal::ProposalError;
use crate::proposal::ProposalStatus;
use crate::registry::address_list_contains;
use crate::registry::ValidatorRegistry;

verus! {

/// Seconds in the fixed placeholder bounty window that `get_time_left`
/// reports. A stub value, not computed from any proposal's timestamp.
pub const BOUNTY_WINDOW_SECONDS: u64 = 86400;

/// The owning store: the validator registry, the proposals in submission
/// order, and the next id to assign. Every operation preserves
/// [`model::store_wf`] of the view.
#[derive(Debug)]
pub struct BountyInterface {
    pub contract_address: String,
    pub proposals: Vec<Proposal>,
    pub validators: ValidatorRegistry,
    pub next_proposal_id: u32,
}

impl View for BountyInterface {
    type V = StoreModel;

    open spec fn view(&self) -> StoreModel {
        StoreModel {
            contract_address: self.contract_address@,
            proposals: self.proposals.deep_view(),
            validators: self.validators@,
            next_proposal_id: self.next_proposal_id as int,
        }
    }
}

/// Position of the first proposal carrying `proposal_id`, if any.
fn find_by_id(proposals: &Vec<Proposal>, proposal_id: u32) -> (r: Option<usize>)
    ensures
        (match r {
            Some(i) => i < proposals.len() && proposals.deep_view()[i as int].id
                == proposal_id as int,
            None => !model::contains_id(proposals.deep_view(), proposal_id as int),
        }),
{
    let mut i: usize = 0;
    while i < proposals.len()
        invariant
            i <= proposals.len(),
            forall|j: int| 0 <= j < i ==> proposals.deep_view()[j].id != proposal_id as int,
        decreases proposals.len() - i,
    {
        if proposals[i].id == proposal_id {
            proof {
                assert(proposals.deep_view()[i as int].id == proposal_id as int);
            }
            return Some(i);
        }
        i += 1;
    }
    None
}

impl BountyInterface {
    /// A store owning the given contract address, with that address as the
    /// single registered validator, no proposals, and the id counter at 1.
    pub fn new(address: String) -> (r: Self)
        ensures
            r@.contract_address == address@,
            r@.proposals == Seq::<ProposalModel>::empty(),
            r@.validators == seq![address@],
            r@.next_proposal_id == 1,
            model::store_wf(r@),
    {
        let contract_address = address.clone();
        let validators = ValidatorRegistry::new(address);
        let r = BountyInterface {
            contract_address,
            proposals: Vec::new(),
            validators,
            next_proposal_id: 1,
        };
        proof {
            assert(r@.proposals =~= Seq::<ProposalModel>::empty());
        }
        r
    }

    /// Submission: assigns the current counter value as the id, appends the
    /// proposal `Pending` with no votes under the caller-supplied timestamp,
    /// advances the counter, and returns the assigned id. Never fails.
    pub fn submit_proposal(
        &mut self,
        github_pr_url: String,
        description: String,
        hunter_address: String,
        timestamp: u64,
    ) -> (r: u32)
        requires
            model::store_wf(old(self)@),
            old(self).next_proposal_id < u32::MAX,
        ensures
            model::store_wf(final(self)@),
            final(self)@ == model::submit_step(
                old(self)@,
                github_pr_url@,
                description@,
                hunter_address@,
                timestamp as int,
            ),
            r == old(self).next_proposal_id,
    {
        let ghost url = github_pr_url@;
        let ghost desc = description@;
        let ghost hunter = hunter_address@;
        let id = self.next_proposal_id;
        let proposal = Proposal {
            id,
            hunter_address,
            github_pr_url,
            description,
            status: ProposalStatus::Pending,
            approvals: 0,
            validators: Vec::new(),
            timestamp,
        };
        let ghost pm = proposal@;
        proof {
            assert(pm.validators =~= Seq::<Seq<char>>::empty());
            assert(pm =~= model::fresh_proposal(id as int, url, desc, hunter, timestamp as int));
        }
        self.proposals.push(proposal);
        self.next_proposal_id = id + 1;
        proof {
            model::lemma_submit_step_preserves_wf(old(self)@, url, desc, hunter, timestamp as int);
            assert(self.proposals.deep_view() =~= old(self).proposals.deep_view().push(pm));
            assert(self@ =~= model::submit_step(old(self)@, url, desc, hunter, timestamp as int));
        }
        id
    }

    /// Approval: checks validator standing, then existence of the id, then
    /// the repeat-vote rule, in that order; the first failing check decides
    /// the error and no failure path mutates anything. On success the voter
    /// is appended, the count rises by one, and the status becomes `Approved`
    /// exactly when the new count reaches the quorum threshold.
    pub fn approve_proposal(&mut self, proposal_id: u32, validator_address: String) -> (r: Result<
        (),
        ProposalError,
    >)
        requires
            model::store_wf(old(self)@),
        ensures
            model::store_wf(final(self)@),
            final(self)@ == model::approve_step(old(self)@, proposal_id as int, validator_address@),
            (match model::approve_error(old(self)@, proposal_id as int, validator_address@) {
                None => r == Ok::<(), ProposalError>(()),
                Some(e) => r == Err::<(), ProposalError>(e),
            }),
    {
        let ghost m0 = self@;
        let ghost addr = validator_address@;
        let ghost gid = proposal_id as int;
        if !self.validators.is_validator(&validator_address) {
            return Err(ProposalError::Unauthorized);
        }
        let i = match find_by_id(&self.proposals, proposal_id) {
            None => {
                return Err(ProposalError::NotFound);
            },
            Some(i) => i,
        };
        proof {
            assert(model::contains_id(m0.proposals, gid));
            model::lemma_index_of_id(m0, gid);
            assert(i as int == gid - 1);
        }
        let mut p = self.proposals.remove(i);
        if address_list_contains(&p.validators, &validator_address) {
            self.proposals.insert(i, p);
            proof {
                assert(model::has_voted(m0.proposals[gid - 1], addr));
                assert(self.proposals@ =~= old(self).proposals@);
                assert(self@ =~= m0);
            }
            return Err(ProposalError::AlreadyVoted);
        }
        proof {
            assert(!model::has_voted(m0.proposals[gid - 1], addr));
            assert(model::approve_error(m0, gid, addr) is None);
            model::lemma_voter_count_bounded(m0.proposals[gid - 1], m0.validators);
            assert(p@ == m0.proposals[gid - 1]);
            assert(p.approvals < u32::MAX);
        }
        let ghost p_before = p@;
        p.validators.push(validator_address);
        p.approvals = p.approvals + 1;
        if p.approvals >= model::QUORUM_THRESHOLD {
            p.status = ProposalStatus::Approved;
        }
        proof {
            assert(p.validators.deep_view() =~= p_before.validators.push(addr));
            assert(p@ =~= model::vote_recorded(p_before, addr));
        }
        self.proposals.insert(i, p);
        proof {
            model::lemma_approve_step_preserves_wf(m0, gid, addr);
            assert(self.proposals.deep_view() =~= m0.proposals.update(
                gid - 1,
                model::vote_recorded(p_before, addr),
            ));
            assert(self@ =~= model::approve_step(m0, gid, addr));
        }
        Ok(())
    }

    /// A read-only snapshot of all proposals in submission order. The result
    /// is a value copy, so later store mutation cannot alter it.
    pub fn get_proposals(&self) -> (r: Vec<Proposal>)
        ensures
            r.deep_view() == self@.proposals,
    {
        let r = self.proposals.clone();
        proof {
            assert forall|i: int| 0 <= i < r@.len() implies r@[i]@ == self.proposals@[i]@ by {
                assert(vstd::pervasive::cloned::<Proposal>(self.proposals@[i], r@[i]));
            };
            assert(r.deep_view() =~= self.proposals.deep_view());
        }
        r
    }

    /// Validator standing of `address`: delegates to the registry.
    pub fn is_validator(&self, address: String) -> (r: bool)
        ensures
            r == self@.validators.contains(address@),
    {
        self.validators.is_validator(&address)
    }

    /// The placeholder bounty countdown in seconds: the fixed window,
    /// uncorrelated with any proposal's timestamp or a real deadline.
    pub fn get_time_left(&self) -> (r: u64)
        ensures
            r == BOUNTY_WINDOW_SECONDS,
    {
        BOUNTY_WINDOW_SECONDS
    }
}

} // verus!
