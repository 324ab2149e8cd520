//! Proposal records, their status domain, and the approval error taxonomy.

use vstd::prelude::*;

use crate::model::ProposalModel;

verus! {

/// Lifecycle status of a proposal. `Rejected` and `Disputed` belong to the
/// status domain for forward compatibility: no operation of this core
/// produces them, but they must stay representable.
#[derive(Clone, Copy, PartialEq, Eq, Structural, Debug)]
pub enum ProposalStatus {
    Pending,
    Approved,
    Rejected,
    Disputed,
}

/// Why an approval attempt was refused. All three are expected, recoverable
/// conditions reported to the caller.
#[derive(Clone, Copy, PartialEq, Eq, Structural, Debug)]
pub enum ProposalError {
    /// The acting address is not a registered validator.
    Unauthorized,
    /// No proposal carries the requested id.
    NotFound,
    /// The acting validator has already voted on this proposal.
    AlreadyVoted,
}

/// A unit of submitted work awaiting validator approval. `validators` lists
/// the addresses that have voted, in vote order.
#[derive(Debug, PartialEq, Eq)]
pub struct Proposal {
    pub id: u32,
    pub hunter_address: String,
    pub github_pr_url: String,
    pub description: String,
    pub status: ProposalStatus,
    pub approvals: u32,
    pub validators: Vec<String>,
    pub timestamp: u64,
}

impl View for Proposal {
    type V = ProposalModel;

    open spec fn view(&self) -> ProposalModel {
        ProposalModel {
            id: self.id as int,
            hunter_address: self.hunter_address@,
            github_pr_url: self.github_pr_url@,
            description: self.description@,
            status: self.status,
            approvals: self.approvals as int,
            validators: self.validators.deep_view(),
            timestamp: self.timestamp as int,
        }
    }
}

impl DeepView for Proposal {
    type V = ProposalModel;

    open spec fn deep_view(&self) -> ProposalModel {
        self.view()
    }
}

impl Clone for Proposal {
    /// A value copy: the clone has the same mathematical value as the
    /// original, so snapshots do not alias the store.
    fn clone(&self) -> (r: Self)
        ensures
            r@ == self@,
    {
        let validators = self.validators.clone();
        proof {
            assert forall|i: int| 0 <= i < validators@.len() implies validators@[i]
                == self.validators@[i] by {
                assert(vstd::pervasive::cloned::<String>(self.validators@[i], validators@[i]));
            };
            assert(validators@ =~= self.validators@);
        }
        Proposal {
            id: self.id,
            hunter_address: self.hunter_address.clone(),
            github_pr_url: self.github_pr_url.clone(),
            description: self.description.clone(),
            status: self.status,
            approvals: self.approvals,
            validators,
            timestamp: self.timestamp,
        }
    }
}

} // verus!
