//! The registry of addresses authorized to vote on proposals.

use vstd::prelude::*;

verus! {

/// Returns whether `address` occurs in `list`, by linear scan over the
/// character sequences of the entries.
pub(crate) fn address_list_contains(list: &Vec<String>, address: &String) -> (r: bool)
    ensures
        r == list.deep_view().contains(address@),
{
    let mut i: usize = 0;
    while i < list.len()
        invariant
            i <= list.len(),
            forall|j: int| 0 <= j < i ==> list.deep_view()[j] != address@,
        decreases list.len() - i,
    {
        if list[i] == *address {
            proof {
                assert(list.deep_view()[i as int] == address@);
            }
            return true;
        }
        i += 1;
    }
    false
}

/// The set of addresses authorized to vote, seeded with exactly one address
/// at construction. This core exposes no later addition or removal, so the
/// registry is effectively immutable.
#[derive(Debug)]
pub struct ValidatorRegistry {
    pub entries: Vec<String>,
}

impl View for ValidatorRegistry {
    type V = Seq<Seq<char>>;

    open spec fn view(&self) -> Seq<Seq<char>> {
        self.entries.deep_view()
    }
}

impl ValidatorRegistry {
    /// The registry is small enough that a count of distinct registered
    /// voters always fits a proposal's approval counter.
    pub open spec fn wf(self) -> bool {
        self@.len() < u32::MAX
    }

    /// The registry holding exactly the one seed address, marked active.
    pub fn new(seed_address: String) -> (r: Self)
        ensures
            r@ == seq![seed_address@],
            r.wf(),
    {
        let ghost seed = seed_address@;
        let mut entries: Vec<String> = Vec::new();
        entries.push(seed_address);
        let r = ValidatorRegistry { entries };
        proof {
            assert(r@ =~= seq![seed]);
        }
        r
    }

    /// Pure membership check: true exactly for addresses the registry holds.
    pub fn is_validator(&self, address: &String) -> (r: bool)
        ensures
            r == self@.contains(address@),
    {
        address_list_contains(&self.entries, address)
    }
}

} // verus!
