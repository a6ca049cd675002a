use vstd::prelude::*;

use crate::address::IpAddress;
use crate::resolver::{lookup_view, resolution, resolve};

verus! {

/// One entry of the target list as the configuration gave it, with what the
/// literal parse produced and, where that failed, what name resolution produced
/// (`None` when resolution itself failed).
pub struct Candidate {
    pub label: String,
    pub literal: Option<IpAddress>,
    pub looked_up: Option<Vec<IpAddress>>,
}

/// A resolved target: the user's label and the address probed.
pub struct Target {
    pub label: String,
    pub address: IpAddress,
}

/// The targets a run probes, in input order, and how many entries were dropped
/// because they did not resolve.
pub struct Plan {
    pub targets: Vec<Target>,
    pub dropped: usize,
}

impl View for Target {
    type V = (Seq<char>, IpAddress);

    open spec fn view(&self) -> (Seq<char>, IpAddress) {
        (self.label@, self.address)
    }
}

/// The address an entry resolves to, if any.
pub open spec fn candidate_resolution(c: Candidate) -> Option<IpAddress> {
    resolution(c.literal, lookup_view(&c.looked_up))
}

/// The resolved entries of `cs`, in their order, each with its label.
pub open spec fn planned(cs: Seq<Candidate>) -> Seq<(Seq<char>, IpAddress)>
    decreases cs.len(),
{
    if cs.len() == 0 {
        Seq::empty()
    } else {
        let rest = planned(cs.drop_last());
        match candidate_resolution(cs.last()) {
            Some(a) => rest.push((cs.last().label@, a)),
            None => rest,
        }
    }
}

/// How many entries of `cs` do not resolve.
pub open spec fn unresolved_count(cs: Seq<Candidate>) -> nat
    decreases cs.len(),
{
    if cs.len() == 0 {
        0
    } else {
        unresolved_count(cs.drop_last()) + if candidate_resolution(cs.last()) is None {
            1nat
        } else {
            0nat
        }
    }
}

/// Every entry either becomes a target or is counted as dropped.
pub proof fn lemma_plan_accounts_for_all(cs: Seq<Candidate>)
    ensures
        planned(cs).len() + unresolved_count(cs) == cs.len(),
    decreases cs.len(),
{
    if cs.len() > 0 {
        lemma_plan_accounts_for_all(cs.drop_last());
    }
}

/// Resolves every entry in input order and keeps those that resolved; the others
/// are dropped without error and only counted.
pub fn plan_targets(candidates: &Vec<Candidate>) -> (p: Plan)
    ensures
        p.targets@.map_values(|t: Target| t@) == planned(candidates@),
        p.dropped == unresolved_count(candidates@),
{
    let mut targets: Vec<Target> = Vec::new();
    let mut dropped: usize = 0;
    let mut i: usize = 0;
    while i < candidates.len()
        invariant
            i <= candidates@.len(),
            targets@.map_values(|t: Target| t@) == planned(candidates@.subrange(0, i as int)),
            dropped == unresolved_count(candidates@.subrange(0, i as int)),
        decreases candidates@.len() - i,
    {
        let c = &candidates[i];
        let ghost prefix = candidates@.subrange(0, i as int + 1);
        assert(prefix.drop_last() =~= candidates@.subrange(0, i as int));
        assert(prefix.last() == *c);
        proof {
            lemma_plan_accounts_for_all(candidates@.subrange(0, i as int));
        }
        match resolve(c.literal, &c.looked_up) {
            Some(a) => {
                let label = c.label.clone();
                targets.push(Target { label, address: a });
                assert(targets@.map_values(|t: Target| t@) =~= planned(prefix));
            },
            None => {
                dropped = dropped + 1;
            },
        }
        i = i + 1;
    }
    assert(candidates@.subrange(0, i as int) =~= candidates@);
    Plan { targets, dropped }
}

} // verus!
