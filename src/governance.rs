use vstd::prelude::*;

verus! {

/// The governance component. Proposals and their tallies are kept by the
/// host; this library only sets up their bookkeeping.
#[derive(Clone, Copy, Debug)]
pub struct Governance {}

/// The governance bookkeeping: the id the next proposal gets and the
/// proposals still open.
#[derive(Debug)]
pub struct GovernanceState {
    pub next_proposal_id: u64,
    pub unfinished_proposals: Vec<u64>,
}

impl Governance {
    /// Sets up the bookkeeping at genesis: no open proposals, and the
    /// proposal counter at zero.
    pub fn init_chain(state: &mut GovernanceState)
        ensures
            final(state).next_proposal_id == 0,
            final(state).unfinished_proposals@.len() == 0,
    {
        state.unfinished_proposals = Vec::new();
        state.next_proposal_id = 0;
    }
}

} // verus!
