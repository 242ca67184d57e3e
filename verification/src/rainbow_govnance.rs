use vstd::prelude::*;

use crate::account::AccountId;
use crate::keyed_map::KeyedMap;

verus! {

/// A proposal to the protocol.
pub struct Proposal {
    pub title: String,
    pub desc: String,
    pub start_block: u64,
    pub end_block: u64,
    pub for_votes: u64,
    pub against_votes: u64,
    pub owner: AccountId,
    pub proposal_id: u64,
    pub canceled: bool,
}

/// Emitted when a proposal is created.
#[derive(Clone, Debug)]
pub struct ProposalCreated {
    pub proposal_id: u64,
    pub creator: AccountId,
    pub title: String,
}

#[derive(Clone, Copy, Debug, PartialEq, Eq, Structural)]
pub enum ProposalState {
    Canceled,
    Pending,
    Active,
    Defeated,
    Succeeded,
}

/// The state of a proposal at `block`, where the contract decides one: canceled, or
/// pending until its start block.
pub open spec fn state_of(p: &Proposal, block: u32) -> Option<ProposalState> {
    if p.canceled {
        Some(ProposalState::Canceled)
    } else if block <= p.start_block {
        Some(ProposalState::Pending)
    } else {
        None
    }
}

/// Proposals to the protocol, numbered from 0.
pub struct RainbowGovnance {
    owner: AccountId,
    proposals: KeyedMap<u64, Proposal>,
    voting_delay: u64,
    voting_period: u64,
    proposal_length: u64,
    events: Vec<ProposalCreated>,
}

impl RainbowGovnance {
    pub closed spec fn wf(&self) -> bool {
        &&& self.proposals.wf()
        &&& forall|k: u64| #[trigger] self.proposals.as_map().contains_key(k) <==> k < self.proposal_length
        &&& forall|k: u64| #[trigger] self.proposals.as_map().contains_key(k) ==> self.proposals.as_map()[k].proposal_id == k
    }

    pub closed spec fn spec_owner(&self) -> AccountId {
        self.owner
    }

    pub closed spec fn spec_voting_delay(&self) -> u64 {
        self.voting_delay
    }

    pub closed spec fn spec_voting_period(&self) -> u64 {
        self.voting_period
    }

    pub closed spec fn spec_proposal_length(&self) -> u64 {
        self.proposal_length
    }

    pub closed spec fn proposal_map(&self) -> Map<u64, Proposal> {
        self.proposals.as_map()
    }

    pub closed spec fn event_log(&self) -> Seq<ProposalCreated> {
        self.events@
    }

    pub fn new(caller: AccountId) -> (r: Self)
        ensures
            r.wf(),
            r.spec_owner() == caller,
            r.spec_voting_delay() == 1,
            r.spec_voting_period() == 259200,
            r.spec_proposal_length() == 0,
            r.proposal_map() == Map::<u64, Proposal>::empty(),
            r.event_log() == Seq::<ProposalCreated>::empty(),
    {
        RainbowGovnance {
            owner: caller,
            proposals: KeyedMap::new(),
            voting_delay: 1,
            voting_period: 259200,  //3 days
            proposal_length: 0,
            events: Vec::new(),
        }
    }

    /// Create a proposal by the caller under the next id (counting from 0), whose
    /// voting starts `voting_delay` blocks after `block` and lasts `voting_period` blocks.
    pub fn propose(&mut self, caller: AccountId, block: u32, title: String, desc: String) -> (r: bool)
        requires
            old(self).wf(),
            block + old(self).spec_voting_delay() + old(self).spec_voting_period() <= u64::MAX,
            old(self).spec_proposal_length() < u64::MAX,
        ensures
            r,
            final(self).wf(),
            final(self).spec_proposal_length() == old(self).spec_proposal_length() + 1,
            ({
                let id = old(self).spec_proposal_length();
                let p = final(self).proposal_map()[id];
                &&& final(self).proposal_map() == old(self).proposal_map().insert(id, p)
                &&& p.proposal_id == id
                &&& p.title@ == title@
                &&& p.desc@ == desc@
                &&& p.start_block == block + old(self).spec_voting_delay()
                &&& p.end_block == block + old(self).spec_voting_delay() + old(self).spec_voting_period()
                &&& p.for_votes == 0
                &&& p.against_votes == 0
                &&& p.owner == caller
                &&& !p.canceled
                &&& final(self).event_log().len() == old(self).event_log().len() + 1
                &&& final(self).event_log().drop_last() == old(self).event_log()
                &&& final(self).event_log().last().proposal_id == id
                &&& final(self).event_log().last().creator == caller
                &&& final(self).event_log().last().title@ == title@
            }),
            final(self).spec_owner() == old(self).spec_owner(),
            final(self).spec_voting_delay() == old(self).spec_voting_delay(),
            final(self).spec_voting_period() == old(self).spec_voting_period(),
    {
        let start_block = block as u64 + self.voting_delay;
        let end_block = start_block + self.voting_period;
        let proposal_id = self.proposal_length;
        self.proposal_length = self.proposal_length + 1;
        let event = ProposalCreated { proposal_id, creator: caller, title: title.clone() };
        let proposal_info = Proposal {
            proposal_id,
            title,
            desc,
            start_block,
            end_block,
            for_votes: 0,
            against_votes: 0,
            owner: caller,
            canceled: false,
        };
        self.proposals.insert(proposal_id, proposal_info);
        self.events.push(event);
        proof {
            assert(self.event_log().drop_last() =~= old(self).event_log());
        }
        true
    }

    /// The state of an existing proposal at `block`, where the contract decides one.
    pub fn state(&self, index: u64, block: u32) -> (r: Option<ProposalState>)
        requires
            self.wf(),
            self.proposal_map().contains_key(index),
        ensures
            r == state_of(&self.proposal_map()[index], block),
    {
        let proposal = match self.proposals.get(&index) {
            Some(p) => p,
            None => {
                assert(false);
                return None;
            },
        };
        if proposal.canceled {
            Some(ProposalState::Canceled)
        } else if block as u64 <= proposal.start_block {
            Some(ProposalState::Pending)
        } else {
            None
        }
    }
}

impl RainbowGovnance {
    /// The proposals are recorded exactly under the ids below the number of proposals,
    /// each under its own id.
    pub proof fn law_proposal_ids(&self, k: u64)
        requires
            self.wf(),
        ensures
            self.proposal_map().contains_key(k) <==> k < self.spec_proposal_length(),
            self.proposal_map().contains_key(k) ==> self.proposal_map()[k].proposal_id == k,
    {
        assert(self.proposals.as_map().contains_key(k) == self.proposal_map().contains_key(k));
    }
}

} // verus!
