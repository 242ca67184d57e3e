use vstd::prelude::*;

use crate::account::AccountId;
use crate::keyed_map::KeyedMap;

verus! {

/// A proposal: its index, name, category, the time it was created, the time its vote
/// closes and the votes it got.
#[derive(Clone, Debug)]
pub struct Porposal {
    pub index: u64,
    pub name: String,
    pub category: u32,
    pub start_time: u64,
    pub time: u64,
    pub vote: u64,
}

impl Porposal {
    pub open spec fn same_as(&self, other: &Porposal) -> bool {
        &&& self.index == other.index
        &&& self.name@ == other.name@
        &&& self.category == other.category
        &&& self.start_time == other.start_time
        &&& self.time == other.time
        &&& self.vote == other.vote
    }

    pub fn duplicate(&self) -> (r: Porposal)
        ensures
            r.same_as(self),
    {
        Porposal {
            index: self.index,
            name: self.name.clone(),
            category: self.category,
            start_time: self.start_time,
            time: self.time,
            vote: self.vote,
        }
    }
}

/// Status of a proposal that is open for voting.
pub const STATUS_VOTING: u32 = 1;

/// Status of a proposal that got enough votes.
pub const STATUS_PASSED: u32 = 2;

/// Votes a proposal needs to pass.
pub const PASS_VOTES: u64 = 20;

/// Proposals of a dao, voted on by token holders, one vote per holder.
pub struct DaoProposal {
    manager_address: AccountId,
    proposal_id: u64,
    proposal_name: String,
    proposal_category: u32,
    vote_time: u64,
    proposal_check_status: KeyedMap<(String, u64), u32>,
    erc20_address: AccountId,
    all_proposal: Porposal,
    a_proposals: KeyedMap<u64, Porposal>,
    proposal_vote: KeyedMap<String, u64>,
    voted_list: KeyedMap<AccountId, u64>,
    pass_ratio: u32,
    vote: u32,
}

impl DaoProposal {
    pub closed spec fn wf(&self) -> bool {
        &&& self.proposal_check_status.wf()
        &&& self.a_proposals.wf()
        &&& self.proposal_vote.wf()
        &&& self.voted_list.wf()
    }

    pub closed spec fn spec_manager(&self) -> AccountId {
        self.manager_address
    }

    pub closed spec fn spec_erc20_address(&self) -> AccountId {
        self.erc20_address
    }

    /// The id of the latest proposal.
    pub closed spec fn spec_proposal_id(&self) -> u64 {
        self.proposal_id
    }

    /// The latest proposal.
    pub closed spec fn latest(&self) -> Porposal {
        self.all_proposal
    }

    pub closed spec fn proposals(&self) -> Map<u64, Porposal> {
        self.a_proposals.as_map()
    }

    /// The status of each proposal, by name and id.
    pub closed spec fn statuses(&self) -> Map<(Seq<char>, u64), u32> {
        self.proposal_check_status.as_map()
    }

    /// The status of a proposal (0 when it has none).
    pub open spec fn status(&self, name: Seq<char>, id: u64) -> u32 {
        if self.statuses().contains_key((name, id)) {
            self.statuses()[(name, id)]
        } else {
            0
        }
    }

    /// The proposal each account last voted on.
    pub closed spec fn voted(&self) -> Map<AccountId, u64> {
        self.voted_list.as_map()
    }

    /// The id of the proposal `user` last voted on (0 when none).
    pub open spec fn voted_on(&self, user: AccountId) -> u64 {
        if self.voted().contains_key(user) {
            self.voted()[user]
        } else {
            0
        }
    }

    pub fn new(owner: AccountId, erc20_addr: AccountId) -> (r: Self)
        ensures
            r.wf(),
            r.spec_manager() == owner,
            r.spec_erc20_address() == erc20_addr,
            r.spec_proposal_id() == 0,
            r.proposals() == Map::<u64, Porposal>::empty(),
            r.statuses() == Map::<(Seq<char>, u64), u32>::empty(),
            r.voted() == Map::<AccountId, u64>::empty(),
    {
        DaoProposal {
            manager_address: owner,
            proposal_id: 0,
            proposal_name: String::new(),
            proposal_category: 0,
            pass_ratio: 0,
            vote_time: 0,
            vote: 0,
            proposal_check_status: KeyedMap::new(),
            erc20_address: erc20_addr,
            all_proposal: Porposal { index: 0, name: String::new(), category: 0, start_time: 0, time: 0, vote: 0 },
            a_proposals: KeyedMap::new(),
            proposal_vote: KeyedMap::new(),
            voted_list: KeyedMap::new(),
        }
    }

    /// Create a proposal whose vote closes at `vote_time`, a time not before `timestamp`,
    /// the current time. A vote that would close at once is refused (`false`, nothing
    /// changes); otherwise the proposal gets the next id, counting from 1, and is open
    /// for voting.
    pub fn creat_proposal(&mut self, proposal_name: String, proposal_category: u32, vote_time: u64, timestamp: u64) -> (r: bool)
        requires
            old(self).wf(),
            vote_time >= timestamp,
            vote_time > timestamp ==> old(self).spec_proposal_id() < u64::MAX,
        ensures
            final(self).wf(),
            r == (vote_time > timestamp),
            !r ==> *final(self) == *old(self),
            r ==> {
                let id = (old(self).spec_proposal_id() + 1) as u64;
                &&& final(self).spec_proposal_id() == id
                &&& final(self).proposals().contains_key(id)
                &&& final(self).proposals().remove(id) == old(self).proposals().remove(id)
                &&& final(self).proposals()[id].index == id
                &&& final(self).proposals()[id].name@ == proposal_name@
                &&& final(self).proposals()[id].category == proposal_category
                &&& final(self).proposals()[id].start_time == timestamp
                &&& final(self).proposals()[id].time == vote_time
                &&& final(self).proposals()[id].vote == 0
                &&& final(self).latest().same_as(&final(self).proposals()[id])
                &&& final(self).statuses() == old(self).statuses().insert((proposal_name@, id), STATUS_VOTING)
                &&& final(self).voted() == old(self).voted()
                &&& final(self).spec_manager() == old(self).spec_manager()
                &&& final(self).spec_erc20_address() == old(self).spec_erc20_address()
            },
    {
        let time = timestamp;
        if vote_time - time == 0 {
            return false;
        }
        self.proposal_id = self.proposal_id + 1;
        let p_status: u32 = STATUS_VOTING;
        let a = Porposal {
            index: self.proposal_id,
            name: proposal_name.clone(),
            category: proposal_category,
            start_time: time,
            time: vote_time,
            vote: 0,
        };
        self.a_proposals.insert(self.proposal_id, a.duplicate());
        self.all_proposal = a;
        let ghost key = (proposal_name@, self.proposal_id);
        self.proposal_check_status.insert((proposal_name, self.proposal_id), p_status);
        proof {
            assert(self.proposals().remove(self.proposal_id) =~= old(self).proposals().remove(self.proposal_id));
        }
        true
    }

    /// Vote on a proposal that is open for voting, with the caller's token balance
    /// `balance`, at time `timestamp`. The caller must not have voted on it last.
    /// Holders with no tokens, and votes outside the proposal's voting window (both
    /// ends excluded), change nothing. The vote that brings a proposal to the pass count
    /// marks it passed.
    pub fn proposal_voting(
        &mut self,
        caller: AccountId,
        proposal_name: String,
        proposal_id: u64,
        balance: u128,
        timestamp: u64,
    ) -> (r: bool)
        requires
            old(self).wf(),
            old(self).status(proposal_name@, proposal_id) == STATUS_VOTING,
            old(self).voted_on(caller) != proposal_id,
            balance > 0 ==> old(self).proposals().contains_key(proposal_id),
            balance > 0 && old(self).proposals().contains_key(proposal_id) ==> old(self).proposals()[proposal_id].vote < u64::MAX,
        ensures
            r,
            final(self).wf(),
            ({
                let counted = balance > 0 && old(self).proposals()[proposal_id].start_time < timestamp
                    && timestamp < old(self).proposals()[proposal_id].time;
                let new_votes = (old(self).proposals()[proposal_id].vote + 1) as u64;
                &&& !counted ==> *final(self) == *old(self)
                &&& counted ==> {
                    &&& final(self).proposals().dom() == old(self).proposals().dom()
                    &&& final(self).proposals().remove(proposal_id) == old(self).proposals().remove(proposal_id)
                    &&& final(self).proposals()[proposal_id].vote == new_votes
                    &&& final(self).proposals()[proposal_id].index == old(self).proposals()[proposal_id].index
                    &&& final(self).proposals()[proposal_id].name@ == old(self).proposals()[proposal_id].name@
                    &&& final(self).proposals()[proposal_id].category == old(self).proposals()[proposal_id].category
                    &&& final(self).proposals()[proposal_id].start_time == old(self).proposals()[proposal_id].start_time
                    &&& final(self).proposals()[proposal_id].time == old(self).proposals()[proposal_id].time
                    &&& final(self).voted() == old(self).voted().insert(caller, proposal_id)
                    &&& final(self).statuses() == if new_votes == PASS_VOTES {
                        old(self).statuses().insert((proposal_name@, proposal_id), STATUS_PASSED)
                    } else {
                        old(self).statuses()
                    }
                    &&& final(self).spec_manager() == old(self).spec_manager()
                    &&& final(self).spec_proposal_id() == old(self).spec_proposal_id()
                }
            }),
    {
        let status = self._check_status(proposal_name.clone(), proposal_id);
        let voted = self._check_voted(caller);
        let a = balance;
        let time = timestamp;
        if a > 0 {
            let mut b = match self.a_proposals.get(&proposal_id) {
                Some(p) => p.duplicate(),
                None => {
                    assert(false);
                    return true;
                },
            };
            if b.start_time < time && time < b.time {
                b.vote = b.vote + 1;
                let reached = b.vote == PASS_VOTES;
                let ghost bv = b;
                self.a_proposals.insert(proposal_id, b);
                self.voted_list.insert(caller, proposal_id);
                if reached {
                    let p_status: u32 = STATUS_PASSED;
                    self.proposal_check_status.insert((proposal_name, proposal_id), p_status);
                }
                proof {
                    assert(self.proposals().dom() =~= old(self).proposals().dom());
                    assert(self.proposals().remove(proposal_id) =~= old(self).proposals().remove(proposal_id));
                }
            }
        }
        true
    }

    /// The proposal `user_addr` last voted on (0 when none).
    pub fn _check_voted(&self, user_addr: AccountId) -> (r: u64)
        requires
            self.wf(),
        ensures
            r == self.voted_on(user_addr),
    {
        match self.voted_list.get_copy(&user_addr) {
            Some(v) => v,
            None => 0,
        }
    }

    /// The proposal `proposal_id`, if it exists.
    pub fn find_proposal(&self, proposal_id: u64) -> (r: Option<Porposal>)
        requires
            self.wf(),
        ensures
            r is Some <==> self.proposals().contains_key(proposal_id),
            r matches Some(p) ==> p.same_as(&self.proposals()[proposal_id]),
    {
        match self.a_proposals.get(&proposal_id) {
            Some(p) => Some(p.duplicate()),
            None => None,
        }
    }

    /// The status of a proposal (0 when it has none).
    pub fn _check_status(&self, proposal_name: String, proposal_id: u64) -> (r: u32)
        requires
            self.wf(),
        ensures
            r == self.status(proposal_name@, proposal_id),
    {
        match self.proposal_check_status.get_copy(&(proposal_name, proposal_id)) {
            Some(s) => s,
            None => 0,
        }
    }

    /// Remove a proposal; only the manager may.
    pub fn cancle_proposal(&mut self, caller: AccountId, proposal_id: u64) -> (r: bool)
        requires
            old(self).wf(),
            caller == old(self).spec_manager(),
        ensures
            r,
            final(self).wf(),
            final(self).proposals() == old(self).proposals().remove(proposal_id),
            final(self).statuses() == old(self).statuses(),
            final(self).voted() == old(self).voted(),
            final(self).spec_manager() == old(self).spec_manager(),
            final(self).spec_proposal_id() == old(self).spec_proposal_id(),
            final(self).spec_erc20_address() == old(self).spec_erc20_address(),
            final(self).latest() == old(self).latest(),
    {
        self.a_proposals.remove(&proposal_id);
        true
    }

    pub fn get_manager_addr(&self) -> (r: AccountId)
        ensures
            r == self.spec_manager(),
    {
        self.manager_address
    }

    /// Hand the manager role to `to`; only the manager may.
    pub fn set_new_manager_addr(&mut self, caller: AccountId, to: AccountId) -> (r: bool)
        requires
            caller == old(self).spec_manager(),
        ensures
            r,
            final(self).spec_manager() == to,
            final(self).proposals() == old(self).proposals(),
            final(self).statuses() == old(self).statuses(),
            final(self).voted() == old(self).voted(),
            final(self).wf() == old(self).wf(),
            final(self).spec_proposal_id() == old(self).spec_proposal_id(),
            final(self).spec_erc20_address() == old(self).spec_erc20_address(),
            final(self).latest() == old(self).latest(),
    {
        self.manager_address = to;
        true
    }

    /// An existing proposal.
    pub fn get_proposal_by_id(&self, proposal_id: u64) -> (r: Porposal)
        requires
            self.wf(),
            self.proposals().contains_key(proposal_id),
        ensures
            r.same_as(&self.proposals()[proposal_id]),
    {
        match self.a_proposals.get(&proposal_id) {
            Some(p) => p.duplicate(),
            None => {
                assert(false);
                Porposal { index: 0, name: String::new(), category: 0, start_time: 0, time: 0, vote: 0 }
            },
        }
    }
}

} // verus!
