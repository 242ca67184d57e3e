use vstd::prelude::*;

use crate::account::AccountId;
use crate::keyed_map::KeyedMap;

verus! {

/// The voting details of one voter.
#[derive(Clone, Copy, Debug, PartialEq, Eq, Structural)]
pub struct Receipt {
    pub has_voted: bool,
    pub support: bool,
    pub votes: u128,
}

/// The call a proposal makes when it is executed.
#[derive(Clone, Debug)]
pub struct Transaction {
    /// The `AccountId` of the contract that is called in this transaction.
    pub callee: AccountId,
    /// The selector bytes that identifies the function of the callee that should be called.
    pub selector: [u8; 4],
    /// The SCALE encoded parameters that are passed to the called function.
    pub input: Vec<u8>,
    /// The amount of chain balance that is transferred to the callee.
    pub transferred_value: u128,
    /// Gas limit for the execution of the call.
    pub gas_limit: u64,
}

/// A copy of a byte string.
pub fn copy_bytes(v: &Vec<u8>) -> (r: Vec<u8>)
    ensures
        r@ == v@,
{
    let mut out: Vec<u8> = Vec::new();
    let n = v.len();
    for i in 0..n
        invariant
            n == v@.len(),
            out@ == v@.subrange(0, i as int),
    {
        out.push(v[i]);
        assert(out@ =~= v@.subrange(0, i + 1));
    }
    assert(out@ =~= v@);
    out
}

impl Transaction {
    pub open spec fn same_as(&self, other: &Transaction) -> bool {
        &&& self.callee == other.callee
        &&& self.selector@ == other.selector@
        &&& self.input@ == other.input@
        &&& self.transferred_value == other.transferred_value
        &&& self.gas_limit == other.gas_limit
    }

    pub fn duplicate(&self) -> (r: Transaction)
        ensures
            r.same_as(self),
    {
        Transaction {
            callee: self.callee,
            selector: self.selector,
            input: copy_bytes(&self.input),
            transferred_value: self.transferred_value,
            gas_limit: self.gas_limit,
        }
    }
}

/// A governance proposal.
pub struct Proposal {
    pub proposal_id: u64,
    pub title: String,
    pub desc: String,
    pub start_block: u32,
    pub end_block: u32,
    pub for_votes: u128,
    pub against_votes: u128,
    pub owner: AccountId,
    pub canceled: bool,
    pub executed: bool,
    pub receipts: KeyedMap<AccountId, Receipt>,
    pub transaction: Transaction,
}

impl Proposal {
    pub open spec fn wf(&self) -> bool {
        self.receipts.wf()
    }

    pub open spec fn same_as(&self, other: &Proposal) -> bool {
        &&& self.proposal_id == other.proposal_id
        &&& self.title@ == other.title@
        &&& self.desc@ == other.desc@
        &&& self.start_block == other.start_block
        &&& self.end_block == other.end_block
        &&& self.for_votes == other.for_votes
        &&& self.against_votes == other.against_votes
        &&& self.owner == other.owner
        &&& self.canceled == other.canceled
        &&& self.executed == other.executed
        &&& self.receipts.key_seq() == other.receipts.key_seq()
        &&& self.receipts.val_seq() == other.receipts.val_seq()
        &&& self.transaction.same_as(&other.transaction)
    }

    pub fn duplicate(&self) -> (r: Proposal)
        requires
            self.wf(),
        ensures
            r.wf(),
            r.same_as(self),
    {
        Proposal {
            proposal_id: self.proposal_id,
            title: self.title.clone(),
            desc: self.desc.clone(),
            start_block: self.start_block,
            end_block: self.end_block,
            for_votes: self.for_votes,
            against_votes: self.against_votes,
            owner: self.owner,
            canceled: self.canceled,
            executed: self.executed,
            receipts: self.receipts.duplicate(),
            transaction: self.transaction.duplicate(),
        }
    }
}

/// Emitted when a proposal is created.
#[derive(Clone, Copy, Debug, PartialEq, Eq, Structural)]
pub struct ProposalCreated {
    pub proposal_id: u64,
    pub creator: AccountId,
}

#[derive(Clone, Copy, Debug, PartialEq, Eq, Structural)]
pub enum ProposalState {
    Canceled,
    Pending,
    Active,
    Defeated,
    Succeeded,
    Executed,
    Expired,
    Queued,
}

/// The state of a proposal at `block`.
pub open spec fn state_of(p: &Proposal, block: u32) -> ProposalState {
    if p.canceled {
        ProposalState::Canceled
    } else if block <= p.start_block {
        ProposalState::Pending
    } else if block <= p.end_block {
        ProposalState::Active
    } else if p.for_votes <= p.against_votes {
        ProposalState::Defeated
    } else if p.executed {
        ProposalState::Executed
    } else if block > p.end_block {
        ProposalState::Expired
    } else {
        ProposalState::Queued
    }
}

/// The governance of the whole protocol: proposals voted on with the votes of the
/// governance token.
pub struct GovnanceDao {
    owner: AccountId,
    proposals: KeyedMap<u64, Proposal>,
    voting_delay: u32,
    voting_period: u32,
    proposal_length: u64,
    route_addr: AccountId,
    rbd_addr: AccountId,
    events: Vec<ProposalCreated>,
}

impl GovnanceDao {
    pub closed spec fn wf(&self) -> bool {
        &&& self.proposals.wf()
        &&& forall|k: u64| #[trigger] self.proposals.as_map().contains_key(k) ==> self.proposals.as_map()[k].wf()
        &&& forall|k: u64| #[trigger] self.proposals.as_map().contains_key(k) <==> 1 <= k <= self.proposal_length
        &&& forall|k: u64| #[trigger] self.proposals.as_map().contains_key(k) ==> self.proposals.as_map()[k].proposal_id == k
    }

    pub closed spec fn spec_owner(&self) -> AccountId {
        self.owner
    }

    pub closed spec fn spec_voting_delay(&self) -> u32 {
        self.voting_delay
    }

    pub closed spec fn spec_voting_period(&self) -> u32 {
        self.voting_period
    }

    pub closed spec fn spec_proposal_length(&self) -> u64 {
        self.proposal_length
    }

    pub closed spec fn spec_route_addr(&self) -> AccountId {
        self.route_addr
    }

    pub closed spec fn spec_rbd_addr(&self) -> AccountId {
        self.rbd_addr
    }

    pub closed spec fn proposal_map(&self) -> Map<u64, Proposal> {
        self.proposals.as_map()
    }

    /// The proposals in creation order.
    pub closed spec fn proposal_seq(&self) -> Seq<Proposal> {
        self.proposals.val_seq()
    }

    /// The ids of the proposals in creation order.
    pub closed spec fn proposal_ids(&self) -> Seq<u64> {
        self.proposals.key_seq()
    }

    /// The `i`-th proposal in creation order is the proposal of the `i`-th id.
    pub proof fn lemma_proposal_at(&self, i: int)
        requires
            self.wf(),
            0 <= i < self.proposal_ids().len(),
        ensures
            self.proposal_seq().len() == self.proposal_ids().len(),
            self.proposal_map().contains_key(self.proposal_ids()[i]),
            self.proposal_seq()[i] == self.proposal_map()[self.proposal_ids()[i]],
    {
        self.proposals.lemma_wf_lens();
        self.proposals.lemma_index(i);
    }

    pub closed spec fn event_log(&self) -> Seq<ProposalCreated> {
        self.events@
    }

    pub fn new(caller: AccountId, route_addr: AccountId, rbd_addr: AccountId) -> (r: Self)
        ensures
            r.wf(),
            r.spec_owner() == caller,
            r.spec_voting_delay() == 1,
            r.spec_voting_period() == 259200,
            r.spec_proposal_length() == 0,
            r.spec_route_addr() == route_addr,
            r.spec_rbd_addr() == rbd_addr,
            r.proposal_map() == Map::<u64, Proposal>::empty(),
            r.proposal_seq() == Seq::<Proposal>::empty(),
            r.event_log() == Seq::<ProposalCreated>::empty(),
    {
        GovnanceDao {
            owner: caller,
            proposals: KeyedMap::new(),
            voting_delay: 1,
            voting_period: 259200,  //3 days
            proposal_length: 0,
            route_addr,
            rbd_addr,
            events: Vec::new(),
        }
    }

    /// Create a proposal by the caller, whose voting starts `voting_delay` blocks after
    /// `block` and lasts `voting_period` blocks; it gets the next id, counting from 1.
    pub fn propose(
        &mut self,
        caller: AccountId,
        block: u32,
        title: String,
        desc: String,
        transaction: Transaction,
    ) -> (r: bool)
        requires
            old(self).wf(),
            block + old(self).spec_voting_delay() + old(self).spec_voting_period() <= u32::MAX,
            old(self).spec_proposal_length() < u64::MAX,
        ensures
            r,
            final(self).wf(),
            final(self).spec_proposal_length() == old(self).spec_proposal_length() + 1,
            ({
                let id = (old(self).spec_proposal_length() + 1) as u64;
                let p = final(self).proposal_map()[id];
                &&& final(self).proposal_map().dom() == old(self).proposal_map().dom().insert(id)
                &&& forall|k: u64| k != id && #[trigger] old(self).proposal_map().contains_key(k)
                    ==> final(self).proposal_map()[k] == old(self).proposal_map()[k]
                &&& p.proposal_id == id
                &&& p.title@ == title@
                &&& p.desc@ == desc@
                &&& p.start_block == block + old(self).spec_voting_delay()
                &&& p.end_block == block + old(self).spec_voting_delay() + old(self).spec_voting_period()
                &&& p.for_votes == 0
                &&& p.against_votes == 0
                &&& p.owner == caller
                &&& !p.canceled
                &&& !p.executed
                &&& p.receipts.as_map() == Map::<AccountId, Receipt>::empty()
                &&& p.transaction == transaction
                &&& final(self).event_log() == old(self).event_log().push(
                    ProposalCreated { proposal_id: id, creator: caller },
                )
                &&& final(self).proposal_seq() == old(self).proposal_seq().push(p)
                &&& final(self).proposal_ids() == old(self).proposal_ids().push(id)
            }),
            final(self).spec_owner() == old(self).spec_owner(),
            final(self).spec_voting_delay() == old(self).spec_voting_delay(),
            final(self).spec_voting_period() == old(self).spec_voting_period(),
            final(self).spec_route_addr() == old(self).spec_route_addr(),
            final(self).spec_rbd_addr() == old(self).spec_rbd_addr(),
    {
        let start_block = block + self.voting_delay;
        let end_block = start_block + self.voting_period;
        let proposal_id = self.proposal_length + 1;
        self.proposal_length = self.proposal_length + 1;
        let proposal_info = Proposal {
            proposal_id,
            title,
            desc,
            start_block,
            end_block,
            for_votes: 0,
            against_votes: 0,
            owner: caller,
            canceled: false,
            executed: false,
            receipts: KeyedMap::new(),
            transaction,
        };
        assert(!self.proposals.has(proposal_id)) by {
            if self.proposals.has(proposal_id) {
                self.proposals.lemma_has(proposal_id);
            }
        }
        self.proposals.insert(proposal_id, proposal_info);
        self.events.push(ProposalCreated { proposal_id, creator: caller });
        proof {
            assert(self.proposal_map().dom() =~= old(self).proposal_map().dom().insert(proposal_id));
        }
        true
    }

    /// The number of proposals made so far.
    pub fn proposal_length(&self) -> (r: u64)
        ensures
            r == self.spec_proposal_length(),
    {
        self.proposal_length
    }

    /// The blocks between a proposal and the start of its vote.
    pub fn voting_delay(&self) -> (r: u32)
        ensures
            r == self.spec_voting_delay(),
    {
        self.voting_delay
    }

    /// The blocks a vote lasts.
    pub fn voting_period(&self) -> (r: u32)
        ensures
            r == self.spec_voting_period(),
    {
        self.voting_period
    }

    /// Whether the proposal `proposal_id` exists.
    pub fn has_proposal(&self, proposal_id: u64) -> (r: bool)
        requires
            self.wf(),
        ensures
            r == self.proposal_map().contains_key(proposal_id),
    {
        self.proposals.contains_key(&proposal_id)
    }

    /// The receipt of `voter` on an existing proposal, if it holds one.
    pub fn receipt_of(&self, proposal_id: u64, voter: AccountId) -> (r: Option<Receipt>)
        requires
            self.wf(),
            self.proposal_map().contains_key(proposal_id),
        ensures
            r == if self.proposal_map()[proposal_id].receipts.as_map().contains_key(voter) {
                Some(self.proposal_map()[proposal_id].receipts.as_map()[voter])
            } else {
                None
            },
    {
        match self.proposals.get(&proposal_id) {
            Some(p) => p.receipts.get_copy(&voter),
            None => None,
        }
    }

    /// The state of an existing proposal at `block`.
    pub fn state(&self, proposal_id: u64, block: u32) -> (r: ProposalState)
        requires
            self.wf(),
            self.proposal_map().contains_key(proposal_id),
        ensures
            r == state_of(&self.proposal_map()[proposal_id], block),
    {
        let proposal = match self.proposals.get(&proposal_id) {
            Some(p) => p,
            None => {
                assert(false);
                return ProposalState::Canceled;
            },
        };
        if proposal.canceled {
            return ProposalState::Canceled;
        } else if block <= proposal.start_block {
            return ProposalState::Pending;
        } else if block <= proposal.end_block {
            return ProposalState::Active;
        } else if proposal.for_votes <= proposal.against_votes {
            return ProposalState::Defeated;
        } else if proposal.executed {
            return ProposalState::Executed;
        } else if block > proposal.end_block {
            return ProposalState::Expired;
        } else {
            return ProposalState::Queued;
        }
    }

    /// Everything but the proposals is as in `other`, and the same ids are recorded.
    pub open spec fn same_but_proposals(&self, other: &GovnanceDao) -> bool {
        &&& self.spec_owner() == other.spec_owner()
        &&& self.spec_voting_delay() == other.spec_voting_delay()
        &&& self.spec_voting_period() == other.spec_voting_period()
        &&& self.spec_proposal_length() == other.spec_proposal_length()
        &&& self.spec_route_addr() == other.spec_route_addr()
        &&& self.spec_rbd_addr() == other.spec_rbd_addr()
        &&& self.event_log() == other.event_log()
        &&& self.proposal_seq().len() == other.proposal_seq().len()
        &&& self.proposal_ids() == other.proposal_ids()
    }

    /// Cancel a proposal: only its owner may, and not once it was executed.
    pub fn cancel(&mut self, caller: AccountId, proposal_id: u64, block: u32) -> (r: bool)
        requires
            old(self).wf(),
            old(self).proposal_map().contains_key(proposal_id),
            state_of(&old(self).proposal_map()[proposal_id], block) != ProposalState::Executed,
            old(self).proposal_map()[proposal_id].owner == caller,
        ensures
            r,
            final(self).wf(),
            final(self).proposal_map() == old(self).proposal_map().insert(
                proposal_id,
                Proposal { canceled: true, ..old(self).proposal_map()[proposal_id] },
            ),
            final(self).same_but_proposals(old(self)),
    {
        let _state = self.state(proposal_id, block);
        let (_i, proposal) = match self.proposals.take(&proposal_id) {
            Some(t) => t,
            None => {
                assert(false);
                return true;
            },
        };
        let mut proposal = proposal;
        proposal.canceled = true;
        proof {
            assert(old(self).proposals.as_map().contains_key(proposal_id));
            assert(old(self).proposals.as_map()[proposal_id].wf());
        }
        self.proposals.insert_at(_i, proposal_id, proposal);
        proof {
            assert(self.proposals.key_seq() =~= old(self).proposals.key_seq());
            old(self).proposals.lemma_wf_lens();
            assert(self.proposals.val_seq().len() == old(self).proposals.val_seq().len());
            assert forall|k: u64| #[trigger] self.proposals.as_map().contains_key(k) <==> 1 <= k
                <= self.proposal_length by {
                assert(old(self).proposals.as_map().contains_key(k) == self.proposals.as_map().contains_key(k));
            }
        }
        true
    }

    /// Execute a queued proposal: it is marked executed, and the call the environment
    /// must make is returned.
    pub fn exec(&mut self, proposal_id: u64, block: u32) -> (r: Transaction)
        requires
            old(self).wf(),
            old(self).proposal_map().contains_key(proposal_id),
            state_of(&old(self).proposal_map()[proposal_id], block) == ProposalState::Queued,
        ensures
            r.same_as(&old(self).proposal_map()[proposal_id].transaction),
            final(self).wf(),
            final(self).proposal_map() == old(self).proposal_map().insert(
                proposal_id,
                Proposal { executed: true, ..old(self).proposal_map()[proposal_id] },
            ),
            final(self).same_but_proposals(old(self)),
    {
        let t = self.proposals.take(&proposal_id);
        proof {
            assert(old(self).proposals.as_map().contains_key(proposal_id));
            assert(old(self).proposals.as_map()[proposal_id].wf());
        }
        assert(t is Some);
        let (i, proposal) = t.unwrap();
        let mut proposal = proposal;
        let call = proposal.transaction.duplicate();
        proposal.executed = true;
        self.proposals.insert_at(i, proposal_id, proposal);
        proof {
            assert(self.proposals.key_seq() =~= old(self).proposals.key_seq());
            old(self).proposals.lemma_wf_lens();
            assert(self.proposals.val_seq().len() == old(self).proposals.val_seq().len());
            assert forall|k: u64| #[trigger] self.proposals.as_map().contains_key(k) <==> 1 <= k
                <= self.proposal_length by {
                assert(old(self).proposals.as_map().contains_key(k) == self.proposals.as_map().contains_key(k));
            }
        }
        call
    }

    /// The block whose votes count for a proposal: its start block.
    pub fn vote_snapshot_block(&self, proposal_id: u64) -> (r: u32)
        requires
            self.wf(),
            self.proposal_map().contains_key(proposal_id),
        ensures
            r == self.proposal_map()[proposal_id].start_block,
    {
        match self.proposals.get(&proposal_id) {
            Some(p) => p.start_block,
            None => {
                assert(false);
                0
            },
        }
    }

    /// The voting details of `voter` on `p` (not voted when it holds none).
    pub open spec fn receipt_in(p: &Proposal, voter: AccountId) -> Receipt {
        if p.receipts.as_map().contains_key(voter) {
            p.receipts.as_map()[voter]
        } else {
            Receipt { has_voted: false, support: false, votes: 0 }
        }
    }

    /// Vote on an active proposal with `votes`, the caller's votes at the proposal's
    /// start block: they are added to its votes for or against, and the caller's receipt
    /// records the vote. A caller votes once.
    pub fn cast_vote(&mut self, caller: AccountId, proposal_id: u64, support: bool, block: u32, votes: u128) -> (r: bool)
        requires
            old(self).wf(),
            old(self).proposal_map().contains_key(proposal_id),
            state_of(&old(self).proposal_map()[proposal_id], block) == ProposalState::Active,
            !Self::receipt_in(&old(self).proposal_map()[proposal_id], caller).has_voted,
            support ==> old(self).proposal_map()[proposal_id].for_votes + votes <= u128::MAX,
            !support ==> old(self).proposal_map()[proposal_id].against_votes + votes <= u128::MAX,
        ensures
            r,
            final(self).wf(),
            final(self).same_but_proposals(old(self)),
            final(self).proposal_map().dom() == old(self).proposal_map().dom(),
            final(self).proposal_map().remove(proposal_id) == old(self).proposal_map().remove(proposal_id),
            ({
                let p0 = old(self).proposal_map()[proposal_id];
                let p = final(self).proposal_map()[proposal_id];
                &&& p.for_votes == if support { (p0.for_votes + votes) as u128 } else { p0.for_votes }
                &&& p.against_votes == if support { p0.against_votes } else { (p0.against_votes + votes) as u128 }
                &&& p.receipts.as_map() == p0.receipts.as_map().insert(
                    caller,
                    Receipt { has_voted: true, support, votes },
                )
                &&& p == Proposal {
                    for_votes: p.for_votes,
                    against_votes: p.against_votes,
                    receipts: p.receipts,
                    ..p0
                }
            }),
    {
        let _state = self.state(proposal_id, block);
        let (i, proposal) = match self.proposals.take(&proposal_id) {
            Some(t) => t,
            None => {
                assert(false);
                return true;
            },
        };
        let mut proposal = proposal;
        proof {
            assert(old(self).proposals.as_map().contains_key(proposal_id));
            assert(old(self).proposals.as_map()[proposal_id].wf());
        }
        if support {
            proposal.for_votes = proposal.for_votes + votes;
        } else {
            proposal.against_votes = proposal.against_votes + votes;
        }
        proposal.receipts.insert(caller, Receipt { has_voted: true, support, votes });
        self.proposals.insert_at(i, proposal_id, proposal);
        proof {
            assert(self.proposals.key_seq() =~= old(self).proposals.key_seq());
            old(self).proposals.lemma_wf_lens();
            assert(self.proposals.val_seq().len() == old(self).proposals.val_seq().len());
            assert forall|k: u64| #[trigger] self.proposals.as_map().contains_key(k) <==> 1 <= k
                <= self.proposal_length by {
                assert(old(self).proposals.as_map().contains_key(k) == self.proposals.as_map().contains_key(k));
            }
            assert(self.proposal_map().dom() =~= old(self).proposal_map().dom());
            assert(self.proposal_map().remove(proposal_id) =~= old(self).proposal_map().remove(proposal_id));
        }
        true
    }

    /// All proposals, in creation order.
    pub fn list_proposals(&self) -> (r: Vec<Proposal>)
        requires
            self.wf(),
        ensures
            r@.len() == self.proposal_seq().len(),
            forall|i: int| #![trigger r@[i]] 0 <= i < r@.len() ==> r@[i].same_as(&self.proposal_seq()[i]) && r@[i].wf(),
    {
        let mut out: Vec<Proposal> = Vec::new();
        let n = self.proposals.len();
        for i in 0..n
            invariant
                self.wf(),
                n == self.proposals.val_seq().len(),
                out@.len() == i,
                forall|j: int| #![trigger out@[j]] 0 <= j < i ==> out@[j].same_as(&self.proposals.val_seq()[j]) && out@[j].wf(),
        {
            proof {
                self.proposals.lemma_wf_lens();
                self.proposals.lemma_index(i as int);
                let k = self.proposals.key_seq()[i as int];
                assert(self.proposals.as_map().contains_key(k));
                assert(self.proposals.as_map()[k].wf());
            }
            out.push(self.proposals.value_at(i).duplicate());
        }
        out
    }

    /// An existing proposal.
    pub fn get_proposal_by_id(&self, proposal_id: u64) -> (r: Proposal)
        requires
            self.wf(),
            self.proposal_map().contains_key(proposal_id),
        ensures
            r.wf(),
            r.same_as(&self.proposal_map()[proposal_id]),
    {
        match self.proposals.get(&proposal_id) {
            Some(p) => p.duplicate(),
            None => {
                assert(false);
                Proposal {
                    proposal_id: 0,
                    title: String::new(),
                    desc: String::new(),
                    start_block: 0,
                    end_block: 0,
                    for_votes: 0,
                    against_votes: 0,
                    owner: AccountId::zero(),
                    canceled: false,
                    executed: false,
                    receipts: KeyedMap::new(),
                    transaction: Transaction {
                        callee: AccountId::zero(),
                        selector: [0u8, 0u8, 0u8, 0u8],
                        input: Vec::new(),
                        transferred_value: 0,
                        gas_limit: 0,
                    },
                }
            },
        }
    }

    /// The events emitted so far, oldest first.
    pub fn recorded_events(&self) -> (r: Vec<ProposalCreated>)
        ensures
            r@ == self.event_log(),
    {
        let mut out: Vec<ProposalCreated> = Vec::new();
        let n = self.events.len();
        for i in 0..n
            invariant
                n == self.events@.len(),
                out@ == self.events@.subrange(0, i as int),
        {
            out.push(self.events[i]);
            assert(out@ =~= self.events@.subrange(0, i + 1));
        }
        assert(out@ =~= self.events@);
        out
    }
}

/// No proposal is ever queued: past its end block a proposal that was not canceled,
/// defeated or executed has expired.
pub proof fn law_never_queued(p: &Proposal, block: u32)
    ensures
        state_of(p, block) != ProposalState::Queued,
{
}

/// Once its vote is over, a proposal that was not canceled is defeated exactly when
/// it got no more votes for than against; otherwise it is executed or has expired.
pub proof fn law_defeated_after_vote(p: &Proposal, block: u32)
    requires
        !p.canceled,
        block > p.start_block,
        block > p.end_block,
    ensures
        (state_of(p, block) == ProposalState::Defeated) <==> p.for_votes <= p.against_votes,
        p.for_votes > p.against_votes ==> state_of(p, block) == (if p.executed {
            ProposalState::Executed
        } else {
            ProposalState::Expired
        }),
{
}

/// A canceled proposal is reported canceled at every block, whatever its votes.
pub proof fn law_canceled_stays_canceled(p: &Proposal, block: u32)
    requires
        p.canceled,
    ensures
        state_of(p, block) == ProposalState::Canceled,
{
}

/// Before its vote is over, a proposal's state does not depend on its votes: pending
/// until its start block, then active until its end block.
pub proof fn law_state_during_vote(p: &Proposal, q: &Proposal, block: u32)
    requires
        !p.canceled,
        !q.canceled,
        p.start_block == q.start_block,
        p.end_block == q.end_block,
        block <= p.end_block,
    ensures
        state_of(p, block) == state_of(q, block),
        state_of(p, block) == (if block <= p.start_block {
            ProposalState::Pending
        } else {
            ProposalState::Active
        }),
{
}

impl GovnanceDao {
    /// The proposals are recorded exactly under the ids 1 to the number of proposals,
    /// each under its own id.
    pub proof fn law_proposal_ids(&self, k: u64)
        requires
            self.wf(),
        ensures
            self.proposal_map().contains_key(k) <==> 1 <= k <= self.spec_proposal_length(),
            self.proposal_map().contains_key(k) ==> self.proposal_map()[k].proposal_id == k,
    {
        assert(self.proposals.as_map().contains_key(k) == self.proposal_map().contains_key(k));
    }
}

} // verus!
