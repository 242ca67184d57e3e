use vstd::prelude::*;

use crate::govnance_dao::copy_bytes;
use crate::keyed_map::KeyedMap;

verus! {

/// The Voting details of a person
/// has_voted:Whether to vote
/// support:Is it supported
/// votes:Number of votes cast
#[derive(Clone, Copy, Debug, PartialEq, Eq, Structural)]
pub struct Receipt {
    pub has_voted: bool,
    pub support: bool,
    pub votes: u128,
}

/// The call a proposal makes when it is executed.
#[derive(Clone, Debug)]
pub struct Transaction {
    /// The account of the contract that is called in this transaction.
    pub callee: String,
    /// The selector bytes that identifies the function of the callee that should be called.
    pub selector: [u8; 4],
    /// The encoded parameters that are passed to the called function.
    pub input: Vec<u8>,
    /// The amount of chain balance that is transferred to the callee.
    pub transferred_value: u64,
    /// Gas limit for the execution of the call.
    pub gas_limit: u64,
}

impl Transaction {
    pub open spec fn same_as(&self, other: &Transaction) -> bool {
        &&& self.callee@ == other.callee@
        &&& self.selector@ == other.selector@
        &&& self.input@ == other.input@
        &&& self.transferred_value == other.transferred_value
        &&& self.gas_limit == other.gas_limit
    }

    pub fn duplicate(&self) -> (r: Transaction)
        ensures
            r.same_as(self),
    {
        Transaction {
            callee: self.callee.clone(),
            selector: self.selector,
            input: copy_bytes(&self.input),
            transferred_value: self.transferred_value,
            gas_limit: self.gas_limit,
        }
    }
}

/// Details of the proposal
/// proposal_id:proposal's id
/// title:proposal's title
/// desc:proposal's content
/// start_block:proposal's start block
/// end_block:proposal's end block
/// for_votes:Number of support votes
/// against_votes:Number of against votes
/// canceled:it is cancel
/// executed:it is executed
/// receipts:Voting details
/// transaction:Proposal implementation details
/// category:proposal's category
/// publicity_votes:votes cast in the publicity period
/// publicity_delay:length of the publicity period
pub struct Proposal {
    pub proposal_id: u64,
    pub title: String,
    pub desc: String,
    pub start_block: u64,
    pub end_block: u64,
    pub for_votes: u128,
    pub against_votes: u128,
    pub owner: String,
    pub canceled: bool,
    pub executed: bool,
    pub receipts: KeyedMap<String, Receipt>,
    pub transaction: Transaction,
    pub category: u32,
    pub publicity_votes: u128,
    pub publicity_delay: u64,
}

impl Proposal {
    pub open spec fn wf(&self) -> bool {
        self.receipts.wf()
    }

    pub open spec fn same_as(&self, other: &Proposal) -> bool {
        &&& self.proposal_id == other.proposal_id
        &&& self.title@ == other.title@
        &&& self.desc@ == other.desc@
        &&& self.start_block == other.start_block
        &&& self.end_block == other.end_block
        &&& self.for_votes == other.for_votes
        &&& self.against_votes == other.against_votes
        &&& self.owner@ == other.owner@
        &&& self.canceled == other.canceled
        &&& self.executed == other.executed
        &&& self.receipts.key_seq() == other.receipts.key_seq()
        &&& self.receipts.val_seq() == other.receipts.val_seq()
        &&& self.transaction.same_as(&other.transaction)
        &&& self.category == other.category
        &&& self.publicity_votes == other.publicity_votes
        &&& self.publicity_delay == other.publicity_delay
    }

    pub fn duplicate(&self) -> (r: Proposal)
        requires
            self.wf(),
        ensures
            r.wf(),
            r.same_as(self),
    {
        Proposal {
            proposal_id: self.proposal_id,
            title: self.title.clone(),
            desc: self.desc.clone(),
            start_block: self.start_block,
            end_block: self.end_block,
            for_votes: self.for_votes,
            against_votes: self.against_votes,
            owner: self.owner.clone(),
            canceled: self.canceled,
            executed: self.executed,
            receipts: self.receipts.duplicate(),
            transaction: self.transaction.duplicate(),
            category: self.category,
            publicity_votes: self.publicity_votes,
            publicity_delay: self.publicity_delay,
        }
    }
}

/// Restrictions on initiating proposals
/// fee_open:Open charge limit
/// fee_number:Charge quantity
/// fee_token:Charging token
#[derive(Clone, Debug)]
pub struct Limit {
    pub fee_open: bool,
    pub fee_number: u128,
    pub fee_token: String,
}

/// Voting validity settings
/// category:the category of the settings
/// vote_scale:Voting rate setting
/// entrust_scale:Entrust rate setting
/// support_scale:Support rate setting
#[derive(Clone, Copy, Debug, PartialEq, Eq, Structural)]
pub struct VoteEffective {
    pub category: u32,
    pub vote_scale: u128,
    pub entrust_scale: u128,
    pub support_scale: u128,
}

#[derive(Clone, Copy, Debug, PartialEq, Eq, Structural)]
pub enum ProposalState {
    Canceled,
    Pending,
    Active,
    Defeated,
    Succeeded,
    Executed,
    Expired,
    Publicity,
    Queued,
}

/// A `transfer_from` call on a token contract: the fee for proposing.
#[derive(Clone, Debug)]
pub struct FeeCharge {
    pub token: String,
    pub from: String,
    pub to: String,
    pub value: u128,
}

/// A `get_current_votes` call on the token contract for `user`.
#[derive(Clone, Debug)]
pub struct VotesQuery {
    pub token: String,
    pub user: String,
}

/// Whether the vote-effectiveness setting rejects a proposal with these votes:
/// category 1 asks for more than `vote_scale` hundreds of votes, category 3 for a
/// support share above `support_scale` percent (counted in whole hundreds).
pub open spec fn vote_failed(ve: VoteEffective, for_votes: u128, against_votes: u128) -> bool {
    let all_vote = for_votes + against_votes;
    if ve.category == 1 {
        all_vote / 100 <= ve.vote_scale
    } else if ve.category == 3 {
        (for_votes as int / all_vote) * 100 <= ve.support_scale
    } else {
        false
    }
}

/// The state of a proposal at block height `block`.
pub open spec fn state_of(p: &Proposal, ve: VoteEffective, block: u64) -> ProposalState {
    if p.canceled {
        ProposalState::Canceled
    } else if block <= p.start_block {
        ProposalState::Pending
    } else if block <= p.end_block {
        ProposalState::Active
    } else if vote_failed(ve, p.for_votes, p.against_votes) {
        ProposalState::Defeated
    } else if p.executed {
        ProposalState::Executed
    } else if block > p.end_block {
        ProposalState::Expired
    } else if block < p.end_block + p.publicity_delay {
        ProposalState::Publicity
    } else if p.publicity_votes > p.for_votes {
        ProposalState::Defeated
    } else {
        ProposalState::Queued
    }
}

/// This is a proposal in Dao
/// creator:the creator of the contract
/// owner:the owner of the contract
/// proposals:map of the proposal'id and proposal
/// voting_delay:Voting buffer
/// voting_period:Voting time
/// proposal_length:Total number of proposals
/// erc20_addr:the addr of erc20
/// limit:the limit of create proposal
/// vote_effective:the effective of vote
pub struct DaoProposal {
    creator: String,
    owner: String,
    proposals: KeyedMap<u64, Proposal>,
    voting_delay: u32,
    voting_period: u32,
    proposal_length: u64,
    erc20_addr: String,
    limit: Limit,
    vote_effective: VoteEffective,
}

impl DaoProposal {
    pub closed spec fn wf(&self) -> bool {
        &&& self.proposals.wf()
        &&& forall|k: u64| #[trigger] self.proposals.as_map().contains_key(k) ==> self.proposals.as_map()[k].wf()
        &&& forall|k: u64| #[trigger] self.proposals.as_map().contains_key(k) <==> 1 <= k <= self.proposal_length
        &&& forall|k: u64| #[trigger] self.proposals.as_map().contains_key(k) ==> self.proposals.as_map()[k].proposal_id == k
    }

    pub closed spec fn spec_creator(&self) -> Seq<char> {
        self.creator@
    }

    pub closed spec fn spec_owner(&self) -> Seq<char> {
        self.owner@
    }

    pub closed spec fn spec_erc20_addr(&self) -> Seq<char> {
        self.erc20_addr@
    }

    pub closed spec fn spec_proposal_length(&self) -> u64 {
        self.proposal_length
    }

    pub closed spec fn spec_voting_delay(&self) -> u32 {
        self.voting_delay
    }

    pub closed spec fn spec_voting_period(&self) -> u32 {
        self.voting_period
    }

    pub closed spec fn limit_open(&self) -> bool {
        self.limit.fee_open
    }

    pub closed spec fn limit_number(&self) -> u128 {
        self.limit.fee_number
    }

    pub closed spec fn limit_token(&self) -> Seq<char> {
        self.limit.fee_token@
    }

    pub closed spec fn spec_vote_effective(&self) -> VoteEffective {
        self.vote_effective
    }

    pub closed spec fn proposal_map(&self) -> Map<u64, Proposal> {
        self.proposals.as_map()
    }

    /// `signer` creates the contract, for `creator` and the token at `erc20_addr`.
    pub fn new(signer: String, creator: String, erc20_addr: String) -> (r: Self)
        ensures
            r.wf(),
            r.spec_creator() == creator@,
            r.spec_owner() == signer@,
            r.spec_erc20_addr() == erc20_addr@,
            r.spec_proposal_length() == 0,
            r.spec_voting_delay() == 1,
            r.spec_voting_period() == 259200,
            !r.limit_open(),
            r.limit_number() == 1,
            r.limit_token() == signer@,
            r.spec_vote_effective() == (VoteEffective { category: 0, vote_scale: 0, entrust_scale: 0, support_scale: 0 }),
            r.proposal_map() == Map::<u64, Proposal>::empty(),
    {
        DaoProposal {
            creator,
            owner: signer.clone(),
            proposals: KeyedMap::new(),
            voting_delay: 1,
            voting_period: 259200,  //3 days
            proposal_length: 0,
            erc20_addr,
            limit: Limit { fee_open: false, fee_number: 1, fee_token: signer },
            vote_effective: VoteEffective { category: 0, vote_scale: 0, entrust_scale: 0, support_scale: 0 },
        }
    }

    /// The creator, who may not change the requirements.
    pub fn creator(&self) -> (r: String)
        ensures
            r@ == self.spec_creator(),
    {
        self.creator.clone()
    }

    /// The conditions for a successful proposal.
    pub fn vote_effective(&self) -> (r: VoteEffective)
        ensures
            r == self.spec_vote_effective(),
    {
        self.vote_effective
    }

    /// The number of proposals made so far.
    pub fn proposal_length(&self) -> (r: u64)
        ensures
            r == self.spec_proposal_length(),
    {
        self.proposal_length
    }

    /// Whether the proposal `proposal_id` exists.
    pub fn has_proposal(&self, proposal_id: u64) -> (r: bool)
        requires
            self.wf(),
        ensures
            r == self.proposal_map().contains_key(proposal_id),
    {
        self.proposals.contains_key(&proposal_id)
    }

    /// Set requirements for initiating proposals; the signer must not be the creator
    pub fn set_permission(&mut self, signer: String, limit: Limit) -> (r: bool)
        requires
            signer@ != old(self).spec_creator(),
        ensures
            r,
            final(self).limit_open() == limit.fee_open,
            final(self).limit_number() == limit.fee_number,
            final(self).limit_token() == limit.fee_token@,
            final(self).spec_vote_effective() == old(self).spec_vote_effective(),
            final(self).proposal_map() == old(self).proposal_map(),
            final(self).wf() == old(self).wf(),
            final(self).spec_creator() == old(self).spec_creator(),
            final(self).spec_owner() == old(self).spec_owner(),
            final(self).spec_erc20_addr() == old(self).spec_erc20_addr(),
            final(self).spec_proposal_length() == old(self).spec_proposal_length(),
            final(self).spec_voting_delay() == old(self).spec_voting_delay(),
            final(self).spec_voting_period() == old(self).spec_voting_period(),
    {
        self.limit = limit;
        true
    }

    /// Set the conditions for successful proposal; the signer must not be the creator
    pub fn set_vote_effective(&mut self, signer: String, vote_effective: VoteEffective) -> (r: bool)
        requires
            signer@ != old(self).spec_creator(),
        ensures
            r,
            final(self).spec_vote_effective() == vote_effective,
            final(self).limit_open() == old(self).limit_open(),
            final(self).limit_number() == old(self).limit_number(),
            final(self).limit_token() == old(self).limit_token(),
            final(self).proposal_map() == old(self).proposal_map(),
            final(self).wf() == old(self).wf(),
            final(self).spec_creator() == old(self).spec_creator(),
            final(self).spec_owner() == old(self).spec_owner(),
            final(self).spec_erc20_addr() == old(self).spec_erc20_addr(),
            final(self).spec_proposal_length() == old(self).spec_proposal_length(),
            final(self).spec_voting_delay() == old(self).spec_voting_delay(),
            final(self).spec_voting_period() == old(self).spec_voting_period(),
    {
        self.vote_effective = vote_effective;
        true
    }

    /// Create a new proposal, owned by the signer, under the next id (counting from 1).
    /// When fees are open, the fee charge to make is returned.
    /// #Fields
    /// title:proposal's title
    /// desc:proposal's content
    /// category:proposal's category
    /// start_block:proposal's start_block, after the current height
    /// end_block:proposal's end_block, after the start
    /// transaction:proposal's transaction
    /// publicity_delay:Date of publication of the proposal
    pub fn propose(
        &mut self,
        signer: String,
        block_height: u64,
        title: String,
        desc: String,
        category: u32,
        start_block: u64,
        end_block: u64,
        transaction: Transaction,
        publicity_delay: u64,
    ) -> (r: Option<FeeCharge>)
        requires
            old(self).wf(),
            start_block > block_height,
            end_block > start_block,
            old(self).spec_proposal_length() < u64::MAX,
        ensures
            final(self).wf(),
            r is Some <==> old(self).limit_open(),
            r matches Some(fee) ==> fee.token@ == old(self).limit_token() && fee.from@ == signer@
                && fee.to@ == signer@ && fee.value == old(self).limit_number(),
            final(self).spec_proposal_length() == old(self).spec_proposal_length() + 1,
            ({
                let id = (old(self).spec_proposal_length() + 1) as u64;
                let p = final(self).proposal_map()[id];
                &&& final(self).proposal_map().dom() == old(self).proposal_map().dom().insert(id)
                &&& forall|k: u64| k != id && #[trigger] old(self).proposal_map().contains_key(k)
                    ==> final(self).proposal_map()[k] == old(self).proposal_map()[k]
                &&& p.proposal_id == id
                &&& p.title@ == title@
                &&& p.desc@ == desc@
                &&& p.category == category
                &&& p.start_block == start_block
                &&& p.end_block == end_block
                &&& p.for_votes == 0
                &&& p.against_votes == 0
                &&& p.owner@ == signer@
                &&& !p.canceled
                &&& !p.executed
                &&& p.receipts.as_map() == Map::<Seq<char>, Receipt>::empty()
                &&& p.transaction == transaction
                &&& p.publicity_votes == 0
                &&& p.publicity_delay == publicity_delay
            }),
            final(self).spec_vote_effective() == old(self).spec_vote_effective(),
            final(self).limit_open() == old(self).limit_open(),
            final(self).limit_number() == old(self).limit_number(),
            final(self).limit_token() == old(self).limit_token(),
            final(self).spec_creator() == old(self).spec_creator(),
            final(self).spec_owner() == old(self).spec_owner(),
            final(self).spec_erc20_addr() == old(self).spec_erc20_addr(),
            final(self).spec_voting_delay() == old(self).spec_voting_delay(),
            final(self).spec_voting_period() == old(self).spec_voting_period(),
    {
        let fee = if self.limit.fee_open {
            Some(
                FeeCharge {
                    token: self.limit.fee_token.clone(),
                    from: signer.clone(),
                    to: signer.clone(),
                    value: self.limit.fee_number,
                },
            )
        } else {
            None
        };
        let proposal_id = self.proposal_length + 1;
        self.proposal_length = self.proposal_length + 1;
        let proposal_info = Proposal {
            category,
            proposal_id,
            title,
            desc,
            start_block,
            end_block,
            for_votes: 0,
            against_votes: 0,
            owner: signer,
            canceled: false,
            executed: false,
            receipts: KeyedMap::new(),
            transaction,
            publicity_votes: 0,
            publicity_delay,
        };
        self.proposals.insert(proposal_id, proposal_info);
        proof {
            assert(self.proposal_map().dom() =~= old(self).proposal_map().dom().insert(proposal_id));
        }
        fee
    }

    /// Show state of an existing proposal at block height `block_height`
    /// proposal_id:proposal's id
    pub fn state(&self, proposal_id: u64, block_height: u64) -> (r: ProposalState)
        requires
            self.wf(),
            self.proposal_map().contains_key(proposal_id),
            self.proposal_map()[proposal_id].for_votes + self.proposal_map()[proposal_id].against_votes <= u128::MAX,
            self.spec_vote_effective().category == 3 ==> self.proposal_map()[proposal_id].for_votes
                + self.proposal_map()[proposal_id].against_votes != 0,
        ensures
            r == state_of(&self.proposal_map()[proposal_id], self.spec_vote_effective(), block_height),
    {
        let proposal = match self.proposals.get(&proposal_id) {
            Some(p) => p,
            None => {
                assert(false);
                return ProposalState::Canceled;
            },
        };
        let block_number = block_height;
        let effective = self.vote_effective;
        let mut failed = false;
        let all_vote = proposal.for_votes + proposal.against_votes;
        if effective.category == 1 {
            if all_vote / 100 <= effective.vote_scale {
                failed = true;
            }
        } else if effective.category == 3 {
            let fv = proposal.for_votes;
            assert(fv / all_vote <= 1) by (nonlinear_arith)
                requires
                    fv <= all_vote,
                    all_vote > 0,
            ;
            if proposal.for_votes / all_vote * 100 <= effective.support_scale {
                failed = true;
            }
        }
        if proposal.canceled {
            return ProposalState::Canceled;
        } else if block_number <= proposal.start_block {
            return ProposalState::Pending;
        } else if block_number <= proposal.end_block {
            return ProposalState::Active;
        } else if failed {
            return ProposalState::Defeated;
        } else if proposal.executed {
            return ProposalState::Executed;
        } else if block_number > proposal.end_block {
            return ProposalState::Expired;
        } else if block_number < proposal.end_block + proposal.publicity_delay {
            return ProposalState::Publicity;
        } else if proposal.publicity_votes > proposal.for_votes {
            return ProposalState::Defeated;
        } else {
            return ProposalState::Queued;
        }
    }

    /// Everything but the proposals is as in `other`, and the same ids are recorded.
    pub open spec fn same_but_proposals(&self, other: &DaoProposal) -> bool {
        &&& self.spec_creator() == other.spec_creator()
        &&& self.spec_owner() == other.spec_owner()
        &&& self.spec_erc20_addr() == other.spec_erc20_addr()
        &&& self.spec_proposal_length() == other.spec_proposal_length()
        &&& self.spec_voting_delay() == other.spec_voting_delay()
        &&& self.spec_voting_period() == other.spec_voting_period()
        &&& self.limit_open() == other.limit_open()
        &&& self.limit_number() == other.limit_number()
        &&& self.limit_token() == other.limit_token()
        &&& self.spec_vote_effective() == other.spec_vote_effective()
        &&& self.proposal_map().dom() == other.proposal_map().dom()
    }

    /// Take the stored proposal `proposal_id` out, with its place in the order.
    fn take_proposal(&mut self, proposal_id: u64) -> (r: (usize, Proposal))
        requires
            old(self).wf(),
            old(self).proposal_map().contains_key(proposal_id),
        ensures
            r.1 == old(self).proposal_map()[proposal_id],
            r.1.wf(),
            r.1.proposal_id == proposal_id,
            final(self).proposals.wf(),
            !final(self).proposals.has(proposal_id),
            r.0 <= final(self).proposals.key_seq().len(),
            final(self).proposals.key_seq().insert(r.0 as int, proposal_id) == old(self).proposals.key_seq(),
            final(self).proposals.as_map() == old(self).proposals.as_map().remove(proposal_id),
            final(self).creator == old(self).creator,
            final(self).owner == old(self).owner,
            final(self).erc20_addr == old(self).erc20_addr,
            final(self).proposal_length == old(self).proposal_length,
            final(self).voting_delay == old(self).voting_delay,
            final(self).voting_period == old(self).voting_period,
            final(self).limit == old(self).limit,
            final(self).vote_effective == old(self).vote_effective,
    {
        proof {
            assert(old(self).proposals.as_map().contains_key(proposal_id));
        }
        let t = self.proposals.take(&proposal_id);
        assert(t is Some);
        let t = t.unwrap();
        proof {
            assert(old(self).proposals.key_seq().remove(t.0 as int).insert(t.0 as int, proposal_id)
                =~= old(self).proposals.key_seq());
        }
        t
    }

    /// Put back a proposal taken by `take_proposal`, in its place.
    fn put_back_proposal(&mut self, i: usize, proposal_id: u64, p: Proposal, Ghost(before): Ghost<DaoProposal>)
        requires
            before.wf(),
            before.proposal_map().contains_key(proposal_id),
            p.wf(),
            p.proposal_id == proposal_id,
            old(self).proposals.wf(),
            !old(self).proposals.has(proposal_id),
            i <= old(self).proposals.key_seq().len(),
            old(self).proposals.key_seq().insert(i as int, proposal_id) == before.proposals.key_seq(),
            old(self).proposals.as_map() == before.proposals.as_map().remove(proposal_id),
            old(self).creator == before.creator,
            old(self).owner == before.owner,
            old(self).erc20_addr == before.erc20_addr,
            old(self).proposal_length == before.proposal_length,
            old(self).voting_delay == before.voting_delay,
            old(self).voting_period == before.voting_period,
            old(self).limit == before.limit,
            old(self).vote_effective == before.vote_effective,
        ensures
            final(self).wf(),
            final(self).same_but_proposals(&before),
            final(self).proposal_map() == before.proposal_map().insert(proposal_id, p),
    {
        self.proposals.insert_at(i, proposal_id, p);
        proof {
            assert(self.proposals.as_map() =~= before.proposals.as_map().insert(proposal_id, p));
            assert forall|k: u64| #[trigger] self.proposals.as_map().contains_key(k) <==> 1 <= k
                <= self.proposal_length by {
                assert(before.proposals.as_map().contains_key(k) == self.proposals.as_map().contains_key(k));
            }
            assert(self.proposal_map().dom() =~= before.proposal_map().dom());
        }
    }

    /// Set a proposal to cancel; only its owner may.
    /// proposal_id:proposal's id
    pub fn cancel(&mut self, signer: String, proposal_id: u64) -> (r: bool)
        requires
            old(self).wf(),
            old(self).proposal_map().contains_key(proposal_id),
            old(self).proposal_map()[proposal_id].owner@ == signer@,
        ensures
            r,
            final(self).wf(),
            final(self).same_but_proposals(old(self)),
            final(self).proposal_map() == old(self).proposal_map().insert(
                proposal_id,
                Proposal { canceled: true, ..old(self).proposal_map()[proposal_id] },
            ),
    {
        let ghost before = *self;
        let (i, proposal) = self.take_proposal(proposal_id);
        let mut proposal = proposal;
        proposal.canceled = true;
        self.put_back_proposal(i, proposal_id, proposal, Ghost(before));
        true
    }

    /// Vote in the publicity period of a proposal, which runs from its end block for
    /// `publicity_delay` blocks (both ends excluded): the proposal's publicity votes
    /// become 10. Returns the query of the signer's votes to make.
    /// proposal_id:proposal's id
    pub fn public_vote(&mut self, signer: String, proposal_id: u64, block_height: u64) -> (r: VotesQuery)
        requires
            old(self).wf(),
            old(self).proposal_map().contains_key(proposal_id),
            old(self).proposal_map()[proposal_id].end_block < block_height,
            old(self).proposal_map()[proposal_id].end_block + old(self).proposal_map()[proposal_id].publicity_delay <= u64::MAX,
            old(self).proposal_map()[proposal_id].end_block + old(self).proposal_map()[proposal_id].publicity_delay > block_height,
        ensures
            r.token@ == old(self).spec_erc20_addr(),
            r.user@ == signer@,
            final(self).wf(),
            final(self).same_but_proposals(old(self)),
            final(self).proposal_map() == old(self).proposal_map().insert(
                proposal_id,
                Proposal { publicity_votes: 10, ..old(self).proposal_map()[proposal_id] },
            ),
    {
        let ghost before = *self;
        let query = VotesQuery { token: self.erc20_addr.clone(), user: signer };
        let (i, proposal) = self.take_proposal(proposal_id);
        let mut proposal = proposal;
        proposal.publicity_votes = 10;
        self.put_back_proposal(i, proposal_id, proposal, Ghost(before));
        query
    }

    /// The voting details of `voter` on `p` (not voted when it holds none).
    pub open spec fn receipt_in(p: &Proposal, voter: Seq<char>) -> Receipt {
        if p.receipts.as_map().contains_key(voter) {
            p.receipts.as_map()[voter]
        } else {
            Receipt { has_voted: false, support: false, votes: 0 }
        }
    }

    /// Vote on a proposal: the signer must not have voted on it. Ten votes go to its
    /// votes for or against, and the signer's receipt records the vote. Returns the
    /// query of the signer's votes to make.
    /// proposal_id:proposal's id
    /// support:Is it supported
    pub fn cast_vote(&mut self, signer: String, proposal_id: u64, support: bool) -> (r: VotesQuery)
        requires
            old(self).wf(),
            old(self).proposal_map().contains_key(proposal_id),
            !Self::receipt_in(&old(self).proposal_map()[proposal_id], signer@).has_voted,
            support ==> old(self).proposal_map()[proposal_id].for_votes + 10 <= u128::MAX,
            !support ==> old(self).proposal_map()[proposal_id].against_votes + 10 <= u128::MAX,
        ensures
            r.token@ == old(self).spec_erc20_addr(),
            r.user@ == signer@,
            final(self).wf(),
            final(self).same_but_proposals(old(self)),
            final(self).proposal_map().remove(proposal_id) == old(self).proposal_map().remove(proposal_id),
            ({
                let p0 = old(self).proposal_map()[proposal_id];
                let p = final(self).proposal_map()[proposal_id];
                &&& p.for_votes == if support { (p0.for_votes + 10) as u128 } else { p0.for_votes }
                &&& p.against_votes == if support { p0.against_votes } else { (p0.against_votes + 10) as u128 }
                &&& p.receipts.as_map() == p0.receipts.as_map().insert(
                    signer@,
                    Receipt { has_voted: true, support, votes: 10 },
                )
                &&& p == Proposal {
                    for_votes: p.for_votes,
                    against_votes: p.against_votes,
                    receipts: p.receipts,
                    ..p0
                }
            }),
    {
        let ghost before = *self;
        let query = VotesQuery { token: self.erc20_addr.clone(), user: signer.clone() };
        let (i, proposal) = self.take_proposal(proposal_id);
        let mut proposal = proposal;
        if support {
            proposal.for_votes = proposal.for_votes + 10;
        } else {
            proposal.against_votes = proposal.against_votes + 10;
        }
        proposal.receipts.insert(signer, Receipt { has_voted: true, support, votes: 10 });
        self.put_back_proposal(i, proposal_id, proposal, Ghost(before));
        proof {
            assert(self.proposal_map().remove(proposal_id) =~= before.proposal_map().remove(proposal_id));
        }
        query
    }

    /// Show all proposals
    pub fn list_proposals(self) -> (r: KeyedMap<u64, Proposal>)
        ensures
            r.as_map() == self.proposal_map(),
            self.wf() ==> r.wf(),
    {
        self.proposals
    }

    /// Show a proposal by id
    pub fn get_proposal_by_id(&self, proposal_id: u64) -> (r: Proposal)
        requires
            self.wf(),
            self.proposal_map().contains_key(proposal_id),
        ensures
            r.wf(),
            r.same_as(&self.proposal_map()[proposal_id]),
    {
        match self.proposals.get(&proposal_id) {
            Some(p) => p.duplicate(),
            None => {
                assert(false);
                Proposal {
                    proposal_id: 0,
                    title: String::new(),
                    desc: String::new(),
                    start_block: 0,
                    end_block: 0,
                    for_votes: 0,
                    against_votes: 0,
                    owner: String::new(),
                    canceled: false,
                    executed: false,
                    receipts: KeyedMap::new(),
                    transaction: Transaction {
                        callee: String::new(),
                        selector: [0u8, 0u8, 0u8, 0u8],
                        input: Vec::new(),
                        transferred_value: 0,
                        gas_limit: 0,
                    },
                    category: 0,
                    publicity_votes: 0,
                    publicity_delay: 0,
                }
            },
        }
    }
}

/// The publicity period is never reported: a proposal past its end block that was not
/// canceled, defeated or executed has expired.
pub proof fn law_no_publicity_state(p: &Proposal, ve: VoteEffective, block: u64)
    ensures
        state_of(p, ve, block) != ProposalState::Publicity,
        state_of(p, ve, block) != ProposalState::Queued,
{
}

/// A canceled proposal is reported canceled; one that was not is pending until its
/// start block and active until its end block, whatever its votes and the setting.
pub proof fn law_state_during_vote(p: &Proposal, ve: VoteEffective, block: u64)
    ensures
        p.canceled ==> state_of(p, ve, block) == ProposalState::Canceled,
        !p.canceled && block <= p.start_block ==> state_of(p, ve, block) == ProposalState::Pending,
        !p.canceled && p.start_block < block <= p.end_block ==> state_of(p, ve, block)
            == ProposalState::Active,
{
}

/// The share of `x` in `x + a` votes, in whole units: all of them or none.
proof fn lemma_whole_share(x: int, a: int)
    requires
        x >= 0,
        a >= 0,
        x + a > 0,
    ensures
        x / (x + a) == if a == 0 { 1int } else { 0int },
{
    if a == 0 {
        assert(x / x == 1) by (nonlinear_arith)
            requires
                x > 0,
        ;
    } else {
        assert(x / (x + a) == 0) by (nonlinear_arith)
            requires
                x >= 0,
                a > 0,
        ;
    }
}

/// Under the support-share setting (category 3), a vote that is over and got votes
/// defeats a proposal that was not canceled exactly when not every vote was for it,
/// or when a full share (100) does not exceed `support_scale`. More votes for it,
/// against the same votes against, never turn a passed vote into a defeat.
pub proof fn law_support_share_defeat(p: &Proposal, q: &Proposal, ve: VoteEffective, block: u64)
    requires
        ve.category == 3,
        !p.canceled,
        block > p.start_block,
        block > p.end_block,
        p.for_votes + p.against_votes > 0,
        !q.canceled,
        block > q.start_block,
        block > q.end_block,
        q.against_votes == p.against_votes,
        q.for_votes >= p.for_votes,
    ensures
        (state_of(p, ve, block) == ProposalState::Defeated) <==> (p.against_votes > 0
            || 100 <= ve.support_scale),
        p.against_votes == 0 && ve.support_scale < 100 ==> state_of(p, ve, block)
            != ProposalState::Defeated,
        state_of(q, ve, block) == ProposalState::Defeated ==> state_of(p, ve, block)
            == ProposalState::Defeated,
{
    lemma_whole_share(p.for_votes as int, p.against_votes as int);
    lemma_whole_share(q.for_votes as int, q.against_votes as int);
}

/// Under the vote-count setting (category 1), a vote that is over defeats a proposal
/// that was not canceled exactly when its votes, in whole hundreds, do not exceed
/// `vote_scale`; under any setting but 1 and 3 the votes never defeat it.
pub proof fn law_vote_count_defeat(p: &Proposal, ve: VoteEffective, block: u64)
    requires
        !p.canceled,
        block > p.start_block,
        block > p.end_block,
    ensures
        ve.category == 1 ==> ((state_of(p, ve, block) == ProposalState::Defeated) <==> (
        p.for_votes + p.against_votes) / 100 <= ve.vote_scale),
        ve.category != 1 && ve.category != 3 ==> state_of(p, ve, block) == (if p.executed {
            ProposalState::Executed
        } else {
            ProposalState::Expired
        }),
{
}

impl DaoProposal {
    /// The proposals are recorded exactly under the ids 1 to the number of proposals,
    /// each under its own id.
    pub proof fn law_proposal_ids(&self, k: u64)
        requires
            self.wf(),
        ensures
            self.proposal_map().contains_key(k) <==> 1 <= k <= self.spec_proposal_length(),
            self.proposal_map().contains_key(k) ==> self.proposal_map()[k].proposal_id == k,
    {
        assert(self.proposals.as_map().contains_key(k) == self.proposal_map().contains_key(k));
    }
}

} // verus!
