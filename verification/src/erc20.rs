use vstd::prelude::*;

use crate::account::AccountId;
use crate::keyed_map::KeyedMap;

verus! {

pub type Balance = u128;

/// The largest number of checkpoints one account can hold.
pub const MAX_CHECKPOINTS: u32 = 0xffff_ffff;

/// It records how many votes an account has from a given block on.
#[derive(Clone, Copy, Debug, PartialEq, Eq, Structural)]
pub struct Checkpoint {
    pub from_block: u32,
    pub votes: u128,
}

/// Details of the token.
#[derive(Clone, Debug)]
pub struct TokenInfo {
    pub name: String,
    pub symbol: String,
    pub total_supply: u128,
    pub decimals: u8,
    pub owner: AccountId,
}

/// The ERC-20 error types.
#[derive(Clone, Copy, Debug, PartialEq, Eq, Structural)]
pub enum Error {
    /// Returned if not enough balance to fulfill a request is available.
    InsufficientBalance,
    /// Returned if not enough allowance to fulfill a request is available.
    InsufficientAllowance,
}

/// Emitted when a token transfer occurs.
#[derive(Clone, Copy, Debug, PartialEq, Eq, Structural)]
pub struct Transfer {
    pub from: Option<AccountId>,
    pub to: Option<AccountId>,
    pub value: Balance,
}

/// Emitted when `spender` is allowed to withdraw up to `value` tokens from `owner`.
#[derive(Clone, Copy, Debug, PartialEq, Eq, Structural)]
pub struct Approval {
    pub owner: AccountId,
    pub spender: AccountId,
    pub value: Balance,
}

/// Emitted when the votes of a delegate change.
#[derive(Clone, Copy, Debug, PartialEq, Eq, Structural)]
pub struct DelegateVotesChanged {
    pub delegate: AccountId,
    pub old_votes: u128,
    pub new_votes: u128,
}

/// Emitted when an account chooses a new delegate.
#[derive(Clone, Copy, Debug, PartialEq, Eq, Structural)]
pub struct DelegateChanged {
    pub delegator: AccountId,
    pub current_delegate: AccountId,
    pub delegatee: AccountId,
}

/// Everything the token emits, in emission order.
#[derive(Clone, Copy, Debug, PartialEq, Eq, Structural)]
pub enum Event {
    Transfer(Transfer),
    Approval(Approval),
    DelegateVotesChanged(DelegateVotesChanged),
    DelegateChanged(DelegateChanged),
}

/// Sum of a sequence of balances.
pub open spec fn sum(s: Seq<u128>) -> int
    decreases s.len(),
{
    if s.len() == 0 {
        0
    } else {
        sum(s.drop_last()) + s.last()
    }
}

pub proof fn lemma_sum_push(s: Seq<u128>, v: u128)
    ensures
        sum(s.push(v)) == sum(s) + v,
{
    assert(s.push(v).drop_last() =~= s);
}

pub proof fn lemma_sum_update(s: Seq<u128>, i: int, v: u128)
    requires
        0 <= i < s.len(),
    ensures
        sum(s.update(i, v)) == sum(s) - s[i] + v,
    decreases s.len(),
{
    if i == s.len() - 1 {
        assert(s.update(i, v).drop_last() =~= s.drop_last());
    } else {
        lemma_sum_update(s.drop_last(), i, v);
        assert(s.update(i, v).drop_last() =~= s.drop_last().update(i, v));
    }
}

pub proof fn lemma_sum_bound(s: Seq<u128>, i: int)
    requires
        0 <= i < s.len(),
    ensures
        s[i] <= sum(s),
    decreases s.len(),
{
    lemma_sum_nonneg(s.drop_last());
    if i < s.len() - 1 {
        lemma_sum_bound(s.drop_last(), i);
    }
}

pub proof fn lemma_sum_nonneg(s: Seq<u128>)
    ensures
        sum(s) >= 0,
    decreases s.len(),
{
    if s.len() > 0 {
        lemma_sum_nonneg(s.drop_last());
    }
}

/// The checkpoint history after writing `votes` at `block`: the last checkpoint is
/// overwritten when it was taken at the same block, else a new one is appended.
pub open spec fn history_after_write(h: Seq<Checkpoint>, block: u32, votes: u128) -> Seq<
    Checkpoint,
> {
    if h.len() > 0 && h.last().from_block == block {
        h.update(h.len() - 1, Checkpoint { from_block: block, votes })
    } else {
        h.push(Checkpoint { from_block: block, votes })
    }
}

/// Votes of the latest checkpoint taken at or before `block` (0 when there is none).
pub open spec fn votes_at(h: Seq<Checkpoint>, block: u32) -> u128
    decreases h.len(),
{
    if h.len() == 0 {
        0
    } else if h.last().from_block <= block {
        h.last().votes
    } else {
        votes_at(h.drop_last(), block)
    }
}

/// Checkpoints are taken at strictly increasing blocks.
pub open spec fn increasing(h: Seq<Checkpoint>) -> bool {
    forall|i: int, j: int| 0 <= i < j < h.len() ==> h[i].from_block < h[j].from_block
}

/// In an increasing history, the votes at `block` are those of the checkpoint `i`
/// that is the last one not after `block`.
pub proof fn lemma_votes_at_index(h: Seq<Checkpoint>, block: u32, i: int)
    requires
        increasing(h),
        0 <= i < h.len(),
        h[i].from_block <= block,
        i + 1 < h.len() ==> h[i + 1].from_block > block,
    ensures
        votes_at(h, block) == h[i].votes,
    decreases h.len(),
{
    if i == h.len() - 1 {
    } else {
        assert(h.last().from_block > block) by {
            if i + 1 < h.len() - 1 {
                assert(h[i + 1].from_block < h[h.len() - 1].from_block);
            }
        }
        lemma_votes_at_index(h.drop_last(), block, i);
    }
}

/// When every checkpoint is after `block`, there were no votes at `block`.
pub proof fn lemma_votes_at_before_first(h: Seq<Checkpoint>, block: u32)
    requires
        increasing(h),
        h.len() > 0 ==> h[0].from_block > block,
    ensures
        votes_at(h, block) == 0,
    decreases h.len(),
{
    if h.len() > 0 {
        if h.len() > 1 {
            assert(h[0].from_block < h[h.len() - 1].from_block);
        }
        assert(h.drop_last().len() > 0 ==> h.drop_last()[0] == h[0]);
        lemma_votes_at_before_first(h.drop_last(), block);
    }
}

/// A ERC-20 token with vote delegation and per-block vote checkpoints.
pub struct Erc20 {
    /// Total token supply.
    total_supply: Balance,
    /// Mapping from owner to number of owned token.
    balances: KeyedMap<AccountId, Balance>,
    /// Mapping of the token amount which an account is allowed to withdraw
    /// from another account.
    allowances: KeyedMap<(AccountId, AccountId), Balance>,
    /// The name of token
    name: String,
    /// The symbol of token
    symbol: String,
    /// The decimals of token
    decimals: u8,
    /// The manager of token
    owner: AccountId,
    /// The number of checkpoints of each account
    num_check_points: KeyedMap<AccountId, u32>,
    /// The checkpoints of each account, by account and position
    check_points: KeyedMap<(AccountId, u32), Checkpoint>,
    /// Delegation information of votes
    delegates: KeyedMap<AccountId, AccountId>,
    /// Token events emitted so far: transfers and approvals
    events: Vec<Event>,
    /// Vote events emitted so far: delegate changes and vote changes
    vote_events: Vec<Event>,
}

impl Erc20 {
    pub closed spec fn spec_total_supply(&self) -> u128 {
        self.total_supply
    }

    pub closed spec fn spec_name(&self) -> Seq<char> {
        self.name@
    }

    pub closed spec fn spec_symbol(&self) -> Seq<char> {
        self.symbol@
    }

    pub closed spec fn spec_decimals(&self) -> u8 {
        self.decimals
    }

    pub closed spec fn spec_owner(&self) -> AccountId {
        self.owner
    }

    /// The balance of `a` (0 when it has none recorded).
    pub closed spec fn balance(&self, a: AccountId) -> u128 {
        if self.balances.as_map().contains_key(a) {
            self.balances.as_map()[a]
        } else {
            0
        }
    }

    /// How much `spender` may still withdraw from `owner`.
    pub closed spec fn spec_allowance(&self, owner: AccountId, spender: AccountId) -> u128 {
        if self.allowances.as_map().contains_key((owner, spender)) {
            self.allowances.as_map()[(owner, spender)]
        } else {
            0
        }
    }

    /// The delegate of `a` (the zero account when it has none).
    pub closed spec fn delegate_of(&self, a: AccountId) -> AccountId {
        if self.delegates.as_map().contains_key(a) {
            self.delegates.as_map()[a]
        } else {
            AccountId::spec_zero()
        }
    }

    pub closed spec fn num_of(&self, a: AccountId) -> u32 {
        if self.num_check_points.as_map().contains_key(a) {
            self.num_check_points.as_map()[a]
        } else {
            0
        }
    }

    pub closed spec fn checkpoint_at(&self, a: AccountId, i: u32) -> Checkpoint {
        if self.check_points.as_map().contains_key((a, i)) {
            self.check_points.as_map()[(a, i)]
        } else {
            Checkpoint { from_block: 0, votes: 0 }
        }
    }

    /// The checkpoints of `a`, oldest first.
    pub closed spec fn history(&self, a: AccountId) -> Seq<Checkpoint> {
        Seq::new(self.num_of(a) as nat, |i: int| self.checkpoint_at(a, i as u32))
    }

    /// The votes of `a` now: those of its latest checkpoint.
    pub open spec fn current_votes(&self, a: AccountId) -> u128 {
        if self.history(a).len() > 0 {
            self.history(a).last().votes
        } else {
            0
        }
    }

    /// The votes of `a` at `block`.
    pub open spec fn prior_votes(&self, a: AccountId, block: u32) -> u128 {
        votes_at(self.history(a), block)
    }

    /// The token events: transfers and approvals, oldest first.
    pub closed spec fn event_log(&self) -> Seq<Event> {
        self.events@
    }

    /// The vote events: delegate changes and vote changes, oldest first.
    pub closed spec fn vote_log(&self) -> Seq<Event> {
        self.vote_events@
    }

    /// No checkpoint was taken after `block`.
    pub open spec fn not_after(&self, block: u32) -> bool {
        forall|a: AccountId| #[trigger]
            self.history(a).len() > 0 ==> self.history(a).last().from_block <= block
    }

    pub closed spec fn wf(&self) -> bool {
        &&& self.balances.wf()
        &&& self.allowances.wf()
        &&& self.num_check_points.wf()
        &&& self.check_points.wf()
        &&& self.delegates.wf()
        &&& sum(self.balances.val_seq()) == self.total_supply
        &&& forall|a: AccountId, i: u32|
            #[trigger] self.check_points.as_map().contains_key((a, i)) <==> i < self.num_of(a)
        &&& forall|a: AccountId| #[trigger] increasing(self.history(a))
    }

    /// A checkpoint may be written for `a` at `block` without overflowing its count.
    pub open spec fn can_write(&self, a: AccountId, block: u32) -> bool {
        ||| self.history(a).len() < MAX_CHECKPOINTS
        ||| (self.history(a).len() > 0 && self.history(a).last().from_block == block)
    }

    /// Moving `amount` votes from `src` to `dst` at `block` does not underflow `src`'s
    /// votes, overflow `dst`'s, or overflow a checkpoint count.
    pub open spec fn can_move(&self, src: AccountId, dst: AccountId, amount: u128, block: u32) -> bool {
        src != dst && amount > 0 ==> {
            &&& src != AccountId::spec_zero() ==> self.current_votes(src) >= amount
                && self.can_write(src, block)
            &&& dst != AccountId::spec_zero() ==> self.current_votes(dst) + amount <= u128::MAX
                && self.can_write(dst, block)
        }
    }

    /// The history of `a` after `amount` votes move from `src` to `dst` at `block`.
    pub open spec fn moved_history(
        &self,
        src: AccountId,
        dst: AccountId,
        amount: u128,
        block: u32,
        a: AccountId,
    ) -> Seq<Checkpoint> {
        if src != dst && amount > 0 && a != AccountId::spec_zero() && a == src {
            history_after_write(self.history(a), block, (self.current_votes(a) - amount) as u128)
        } else if src != dst && amount > 0 && a != AccountId::spec_zero() && a == dst {
            history_after_write(self.history(a), block, (self.current_votes(a) + amount) as u128)
        } else {
            self.history(a)
        }
    }

    /// The events a vote move emits.
    pub open spec fn move_events(&self, src: AccountId, dst: AccountId, amount: u128) -> Seq<
        Event,
    > {
        if src != dst && amount > 0 {
            (if src != AccountId::spec_zero() {
                seq![
                    Event::DelegateVotesChanged(
                        DelegateVotesChanged {
                            delegate: src,
                            old_votes: self.current_votes(src),
                            new_votes: (self.current_votes(src) - amount) as u128,
                        },
                    ),
                ]
            } else {
                Seq::empty()
            }) + (if dst != AccountId::spec_zero() {
                seq![
                    Event::DelegateVotesChanged(
                        DelegateVotesChanged {
                            delegate: dst,
                            old_votes: self.current_votes(dst),
                            new_votes: (self.current_votes(dst) + amount) as u128,
                        },
                    ),
                ]
            } else {
                Seq::empty()
            })
        } else {
            Seq::empty()
        }
    }

    /// The ledger fields other than balances, and all allowances, are those of `other`.
    pub open spec fn same_token(&self, other: &Erc20) -> bool {
        &&& self.spec_total_supply() == other.spec_total_supply()
        &&& self.spec_name() == other.spec_name()
        &&& self.spec_symbol() == other.spec_symbol()
        &&& self.spec_decimals() == other.spec_decimals()
        &&& self.spec_owner() == other.spec_owner()
    }

    fn balance_lookup(&self, a: &AccountId) -> (r: u128)
        requires
            self.balances.wf(),
        ensures
            r == self.balance(*a),
    {
        match self.balances.get_copy(a) {
            Some(b) => b,
            None => 0,
        }
    }

    fn num_lookup(&self, a: &AccountId) -> (r: u32)
        requires
            self.num_check_points.wf(),
        ensures
            r == self.num_of(*a),
            r == self.history(*a).len(),
    {
        match self.num_check_points.get_copy(a) {
            Some(n) => n,
            None => 0,
        }
    }

    fn checkpoint_lookup(&self, a: &AccountId, i: u32) -> (r: Checkpoint)
        requires
            self.check_points.wf(),
        ensures
            r == self.checkpoint_at(*a, i),
            i < self.num_of(*a) ==> r == self.history(*a)[i as int],
    {
        match self.check_points.get_copy(&(*a, i)) {
            Some(c) => c,
            None => Checkpoint { from_block: 0, votes: 0 },
        }
    }

    /// Set the balance of `a`, adjusting the total by the difference.
    fn set_balance(&mut self, a: AccountId, v: u128)
        requires
            old(self).balances.wf(),
        ensures
            final(self).balances.wf(),
            sum(final(self).balances.val_seq()) == sum(old(self).balances.val_seq()) - old(
                self,
            ).balance(a) + v,
            forall|x: AccountId| #[trigger]
                final(self).balance(x) == if x == a {
                    v
                } else {
                    old(self).balance(x)
                },
            final(self).total_supply == old(self).total_supply,
            final(self).allowances == old(self).allowances,
            final(self).num_check_points == old(self).num_check_points,
            final(self).check_points == old(self).check_points,
            final(self).delegates == old(self).delegates,
            final(self).events == old(self).events,
            final(self).vote_events == old(self).vote_events,
            final(self).name == old(self).name,
            final(self).symbol == old(self).symbol,
            final(self).decimals == old(self).decimals,
            final(self).owner == old(self).owner,
    {
        let ghost before = self.balances.val_seq();
        let ghost had = self.balances.has(a);
        let ghost idx = self.balances.key_seq().index_of(a);
        proof {
            if had {
                self.balances.lemma_has(a);
            }
        }
        self.balances.insert(a, v);
        proof {
            if had {
                lemma_sum_update(before, idx, v);
            } else {
                lemma_sum_push(before, v);
            }
        }
    }

    /// Creates a new ERC-20 contract with the specified initial supply, all of it owned
    /// by `owner`, whose votes are recorded at `block`.
    pub fn new(
        initial_supply: Balance,
        name: String,
        symbol: String,
        decimals: u8,
        owner: AccountId,
        block: u32,
    ) -> (r: Self)
        ensures
            r.wf(),
            r.spec_total_supply() == initial_supply,
            r.spec_name() == name@,
            r.spec_symbol() == symbol@,
            r.spec_decimals() == decimals,
            r.spec_owner() == owner,
            forall|a: AccountId| #[trigger]
                r.balance(a) == if a == owner {
                    initial_supply
                } else {
                    0
                },
            forall|a: AccountId, b: AccountId| #[trigger] r.spec_allowance(a, b) == 0,
            forall|a: AccountId| #[trigger] r.delegate_of(a) == AccountId::spec_zero(),
            forall|a: AccountId| #[trigger]
                r.history(a) == if a == owner && owner != AccountId::spec_zero()
                    && initial_supply > 0 {
                    seq![Checkpoint { from_block: block, votes: initial_supply }]
                } else {
                    Seq::<Checkpoint>::empty()
                },
            r.event_log() == seq![
                Event::Transfer(
                    Transfer { from: None, to: Some(owner), value: initial_supply },
                ),
            ],
            r.vote_log() == (if owner != AccountId::spec_zero() && initial_supply > 0 {
                seq![
                    Event::DelegateVotesChanged(
                        DelegateVotesChanged {
                            delegate: owner,
                            old_votes: 0,
                            new_votes: initial_supply,
                        },
                    ),
                ]
            } else {
                Seq::empty()
            }),
    {
        let mut balances = KeyedMap::new();
        balances.insert(owner, initial_supply);
        let mut events: Vec<Event> = Vec::new();
        events.push(Event::Transfer(Transfer { from: None, to: Some(owner), value: initial_supply }));
        let mut instance = Erc20 {
            total_supply: initial_supply,
            balances,
            allowances: KeyedMap::new(),
            name,
            symbol,
            decimals,
            owner,
            num_check_points: KeyedMap::new(),
            check_points: KeyedMap::new(),
            delegates: KeyedMap::new(),
            events,
            vote_events: Vec::new(),
        };
        proof {
            reveal_with_fuel(sum, 2);
            assert(instance.balances.val_seq() =~= seq![initial_supply]);
            assert(instance.balances.val_seq().drop_last() =~= Seq::<u128>::empty());
            assert forall|a: AccountId| #[trigger] instance.history(a) =~= Seq::<Checkpoint>::empty() by {}
        }
        let zero = AccountId::zero();
        instance.move_delegates(zero, owner, initial_supply, block);
        proof {
            assert forall|a: AccountId| #[trigger]
                instance.history(a) == (if a == owner && owner != AccountId::spec_zero()
                    && initial_supply > 0 {
                    seq![Checkpoint { from_block: block, votes: initial_supply }]
                } else {
                    Seq::<Checkpoint>::empty()
                }) by {
                if a == owner && owner != AccountId::spec_zero() && initial_supply > 0 {
                    assert(Seq::<Checkpoint>::empty().push(
                        Checkpoint { from_block: block, votes: initial_supply },
                    ) =~= seq![Checkpoint { from_block: block, votes: initial_supply }]);
                }
            }
            assert(instance.vote_log() =~= (if owner != AccountId::spec_zero() && initial_supply > 0 {
                seq![
                    Event::DelegateVotesChanged(
                        DelegateVotesChanged {
                            delegate: owner,
                            old_votes: 0,
                            new_votes: initial_supply,
                        },
                    ),
                ]
            } else {
                Seq::empty()
            }));
        }
        instance
    }

    /// Displays the details of the token
    pub fn query_info(&self) -> (r: TokenInfo)
        ensures
            r.name@ == self.spec_name(),
            r.symbol@ == self.spec_symbol(),
            r.total_supply == self.spec_total_supply(),
            r.decimals == self.spec_decimals(),
            r.owner == self.spec_owner(),
    {
        TokenInfo {
            name: self.name.clone(),
            symbol: self.symbol.clone(),
            total_supply: self.total_supply,
            decimals: self.decimals,
            owner: self.owner,
        }
    }

    /// Returns the total token supply.
    pub fn total_supply(&self) -> (r: Balance)
        ensures
            r == self.spec_total_supply(),
    {
        self.total_supply
    }

    /// Returns the account balance for the specified `owner`.
    ///
    /// Returns `0` if the account is non-existent.
    pub fn balance_of(&self, owner: AccountId) -> (r: Balance)
        requires
            self.wf(),
        ensures
            r == self.balance(owner),
    {
        self.balance_lookup(&owner)
    }

    /// Returns the amount which `spender` is still allowed to withdraw from `owner`.
    ///
    /// Returns `0` if no allowance has been set.
    pub fn allowance(&self, owner: AccountId, spender: AccountId) -> (r: Balance)
        requires
            self.wf(),
        ensures
            r == self.spec_allowance(owner, spender),
    {
        match self.allowances.get_copy(&(owner, spender)) {
            Some(v) => v,
            None => 0,
        }
    }
}


impl Erc20 {
    /// The balance of `a` after `value` tokens went from `from` to `to`.
    pub open spec fn balance_after_transfer(
        &self,
        from: AccountId,
        to: AccountId,
        value: u128,
        a: AccountId,
    ) -> u128 {
        if from == to {
            self.balance(a)
        } else if a == from {
            (self.balance(a) - value) as u128
        } else if a == to {
            (self.balance(a) + value) as u128
        } else {
            self.balance(a)
        }
    }

    /// What all accounts hold together.
    pub closed spec fn total_held(&self) -> int {
        sum(self.balances.val_seq())
    }

    /// Tokens are neither created nor destroyed: all accounts together hold exactly the
    /// total supply, which no operation changes.
    pub proof fn law_supply_is_held(&self)
        requires
            self.wf(),
        ensures
            self.total_held() == self.spec_total_supply(),
    {
    }

    /// The accounts that ever held a balance, each once.
    pub closed spec fn holders(&self) -> Seq<AccountId> {
        self.balances.key_seq()
    }

    /// What the accounts of `accts` hold together.
    pub open spec fn balance_sum(&self, accts: Seq<AccountId>) -> int
        decreases accts.len(),
    {
        if accts.len() == 0 {
            0
        } else {
            self.balance_sum(accts.drop_last()) + self.balance(accts.last())
        }
    }

    proof fn lemma_prefix_sums(&self, n: int)
        requires
            self.balances.wf(),
            0 <= n <= self.balances.key_seq().len(),
        ensures
            self.balance_sum(self.holders().take(n)) == sum(self.balances.val_seq().take(n)),
        decreases n,
    {
        if n > 0 {
            self.lemma_prefix_sums(n - 1);
            self.balances.lemma_wf_lens();
            self.balances.lemma_index(n - 1);
            assert(self.holders().take(n).drop_last() =~= self.holders().take(n - 1));
            assert(self.balances.val_seq().take(n).drop_last() =~= self.balances.val_seq().take(n - 1));
        }
    }

    /// Tokens are neither created nor destroyed, counted over `balance_of`: the accounts
    /// that ever held tokens are listed once each, every other account holds nothing,
    /// and their balances add up to the total supply.
    pub proof fn law_balances_add_up_to_supply(&self)
        requires
            self.wf(),
        ensures
            self.holders().no_duplicates(),
            forall|a: AccountId| !self.holders().contains(a) ==> #[trigger] self.balance(a) == 0,
            self.balance_sum(self.holders()) == self.spec_total_supply(),
    {
        let n = self.balances.key_seq().len();
        self.balances.lemma_wf_lens();
        self.lemma_prefix_sums(n as int);
        assert(self.holders().take(n as int) =~= self.holders());
        assert(self.balances.val_seq().take(n as int) =~= self.balances.val_seq());
        assert forall|a: AccountId| !self.holders().contains(a) implies #[trigger] self.balance(a) == 0 by {
            assert(!self.balances.has(a));
        }
        assert forall|i: int, j: int| 0 <= i < self.holders().len() && 0 <= j < self.holders().len() && i != j
            implies self.holders()[i] != self.holders()[j] by {
            self.balances.lemma_distinct(i, j);
        }
    }

    /// Each account's checkpoints are taken at strictly increasing blocks.
    pub proof fn law_checkpoints_increase(&self, a: AccountId)
        requires
            self.wf(),
        ensures
            increasing(self.history(a)),
    {
    }

    /// No account holds more than the total supply.
    pub proof fn law_balance_le_supply(&self, a: AccountId)
        requires
            self.wf(),
        ensures
            self.balance(a) <= self.spec_total_supply(),
    {
        lemma_sum_nonneg(self.balances.val_seq());
        if self.balances.has(a) {
            let i = self.balances.key_seq().index_of(a);
            self.balances.lemma_has(a);
            lemma_sum_bound(self.balances.val_seq(), i);
        }
    }

    /// Two different accounts together hold no more than the total supply.
    pub proof fn law_two_balances_le_supply(&self, a: AccountId, b: AccountId)
        requires
            self.wf(),
            a != b,
        ensures
            self.balance(a) + self.balance(b) <= self.spec_total_supply(),
    {
        let s = self.balances.val_seq();
        lemma_sum_nonneg(s);
        if self.balances.has(a) {
            self.balances.lemma_has(a);
            let i = self.balances.key_seq().index_of(a);
            lemma_sum_update(s, i, 0);
            lemma_sum_nonneg(s.update(i, 0));
            if self.balances.has(b) {
                self.balances.lemma_has(b);
                let j = self.balances.key_seq().index_of(b);
                assert(i != j);
                lemma_sum_bound(s.update(i, 0), j);
            }
        } else if self.balances.has(b) {
            self.law_balance_le_supply(b);
        }
    }

    /// A transfer neither creates nor destroys tokens: what the sender and the receiver
    /// hold together is unchanged, and every other account keeps its balance.
    pub proof fn law_transfer_conserves(&self, from: AccountId, to: AccountId, value: u128)
        requires
            self.wf(),
            self.balance(from) >= value,
        ensures
            from != to ==> self.balance_after_transfer(from, to, value, from)
                + self.balance_after_transfer(from, to, value, to) == self.balance(from) + self.balance(to),
            forall|a: AccountId| a != from && a != to ==> #[trigger] self.balance_after_transfer(from, to, value, a)
                == self.balance(a),
            self.balance_after_transfer(from, to, value, from) == self.balance(from) - (if from == to { 0 } else { value as int }),
    {
        if from != to {
            self.law_two_balances_le_supply(from, to);
        }
    }

    /// At a block no earlier than an account's latest checkpoint, its prior votes are its
    /// current votes.
    pub proof fn law_prior_votes_at_latest(&self, a: AccountId, block: u32)
        requires
            self.wf(),
            self.not_after(block),
        ensures
            self.prior_votes(a, block) == self.current_votes(a),
    {
        let h = self.history(a);
        assert(increasing(h));
        if h.len() > 0 {
            assert(h.last().from_block <= block);
            lemma_votes_at_index(h, block, h.len() - 1);
        }
    }

    proof fn lemma_balance_le_sum(&self, a: AccountId)
        requires
            self.balances.wf(),
        ensures
            self.balance(a) <= sum(self.balances.val_seq()),
    {
        lemma_sum_nonneg(self.balances.val_seq());
        if self.balances.has(a) {
            let i = self.balances.key_seq().index_of(a);
            self.balances.lemma_has(a);
            lemma_sum_bound(self.balances.val_seq(), i);
        }
    }

    proof fn lemma_same_votes(s1: &Erc20, s2: &Erc20)
        requires
            s1.num_check_points == s2.num_check_points,
            s1.check_points == s2.check_points,
        ensures
            forall|a: AccountId| #[trigger] s2.history(a) == s1.history(a),
    {
        assert forall|a: AccountId| #[trigger] s2.history(a) == s1.history(a) by {
            assert(s2.history(a) =~= s1.history(a));
        }
    }

    /// Record `new_votes` for `delegatee` at `block`.
    fn write_check_point(
        &mut self,
        delegatee: AccountId,
        n_checkpoints: u32,
        old_votes: u128,
        new_votes: u128,
        block: u32,
    ) -> (r: bool)
        requires
            old(self).wf(),
            old(self).not_after(block),
            n_checkpoints == old(self).history(delegatee).len(),
            old(self).can_write(delegatee, block),
        ensures
            r,
            final(self).wf(),
            final(self).not_after(block),
            forall|a: AccountId| #[trigger]
                final(self).history(a) == if a == delegatee {
                    history_after_write(old(self).history(a), block, new_votes)
                } else {
                    old(self).history(a)
                },
            final(self).vote_events@ == old(self).vote_events@.push(
                Event::DelegateVotesChanged(
                    DelegateVotesChanged { delegate: delegatee, old_votes, new_votes },
                ),
            ),
            final(self).events == old(self).events,
            final(self).balances == old(self).balances,
            final(self).allowances == old(self).allowances,
            final(self).delegates == old(self).delegates,
            final(self).total_supply == old(self).total_supply,
            final(self).name == old(self).name,
            final(self).symbol == old(self).symbol,
            final(self).decimals == old(self).decimals,
            final(self).owner == old(self).owner,
    {
        let ghost h = old(self).history(delegatee);
        let mut check_point = Checkpoint { from_block: 0, votes: 0 };
        if n_checkpoints > 0 {
            check_point = self.checkpoint_lookup(&delegatee, n_checkpoints - 1);
        }
        if n_checkpoints > 0 && check_point.from_block == block {
            self.check_points.insert(
                (delegatee, (n_checkpoints - 1) as u32),
                Checkpoint { from_block: check_point.from_block, votes: new_votes },
            );
            proof {
                assert forall|a: AccountId| #[trigger]
                    self.history(a) == if a == delegatee {
                        history_after_write(old(self).history(a), block, new_votes)
                    } else {
                        old(self).history(a)
                    } by {
                    if a == delegatee {
                        assert(self.history(a) =~= history_after_write(h, block, new_votes));
                    } else {
                        assert(self.history(a) =~= old(self).history(a));
                    }
                }
                assert forall|a: AccountId, i: u32|
                    #[trigger] self.check_points.as_map().contains_key((a, i)) <==> i
                    < self.num_of(a) by {
                    if self.check_points.as_map().contains_key((a, i)) {
                        assert(old(self).check_points.as_map().contains_key((a, i)));
                    }
                    if i < self.num_of(a) {
                        assert(old(self).check_points.as_map().contains_key((a, i)));
                    }
                }
                assert forall|a: AccountId| #[trigger] increasing(self.history(a)) by {
                    assert(increasing(old(self).history(a)));
                }
                assert forall|a: AccountId| #[trigger]
                    self.history(a).len() > 0 implies self.history(a).last().from_block
                    <= block by {
                    assert(old(self).history(a).len() > 0 ==> old(self).history(a).last().from_block <= block);
                }
            }
        } else {
            self.check_points.insert(
                (delegatee, n_checkpoints),
                Checkpoint { from_block: block, votes: new_votes },
            );
            self.num_check_points.insert(delegatee, n_checkpoints + 1);
            proof {
                assert forall|a: AccountId| #[trigger]
                    self.history(a) == if a == delegatee {
                        history_after_write(old(self).history(a), block, new_votes)
                    } else {
                        old(self).history(a)
                    } by {
                    if a == delegatee {
                        assert(self.history(a) =~= history_after_write(h, block, new_votes));
                    } else {
                        assert(self.history(a) =~= old(self).history(a));
                    }
                }
                assert forall|a: AccountId, i: u32|
                    #[trigger] self.check_points.as_map().contains_key((a, i)) <==> i
                    < self.num_of(a) by {
                    if self.check_points.as_map().contains_key((a, i)) && (a, i) != (
                        delegatee,
                        n_checkpoints,
                    ) {
                        assert(old(self).check_points.as_map().contains_key((a, i)));
                    }
                    if i < self.num_of(a) && (a, i) != (delegatee, n_checkpoints) {
                        assert(old(self).check_points.as_map().contains_key((a, i)));
                    }
                }
                assert forall|a: AccountId| #[trigger] increasing(self.history(a)) by {
                    assert(increasing(old(self).history(a)));
                    if a == delegatee && h.len() > 0 {
                        assert(h.last().from_block <= block);
                    }
                }
                assert forall|a: AccountId| #[trigger]
                    self.history(a).len() > 0 implies self.history(a).last().from_block
                    <= block by {
                    assert(old(self).history(a).len() > 0 ==> old(self).history(a).last().from_block <= block);
                }
            }
        }
        let ghost s1 = *self;
        self.vote_events.push(
            Event::DelegateVotesChanged(
                DelegateVotesChanged { delegate: delegatee, old_votes, new_votes },
            ),
        );
        proof {
            Self::lemma_same_votes(&s1, self);
        }
        true
    }

    /// The votes `a` holds now, read from its latest checkpoint.
    fn latest_votes(&self, a: &AccountId) -> (r: (u32, u128))
        requires
            self.wf(),
        ensures
            r.0 == self.history(*a).len(),
            r.1 == self.current_votes(*a),
    {
        let n = self.num_lookup(a);
        let votes = if n > 0 {
            self.checkpoint_lookup(a, n - 1).votes
        } else {
            0
        };
        (n, votes)
    }

    /// Move `amount` votes from `src_rep` to `dst_rep`; the zero account stands for "nobody".
    fn move_delegates(&mut self, src_rep: AccountId, dst_rep: AccountId, amount: u128, block: u32) -> (r: bool)
        requires
            old(self).wf(),
            old(self).not_after(block),
            old(self).can_move(src_rep, dst_rep, amount, block),
        ensures
            r,
            final(self).wf(),
            final(self).not_after(block),
            forall|a: AccountId| #[trigger]
                final(self).history(a) == old(self).moved_history(src_rep, dst_rep, amount, block, a),
            final(self).vote_events@ == old(self).vote_events@ + old(self).move_events(src_rep, dst_rep, amount),
            final(self).events == old(self).events,
            final(self).balances == old(self).balances,
            final(self).allowances == old(self).allowances,
            final(self).delegates == old(self).delegates,
            final(self).total_supply == old(self).total_supply,
            final(self).name == old(self).name,
            final(self).symbol == old(self).symbol,
            final(self).decimals == old(self).decimals,
            final(self).owner == old(self).owner,
    {
        let ghost s0 = *old(self);
        if !src_rep.same(&dst_rep) && amount > 0 {
            if !src_rep.is_zero() {
                let (src_rep_num, src_rep_old) = self.latest_votes(&src_rep);
                let src_rep_new = src_rep_old - amount;
                self.write_check_point(src_rep, src_rep_num, src_rep_old, src_rep_new, block);
            }
            let ghost s1 = *self;
            if !dst_rep.is_zero() {
                let (dst_rep_num, dst_rep_old) = self.latest_votes(&dst_rep);
                proof {
                    assert(s1.history(dst_rep) == s0.history(dst_rep));
                }
                let dst_rep_new = dst_rep_old + amount;
                self.write_check_point(dst_rep, dst_rep_num, dst_rep_old, dst_rep_new, block);
            }
            proof {
                assert(self.vote_events@ =~= s0.vote_events@ + s0.move_events(src_rep, dst_rep, amount));
            }
        } else {
            assert(self.vote_events@ =~= s0.vote_events@ + s0.move_events(src_rep, dst_rep, amount));
        }
        true
    }

    /// Move `value` tokens from `from` to `to`, together with the votes they carry.
    fn transfer_from_to(&mut self, from: AccountId, to: AccountId, value: Balance, block: u32) -> (r: Result<(), Error>)
        requires
            old(self).wf(),
            old(self).not_after(block),
            old(self).balance(from) >= value ==> old(self).can_move(from, to, value, block),
        ensures
            final(self).wf(),
            final(self).not_after(block),
            r is Err <==> old(self).balance(from) < value,
            r is Err ==> r == Err::<(), Error>(Error::InsufficientBalance) && *final(self) == *old(self),
            r is Ok ==> {
                &&& forall|a: AccountId| #[trigger]
                    final(self).balance(a) == old(self).balance_after_transfer(from, to, value, a)
                &&& forall|a: AccountId| #[trigger]
                    final(self).history(a) == old(self).moved_history(from, to, value, block, a)
                &&& final(self).events@ == old(self).events@.push(
                    Event::Transfer(Transfer { from: Some(from), to: Some(to), value }),
                )
                &&& final(self).vote_events@ == old(self).vote_events@ + old(self).move_events(from, to, value)
            },
            final(self).allowances == old(self).allowances,
            final(self).delegates == old(self).delegates,
            final(self).total_supply == old(self).total_supply,
            final(self).name == old(self).name,
            final(self).symbol == old(self).symbol,
            final(self).decimals == old(self).decimals,
            final(self).owner == old(self).owner,
    {
        let from_balance = self.balance_lookup(&from);
        if from_balance < value {
            return Err(Error::InsufficientBalance);
        }
        let ghost s0 = *old(self);
        self.set_balance(from, from_balance - value);
        let ghost sa = *self;
        let to_balance = self.balance_lookup(&to);
        proof {
            self.lemma_balance_le_sum(to);
        }
        self.set_balance(to, to_balance + value);
        proof {
            assert forall|a: AccountId| #[trigger]
                self.balance(a) == s0.balance_after_transfer(from, to, value, a) by {
                assert(self.balance(a) == if a == to { (to_balance + value) as u128 } else { sa.balance(a) });
                assert(sa.balance(a) == if a == from { (from_balance - value) as u128 } else { s0.balance(a) });
            }
            assert forall|a: AccountId| #[trigger]
                self.history(a) == s0.history(a) by {
                assert(self.history(a) =~= s0.history(a));
            }
            assert forall|a: AccountId| #[trigger]
                self.history(a).len() > 0 implies self.history(a).last().from_block <= block by {
                assert(s0.history(a).len() > 0 ==> s0.history(a).last().from_block <= block);
            }
            assert forall|a: AccountId| #[trigger] increasing(self.history(a)) by {
                assert(increasing(s0.history(a)));
            }
            assert(self.current_votes(from) == s0.current_votes(from));
            assert(self.current_votes(to) == s0.current_votes(to));
            assert(self.can_write(from, block) == s0.can_write(from, block));
            assert(self.can_write(to, block) == s0.can_write(to, block));
            assert forall|a: AccountId, i: u32|
                #[trigger] self.check_points.as_map().contains_key((a, i)) <==> i < self.num_of(a) by {
                assert(s0.check_points.as_map().contains_key((a, i)) <==> i < s0.num_of(a));
            }
        }
        let ghost s1 = *self;
        self.move_delegates(from, to, value, block);
        proof {
            assert forall|a: AccountId| #[trigger]
                self.history(a) == s0.moved_history(from, to, value, block, a) by {
                assert(self.history(a) == s1.moved_history(from, to, value, block, a));
                assert(s1.history(a) == s0.history(a));
                assert(s1.current_votes(a) == s0.current_votes(a));
            }
            assert(s1.move_events(from, to, value) == s0.move_events(from, to, value)) by {
                assert(s1.current_votes(from) == s0.current_votes(from));
                assert(s1.current_votes(to) == s0.current_votes(to));
            }
        }
        let ghost s2 = *self;
        self.events.push(Event::Transfer(Transfer { from: Some(from), to: Some(to), value }));
        proof {
            Self::lemma_same_votes(&s2, self);
            assert forall|a: AccountId| #[trigger]
                self.balance(a) == s0.balance_after_transfer(from, to, value, a) by {
                assert(s1.balance(a) == s0.balance_after_transfer(from, to, value, a));
            }
        }
        Ok(())
    }
}


impl Erc20 {
    /// Transfers `value` amount of tokens from the caller's account to account `to`.
    ///
    /// On success a `Transfer` event is emitted, after the vote changes the move causes.
    ///
    /// # Errors
    ///
    /// Returns `InsufficientBalance` error if there are not enough tokens on
    /// the caller's account balance; nothing changes then.
    pub fn transfer(&mut self, caller: AccountId, to: AccountId, value: Balance, block: u32) -> (r: Result<(), Error>)
        requires
            old(self).wf(),
            old(self).not_after(block),
            old(self).balance(caller) >= value ==> old(self).can_move(caller, to, value, block),
        ensures
            final(self).wf(),
            final(self).not_after(block),
            r is Err <==> old(self).balance(caller) < value,
            r is Err ==> r == Err::<(), Error>(Error::InsufficientBalance) && *final(self) == *old(self),
            r is Ok ==> {
                &&& forall|a: AccountId| #[trigger]
                    final(self).balance(a) == old(self).balance_after_transfer(caller, to, value, a)
                &&& forall|a: AccountId| #[trigger]
                    final(self).history(a) == old(self).moved_history(caller, to, value, block, a)
                &&& final(self).event_log() == old(self).event_log().push(
                    Event::Transfer(Transfer { from: Some(caller), to: Some(to), value }),
                )
                &&& final(self).vote_log() == old(self).vote_log() + old(self).move_events(caller, to, value)
                &&& forall|a: AccountId, b: AccountId| #[trigger]
                    final(self).spec_allowance(a, b) == old(self).spec_allowance(a, b)
                &&& forall|a: AccountId| #[trigger] final(self).delegate_of(a) == old(self).delegate_of(a)
            },
            final(self).same_token(old(self)),
    {
        self.transfer_from_to(caller, to, value, block)
    }

    /// Allows `spender` to withdraw from the caller's account multiple times, up to
    /// the `value` amount.
    ///
    /// If this function is called again it overwrites the current allowance with `value`.
    ///
    /// An `Approval` event is emitted.
    pub fn approve(&mut self, caller: AccountId, spender: AccountId, value: Balance) -> (r: Result<(), Error>)
        requires
            old(self).wf(),
        ensures
            r is Ok,
            final(self).wf(),
            forall|a: AccountId, b: AccountId| #[trigger]
                final(self).spec_allowance(a, b) == if a == caller && b == spender {
                    value
                } else {
                    old(self).spec_allowance(a, b)
                },
            forall|a: AccountId| #[trigger] final(self).balance(a) == old(self).balance(a),
            forall|a: AccountId| #[trigger] final(self).delegate_of(a) == old(self).delegate_of(a),
            forall|a: AccountId| #[trigger] final(self).history(a) == old(self).history(a),
            final(self).event_log() == old(self).event_log().push(
                Event::Approval(Approval { owner: caller, spender, value }),
            ),
            final(self).vote_log() == old(self).vote_log(),
            final(self).same_token(old(self)),
    {
        let ghost s0 = *old(self);
        self.allowances.insert((caller, spender), value);
        self.events.push(Event::Approval(Approval { owner: caller, spender, value }));
        proof {
            Self::lemma_same_votes(&s0, self);
        }
        Ok(())
    }

    /// Transfers `value` tokens on the behalf of `from` to the account `to`, spending the
    /// caller's allowance from `from`.
    ///
    /// On success a `Transfer` event is emitted.
    ///
    /// # Errors
    ///
    /// Returns `InsufficientAllowance` error if there are not enough tokens allowed
    /// for the caller to withdraw from `from`.
    ///
    /// Returns `InsufficientBalance` error if there are not enough tokens on
    /// the account balance of `from`.
    ///
    /// Nothing changes on an error.
    pub fn transfer_from(
        &mut self,
        caller: AccountId,
        from: AccountId,
        to: AccountId,
        value: Balance,
        block: u32,
    ) -> (r: Result<(), Error>)
        requires
            old(self).wf(),
            old(self).not_after(block),
            old(self).spec_allowance(from, caller) >= value && old(self).balance(from) >= value
                ==> old(self).can_move(from, to, value, block),
        ensures
            final(self).wf(),
            final(self).not_after(block),
            r == Err::<(), Error>(Error::InsufficientAllowance) <==> old(self).spec_allowance(from, caller) < value,
            r == Err::<(), Error>(Error::InsufficientBalance) <==> old(self).spec_allowance(from, caller) >= value
                && old(self).balance(from) < value,
            r is Err ==> *final(self) == *old(self),
            r is Ok ==> {
                &&& forall|a: AccountId| #[trigger]
                    final(self).balance(a) == old(self).balance_after_transfer(from, to, value, a)
                &&& forall|a: AccountId| #[trigger]
                    final(self).history(a) == old(self).moved_history(from, to, value, block, a)
                &&& final(self).event_log() == old(self).event_log().push(
                    Event::Transfer(Transfer { from: Some(from), to: Some(to), value }),
                )
                &&& final(self).vote_log() == old(self).vote_log() + old(self).move_events(from, to, value)
                &&& forall|a: AccountId, b: AccountId| #[trigger]
                    final(self).spec_allowance(a, b) == if a == from && b == caller {
                        (old(self).spec_allowance(a, b) - value) as u128
                    } else {
                        old(self).spec_allowance(a, b)
                    }
                &&& forall|a: AccountId| #[trigger] final(self).delegate_of(a) == old(self).delegate_of(a)
            },
            final(self).same_token(old(self)),
    {
        let allowance = self.allowance(from, caller);
        if allowance < value {
            return Err(Error::InsufficientAllowance);
        }
        match self.transfer_from_to(from, to, value, block) {
            Err(e) => {
                return Err(e);
            },
            Ok(()) => {},
        }
        let ghost s1 = *self;
        self.allowances.insert((from, caller), allowance - value);
        proof {
            Self::lemma_same_votes(&s1, self);
            assert forall|a: AccountId| #[trigger]
                self.balance(a) == old(self).balance_after_transfer(from, to, value, a) by {
                assert(self.balance(a) == s1.balance(a));
            }
            assert forall|a: AccountId| #[trigger]
                self.history(a) == old(self).moved_history(from, to, value, block, a) by {
                assert(self.history(a) == s1.history(a));
            }
            assert forall|a: AccountId| #[trigger] self.delegate_of(a) == old(self).delegate_of(a) by {
                assert(s1.delegate_of(a) == old(self).delegate_of(a));
            }
        }
        Ok(())
    }

    /// Get current votes
    /// # Fields
    /// user:the address of user
    pub fn get_current_votes(&self, user: AccountId) -> (r: u128)
        requires
            self.wf(),
        ensures
            r == self.current_votes(user),
    {
        let (_n, votes) = self.latest_votes(&user);
        votes
    }

    /// Get the number of votes an account had at a past block: those of its latest
    /// checkpoint taken at or before `block_number` (binary search over its checkpoints).
    /// # Fields
    /// account:the address of user
    /// block_number : the block number, which must be before `current_block`
    pub fn get_prior_votes(&self, account: AccountId, block_number: u32, current_block: u32) -> (r: u128)
        requires
            self.wf(),
            block_number < current_block,
        ensures
            r == self.prior_votes(account, block_number),
    {
        let ghost h = self.history(account);
        proof {
            assert(increasing(h));
        }
        let n_checkpoints = self.num_lookup(&account);
        if n_checkpoints == 0 {
            return 0;
        }
        let check_point = self.checkpoint_lookup(&account, n_checkpoints - 1);
        if check_point.from_block <= block_number {
            proof {
                lemma_votes_at_index(h, block_number, h.len() - 1);
            }
            return check_point.votes;
        }
        // Next check implicit zero balance
        let check_point_zero = self.checkpoint_lookup(&account, 0);
        if check_point_zero.from_block > block_number {
            proof {
                lemma_votes_at_before_first(h, block_number);
            }
            return 0;
        }
        let mut lower: u32 = 0;
        let mut upper: u32 = n_checkpoints - 1;
        while upper > lower
            invariant
                self.wf(),
                h == self.history(account),
                increasing(h),
                n_checkpoints == h.len(),
                lower <= upper < n_checkpoints,
                h[lower as int].from_block <= block_number,
                upper + 1 < n_checkpoints ==> h[upper + 1].from_block > block_number,
                h[n_checkpoints - 1].from_block > block_number,
            decreases upper - lower,
        {
            let center: u32 = upper - (upper - lower) / 2;  // ceil, avoiding overflow
            let cp = self.checkpoint_lookup(&account, center);
            if cp.from_block == block_number {
                proof {
                    if center + 1 < n_checkpoints {
                        assert(h[center as int].from_block < h[center + 1].from_block);
                    }
                    lemma_votes_at_index(h, block_number, center as int);
                }
                return cp.votes;
            } else if cp.from_block < block_number {
                lower = center;
            } else {
                upper = center - 1;
            }
        }
        let outer_cp = self.checkpoint_lookup(&account, lower);
        proof {
            lemma_votes_at_index(h, block_number, lower as int);
        }
        outer_cp.votes
    }

    /// Delegate the caller's votes to `delegatee`: the caller's balance moves from its
    /// current delegate's votes to the new delegate's.
    /// # Fields
    /// delegatee:the address of others
    pub fn delegate(&mut self, caller: AccountId, delegatee: AccountId, block: u32) -> (r: bool)
        requires
            old(self).wf(),
            old(self).not_after(block),
            old(self).can_move(old(self).delegate_of(caller), delegatee, old(self).balance(caller), block),
        ensures
            r,
            final(self).wf(),
            final(self).not_after(block),
            forall|a: AccountId| #[trigger]
                final(self).delegate_of(a) == if a == caller {
                    delegatee
                } else {
                    old(self).delegate_of(a)
                },
            forall|a: AccountId| #[trigger]
                final(self).history(a) == old(self).moved_history(
                    old(self).delegate_of(caller),
                    delegatee,
                    old(self).balance(caller),
                    block,
                    a,
                ),
            final(self).event_log() == old(self).event_log(),
            final(self).vote_log() == old(self).vote_log().push(
                Event::DelegateChanged(
                    DelegateChanged {
                        delegator: caller,
                        current_delegate: old(self).delegate_of(caller),
                        delegatee,
                    },
                ),
            ) + old(self).move_events(old(self).delegate_of(caller), delegatee, old(self).balance(caller)),
            forall|a: AccountId| #[trigger] final(self).balance(a) == old(self).balance(a),
            forall|a: AccountId, b: AccountId| #[trigger]
                final(self).spec_allowance(a, b) == old(self).spec_allowance(a, b),
            final(self).same_token(old(self)),
    {
        let ghost s0 = *old(self);
        let current_delegate = match self.delegates.get_copy(&caller) {
            Some(d) => d,
            None => AccountId::zero(),
        };
        let delegator_balance = self.balance_lookup(&caller);
        self.delegates.insert(caller, delegatee);
        self.vote_events.push(
            Event::DelegateChanged(
                DelegateChanged { delegator: caller, current_delegate, delegatee },
            ),
        );
        let ghost s1 = *self;
        proof {
            Self::lemma_same_votes(&s0, &s1);
            assert(s1.current_votes(current_delegate) == s0.current_votes(current_delegate));
            assert(s1.current_votes(delegatee) == s0.current_votes(delegatee));
            assert(s1.can_write(current_delegate, block) == s0.can_write(current_delegate, block));
            assert(s1.can_write(delegatee, block) == s0.can_write(delegatee, block));
        }
        self.move_delegates(current_delegate, delegatee, delegator_balance, block);
        proof {
            assert forall|a: AccountId| #[trigger]
                self.history(a) == s0.moved_history(current_delegate, delegatee, delegator_balance, block, a) by {
                assert(s1.history(a) == s0.history(a));
            }
            assert(s1.move_events(current_delegate, delegatee, delegator_balance)
                == s0.move_events(current_delegate, delegatee, delegator_balance));
        }
        true
    }

    /// Get user's delegation information (the zero account when it has none)
    /// # Fields
    /// delegator:the address of user
    pub fn get_user_delegates(&self, delegator: AccountId) -> (r: AccountId)
        requires
            self.wf(),
        ensures
            r == self.delegate_of(delegator),
    {
        match self.delegates.get_copy(&delegator) {
            Some(d) => d,
            None => AccountId::zero(),
        }
    }

    /// Get user's number of checkpoints
    /// # Fields
    /// user:the address of user
    pub fn get_user_num_check_points(&self, user: AccountId) -> (r: u32)
        requires
            self.wf(),
        ensures
            r == self.history(user).len(),
    {
        self.num_lookup(&user)
    }

    /// Get one of the user's checkpoints (a zero checkpoint past its last one)
    /// # Fields
    /// account:the address of user
    /// checkpoint:the position of the checkpoint
    pub fn get_user_check_points(&self, account: AccountId, checkpoint: u32) -> (r: Checkpoint)
        requires
            self.wf(),
        ensures
            r == if checkpoint < self.history(account).len() {
                self.history(account)[checkpoint as int]
            } else {
                Checkpoint { from_block: 0, votes: 0 }
            },
    {
        self.checkpoint_lookup(&account, checkpoint)
    }

    /// The vote events emitted so far (delegate changes and vote changes), oldest first.
    pub fn recorded_vote_events(&self) -> (r: Vec<Event>)
        ensures
            r@ == self.vote_log(),
    {
        let mut out: Vec<Event> = Vec::new();
        let n = self.vote_events.len();
        for i in 0..n
            invariant
                n == self.vote_events@.len(),
                out@ == self.vote_events@.subrange(0, i as int),
        {
            out.push(self.vote_events[i]);
            assert(out@ =~= self.vote_events@.subrange(0, i + 1));
        }
        assert(out@ =~= self.vote_events@);
        out
    }

    /// The token events emitted so far (transfers and approvals), oldest first.
    pub fn recorded_events(&self) -> (r: Vec<Event>)
        ensures
            r@ == self.event_log(),
    {
        let mut out: Vec<Event> = Vec::new();
        let n = self.events.len();
        for i in 0..n
            invariant
                n == self.events@.len(),
                out@ == self.events@.subrange(0, i as int),
        {
            out.push(self.events[i]);
            assert(out@ =~= self.events@.subrange(0, i + 1));
        }
        assert(out@ =~= self.events@);
        out
    }
}

} // verus!
