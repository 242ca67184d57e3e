use vstd::prelude::*;

use crate::account::AccountId;
use crate::keyed_map::KeyedMap;

verus! {

/// A transfer waiting for signatures; `status` turns true once enough managers signed.
pub struct Transaction {
    pub status: bool,
    pub to: AccountId,
    pub amount: u64,
    pub signature_count: i32,
    pub signatures: KeyedMap<AccountId, i32>,
}

impl Transaction {
    pub open spec fn wf(&self) -> bool {
        self.signatures.wf()
    }

    pub open spec fn same_as(&self, other: &Transaction) -> bool {
        &&& self.status == other.status
        &&& self.to == other.to
        &&& self.amount == other.amount
        &&& self.signature_count == other.signature_count
        &&& self.signatures.key_seq() == other.signatures.key_seq()
        &&& self.signatures.val_seq() == other.signatures.val_seq()
    }

    pub fn duplicate(&self) -> (r: Transaction)
        requires
            self.wf(),
        ensures
            r.wf(),
            r.same_as(self),
    {
        Transaction {
            status: self.status,
            to: self.to,
            amount: self.amount,
            signature_count: self.signature_count,
            signatures: self.signatures.duplicate(),
        }
    }
}

/// The payment the contract must make once a transaction has enough signatures.
#[derive(Clone, Copy, Debug, PartialEq, Eq, Structural)]
pub struct Payout {
    pub to: AccountId,
    pub amount: u64,
}

/// A wallet whose transfers are made once enough managers signed them.
pub struct Multisig {
    owner: AccountId,
    transaction_idx: u64,
    manager: KeyedMap<AccountId, i32>,
    transactions: KeyedMap<u64, Transaction>,
    info: KeyedMap<u64, AccountId>,
    min_sign_count: i32,
}

impl Multisig {
    pub closed spec fn wf(&self) -> bool {
        &&& self.manager.wf()
        &&& self.transactions.wf()
        &&& self.info.wf()
        &&& forall|k: u64| #[trigger] self.transactions.as_map().contains_key(k) ==> self.transactions.as_map()[k].wf()
    }

    pub closed spec fn spec_owner(&self) -> AccountId {
        self.owner
    }

    pub closed spec fn spec_transaction_idx(&self) -> u64 {
        self.transaction_idx
    }

    /// Each manager's mark: 1 for an active manager, 0 for a removed one.
    pub closed spec fn managers(&self) -> Map<AccountId, i32> {
        self.manager.as_map()
    }

    /// The managers in the order they were first added.
    pub closed spec fn manager_seq(&self) -> Seq<AccountId> {
        self.manager.key_seq()
    }

    pub closed spec fn transaction_map(&self) -> Map<u64, Transaction> {
        self.transactions.as_map()
    }

    pub closed spec fn spec_min_sign_count(&self) -> i32 {
        self.min_sign_count
    }

    /// `a` may sign: it is an active manager or the owner.
    pub open spec fn is_manager(&self, a: AccountId) -> bool {
        (self.managers().contains_key(a) && self.managers()[a] == 1) || self.spec_owner() == a
    }

    /// The managers' marks after marking each of `owners` active, in order.
    pub open spec fn marked(owners: Seq<AccountId>) -> Map<AccountId, i32>
        decreases owners.len(),
    {
        if owners.len() == 0 {
            Map::empty()
        } else {
            Self::marked(owners.drop_last()).insert(owners.last(), 1)
        }
    }

    /// `caller` creates the wallet with the accounts `owners` as managers; a transfer
    /// is made once `min_sign_count` managers signed it.
    pub fn new(caller: AccountId, owners: Vec<AccountId>, min_sign_count: i32) -> (r: Self)
        ensures
            r.wf(),
            r.spec_owner() == caller,
            r.spec_transaction_idx() == 0,
            r.managers() == Self::marked(owners@),
            forall|i: int| 0 <= i < owners@.len() ==> #[trigger] r.managers().contains_key(owners@[i])
                && r.managers()[owners@[i]] == 1 && r.is_manager(owners@[i]),
            forall|a: AccountId| #[trigger] r.managers().contains_key(a) ==> owners@.contains(a),
            r.transaction_map() == Map::<u64, Transaction>::empty(),
            r.spec_min_sign_count() == min_sign_count,
    {
        let mut map: KeyedMap<AccountId, i32> = KeyedMap::new();
        let n = owners.len();
        for i in 0..n
            invariant
                n == owners@.len(),
                map.wf(),
                map.as_map() == Self::marked(owners@.subrange(0, i as int)),
        {
            map.insert(owners[i], 1);
            assert(owners@.subrange(0, i + 1).drop_last() =~= owners@.subrange(0, i as int));
        }
        assert(owners@.subrange(0, n as int) =~= owners@);
        proof {
            law_new_managers_are_active(owners@);
        }
        Multisig {
            owner: caller,
            transaction_idx: 0,
            manager: map,
            transactions: KeyedMap::new(),
            info: KeyedMap::new(),
            min_sign_count,
        }
    }

    /// Create a transfer of `amount` to `to`, under the next index (counting from 0);
    /// the wallet's balance must cover it. Only an active manager or the owner may.
    pub fn creat_transfer(&mut self, caller: AccountId, balance: u128, to: AccountId, amount: u64) -> (r: bool)
        requires
            old(self).wf(),
            old(self).is_manager(caller),
            balance >= amount,
            old(self).spec_transaction_idx() < u64::MAX,
        ensures
            final(self).manager_seq() == old(self).manager_seq(),
            r,
            final(self).wf(),
            final(self).spec_transaction_idx() == old(self).spec_transaction_idx() + 1,
            final(self).transaction_map().dom() == old(self).transaction_map().dom().insert(
                old(self).spec_transaction_idx(),
            ),
            forall|k: u64| k != old(self).spec_transaction_idx() && #[trigger] old(self).transaction_map().contains_key(k)
                ==> final(self).transaction_map()[k] == old(self).transaction_map()[k],
            ({
                let t = final(self).transaction_map()[old(self).spec_transaction_idx()];
                &&& !t.status
                &&& t.to == to
                &&& t.amount == amount
                &&& t.signature_count == 0
                &&& t.signatures.as_map() == Map::<AccountId, i32>::empty()
            }),
            final(self).managers() == old(self).managers(),
            final(self).spec_owner() == old(self).spec_owner(),
            final(self).spec_min_sign_count() == old(self).spec_min_sign_count(),
    {
        let idx = self.transaction_idx;
        self.transactions.insert(
            idx,
            Transaction { status: false, to, amount, signature_count: 0, signatures: KeyedMap::new() },
        );
        self.transaction_idx = self.transaction_idx + 1;
        proof {
            assert(self.transaction_map().dom() =~= old(self).transaction_map().dom().insert(idx));
        }
        true
    }

    /// `caller` may sign the transaction `id`: it exists, was not paid yet, and
    /// `caller` has not signed it.
    pub open spec fn signable(&self, caller: AccountId, id: u64) -> bool {
        &&& self.transaction_map().contains_key(id)
        &&& !self.transaction_map()[id].status
        &&& !self.transaction_map()[id].signatures.as_map().contains_key(caller)
    }

    /// Whether `caller` may sign the transaction `id`.
    pub fn is_signable(&self, caller: AccountId, id: u64) -> (r: bool)
        requires
            self.wf(),
        ensures
            r == self.signable(caller, id),
    {
        match self.transactions.get(&id) {
            Some(t) => !t.status && !t.signatures.contains_key(&caller),
            None => false,
        }
    }

    /// The caller signs a pending transaction, once. When the signatures reach the
    /// minimum, the transaction is done and its payout is returned for the wallet to
    /// make. Only an active manager or the owner may sign.
    pub fn sign_transaction(&mut self, caller: AccountId, transaction_id: u64) -> (r: Option<Payout>)
        requires
            old(self).wf(),
            old(self).is_manager(caller),
            old(self).signable(caller, transaction_id),
            old(self).transaction_map()[transaction_id].signature_count < i32::MAX,
        ensures
            final(self).manager_seq() == old(self).manager_seq(),
            final(self).wf(),
            final(self).transaction_map().dom() == old(self).transaction_map().dom(),
            final(self).transaction_map().remove(transaction_id) == old(self).transaction_map().remove(transaction_id),
            !final(self).signable(caller, transaction_id),
            ({
                let t0 = old(self).transaction_map()[transaction_id];
                let t = final(self).transaction_map()[transaction_id];
                let count = t0.signature_count + 1;
                &&& t.signature_count == count
                &&& t.signatures.as_map() == t0.signatures.as_map().insert(caller, 1)
                &&& t.status == (count >= old(self).spec_min_sign_count())
                &&& t.to == t0.to
                &&& t.amount == t0.amount
                &&& r == if count >= old(self).spec_min_sign_count() {
                    Some(Payout { to: t0.to, amount: t0.amount })
                } else {
                    None
                }
            }),
            final(self).managers() == old(self).managers(),
            final(self).spec_owner() == old(self).spec_owner(),
            final(self).spec_transaction_idx() == old(self).spec_transaction_idx(),
            final(self).spec_min_sign_count() == old(self).spec_min_sign_count(),
    {
        let mut t = match self.transactions.get(&transaction_id) {
            Some(t) => t.duplicate(),
            None => {
                assert(false);
                return None;
            },
        };
        t.signatures.insert(caller, 1);
        t.signature_count = t.signature_count + 1;
        let addr = t.to;
        let num = t.amount;
        let mut payout: Option<Payout> = None;
        if t.signature_count >= self.min_sign_count {
            t.status = true;
            payout = Some(Payout { to: addr, amount: num });
        }
        self.transactions.insert(transaction_id, t);
        proof {
            assert(self.transaction_map().dom() =~= old(self).transaction_map().dom());
            assert(self.transaction_map().remove(transaction_id) =~= old(self).transaction_map().remove(transaction_id));
        }
        payout
    }

    /// An existing transaction.
    pub fn get_transaction(&self, trans_id: u64) -> (r: Transaction)
        requires
            self.wf(),
            self.transaction_map().contains_key(trans_id),
        ensures
            r.wf(),
            r.same_as(&self.transaction_map()[trans_id]),
    {
        match self.transactions.get(&trans_id) {
            Some(t) => t.duplicate(),
            None => {
                assert(false);
                Transaction {
                    status: false,
                    to: AccountId::zero(),
                    amount: 0,
                    signature_count: 0,
                    signatures: KeyedMap::new(),
                }
            },
        }
    }

    /// Make `addr` an active manager; only the owner may.
    pub fn add_manage(&mut self, caller: AccountId, addr: AccountId) -> (r: bool)
        requires
            old(self).wf(),
            caller == old(self).spec_owner(),
        ensures
            final(self).spec_min_sign_count() == old(self).spec_min_sign_count(),
            final(self).manager_seq() == if old(self).manager_seq().contains(addr) {
                old(self).manager_seq()
            } else {
                old(self).manager_seq().push(addr)
            },
            r,
            final(self).wf(),
            final(self).managers() == old(self).managers().insert(addr, 1),
            final(self).transaction_map() == old(self).transaction_map(),
            final(self).spec_owner() == old(self).spec_owner(),
            final(self).spec_transaction_idx() == old(self).spec_transaction_idx(),
    {
        self.manager.insert(addr, 1);
        true
    }

    /// Mark `addr` as a removed manager; only the owner may.
    pub fn remove_manage(&mut self, caller: AccountId, addr: AccountId) -> (r: bool)
        requires
            old(self).wf(),
            caller == old(self).spec_owner(),
        ensures
            final(self).spec_min_sign_count() == old(self).spec_min_sign_count(),
            final(self).manager_seq() == if old(self).manager_seq().contains(addr) {
                old(self).manager_seq()
            } else {
                old(self).manager_seq().push(addr)
            },
            r,
            final(self).wf(),
            final(self).managers() == old(self).managers().insert(addr, 0),
            final(self).transaction_map() == old(self).transaction_map(),
            final(self).spec_owner() == old(self).spec_owner(),
            final(self).spec_transaction_idx() == old(self).spec_transaction_idx(),
    {
        self.manager.insert(addr, 0);
        true
    }

    /// Every account ever made a manager, active or removed, in the order first added.
    pub fn get_manage_list(&self) -> (r: Vec<AccountId>)
        requires
            self.wf(),
        ensures
            r@ == self.manager_seq(),
    {
        let mut manager_list: Vec<AccountId> = Vec::new();
        let n = self.manager.len();
        for i in 0..n
            invariant
                self.wf(),
                n == self.manager.key_seq().len(),
                manager_list@ == self.manager.key_seq().subrange(0, i as int),
        {
            manager_list.push(*self.manager.key_at(i));
            assert(manager_list@ =~= self.manager.key_seq().subrange(0, i + 1));
        }
        assert(manager_list@ =~= self.manager.key_seq());
        manager_list
    }

    /// Whether the caller is the owner.
    pub fn ensure_caller_is_owner(&self, caller: AccountId) -> (r: bool)
        ensures
            r == (self.spec_owner() == caller),
    {
        self.owner.same(&caller)
    }

    /// Whether the caller is an active manager or the owner.
    pub fn ensure_caller_is_manager(&self, caller: AccountId) -> (r: bool)
        requires
            self.wf(),
        ensures
            r == self.is_manager(caller),
    {
        let mark = self.manager.get_copy(&caller);
        (match mark {
            Some(m) => m == 1,
            None => false,
        }) || self.owner.same(&caller)
    }
}

/// Every account a wallet is created with is an active manager (mark 1), and only
/// those accounts have a mark.
pub proof fn law_new_managers_are_active(owners: Seq<AccountId>)
    ensures
        forall|i: int| 0 <= i < owners.len() ==> #[trigger] Multisig::marked(owners).contains_key(owners[i])
            && Multisig::marked(owners)[owners[i]] == 1,
        forall|a: AccountId| #[trigger] Multisig::marked(owners).contains_key(a) ==> owners.contains(a),
    decreases owners.len(),
{
    if owners.len() > 0 {
        let rest = owners.drop_last();
        law_new_managers_are_active(rest);
        assert(Multisig::marked(owners) == Multisig::marked(rest).insert(owners.last(), 1));
        assert forall|i: int| 0 <= i < owners.len() implies #[trigger] Multisig::marked(owners).contains_key(owners[i])
            && Multisig::marked(owners)[owners[i]] == 1 by {
            if i < owners.len() - 1 {
                assert(rest[i] == owners[i]);
            }
        }
        assert forall|a: AccountId| #[trigger] Multisig::marked(owners).contains_key(a) implies owners.contains(a) by {
            if a != owners.last() {
                assert(Multisig::marked(rest).contains_key(a));
                let k = choose|k: int| 0 <= k < rest.len() && rest[k] == a;
                assert(owners[k] == a);
            } else {
                assert(owners[owners.len() - 1] == a);
            }
        }
    }
}

/// An account may sign a transaction only while it has not signed it: whoever signed
/// is never signable again for that transaction, so no signature counts twice.
pub proof fn law_signer_signs_once(wallet: &Multisig, caller: AccountId, id: u64)
    ensures
        wallet.signable(caller, id) ==> !wallet.transaction_map()[id].signatures.as_map().contains_key(caller),
        wallet.transaction_map().contains_key(id) && wallet.transaction_map()[id].signatures.as_map().contains_key(caller)
            ==> !wallet.signable(caller, id),
        wallet.signable(caller, id) ==> !wallet.transaction_map()[id].status,
{
}

/// A transaction is paid at most once: once a signature pays it out, nobody can sign
/// it again.
pub proof fn law_paid_transaction_is_closed(wallet: &Multisig, id: u64, caller: AccountId)
    requires
        wallet.transaction_map().contains_key(id),
        wallet.transaction_map()[id].status,
    ensures
        !wallet.signable(caller, id),
{
}

} // verus!
