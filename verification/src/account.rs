use vstd::prelude::*;

use crate::keyed_map::MapKey;

verus! {

/// A 32-byte account identifier, kept as its big-endian high and low halves.
///
/// Comparing `(hi, lo)` lexicographically orders identifiers as their bytes are ordered.
#[derive(Clone, Copy, Debug, PartialEq, Eq, Hash, Structural)]
pub struct AccountId {
    pub hi: u128,
    pub lo: u128,
}

impl View for AccountId {
    type V = AccountId;

    open spec fn view(&self) -> AccountId {
        *self
    }
}

impl AccountId {
    /// The all-zero account, which the contracts read as "no account".
    pub open spec fn spec_zero() -> AccountId {
        AccountId { hi: 0, lo: 0 }
    }

    pub fn zero() -> (r: AccountId)
        ensures
            r == AccountId::spec_zero(),
    {
        AccountId { hi: 0, lo: 0 }
    }

    pub fn is_zero(&self) -> (r: bool)
        ensures
            r == (*self == AccountId::spec_zero()),
    {
        self.hi == 0 && self.lo == 0
    }

    pub fn same(&self, other: &AccountId) -> (r: bool)
        ensures
            r == (*self == *other),
    {
        self.hi == other.hi && self.lo == other.lo
    }

    /// Byte order of identifiers.
    pub open spec fn spec_lt(self, other: AccountId) -> bool {
        self.hi < other.hi || (self.hi == other.hi && self.lo < other.lo)
    }

    pub fn less_than(&self, other: &AccountId) -> (r: bool)
        ensures
            r == self.spec_lt(*other),
    {
        self.hi < other.hi || (self.hi == other.hi && self.lo < other.lo)
    }
}

/// The number the 32 bytes of an account spell, most significant byte first: the high
/// half's 16 bytes followed by the low half's.
pub open spec fn account_number(a: AccountId) -> int {
    a.hi as int * (u128::MAX as int + 1) + a.lo as int
}

/// Accounts are ordered as their bytes are: an account comes before another exactly
/// when the number its bytes spell is smaller. So a smaller high half comes first
/// whatever the low halves, and equal high halves are ordered by the low halves.
pub proof fn law_account_order(a: AccountId, b: AccountId)
    ensures
        a.spec_lt(b) <==> account_number(a) < account_number(b),
        a.hi < b.hi ==> a.spec_lt(b),
        a.hi == b.hi ==> (a.spec_lt(b) <==> a.lo < b.lo),
        !(a.spec_lt(b) && b.spec_lt(a)),
        a != b ==> a.spec_lt(b) || b.spec_lt(a),
{
    let m: int = u128::MAX as int + 1;
    assert(a.hi < b.hi ==> account_number(a) < account_number(b)) by (nonlinear_arith)
        requires
            m == u128::MAX as int + 1,
            account_number(a) == a.hi * m + a.lo,
            account_number(b) == b.hi * m + b.lo,
            0 <= a.lo < m,
            0 <= b.lo < m,
    ;
    assert(b.hi < a.hi ==> account_number(b) < account_number(a)) by (nonlinear_arith)
        requires
            m == u128::MAX as int + 1,
            account_number(a) == a.hi * m + a.lo,
            account_number(b) == b.hi * m + b.lo,
            0 <= a.lo < m,
            0 <= b.lo < m,
    ;
}

impl MapKey for AccountId {
    fn key_eq(&self, other: &Self) -> (r: bool) {
        self.same(other)
    }

    fn key_clone(&self) -> (r: Self) {
        *self
    }
}

/// A 32-byte code hash, kept as its big-endian high and low halves.
#[derive(Clone, Copy, Debug, PartialEq, Eq, Hash, Structural)]
pub struct CodeHash {
    pub hi: u128,
    pub lo: u128,
}


/// Identifiers in strictly increasing byte order.
pub open spec fn strictly_sorted(s: Seq<AccountId>) -> bool {
    forall|i: int, j: int| 0 <= i < j < s.len() ==> #[trigger] s[i].spec_lt(#[trigger] s[j])
}

/// A map from accounts to flags that keeps its accounts in byte order.
pub struct AccountFlags {
    keys: Vec<AccountId>,
    flags: Vec<bool>,
}

impl AccountFlags {
    pub closed spec fn key_seq(&self) -> Seq<AccountId> {
        self.keys@
    }

    pub closed spec fn flag_seq(&self) -> Seq<bool> {
        self.flags@
    }

    pub closed spec fn wf(&self) -> bool {
        &&& self.keys@.len() == self.flags@.len()
        &&& strictly_sorted(self.keys@)
    }

    pub open spec fn as_map(&self) -> Map<AccountId, bool> {
        Map::new(
            |k: AccountId| self.key_seq().contains(k),
            |k: AccountId| self.flag_seq()[self.key_seq().index_of(k)],
        )
    }

    /// The accounts whose flag is set.
    pub open spec fn raised(&self, k: AccountId) -> bool {
        self.as_map().contains_key(k) && self.as_map()[k]
    }

    proof fn lemma_at(&self, i: int)
        requires
            self.wf(),
            0 <= i < self.key_seq().len(),
        ensures
            self.key_seq().index_of(self.key_seq()[i]) == i,
            self.as_map().contains_key(self.key_seq()[i]),
            self.as_map()[self.key_seq()[i]] == self.flag_seq()[i],
    {
        let k = self.key_seq()[i];
        assert(self.key_seq().contains(k));
        let j = self.key_seq().index_of(k);
        if j != i {
            if j < i {
                assert(self.key_seq()[j].spec_lt(self.key_seq()[i]));
            } else {
                assert(self.key_seq()[i].spec_lt(self.key_seq()[j]));
            }
        }
    }

    pub fn new() -> (r: Self)
        ensures
            r.wf(),
            r.as_map() == Map::<AccountId, bool>::empty(),
    {
        let r = AccountFlags { keys: Vec::new(), flags: Vec::new() };
        assert(r.as_map() =~= Map::<AccountId, bool>::empty());
        r
    }

    /// Set the flag of `k`.
    pub fn insert(&mut self, k: AccountId, v: bool)
        requires
            old(self).wf(),
        ensures
            final(self).wf(),
            final(self).as_map() == old(self).as_map().insert(k, v),
    {
        let n = self.keys.len();
        let mut i: usize = 0;
        while i < n && self.keys[i].less_than(&k)
            invariant
                self.wf(),
                n == self.keys@.len(),
                i <= n,
                forall|j: int| 0 <= j < i ==> #[trigger] self.keys@[j].spec_lt(k),
            decreases n - i,
        {
            i = i + 1;
        }
        let ghost ks = self.keys@;
        let ghost fs = self.flags@;
        if i < n && self.keys[i].same(&k) {
            self.flags.set(i, v);
            proof {
                assert forall|q: AccountId| #[trigger] self.as_map().contains_key(q) implies self.as_map()[q]
                    == old(self).as_map().insert(k, v)[q] by {
                    let j = ks.index_of(q);
                    assert(ks.contains(q));
                    old(self).lemma_at(j);
                    if q == k {
                        old(self).lemma_at(i as int);
                    }
                }
                assert(self.as_map() =~= old(self).as_map().insert(k, v));
            }
        } else {
            self.keys.insert(i, k);
            self.flags.insert(i, v);
            proof {
                assert forall|a: int, b: int| 0 <= a < b < self.keys@.len() implies #[trigger] self.keys@[a].spec_lt(
                    #[trigger] self.keys@[b]) by {
                    if b < i {
                        assert(ks[a].spec_lt(ks[b]));
                    } else if b == i {
                        assert(ks[a].spec_lt(k));
                    } else if a < i {
                        assert(ks[a].spec_lt(k));
                        assert(!ks[i as int].spec_lt(k));
                        if b - 1 > i {
                            assert(ks[i as int].spec_lt(ks[b - 1]));
                        }
                    } else if a == i {
                        assert(!ks[i as int].spec_lt(k));
                        assert(ks[i as int] != k);
                        if b - 1 > i {
                            assert(ks[i as int].spec_lt(ks[b - 1]));
                        }
                    } else {
                        assert(ks[a - 1].spec_lt(ks[b - 1]));
                    }
                }
                assert forall|q: AccountId| #[trigger] self.as_map().contains_key(q) implies self.as_map()[q]
                    == old(self).as_map().insert(k, v)[q] && old(self).as_map().insert(k, v).contains_key(q) by {
                    let j = self.keys@.index_of(q);
                    assert(self.keys@.contains(q));
                    self.lemma_at(j);
                    if q != k {
                        let j2 = if j < i { j } else { j - 1 };
                        assert(ks[j2] == q);
                        old(self).lemma_at(j2);
                    } else {
                        self.lemma_at(i as int);
                    }
                }
                assert forall|q: AccountId| old(self).as_map().insert(k, v).contains_key(q) implies #[trigger] self.as_map().contains_key(q) by {
                    if q == k {
                        assert(self.keys@[i as int] == k);
                    } else {
                        let j = ks.index_of(q);
                        assert(ks.contains(q));
                        let j2 = if j < i { j } else { j + 1 };
                        assert(self.keys@[j2] == q);
                    }
                }
                assert(self.as_map() =~= old(self).as_map().insert(k, v));
            }
        }
    }

    /// The accounts whose flag is set, in byte order.
    pub fn raised_accounts(&self) -> (r: Vec<AccountId>)
        requires
            self.wf(),
        ensures
            strictly_sorted(r@),
            forall|k: AccountId| r@.contains(k) <==> #[trigger] self.raised(k),
    {
        let mut out: Vec<AccountId> = Vec::new();
        let n = self.keys.len();
        let mut i: usize = 0;
        while i < n
            invariant
                self.wf(),
                n == self.keys@.len(),
                i <= n,
                strictly_sorted(out@),
                i < n ==> forall|j: int| 0 <= j < out@.len() ==> #[trigger] out@[j].spec_lt(self.keys@[i as int]),
                forall|k: AccountId| out@.contains(k) ==> #[trigger] self.raised(k),
                forall|m: int| 0 <= m < i && #[trigger] self.flags@[m] ==> out@.contains(self.keys@[m]),
            decreases n - i,
        {
            if self.flags[i] {
                let ghost before = out@;
                let k = self.keys[i];
                out.push(k);
                proof {
                    self.lemma_at(i as int);
                    assert forall|a: int, b: int| 0 <= a < b < out@.len() implies #[trigger] out@[a].spec_lt(#[trigger] out@[b]) by {
                        if b == before.len() {
                            assert(before[a].spec_lt(self.keys@[i as int]));
                        } else {
                            assert(before[a].spec_lt(before[b]));
                        }
                    }
                    assert forall|k2: AccountId| out@.contains(k2) implies #[trigger] self.raised(k2) by {
                        let j = choose|j: int| 0 <= j < out@.len() && out@[j] == k2;
                        if j < before.len() {
                            assert(before[j] == k2);
                            assert(before.contains(k2));
                        }
                    }
                    assert forall|m: int| 0 <= m < i + 1 && #[trigger] self.flags@[m] implies out@.contains(self.keys@[m]) by {
                        if m < i {
                            assert(before.contains(self.keys@[m]));
                            let j = choose|j: int| 0 <= j < before.len() && before[j] == self.keys@[m];
                            assert(out@[j] == self.keys@[m]);
                        } else {
                            assert(out@[before.len() as int] == self.keys@[m]);
                        }
                    }
                }
            }
            proof {
                if i + 1 < n {
                    assert forall|j: int| 0 <= j < out@.len() implies #[trigger] out@[j].spec_lt(self.keys@[i + 1]) by {
                        assert(self.keys@[i as int].spec_lt(self.keys@[i + 1]));
                        if j < out@.len() - 1 || !self.flags@[i as int] {
                            assert(out@[j].spec_lt(self.keys@[i as int]));
                        }
                    }
                }
            }
            i = i + 1;
        }
        proof {
            assert forall|k: AccountId| #[trigger] self.raised(k) implies out@.contains(k) by {
                let j = self.keys@.index_of(k);
                assert(self.keys@.contains(k));
                self.lemma_at(j);
                assert(self.flags@[j]);
            }
        }
        out
    }
}

} // verus!
