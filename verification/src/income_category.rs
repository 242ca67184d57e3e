use vstd::prelude::*;

use crate::account::AccountId;
use crate::keyed_map::KeyedMap;

verus! {

/// Whether a kind of income is charged, how much, and in which token.
#[derive(Clone, Copy, Debug, PartialEq, Eq, Structural)]
pub struct IncomeInfo {
    pub is_used: bool,
    pub fee: u128,
    pub token: AccountId,
}

/// The kinds of income of the protocol, by name; only the owner may change them.
pub struct IncomeCategory {
    owner: AccountId,
    category: KeyedMap<String, IncomeInfo>,
}

impl IncomeCategory {
    pub closed spec fn wf(&self) -> bool {
        self.category.wf()
    }

    pub closed spec fn spec_owner(&self) -> AccountId {
        self.owner
    }

    pub closed spec fn categories(&self) -> Map<Seq<char>, IncomeInfo> {
        self.category.as_map()
    }

    /// The kinds of income in the order their names were first saved.
    pub closed spec fn category_seq(&self) -> Seq<IncomeInfo> {
        self.category.val_seq()
    }

    /// The names of the kinds of income in the order they were first saved.
    pub closed spec fn category_names(&self) -> Seq<Seq<char>> {
        self.category.key_seq()
    }

    /// The `i`-th kind of income in order is the one saved under the `i`-th name.
    pub proof fn lemma_category_at(&self, i: int)
        requires
            self.wf(),
            0 <= i < self.category_names().len(),
        ensures
            self.category_seq().len() == self.category_names().len(),
            self.categories().contains_key(self.category_names()[i]),
            self.category_seq()[i] == self.categories()[self.category_names()[i]],
    {
        self.category.lemma_wf_lens();
        self.category.lemma_index(i);
    }

    pub fn new(owner: AccountId) -> (r: Self)
        ensures
            r.wf(),
            r.spec_owner() == owner,
            r.categories() == Map::<Seq<char>, IncomeInfo>::empty(),
            r.category_seq() == Seq::<IncomeInfo>::empty(),
            r.category_names() == Seq::<Seq<char>>::empty(),
    {
        IncomeCategory { owner, category: KeyedMap::new() }
    }

    /// save (or overwrite) a kind of income; only the owner may
    pub fn save_category(&mut self, caller: AccountId, name: String, income: IncomeInfo) -> (r: bool)
        requires
            old(self).wf(),
            caller == old(self).spec_owner(),
        ensures
            !old(self).categories().contains_key(name@) ==> final(self).category_seq() == old(self).category_seq().push(income),
            old(self).categories().contains_key(name@) ==> final(self).category_seq().len() == old(self).category_seq().len(),
            final(self).category_names() == if old(self).categories().contains_key(name@) {
                old(self).category_names()
            } else {
                old(self).category_names().push(name@)
            },
            r,
            final(self).wf(),
            final(self).categories() == old(self).categories().insert(name@, income),
            final(self).spec_owner() == old(self).spec_owner(),
    {
        self.only_owner(caller);
        proof {
            if self.category.has(name@) {
                self.category.lemma_has(name@);
            }
        }
        self.category.insert(name, income);
        true
    }

    /// an existing kind of income
    pub fn get_category(&self, name: String) -> (r: IncomeInfo)
        requires
            self.wf(),
            self.categories().contains_key(name@),
        ensures
            r == self.categories()[name@],
    {
        match self.category.get_copy(&name) {
            Some(i) => i,
            None => {
                assert(false);
                IncomeInfo { is_used: false, fee: 0, token: AccountId::zero() }
            },
        }
    }

    /// hand the ownership to `new_owner`; only the owner may
    pub fn transfer_owner(&mut self, caller: AccountId, new_owner: AccountId) -> (r: bool)
        requires
            caller == old(self).spec_owner(),
        ensures
            r,
            final(self).spec_owner() == new_owner,
            final(self).categories() == old(self).categories(),
            final(self).category_seq() == old(self).category_seq(),
            final(self).category_names() == old(self).category_names(),
            final(self).wf() == old(self).wf(),
    {
        self.only_owner(caller);
        self.owner = new_owner;
        true
    }

    /// all kinds of income, in the order their names were first saved
    pub fn list_category(&self) -> (r: Vec<IncomeInfo>)
        requires
            self.wf(),
        ensures
            r@ == self.category_seq(),
    {
        self.category.values()
    }

    /// The owner, the only one who may change the records.
    pub fn owner(&self) -> (r: AccountId)
        ensures
            r == self.spec_owner(),
    {
        self.owner
    }

    fn only_owner(&self, sender: AccountId)
        requires
            self.spec_owner() == sender,
    {
    }
}

} // verus!
