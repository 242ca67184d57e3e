use vstd::prelude::*;

use crate::account::AccountId;
use crate::dao_setting::{FeeConditions, OtherConditions, CONDITION_BOTH, CONDITION_FEE, CONDITION_OTHER};
use crate::keyed_map::KeyedMap;

verus! {

/// A member of a dao.
#[derive(Clone, Copy, Debug, PartialEq, Eq, Structural)]
pub struct User {
    pub addr: AccountId,
    pub expire_time: u128,
    pub role: u64,
}

/// A group of members: each member is marked approved or waiting.
pub struct Group {
    pub id: u128,
    pub name: String,
    pub join_directly: bool,
    pub is_open: bool,
    pub users: KeyedMap<AccountId, bool>,
    pub manager: AccountId,
}

impl Group {
    pub open spec fn wf(&self) -> bool {
        self.users.wf()
    }

    pub open spec fn same_as(&self, other: &Group) -> bool {
        &&& self.id == other.id
        &&& self.name@ == other.name@
        &&& self.join_directly == other.join_directly
        &&& self.is_open == other.is_open
        &&& self.users.key_seq() == other.users.key_seq()
        &&& self.users.val_seq() == other.users.val_seq()
        &&& self.manager == other.manager
    }

    pub fn duplicate(&self) -> (r: Group)
        requires
            self.wf(),
        ensures
            r.wf(),
            r.same_as(self),
    {
        Group {
            id: self.id,
            name: self.name.clone(),
            join_directly: self.join_directly,
            is_open: self.is_open,
            users: self.users.duplicate(),
            manager: self.manager,
        }
    }
}

/// The `transfer_from` a member pays its joining fee with.
#[derive(Clone, Copy, Debug, PartialEq, Eq, Structural)]
pub struct FeeTransfer {
    pub token: AccountId,
    pub from: AccountId,
    pub to: AccountId,
    pub value: u128,
}

/// The members and groups of a dao.
pub struct DaoUsers {
    user: KeyedMap<AccountId, User>,
    setting_addr: AccountId,
    group: KeyedMap<u128, Group>,
    user_group: KeyedMap<(AccountId, u128), bool>,
    group_index: u128,
}

impl DaoUsers {
    pub closed spec fn wf(&self) -> bool {
        &&& self.user.wf()
        &&& self.group.wf()
        &&& self.user_group.wf()
        &&& forall|k: u128| #[trigger] self.group.as_map().contains_key(k) ==> self.group.as_map()[k].wf()
        &&& forall|k: u128| #[trigger] self.group.as_map().contains_key(k) ==> 1 <= k <= self.group_index
    }

    pub closed spec fn users(&self) -> Map<AccountId, User> {
        self.user.as_map()
    }

    /// Members in joining order.
    pub closed spec fn user_seq(&self) -> Seq<User> {
        self.user.val_seq()
    }

    pub closed spec fn groups(&self) -> Map<u128, Group> {
        self.group.as_map()
    }

    /// Groups in creation order.
    pub closed spec fn group_seq(&self) -> Seq<Group> {
        self.group.val_seq()
    }

    /// The indices of the groups in creation order.
    pub closed spec fn group_indices(&self) -> Seq<u128> {
        self.group.key_seq()
    }

    /// The `i`-th group in creation order is the group of the `i`-th index.
    pub proof fn lemma_group_at(&self, i: int)
        requires
            self.wf(),
            0 <= i < self.group_indices().len(),
        ensures
            self.group_seq().len() == self.group_indices().len(),
            self.groups().contains_key(self.group_indices()[i]),
            self.group_seq()[i] == self.groups()[self.group_indices()[i]],
    {
        self.group.lemma_wf_lens();
        self.group.lemma_index(i);
    }

    pub closed spec fn user_groups(&self) -> Map<(AccountId, u128), bool> {
        self.user_group.as_map()
    }

    pub closed spec fn spec_group_index(&self) -> u128 {
        self.group_index
    }

    pub closed spec fn spec_setting_addr(&self) -> AccountId {
        self.setting_addr
    }

    /// The member record the caller gets when it joins.
    pub open spec fn member(caller: AccountId) -> User {
        User { addr: caller, expire_time: 0, role: 0 }
    }

    pub fn new(setting_addr: AccountId) -> (r: Self)
        ensures
            r.wf(),
            r.spec_setting_addr() == setting_addr,
            r.users() == Map::<AccountId, User>::empty(),
            r.groups() == Map::<u128, Group>::empty(),
            r.user_groups() == Map::<(AccountId, u128), bool>::empty(),
            r.spec_group_index() == 0,
            r.group_seq() == Seq::<Group>::empty(),
            r.user_seq() == Seq::<User>::empty(),
            r.group_indices() == Seq::<u128>::empty(),
    {
        DaoUsers {
            user: KeyedMap::new(),
            setting_addr,
            group: KeyedMap::new(),
            user_group: KeyedMap::new(),
            group_index: 0,
        }
    }

    /// Add a group under the next index, counting from 1.
    pub fn add_group(&mut self, group: Group) -> (r: bool)
        requires
            old(self).wf(),
            group.wf(),
            old(self).spec_group_index() < u128::MAX,
        ensures
            r,
            final(self).wf(),
            final(self).spec_group_index() == old(self).spec_group_index() + 1,
            final(self).groups() == old(self).groups().insert((old(self).spec_group_index() + 1) as u128, group),
            final(self).users() == old(self).users(),
            final(self).user_groups() == old(self).user_groups(),
            final(self).group_seq() == old(self).group_seq().push(group),
            final(self).group_indices() == old(self).group_indices().push((old(self).spec_group_index() + 1) as u128),
            final(self).user_seq() == old(self).user_seq(),
            final(self).spec_setting_addr() == old(self).spec_setting_addr(),
    {
        let index = self.group_index + 1;
        proof {
            if self.group.as_map().contains_key(index) {
                assert(index <= self.group_index);
            }
            assert(!self.group.has(index));
        }
        self.group_index = self.group_index + 1;
        self.group.insert(index, group);
        true
    }

    /// The caller joins the dao under the dao's joining condition, read from its
    /// settings: with condition 2 it must hold the fee in the fee token and pays it
    /// (the returned transfer); with condition 4 it must hold the token balance limit in
    /// the token of the other conditions when tokens are used; condition 6 admits
    /// nobody; any other condition admits everyone. `caller_balance` is the caller's
    /// balance in the token its condition names.
    pub fn join(
        &mut self,
        caller: AccountId,
        condition: u64,
        fee_limit: FeeConditions,
        other_limit: OtherConditions,
        caller_balance: u128,
    ) -> (r: Option<FeeTransfer>)
        requires
            old(self).wf(),
            condition == CONDITION_FEE ==> caller_balance >= fee_limit.fee_limit,
            condition == CONDITION_OTHER && other_limit.use_token ==> caller_balance >= other_limit.token_balance_limit,
        ensures
            final(self).wf(),
            r == if condition == CONDITION_FEE {
                Some(FeeTransfer { token: fee_limit.token, from: caller, to: AccountId::spec_zero(), value: fee_limit.fee_limit })
            } else {
                None
            },
            final(self).users() == if condition == CONDITION_BOTH {
                old(self).users()
            } else {
                old(self).users().insert(caller, Self::member(caller))
            },
            final(self).groups() == old(self).groups(),
            final(self).user_groups() == old(self).user_groups(),
            final(self).spec_group_index() == old(self).spec_group_index(),
    {
        if condition == CONDITION_FEE {
            let fee = FeeTransfer { token: fee_limit.token, from: caller, to: AccountId::zero(), value: fee_limit.fee_limit };
            self.user.insert(caller, User { addr: caller, expire_time: 0, role: 0 });
            Some(fee)
        } else if condition == CONDITION_OTHER {
            self.user.insert(caller, User { addr: caller, expire_time: 0, role: 0 });
            None
        } else if condition == CONDITION_BOTH {
            None
        } else {
            self.user.insert(caller, User { addr: caller, expire_time: 0, role: 0 });
            None
        }
    }

    /// Approve `user` in the group `index`, which must exist with a positive id.
    pub fn verify_user(&mut self, index: u128, user: AccountId) -> (r: bool)
        requires
            old(self).wf(),
            old(self).groups().contains_key(index),
            old(self).groups()[index].id > 0,
        ensures
            final(self).user_seq() == old(self).user_seq(),
            final(self).group_seq().len() == old(self).group_seq().len(),
            final(self).spec_group_index() == old(self).spec_group_index(),
            final(self).spec_setting_addr() == old(self).spec_setting_addr(),
            r,
            final(self).wf(),
            final(self).groups().dom() == old(self).groups().dom(),
            final(self).groups().remove(index) == old(self).groups().remove(index),
            ({
                let g = final(self).groups()[index];
                let g0 = old(self).groups()[index];
                &&& g.users.as_map() == g0.users.as_map().insert(user, true)
                &&& g.id == g0.id && g.name@ == g0.name@ && g.join_directly == g0.join_directly
                &&& g.is_open == g0.is_open && g.manager == g0.manager
            }),
            final(self).group_indices() == old(self).group_indices(),
            final(self).users() == old(self).users(),
            final(self).user_groups() == old(self).user_groups(),
    {
        let mut group = match self.group.get(&index) {
            Some(g) => g.duplicate(),
            None => {
                assert(false);
                return true;
            },
        };
        group.users.insert(user, true);
        proof {
            assert(self.group.has(index));
            self.group.lemma_has(index);
        }
        self.group.insert(index, group);
        proof {
            assert(self.groups().dom() =~= old(self).groups().dom());
            assert(self.groups().remove(index) =~= old(self).groups().remove(index));
        }
        true
    }

    /// The caller joins the group `index`, which must exist with a positive id; the
    /// caller must already hold a membership record for it. It is approved at once if
    /// the group takes members directly, else it waits.
    pub fn join_group(&mut self, caller: AccountId, index: u128) -> (r: bool)
        requires
            old(self).wf(),
            old(self).groups().contains_key(index),
            old(self).groups()[index].id > 0,
            old(self).user_groups().contains_key((caller, index)),
        ensures
            final(self).user_seq() == old(self).user_seq(),
            final(self).group_seq().len() == old(self).group_seq().len(),
            final(self).spec_group_index() == old(self).spec_group_index(),
            final(self).spec_setting_addr() == old(self).spec_setting_addr(),
            r,
            final(self).wf(),
            final(self).groups().dom() == old(self).groups().dom(),
            final(self).groups().remove(index) == old(self).groups().remove(index),
            ({
                let g = final(self).groups()[index];
                let g0 = old(self).groups()[index];
                &&& g.users.as_map() == g0.users.as_map().insert(caller, g0.join_directly)
                &&& g.id == g0.id && g.name@ == g0.name@ && g.join_directly == g0.join_directly
                &&& g.is_open == g0.is_open && g.manager == g0.manager
            }),
            final(self).user_groups() == old(self).user_groups().insert((caller, index), true),
            final(self).group_indices() == old(self).group_indices(),
            final(self).users() == old(self).users(),
    {
        let mut group = match self.group.get(&index) {
            Some(g) => g.duplicate(),
            None => {
                assert(false);
                return true;
            },
        };
        if group.join_directly == false {
            group.users.insert(caller, false);
        } else {
            group.users.insert(caller, true);
        }
        proof {
            assert(self.group.has(index));
            self.group.lemma_has(index);
        }
        self.group.insert(index, group);
        self.user_group.insert((caller, index), true);
        proof {
            assert(self.groups().dom() =~= old(self).groups().dom());
            assert(self.groups().remove(index) =~= old(self).groups().remove(index));
        }
        true
    }

    /// The id of the group at `index`, if there is one.
    pub fn group_id(&self, index: u128) -> (r: Option<u128>)
        requires
            self.wf(),
        ensures
            r == if self.groups().contains_key(index) {
                Some(self.groups()[index].id)
            } else {
                None
            },
    {
        match self.group.get(&index) {
            Some(g) => Some(g.id),
            None => None,
        }
    }

    /// Whether `user` holds a membership record for the group `index`.
    pub fn has_user_group(&self, user: AccountId, index: u128) -> (r: bool)
        requires
            self.wf(),
        ensures
            r == self.user_groups().contains_key((user, index)),
    {
        self.user_group.contains_key(&(user, index))
    }

    /// All members, in joining order.
    pub fn list_user(&self) -> (r: Vec<User>)
        requires
            self.wf(),
        ensures
            r@ == self.user_seq(),
    {
        self.user.values()
    }

    /// All groups, in creation order.
    pub fn list_group(&self) -> (r: Vec<Group>)
        requires
            self.wf(),
        ensures
            r@.len() == self.group_seq().len(),
            forall|i: int| #![trigger r@[i]] 0 <= i < r@.len() ==> r@[i].same_as(&self.group_seq()[i]) && r@[i].wf(),
    {
        let mut out: Vec<Group> = Vec::new();
        let n = self.group.len();
        for i in 0..n
            invariant
                self.wf(),
                n == self.group.val_seq().len(),
                out@.len() == i,
                forall|j: int| #![trigger out@[j]] 0 <= j < i ==> out@[j].same_as(&self.group.val_seq()[j]) && out@[j].wf(),
        {
            proof {
                self.group.lemma_wf_lens();
                self.group.lemma_index(i as int);
                let k = self.group.key_seq()[i as int];
                assert(self.group.as_map().contains_key(k));
            }
            out.push(self.group.value_at(i).duplicate());
        }
        out
    }

    /// Close the group `id`, which must exist.
    pub fn close_group(&mut self, id: u128) -> (r: bool)
        requires
            old(self).wf(),
            old(self).groups().contains_key(id),
        ensures
            final(self).user_seq() == old(self).user_seq(),
            final(self).group_seq().len() == old(self).group_seq().len(),
            final(self).spec_group_index() == old(self).spec_group_index(),
            final(self).spec_setting_addr() == old(self).spec_setting_addr(),
            r,
            final(self).wf(),
            final(self).groups().dom() == old(self).groups().dom(),
            final(self).groups().remove(id) == old(self).groups().remove(id),
            ({
                let g = final(self).groups()[id];
                let g0 = old(self).groups()[id];
                &&& !g.is_open
                &&& g.users.as_map() == g0.users.as_map()
                &&& g.id == g0.id && g.name@ == g0.name@ && g.join_directly == g0.join_directly
                &&& g.manager == g0.manager
            }),
            final(self).group_indices() == old(self).group_indices(),
            final(self).users() == old(self).users(),
            final(self).user_groups() == old(self).user_groups(),
    {
        let mut group = match self.group.get(&id) {
            Some(g) => g.duplicate(),
            None => {
                assert(false);
                return true;
            },
        };
        group.is_open = false;
        proof {
            assert(self.group.has(id));
            self.group.lemma_has(id);
        }
        self.group.insert(id, group);
        proof {
            assert(self.groups().dom() =~= old(self).groups().dom());
            assert(self.groups().remove(id) =~= old(self).groups().remove(id));
        }
        true
    }
}

} // verus!
