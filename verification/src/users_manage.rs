use vstd::prelude::*;

use crate::account::AccountId;
use crate::dao_manager::copy_accounts;
use crate::keyed_map::KeyedMap;

verus! {

/// A user of the protocol: its number, nickname, profile, invitation code, address,
/// the user who invited it and the users it invited.
#[derive(Clone, Debug)]
pub struct User {
    pub id: u128,
    pub nickname: String,
    pub profile: String,
    pub code: u128,
    pub address: AccountId,
    pub referer: AccountId,
    pub childs: Vec<AccountId>,
}

impl User {
    pub open spec fn same_as(&self, other: &User) -> bool {
        &&& self.id == other.id
        &&& self.nickname@ == other.nickname@
        &&& self.profile@ == other.profile@
        &&& self.code == other.code
        &&& self.address == other.address
        &&& self.referer == other.referer
        &&& self.childs@ == other.childs@
    }

    /// `self` is `before` with `child` added at the end of the users it invited.
    pub open spec fn child_added(&self, before: &User, child: AccountId) -> bool {
        &&& self.id == before.id
        &&& self.nickname@ == before.nickname@
        &&& self.profile@ == before.profile@
        &&& self.code == before.code
        &&& self.address == before.address
        &&& self.referer == before.referer
        &&& self.childs@ == before.childs@.push(child)
    }

    pub fn duplicate(&self) -> (r: User)
        ensures
            r.same_as(self),
    {
        User {
            id: self.id,
            nickname: self.nickname.clone(),
            profile: self.profile.clone(),
            code: self.code,
            address: self.address,
            referer: self.referer,
            childs: copy_accounts(&self.childs),
        }
    }
}

/// The users of the protocol, who join with the invitation code of another user.
pub struct UsersManage {
    user_info: KeyedMap<AccountId, User>,
    code_user: KeyedMap<u128, AccountId>,
    length: u128,
}

impl UsersManage {
    pub closed spec fn wf(&self) -> bool {
        &&& self.user_info.wf()
        &&& self.code_user.wf()
        &&& forall|c: u128| #[trigger] self.code_user.as_map().contains_key(c)
            ==> self.user_info.as_map().contains_key(self.code_user.as_map()[c])
        &&& forall|a: AccountId| #[trigger] self.user_info.as_map().contains_key(a)
            ==> self.user_info.as_map()[a].id != 0
        &&& forall|c: u128| #[trigger] self.code_user.as_map().contains_key(c) ==> 1 <= c <= self.length
        &&& forall|a: AccountId| #[trigger] self.user_info.as_map().contains_key(a) ==> {
            let c = self.user_info.as_map()[a].code;
            &&& self.code_user.as_map().contains_key(c)
            &&& self.code_user.as_map()[c] == a
        }
    }

    pub closed spec fn users(&self) -> Map<AccountId, User> {
        self.user_info.as_map()
    }

    /// The users in joining order.
    pub closed spec fn user_seq(&self) -> Seq<User> {
        self.user_info.val_seq()
    }

    /// The addresses of the users in joining order.
    pub closed spec fn user_ids(&self) -> Seq<AccountId> {
        self.user_info.key_seq()
    }

    /// The `i`-th user in joining order is the record of the `i`-th address.
    pub proof fn lemma_user_at(&self, i: int)
        requires
            self.wf(),
            0 <= i < self.user_ids().len(),
        ensures
            self.user_seq().len() == self.user_ids().len(),
            self.users().contains_key(self.user_ids()[i]),
            self.user_seq()[i] == self.users()[self.user_ids()[i]],
    {
        self.user_info.lemma_wf_lens();
        self.user_info.lemma_index(i);
    }

    pub closed spec fn codes(&self) -> Map<u128, AccountId> {
        self.code_user.as_map()
    }

    pub closed spec fn spec_length(&self) -> u128 {
        self.length
    }

    /// The user a code belongs to (the zero account when none).
    pub open spec fn user_by_code(&self, code: u128) -> AccountId {
        if self.codes().contains_key(code) {
            self.codes()[code]
        } else {
            AccountId::spec_zero()
        }
    }

    pub fn new() -> (r: Self)
        ensures
            r.wf(),
            r.users() == Map::<AccountId, User>::empty(),
            r.codes() == Map::<u128, AccountId>::empty(),
            r.spec_length() == 0,
    {
        UsersManage { user_info: KeyedMap::new(), code_user: KeyedMap::new(), length: 0 }
    }

    /// The caller joins with the invitation code of the user who invited it (0 for
    /// none). It gets the next number and code, both one more than the number of users
    /// so far, and the user whose code it gave as its referer (the zero account when the
    /// code is 0 or unknown). A user joins once.
    pub fn join(&mut self, caller: AccountId, invitation_code: u128, name: String, user_profile: String) -> (r: bool)
        requires
            old(self).wf(),
            old(self).spec_length() < u128::MAX,
            !old(self).users().contains_key(caller),
        ensures
            r,
            final(self).wf(),
            ({
                let code = (old(self).spec_length() + 1) as u128;
                let codes = old(self).codes().insert(code, caller);
                let referer = if invitation_code == 0 {
                    AccountId::spec_zero()
                } else if codes.contains_key(invitation_code) {
                    codes[invitation_code]
                } else {
                    AccountId::spec_zero()
                };
                let u = final(self).users()[caller];
                let invited = referer != AccountId::spec_zero();
                &&& final(self).spec_length() == code
                &&& final(self).codes() == codes
                &&& final(self).users().dom() == old(self).users().dom().insert(caller)
                &&& final(self).user_ids() == old(self).user_ids().push(caller)
                &&& invited ==> referer == caller || old(self).users().contains_key(referer)
                &&& (invited && referer == caller) ==> invitation_code == code
                &&& forall|a: AccountId| #[trigger] old(self).users().contains_key(a) && a != referer
                    ==> final(self).users()[a] == old(self).users()[a]
                &&& (invited && referer != caller) ==> final(self).users()[referer].child_added(
                    &old(self).users()[referer],
                    caller,
                )
                &&& u.id == code
                &&& u.nickname@ == name@
                &&& u.profile@ == user_profile@
                &&& u.code == code
                &&& u.address == caller
                &&& u.referer == referer
                &&& u.childs@ == if invitation_code == code && caller != AccountId::spec_zero() {
                    seq![caller]
                } else {
                    Seq::<AccountId>::empty()
                }
            }),
    {
        let caller_exists = self.exists_user(caller);
        let code = self.length + 1;
        self.code_user.insert(code, caller);
        let referer = if invitation_code == 0 {
            AccountId::zero()
        } else {
            self.get_user_by_code_raw(invitation_code)
        };
        let nickname = if name.as_str().is_empty() {
            String::default()
        } else {
            name
        };
        let profile = if user_profile.as_str().is_empty() {
            String::default()
        } else {
            user_profile
        };
        self.user_info.insert(
            caller,
            User {
                id: code,
                nickname,
                profile,
                code,
                address: caller,
                referer,
                childs: Vec::new(),
            },
        );
        self.length = self.length + 1;
        proof {
            assert(!old(self).user_info.has(caller)) by {
                if old(self).user_info.has(caller) {
                    old(self).user_info.lemma_has(caller);
                }
            }
            assert(self.users().dom() =~= old(self).users().dom().insert(caller));
            assert forall|c: u128| #[trigger] self.code_user.as_map().contains_key(c)
                implies self.user_info.as_map().contains_key(self.code_user.as_map()[c]) by {
                if c != code {
                    assert(old(self).code_user.as_map().contains_key(c));
                }
            }
        }
        let ghost mid = *self;
        proof {
            assert((referer != AccountId::spec_zero() && referer == caller) ==> invitation_code == code) by {
                if invitation_code != code && old(self).code_user.as_map().contains_key(invitation_code) {
                    assert(old(self).user_info.as_map().contains_key(old(self).code_user.as_map()[invitation_code]));
                }
            }
            assert(self.users() =~= old(self).users().insert(caller, self.users()[caller]));
            assert(self.users()[caller].childs@ =~= Seq::<AccountId>::empty());
            if referer != AccountId::spec_zero() {
                assert(self.code_user.as_map().contains_key(invitation_code));
                assert(self.users().contains_key(referer));
            }
        }
        if !referer.is_zero() {
            self.insert_user_child(referer, caller);
            proof {
                assert forall|a: AccountId| #[trigger] mid.users().contains_key(a) && a != referer
                    implies self.users()[a] == mid.users()[a] by {
                    assert(mid.users().remove(referer)[a] == mid.users()[a]);
                    assert(self.users().remove(referer)[a] == self.users()[a]);
                }
                if referer == caller {
                    assert(self.users()[caller].childs@ =~= seq![caller]);
                } else {
                    assert(mid.users().contains_key(caller));
                    assert(self.users().remove(referer)[caller] == mid.users().remove(referer)[caller]);
                }
            }
        }
        true
    }

    fn get_user_by_code_raw(&self, invitation_code: u128) -> (r: AccountId)
        requires
            self.code_user.wf(),
        ensures
            r == self.user_by_code(invitation_code),
    {
        match self.code_user.get_copy(&invitation_code) {
            Some(a) => a,
            None => AccountId::zero(),
        }
    }

    /// The number of users who joined.
    pub fn length(&self) -> (r: u128)
        ensures
            r == self.spec_length(),
    {
        self.length
    }

    /// The user who invited `user`, which must have joined.
    pub fn get_user_referer(&self, user: AccountId) -> (r: AccountId)
        requires
            self.wf(),
            self.users().contains_key(user),
        ensures
            r == self.users()[user].referer,
    {
        match self.user_info.get(&user) {
            Some(u) => u.referer,
            None => {
                assert(false);
                AccountId::zero()
            },
        }
    }

    /// Whether `user` joined.
    pub fn exists_user(&self, user: AccountId) -> (r: bool)
        requires
            self.wf(),
        ensures
            r == self.users().contains_key(user),
    {
        match self.user_info.get(&user) {
            Some(u) => u.id != 0,
            None => false,
        }
    }

    /// The user a code belongs to (the zero account when none).
    pub fn get_user_by_code(&self, invitation_code: u128) -> (r: AccountId)
        requires
            self.wf(),
        ensures
            r == self.user_by_code(invitation_code),
    {
        self.get_user_by_code_raw(invitation_code)
    }

    /// All users, in joining order.
    pub fn list_user(&self) -> (r: Vec<User>)
        requires
            self.wf(),
        ensures
            r@.len() == self.user_seq().len(),
            forall|i: int| #![trigger r@[i]] 0 <= i < r@.len() ==> r@[i].same_as(&self.user_seq()[i]),
    {
        let mut out: Vec<User> = Vec::new();
        let n = self.user_info.len();
        for i in 0..n
            invariant
                self.wf(),
                n == self.user_info.val_seq().len(),
                out@.len() == i,
                forall|j: int| #![trigger out@[j]] 0 <= j < i ==> out@[j].same_as(&self.user_info.val_seq()[j]),
        {
            out.push(self.user_info.value_at(i).duplicate());
        }
        out
    }

    /// Record `child` among the users `user` invited.
    fn insert_user_child(&mut self, user: AccountId, child: AccountId) -> (r: bool)
        requires
            old(self).wf(),
            old(self).users().contains_key(user),
        ensures
            r,
            final(self).wf(),
            final(self).users().dom() == old(self).users().dom(),
            final(self).users().remove(user) == old(self).users().remove(user),
            final(self).users()[user].child_added(&old(self).users()[user], child),
            final(self).user_ids() == old(self).user_ids(),
            final(self).codes() == old(self).codes(),
            final(self).spec_length() == old(self).spec_length(),
    {
        let t = self.user_info.take(&user);
        assert(t is Some);
        let (i, user_info) = t.unwrap();
        let mut user_info = user_info;
        user_info.childs.push(child);
        self.user_info.insert_at(i, user, user_info);
        proof {
            assert(self.user_info.key_seq() =~= old(self).user_info.key_seq());
            assert(self.users() =~= old(self).users().insert(user, user_info));
            assert(self.users().dom() =~= old(self).users().dom());
            assert(self.users().remove(user) =~= old(self).users().remove(user));
        }
        true
    }
}

impl UsersManage {
    /// Every invitation code that was handed out belongs to a user who joined.
    pub proof fn law_codes_belong_to_users(&self, c: u128)
        requires
            self.wf(),
            self.codes().contains_key(c),
        ensures
            self.users().contains_key(self.codes()[c]),
            1 <= c <= self.spec_length(),
    {
    }

    /// Every user's invitation code leads back to that user.
    pub proof fn law_code_leads_back(&self, a: AccountId)
        requires
            self.wf(),
            self.users().contains_key(a),
        ensures
            self.user_by_code(self.users()[a].code) == a,
    {
    }
}

} // verus!
