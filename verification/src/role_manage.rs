use vstd::prelude::*;

use crate::account::AccountId;
use crate::keyed_map::KeyedMap;

verus! {

/// A copy of a list of names.
pub fn copy_strings(v: &Vec<String>) -> (r: Vec<String>)
    ensures
        r@ == v@,
{
    let mut out: Vec<String> = Vec::new();
    let n = v.len();
    for i in 0..n
        invariant
            n == v@.len(),
            out@ == v@.subrange(0, i as int),
    {
        out.push(v[i].clone());
        assert(out@ =~= v@.subrange(0, i + 1));
    }
    assert(out@ =~= v@);
    out
}

/// The views of a list of names.
pub open spec fn views(s: Seq<String>) -> Seq<Seq<char>> {
    s.map_values(|x: String| x@)
}

/// Whether `name` is among the names of `v`.
pub fn contains_name(v: &Vec<String>, name: &String) -> (r: bool)
    ensures
        r == views(v@).contains(name@),
{
    let n = v.len();
    for i in 0..n
        invariant
            n == v@.len(),
            forall|j: int| 0 <= j < i ==> v@[j]@ != name@,
    {
        if v[i] == *name {
            assert(views(v@)[i as int] == name@);
            return true;
        }
    }
    proof {
        assert forall|j: int| 0 <= j < views(v@).len() implies views(v@)[j] != name@ by {}
    }
    false
}

/// The roles of the protocol, the privileges of each role and the roles of each user.
pub struct RoleManage {
    owner: AccountId,
    index: u64,
    role_map: Vec<String>,
    role_privileges: KeyedMap<String, Vec<String>>,
    user_role: KeyedMap<AccountId, Vec<String>>,
}

/// All privileges of the roles `roles`, role by role, each in the order granted.
pub open spec fn privileges_of(roles: Seq<Seq<char>>, privileges: Map<Seq<char>, Seq<Seq<char>>>) -> Seq<Seq<char>>
    decreases roles.len(),
{
    if roles.len() == 0 {
        Seq::empty()
    } else {
        privileges_of(roles.drop_last(), privileges) + privileges[roles.last()]
    }
}

impl RoleManage {
    pub closed spec fn wf(&self) -> bool {
        &&& self.index == self.role_map@.len()
        &&& self.role_privileges.wf()
        &&& self.user_role.wf()
    }

    pub closed spec fn spec_owner(&self) -> AccountId {
        self.owner
    }

    /// The role names, by index.
    pub closed spec fn roles(&self) -> Seq<Seq<char>> {
        views(self.role_map@)
    }

    /// The privileges granted to each role name.
    pub closed spec fn privileges(&self) -> Map<Seq<char>, Seq<Seq<char>>> {
        self.role_privileges.as_map().map_values(|v: Vec<String>| views(v@))
    }

    /// The roles given to each user.
    pub closed spec fn user_roles(&self) -> Map<AccountId, Seq<Seq<char>>> {
        self.user_role.as_map().map_values(|v: Vec<String>| views(v@))
    }

    /// `caller` creates the roles and is the only one who may change them.
    pub fn new(caller: AccountId) -> (r: Self)
        ensures
            r.wf(),
            r.spec_owner() == caller,
            r.roles() == Seq::<Seq<char>>::empty(),
            r.privileges() == Map::<Seq<char>, Seq<Seq<char>>>::empty(),
            r.user_roles() == Map::<AccountId, Seq<Seq<char>>>::empty(),
    {
        let r = RoleManage {
            owner: caller,
            index: 0,
            role_map: Vec::new(),
            role_privileges: KeyedMap::new(),
            user_role: KeyedMap::new(),
        };
        assert(r.roles() =~= Seq::<Seq<char>>::empty());
        assert(r.privileges() =~= Map::<Seq<char>, Seq<Seq<char>>>::empty());
        assert(r.user_roles() =~= Map::<AccountId, Seq<Seq<char>>>::empty());
        r
    }

    /// The owner, the only one who may change the records.
    pub fn owner(&self) -> (r: AccountId)
        ensures
            r == self.spec_owner(),
    {
        self.owner
    }

    fn only_core(&self, sender: AccountId)
        requires
            self.spec_owner() == sender,
    {
    }

    /// add a role under the next index; only the owner may
    pub fn add_role(&mut self, caller: AccountId, name: String) -> (r: bool)
        requires
            old(self).wf(),
            caller == old(self).spec_owner(),
            old(self).roles().len() < u64::MAX,
        ensures
            r,
            final(self).wf(),
            final(self).roles() == old(self).roles().push(name@),
            final(self).privileges() == old(self).privileges(),
            final(self).user_roles() == old(self).user_roles(),
            final(self).spec_owner() == old(self).spec_owner(),
    {
        self.only_core(caller);
        let ghost nv = name@;
        self.role_map.push(name);
        self.index = self.index + 1;
        proof {
            assert(self.roles() =~= old(self).roles().push(nv));
        }
        true
    }

    /// all role names, by index
    pub fn list_roles(&self) -> (r: Vec<String>)
        requires
            self.wf(),
        ensures
            views(r@) == self.roles(),
    {
        copy_strings(&self.role_map)
    }

    /// the role name at an existing index
    pub fn query_role_by_index(&self, index: u64) -> (r: String)
        requires
            self.wf(),
            index < self.roles().len(),
        ensures
            r@ == self.roles()[index as int],
    {
        let n = self.role_map.len();
        assert(index < n);
        self.role_map[index as usize].clone()
    }

    /// grant `privilege` to the role `name`; only the owner may
    pub fn role_insert_privilege(&mut self, caller: AccountId, name: String, privilege: String) -> (r: bool)
        requires
            old(self).wf(),
            caller == old(self).spec_owner(),
        ensures
            r,
            final(self).wf(),
            final(self).privileges() == old(self).privileges().insert(
                name@,
                if old(self).privileges().contains_key(name@) {
                    old(self).privileges()[name@].push(privilege@)
                } else {
                    seq![privilege@]
                },
            ),
            final(self).roles() == old(self).roles(),
            final(self).user_roles() == old(self).user_roles(),
            final(self).spec_owner() == old(self).spec_owner(),
    {
        self.only_core(caller);
        let mut list = match self.role_privileges.get(&name) {
            Some(l) => copy_strings(l),
            None => Vec::new(),
        };
        let ghost before = list@;
        list.push(privilege);
        let ghost lv = list@;
        self.role_privileges.insert(name, list);
        proof {
            assert(views(lv) =~= views(before).push(privilege@));
            if old(self).privileges().contains_key(name@) {
                assert(old(self).role_privileges.as_map().contains_key(name@));
                assert(views(before) == old(self).privileges()[name@]);
            } else {
                assert(views(before) =~= Seq::<Seq<char>>::empty());
            }
            assert(self.privileges() =~= old(self).privileges().insert(name@, views(lv)));
        }
        true
    }

    /// the privileges of an existing role
    pub fn list_role_privileges(&self, name: String) -> (r: Vec<String>)
        requires
            self.wf(),
            self.privileges().contains_key(name@),
        ensures
            views(r@) == self.privileges()[name@],
    {
        match self.role_privileges.get(&name) {
            Some(l) => copy_strings(l),
            None => {
                assert(false);
                Vec::new()
            },
        }
    }

    /// give `role` to `user`; only the owner may
    pub fn add_user_role(&mut self, caller: AccountId, user: AccountId, role: String) -> (r: bool)
        requires
            old(self).wf(),
            caller == old(self).spec_owner(),
        ensures
            r,
            final(self).wf(),
            final(self).user_roles() == old(self).user_roles().insert(
                user,
                if old(self).user_roles().contains_key(user) {
                    old(self).user_roles()[user].push(role@)
                } else {
                    seq![role@]
                },
            ),
            final(self).roles() == old(self).roles(),
            final(self).privileges() == old(self).privileges(),
            final(self).spec_owner() == old(self).spec_owner(),
    {
        self.only_core(caller);
        let mut list = match self.user_role.get(&user) {
            Some(l) => copy_strings(l),
            None => Vec::new(),
        };
        let ghost before = list@;
        list.push(role);
        let ghost lv = list@;
        self.user_role.insert(user, list);
        proof {
            assert(views(lv) =~= views(before).push(role@));
            if old(self).user_roles().contains_key(user) {
                assert(old(self).user_role.as_map().contains_key(user));
                assert(views(before) == old(self).user_roles()[user]);
            } else {
                assert(views(before) =~= Seq::<Seq<char>>::empty());
            }
            assert(self.user_roles() =~= old(self).user_roles().insert(user, views(lv)));
        }
        true
    }

    /// whether a user that has roles has `role`
    pub fn check_user_role(&self, user: AccountId, role: String) -> (r: bool)
        requires
            self.wf(),
            self.user_roles().contains_key(user),
        ensures
            r == self.user_roles()[user].contains(role@),
    {
        let list = self.get_user_roles(user);
        contains_name(&list, &role)
    }

    /// the roles of a user that has roles
    pub fn get_user_roles(&self, user: AccountId) -> (r: Vec<String>)
        requires
            self.wf(),
            self.user_roles().contains_key(user),
        ensures
            views(r@) == self.user_roles()[user],
    {
        match self.user_role.get(&user) {
            Some(l) => copy_strings(l),
            None => {
                assert(false);
                Vec::new()
            },
        }
    }

    /// whether a user that has roles has `privilege` through one of them; every role of
    /// the user must have privileges
    pub fn check_user_privilege(&self, user: AccountId, privilege: String) -> (r: bool)
        requires
            self.wf(),
            self.user_roles().contains_key(user),
            forall|i: int| 0 <= i < self.user_roles()[user].len() ==> self.privileges().contains_key(
                #[trigger] self.user_roles()[user][i],
            ),
        ensures
            r == privileges_of(self.user_roles()[user], self.privileges()).contains(privilege@),
    {
        let list = self.get_user_privilege(user);
        contains_name(&list, &privilege)
    }

    /// the privileges of a user that has roles, role by role; every role of the user
    /// must have privileges
    pub fn get_user_privilege(&self, user: AccountId) -> (r: Vec<String>)
        requires
            self.wf(),
            self.user_roles().contains_key(user),
            forall|i: int| 0 <= i < self.user_roles()[user].len() ==> self.privileges().contains_key(
                #[trigger] self.user_roles()[user][i],
            ),
        ensures
            views(r@) == privileges_of(self.user_roles()[user], self.privileges()),
    {
        let mut privilege_vec: Vec<String> = Vec::new();
        let list = self.get_user_roles(user);
        let n = list.len();
        let ghost roles = self.user_roles()[user];
        for i in 0..n
            invariant
                self.wf(),
                n == list@.len(),
                views(list@) == roles,
                roles == self.user_roles()[user],
                forall|j: int| 0 <= j < roles.len() ==> self.privileges().contains_key(#[trigger] roles[j]),
                views(privilege_vec@) == privileges_of(roles.subrange(0, i as int), self.privileges()),
        {
            let ghost role = roles[i as int];
            assert(list@[i as int]@ == role);
            let mut privileges = match self.role_privileges.get(&list[i]) {
                Some(l) => copy_strings(l),
                None => {
                    assert(self.privileges().contains_key(role));
                    assert(false);
                    Vec::new()
                },
            };
            let ghost before = privilege_vec@;
            privilege_vec.append(&mut privileges);
            proof {
                assert(roles.subrange(0, i + 1).drop_last() =~= roles.subrange(0, i as int));
                assert(views(privilege_vec@) =~= views(before) + self.privileges()[role]);
            }
        }
        assert(roles.subrange(0, n as int) =~= roles);
        privilege_vec
    }
}

} // verus!
