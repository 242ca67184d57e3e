use vstd::prelude::*;

use crate::account::AccountId;
use crate::keyed_map::KeyedMap;
use crate::role_manage::{copy_strings, views};

verus! {

/// The roles of the protocol, by index, and the privilege indices of each role.
pub struct RoleManage {
    owner: AccountId,
    index: u64,
    role_map: Vec<String>,
    role_privileges: KeyedMap<u64, Vec<u64>>,
}

impl RoleManage {
    pub closed spec fn wf(&self) -> bool {
        &&& self.index == self.role_map@.len()
        &&& self.role_privileges.wf()
    }

    /// The kernel account that created the roles, the only one who may change them.
    pub closed spec fn spec_owner(&self) -> AccountId {
        self.owner
    }

    /// The role names, by index.
    pub closed spec fn roles(&self) -> Seq<Seq<char>> {
        views(self.role_map@)
    }

    /// The privilege indices of each role index.
    pub closed spec fn privileges(&self) -> Map<u64, Seq<u64>> {
        self.role_privileges.as_map().map_values(|v: Vec<u64>| v@)
    }

    /// `caller`, the kernel, creates the roles and is the only one who may change them.
    pub fn new(caller: AccountId) -> (r: Self)
        ensures
            r.wf(),
            r.spec_owner() == caller,
            r.roles() == Seq::<Seq<char>>::empty(),
            r.privileges() == Map::<u64, Seq<u64>>::empty(),
    {
        let r = RoleManage { owner: caller, index: 0, role_map: Vec::new(), role_privileges: KeyedMap::new() };
        assert(r.roles() =~= Seq::<Seq<char>>::empty());
        assert(r.privileges() =~= Map::<u64, Seq<u64>>::empty());
        r
    }

    /// The kernel account that may change the roles.
    pub fn owner(&self) -> (r: AccountId)
        ensures
            r == self.spec_owner(),
    {
        self.owner
    }

    /// add a role under the next index; only the kernel may
    pub fn add_role(&mut self, caller: AccountId, name: String) -> (r: bool)
        requires
            old(self).wf(),
            caller == old(self).spec_owner(),
            old(self).roles().len() < u64::MAX,
        ensures
            r,
            final(self).wf(),
            final(self).roles() == old(self).roles().push(name@),
            final(self).privileges() == old(self).privileges(),
            final(self).spec_owner() == old(self).spec_owner(),
    {
        let ghost nv = name@;
        self.role_map.push(name);
        self.index = self.index + 1;
        proof {
            assert(self.roles() =~= old(self).roles().push(nv));
        }
        true
    }

    /// all role names, by index
    pub fn list_roles(&self) -> (r: Vec<String>)
        requires
            self.wf(),
        ensures
            views(r@) == self.roles(),
    {
        copy_strings(&self.role_map)
    }

    /// the role name at an existing index
    pub fn query_role_by_index(&self, index: u64) -> (r: String)
        requires
            self.wf(),
            index < self.roles().len(),
        ensures
            r@ == self.roles()[index as int],
    {
        let n = self.role_map.len();
        assert(index < n);
        self.role_map[index as usize].clone()
    }

    /// grant the privilege `privilege_index` to the role `index`, after those it has;
    /// only the kernel may
    pub fn role_insert_privilege(&mut self, caller: AccountId, index: u64, privilege_index: u64) -> (r: bool)
        requires
            old(self).wf(),
            caller == old(self).spec_owner(),
        ensures
            r,
            final(self).wf(),
            final(self).privileges() == old(self).privileges().insert(
                index,
                if old(self).privileges().contains_key(index) {
                    old(self).privileges()[index].push(privilege_index)
                } else {
                    seq![privilege_index]
                },
            ),
            final(self).roles() == old(self).roles(),
            final(self).spec_owner() == old(self).spec_owner(),
    {
        let mut v: Vec<u64> = match self.role_privileges.get(&index) {
            Some(l) => copy_indices(l),
            None => Vec::new(),
        };
        v.push(privilege_index);
        let ghost vv = v@;
        self.role_privileges.insert(index, v);
        proof {
            assert(self.privileges() =~= old(self).privileges().insert(index, vv));
        }
        true
    }
}

/// A copy of a list of indices.
pub fn copy_indices(v: &Vec<u64>) -> (r: Vec<u64>)
    ensures
        r@ == v@,
{
    let mut out: Vec<u64> = Vec::new();
    let n = v.len();
    for i in 0..n
        invariant
            n == v@.len(),
            out@ == v@.subrange(0, i as int),
    {
        out.push(v[i]);
        assert(out@ =~= v@.subrange(0, i + 1));
    }
    assert(out@ =~= v@);
    out
}

} // verus!
