use vstd::prelude::*;

use crate::account::AccountId;
use crate::role_manage::{copy_strings, views};

verus! {

/// The privileges of the protocol, by index; only the owner may add them.
pub struct AuthorityManagement {
    owner: AccountId,
    index: u64,
    privilege_map: Vec<String>,
}

impl AuthorityManagement {
    pub closed spec fn wf(&self) -> bool {
        self.index == self.privilege_map@.len()
    }

    pub closed spec fn spec_owner(&self) -> AccountId {
        self.owner
    }

    /// The privilege names, by index.
    pub closed spec fn privileges(&self) -> Seq<Seq<char>> {
        views(self.privilege_map@)
    }

    /// `caller` creates the registry and owns it.
    pub fn new(caller: AccountId) -> (r: Self)
        ensures
            r.wf(),
            r.spec_owner() == caller,
            r.privileges() == Seq::<Seq<char>>::empty(),
    {
        let r = AuthorityManagement { owner: caller, index: 0, privilege_map: Vec::new() };
        assert(r.privileges() =~= Seq::<Seq<char>>::empty());
        r
    }

    /// The owner, the only one who may change the records.
    pub fn owner(&self) -> (r: AccountId)
        ensures
            r == self.spec_owner(),
    {
        self.owner
    }

    fn only_core(&self, sender: AccountId)
        requires
            self.spec_owner() == sender,
    {
    }

    /// add a privilege under the next index; only the owner may
    pub fn add_privilege(&mut self, caller: AccountId, name: String) -> (r: bool)
        requires
            old(self).wf(),
            caller == old(self).spec_owner(),
            old(self).privileges().len() < u64::MAX,
        ensures
            r,
            final(self).wf(),
            final(self).privileges() == old(self).privileges().push(name@),
            final(self).spec_owner() == old(self).spec_owner(),
    {
        self.only_core(caller);
        let ghost nv = name@;
        self.privilege_map.push(name);
        self.index = self.index + 1;
        proof {
            assert(self.privileges() =~= old(self).privileges().push(nv));
        }
        true
    }

    /// all privilege names, by index
    pub fn list_privileges(&self) -> (r: Vec<String>)
        requires
            self.wf(),
        ensures
            views(r@) == self.privileges(),
    {
        copy_strings(&self.privilege_map)
    }

    /// the privilege name at an existing index
    pub fn query_privilege_by_index(&self, index: u64) -> (r: String)
        requires
            self.wf(),
            index < self.privileges().len(),
        ensures
            r@ == self.privileges()[index as int],
    {
        let n = self.privilege_map.len();
        assert(index < n);
        self.privilege_map[index as usize].clone()
    }
}

} // verus!
