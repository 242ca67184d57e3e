use vstd::prelude::*;

use crate::account::AccountId;
use crate::keyed_map::KeyedMap;

verus! {

/// The addresses of the protocol's contracts, by name; only the owner may change them.
pub struct RouteManage {
    owner: AccountId,
    index: u64,
    route_map: KeyedMap<String, AccountId>,
}

impl RouteManage {
    pub closed spec fn wf(&self) -> bool {
        self.route_map.wf()
    }

    pub closed spec fn spec_owner(&self) -> AccountId {
        self.owner
    }

    /// How many routes were added (each `add_route` counts, also over an existing name).
    pub closed spec fn spec_index(&self) -> u64 {
        self.index
    }

    pub closed spec fn routes(&self) -> Map<Seq<char>, AccountId> {
        self.route_map.as_map()
    }

    /// `caller` creates the routes and owns them.
    pub fn new(caller: AccountId) -> (r: Self)
        ensures
            r.wf(),
            r.spec_owner() == caller,
            r.spec_index() == 0,
            r.routes() == Map::<Seq<char>, AccountId>::empty(),
    {
        RouteManage { owner: caller, index: 0, route_map: KeyedMap::new() }
    }

    /// The owner, the only one who may change the records.
    pub fn owner(&self) -> (r: AccountId)
        ensures
            r == self.spec_owner(),
    {
        self.owner
    }

    fn only_core(&self, sender: AccountId)
        requires
            self.spec_owner() == sender,
    {
    }

    /// add (or overwrite) the route `name`; only the owner may
    pub fn add_route(&mut self, caller: AccountId, name: String, value: AccountId) -> (r: bool)
        requires
            old(self).wf(),
            caller == old(self).spec_owner(),
            old(self).spec_index() < u64::MAX,
        ensures
            r,
            final(self).wf(),
            final(self).routes() == old(self).routes().insert(name@, value),
            final(self).spec_index() == old(self).spec_index() + 1,
            final(self).spec_owner() == old(self).spec_owner(),
    {
        self.only_core(caller);
        self.route_map.insert(name, value);
        self.index = self.index + 1;
        true
    }

    /// the address of the route `name` (the zero account when there is none)
    pub fn query_route_by_name(&self, name: String) -> (r: AccountId)
        requires
            self.wf(),
        ensures
            r == if self.routes().contains_key(name@) {
                self.routes()[name@]
            } else {
                AccountId::spec_zero()
            },
    {
        match self.route_map.get_copy(&name) {
            Some(a) => a,
            None => AccountId::zero(),
        }
    }

    /// change an existing route; only the owner may
    pub fn change_route(&mut self, caller: AccountId, name: String, value: AccountId) -> (r: bool)
        requires
            old(self).wf(),
            caller == old(self).spec_owner(),
            old(self).routes().contains_key(name@),
        ensures
            r,
            final(self).wf(),
            final(self).routes() == old(self).routes().insert(name@, value),
            final(self).spec_index() == old(self).spec_index(),
            final(self).spec_owner() == old(self).spec_owner(),
    {
        self.only_core(caller);
        self.route_map.insert(name, value);
        true
    }
}

} // verus!
