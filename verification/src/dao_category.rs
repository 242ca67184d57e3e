use vstd::prelude::*;

use crate::account::AccountId;
use crate::role_manage::{copy_strings, views};

verus! {

/// The categories of dao, by index.
/// owner:the manager of the contract
/// category_map:the category names, by index
pub struct DaoCategory {
    owner: AccountId,
    category_map: Vec<String>,
    index: u64,
}

impl DaoCategory {
    pub closed spec fn wf(&self) -> bool {
        self.index == self.category_map@.len()
    }

    pub closed spec fn spec_owner(&self) -> AccountId {
        self.owner
    }

    /// The category names, by index.
    pub closed spec fn categories(&self) -> Seq<Seq<char>> {
        views(self.category_map@)
    }

    /// `caller` creates the registry and owns it.
    pub fn new(caller: AccountId) -> (r: Self)
        ensures
            r.wf(),
            r.spec_owner() == caller,
            r.categories() == Seq::<Seq<char>>::empty(),
    {
        let r = DaoCategory { owner: caller, category_map: Vec::new(), index: 0 };
        assert(r.categories() =~= Seq::<Seq<char>>::empty());
        r
    }

    /// add a new category under the next index
    /// name:the name of category
    pub fn add_category(&mut self, name: String) -> (r: bool)
        requires
            old(self).wf(),
            old(self).categories().len() < u64::MAX,
        ensures
            r,
            final(self).wf(),
            final(self).categories() == old(self).categories().push(name@),
            final(self).spec_owner() == old(self).spec_owner(),
    {
        let ghost nv = name@;
        self.category_map.push(name);
        self.index = self.index + 1;
        proof {
            assert(self.categories() =~= old(self).categories().push(nv));
        }
        true
    }

    /// show all categories, by index
    pub fn list_category(&self) -> (r: Vec<String>)
        requires
            self.wf(),
        ensures
            views(r@) == self.categories(),
    {
        copy_strings(&self.category_map)
    }

    /// Get an existing category by index
    pub fn query_category_by_index(&self, index: u64) -> (r: String)
        requires
            self.wf(),
            index < self.categories().len(),
        ensures
            r@ == self.categories()[index as int],
    {
        let n = self.category_map.len();
        assert(index < n);
        self.category_map[index as usize].clone()
    }
}

} // verus!
