use vstd::prelude::*;

use crate::keyed_map::KeyedMap;

verus! {

/// store a user info
/// addr:the address of user
/// expire_time : the expire of user
/// role : the role of user
#[derive(Clone, Debug)]
pub struct User {
    pub addr: String,
    pub expire_time: u128,
    pub role: u64,
}

/// store a group info
/// id:the id of group
/// name:the name of group
/// join_directly:Join directly
/// is_open:Open or not
/// users:map of user's address to whether it is approved
/// manager:the manager of group
pub struct Group {
    pub id: u128,
    pub name: String,
    pub join_directly: bool,
    pub is_open: bool,
    pub users: KeyedMap<String, bool>,
    pub manager: String,
}

impl Group {
    pub open spec fn wf(&self) -> bool {
        self.users.wf()
    }
}

///All users in Dao are stored here
/// user:map of user's address and userinfo
/// setting_addr:the address of setting
/// group:map of group'id and group info
/// user_group:map of user address and group id to membership
pub struct DaoUsers {
    user: KeyedMap<String, User>,
    setting_addr: String,
    group: KeyedMap<u128, Group>,
    user_group: KeyedMap<(String, u128), bool>,
    group_index: u128,
}

impl DaoUsers {
    pub closed spec fn wf(&self) -> bool {
        &&& self.user.wf()
        &&& self.group.wf()
        &&& self.user_group.wf()
        &&& forall|k: u128| #[trigger] self.group.as_map().contains_key(k) ==> self.group.as_map()[k].wf()
    }

    pub closed spec fn users(&self) -> Map<Seq<char>, User> {
        self.user.as_map()
    }

    pub closed spec fn groups(&self) -> Map<u128, Group> {
        self.group.as_map()
    }

    pub closed spec fn user_groups(&self) -> Map<(Seq<char>, u128), bool> {
        self.user_group.as_map()
    }

    pub closed spec fn spec_group_index(&self) -> u128 {
        self.group_index
    }

    pub closed spec fn spec_setting_addr(&self) -> Seq<char> {
        self.setting_addr@
    }

    pub fn new(setting_addr: String) -> (r: Self)
        ensures
            r.wf(),
            r.spec_setting_addr() == setting_addr@,
            r.users() == Map::<Seq<char>, User>::empty(),
            r.groups() == Map::<u128, Group>::empty(),
            r.user_groups() == Map::<(Seq<char>, u128), bool>::empty(),
            r.spec_group_index() == 0,
    {
        DaoUsers {
            user: KeyedMap::new(),
            setting_addr,
            group: KeyedMap::new(),
            user_group: KeyedMap::new(),
            group_index: 0,
        }
    }

    /// add a group, managed by the signer, under the next index (counting from 1); the
    /// signer is its first, approved, member
    pub fn add_group(&mut self, signer: String, name: String, join_directly: bool, is_open: bool) -> (r: bool)
        requires
            old(self).wf(),
            old(self).spec_group_index() < u128::MAX,
        ensures
            final(self).spec_setting_addr() == old(self).spec_setting_addr(),
            r,
            final(self).wf(),
            final(self).spec_group_index() == old(self).spec_group_index() + 1,
            ({
                let index = (old(self).spec_group_index() + 1) as u128;
                let g = final(self).groups()[index];
                &&& final(self).groups().dom() == old(self).groups().dom().insert(index)
                &&& final(self).groups().remove(index) == old(self).groups().remove(index)
                &&& g.id == index
                &&& g.name@ == name@
                &&& g.join_directly == join_directly
                &&& g.is_open == is_open
                &&& g.users.as_map() == Map::<Seq<char>, bool>::empty().insert(signer@, true)
                &&& g.manager@ == signer@
            }),
            final(self).users() == old(self).users(),
            final(self).user_groups() == old(self).user_groups(),
    {
        let index = self.group_index + 1;
        let mut user: KeyedMap<String, bool> = KeyedMap::new();
        user.insert(signer.clone(), true);
        let group = Group { id: index, name, join_directly, is_open, users: user, manager: signer };
        self.group_index = self.group_index + 1;
        self.group.insert(index, group);
        proof {
            assert(self.groups().dom() =~= old(self).groups().dom().insert(index));
            assert(self.groups().remove(index) =~= old(self).groups().remove(index));
        }
        true
    }

    /// the signer joins the dao
    pub fn join(&mut self, signer: String) -> (r: bool)
        requires
            old(self).wf(),
        ensures
            final(self).spec_setting_addr() == old(self).spec_setting_addr(),
            final(self).spec_group_index() == old(self).spec_group_index(),
            r,
            final(self).wf(),
            final(self).users().dom() == old(self).users().dom().insert(signer@),
            final(self).users().remove(signer@) == old(self).users().remove(signer@),
            final(self).users()[signer@].addr@ == signer@,
            final(self).users()[signer@].expire_time == 0,
            final(self).users()[signer@].role == 0,
            final(self).groups() == old(self).groups(),
            final(self).user_groups() == old(self).user_groups(),
    {
        let u = User { addr: signer.clone(), expire_time: 0, role: 0 };
        self.user.insert(signer, u);
        proof {
            assert(self.users().dom() =~= old(self).users().dom().insert(signer@));
            assert(self.users().remove(signer@) =~= old(self).users().remove(signer@));
        }
        true
    }

    /// Approve `user` in the group `index`, which must exist with a positive id.
    pub fn verify_user(&mut self, index: u128, user: String) -> (r: bool)
        requires
            old(self).wf(),
            old(self).groups().contains_key(index),
            old(self).groups()[index].id > 0,
        ensures
            final(self).spec_setting_addr() == old(self).spec_setting_addr(),
            final(self).spec_group_index() == old(self).spec_group_index(),
            r,
            final(self).wf(),
            final(self).groups().dom() == old(self).groups().dom(),
            final(self).groups().remove(index) == old(self).groups().remove(index),
            ({
                let g = final(self).groups()[index];
                let g0 = old(self).groups()[index];
                &&& g.users.as_map() == g0.users.as_map().insert(user@, true)
                &&& g.id == g0.id && g.name@ == g0.name@ && g.join_directly == g0.join_directly
                &&& g.is_open == g0.is_open && g.manager@ == g0.manager@
            }),
            final(self).users() == old(self).users(),
            final(self).user_groups() == old(self).user_groups(),
    {
        let g = match self.group.remove(&index) {
            Some(g) => g,
            None => {
                assert(false);
                return true;
            },
        };
        let mut g = g;
        g.users.insert(user, true);
        self.group.insert(index, g);
        proof {
            assert(self.groups().dom() =~= old(self).groups().dom());
            assert(self.groups().remove(index) =~= old(self).groups().remove(index));
        }
        true
    }

    /// The signer joins the group `index`, which must exist with a positive id: it is
    /// approved at once if the group takes members directly, else it waits.
    pub fn join_group(&mut self, signer: String, index: u128) -> (r: bool)
        requires
            old(self).wf(),
            old(self).groups().contains_key(index),
            old(self).groups()[index].id > 0,
        ensures
            final(self).spec_setting_addr() == old(self).spec_setting_addr(),
            final(self).spec_group_index() == old(self).spec_group_index(),
            r,
            final(self).wf(),
            final(self).groups().dom() == old(self).groups().dom(),
            final(self).groups().remove(index) == old(self).groups().remove(index),
            ({
                let g = final(self).groups()[index];
                let g0 = old(self).groups()[index];
                &&& g.users.as_map() == g0.users.as_map().insert(signer@, g0.join_directly)
                &&& g.id == g0.id && g.name@ == g0.name@ && g.join_directly == g0.join_directly
                &&& g.is_open == g0.is_open && g.manager@ == g0.manager@
            }),
            final(self).user_groups() == old(self).user_groups().insert((signer@, index), true),
            final(self).users() == old(self).users(),
    {
        let g = match self.group.remove(&index) {
            Some(g) => g,
            None => {
                assert(false);
                return true;
            },
        };
        let mut g = g;
        if g.join_directly == false {
            g.users.insert(signer.clone(), false);
        } else {
            g.users.insert(signer.clone(), true);
        }
        self.group.insert(index, g);
        self.user_group.insert((signer, index), true);
        proof {
            assert(self.groups().dom() =~= old(self).groups().dom());
            assert(self.groups().remove(index) =~= old(self).groups().remove(index));
        }
        true
    }

    /// The id of the group at `index`, if there is one.
    pub fn group_id(&self, index: u128) -> (r: Option<u128>)
        requires
            self.wf(),
        ensures
            r == if self.groups().contains_key(index) {
                Some(self.groups()[index].id)
            } else {
                None
            },
    {
        match self.group.get(&index) {
            Some(g) => Some(g.id),
            None => None,
        }
    }

    /// show all user of dao
    pub fn list_user(self) -> (r: KeyedMap<String, User>)
        ensures
            r.as_map() == self.users(),
    {
        self.user
    }

    /// show all group of dao
    pub fn list_group(self) -> (r: KeyedMap<u128, Group>)
        ensures
            r.as_map() == self.groups(),
    {
        self.group
    }

    /// close an existing group.
    pub fn close_group(&mut self, id: u128) -> (r: bool)
        requires
            old(self).wf(),
            old(self).groups().contains_key(id),
        ensures
            r,
            final(self).wf(),
            final(self).groups() == old(self).groups().insert(
                id,
                Group { is_open: false, ..old(self).groups()[id] },
            ),
            final(self).users() == old(self).users(),
            final(self).user_groups() == old(self).user_groups(),
            final(self).spec_setting_addr() == old(self).spec_setting_addr(),
            final(self).spec_group_index() == old(self).spec_group_index(),
    {
        let g = self.group.remove(&id);
        assert(g is Some);
        let mut g = g.unwrap();
        g.is_open = false;
        self.group.insert(id, g);
        proof {
            assert(self.groups() =~= old(self).groups().insert(id, g));
        }
        true
    }
}

} // verus!
