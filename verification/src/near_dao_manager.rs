use vstd::prelude::*;

use crate::keyed_map::KeyedMap;
use crate::role_manage::{copy_strings, views};

verus! {

/// What each component account is funded with when it is created.
pub const CONTRACT_INIT_BALANCE: u128 = 1000 * 1_000_000_000_000;

/// the base information
pub struct BaseParam {
    pub owner: String,
    pub name: String,
    pub logo: String,
    pub desc: String,
}

/// the erc20 param
pub struct ERC20Param {
    pub owner: String,
    pub name: String,
    pub symbol: String,
    pub total_supply: u128,
    pub decimals: u8,
}

/// The parameters the components are created with.
pub struct DAOInitParams {
    pub base: BaseParam,
    pub erc20: ERC20Param,
}

/// DAO component instance addresses
pub struct DAOComponentAddrs {
    pub base_addr: Option<String>,
    pub erc20_addr: Option<String>,
    pub dao_users_addr: Option<String>,
    pub dao_setting_addr: Option<String>,
    pub vault_addr: Option<String>,
    pub proposal_addr: Option<String>,
}

/// The view of an optional account.
pub open spec fn addr_view(a: Option<String>) -> Option<Seq<char>> {
    match a {
        Some(s) => Some(s@),
        None => None,
    }
}

/// the union dao setting
pub struct Union {
    open: bool,
    join_limit: u128,
    daos: KeyedMap<String, bool>,
    manager: String,
}

/// Store important information of Dao
/// creator:the creator of dao
/// owner:the owner of dao
/// active:whether the components were created
/// dao_id:the dao_id of dao
/// controller_type:the controller_type of dao
/// component_addrs:the component_addrs of dao
/// category:the category of dao
/// union:store the union info
/// childs_dao:map of dao and its child daos
pub struct DAOManager {
    creator: String,
    owner: String,
    active: bool,
    dao_id: u64,
    controller_type: u32,
    component_addrs: DAOComponentAddrs,
    category: String,
    union: Union,
    childs_dao: KeyedMap<String, Vec<String>>,
}

impl DAOManager {
    pub closed spec fn wf(&self) -> bool {
        &&& self.union.daos.wf()
        &&& self.childs_dao.wf()
    }

    pub closed spec fn spec_creator(&self) -> Seq<char> {
        self.creator@
    }

    pub closed spec fn spec_owner(&self) -> Seq<char> {
        self.owner@
    }

    pub closed spec fn spec_active(&self) -> bool {
        self.active
    }

    pub closed spec fn spec_dao_id(&self) -> u64 {
        self.dao_id
    }

    pub closed spec fn spec_controller_type(&self) -> u32 {
        self.controller_type
    }

    pub closed spec fn spec_category(&self) -> Seq<char> {
        self.category@
    }

    /// The component addresses: base, erc20, users, setting, vault, proposal.
    pub closed spec fn addrs(&self) -> Seq<Option<Seq<char>>> {
        seq![
            addr_view(self.component_addrs.base_addr),
            addr_view(self.component_addrs.erc20_addr),
            addr_view(self.component_addrs.dao_users_addr),
            addr_view(self.component_addrs.dao_setting_addr),
            addr_view(self.component_addrs.vault_addr),
            addr_view(self.component_addrs.proposal_addr),
        ]
    }

    pub closed spec fn union_open(&self) -> bool {
        self.union.open
    }

    pub closed spec fn union_join_limit(&self) -> u128 {
        self.union.join_limit
    }

    pub closed spec fn union_manager(&self) -> Seq<char> {
        self.union.manager@
    }

    pub closed spec fn union_daos(&self) -> Map<Seq<char>, bool> {
        self.union.daos.as_map()
    }

    /// Creator, owner, id, controller type, category and union manager are those of `other`.
    pub open spec fn same_identity(&self, other: &DAOManager) -> bool {
        &&& self.spec_creator() == other.spec_creator()
        &&& self.spec_owner() == other.spec_owner()
        &&& self.spec_dao_id() == other.spec_dao_id()
        &&& self.spec_controller_type() == other.spec_controller_type()
        &&& self.spec_category() == other.spec_category()
        &&& self.union_manager() == other.union_manager()
    }

    pub closed spec fn children(&self) -> Map<Seq<char>, Seq<Seq<char>>> {
        self.childs_dao.as_map().map_values(|v: Vec<String>| views(v@))
    }

    /// Create a new dao in the contract at `current_account_id`, which manages its union.
    pub fn new(
        current_account_id: String,
        creator: String,
        owner: String,
        dao_id: u64,
        controller_type: u32,
        category: String,
    ) -> (r: Self)
        ensures
            r.wf(),
            r.spec_creator() == creator@,
            r.spec_owner() == owner@,
            !r.spec_active(),
            r.spec_dao_id() == dao_id,
            r.spec_controller_type() == controller_type,
            r.spec_category() == category@,
            r.addrs() == seq![None::<Seq<char>>, None, None, None, None, None],
            !r.union_open(),
            r.union_join_limit() == 0,
            r.union_manager() == current_account_id@,
            r.union_daos() == Map::<Seq<char>, bool>::empty(),
            r.children() == Map::<Seq<char>, Seq<Seq<char>>>::empty(),
    {
        let r = DAOManager {
            creator,
            owner,
            active: false,
            dao_id,
            controller_type,
            childs_dao: KeyedMap::new(),
            component_addrs: DAOComponentAddrs {
                base_addr: None,
                erc20_addr: None,
                dao_users_addr: None,
                dao_setting_addr: None,
                vault_addr: None,
                proposal_addr: None,
            },
            category,
            union: Union { open: false, join_limit: 0, daos: KeyedMap::new(), manager: current_account_id },
        };
        assert(r.children() =~= Map::<Seq<char>, Seq<Seq<char>>>::empty());
        r
    }

    /// get the category of dao
    pub fn get_dao_category(&self) -> (r: String)
        ensures
            r@ == self.spec_category(),
    {
        self.category.clone()
    }

    fn check_dao_category(&self, category: String)
        requires
            self.spec_category() == category@,
    {
    }

    /// open or close the union for joining; the dao must be a union
    pub fn operate_join(&mut self, operate: bool) -> (r: bool)
        requires
            old(self).spec_category() == "union"@,
        ensures
            final(self).same_identity(old(self)),
            r,
            final(self).union_open() == operate,
            final(self).union_join_limit() == old(self).union_join_limit(),
            final(self).union_daos() == old(self).union_daos(),
            final(self).children() == old(self).children(),
            final(self).addrs() == old(self).addrs(),
            final(self).spec_category() == old(self).spec_category(),
            final(self).spec_active() == old(self).spec_active(),
            final(self).wf() == old(self).wf(),
    {
        self.check_dao_category(String::from_str("union"));
        self.union.open = operate;
        true
    }

    /// get the component_addrs
    pub fn get_component_addrs(self) -> (r: DAOComponentAddrs)
        ensures
            seq![
                addr_view(r.base_addr),
                addr_view(r.erc20_addr),
                addr_view(r.dao_users_addr),
                addr_view(r.dao_setting_addr),
                addr_view(r.vault_addr),
                addr_view(r.proposal_addr),
            ] == self.addrs(),
    {
        self.component_addrs
    }

    /// Whether child daos are recorded under `address`.
    pub fn has_children(&self, address: String) -> (r: bool)
        requires
            self.wf(),
        ensures
            r == self.children().contains_key(address@),
    {
        self.childs_dao.contains_key(&address)
    }

    /// get the child daos of `address`, which must have some recorded
    pub fn get_childs_daos(&self, address: String) -> (r: Vec<String>)
        requires
            self.wf(),
            self.children().contains_key(address@),
        ensures
            views(r@) == self.children()[address@],
    {
        match self.childs_dao.get(&address) {
            Some(l) => copy_strings(l),
            None => {
                assert(false);
                Vec::new()
            },
        }
    }

    /// set the limit of join dao; the dao must be a union
    pub fn set_join_limit(&mut self, limit: u128) -> (r: bool)
        requires
            old(self).spec_category() == "union"@,
        ensures
            final(self).same_identity(old(self)),
            r,
            final(self).union_join_limit() == limit,
            final(self).union_open() == old(self).union_open(),
            final(self).union_daos() == old(self).union_daos(),
            final(self).children() == old(self).children(),
            final(self).addrs() == old(self).addrs(),
            final(self).spec_category() == old(self).spec_category(),
            final(self).spec_active() == old(self).spec_active(),
            final(self).wf() == old(self).wf(),
    {
        self.check_dao_category(String::from_str("union"));
        self.union.join_limit = limit;
        true
    }

    /// join the dao
    pub fn join_union_dao(&mut self, dao: String) -> (r: bool)
        requires
            old(self).wf(),
        ensures
            final(self).union_join_limit() == old(self).union_join_limit(),
            final(self).same_identity(old(self)),
            r,
            final(self).wf(),
            final(self).union_daos() == old(self).union_daos().insert(dao@, true),
            final(self).union_open() == old(self).union_open(),
            final(self).children() == old(self).children(),
            final(self).addrs() == old(self).addrs(),
            final(self).spec_active() == old(self).spec_active(),
    {
        self.union.daos.insert(dao, true);
        true
    }

    /// leave a dao
    pub fn leave_union_dao(&mut self, dao: String) -> (r: bool)
        requires
            old(self).wf(),
        ensures
            final(self).union_join_limit() == old(self).union_join_limit(),
            final(self).same_identity(old(self)),
            r,
            final(self).wf(),
            final(self).union_daos() == old(self).union_daos().insert(dao@, false),
            final(self).union_open() == old(self).union_open(),
            final(self).children() == old(self).children(),
            final(self).addrs() == old(self).addrs(),
            final(self).spec_active() == old(self).spec_active(),
    {
        self.union.daos.insert(dao, false);
        true
    }

    /// show all union dao: the whole membership map
    pub fn list_union_dao(self) -> (r: KeyedMap<String, bool>)
        ensures
            r.as_map() == self.union_daos(),
    {
        self.union.daos
    }

    /// record `child_dao` as the last child of `dao_id` (its first when it has none);
    /// the dao must be a mother dao.
    pub fn create_child_dao(&mut self, dao_id: String, child_dao: String) -> (r: bool)
        requires
            old(self).wf(),
            old(self).spec_category() == "mother"@,
        ensures
            r,
            final(self).wf(),
            final(self).children() == old(self).children().insert(
                dao_id@,
                if old(self).children().contains_key(dao_id@) {
                    old(self).children()[dao_id@].push(child_dao@)
                } else {
                    seq![child_dao@]
                },
            ),
            final(self).same_identity(old(self)),
            final(self).union_join_limit() == old(self).union_join_limit(),
            final(self).union_daos() == old(self).union_daos(),
            final(self).union_open() == old(self).union_open(),
            final(self).addrs() == old(self).addrs(),
            final(self).spec_active() == old(self).spec_active(),
    {
        self.check_dao_category(String::from_str("mother"));
        let mut list: Vec<String> = match self.childs_dao.get(&dao_id) {
            Some(l) => copy_strings(l),
            None => Vec::new(),
        };
        let ghost before = views(list@);
        let ghost cv = child_dao@;
        list.push(child_dao);
        let ghost lv = views(list@);
        proof {
            assert(lv =~= before.push(cv));
            if old(self).childs_dao.as_map().contains_key(dao_id@) {
                assert(before == old(self).children()[dao_id@]);
            } else {
                assert(before =~= Seq::<Seq<char>>::empty());
                assert(lv =~= seq![cv]);
            }
        }
        self.childs_dao.insert(dao_id, list);
        proof {
            assert(self.children() =~= old(self).children().insert(dao_id@, lv));
        }
        true
    }

    /// The account the components are created at: the current account under itself.
    pub open spec fn component_account_spec(current: Seq<char>) -> Seq<char> {
        current + "."@ + current
    }

    /// The account the components are created at: the current account under itself.
    fn component_account(current_account_id: &String) -> (r: String)
        ensures
            r@ == Self::component_account_spec(current_account_id@),
    {
        let mut s = current_account_id.clone();
        s.append(".");
        s.append(current_account_id.as_str());
        s
    }

    /// Create the components, all at the account `<current>.<current>`, in the order
    /// setting, base, erc20, users, vault, proposal; only once. Returns the account the
    /// components' code is deployed to.
    pub fn init_by_params(&mut self, current_account_id: String) -> (r: String)
        requires
            !old(self).spec_active(),
        ensures
            final(self).union_open() == old(self).union_open(),
            final(self).union_join_limit() == old(self).union_join_limit(),
            final(self).same_identity(old(self)),
            r@ == Self::component_account_spec(current_account_id@),
            final(self).spec_active(),
            final(self).addrs() == seq![Some(r@), Some(r@), Some(r@), Some(r@), Some(r@), Some(r@)],
            final(self).union_daos() == old(self).union_daos(),
            final(self).children() == old(self).children(),
            final(self).wf() == old(self).wf(),
    {
        self._init_setting(&current_account_id);
        self._init_base(&current_account_id);
        self._init_erc20(&current_account_id);
        self._init_user(&current_account_id);
        self._init_vault(&current_account_id);
        self._init_proposal(&current_account_id);
        self.active = true;
        Self::component_account(&current_account_id)
    }

    fn _init_proposal(&mut self, current_account_id: &String) -> (r: bool)
        ensures
            final(self).same_identity(old(self)),
            r,
            addr_view(final(self).component_addrs.proposal_addr) == Some(Self::component_account_spec(current_account_id@)),
            final(self).component_addrs.base_addr == old(self).component_addrs.base_addr,
            final(self).component_addrs.erc20_addr == old(self).component_addrs.erc20_addr,
            final(self).component_addrs.dao_users_addr == old(self).component_addrs.dao_users_addr,
            final(self).component_addrs.dao_setting_addr == old(self).component_addrs.dao_setting_addr,
            final(self).component_addrs.vault_addr == old(self).component_addrs.vault_addr,
            final(self).active == old(self).active,
            final(self).union == old(self).union,
            final(self).childs_dao == old(self).childs_dao,
    {
        let subaccount_id = Self::component_account(current_account_id);
        self.component_addrs.proposal_addr = Some(subaccount_id);
        true
    }

    /// init vault
    fn _init_vault(&mut self, current_account_id: &String) -> (r: bool)
        ensures
            final(self).same_identity(old(self)),
            r,
            addr_view(final(self).component_addrs.vault_addr) == Some(Self::component_account_spec(current_account_id@)),
            final(self).component_addrs.base_addr == old(self).component_addrs.base_addr,
            final(self).component_addrs.erc20_addr == old(self).component_addrs.erc20_addr,
            final(self).component_addrs.dao_users_addr == old(self).component_addrs.dao_users_addr,
            final(self).component_addrs.dao_setting_addr == old(self).component_addrs.dao_setting_addr,
            final(self).component_addrs.proposal_addr == old(self).component_addrs.proposal_addr,
            final(self).active == old(self).active,
            final(self).union == old(self).union,
            final(self).childs_dao == old(self).childs_dao,
    {
        let subaccount_id = Self::component_account(current_account_id);
        self.component_addrs.vault_addr = Some(subaccount_id);
        true
    }

    /// init setting
    fn _init_setting(&mut self, current_account_id: &String) -> (r: bool)
        ensures
            final(self).same_identity(old(self)),
            r,
            addr_view(final(self).component_addrs.dao_setting_addr) == Some(Self::component_account_spec(current_account_id@)),
            final(self).component_addrs.base_addr == old(self).component_addrs.base_addr,
            final(self).component_addrs.erc20_addr == old(self).component_addrs.erc20_addr,
            final(self).component_addrs.dao_users_addr == old(self).component_addrs.dao_users_addr,
            final(self).component_addrs.vault_addr == old(self).component_addrs.vault_addr,
            final(self).component_addrs.proposal_addr == old(self).component_addrs.proposal_addr,
            final(self).active == old(self).active,
            final(self).union == old(self).union,
            final(self).childs_dao == old(self).childs_dao,
    {
        let subaccount_id = Self::component_account(current_account_id);
        self.component_addrs.dao_setting_addr = Some(subaccount_id);
        true
    }

    /// init base
    fn _init_base(&mut self, current_account_id: &String) -> (r: bool)
        ensures
            final(self).same_identity(old(self)),
            r,
            addr_view(final(self).component_addrs.base_addr) == Some(Self::component_account_spec(current_account_id@)),
            final(self).component_addrs.erc20_addr == old(self).component_addrs.erc20_addr,
            final(self).component_addrs.dao_users_addr == old(self).component_addrs.dao_users_addr,
            final(self).component_addrs.dao_setting_addr == old(self).component_addrs.dao_setting_addr,
            final(self).component_addrs.vault_addr == old(self).component_addrs.vault_addr,
            final(self).component_addrs.proposal_addr == old(self).component_addrs.proposal_addr,
            final(self).active == old(self).active,
            final(self).union == old(self).union,
            final(self).childs_dao == old(self).childs_dao,
    {
        let subaccount_id = Self::component_account(current_account_id);
        self.component_addrs.base_addr = Some(subaccount_id);
        true
    }

    /// init user
    fn _init_user(&mut self, current_account_id: &String) -> (r: bool)
        ensures
            final(self).same_identity(old(self)),
            r,
            addr_view(final(self).component_addrs.dao_users_addr) == Some(Self::component_account_spec(current_account_id@)),
            final(self).component_addrs.base_addr == old(self).component_addrs.base_addr,
            final(self).component_addrs.erc20_addr == old(self).component_addrs.erc20_addr,
            final(self).component_addrs.dao_setting_addr == old(self).component_addrs.dao_setting_addr,
            final(self).component_addrs.vault_addr == old(self).component_addrs.vault_addr,
            final(self).component_addrs.proposal_addr == old(self).component_addrs.proposal_addr,
            final(self).active == old(self).active,
            final(self).union == old(self).union,
            final(self).childs_dao == old(self).childs_dao,
    {
        let subaccount_id = Self::component_account(current_account_id);
        self.component_addrs.dao_users_addr = Some(subaccount_id);
        true
    }

    /// init erc20
    fn _init_erc20(&mut self, current_account_id: &String) -> (r: bool)
        ensures
            final(self).same_identity(old(self)),
            r,
            addr_view(final(self).component_addrs.erc20_addr) == Some(Self::component_account_spec(current_account_id@)),
            final(self).component_addrs.base_addr == old(self).component_addrs.base_addr,
            final(self).component_addrs.dao_users_addr == old(self).component_addrs.dao_users_addr,
            final(self).component_addrs.dao_setting_addr == old(self).component_addrs.dao_setting_addr,
            final(self).component_addrs.vault_addr == old(self).component_addrs.vault_addr,
            final(self).component_addrs.proposal_addr == old(self).component_addrs.proposal_addr,
            final(self).active == old(self).active,
            final(self).union == old(self).union,
            final(self).childs_dao == old(self).childs_dao,
    {
        let subaccount_id = Self::component_account(current_account_id);
        self.component_addrs.erc20_addr = Some(subaccount_id);
        true
    }
}

} // verus!
