use vstd::prelude::*;

use crate::account::{AccountFlags, AccountId, CodeHash};
use crate::instantiate::{ConstructorArgs, InstantiateRequest, Salt, is_erc20_args};
use crate::keyed_map::KeyedMap;
use crate::template_manager::DAOTemplate;

verus! {

/// What each component contract is endowed with when it is instantiated.
pub const CONTRACT_INIT_BALANCE: u128 = 1000 * 1_000_000_000_000;

/// the base information
#[derive(Clone, Debug)]
pub struct BaseParam {
    pub owner: AccountId,
    pub name: String,
    pub logo: String,
    pub desc: String,
}

/// the erc20 param
#[derive(Clone, Debug)]
pub struct ERC20Param {
    pub owner: AccountId,
    pub name: String,
    pub symbol: String,
    pub total_supply: u128,
    pub decimals: u8,
}

/// The parameters the components are instantiated with.
#[derive(Clone, Debug)]
pub struct DAOInitParams {
    pub base: BaseParam,
    pub erc20: ERC20Param,
}

/// DAO component instance addresses
#[derive(Clone, Copy, Debug, PartialEq, Eq, Structural)]
pub struct DAOComponentAddrs {
    pub base_addr: Option<AccountId>,
    pub erc20_addr: Option<AccountId>,
    pub dao_users_addr: Option<AccountId>,
    pub dao_setting_addr: Option<AccountId>,
    pub vault_addr: Option<AccountId>,
    pub proposal_addr: Option<AccountId>,
}

impl DAOComponentAddrs {
    pub open spec fn spec_none() -> DAOComponentAddrs {
        DAOComponentAddrs {
            base_addr: None,
            erc20_addr: None,
            dao_users_addr: None,
            dao_setting_addr: None,
            vault_addr: None,
            proposal_addr: None,
        }
    }
}

/// DAO component instances: the handle of each component contract, which is the
/// account the contract lives at.
#[derive(Clone, Copy, Debug, PartialEq, Eq, Structural)]
pub struct DAOComponents {
    pub base: Option<AccountId>,
    pub erc20: Option<AccountId>,
    pub dao_users: Option<AccountId>,
    pub dao_setting: Option<AccountId>,
    pub vault: Option<AccountId>,
    pub proposal: Option<AccountId>,
}

/// the union dao setting
pub struct Union {
    open: bool,
    join_limit: u128,
    daos: AccountFlags,
    manager: AccountId,
}

/// A component of a dao; they are instantiated in the order setting, base, erc20,
/// users, vault, proposal.
#[derive(Clone, Copy, Debug, PartialEq, Eq, Structural)]
pub enum Component {
    Setting,
    Base,
    Erc20,
    Users,
    Vault,
    Proposal,
}

/// The code of each component, and the version whose bytes salt their accounts.
#[derive(Clone, Copy, Debug)]
pub struct ComponentCodes {
    pub base: CodeHash,
    pub erc20: CodeHash,
    pub user: CodeHash,
    pub setting: CodeHash,
    pub vault: CodeHash,
    pub proposal: CodeHash,
    pub version: u128,
}

/// The code a component is instantiated from.
pub open spec fn code_of(codes: ComponentCodes, c: Component) -> CodeHash {
    match c {
        Component::Setting => codes.setting,
        Component::Base => codes.base,
        Component::Erc20 => codes.erc20,
        Component::Users => codes.user,
        Component::Vault => codes.vault,
        Component::Proposal => codes.proposal,
    }
}

/// The first component not yet recorded, in instantiation order.
pub open spec fn next_of(a: DAOComponentAddrs) -> Option<Component> {
    if a.dao_setting_addr is None {
        Some(Component::Setting)
    } else if a.base_addr is None {
        Some(Component::Base)
    } else if a.erc20_addr is None {
        Some(Component::Erc20)
    } else if a.dao_users_addr is None {
        Some(Component::Users)
    } else if a.vault_addr is None {
        Some(Component::Vault)
    } else if a.proposal_addr is None {
        Some(Component::Proposal)
    } else {
        None
    }
}

/// The component handles of the components recorded at the addresses `a`: each
/// component is known by the account it lives at.
pub open spec fn handles_of(a: DAOComponentAddrs) -> DAOComponents {
    DAOComponents {
        base: a.base_addr,
        erc20: a.erc20_addr,
        dao_users: a.dao_users_addr,
        dao_setting: a.dao_setting_addr,
        vault: a.vault_addr,
        proposal: a.proposal_addr,
    }
}

/// `a` with `component` recorded at `addr`.
pub open spec fn with_recorded(a: DAOComponentAddrs, c: Component, addr: AccountId) -> DAOComponentAddrs {
    match c {
        Component::Setting => DAOComponentAddrs { dao_setting_addr: Some(addr), ..a },
        Component::Base => DAOComponentAddrs { base_addr: Some(addr), ..a },
        Component::Erc20 => DAOComponentAddrs { erc20_addr: Some(addr), ..a },
        Component::Users => DAOComponentAddrs { dao_users_addr: Some(addr), ..a },
        Component::Vault => DAOComponentAddrs { vault_addr: Some(addr), ..a },
        Component::Proposal => DAOComponentAddrs { proposal_addr: Some(addr), ..a },
    }
}

/// The components a component is instantiated with are recorded: the users need the
/// setting, the proposals the token.
pub open spec fn inputs_recorded(a: DAOComponentAddrs, c: Component) -> bool {
    &&& c == Component::Users ==> a.dao_setting_addr is Some
    &&& c == Component::Proposal ==> a.erc20_addr is Some
}

/// The call that gives the dao base at `base` its name, logo and description.
#[derive(Clone, Debug)]
pub struct BaseInitCall {
    pub base: AccountId,
    pub name: String,
    pub logo: String,
    pub desc: String,
}

/// The addresses of the six instantiated components, in instantiation order, and the
/// contract balance read just before each instantiation.
#[derive(Clone, Copy, Debug)]
pub struct InstantiatedComponents {
    pub setting: (u128, AccountId),
    pub base: (u128, AccountId),
    pub erc20: (u128, AccountId),
    pub user: (u128, AccountId),
    pub vault: (u128, AccountId),
    pub proposal: (u128, AccountId),
}

/// Store important information of Dao
/// creator:the creator of dao
/// owner:the owner of dao
/// template:the template of dao
/// active:whether the components were instantiated
/// dao_id:the dao_id of dao
/// controller_type:the controller_type of dao
/// components:the components of dao
/// component_addrs:the component_addrs of dao
/// category:the category of dao
/// union:store the union info
/// childs_dao:map of dao and its child daos
pub struct DAOManager {
    creator: AccountId,
    owner: AccountId,
    template: Option<DAOTemplate>,
    active: bool,
    dao_id: u64,
    controller_type: u32,
    components: DAOComponents,
    component_addrs: DAOComponentAddrs,
    category: String,
    union: Union,
    childs_dao: KeyedMap<AccountId, Vec<AccountId>>,
}

impl DAOManager {
    pub closed spec fn wf(&self) -> bool {
        &&& self.union.daos.wf()
        &&& self.childs_dao.wf()
        &&& self.template matches Some(t) ==> t.wf()
        &&& self.components == DAOComponents {
            base: self.component_addrs.base_addr,
            erc20: self.component_addrs.erc20_addr,
            dao_users: self.component_addrs.dao_users_addr,
            dao_setting: self.component_addrs.dao_setting_addr,
            vault: self.component_addrs.vault_addr,
            proposal: self.component_addrs.proposal_addr,
        }
    }

    /// The handles of the component contracts.
    pub closed spec fn spec_components(&self) -> DAOComponents {
        self.components
    }

    pub closed spec fn spec_creator(&self) -> AccountId {
        self.creator
    }

    pub closed spec fn spec_owner(&self) -> AccountId {
        self.owner
    }

    pub closed spec fn spec_active(&self) -> bool {
        self.active
    }

    pub closed spec fn spec_dao_id(&self) -> u64 {
        self.dao_id
    }

    pub closed spec fn spec_controller_type(&self) -> u32 {
        self.controller_type
    }

    pub closed spec fn spec_category(&self) -> Seq<char> {
        self.category@
    }

    pub closed spec fn spec_template(&self) -> Option<DAOTemplate> {
        self.template
    }

    pub closed spec fn spec_component_addrs(&self) -> DAOComponentAddrs {
        self.component_addrs
    }

    pub closed spec fn union_open(&self) -> bool {
        self.union.open
    }

    pub closed spec fn union_join_limit(&self) -> u128 {
        self.union.join_limit
    }

    pub closed spec fn union_manager(&self) -> AccountId {
        self.union.manager
    }

    /// Membership flags of the union's daos.
    pub closed spec fn union_daos(&self) -> Map<AccountId, bool> {
        self.union.daos.as_map()
    }

    /// `k` joined the union and did not leave it.
    pub open spec fn union_member(&self, k: AccountId) -> bool {
        self.union_daos().contains_key(k) && self.union_daos()[k]
    }

    /// The child daos recorded under each dao.
    pub closed spec fn children(&self) -> Map<AccountId, Seq<AccountId>> {
        self.childs_dao.as_map().map_values(|v: Vec<AccountId>| v@)
    }

    /// Creator, owner, id, controller type and category are those of `other`.
    pub open spec fn same_identity(&self, other: &DAOManager) -> bool {
        &&& self.spec_creator() == other.spec_creator()
        &&& self.spec_owner() == other.spec_owner()
        &&& self.spec_dao_id() == other.spec_dao_id()
        &&& self.spec_controller_type() == other.spec_controller_type()
        &&& self.spec_category() == other.spec_category()
    }

    /// The union's settings and members are those of `other`.
    pub open spec fn same_union(&self, other: &DAOManager) -> bool {
        &&& self.union_open() == other.union_open()
        &&& self.union_join_limit() == other.union_join_limit()
        &&& self.union_manager() == other.union_manager()
        &&& self.union_daos() == other.union_daos()
    }

    /// Everything but the union is as in `other`.
    pub open spec fn same_but_union(&self, other: &DAOManager) -> bool {
        &&& self.same_identity(other)
        &&& self.spec_active() == other.spec_active()
        &&& self.spec_template() == other.spec_template()
        &&& self.spec_component_addrs() == other.spec_component_addrs()
        &&& self.children() == other.children()
    }

    /// Create a new dao
    pub fn new(creator: AccountId, owner: AccountId, dao_id: u64, controller_type: u32, category: String) -> (r: Self)
        ensures
            r.wf(),
            r.spec_creator() == creator,
            r.spec_owner() == owner,
            !r.spec_active(),
            r.spec_dao_id() == dao_id,
            r.spec_controller_type() == controller_type,
            r.spec_category() == category@,
            r.spec_template() == None::<DAOTemplate>,
            r.spec_component_addrs() == DAOComponentAddrs::spec_none(),
            r.spec_components() == (DAOComponents {
                base: None,
                erc20: None,
                dao_users: None,
                dao_setting: None,
                vault: None,
                proposal: None,
            }),
            !r.union_open(),
            r.union_join_limit() == 0,
            r.union_manager() == AccountId::spec_zero(),
            r.union_daos() == Map::<AccountId, bool>::empty(),
            r.children() == Map::<AccountId, Seq<AccountId>>::empty(),
    {
        let r = DAOManager {
            creator,
            owner,
            template: None,
            active: false,
            dao_id,
            controller_type,
            childs_dao: KeyedMap::new(),
            components: DAOComponents {
                base: None,
                erc20: None,
                dao_users: None,
                dao_setting: None,
                vault: None,
                proposal: None,
            },
            component_addrs: DAOComponentAddrs {
                base_addr: None,
                erc20_addr: None,
                dao_users_addr: None,
                dao_setting_addr: None,
                vault_addr: None,
                proposal_addr: None,
            },
            category,
            union: Union { open: false, join_limit: 0, daos: AccountFlags::new(), manager: AccountId::zero() },
        };
        assert(r.children() =~= Map::<AccountId, Seq<AccountId>>::empty());
        r
    }

    /// the dao's category must be `category`
    fn check_dao_category(&self, category: String)
        requires
            self.spec_category() == category@,
    {
        proof {
            assert(self.category@ == category@);
        }
    }

    fn category_is(&self, name: &str) -> (r: bool)
        ensures
            r == (self.spec_category() == name@),
    {
        let c = String::from_str(name);
        self.category == c
    }

    /// open or close the union for joining; the dao must be a union
    pub fn operate_join(&mut self, operate: bool) -> (r: bool)
        requires
            old(self).wf(),
            old(self).spec_category() == "union"@,
        ensures
            r,
            final(self).wf(),
            final(self).same_but_union(old(self)),
            final(self).union_open() == operate,
            final(self).union_join_limit() == old(self).union_join_limit(),
            final(self).union_manager() == old(self).union_manager(),
            final(self).union_daos() == old(self).union_daos(),
    {
        self.check_dao_category(String::from_str("union"));
        self.union.open = operate;
        true
    }

    /// get the component_addrs
    pub fn get_component_addrs(&self) -> (r: DAOComponentAddrs)
        ensures
            r == self.spec_component_addrs(),
    {
        self.component_addrs
    }

    /// get the child daos of `address`, which must have some recorded
    pub fn get_childs_daos(&self, address: AccountId) -> (r: Vec<AccountId>)
        requires
            self.wf(),
            self.children().contains_key(address),
        ensures
            r@ == self.children()[address],
    {
        match self.childs_dao.get(&address) {
            Some(list) => copy_accounts(list),
            None => {
                assert(false);
                Vec::new()
            },
        }
    }

    /// set the limit of join dao; the dao must be a union
    pub fn set_join_limit(&mut self, limit: u128) -> (r: bool)
        requires
            old(self).wf(),
            old(self).spec_category() == "union"@,
        ensures
            r,
            final(self).wf(),
            final(self).same_but_union(old(self)),
            final(self).union_open() == old(self).union_open(),
            final(self).union_join_limit() == limit,
            final(self).union_manager() == old(self).union_manager(),
            final(self).union_daos() == old(self).union_daos(),
    {
        self.check_dao_category(String::from_str("union"));
        self.union.join_limit = limit;
        true
    }

    /// join the dao
    pub fn join_union_dao(&mut self, dao: AccountId) -> (r: bool)
        requires
            old(self).wf(),
        ensures
            r,
            final(self).wf(),
            final(self).same_but_union(old(self)),
            final(self).union_open() == old(self).union_open(),
            final(self).union_join_limit() == old(self).union_join_limit(),
            final(self).union_manager() == old(self).union_manager(),
            final(self).union_daos() == old(self).union_daos().insert(dao, true),
    {
        self.union.daos.insert(dao, true);
        true
    }

    /// leave a dao
    pub fn leave_union_dao(&mut self, dao: AccountId) -> (r: bool)
        requires
            old(self).wf(),
        ensures
            r,
            final(self).wf(),
            final(self).same_but_union(old(self)),
            final(self).union_open() == old(self).union_open(),
            final(self).union_join_limit() == old(self).union_join_limit(),
            final(self).union_manager() == old(self).union_manager(),
            final(self).union_daos() == old(self).union_daos().insert(dao, false),
    {
        self.union.daos.insert(dao, false);
        true
    }

    /// show all union daos that joined and did not leave, in account order
    pub fn list_union_dao(&self) -> (r: Vec<AccountId>)
        requires
            self.wf(),
        ensures
            crate::account::strictly_sorted(r@),
            forall|k: AccountId| r@.contains(k) <==> #[trigger] self.union_member(k),
    {
        let r = self.union.daos.raised_accounts();
        assert forall|k: AccountId| r@.contains(k) <==> #[trigger] self.union_member(k) by {
            assert(self.union.daos.raised(k) == self.union_member(k));
        }
        r
    }

    /// record `child_dao` as a child of `dao_id`; the dao must be a mother dao
    pub fn create_child_dao(&mut self, dao_id: AccountId, child_dao: AccountId) -> (r: bool)
        requires
            old(self).wf(),
            old(self).spec_category() == "mother"@,
        ensures
            r,
            final(self).wf(),
            final(self).children() == old(self).children().insert(
                dao_id,
                if old(self).children().contains_key(dao_id) {
                    old(self).children()[dao_id].push(child_dao)
                } else {
                    seq![child_dao]
                },
            ),
            final(self).same_identity(old(self)),
            final(self).same_union(old(self)),
            final(self).spec_active() == old(self).spec_active(),
            final(self).spec_template() == old(self).spec_template(),
            final(self).spec_component_addrs() == old(self).spec_component_addrs(),
    {
        self.check_dao_category(String::from_str("mother"));
        let mut list: Vec<AccountId> = match self.childs_dao.get(&dao_id) {
            Some(l) => copy_accounts(l),
            None => Vec::new(),
        };
        list.push(child_dao);
        let ghost lv = list@;
        self.childs_dao.insert(dao_id, list);
        proof {
            assert(self.children() =~= old(self).children().insert(dao_id, lv));
        }
        true
    }

    /// Set the dao use which template; only before the components are instantiated
    pub fn set_template(&mut self, template: DAOTemplate) -> (r: bool)
        requires
            old(self).wf(),
            template.wf(),
            !old(self).spec_active(),
        ensures
            r,
            final(self).wf(),
            final(self).spec_template() == Some(template),
            final(self).same_identity(old(self)),
            final(self).same_union(old(self)),
            final(self).children() == old(self).children(),
            final(self).spec_component_addrs() == old(self).spec_component_addrs(),
            final(self).spec_active() == old(self).spec_active(),
    {
        self.template = Some(template);
        true
    }

    /// record the setting component, instantiated with `total_balance` available
    fn _init_setting(&mut self, total_balance: u128, setting_addr: AccountId) -> (r: bool)
        requires
            total_balance > CONTRACT_INIT_BALANCE,
        ensures
            r,
            final(self).spec_component_addrs() == (DAOComponentAddrs {
                dao_setting_addr: Some(setting_addr),
                ..old(self).spec_component_addrs()
            }),
            final(self).spec_active() == old(self).spec_active(),
            final(self).same_identity(old(self)),
            final(self).same_union(old(self)),
            final(self).spec_template() == old(self).spec_template(),
            final(self).children() == old(self).children(),
            old(self).wf() ==> final(self).wf(),
    {
        self.components.dao_setting = Some(setting_addr);
        self.component_addrs.dao_setting_addr = Some(setting_addr);
        true
    }

    /// record the base component, instantiated with `total_balance` available
    fn _init_base(&mut self, total_balance: u128, base_addr: AccountId) -> (r: bool)
        requires
            total_balance > CONTRACT_INIT_BALANCE,
        ensures
            r,
            final(self).spec_component_addrs() == (DAOComponentAddrs {
                base_addr: Some(base_addr),
                ..old(self).spec_component_addrs()
            }),
            final(self).spec_active() == old(self).spec_active(),
            final(self).same_identity(old(self)),
            final(self).same_union(old(self)),
            final(self).spec_template() == old(self).spec_template(),
            final(self).children() == old(self).children(),
            old(self).wf() ==> final(self).wf(),
    {
        self.components.base = Some(base_addr);
        self.component_addrs.base_addr = Some(base_addr);
        true
    }

    /// record the erc20 component, instantiated with `total_balance` available
    fn _init_erc20(&mut self, total_balance: u128, erc20_addr: AccountId) -> (r: bool)
        requires
            total_balance > CONTRACT_INIT_BALANCE,
        ensures
            r,
            final(self).spec_component_addrs() == (DAOComponentAddrs {
                erc20_addr: Some(erc20_addr),
                ..old(self).spec_component_addrs()
            }),
            final(self).spec_active() == old(self).spec_active(),
            final(self).same_identity(old(self)),
            final(self).same_union(old(self)),
            final(self).spec_template() == old(self).spec_template(),
            final(self).children() == old(self).children(),
            old(self).wf() ==> final(self).wf(),
    {
        self.components.erc20 = Some(erc20_addr);
        self.component_addrs.erc20_addr = Some(erc20_addr);
        true
    }

    /// record the users component, which is instantiated with the setting component's
    /// address, so that one must be recorded already
    fn _init_user(&mut self, total_balance: u128, user_addr: AccountId) -> (r: bool)
        requires
            total_balance > CONTRACT_INIT_BALANCE,
            (old(self).spec_component_addrs().dao_setting_addr is Some),
        ensures
            r,
            final(self).spec_component_addrs() == (DAOComponentAddrs {
                dao_users_addr: Some(user_addr),
                ..old(self).spec_component_addrs()
            }),
            final(self).spec_active() == old(self).spec_active(),
            final(self).same_identity(old(self)),
            final(self).same_union(old(self)),
            final(self).spec_template() == old(self).spec_template(),
            final(self).children() == old(self).children(),
            old(self).wf() ==> final(self).wf(),
    {
        self.components.dao_users = Some(user_addr);
        self.component_addrs.dao_users_addr = Some(user_addr);
        true
    }

    /// record the vault component, instantiated with `total_balance` available
    fn _init_vault(&mut self, total_balance: u128, vault_addr: AccountId) -> (r: bool)
        requires
            total_balance > CONTRACT_INIT_BALANCE,
        ensures
            r,
            final(self).spec_component_addrs() == (DAOComponentAddrs {
                vault_addr: Some(vault_addr),
                ..old(self).spec_component_addrs()
            }),
            final(self).spec_active() == old(self).spec_active(),
            final(self).same_identity(old(self)),
            final(self).same_union(old(self)),
            final(self).spec_template() == old(self).spec_template(),
            final(self).children() == old(self).children(),
            old(self).wf() ==> final(self).wf(),
    {
        self.components.vault = Some(vault_addr);
        self.component_addrs.vault_addr = Some(vault_addr);
        true
    }

    /// record the proposal component, which is instantiated with the erc20 component's
    /// address, so that one must be recorded already
    fn _init_proposal(&mut self, total_balance: u128, proposal_addr: AccountId) -> (r: bool)
        requires
            total_balance > CONTRACT_INIT_BALANCE,
            (old(self).spec_component_addrs().erc20_addr is Some),
        ensures
            r,
            final(self).spec_component_addrs() == (DAOComponentAddrs {
                proposal_addr: Some(proposal_addr),
                ..old(self).spec_component_addrs()
            }),
            final(self).spec_active() == old(self).spec_active(),
            final(self).same_identity(old(self)),
            final(self).same_union(old(self)),
            final(self).spec_template() == old(self).spec_template(),
            final(self).children() == old(self).children(),
            old(self).wf() ==> final(self).wf(),
    {
        self.components.proposal = Some(proposal_addr);
        self.component_addrs.proposal_addr = Some(proposal_addr);
        true
    }

    /// The next component to instantiate: the first not yet recorded, in the order
    /// setting, base, erc20, users, vault, proposal (none once all are).
    pub fn next_component(&self) -> (r: Option<Component>)
        ensures
            r == next_of(self.spec_component_addrs()),
    {
        let a = &self.component_addrs;
        if a.dao_setting_addr.is_none() {
            Some(Component::Setting)
        } else if a.base_addr.is_none() {
            Some(Component::Base)
        } else if a.erc20_addr.is_none() {
            Some(Component::Erc20)
        } else if a.dao_users_addr.is_none() {
            Some(Component::Users)
        } else if a.vault_addr.is_none() {
            Some(Component::Vault)
        } else if a.proposal_addr.is_none() {
            Some(Component::Proposal)
        } else {
            None
        }
    }

    /// The request that instantiates `component` for the dao created by `creator`: from
    /// its code, with the endowment, salted with the codes' version, and with its
    /// constructor's arguments: the creator for the setting, the token parameters for
    /// the erc20, the setting's address for the users, and the creator and the token's
    /// address for the proposals.
    pub fn component_request(
        &self,
        component: Component,
        params: &DAOInitParams,
        codes: &ComponentCodes,
        creator: AccountId,
    ) -> (r: InstantiateRequest)
        requires
            inputs_recorded(self.spec_component_addrs(), component),
        ensures
            r.code_hash == code_of(*codes, component),
            r.endowment == CONTRACT_INIT_BALANCE,
            r.salt == Salt::Version128(codes.version),
            match component {
                Component::Setting => r.args == ConstructorArgs::Setting { creator },
                Component::Base => r.args is Base,
                Component::Erc20 => is_erc20_args(
                    r.args,
                    params.erc20.total_supply,
                    params.erc20.name@,
                    params.erc20.symbol@,
                    params.erc20.decimals,
                    params.erc20.owner,
                ),
                Component::Users => r.args == ConstructorArgs::Users {
                    setting: self.spec_component_addrs().dao_setting_addr.unwrap(),
                },
                Component::Vault => r.args is Vault,
                Component::Proposal => r.args == ConstructorArgs::Proposal {
                    creator,
                    erc20: self.spec_component_addrs().erc20_addr.unwrap(),
                },
            },
    {
        let (code_hash, args) = match component {
            Component::Setting => (codes.setting, ConstructorArgs::Setting { creator }),
            Component::Base => (codes.base, ConstructorArgs::Base),
            Component::Erc20 => (
                codes.erc20,
                ConstructorArgs::Erc20 {
                    initial_supply: params.erc20.total_supply,
                    name: params.erc20.name.clone(),
                    symbol: params.erc20.symbol.clone(),
                    decimals: params.erc20.decimals,
                    owner: params.erc20.owner,
                },
            ),
            Component::Users => (
                codes.user,
                ConstructorArgs::Users { setting: self.component_addrs.dao_setting_addr.unwrap() },
            ),
            Component::Vault => (codes.vault, ConstructorArgs::Vault),
            Component::Proposal => (
                codes.proposal,
                ConstructorArgs::Proposal { creator, erc20: self.component_addrs.erc20_addr.unwrap() },
            ),
        };
        InstantiateRequest {
            code_hash,
            endowment: CONTRACT_INIT_BALANCE,
            salt: Salt::Version128(codes.version),
            args,
        }
    }

    /// The call that gives the recorded dao base the name, logo and description of
    /// `params`.
    pub fn base_init_call(&self, params: &DAOInitParams) -> (r: BaseInitCall)
        requires
            self.spec_component_addrs().base_addr is Some,
        ensures
            r.base == self.spec_component_addrs().base_addr.unwrap(),
            r.name@ == params.base.name@,
            r.logo@ == params.base.logo@,
            r.desc@ == params.base.desc@,
    {
        BaseInitCall {
            base: self.component_addrs.base_addr.unwrap(),
            name: params.base.name.clone(),
            logo: params.base.logo.clone(),
            desc: params.base.desc.clone(),
        }
    }

    /// Record `component`, instantiated at `addr` while the contract held
    /// `total_balance`, more than the endowment; the components it was instantiated
    /// with are recorded.
    pub fn record_component(&mut self, component: Component, total_balance: u128, addr: AccountId) -> (r: bool)
        requires
            old(self).wf(),
            !old(self).spec_active(),
            total_balance > CONTRACT_INIT_BALANCE,
            inputs_recorded(old(self).spec_component_addrs(), component),
        ensures
            r,
            final(self).wf(),
            final(self).spec_component_addrs() == with_recorded(old(self).spec_component_addrs(), component, addr),
            final(self).spec_components() == handles_of(final(self).spec_component_addrs()),
            !final(self).spec_active(),
            final(self).same_identity(old(self)),
            final(self).same_union(old(self)),
            final(self).spec_template() == old(self).spec_template(),
            final(self).children() == old(self).children(),
    {
        match component {
            Component::Setting => self._init_setting(total_balance, addr),
            Component::Base => self._init_base(total_balance, addr),
            Component::Erc20 => self._init_erc20(total_balance, addr),
            Component::Users => self._init_user(total_balance, addr),
            Component::Vault => self._init_vault(total_balance, addr),
            Component::Proposal => self._init_proposal(total_balance, addr),
        }
    }

    /// Each component handle is the account its component was recorded at.
    pub proof fn law_components_match_addrs(&self)
        requires
            self.wf(),
        ensures
            self.spec_components() == handles_of(self.spec_component_addrs()),
    {
    }

    /// Taken in order, each component comes when the components it is instantiated
    /// with are recorded.
    pub proof fn law_next_has_its_inputs(a: DAOComponentAddrs)
        ensures
            next_of(a) matches Some(c) ==> inputs_recorded(a, c),
    {
    }

    /// From a dao with no component, recording each next component in turn goes
    /// through setting, base, erc20, users, vault and proposal, and then none is left.
    pub proof fn law_init_order(
        setting: AccountId,
        base: AccountId,
        erc20: AccountId,
        users: AccountId,
        vault: AccountId,
        proposal: AccountId,
    )
        ensures
            ({
                let a0 = DAOComponentAddrs::spec_none();
                let a1 = with_recorded(a0, Component::Setting, setting);
                let a2 = with_recorded(a1, Component::Base, base);
                let a3 = with_recorded(a2, Component::Erc20, erc20);
                let a4 = with_recorded(a3, Component::Users, users);
                let a5 = with_recorded(a4, Component::Vault, vault);
                let a6 = with_recorded(a5, Component::Proposal, proposal);
                &&& next_of(a0) == Some(Component::Setting)
                &&& next_of(a1) == Some(Component::Base)
                &&& next_of(a2) == Some(Component::Erc20)
                &&& next_of(a3) == Some(Component::Users)
                &&& next_of(a4) == Some(Component::Vault)
                &&& next_of(a5) == Some(Component::Proposal)
                &&& next_of(a6) is None
                &&& a6 == DAOComponentAddrs {
                    base_addr: Some(base),
                    erc20_addr: Some(erc20),
                    dao_users_addr: Some(users),
                    dao_setting_addr: Some(setting),
                    vault_addr: Some(vault),
                    proposal_addr: Some(proposal),
                }
            }),
    {
    }

    /// Once every component is recorded, the dao becomes active.
    pub fn activate(&mut self) -> (r: bool)
        requires
            old(self).wf(),
            !old(self).spec_active(),
            next_of(old(self).spec_component_addrs()) is None,
        ensures
            r,
            final(self).wf(),
            final(self).spec_active(),
            final(self).spec_components() == handles_of(final(self).spec_component_addrs()),
            final(self).spec_component_addrs() == old(self).spec_component_addrs(),
            final(self).same_identity(old(self)),
            final(self).same_union(old(self)),
            final(self).spec_template() == old(self).spec_template(),
            final(self).children() == old(self).children(),
    {
        self.active = true;
        true
    }

    /// Initialize the dao from its instantiated components: setting, base, erc20,
    /// users, vault and proposal, in that order; each was instantiated while the contract
    /// held more than the endowment. Only once.
    pub fn init_by_params(&mut self, components: InstantiatedComponents) -> (r: bool)
        requires
            old(self).wf(),
            !old(self).spec_active(),
            components.setting.0 > CONTRACT_INIT_BALANCE,
            components.base.0 > CONTRACT_INIT_BALANCE,
            components.erc20.0 > CONTRACT_INIT_BALANCE,
            components.user.0 > CONTRACT_INIT_BALANCE,
            components.vault.0 > CONTRACT_INIT_BALANCE,
            components.proposal.0 > CONTRACT_INIT_BALANCE,
        ensures
            r,
            final(self).wf(),
            final(self).spec_active(),
            final(self).spec_components() == handles_of(final(self).spec_component_addrs()),
            final(self).spec_component_addrs() == (DAOComponentAddrs {
                base_addr: Some(components.base.1),
                erc20_addr: Some(components.erc20.1),
                dao_users_addr: Some(components.user.1),
                dao_setting_addr: Some(components.setting.1),
                vault_addr: Some(components.vault.1),
                proposal_addr: Some(components.proposal.1),
            }),
            final(self).same_identity(old(self)),
            final(self).same_union(old(self)),
            final(self).spec_template() == old(self).spec_template(),
            final(self).children() == old(self).children(),
    {
        self._init_setting(components.setting.0, components.setting.1);
        self._init_base(components.base.0, components.base.1);
        self._init_erc20(components.erc20.0, components.erc20.1);
        self._init_user(components.user.0, components.user.1);
        self._init_vault(components.vault.0, components.vault.1);
        self._init_proposal(components.proposal.0, components.proposal.1);
        self.active = true;
        true
    }

    /// whether the dao is a union
    pub fn is_union(&self) -> (r: bool)
        ensures
            r == (self.spec_category() == "union"@),
    {
        self.category_is("union")
    }

    /// whether the dao is a mother dao
    pub fn is_mother(&self) -> (r: bool)
        ensures
            r == (self.spec_category() == "mother"@),
    {
        self.category_is("mother")
    }

    /// whether the components were instantiated
    pub fn is_active(&self) -> (r: bool)
        ensures
            r == self.spec_active(),
    {
        self.active
    }
}

/// A copy of a list of accounts.
pub fn copy_accounts(v: &Vec<AccountId>) -> (r: Vec<AccountId>)
    ensures
        r@ == v@,
{
    let mut out: Vec<AccountId> = Vec::new();
    let n = v.len();
    for i in 0..n
        invariant
            n == v@.len(),
            out@ == v@.subrange(0, i as int),
    {
        out.push(v[i]);
        assert(out@ =~= v@.subrange(0, i + 1));
    }
    assert(out@ =~= v@);
    out
}

} // verus!
