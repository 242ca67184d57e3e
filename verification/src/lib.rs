use vstd::prelude::*;

pub mod account;
pub mod instantiate;
pub mod keyed_map;
pub mod erc20;
pub mod template_manager;
pub mod dao_manager;
pub mod govnance_dao;
pub mod near_dao_proposal;
pub mod dao_proposal;
pub mod users_manage;
pub mod dao_setting;
pub mod dao_users;
pub mod multisig;
pub mod near_dao_vault;
pub mod role_manage;
pub mod authority_management;
pub mod dao_category;
pub mod route_manage;
pub mod income_category;
pub mod role_manage_basic;
pub mod template_management;
pub mod multisig_factory;
pub mod erc20_factory;
pub mod rainbow_govnance;
pub mod dao_base;
pub mod near_dao_category;
pub mod near_dao_setting;
pub mod near_dao_users;
pub mod near_template_manager;
pub mod near_dao_manager;
pub mod dao_factory;

verus! {

} // verus!
