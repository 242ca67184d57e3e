use rainbow_dao::account::{AccountId, CodeHash};
use rainbow_dao::dao_category::DaoCategory;
use rainbow_dao::dao_manager::{
    BaseParam, Component, ComponentCodes, DAOComponentAddrs, DAOInitParams, DAOManager, ERC20Param,
    InstantiatedComponents, CONTRACT_INIT_BALANCE,
};
use rainbow_dao::instantiate::{ConstructorArgs, Salt};
use rainbow_dao::dao_setting::{DaoSetting, FeeConditions, OtherConditions};
use rainbow_dao::dao_users::{DaoUsers, FeeTransfer, Group, User};
use rainbow_dao::keyed_map::KeyedMap;
use rainbow_dao::template_manager::{AddTemplate, TemplateManager};

fn acc(b: u8) -> AccountId {
    let half = u128::from_be_bytes([b; 16]);
    AccountId { hi: half, lo: half }
}

fn hash(b: u8) -> CodeHash {
    CodeHash { hi: b as u128, lo: b as u128 }
}

fn group(id: u128, join_directly: bool) -> Group {
    Group {
        id,
        name: String::from("test"),
        join_directly,
        is_open: true,
        users: KeyedMap::new(),
        manager: acc(1),
    }
}

#[test]
fn lib_it_works() {
    let mut dao_manage = DAOManager::new(acc(1), acc(1), 1, 1, String::from("union"));
    assert!(dao_manage.join_union_dao(acc(1)) == true);
    assert!(dao_manage.leave_union_dao(acc(1)) == true);
}

#[test]
fn dao_manager_lists_joined_daos_in_account_order() {
    let mut dao = DAOManager::new(acc(1), acc(2), 7, 1, String::from("union"));
    assert!(dao.is_union());
    assert!(!dao.is_mother());
    assert!(dao.join_union_dao(acc(9)));
    assert!(dao.join_union_dao(acc(3)));
    assert!(dao.join_union_dao(acc(5)));
    assert!(dao.leave_union_dao(acc(5)));
    assert_eq!(dao.list_union_dao(), vec![acc(3), acc(9)]);
    assert!(dao.join_union_dao(acc(5)));
    assert_eq!(dao.list_union_dao(), vec![acc(3), acc(5), acc(9)]);
    assert!(dao.operate_join(true));
    assert!(dao.set_join_limit(20));
}

#[test]
fn dao_manager_records_children_under_their_mother() {
    let mut dao = DAOManager::new(acc(1), acc(1), 1, 1, String::from("mother"));
    assert!(dao.is_mother());
    assert!(dao.create_child_dao(acc(4), acc(5)));
    assert!(dao.create_child_dao(acc(4), acc(6)));
    assert!(dao.create_child_dao(acc(7), acc(8)));
    assert_eq!(dao.get_childs_daos(acc(4)), vec![acc(5), acc(6)]);
    assert_eq!(dao.get_childs_daos(acc(7)), vec![acc(8)]);
}

#[test]
fn dao_manager_init_records_every_component() {
    let mut dao = DAOManager::new(acc(1), acc(1), 1, 1, String::from("union"));
    assert!(!dao.is_active());
    assert_eq!(
        dao.get_component_addrs(),
        DAOComponentAddrs {
            base_addr: None,
            erc20_addr: None,
            dao_users_addr: None,
            dao_setting_addr: None,
            vault_addr: None,
            proposal_addr: None,
        }
    );
    let funds = CONTRACT_INIT_BALANCE + 1;
    assert!(dao.init_by_params(InstantiatedComponents {
        setting: (funds, acc(11)),
        base: (funds, acc(12)),
        erc20: (funds, acc(13)),
        user: (funds, acc(14)),
        vault: (funds, acc(15)),
        proposal: (funds, acc(16)),
    }));
    assert!(dao.is_active());
    assert_eq!(
        dao.get_component_addrs(),
        DAOComponentAddrs {
            base_addr: Some(acc(12)),
            erc20_addr: Some(acc(13)),
            dao_users_addr: Some(acc(14)),
            dao_setting_addr: Some(acc(11)),
            vault_addr: Some(acc(15)),
            proposal_addr: Some(acc(16)),
        }
    );
}

#[test]
fn template_manager_adds_templates_under_increasing_ids() {
    let mut manager = TemplateManager::new(acc(1));
    assert!(manager.add_template(acc(2), String::from("first"), hash(1), hash(2), hash(3), hash(4), hash(5), hash(6)));
    assert!(manager.add_template(acc(3), String::from("second"), hash(7), hash(8), hash(9), hash(10), hash(11), hash(12)));
    let t = manager.query_template_by_index(1);
    assert_eq!(t.id, 1);
    assert_eq!(t.owner, acc(3));
    assert_eq!(t.name, "second");
    assert_eq!(t.dao_manager_code_hash, hash(7));
    assert_eq!(t.components.get(&String::from("BASE")), Some(&hash(8)));
    assert_eq!(t.components.get(&String::from("ERC20")), Some(&hash(9)));
    assert_eq!(t.components.get(&String::from("USER")), Some(&hash(10)));
    assert_eq!(t.components.get(&String::from("SETTING")), Some(&hash(11)));
    assert_eq!(t.components.get(&String::from("VAULT")), Some(&hash(12)));
    assert_eq!(t.components.values(), vec![hash(8), hash(9), hash(11), hash(10), hash(12)]);
    let all = manager.list_templates();
    assert_eq!(all.len(), 2);
    assert_eq!(all[0].name, "first");
    assert_eq!(
        manager.recorded_events(),
        vec![AddTemplate { index: 0, owner: Some(acc(2)) }, AddTemplate { index: 1, owner: Some(acc(3)) }]
    );
}

#[test]
fn template_manager_it_works() {
    let mut dao_users = DaoUsers::new(acc(1));
    assert!(dao_users.add_group(group(0, true)) == true);
}

#[test]
fn dao_category_lists_categories_by_index() {
    let mut categories = DaoCategory::new(acc(1));
    assert!(categories.add_category(String::from("union")));
    assert!(categories.add_category(String::from("mother")));
    assert_eq!(categories.list_category(), vec![String::from("union"), String::from("mother")]);
    assert_eq!(categories.query_category_by_index(1), "mother");
}

fn fee(token: u8, fee_limit: u128) -> FeeConditions {
    FeeConditions { time_limit: 10, fee_limit, token: acc(token) }
}

fn other(use_token: bool, token_balance_limit: u128) -> OtherConditions {
    OtherConditions {
        use_token,
        use_nft: false,
        token: acc(20),
        token_balance_limit,
        nft: AccountId::zero(),
        nft_balance_limit: 0,
        nft_time_limit: 0,
    }
}

#[test]
fn dao_setting_takes_the_conditions_its_code_names() {
    let creator = acc(1);
    let mut setting = DaoSetting::new(acc(2), creator);
    assert_eq!(setting.get_conditions(), 0);
    assert_eq!(setting.get_fee_setting().fee_limit, 0);
    assert!(setting.set_join_limit(creator, 2, other(true, 5), fee(9, 50)));
    assert_eq!(setting.get_conditions(), 2);
    assert_eq!(setting.get_fee_setting(), fee(9, 50));
    assert_eq!(
        setting.get_other_setting(),
        OtherConditions {
            use_token: false,
            use_nft: false,
            token: AccountId::zero(),
            token_balance_limit: 0,
            nft: AccountId::zero(),
            nft_balance_limit: 0,
            nft_time_limit: 0,
        }
    );
    assert!(setting.set_join_limit(creator, 4, other(true, 5), fee(9, 70)));
    assert_eq!(setting.get_fee_setting(), fee(9, 50));
    assert_eq!(setting.get_other_setting(), other(true, 5));
    assert!(setting.set_join_limit(creator, 6, other(false, 1), fee(8, 1)));
    assert_eq!(setting.get_fee_setting(), fee(8, 1));
    assert_eq!(setting.get_other_setting(), other(false, 1));
    assert!(setting.set_join_limit(creator, 3, other(true, 9), fee(7, 9)));
    assert_eq!(setting.get_conditions(), 3);
    assert_eq!(setting.get_fee_setting(), fee(8, 1));
}

#[test]
fn dao_users_join_follows_the_condition() {
    let mut users = DaoUsers::new(acc(30));
    let alice = acc(1);
    let bob = acc(2);
    let carol = acc(3);
    let paid = users.join(alice, 2, fee(9, 50), other(false, 0), 60);
    assert_eq!(paid, Some(FeeTransfer { token: acc(9), from: alice, to: AccountId::zero(), value: 50 }));
    assert_eq!(users.join(bob, 6, fee(9, 50), other(false, 0), 0), None);
    assert_eq!(users.join(carol, 4, fee(9, 50), other(true, 10), 10), None);
    assert_eq!(
        users.list_user(),
        vec![User { addr: alice, expire_time: 0, role: 0 }, User { addr: carol, expire_time: 0, role: 0 }]
    );
}

#[test]
fn dao_users_groups_approve_and_close() {
    let mut users = DaoUsers::new(acc(30));
    assert!(users.add_group(group(1, false)));
    assert!(users.add_group(group(2, true)));
    assert!(users.verify_user(1, acc(4)));
    assert!(users.close_group(2));
    let groups = users.list_group();
    assert_eq!(groups.len(), 2);
    assert_eq!(groups[0].users.get(&acc(4)), Some(&true));
    assert!(groups[0].is_open);
    assert!(!groups[1].is_open);
}

#[test]
fn dao_category_it_works() {
    let mut dao_category = DaoCategory::new(acc(1));
    dao_category.add_category(String::from("test"));
    assert!(dao_category.query_category_by_index(0) == String::from("test"));
}

#[test]
fn dao_manager_requests_each_component_in_order() {
    let creator = acc(9);
    let mut dao = DAOManager::new(acc(1), acc(1), 1, 1, String::from("union"));
    let params = DAOInitParams {
        base: BaseParam { owner: acc(1), name: String::from("dao"), logo: String::from("logo"), desc: String::from("desc") },
        erc20: ERC20Param { owner: acc(2), name: String::from("tok"), symbol: String::from("TK"), total_supply: 500, decimals: 6 },
    };
    let codes = ComponentCodes {
        base: hash(1),
        erc20: hash(2),
        user: hash(3),
        setting: hash(4),
        vault: hash(5),
        proposal: hash(6),
        version: 7,
    };
    let funds = CONTRACT_INIT_BALANCE + 1;

    assert_eq!(dao.next_component(), Some(Component::Setting));
    let r = dao.component_request(Component::Setting, &params, &codes, creator);
    assert_eq!(r.code_hash, hash(4));
    assert_eq!(r.endowment, CONTRACT_INIT_BALANCE);
    assert_eq!(r.salt, Salt::Version128(7));
    assert!(matches!(r.args, ConstructorArgs::Setting { creator: c } if c == creator));
    assert!(dao.record_component(Component::Setting, funds, acc(11)));

    assert_eq!(dao.next_component(), Some(Component::Base));
    let r = dao.component_request(Component::Base, &params, &codes, creator);
    assert_eq!(r.code_hash, hash(1));
    assert!(matches!(r.args, ConstructorArgs::Base));
    assert!(dao.record_component(Component::Base, funds, acc(12)));
    let call = dao.base_init_call(&params);
    assert_eq!(call.base, acc(12));
    assert_eq!(call.name, "dao");
    assert_eq!(call.logo, "logo");
    assert_eq!(call.desc, "desc");

    assert_eq!(dao.next_component(), Some(Component::Erc20));
    let r = dao.component_request(Component::Erc20, &params, &codes, creator);
    assert_eq!(r.code_hash, hash(2));
    match r.args {
        ConstructorArgs::Erc20 { initial_supply, name, symbol, decimals, owner } => {
            assert_eq!(initial_supply, 500);
            assert_eq!(name, "tok");
            assert_eq!(symbol, "TK");
            assert_eq!(decimals, 6);
            assert_eq!(owner, acc(2));
        }
        _ => panic!("not a token constructor"),
    }
    assert!(dao.record_component(Component::Erc20, funds, acc(13)));

    assert_eq!(dao.next_component(), Some(Component::Users));
    let r = dao.component_request(Component::Users, &params, &codes, creator);
    assert_eq!(r.code_hash, hash(3));
    assert!(matches!(r.args, ConstructorArgs::Users { setting } if setting == acc(11)));
    assert!(dao.record_component(Component::Users, funds, acc(14)));

    assert_eq!(dao.next_component(), Some(Component::Vault));
    let r = dao.component_request(Component::Vault, &params, &codes, creator);
    assert_eq!(r.code_hash, hash(5));
    assert!(matches!(r.args, ConstructorArgs::Vault));
    assert!(dao.record_component(Component::Vault, funds, acc(15)));

    assert_eq!(dao.next_component(), Some(Component::Proposal));
    let r = dao.component_request(Component::Proposal, &params, &codes, creator);
    assert_eq!(r.code_hash, hash(6));
    assert!(matches!(r.args, ConstructorArgs::Proposal { creator: c, erc20 } if c == creator && erc20 == acc(13)));
    assert!(dao.record_component(Component::Proposal, funds, acc(16)));

    assert_eq!(dao.next_component(), None);
    assert!(!dao.is_active());
    assert!(dao.activate());
    assert!(dao.is_active());
    assert_eq!(
        dao.get_component_addrs(),
        DAOComponentAddrs {
            base_addr: Some(acc(12)),
            erc20_addr: Some(acc(13)),
            dao_users_addr: Some(acc(14)),
            dao_setting_addr: Some(acc(11)),
            vault_addr: Some(acc(15)),
            proposal_addr: Some(acc(16)),
        }
    );
}
