use rainbow_dao::dao_factory::DaoFactory;
use rainbow_dao::near_dao_category::DaoCategory;
use rainbow_dao::near_dao_manager::DAOManager;
use rainbow_dao::near_dao_proposal::{DaoProposal, Limit, ProposalState, Transaction, VoteEffective};
use rainbow_dao::near_dao_setting::{DaoSetting, FeeConditions, OtherConditions};
use rainbow_dao::near_dao_users::DaoUsers;
use rainbow_dao::near_dao_vault::{TokenCall, VaultManager, DIRECTION_IN, DIRECTION_OUT};
use rainbow_dao::near_template_manager::TemplateManager;

fn s(x: &str) -> String {
    String::from(x)
}

#[test]
fn near_dao_manager_creates_components_under_itself() {
    let mut dao = DAOManager::new(s("dao.near"), s("alice.near"), s("bob.near"), 3, 1, s("union"));
    assert_eq!(dao.get_dao_category(), "union");
    assert!(dao.operate_join(true));
    assert!(dao.set_join_limit(9));
    assert!(dao.join_union_dao(s("x.near")));
    assert!(dao.leave_union_dao(s("y.near")));
    let account = dao.init_by_params(s("dao.near"));
    assert_eq!(account, "dao.near.dao.near");
    let daos = dao.list_union_dao();
    assert_eq!(daos.get(&s("x.near")), Some(&true));
    assert_eq!(daos.get(&s("y.near")), Some(&false));
}

#[test]
fn near_dao_manager_reports_every_component_address() {
    let mut dao = DAOManager::new(s("dao.near"), s("alice.near"), s("bob.near"), 3, 1, s("mother"));
    dao.init_by_params(s("dao.near"));
    let addrs = dao.get_component_addrs();
    assert_eq!(addrs.base_addr, Some(s("dao.near.dao.near")));
    assert_eq!(addrs.erc20_addr, Some(s("dao.near.dao.near")));
    assert_eq!(addrs.dao_users_addr, Some(s("dao.near.dao.near")));
    assert_eq!(addrs.dao_setting_addr, Some(s("dao.near.dao.near")));
    assert_eq!(addrs.vault_addr, Some(s("dao.near.dao.near")));
    assert_eq!(addrs.proposal_addr, Some(s("dao.near.dao.near")));
}

#[test]
fn dao_factory_records_daos_by_index() {
    let mut factory = DaoFactory::new(s("alice.near"));
    assert_eq!(factory.init_factory(s("tpl"), s("factory.near")), "tpl.factory.near");
    let query = factory.query_template_by_index(4);
    assert_eq!(query.contract, "tpl.factory.near");
    assert_eq!(query.index, 4);
    let account = factory.init_dao_by_template(s("d1"), s("bob.near"), s("factory.near"));
    assert_eq!(account, "d1.factory.near");
    factory.init_dao_by_template(s("d2"), s("bob.near"), s("factory.near"));
    assert_eq!(factory.get_daos_by_owner(s("bob.near")), vec![0, 1]);
    let dao = factory.get_dao_by_index(1);
    assert_eq!(dao.id, 1);
    assert_eq!(dao.owner, "bob.near");
    assert_eq!(dao.dao_manager_addr, "d2.factory.near");
    assert!(factory.joined_dao(s("carol.near"), 1));
    assert_eq!(factory.get_daos_by_owner(s("carol.near")), vec![1]);
    let daos = factory.list_dao();
    assert_eq!(daos.len(), 2);
}

#[test]
fn near_template_manager_adds_templates() {
    let mut manager = TemplateManager::new(s("alice.near"));
    assert!(manager.add_template(
        s("bob.near"),
        s("first"),
        s("h0"),
        s("h1"),
        s("h2"),
        s("h3"),
        s("h4"),
        s("h5"),
    ));
    let t = manager.query_template_by_index(0);
    assert_eq!(t.id, 0);
    assert_eq!(t.owner, "bob.near");
    assert_eq!(t.name, "first");
    assert_eq!(t.dao_manager_code_hash, "h0");
    assert_eq!(t.components.get(&s("BASE")), Some(&s("h1")));
    assert_eq!(t.components.get(&s("VAULT")), Some(&s("h5")));
    assert_eq!(manager.list_templates().len(), 1);
}

fn call() -> Transaction {
    Transaction { callee: s("a.near"), selector: [1, 2, 3, 4], input: vec![1], transferred_value: 0, gas_limit: 10 }
}

#[test]
fn near_proposal_charges_the_fee_when_open() {
    let mut dao = DaoProposal::new(s("alice.near"), s("creator.near"), s("token.near"));
    let fee = dao.propose(s("bob.near"), 5, s("t"), s("d"), 1, 10, 20, call(), 3);
    assert!(fee.is_none());
    assert!(dao.set_permission(s("alice.near"), Limit { fee_open: true, fee_number: 7, fee_token: s("fee.near") }));
    let fee = dao.propose(s("bob.near"), 5, s("u"), s("d"), 1, 10, 20, call(), 3).unwrap();
    assert_eq!(fee.token, "fee.near");
    assert_eq!(fee.from, "bob.near");
    assert_eq!(fee.to, "bob.near");
    assert_eq!(fee.value, 7);
    let p = dao.get_proposal_by_id(2);
    assert_eq!(p.title, "u");
    assert_eq!(p.start_block, 10);
    assert_eq!(p.publicity_delay, 3);
}

#[test]
fn near_proposal_states_follow_the_block_height() {
    let mut dao = DaoProposal::new(s("alice.near"), s("creator.near"), s("token.near"));
    dao.propose(s("bob.near"), 5, s("t"), s("d"), 1, 10, 20, call(), 3);
    assert_eq!(dao.state(1, 10), ProposalState::Pending);
    assert_eq!(dao.state(1, 15), ProposalState::Active);
    assert_eq!(dao.state(1, 21), ProposalState::Expired);
    assert!(dao.set_vote_effective(
        s("alice.near"),
        VoteEffective { category: 1, vote_scale: 0, entrust_scale: 0, support_scale: 0 }
    ));
    // no votes at all: fewer than the required hundreds
    assert_eq!(dao.state(1, 21), ProposalState::Defeated);
    assert!(dao.cancel(s("bob.near"), 1));
    let query = dao.public_vote(s("carol.near"), 1, 21);
    assert_eq!(query.token, "token.near");
    assert_eq!(query.user, "carol.near");
}

#[test]
fn near_dao_users_groups() {
    let mut users = DaoUsers::new(s("setting.near"));
    assert!(users.join(s("alice.near")));
    assert!(users.add_group(s("alice.near"), s("g"), false, true));
    assert!(users.join_group(s("bob.near"), 1));
    assert!(users.verify_user(1, s("carol.near")));
    assert!(users.close_group(1));
    let groups = users.list_group();
    let g = groups.get(&1).unwrap();
    assert_eq!(g.users.get(&s("alice.near")), Some(&true));
    assert_eq!(g.users.get(&s("bob.near")), Some(&false));
    assert_eq!(g.users.get(&s("carol.near")), Some(&true));
    assert!(!g.is_open);
}

#[test]
fn near_dao_setting_defaults_to_the_signer() {
    let mut setting = DaoSetting::new(s("alice.near"), s("creator.near"));
    assert_eq!(setting.get_conditions(), 0);
    let fee = FeeConditions { time_limit: 1, fee_limit: 2, token: s("t.near") };
    let other = OtherConditions {
        use_token: true,
        use_nft: false,
        token: s("t.near"),
        token_balance_limit: 3,
        nft: s("n.near"),
        nft_balance_limit: 0,
        nft_time_limit: 0,
    };
    assert!(setting.set_join_limit(s("creator.near"), 2, other, fee));
    assert_eq!(setting.get_conditions(), 2);
    let other_now = DaoSetting::get_other_setting(setting);
    assert_eq!(other_now.token, "alice.near");
    assert!(!other_now.use_token);
}

#[test]
fn near_dao_setting_fee_is_taken_with_condition_two() {
    let mut setting = DaoSetting::new(s("alice.near"), s("creator.near"));
    let fee = FeeConditions { time_limit: 1, fee_limit: 2, token: s("t.near") };
    let other = OtherConditions {
        use_token: true,
        use_nft: false,
        token: s("t.near"),
        token_balance_limit: 3,
        nft: s("n.near"),
        nft_balance_limit: 0,
        nft_time_limit: 0,
    };
    assert!(setting.set_join_limit(s("creator.near"), 2, other, fee));
    let fee_now = setting.get_fee_setting();
    assert_eq!(fee_now.fee_limit, 2);
    assert_eq!(fee_now.token, "t.near");
}

#[test]
fn near_dao_category_lists_by_index() {
    let mut categories = DaoCategory::new(s("alice.near"));
    assert!(categories.add_category(s("union")));
    assert!(categories.add_category(s("mother")));
    assert_eq!(categories.query_category_by_index(0), "union");
    assert_eq!(categories.categories_copy(), vec![s("union"), s("mother")]);
    assert_eq!(categories.list_category(), vec![s("union"), s("mother")]);
}

#[test]
fn near_vault_moves_only_added_tokens() {
    let mut vault = VaultManager::new(s("vault.near"));
    assert!(vault.deposit(s("t.near"), s("alice.near"), 5, 100).is_none());
    assert!(vault.add_vault_token(s("t.near")));
    assert!(!vault.add_vault_token(s("t.near")));
    assert_eq!(vault.get_erc20_by_address(s("t.near")), "vault.near");
    match vault.balance_query(s("t.near")) {
        Some(TokenCall::BalanceOf { token, owner }) => {
            assert_eq!(token, "t.near");
            assert_eq!(owner, "vault.near");
        },
        _ => panic!("expected a balance query"),
    }
    assert_eq!(vault.get_balance_of(s("t.near"), 42), 42);
    assert_eq!(vault.get_balance_of(s("u.near"), 42), 0);
    assert!(vault.balance_query(s("u.near")).is_none());
    match vault.deposit(s("t.near"), s("alice.near"), 5, 100) {
        Some(TokenCall::TransferIn { token, from, to, value }) => {
            assert_eq!(token, "t.near");
            assert_eq!(from, "alice.near");
            assert_eq!(to, "vault.near");
            assert_eq!(value, 5);
        },
        _ => panic!("expected a transfer in"),
    }
    match vault.withdraw(s("t.near"), s("bob.near"), 2, 101) {
        Some(TokenCall::TransferOut { token, to, value }) => {
            assert_eq!(token, "t.near");
            assert_eq!(to, "bob.near");
            assert_eq!(value, 2);
        },
        _ => panic!("expected a transfer out"),
    }
    assert!(vault.remove_vault_token(s("t.near")));
    assert!(vault.withdraw(s("t.near"), s("bob.near"), 2, 102).is_none());
    assert_eq!(vault.transfer_count(), 2);
    let history = vault.get_transfer_history();
    let first = history.get(&0).unwrap();
    assert_eq!(first.transfer_direction, DIRECTION_IN);
    assert_eq!(first.value, 5);
    assert_eq!(first.transfer_time, 100);
    let last = history.get(&1).unwrap();
    assert_eq!(last.transfer_id, 1);
    assert_eq!(last.transfer_direction, DIRECTION_OUT);
    assert_eq!(last.value, 2);
    assert_eq!(last.transfer_time, 101);
}

#[test]
fn near_proposal_cancel_and_votes_are_stored() {
    let mut dao = DaoProposal::new(s("alice.near"), s("creator.near"), s("token.near"));
    dao.propose(s("bob.near"), 5, s("t"), s("d"), 1, 10, 20, call(), 3);
    dao.propose(s("bob.near"), 5, s("u"), s("d"), 1, 10, 20, call(), 3);
    let q = dao.cast_vote(s("carol.near"), 1, true);
    assert_eq!(q.token, "token.near");
    assert_eq!(q.user, "carol.near");
    dao.cast_vote(s("dave.near"), 1, false);
    let p = dao.get_proposal_by_id(1);
    assert_eq!(p.for_votes, 10);
    assert_eq!(p.against_votes, 10);
    let r = *p.receipts.get(&s("carol.near")).unwrap();
    assert!(r.has_voted);
    assert!(r.support);
    assert_eq!(r.votes, 10);
    assert_eq!(dao.get_proposal_by_id(2).for_votes, 0);
    dao.public_vote(s("carol.near"), 1, 21);
    assert_eq!(dao.get_proposal_by_id(1).publicity_votes, 10);
    assert!(dao.cancel(s("bob.near"), 1));
    assert!(dao.get_proposal_by_id(1).canceled);
    assert!(!dao.get_proposal_by_id(2).canceled);
}
