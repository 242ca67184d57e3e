use rainbow_dao::account::{AccountId, CodeHash};
use rainbow_dao::instantiate::{ConstructorArgs, Salt};
use rainbow_dao::authority_management::AuthorityManagement;
use rainbow_dao::erc20_factory::{Erc20Factory, FeeTransfer};
use rainbow_dao::govnance_dao::{GovnanceDao, ProposalCreated, ProposalState, Receipt, Transaction};
use rainbow_dao::income_category::{IncomeCategory, IncomeInfo};
use rainbow_dao::multisig::{Multisig, Payout};
use rainbow_dao::multisig_factory::MultisigFactory;
use rainbow_dao::rainbow_govnance::{ProposalState as RainbowState, RainbowGovnance};
use rainbow_dao::role_manage::RoleManage;
use rainbow_dao::role_manage_basic::RoleManage as BasicRoleManage;
use rainbow_dao::route_manage::RouteManage;
use rainbow_dao::template_management::TemplateManagement;
use rainbow_dao::users_manage::UsersManage;

fn acc(b: u8) -> AccountId {
    let half = u128::from_be_bytes([b; 16]);
    AccountId { hi: half, lo: half }
}

#[test]
fn authority_management_init_works() {
    let alice = acc(1);
    let mut authority_management = AuthorityManagement::new(alice);
    authority_management.add_privilege(alice, String::from("test"));
    assert!(authority_management.query_privilege_by_index(0) == String::from("test"));
}

#[test]
fn authority_management_lists_privileges_in_order() {
    let alice = acc(1);
    let mut authority = AuthorityManagement::new(alice);
    assert!(authority.add_privilege(alice, String::from("vote")));
    assert!(authority.add_privilege(alice, String::from("mint")));
    assert_eq!(authority.list_privileges(), vec![String::from("vote"), String::from("mint")]);
}

#[test]
fn income_category_init_works() {
    let alice = acc(1);
    let mut income_category = IncomeCategory::new(alice);
    income_category.save_category(alice, String::from("test"), IncomeInfo { is_used: false, fee: 1, token: acc(1) });
    let income: IncomeInfo = income_category.get_category(String::from("test"));
    assert!(income.fee == 1);
}

#[test]
fn income_category_overwrites_and_changes_owner() {
    let alice = acc(1);
    let bob = acc(2);
    let mut income = IncomeCategory::new(alice);
    assert!(income.save_category(alice, String::from("erc20"), IncomeInfo { is_used: true, fee: 5, token: acc(9) }));
    assert!(income.save_category(alice, String::from("dao"), IncomeInfo { is_used: false, fee: 0, token: acc(9) }));
    assert!(income.save_category(alice, String::from("erc20"), IncomeInfo { is_used: true, fee: 7, token: acc(9) }));
    assert_eq!(income.get_category(String::from("erc20")).fee, 7);
    let all = income.list_category();
    assert_eq!(all.len(), 2);
    assert_eq!(all[0].fee, 7);
    assert_eq!(all[1].fee, 0);
    assert!(income.transfer_owner(alice, bob));
    assert!(income.save_category(bob, String::from("dao"), IncomeInfo { is_used: true, fee: 1, token: acc(9) }));
    assert!(income.get_category(String::from("dao")).is_used);
}

#[test]
fn add_role_works() {
    let alice = acc(1);
    let mut role_manage = RoleManage::new(alice);
    role_manage.add_role(alice, String::from("test"));
    assert!(role_manage.query_role_by_index(0) == String::from("test"));
}

#[test]
fn add_user_role_works() {
    let alice = acc(1);
    let mut role_manage = RoleManage::new(alice);
    role_manage.add_user_role(alice, alice, String::from("test"));
    assert!(role_manage.check_user_role(alice, String::from("test")) == true);
}

#[test]
fn role_manage_gathers_privileges_role_by_role() {
    let alice = acc(1);
    let bob = acc(2);
    let mut roles = RoleManage::new(alice);
    assert!(roles.add_role(alice, String::from("admin")));
    assert!(roles.add_role(alice, String::from("member")));
    assert_eq!(roles.list_roles(), vec![String::from("admin"), String::from("member")]);
    assert!(roles.role_insert_privilege(alice, String::from("admin"), String::from("mint")));
    assert!(roles.role_insert_privilege(alice, String::from("admin"), String::from("burn")));
    assert!(roles.role_insert_privilege(alice, String::from("member"), String::from("vote")));
    assert_eq!(roles.list_role_privileges(String::from("admin")), vec![String::from("mint"), String::from("burn")]);
    assert!(roles.add_user_role(alice, bob, String::from("member")));
    assert!(roles.add_user_role(alice, bob, String::from("admin")));
    assert_eq!(roles.get_user_roles(bob), vec![String::from("member"), String::from("admin")]);
    assert_eq!(
        roles.get_user_privilege(bob),
        vec![String::from("vote"), String::from("mint"), String::from("burn")]
    );
    assert!(roles.check_user_privilege(bob, String::from("burn")));
    assert!(!roles.check_user_privilege(bob, String::from("pause")));
    assert!(!roles.check_user_role(bob, String::from("owner")));
}

#[test]
fn basic_role_manage_is_changed_by_its_owner() {
    let mut roles = BasicRoleManage::new(acc(1));
    assert_eq!(roles.owner(), acc(1));
    assert!(roles.add_role(acc(1), String::from("admin")));
    assert!(roles.add_role(acc(1), String::from("member")));
    assert_eq!(roles.query_role_by_index(0), "admin");
    assert_eq!(roles.query_role_by_index(1), "member");
    assert!(roles.role_insert_privilege(acc(1), 0, 3));
    assert!(roles.role_insert_privilege(acc(1), 0, 4));
    assert_eq!(roles.list_roles(), vec![String::from("admin"), String::from("member")]);
}

#[test]
fn route_manage_reads_back_what_was_written() {
    let core = acc(1);
    let mut routes = RouteManage::new(core);
    assert_eq!(routes.query_route_by_name(String::from("erc20")), AccountId::zero());
    assert!(routes.add_route(core, String::from("erc20"), acc(5)));
    assert_eq!(routes.query_route_by_name(String::from("erc20")), acc(5));
    assert!(routes.change_route(core, String::from("erc20"), acc(6)));
    assert_eq!(routes.query_route_by_name(String::from("erc20")), acc(6));
}

#[test]
fn join_works() {
    let alice = acc(1);
    let mut users_manage = UsersManage::new();
    users_manage.join(alice, 0, String::from("test"), String::from("test"));
    assert!(users_manage.get_user_by_code(1) != AccountId::zero());
    assert!(users_manage.exists_user(alice) == true);
    assert!(users_manage.get_user_referer(alice) == AccountId::zero());
}

#[test]
fn users_manage_records_the_referer() {
    let alice = acc(1);
    let bob = acc(2);
    let carol = acc(3);
    let mut users = UsersManage::new();
    assert!(users.join(alice, 0, String::from("alice"), String::new()));
    assert!(users.join(bob, 1, String::from("bob"), String::from("hi")));
    assert!(users.join(carol, 77, String::new(), String::new()));
    assert_eq!(users.get_user_referer(bob), alice);
    assert_eq!(users.get_user_referer(carol), AccountId::zero());
    assert_eq!(users.get_user_by_code(2), bob);
    assert_eq!(users.get_user_by_code(4), AccountId::zero());
    assert!(!users.exists_user(acc(4)));
    let all = users.list_user();
    assert_eq!(all.len(), 3);
    assert_eq!(all[1].nickname, "bob");
    assert_eq!(all[1].profile, "hi");
    assert_eq!(all[1].id, 2);
    assert_eq!(all[1].code, 2);
    assert_eq!(all[2].nickname, "");
}

fn call() -> Transaction {
    Transaction { callee: acc(1), selector: [1, 2, 3, 4], input: vec![1], transferred_value: 0, gas_limit: 1000000 }
}

#[test]
fn govnance_dao_init_works() {
    let alice = acc(1);
    let mut govnance_dao = GovnanceDao::new(alice, acc(1), acc(1));
    govnance_dao.propose(alice, 1, String::from("test"), String::from("test"), call());
    let proposal = govnance_dao.get_proposal_by_id(1);
    assert!(proposal.title == String::from("test"));
}

#[test]
fn govnance_dao_proposal_states_follow_the_blocks() {
    let alice = acc(1);
    let mut dao = GovnanceDao::new(alice, acc(2), acc(3));
    assert!(dao.propose(alice, 10, String::from("t"), String::from("d"), call()));
    let p = dao.get_proposal_by_id(1);
    assert_eq!(p.start_block, 11);
    assert_eq!(p.end_block, 11 + 259200);
    assert_eq!(dao.vote_snapshot_block(1), 11);
    assert_eq!(dao.state(1, 11), ProposalState::Pending);
    assert_eq!(dao.state(1, 12), ProposalState::Active);
    assert_eq!(dao.state(1, 11 + 259200), ProposalState::Active);
    // nobody voted for it, so it is defeated once voting ends
    assert_eq!(dao.state(1, 12 + 259200), ProposalState::Defeated);
    assert!(dao.cancel(alice, 1, 12));
    assert_eq!(dao.recorded_events(), vec![ProposalCreated { proposal_id: 1, creator: alice }]);
    assert!(dao.propose(alice, 10, String::from("u"), String::from("d"), call()));
    let all = dao.list_proposals();
    assert_eq!(all.len(), 2);
    assert_eq!(all[1].proposal_id, 2);
    assert_eq!(all[1].title, "u");
}

#[test]
fn rainbow_govnance_numbers_proposals_from_zero() {
    let alice = acc(1);
    let mut dao = RainbowGovnance::new(alice);
    assert!(dao.propose(alice, 5, String::from("t"), String::from("d")));
    assert!(dao.propose(alice, 5, String::from("u"), String::from("d")));
    assert_eq!(dao.state(0, 6), Some(RainbowState::Pending));
    assert_eq!(dao.state(1, 7), None);
}

#[test]
fn multisig_pays_once_enough_managers_signed() {
    let owner = acc(1);
    let m1 = acc(2);
    let m2 = acc(3);
    let payee = acc(9);
    let mut wallet = Multisig::new(owner, vec![m1, m2], 2);
    assert!(wallet.creat_transfer(m1, 1000, payee, 100));
    assert_eq!(wallet.sign_transaction(m1, 0), None);
    let t = wallet.get_transaction(0);
    assert!(!t.status);
    assert_eq!(t.signature_count, 1);
    assert_eq!(wallet.sign_transaction(m2, 0), Some(Payout { to: payee, amount: 100 }));
    let t = wallet.get_transaction(0);
    assert!(t.status);
    assert_eq!(t.signature_count, 2);
    assert_eq!(t.signatures.get(&m1), Some(&1));
}

#[test]
fn multisig_managers_are_marked_not_removed() {
    let owner = acc(1);
    let mut wallet = Multisig::new(owner, vec![acc(2)], 1);
    assert!(wallet.add_manage(owner, acc(3)));
    assert!(wallet.remove_manage(owner, acc(2)));
    assert_eq!(wallet.get_manage_list(), vec![acc(2), acc(3)]);
}

#[test]
fn multisig_factory_records_wallets_by_index() {
    let mut factory = MultisigFactory::new();
    assert_eq!(factory.new_multisig(acc(4)), acc(4));
    assert_eq!(factory.new_multisig(acc(5)), acc(5));
}

#[test]
fn erc20_factory_charges_the_fee_only_when_used() {
    let mut factory = Erc20Factory::new(acc(7));
    let (route, name) = factory.get_contract_addr(String::from("income_category"));
    assert_eq!(route, acc(7));
    assert_eq!(name, "income_category");
    assert_eq!(factory.new_erc20(acc(4), AccountId::zero()), (acc(4), false));
    assert_eq!(factory.new_erc20(acc(4), acc(8)), (acc(4), true));
    let used = IncomeInfo { is_used: true, fee: 3, token: acc(9) };
    assert_eq!(
        factory.send_income_fee(acc(1), acc(8), used),
        Some(FeeTransfer { token: acc(9), from: acc(1), to: acc(8), value: 3 })
    );
    let unused = IncomeInfo { is_used: false, fee: 3, token: acc(9) };
    assert_eq!(factory.send_income_fee(acc(1), acc(8), unused), None);
}

#[test]
fn template_management_keeps_its_flag() {
    let _flag = TemplateManagement::new(true);
}

#[test]
fn govnance_dao_cancel_and_votes_are_stored() {
    let alice = acc(1);
    let bob = acc(2);
    let mut dao = GovnanceDao::new(alice, acc(2), acc(3));
    assert!(dao.propose(alice, 10, String::from("t"), String::from("d"), call()));
    assert!(dao.propose(alice, 10, String::from("u"), String::from("d"), call()));
    assert_eq!(dao.receipt_of(1, bob), None);
    assert!(dao.cast_vote(bob, 1, true, 12, 40));
    assert!(dao.cast_vote(alice, 1, false, 12, 15));
    let p = dao.get_proposal_by_id(1);
    assert_eq!(p.for_votes, 40);
    assert_eq!(p.against_votes, 15);
    assert_eq!(dao.receipt_of(1, bob), Some(Receipt { has_voted: true, support: true, votes: 40 }));
    assert_eq!(dao.receipt_of(1, alice), Some(Receipt { has_voted: true, support: false, votes: 15 }));
    assert_eq!(dao.get_proposal_by_id(2).for_votes, 0);
    assert!(dao.cancel(alice, 1, 12));
    assert!(dao.get_proposal_by_id(1).canceled);
    assert_eq!(dao.state(1, 12), ProposalState::Canceled);
    assert_eq!(dao.state(2, 12), ProposalState::Active);
    let all = dao.list_proposals();
    assert_eq!(all[0].proposal_id, 1);
    assert_eq!(all[1].proposal_id, 2);
}

#[test]
fn users_manage_records_the_invited_users() {
    let alice = acc(1);
    let bob = acc(2);
    let carol = acc(3);
    let mut users = UsersManage::new();
    assert!(users.join(alice, 0, String::from("alice"), String::new()));
    assert!(users.join(bob, 1, String::from("bob"), String::new()));
    assert!(users.join(carol, 1, String::from("carol"), String::new()));
    let all = users.list_user();
    assert_eq!(all[0].address, alice);
    assert_eq!(all[0].childs, vec![bob, carol]);
    assert_eq!(all[1].childs, Vec::<AccountId>::new());
    assert_eq!(all[2].referer, alice);
}

#[test]
fn erc20_factory_requests_the_token_it_was_asked_for() {
    let factory = Erc20Factory::new(acc(1));
    let code = CodeHash { hi: 5, lo: 6 };
    let r = factory.erc20_request(code, 3, 1000, String::from("tok"), String::from("TK"), 8, acc(4));
    assert_eq!(r.code_hash, code);
    assert_eq!(r.endowment, rainbow_dao::erc20_factory::CONTRACT_INIT_BALANCE);
    assert_eq!(r.salt, Salt::Version8(3));
    match r.args {
        ConstructorArgs::Erc20 { initial_supply, name, symbol, decimals, owner } => {
            assert_eq!(initial_supply, 1000);
            assert_eq!(name, "tok");
            assert_eq!(symbol, "TK");
            assert_eq!(decimals, 8);
            assert_eq!(owner, acc(4));
        }
        _ => panic!("not a token constructor"),
    }
}

#[test]
fn users_manage_join_with_its_own_new_code_invites_itself() {
    let alice = acc(1);
    let bob = acc(2);
    let mut users = UsersManage::new();
    assert!(users.join(alice, 1, String::from("alice"), String::new()));
    assert!(users.join(bob, 1, String::from("bob"), String::new()));
    assert_eq!(users.length(), 2);
    let all = users.list_user();
    assert_eq!(all[0].referer, alice);
    assert_eq!(all[0].childs, vec![alice, bob]);
    assert_eq!(all[1].childs, Vec::<AccountId>::new());
}

#[test]
fn govnance_dao_reports_its_voting_window() {
    let alice = acc(1);
    let mut dao = GovnanceDao::new(alice, acc(2), acc(3));
    assert_eq!(dao.proposal_length(), 0);
    assert_eq!(dao.voting_delay(), 1);
    assert_eq!(dao.voting_period(), 259200);
    assert!(dao.propose(alice, 10, String::from("t"), String::from("d"), call()));
    assert_eq!(dao.proposal_length(), 1);
}
