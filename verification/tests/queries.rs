use rainbow_dao::account::AccountId;
use rainbow_dao::dao_factory::{sub_account, DaoFactory};
use rainbow_dao::dao_proposal::{DaoProposal, PASS_VOTES, STATUS_PASSED, STATUS_VOTING};
use rainbow_dao::dao_setting::DaoSetting;
use rainbow_dao::dao_users::{DaoUsers, Group};
use rainbow_dao::govnance_dao::{GovnanceDao, Transaction};
use rainbow_dao::income_category::IncomeCategory;
use rainbow_dao::keyed_map::KeyedMap;
use rainbow_dao::multisig::Multisig;
use rainbow_dao::near_dao_manager::DAOManager as NearDAOManager;
use rainbow_dao::near_dao_proposal::{DaoProposal as NearDaoProposal, VoteEffective};
use rainbow_dao::near_dao_setting::DaoSetting as NearDaoSetting;
use rainbow_dao::near_dao_users::DaoUsers as NearDaoUsers;
use rainbow_dao::role_manage::RoleManage;
use rainbow_dao::route_manage::RouteManage;
use rainbow_dao::users_manage::UsersManage;

fn acc(b: u8) -> AccountId {
    let half = u128::from_be_bytes([b; 16]);
    AccountId { hi: half, lo: half }
}

#[test]
fn owners_and_creators_are_readable() {
    assert_eq!(RouteManage::new(acc(1)).owner(), acc(1));
    assert_eq!(RoleManage::new(acc(2)).owner(), acc(2));
    assert_eq!(IncomeCategory::new(acc(3)).owner(), acc(3));
    assert_eq!(DaoSetting::new(acc(4), acc(5)).creator(), acc(5));
    assert_eq!(NearDaoSetting::new(String::from("a"), String::from("c")).creator(), "c");
    assert_eq!(NearDaoProposal::new(String::from("a"), String::from("c"), String::from("t")).creator(), "c");
}

#[test]
fn multisig_closed_transactions_cannot_be_signed() {
    let owner = acc(1);
    let mut wallet = Multisig::new(owner, vec![acc(2)], 1);
    assert!(!wallet.is_signable(acc(2), 0));
    assert!(wallet.creat_transfer(owner, 50, acc(9), 5));
    assert!(wallet.is_signable(acc(2), 0));
    assert!(wallet.sign_transaction(acc(2), 0).is_some());
    assert!(!wallet.is_signable(acc(2), 0));
    assert!(!wallet.is_signable(owner, 0));
}

#[test]
fn govnance_proposals_are_found_by_id() {
    let alice = acc(1);
    let mut dao = GovnanceDao::new(alice, acc(2), acc(3));
    assert!(!dao.has_proposal(1));
    let call = Transaction { callee: acc(4), selector: [0, 0, 0, 1], input: vec![], transferred_value: 0, gas_limit: 1 };
    assert!(dao.propose(alice, 1, String::from("t"), String::from("d"), call));
    assert!(dao.has_proposal(1));
    assert!(!dao.has_proposal(0));
    assert_eq!(dao.get_proposal_by_id(1).proposal_id, 1);
    assert_eq!(dao.receipt_of(1, alice), None);
}

#[test]
fn dao_users_group_queries() {
    let mut users = DaoUsers::new(acc(1));
    assert_eq!(users.group_id(1), None);
    let g = Group { id: 7, name: String::from("g"), join_directly: true, is_open: true, users: KeyedMap::new(), manager: acc(1) };
    assert!(users.add_group(g));
    assert_eq!(users.group_id(1), Some(7));
    assert!(!users.has_user_group(acc(2), 1));
}

#[test]
fn dao_proposal_voting_passes_at_the_pass_count() {
    let manager = acc(1);
    let mut proposals = DaoProposal::new(manager, acc(2));
    assert!(!proposals.creat_proposal(String::from("p"), 1, 10, 10));
    assert!(proposals.creat_proposal(String::from("p"), 1, 100, 10));
    assert_eq!(proposals._check_status(String::from("p"), 1), STATUS_VOTING);
    let p = proposals.find_proposal(1).unwrap();
    assert_eq!(p.index, 1);
    assert_eq!(p.start_time, 10);
    assert_eq!(p.time, 100);
    assert!(proposals.find_proposal(2).is_none());
    // a voter without tokens, or outside the window, changes nothing
    assert!(proposals.proposal_voting(acc(3), String::from("p"), 1, 0, 50));
    assert!(proposals.proposal_voting(acc(3), String::from("p"), 1, 5, 100));
    assert_eq!(proposals._check_voted(acc(3)), 0);
    for i in 0..PASS_VOTES {
        let voter = acc(10 + i as u8);
        assert!(proposals.proposal_voting(voter, String::from("p"), 1, 5, 50));
        assert_eq!(proposals._check_voted(voter), 1);
    }
    assert_eq!(proposals.get_proposal_by_id(1).vote, PASS_VOTES);
    assert_eq!(proposals._check_status(String::from("p"), 1), STATUS_PASSED);
    assert!(proposals.cancle_proposal(manager, 1));
    assert!(proposals.find_proposal(1).is_none());
    assert!(proposals.set_new_manager_addr(manager, acc(2)));
    assert_eq!(proposals.get_manager_addr(), acc(2));
}

#[test]
fn users_manage_codes_lead_back_to_their_users() {
    let mut users = UsersManage::new();
    assert!(users.join(acc(1), 0, String::from("a"), String::new()));
    assert!(users.join(acc(2), 1, String::from("b"), String::new()));
    for u in users.list_user() {
        assert_eq!(users.get_user_by_code(u.code), u.address);
    }
}

#[test]
fn dao_factory_index_and_lists() {
    let factory = DaoFactory::new(String::from("alice.near"));
    assert_eq!(factory.instance_index(), 0);
    assert!(!factory.has_daos_of(String::from("alice.near")));
    assert!(!factory.has_dao(0));
    assert_eq!(sub_account(&String::from("x"), &String::from("f.near")), "x.f.near");
}

#[test]
fn near_manager_children_and_proposal_settings() {
    let mut dao = NearDAOManager::new(
        String::from("dao.near"),
        String::from("a"),
        String::from("b"),
        1,
        1,
        String::from("mother"),
    );
    assert!(!dao.has_children(String::from("x")));
    assert!(dao.join_union_dao(String::from("x")));
    assert!(!dao.has_children(String::from("x")));
    let mut proposals = NearDaoProposal::new(String::from("a"), String::from("c"), String::from("t"));
    assert!(!proposals.has_proposal(1));
    let ve = VoteEffective { category: 3, vote_scale: 1, entrust_scale: 2, support_scale: 50 };
    assert!(proposals.set_vote_effective(String::from("a"), ve));
    assert_eq!(proposals.vote_effective(), ve);
}

#[test]
fn near_users_group_ids() {
    let mut users = NearDaoUsers::new(String::from("s"));
    assert_eq!(users.group_id(1), None);
    assert!(users.add_group(String::from("a"), String::from("g"), true, true));
    assert_eq!(users.group_id(1), Some(1));
}

#[test]
fn near_manager_records_children_under_their_mother() {
    let mut dao = NearDAOManager::new(
        String::from("dao.near"),
        String::from("a"),
        String::from("b"),
        1,
        1,
        String::from("mother"),
    );
    assert!(dao.create_child_dao(String::from("x"), String::from("c1")));
    assert!(dao.create_child_dao(String::from("x"), String::from("c2")));
    assert!(dao.has_children(String::from("x")));
    assert_eq!(dao.get_childs_daos(String::from("x")), vec![String::from("c1"), String::from("c2")]);
    assert!(!dao.has_children(String::from("y")));
}

#[test]
fn near_users_close_group_closes_it() {
    let mut users = NearDaoUsers::new(String::from("s"));
    assert!(users.add_group(String::from("a"), String::from("g"), true, true));
    assert!(users.close_group(1));
    let groups = users.list_group();
    assert!(!groups.get(&1).unwrap().is_open);
    assert_eq!(groups.get(&1).unwrap().id, 1);
}
