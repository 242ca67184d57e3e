use rainbow_dao::account::AccountId;
use rainbow_dao::erc20::{
    Approval, Checkpoint, DelegateChanged, DelegateVotesChanged, Erc20, Error, Event, Transfer,
};

fn acc(b: u8) -> AccountId {
    let half = u128::from_be_bytes([b; 16]);
    AccountId { hi: half, lo: half }
}

fn token(owner: AccountId, supply: u128, block: u32) -> Erc20 {
    Erc20::new(supply, String::from("test"), String::from("test"), 8, owner, block)
}

#[test]
fn erc20_new_gives_the_supply_to_the_owner() {
    let alice = acc(1);
    let erc20 = token(alice, 100, 1);
    assert_eq!(erc20.total_supply(), 100);
    assert_eq!(erc20.balance_of(alice), 100);
    assert_eq!(erc20.balance_of(acc(2)), 0);
    let info = erc20.query_info();
    assert_eq!(info.name, "test");
    assert_eq!(info.symbol, "test");
    assert_eq!(info.decimals, 8);
    assert_eq!(info.total_supply, 100);
    assert_eq!(info.owner, alice);
}

#[test]
fn erc20_new_emits_transfer_and_owner_votes() {
    let alice = acc(1);
    let erc20 = token(alice, 100, 7);
    let events = erc20.recorded_events();
    assert_eq!(events, vec![Event::Transfer(Transfer { from: None, to: Some(alice), value: 100 })]);
    assert_eq!(
        erc20.recorded_vote_events(),
        vec![Event::DelegateVotesChanged(DelegateVotesChanged { delegate: alice, old_votes: 0, new_votes: 100 })]
    );
    assert_eq!(erc20.get_current_votes(alice), 100);
    assert_eq!(erc20.get_user_num_check_points(alice), 1);
    assert_eq!(erc20.get_user_check_points(alice, 0), Checkpoint { from_block: 7, votes: 100 });
    assert_eq!(erc20.get_user_check_points(alice, 1), Checkpoint { from_block: 0, votes: 0 });
}

#[test]
fn erc20_zero_supply_takes_no_checkpoint() {
    let alice = acc(1);
    let erc20 = token(alice, 0, 3);
    assert_eq!(erc20.recorded_events().len(), 1);
    assert_eq!(erc20.recorded_vote_events().len(), 0);
    assert_eq!(erc20.get_user_num_check_points(alice), 0);
    assert_eq!(erc20.get_current_votes(alice), 0);
}

#[test]
fn erc20_transfer_moves_tokens_and_votes() {
    let alice = acc(1);
    let bob = acc(2);
    let mut erc20 = token(alice, 100, 1);
    assert_eq!(erc20.transfer(alice, bob, 10, 2), Ok(()));
    assert_eq!(erc20.balance_of(alice), 90);
    assert_eq!(erc20.balance_of(bob), 10);
    assert_eq!(erc20.total_supply(), 100);
    assert_eq!(erc20.get_current_votes(alice), 90);
    assert_eq!(erc20.get_current_votes(bob), 10);
    let events = erc20.recorded_events();
    assert_eq!(events.len(), 2);
    assert_eq!(events[1], Event::Transfer(Transfer { from: Some(alice), to: Some(bob), value: 10 }));
    let votes = erc20.recorded_vote_events();
    assert_eq!(votes.len(), 3);
    assert_eq!(
        votes[1],
        Event::DelegateVotesChanged(DelegateVotesChanged { delegate: alice, old_votes: 100, new_votes: 90 })
    );
    assert_eq!(
        votes[2],
        Event::DelegateVotesChanged(DelegateVotesChanged { delegate: bob, old_votes: 0, new_votes: 10 })
    );
}

#[test]
fn erc20_transfer_to_self_keeps_balances() {
    let alice = acc(1);
    let mut erc20 = token(alice, 100, 1);
    assert_eq!(erc20.transfer(alice, alice, 40, 2), Ok(()));
    assert_eq!(erc20.balance_of(alice), 100);
    assert_eq!(erc20.get_user_num_check_points(alice), 1);
    assert_eq!(erc20.recorded_events().len(), 2);
    assert_eq!(erc20.recorded_vote_events().len(), 1);
}

#[test]
fn erc20_invalid_transfer_changes_nothing() {
    let alice = acc(1);
    let bob = acc(2);
    let eve = acc(5);
    let mut erc20 = token(alice, 100, 1);
    assert_eq!(erc20.transfer(bob, eve, 10, 2), Err(Error::InsufficientBalance));
    assert_eq!(erc20.balance_of(alice), 100);
    assert_eq!(erc20.balance_of(bob), 0);
    assert_eq!(erc20.balance_of(eve), 0);
    assert_eq!(erc20.recorded_events().len(), 1);
}

#[test]
fn erc20_transfer_from_spends_the_allowance() {
    let alice = acc(1);
    let bob = acc(2);
    let eve = acc(5);
    let mut erc20 = token(alice, 100, 1);
    assert_eq!(erc20.transfer_from(bob, alice, eve, 10, 2), Err(Error::InsufficientAllowance));
    assert_eq!(erc20.approve(alice, bob, 10), Ok(()));
    assert_eq!(erc20.allowance(alice, bob), 10);
    let events = erc20.recorded_events();
    assert_eq!(events.len(), 2);
    assert_eq!(events[1], Event::Approval(Approval { owner: alice, spender: bob, value: 10 }));
    assert_eq!(erc20.transfer_from(bob, alice, eve, 10, 2), Ok(()));
    assert_eq!(erc20.balance_of(eve), 10);
    assert_eq!(erc20.balance_of(alice), 90);
    assert_eq!(erc20.allowance(alice, bob), 0);
    let events = erc20.recorded_events();
    assert_eq!(events.len(), 3);
    assert_eq!(events[2], Event::Transfer(Transfer { from: Some(alice), to: Some(eve), value: 10 }));
}

#[test]
fn erc20_allowance_must_not_change_on_failed_transfer() {
    let alice = acc(1);
    let bob = acc(2);
    let eve = acc(5);
    let mut erc20 = token(alice, 100, 1);
    let alice_balance = erc20.balance_of(alice);
    let initial_allowance = alice_balance + 2;
    assert_eq!(erc20.approve(alice, bob, initial_allowance), Ok(()));
    let before = erc20.recorded_events().len();
    assert_eq!(
        erc20.transfer_from(bob, alice, eve, alice_balance + 1, 2),
        Err(Error::InsufficientBalance)
    );
    assert_eq!(erc20.allowance(alice, bob), initial_allowance);
    assert_eq!(erc20.balance_of(alice), 100);
    assert_eq!(erc20.recorded_events().len(), before);
}

#[test]
fn erc20_approve_overwrites() {
    let alice = acc(1);
    let bob = acc(2);
    let mut erc20 = token(alice, 100, 1);
    assert_eq!(erc20.approve(alice, bob, 30), Ok(()));
    assert_eq!(erc20.approve(alice, bob, 5), Ok(()));
    assert_eq!(erc20.allowance(alice, bob), 5);
    assert_eq!(erc20.allowance(bob, alice), 0);
}

#[test]
fn erc20_checkpoints_in_the_same_block_are_merged() {
    let alice = acc(1);
    let bob = acc(2);
    let mut erc20 = token(alice, 100, 5);
    assert_eq!(erc20.transfer(alice, bob, 10, 5), Ok(()));
    assert_eq!(erc20.get_user_num_check_points(alice), 1);
    assert_eq!(erc20.get_user_check_points(alice, 0), Checkpoint { from_block: 5, votes: 90 });
    assert_eq!(erc20.transfer(alice, bob, 10, 6), Ok(()));
    assert_eq!(erc20.get_user_num_check_points(alice), 2);
    assert_eq!(erc20.get_user_check_points(alice, 1), Checkpoint { from_block: 6, votes: 80 });
}

#[test]
fn erc20_prior_votes_search_the_history() {
    let alice = acc(1);
    let bob = acc(2);
    let mut erc20 = token(alice, 100, 10);
    assert_eq!(erc20.transfer(alice, bob, 10, 20), Ok(()));
    assert_eq!(erc20.transfer(alice, bob, 10, 30), Ok(()));
    assert_eq!(erc20.transfer(alice, bob, 10, 40), Ok(()));
    // alice: 100 from 10, 90 from 20, 80 from 30, 70 from 40
    assert_eq!(erc20.get_prior_votes(alice, 5, 50), 0);
    assert_eq!(erc20.get_prior_votes(alice, 10, 50), 100);
    assert_eq!(erc20.get_prior_votes(alice, 15, 50), 100);
    assert_eq!(erc20.get_prior_votes(alice, 20, 50), 90);
    assert_eq!(erc20.get_prior_votes(alice, 29, 50), 90);
    assert_eq!(erc20.get_prior_votes(alice, 30, 50), 80);
    assert_eq!(erc20.get_prior_votes(alice, 45, 50), 70);
    assert_eq!(erc20.get_prior_votes(bob, 19, 50), 0);
    assert_eq!(erc20.get_prior_votes(bob, 35, 50), 20);
    assert_eq!(erc20.get_prior_votes(acc(9), 35, 50), 0);
    // at or after the latest checkpoint, prior votes are current votes
    assert_eq!(erc20.get_prior_votes(alice, 49, 50), erc20.get_current_votes(alice));
}

#[test]
fn erc20_delegate_moves_votes_to_the_delegatee() {
    let alice = acc(1);
    let bob = acc(2);
    let mut erc20 = token(alice, 100, 1);
    assert_eq!(erc20.get_user_delegates(alice), AccountId::zero());
    assert!(erc20.delegate(alice, bob, 2));
    assert_eq!(erc20.get_user_delegates(alice), bob);
    // the caller's delegate was the zero account, so votes are only added to bob
    assert_eq!(erc20.get_current_votes(bob), 100);
    assert_eq!(erc20.get_current_votes(alice), 100);
    assert_eq!(erc20.recorded_events().len(), 1);
    let events = erc20.recorded_vote_events();
    assert_eq!(
        events[1],
        Event::DelegateChanged(DelegateChanged { delegator: alice, current_delegate: AccountId::zero(), delegatee: bob })
    );
    assert_eq!(
        events[2],
        Event::DelegateVotesChanged(DelegateVotesChanged { delegate: bob, old_votes: 0, new_votes: 100 })
    );
    // delegating again moves the votes from bob to eve
    let eve = acc(5);
    assert!(erc20.delegate(alice, eve, 3));
    assert_eq!(erc20.get_current_votes(bob), 0);
    assert_eq!(erc20.get_current_votes(eve), 100);
    assert_eq!(erc20.balance_of(alice), 100);
}

fn owner_token() -> Erc20 {
    Erc20::new(100, String::from("test"), String::from("test"), 8, acc(1), 1)
}

fn assert_transfer_event(event: &Event, from: Option<AccountId>, to: Option<AccountId>, value: u128) {
    assert_eq!(*event, Event::Transfer(Transfer { from, to, value }));
}

#[test]
fn lib_new_works() {
    let erc20 = owner_token();
    let emitted_events = erc20.recorded_events();
    assert_eq!(1, emitted_events.len());
    assert_transfer_event(&emitted_events[0], None, Some(acc(1)), 100);
}

#[test]
fn lib_total_supply_works() {
    let erc20 = owner_token();
    let emitted_events = erc20.recorded_events();
    assert_transfer_event(&emitted_events[0], None, Some(acc(1)), 100);
    assert_eq!(erc20.total_supply(), 100);
}

#[test]
fn lib_balance_of_works() {
    let erc20 = owner_token();
    let emitted_events = erc20.recorded_events();
    assert_transfer_event(&emitted_events[0], None, Some(acc(1)), 100);
    assert_eq!(erc20.balance_of(acc(1)), 100);
    assert_eq!(erc20.balance_of(acc(2)), 0);
}

#[test]
fn lib_transfer_works() {
    let mut erc20 = owner_token();
    assert_eq!(erc20.balance_of(acc(2)), 0);
    assert_eq!(erc20.transfer(acc(1), acc(2), 10, 2), Ok(()));
    assert_eq!(erc20.balance_of(acc(2)), 10);
    let emitted_events = erc20.recorded_events();
    assert_eq!(emitted_events.len(), 2);
    assert_transfer_event(&emitted_events[0], None, Some(acc(1)), 100);
    assert_transfer_event(&emitted_events[1], Some(acc(1)), Some(acc(2)), 10);
}

#[test]
fn lib_invalid_transfer_should_fail() {
    let mut erc20 = owner_token();
    assert_eq!(erc20.balance_of(acc(2)), 0);
    assert_eq!(erc20.transfer(acc(2), acc(5), 10, 2), Err(Error::InsufficientBalance));
    assert_eq!(erc20.balance_of(acc(1)), 100);
    assert_eq!(erc20.balance_of(acc(2)), 0);
    assert_eq!(erc20.balance_of(acc(5)), 0);
    let emitted_events = erc20.recorded_events();
    assert_eq!(emitted_events.len(), 1);
    assert_transfer_event(&emitted_events[0], None, Some(acc(1)), 100);
}

#[test]
fn lib_transfer_from_works() {
    let mut erc20 = owner_token();
    assert_eq!(erc20.transfer_from(acc(2), acc(1), acc(5), 10, 2), Err(Error::InsufficientAllowance));
    assert_eq!(erc20.approve(acc(1), acc(2), 10), Ok(()));
    assert_eq!(erc20.recorded_events().len(), 2);
    assert_eq!(erc20.transfer_from(acc(2), acc(1), acc(5), 10, 2), Ok(()));
    assert_eq!(erc20.balance_of(acc(5)), 10);
    let emitted_events = erc20.recorded_events();
    assert_eq!(emitted_events.len(), 3);
    assert_transfer_event(&emitted_events[0], None, Some(acc(1)), 100);
    assert_transfer_event(&emitted_events[2], Some(acc(1)), Some(acc(5)), 10);
}

#[test]
fn lib_allowance_must_not_change_on_failed_transfer() {
    let mut erc20 = owner_token();
    let alice_balance = erc20.balance_of(acc(1));
    let initial_allowance = alice_balance + 2;
    assert_eq!(erc20.approve(acc(1), acc(2), initial_allowance), Ok(()));
    let emitted_events_before = erc20.recorded_events().len();
    assert_eq!(
        erc20.transfer_from(acc(2), acc(1), acc(5), alice_balance + 1, 2),
        Err(Error::InsufficientBalance)
    );
    assert_eq!(erc20.allowance(acc(1), acc(2)), initial_allowance);
    assert_eq!(emitted_events_before, erc20.recorded_events().len());
}
