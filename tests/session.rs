use flashaggregator::address::Address;
use flashaggregator::cpi::{account_info_to_meta, TOKEN_PROGRAM_ID};
use flashaggregator::error::AggregatorError;
use flashaggregator::registry::{ReserveDescriptor, ReserveRegistry};
use flashaggregator::session::{begin, Action, AggregatorConfig, Event, FlashLoanSession, LoanRequest, SessionState};

fn addr(n: u8) -> Address {
    Address::new([n; 32])
}

fn reserve(tag: u8, fee_basis_points: u64, liquidity: u64) -> ReserveDescriptor {
    ReserveDescriptor {
        backend_id: tag as u64,
        program_address: addr(100 + tag),
        reserve: addr(tag),
        lending_market: addr(150 + tag),
        liquidity_mint: addr(1),
        liquidity_supply: addr(50 + tag),
        collateral_mint: addr(70 + tag),
        fee_receiver: addr(200 + tag),
        price_oracle: addr(230 + tag),
        fee_basis_points,
        available_liquidity: liquidity,
        last_refreshed_slot: 100,
        max_staleness_slots: 10,
    }
}

fn config() -> AggregatorConfig {
    AggregatorConfig { program_id: addr(99) }
}

fn registry() -> ReserveRegistry {
    ReserveRegistry::new(vec![reserve(10, 30, 1000), reserve(11, 10, 500)])
}

/// A request whose destination account is owned by the authority derived for the
/// reserve it will land on.
fn request(amount: u64, chosen_reserve: u8) -> LoanRequest {
    let authority = flashaggregator::authority::derive(&config().program_id, &addr(40), &addr(chosen_reserve), &addr(41)).unwrap();
    LoanRequest {
        asset: addr(1),
        amount,
        receiver_program: addr(40),
        receiver_accounts: vec![account_info_to_meta(addr(45), false, true)],
        caller_authority: addr(41),
        destination_liquidity: addr(42),
        destination_owner: authority.address,
        host_fee_receiver: addr(43),
    }
}

fn run_to_receiver(amount: u64, chosen_reserve: u8) -> FlashLoanSession {
    let (mut session, action) = begin(&registry(), request(amount, chosen_reserve), 105);
    assert_eq!(session.state, SessionState::Refreshing);
    assert!(matches!(action, Action::Invoke { signer_seeds: None, .. }));
    let cfg = config();
    let ev = Event::Refreshed { pre_borrow_balance: 1000 };
    assert!(session.accepts(&ev));
    let action = session.step(&cfg, ev);
    assert_eq!(session.state, SessionState::Borrowing);
    match action {
        Action::Invoke { instruction, signer_seeds } => {
            assert_eq!(instruction.data[0], 13);
            assert_eq!(instruction.program_id, addr(100 + chosen_reserve));
            assert_eq!(signer_seeds.unwrap().len(), 4);
            assert_eq!(instruction.accounts.len(), 10);
            assert_eq!(instruction.accounts[9..].to_vec(), vec![account_info_to_meta(addr(45), false, true)]);
            assert_eq!(instruction.accounts[7].address, Address::new(TOKEN_PROGRAM_ID));
        }
        Action::Finish => panic!("expected the borrow"),
    }
    let action = session.step(&cfg, Event::Borrowed);
    assert_eq!(session.state, SessionState::InvokingReceiver);
    match action {
        Action::Invoke { instruction, .. } => {
            assert_eq!(instruction.program_id, addr(40));
            assert_eq!(instruction.data[0], 0);
            let mut repay = [0u8; 8];
            repay.copy_from_slice(&instruction.data[1..9]);
            assert_eq!(u64::from_le_bytes(repay), session.amount_to_repay);
            assert_eq!(instruction.accounts[0].address, addr(42));
            assert_eq!(instruction.accounts[1].address, addr(50 + chosen_reserve));
            assert_eq!(instruction.accounts[2].address, Address::new(TOKEN_PROGRAM_ID));
            assert_eq!(instruction.accounts[3].address, addr(45));
        }
        Action::Finish => panic!("expected the callback"),
    }
    session
}

#[test]
fn end_to_end_picks_cheaper_reserve_and_settles() {
    let mut session = run_to_receiver(400, 11);
    assert_eq!(session.chosen, Some(reserve(11, 10, 500)));
    assert_eq!(session.fee, 1);
    assert_eq!(session.amount_to_repay, 401);
    let action = session.step(&config(), Event::ReceiverReturned { post_balance: 1401 });
    assert_eq!(action, Action::Finish);
    assert_eq!(session.state, SessionState::Settled);
    assert!(session.is_finished());
}

#[test]
fn end_to_end_falls_to_deeper_reserve() {
    let mut session = run_to_receiver(600, 10);
    assert_eq!(session.chosen, Some(reserve(10, 30, 1000)));
    assert_eq!(session.fee, 2);
    let action = session.step(&config(), Event::ReceiverReturned { post_balance: 2000 });
    assert_eq!(action, Action::Finish);
    assert_eq!(session.state, SessionState::Settled);
}

#[test]
fn partial_repayment_aborts() {
    let mut session = run_to_receiver(400, 11);
    let action = session.step(&config(), Event::ReceiverReturned { post_balance: 1400 });
    assert_eq!(action, Action::Finish);
    assert_eq!(session.state, SessionState::Aborted(AggregatorError::RepaymentShortfall));
}

#[test]
fn no_eligible_reserve_aborts_without_a_call() {
    let (session, action) = begin(&registry(), request(1001, 10), 105);
    assert_eq!(action, Action::Finish);
    assert_eq!(session.state, SessionState::Aborted(AggregatorError::NoEligibleReserve));
    assert!(session.is_finished());
    assert!(!session.accepts(&Event::Borrowed));
}

#[test]
fn zero_amount_costs_nothing() {
    let mut session = run_to_receiver(0, 11);
    assert_eq!(session.fee, 0);
    assert_eq!(session.amount_to_repay, 0);
    session.step(&config(), Event::ReceiverReturned { post_balance: 1000 });
    assert_eq!(session.state, SessionState::Settled);
}

#[test]
fn failed_refresh_aborts() {
    let (mut session, _) = begin(&registry(), request(400, 11), 105);
    let action = session.step(&config(), Event::RefreshFailed);
    assert_eq!(action, Action::Finish);
    assert_eq!(session.state, SessionState::Aborted(AggregatorError::RefreshFailed));
}

#[test]
fn rejected_borrow_aborts() {
    let (mut session, _) = begin(&registry(), request(400, 11), 105);
    session.step(&config(), Event::Refreshed { pre_borrow_balance: 7 });
    assert_eq!(session.pre_borrow_balance, 7);
    let action = session.step(&config(), Event::BorrowRejected);
    assert_eq!(action, Action::Finish);
    assert_eq!(session.state, SessionState::Aborted(AggregatorError::BorrowRejected));
}

#[test]
fn foreign_destination_owner_aborts() {
    let mut req = request(400, 11);
    req.destination_owner = addr(77);
    let (mut session, _) = begin(&registry(), req, 105);
    let action = session.step(&config(), Event::Refreshed { pre_borrow_balance: 0 });
    assert_eq!(action, Action::Finish);
    assert_eq!(session.state, SessionState::Aborted(AggregatorError::InvalidAccountOwner));
}

#[test]
fn unrepayable_amount_aborts() {
    let mut big = reserve(12, 10_000, u64::MAX);
    big.liquidity_mint = addr(1);
    let registry = ReserveRegistry::new(vec![big]);
    let (mut session, _) = begin(&registry, request(u64::MAX / 2 + 1, 12), 105);
    let action = session.step(&config(), Event::Refreshed { pre_borrow_balance: 0 });
    assert_eq!(action, Action::Finish);
    assert_eq!(session.state, SessionState::Aborted(AggregatorError::RepaymentOverflow));
}
