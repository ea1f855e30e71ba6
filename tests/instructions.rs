use flashaggregator::address::Address;
use flashaggregator::authority::TransferAuthority;
use flashaggregator::cpi::{account_info_to_meta, receiver_callback, AccountMeta, CLOCK_SYSVAR_ID, TOKEN_PROGRAM_ID};
use flashaggregator::lending::{
    deposit_liquidity, flash_loan, lending_market_authority, redeem_collateral, refresh, FlashLoan,
};
use flashaggregator::registry::ReserveDescriptor;
use flashaggregator::token_account::{token_account_amount, token_account_owner, TOKEN_ACCOUNT_LEN};
use solana_program::pubkey::Pubkey;

fn addr(n: u8) -> Address {
    Address::new([n; 32])
}

fn market_authority_of(program: &Address, market: &Address) -> Address {
    let (k, _) = Pubkey::find_program_address(&[&market.to_bytes()], &Pubkey::new_from_array(program.to_bytes()));
    Address::new(k.to_bytes())
}

fn w(a: Address) -> AccountMeta {
    account_info_to_meta(a, false, true)
}

fn ro(a: Address) -> AccountMeta {
    account_info_to_meta(a, false, false)
}

fn le(tag: u8, amount: u64) -> Vec<u8> {
    let mut v = vec![tag];
    v.extend_from_slice(&amount.to_le_bytes());
    v
}

fn descriptor() -> ReserveDescriptor {
    ReserveDescriptor {
        backend_id: 1,
        program_address: addr(101),
        reserve: addr(2),
        lending_market: addr(3),
        liquidity_mint: addr(4),
        liquidity_supply: addr(5),
        collateral_mint: addr(6),
        fee_receiver: addr(7),
        price_oracle: addr(8),
        fee_basis_points: 30,
        available_liquidity: 1000,
        last_refreshed_slot: 0,
        max_staleness_slots: 100,
    }
}

#[test]
fn well_known_ids_match_the_sdk() {
    assert_eq!(CLOCK_SYSVAR_ID, solana_program::sysvar::clock::id().to_bytes());
    assert_eq!(
        Address::new(TOKEN_PROGRAM_ID),
        Address::new(Pubkey::try_from("TokenkegQfeZyiNwAJbNbGKPFXCWuBvf9Ss623VQ5DA").unwrap().to_bytes())
    );
}

#[test]
fn account_meta_keeps_flags() {
    let m = account_info_to_meta(addr(9), true, false);
    assert_eq!(m.address, addr(9));
    assert!(m.is_signer);
    assert!(!m.is_writable);
}

#[test]
fn flash_loan_layout() {
    let loan = FlashLoan {
        lending_program: addr(101),
        source_liquidity: addr(1),
        destination_liquidity: addr(2),
        reserve: addr(3),
        flash_loan_fee_receiver: addr(4),
        host_fee_receiver: addr(5),
        lending_market: addr(6),
        flash_loan_receiver: addr(8),
    };
    let extra = vec![account_info_to_meta(addr(20), false, true), account_info_to_meta(addr(21), true, false)];
    let ix = flash_loan(&loan, 0x0102_0304_0506_0708, &extra).unwrap();
    assert_eq!(ix.program_id, addr(101));
    assert_eq!(ix.data, vec![13, 8, 7, 6, 5, 4, 3, 2, 1]);
    let expected = vec![
        w(addr(1)),
        w(addr(2)),
        w(addr(3)),
        w(addr(4)),
        w(addr(5)),
        ro(addr(6)),
        ro(market_authority_of(&addr(101), &addr(6))),
        ro(Address::new(TOKEN_PROGRAM_ID)),
        ro(addr(8)),
        account_info_to_meta(addr(20), false, true),
        account_info_to_meta(addr(21), true, false),
    ];
    assert_eq!(ix.accounts, expected);
    assert_eq!(ix.accounts[9..].to_vec(), extra);
    assert_eq!(lending_market_authority(&addr(101), &addr(6)), Some(market_authority_of(&addr(101), &addr(6))));
}

#[test]
fn refresh_layout() {
    let d = descriptor();
    let ix = refresh(&d);
    assert_eq!(ix.program_id, addr(101));
    assert_eq!(ix.accounts, vec![w(addr(2)), ro(addr(8)), ro(Address::new(CLOCK_SYSVAR_ID))]);
    assert_eq!(ix.data, vec![3]);
}

#[test]
fn deposit_layout() {
    let d = descriptor();
    let ix = deposit_liquidity(&d, 500, &addr(30), &addr(31), &addr(32)).unwrap();
    assert_eq!(ix.program_id, addr(101));
    assert_eq!(ix.data, le(4, 500));
    assert_eq!(
        ix.accounts,
        vec![
            w(addr(30)),
            w(addr(31)),
            w(addr(2)),
            w(addr(5)),
            w(addr(6)),
            ro(addr(3)),
            ro(market_authority_of(&addr(101), &addr(3))),
            account_info_to_meta(addr(32), true, false),
            ro(Address::new(CLOCK_SYSVAR_ID)),
            ro(Address::new(TOKEN_PROGRAM_ID)),
        ]
    );
}

#[test]
fn redeem_layout() {
    let d = descriptor();
    let ix = redeem_collateral(&d, 77, &addr(40), &addr(41), &addr(42)).unwrap();
    assert_eq!(ix.program_id, addr(101));
    assert_eq!(ix.data, le(5, 77));
    assert_eq!(
        ix.accounts,
        vec![
            w(addr(40)),
            w(addr(41)),
            w(addr(2)),
            w(addr(6)),
            w(addr(5)),
            ro(addr(3)),
            ro(market_authority_of(&addr(101), &addr(3))),
            account_info_to_meta(addr(42), true, false),
            ro(Address::new(CLOCK_SYSVAR_ID)),
            ro(Address::new(TOKEN_PROGRAM_ID)),
        ]
    );
}

#[test]
fn receiver_callback_layout() {
    let extra = vec![account_info_to_meta(addr(60), true, true), ro(addr(61))];
    let ix = receiver_callback(&addr(8), &addr(2), &addr(5), &Address::new(TOKEN_PROGRAM_ID), &extra, 401);
    assert_eq!(ix.program_id, addr(8));
    assert_eq!(ix.data, le(0, 401));
    assert_eq!(
        ix.accounts,
        vec![w(addr(2)), w(addr(5)), ro(Address::new(TOKEN_PROGRAM_ID)), account_info_to_meta(addr(60), true, true), ro(addr(61))]
    );
}

#[test]
fn derive_is_deterministic_and_scoped() {
    let program = addr(200);
    let first = flashaggregator::authority::derive(&program, &addr(1), &addr(2), &addr(3)).unwrap();
    let second = flashaggregator::authority::derive(&program, &addr(1), &addr(2), &addr(3)).unwrap();
    assert_eq!(first, second);
    let (k, bump) = Pubkey::find_program_address(
        &[&[1u8; 32], &[2u8; 32], &[3u8; 32]],
        &Pubkey::new_from_array(program.to_bytes()),
    );
    assert_eq!(first.address, Address::new(k.to_bytes()));
    assert_eq!(first.bump, bump);
    assert_eq!(first.signing_seeds, vec![vec![1u8; 32], vec![2u8; 32], vec![3u8; 32], vec![bump]]);
    let other_receiver = flashaggregator::authority::derive(&program, &addr(9), &addr(2), &addr(3)).unwrap();
    let other_reserve = flashaggregator::authority::derive(&program, &addr(1), &addr(9), &addr(3)).unwrap();
    assert_ne!(first.address, other_receiver.address);
    assert_ne!(first.address, other_reserve.address);
    let copied: TransferAuthority = TransferAuthority {
        address: first.address,
        bump: first.bump,
        signing_seeds: first.signer_seeds(),
    };
    assert_eq!(copied, first);
}

#[test]
fn address_helpers() {
    let a = addr(7);
    assert!(a.same_as(&addr(7)));
    assert!(!a.same_as(&addr(8)));
    let mut bytes = [7u8; 32];
    bytes[31] = 8;
    assert!(!a.same_as(&Address::new(bytes)));
    assert_eq!(a.to_vec(), vec![7u8; 32]);
}

#[test]
fn token_account_fields() {
    let mut data = vec![0u8; TOKEN_ACCOUNT_LEN];
    for b in &mut data[0..32] {
        *b = 1;
    }
    for b in &mut data[32..64] {
        *b = 2;
    }
    data[64..72].copy_from_slice(&1401u64.to_le_bytes());
    assert_eq!(token_account_owner(&data), Some(addr(2)));
    assert_eq!(token_account_amount(&data), Some(1401));
    assert_eq!(token_account_owner(&data[..164]), None);
    assert_eq!(token_account_amount(&data[..100]), None);
}
