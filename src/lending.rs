//! Instructions of the lending backend (the SPL token-lending instruction set):
//! refresh a reserve, deposit liquidity, redeem collateral, and take a flash loan.
use vstd::prelude::*;
use solana_program::instruction::AccountMeta as LendingMeta;
use solana_program::pubkey::Pubkey;
use crate::address::Address;
use crate::authority::{find_program_address, program_address_search};
use crate::cpi::{
    le_bytes, metas_view, read_only, read_only_signer, writable, AccountMeta, Instruction,
    CLOCK_SYSVAR_ID, TOKEN_PROGRAM_ID,
};
use crate::error::AggregatorError;
use crate::registry::ReserveDescriptor;

verus! {

/// The lending market authority of `program_id`'s `lending_market`: the address the
/// bump search finds for the market's bytes, if any.
pub open spec fn market_authority(program_id: Seq<u8>, lending_market: Seq<u8>) -> Option<Seq<u8>> {
    match program_address_search(seq![lending_market], program_id) {
        Some((address, _)) => Some(address),
        None => None,
    }
}

/// Relies on `spl_token_lending::instruction::refresh_reserve`: the reserve
/// (writable), its oracle and the clock sysvar; data is tag 3.
#[verifier::external_body]
fn lending_refresh_reserve(program_id: &Address, reserve: &Address, oracle: &Address) -> (r: Instruction)
    ensures
        r@ == (
            program_id@,
            seq![writable(reserve@), read_only(oracle@), read_only(CLOCK_SYSVAR_ID@)],
            seq![3u8],
        ),
{
    let k = |a: &Address| Pubkey::new_from_array(a.0);
    let ix = spl_token_lending::instruction::refresh_reserve(k(program_id), k(reserve), k(oracle));
    let accounts = ix.accounts.iter().map(
        |m| AccountMeta { address: Address(m.pubkey.to_bytes()), is_signer: m.is_signer, is_writable: m.is_writable },
    ).collect();
    Instruction { program_id: Address(ix.program_id.to_bytes()), accounts, data: ix.data }
}

/// Relies on `spl_token_lending::instruction::deposit_reserve_liquidity`: ten accounts in
/// the lending program's order, the market authority being
/// `Pubkey::find_program_address` over the market's bytes (which panics when the search
/// fails); data is tag 4 and the amount, little-endian.
#[verifier::external_body]
fn lending_deposit_reserve_liquidity(
    program_id: &Address,
    amount: u64,
    source_liquidity: &Address,
    destination_collateral: &Address,
    reserve: &Address,
    liquidity_supply: &Address,
    collateral_mint: &Address,
    lending_market: &Address,
    user_authority: &Address,
) -> (r: Instruction)
    requires
        market_authority(program_id@, lending_market@) is Some,
    ensures
        r@ == (
            program_id@,
            seq![
                writable(source_liquidity@),
                writable(destination_collateral@),
                writable(reserve@),
                writable(liquidity_supply@),
                writable(collateral_mint@),
                read_only(lending_market@),
                read_only(market_authority(program_id@, lending_market@)->Some_0),
                read_only_signer(user_authority@),
                read_only(CLOCK_SYSVAR_ID@),
                read_only(TOKEN_PROGRAM_ID@),
            ],
            seq![4u8] + le_bytes(amount),
        ),
{
    let k = |a: &Address| Pubkey::new_from_array(a.0);
    let ix = spl_token_lending::instruction::deposit_reserve_liquidity(
        k(program_id), amount, k(source_liquidity), k(destination_collateral), k(reserve),
        k(liquidity_supply), k(collateral_mint), k(lending_market), k(user_authority),
    );
    let accounts = ix.accounts.iter().map(
        |m| AccountMeta { address: Address(m.pubkey.to_bytes()), is_signer: m.is_signer, is_writable: m.is_writable },
    ).collect();
    Instruction { program_id: Address(ix.program_id.to_bytes()), accounts, data: ix.data }
}

/// Relies on `spl_token_lending::instruction::redeem_reserve_collateral`: ten accounts in
/// the lending program's order, the market authority being
/// `Pubkey::find_program_address` over the market's bytes (which panics when the search
/// fails); data is tag 5 and the amount, little-endian.
#[verifier::external_body]
fn lending_redeem_reserve_collateral(
    program_id: &Address,
    amount: u64,
    source_collateral: &Address,
    destination_liquidity: &Address,
    reserve: &Address,
    collateral_mint: &Address,
    liquidity_supply: &Address,
    lending_market: &Address,
    user_authority: &Address,
) -> (r: Instruction)
    requires
        market_authority(program_id@, lending_market@) is Some,
    ensures
        r@ == (
            program_id@,
            seq![
                writable(source_collateral@),
                writable(destination_liquidity@),
                writable(reserve@),
                writable(collateral_mint@),
                writable(liquidity_supply@),
                read_only(lending_market@),
                read_only(market_authority(program_id@, lending_market@)->Some_0),
                read_only_signer(user_authority@),
                read_only(CLOCK_SYSVAR_ID@),
                read_only(TOKEN_PROGRAM_ID@),
            ],
            seq![5u8] + le_bytes(amount),
        ),
{
    let k = |a: &Address| Pubkey::new_from_array(a.0);
    let ix = spl_token_lending::instruction::redeem_reserve_collateral(
        k(program_id), amount, k(source_collateral), k(destination_liquidity), k(reserve),
        k(collateral_mint), k(liquidity_supply), k(lending_market), k(user_authority),
    );
    let accounts = ix.accounts.iter().map(
        |m| AccountMeta { address: Address(m.pubkey.to_bytes()), is_signer: m.is_signer, is_writable: m.is_writable },
    ).collect();
    Instruction { program_id: Address(ix.program_id.to_bytes()), accounts, data: ix.data }
}

/// The nine fixed accounts of a flash loan, in the lending program's order.
pub open spec fn flash_loan_fixed_accounts(
    source_liquidity: Seq<u8>,
    destination_liquidity: Seq<u8>,
    reserve: Seq<u8>,
    fee_receiver: Seq<u8>,
    host_fee_receiver: Seq<u8>,
    lending_market: Seq<u8>,
    lending_market_authority: Seq<u8>,
    receiver_program: Seq<u8>,
) -> Seq<(Seq<u8>, bool, bool)> {
    seq![
        writable(source_liquidity),
        writable(destination_liquidity),
        writable(reserve),
        writable(fee_receiver),
        writable(host_fee_receiver),
        read_only(lending_market),
        read_only(lending_market_authority),
        read_only(TOKEN_PROGRAM_ID@),
        read_only(receiver_program),
    ]
}

/// Relies on `spl_token_lending::instruction::flash_loan`: the nine fixed accounts in
/// the lending program's order, the market authority being
/// `Pubkey::find_program_address` over the market's bytes (which panics when the search
/// fails), then the receiver's accounts as given; data is tag 13 and the amount,
/// little-endian.
#[verifier::external_body]
fn lending_flash_loan(
    program_id: &Address,
    amount: u64,
    source_liquidity: &Address,
    destination_liquidity: &Address,
    reserve: &Address,
    fee_receiver: &Address,
    host_fee_receiver: &Address,
    lending_market: &Address,
    receiver_program: &Address,
    receiver_accounts: &Vec<AccountMeta>,
) -> (r: Instruction)
    requires
        market_authority(program_id@, lending_market@) is Some,
    ensures
        r@ == (
            program_id@,
            flash_loan_fixed_accounts(
                source_liquidity@,
                destination_liquidity@,
                reserve@,
                fee_receiver@,
                host_fee_receiver@,
                lending_market@,
                market_authority(program_id@, lending_market@)->Some_0,
                receiver_program@,
            ) + metas_view(receiver_accounts@),
            seq![13u8] + le_bytes(amount),
        ),
{
    let k = |a: &Address| Pubkey::new_from_array(a.0);
    let extra = receiver_accounts.iter().map(
        |m| LendingMeta { pubkey: k(&m.address), is_signer: m.is_signer, is_writable: m.is_writable },
    ).collect();
    let ix = spl_token_lending::instruction::flash_loan(
        k(program_id), amount, k(source_liquidity), k(destination_liquidity), k(reserve),
        k(fee_receiver), k(host_fee_receiver), k(lending_market), k(receiver_program), extra,
    );
    let accounts = ix.accounts.iter().map(
        |m| AccountMeta { address: Address(m.pubkey.to_bytes()), is_signer: m.is_signer, is_writable: m.is_writable },
    ).collect();
    Instruction { program_id: Address(ix.program_id.to_bytes()), accounts, data: ix.data }
}

/// The lending market authority of `program_id`'s `lending_market`, or `None` when the
/// bump search finds no address.
pub fn lending_market_authority(program_id: &Address, lending_market: &Address) -> (r: Option<Address>)
    ensures
        r is Some <==> market_authority(program_id@, lending_market@) is Some,
        r matches Some(a) ==> market_authority(program_id@, lending_market@) == Some(a@),
{
    let market_seed = lending_market.to_vec();
    assert(market_seed.deep_view() =~= lending_market@);
    let mut seeds: Vec<Vec<u8>> = Vec::new();
    seeds.push(market_seed);
    assert(seeds.deep_view() =~= seq![lending_market@]);
    match find_program_address(&seeds, program_id) {
        Some((address, _)) => Some(address),
        None => None,
    }
}

/// The refresh instruction of `reserve`: the reserve (writable), its oracle and the
/// clock sysvar; data is tag 3.
pub open spec fn refresh_view(reserve: ReserveDescriptor) -> (Seq<u8>, Seq<(Seq<u8>, bool, bool)>, Seq<u8>) {
    (
        reserve.program_address@,
        seq![writable(reserve.reserve@), read_only(reserve.price_oracle@), read_only(CLOCK_SYSVAR_ID@)],
        seq![3u8],
    )
}

/// The instruction that refreshes `reserve`'s liquidity and price data.
pub fn refresh(reserve: &ReserveDescriptor) -> (r: Instruction)
    ensures
        r@ == refresh_view(*reserve),
{
    lending_refresh_reserve(&reserve.program_address, &reserve.reserve, &reserve.price_oracle)
}

/// The instruction that deposits `amount` of liquidity from `source_liquidity` into
/// `reserve` for collateral sent to `destination_collateral`, signed by
/// `user_authority`. Fails with `DerivationExhausted` when the market has no
/// authority address.
pub fn deposit_liquidity(
    reserve: &ReserveDescriptor,
    amount: u64,
    source_liquidity: &Address,
    destination_collateral: &Address,
    user_authority: &Address,
) -> (r: Result<Instruction, AggregatorError>)
    ensures
        match market_authority(reserve.program_address@, reserve.lending_market@) {
            None => r == Err::<Instruction, AggregatorError>(AggregatorError::DerivationExhausted),
            Some(authority) => r matches Ok(ix) && ix@ == (
                reserve.program_address@,
                seq![
                    writable(source_liquidity@),
                    writable(destination_collateral@),
                    writable(reserve.reserve@),
                    writable(reserve.liquidity_supply@),
                    writable(reserve.collateral_mint@),
                    read_only(reserve.lending_market@),
                    read_only(authority),
                    read_only_signer(user_authority@),
                    read_only(CLOCK_SYSVAR_ID@),
                    read_only(TOKEN_PROGRAM_ID@),
                ],
                seq![4u8] + le_bytes(amount),
            ),
        },
{
    match lending_market_authority(&reserve.program_address, &reserve.lending_market) {
        None => Err(AggregatorError::DerivationExhausted),
        Some(_) => Ok(
            lending_deposit_reserve_liquidity(
                &reserve.program_address,
                amount,
                source_liquidity,
                destination_collateral,
                &reserve.reserve,
                &reserve.liquidity_supply,
                &reserve.collateral_mint,
                &reserve.lending_market,
                user_authority,
            ),
        ),
    }
}

/// The instruction that redeems `amount` of collateral from `source_collateral` for
/// liquidity of `reserve` sent to `destination_liquidity`, signed by
/// `user_authority`. Fails with `DerivationExhausted` when the market has no
/// authority address.
pub fn redeem_collateral(
    reserve: &ReserveDescriptor,
    amount: u64,
    source_collateral: &Address,
    destination_liquidity: &Address,
    user_authority: &Address,
) -> (r: Result<Instruction, AggregatorError>)
    ensures
        match market_authority(reserve.program_address@, reserve.lending_market@) {
            None => r == Err::<Instruction, AggregatorError>(AggregatorError::DerivationExhausted),
            Some(authority) => r matches Ok(ix) && ix@ == (
                reserve.program_address@,
                seq![
                    writable(source_collateral@),
                    writable(destination_liquidity@),
                    writable(reserve.reserve@),
                    writable(reserve.collateral_mint@),
                    writable(reserve.liquidity_supply@),
                    read_only(reserve.lending_market@),
                    read_only(authority),
                    read_only_signer(user_authority@),
                    read_only(CLOCK_SYSVAR_ID@),
                    read_only(TOKEN_PROGRAM_ID@),
                ],
                seq![5u8] + le_bytes(amount),
            ),
        },
{
    match lending_market_authority(&reserve.program_address, &reserve.lending_market) {
        None => Err(AggregatorError::DerivationExhausted),
        Some(_) => Ok(
            lending_redeem_reserve_collateral(
                &reserve.program_address,
                amount,
                source_collateral,
                destination_liquidity,
                &reserve.reserve,
                &reserve.collateral_mint,
                &reserve.liquidity_supply,
                &reserve.lending_market,
                user_authority,
            ),
        ),
    }
}

/// The accounts a flash loan through the lending backend names. The lending market's
/// authority is derived by the builder, and the token program is always the SPL token
/// program, so neither is given here.
#[derive(Clone, Copy, Debug, PartialEq, Eq)]
pub struct FlashLoan {
    /// The lending backend's program.
    pub lending_program: Address,
    /// The reserve's liquidity supply, the source of the loan.
    pub source_liquidity: Address,
    /// The account the loan is paid into; owned by the transfer authority.
    pub destination_liquidity: Address,
    /// The reserve account.
    pub reserve: Address,
    /// The reserve's flash-loan fee receiver.
    pub flash_loan_fee_receiver: Address,
    /// The host fee receiver.
    pub host_fee_receiver: Address,
    /// The lending market account.
    pub lending_market: Address,
    /// The receiver program called back with the loan.
    pub flash_loan_receiver: Address,
}

/// The flash-loan instruction for borrowing `amount` with the accounts of `loan`: the
/// nine fixed accounts, then `receiver_accounts` exactly as given, in the receiver's
/// order. Fails with `DerivationExhausted` when the market has no authority address.
pub fn flash_loan(loan: &FlashLoan, amount: u64, receiver_accounts: &Vec<AccountMeta>) -> (r: Result<
    Instruction,
    AggregatorError,
>)
    ensures
        match market_authority(loan.lending_program@, loan.lending_market@) {
            None => r == Err::<Instruction, AggregatorError>(AggregatorError::DerivationExhausted),
            Some(authority) => r matches Ok(ix) && ix@ == (
                loan.lending_program@,
                flash_loan_fixed_accounts(
                    loan.source_liquidity@,
                    loan.destination_liquidity@,
                    loan.reserve@,
                    loan.flash_loan_fee_receiver@,
                    loan.host_fee_receiver@,
                    loan.lending_market@,
                    authority,
                    loan.flash_loan_receiver@,
                ) + metas_view(receiver_accounts@),
                seq![13u8] + le_bytes(amount),
            ),
        },
{
    match lending_market_authority(&loan.lending_program, &loan.lending_market) {
        None => Err(AggregatorError::DerivationExhausted),
        Some(_) => Ok(
            lending_flash_loan(
                &loan.lending_program,
                amount,
                &loan.source_liquidity,
                &loan.destination_liquidity,
                &loan.reserve,
                &loan.flash_loan_fee_receiver,
                &loan.host_fee_receiver,
                &loan.lending_market,
                &loan.flash_loan_receiver,
                receiver_accounts,
            ),
        ),
    }
}

} // verus!
