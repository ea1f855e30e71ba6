//! Cross-program calls: account lists and instruction data in the exact layout
//! that the lending backend and the loan receiver read positionally.
use vstd::prelude::*;
use crate::address::Address;

verus! {

/// Address of the clock sysvar.
pub const CLOCK_SYSVAR_ID: [u8; 32] = [
    6, 167, 213, 23, 24, 199, 116, 201, 40, 86, 99, 152, 105, 29, 94, 182, 139, 94, 184, 163, 155,
    75, 109, 92, 115, 85, 91, 33, 0, 0, 0, 0,
];

/// Address of the SPL token program.
pub const TOKEN_PROGRAM_ID: [u8; 32] = [
    6, 221, 246, 225, 215, 101, 161, 147, 217, 203, 225, 70, 206, 235, 121, 172, 28, 180, 133, 237,
    95, 91, 55, 145, 58, 140, 245, 133, 126, 255, 0, 169,
];

/// Instruction tag of the receiver's flash-loan callback.
pub const RECEIVE_FLASH_LOAN_TAG: u8 = 0;

/// One account of an instruction, with its role.
#[derive(Clone, Copy, Debug, PartialEq, Eq)]
pub struct AccountMeta {
    pub address: Address,
    pub is_signer: bool,
    pub is_writable: bool,
}

impl View for AccountMeta {
    type V = (Seq<u8>, bool, bool);

    open spec fn view(&self) -> (Seq<u8>, bool, bool) {
        (self.address@, self.is_signer, self.is_writable)
    }
}

/// A writable account that does not sign.
pub open spec fn writable(a: Seq<u8>) -> (Seq<u8>, bool, bool) {
    (a, false, true)
}

/// A read-only account that does not sign.
pub open spec fn read_only(a: Seq<u8>) -> (Seq<u8>, bool, bool) {
    (a, false, false)
}

/// A read-only account that signs.
pub open spec fn read_only_signer(a: Seq<u8>) -> (Seq<u8>, bool, bool) {
    (a, true, false)
}

/// The roles of a list of accounts.
pub open spec fn metas_view(s: Seq<AccountMeta>) -> Seq<(Seq<u8>, bool, bool)> {
    s.map_values(|m: AccountMeta| m@)
}

/// An instruction for another program: its program, its accounts in order, and its
/// binary payload.
#[derive(Debug, PartialEq, Eq)]
pub struct Instruction {
    pub program_id: Address,
    pub accounts: Vec<AccountMeta>,
    pub data: Vec<u8>,
}

impl View for Instruction {
    type V = (Seq<u8>, Seq<(Seq<u8>, bool, bool)>, Seq<u8>);

    open spec fn view(&self) -> (Seq<u8>, Seq<(Seq<u8>, bool, bool)>, Seq<u8>) {
        (self.program_id@, metas_view(self.accounts@), self.data@)
    }
}

/// The eight little-endian bytes of `x`.
pub open spec fn le_bytes(x: u64) -> Seq<u8> {
    seq![
        x as u8,
        (x >> 8) as u8,
        (x >> 16) as u8,
        (x >> 24) as u8,
        (x >> 32) as u8,
        (x >> 40) as u8,
        (x >> 48) as u8,
        (x >> 56) as u8,
    ]
}

/// Appends the eight little-endian bytes of `x` to `out`.
fn push_le_bytes(out: &mut Vec<u8>, x: u64)
    ensures
        final(out)@ == old(out)@ + le_bytes(x),
{
    out.push(x as u8);
    out.push((x >> 8) as u8);
    out.push((x >> 16) as u8);
    out.push((x >> 24) as u8);
    out.push((x >> 32) as u8);
    out.push((x >> 40) as u8);
    out.push((x >> 48) as u8);
    out.push((x >> 56) as u8);
    assert(final(out)@ =~= old(out)@ + le_bytes(x));
}

/// Appends `extra` to `out`, keeping its order.
fn append_metas(out: &mut Vec<AccountMeta>, extra: &Vec<AccountMeta>)
    ensures
        final(out)@ == old(out)@ + extra@,
{
    let ghost start = out@;
    let mut i: usize = 0;
    while i < extra.len()
        invariant
            i <= extra@.len(),
            out@ == start + extra@.subrange(0, i as int),
        decreases extra@.len() - i,
    {
        out.push(extra[i]);
        i = i + 1;
        assert(out@ =~= start + extra@.subrange(0, i as int));
    }
    assert(extra@.subrange(0, extra@.len() as int) =~= extra@);
}

/// The role of one account, from its address and flags.
pub fn account_info_to_meta(address: Address, is_signer: bool, is_writable: bool) -> (r: AccountMeta)
    ensures
        r@ == (address@, is_signer, is_writable),
{
    AccountMeta { address, is_signer, is_writable }
}

/// Accounts of the receiver's callback: the borrowed funds' account and the
/// reserve's liquidity account, both writable, the token program, then the
/// receiver's own accounts in the order it asked for them.
pub open spec fn callback_accounts(
    source_liquidity: Seq<u8>,
    destination_liquidity: Seq<u8>,
    token_program: Seq<u8>,
    receiver_accounts: Seq<AccountMeta>,
) -> Seq<(Seq<u8>, bool, bool)> {
    seq![writable(source_liquidity), writable(destination_liquidity), read_only(token_program)]
        + metas_view(receiver_accounts)
}

/// Payload of the receiver's callback: tag 0, then the amount to repay.
pub open spec fn callback_data(amount_to_repay: u64) -> Seq<u8> {
    seq![RECEIVE_FLASH_LOAN_TAG] + le_bytes(amount_to_repay)
}

/// The receiver's flash-loan callback, asking it to move `amount_to_repay` from
/// `source_liquidity` (where the loan landed) back to `destination_liquidity` (the
/// reserve's liquidity supply).
pub fn receiver_callback(
    receiver_program: &Address,
    source_liquidity: &Address,
    destination_liquidity: &Address,
    token_program: &Address,
    receiver_accounts: &Vec<AccountMeta>,
    amount_to_repay: u64,
) -> (r: Instruction)
    ensures
        r@ == (
            receiver_program@,
            callback_accounts(source_liquidity@, destination_liquidity@, token_program@, receiver_accounts@),
            callback_data(amount_to_repay),
        ),
{
    let mut accounts: Vec<AccountMeta> = Vec::new();
    accounts.push(account_info_to_meta(*source_liquidity, false, true));
    accounts.push(account_info_to_meta(*destination_liquidity, false, true));
    accounts.push(account_info_to_meta(*token_program, false, false));
    let ghost fixed = accounts@;
    append_metas(&mut accounts, receiver_accounts);
    let mut data: Vec<u8> = Vec::new();
    data.push(RECEIVE_FLASH_LOAN_TAG);
    push_le_bytes(&mut data, amount_to_repay);
    assert(data@ =~= callback_data(amount_to_repay));
    assert(metas_view(accounts@) =~= metas_view(fixed) + metas_view(receiver_accounts@));
    assert(metas_view(fixed) =~= seq![
        writable(source_liquidity@),
        writable(destination_liquidity@),
        read_only(token_program@),
    ]);
    Instruction { program_id: *receiver_program, accounts, data }
}

} // verus!
