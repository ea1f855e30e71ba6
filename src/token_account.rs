//! Reading an SPL token account's owner and balance from its bytes: mint (32 bytes),
//! owner (32 bytes), then the amount as a little-endian `u64`.
use vstd::prelude::*;
use vstd::bytes::{spec_u64_from_le_bytes, u64_from_le_bytes};
use vstd::slice::slice_subrange;
use crate::address::Address;

verus! {

/// Length in bytes of a token account.
pub const TOKEN_ACCOUNT_LEN: usize = 165;

/// Offset of the owner field.
pub const OWNER_OFFSET: usize = 32;

/// Offset of the amount field.
pub const AMOUNT_OFFSET: usize = 64;

/// The owner of the token account held in `data`, or `None` when `data` is too short
/// to be a token account.
pub fn token_account_owner(data: &[u8]) -> (r: Option<Address>)
    ensures
        r is None <==> data@.len() < TOKEN_ACCOUNT_LEN,
        r matches Some(a) ==> a@ == data@.subrange(OWNER_OFFSET as int, AMOUNT_OFFSET as int),
{
    if data.len() < TOKEN_ACCOUNT_LEN {
        return None;
    }
    let mut bytes = [0u8; 32];
    let mut i: usize = 0;
    while i < 32
        invariant
            i <= 32,
            data@.len() >= TOKEN_ACCOUNT_LEN,
            forall|k: int| 0 <= k < i ==> bytes@[k] == data@[OWNER_OFFSET + k],
        decreases 32 - i,
    {
        bytes[i] = data[OWNER_OFFSET + i];
        i = i + 1;
    }
    let owner = Address::new(bytes);
    assert(owner@ =~= data@.subrange(OWNER_OFFSET as int, AMOUNT_OFFSET as int));
    Some(owner)
}

/// The balance of the token account held in `data`, or `None` when `data` is too short
/// to be a token account.
pub fn token_account_amount(data: &[u8]) -> (r: Option<u64>)
    ensures
        r is None <==> data@.len() < TOKEN_ACCOUNT_LEN,
        r matches Some(x) ==> x == spec_u64_from_le_bytes(
            data@.subrange(AMOUNT_OFFSET as int, AMOUNT_OFFSET + 8),
        ),
{
    if data.len() < TOKEN_ACCOUNT_LEN {
        return None;
    }
    let field = slice_subrange(data, AMOUNT_OFFSET, AMOUNT_OFFSET + 8);
    Some(u64_from_le_bytes(field))
}

} // verus!
