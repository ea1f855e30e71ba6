//! Flash-loan fees in basis points, rounded in the lender's favour, and the
//! repayment test that a session must pass before it settles.
use vstd::prelude::*;

verus! {

/// Basis points in one whole (100%).
pub const BASIS_POINTS_SCALE: u128 = 10_000;

/// The fee owed on `amount` at `fee_basis_points`: `amount * fee_basis_points / 10_000`,
/// rounded up.
pub open spec fn fee_of(amount: int, fee_basis_points: int) -> int {
    (amount * fee_basis_points + 9_999) / 10_000
}

/// Whether a liquidity account that held `pre_borrow_balance` before the loan and
/// `post_balance` after the receiver returned has been paid back `amount + fee`.
pub open spec fn repaid(pre_borrow_balance: int, post_balance: int, amount: int, fee: int) -> bool {
    post_balance >= pre_borrow_balance + amount + fee
}

/// The fee for borrowing `amount` from a reserve charging `fee_basis_points`,
/// rounded up so that the lender is never short-changed.
pub fn fee(amount: u64, fee_basis_points: u64) -> (r: u128)
    ensures
        r == fee_of(amount as int, fee_basis_points as int),
{
    assert(amount as int * fee_basis_points as int <= u64::MAX as int * u64::MAX as int)
        by (nonlinear_arith);
    let product = (amount as u128) * (fee_basis_points as u128);
    (product + 9_999) / BASIS_POINTS_SCALE
}

/// Whether the post-callback balance covers the pre-borrow balance plus principal
/// and fee. Surplus repayment is accepted.
pub fn is_repaid(pre_borrow_balance: u64, post_balance: u64, amount: u64, fee: u128) -> (r: bool)
    ensures
        r == repaid(pre_borrow_balance as int, post_balance as int, amount as int, fee as int),
{
    let owed_principal = pre_borrow_balance as u128 + amount as u128;
    if fee > u128::MAX - owed_principal {
        false
    } else {
        post_balance as u128 >= owed_principal + fee
    }
}

/// The fee is never below the exact proportional charge
/// `amount * fee_basis_points / 10_000`, and exceeds it by less than one unit:
/// rounding always favours the lender.
pub proof fn lemma_fee_rounds_toward_lender(amount: u64, fee_basis_points: u64)
    ensures
        fee_of(amount as int, fee_basis_points as int) * 10_000 >= amount as int * fee_basis_points as int,
        (fee_of(amount as int, fee_basis_points as int) - 1) * 10_000 < amount as int * fee_basis_points as int,
        fee_of(amount as int, fee_basis_points as int) >= amount as int * fee_basis_points as int / 10_000,
{
    let x = amount as int * fee_basis_points as int;
    assert(x >= 0) by (nonlinear_arith)
        requires amount >= 0, fee_basis_points >= 0, x == amount as int * fee_basis_points as int;
    vstd::arithmetic::div_mod::lemma_fundamental_div_mod(x + 9_999, 10_000);
    vstd::arithmetic::div_mod::lemma_fundamental_div_mod(x, 10_000);
}

/// A loan of nothing costs nothing, and its repayment check passes exactly when
/// the balance did not fall.
pub proof fn lemma_zero_amount(fee_basis_points: u64, pre_borrow_balance: u64, post_balance: u64)
    ensures
        fee_of(0, fee_basis_points as int) == 0,
        repaid(
            pre_borrow_balance as int,
            post_balance as int,
            0,
            fee_of(0, fee_basis_points as int),
        ) <==> post_balance >= pre_borrow_balance,
{
}

} // verus!
