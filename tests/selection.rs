use flashaggregator::address::Address;
use flashaggregator::fee::{fee, is_repaid};
use flashaggregator::registry::{flashfee, maxflashloan, ReserveDescriptor, ReserveRegistry};

fn addr(n: u8) -> Address {
    Address::new([n; 32])
}

fn reserve(tag: u8, fee_basis_points: u64, liquidity: u64) -> ReserveDescriptor {
    ReserveDescriptor {
        backend_id: tag as u64,
        program_address: addr(100 + tag),
        reserve: addr(tag),
        lending_market: addr(150 + tag),
        liquidity_mint: addr(1),
        liquidity_supply: addr(50 + tag),
        collateral_mint: addr(70 + tag),
        fee_receiver: addr(200 + tag),
        price_oracle: addr(230 + tag),
        fee_basis_points,
        available_liquidity: liquidity,
        last_refreshed_slot: 100,
        max_staleness_slots: 10,
    }
}

#[test]
fn two_reserves_cheapest_with_enough_liquidity() {
    let a = reserve(10, 30, 1000);
    let b = reserve(11, 10, 500);
    let registry = ReserveRegistry::new(vec![a, b]);

    let order = registry.list_eligible(&addr(1), 400, 105);
    assert_eq!(order, vec![1, 0]);
    assert_eq!(registry.get(order[0]), b);
    assert_eq!(fee(400, b.fee_basis_points), 1);
    assert_eq!(flashfee(&registry, &addr(1), 400, 105), Some(1));

    let order = registry.list_eligible(&addr(1), 600, 105);
    assert_eq!(order, vec![0]);
    assert_eq!(registry.get(order[0]), a);
    assert_eq!(fee(600, a.fee_basis_points), 2);
    assert_eq!(flashfee(&registry, &addr(1), 600, 105), Some(2));
}

#[test]
fn ranking_breaks_ties_by_liquidity_then_position() {
    let registry = ReserveRegistry::new(vec![
        reserve(1, 20, 700),
        reserve(2, 5, 300),
        reserve(3, 20, 900),
        reserve(4, 20, 700),
        reserve(5, 5, 300),
    ]);
    assert_eq!(registry.list_eligible(&addr(1), 100, 100), vec![1, 4, 2, 0, 3]);
    let order = registry.list_eligible(&addr(1), 500, 100);
    assert_eq!(order, vec![2, 0, 3]);
    for w in order.windows(2) {
        assert!(registry.get(w[0]).fee_basis_points <= registry.get(w[1]).fee_basis_points);
    }
}

#[test]
fn ineligible_reserves_are_left_out() {
    let mut stale = reserve(1, 1, 1000);
    stale.last_refreshed_slot = 10;
    let mut other_asset = reserve(2, 1, 1000);
    other_asset.liquidity_mint = addr(9);
    let shallow = reserve(3, 1, 10);
    let good = reserve(4, 50, 1000);
    let registry = ReserveRegistry::new(vec![stale, other_asset, shallow, good]);
    assert_eq!(registry.list_eligible(&addr(1), 100, 105), vec![3]);
    // at the staleness limit the reserve still counts; one slot later it does not
    assert_eq!(registry.list_eligible(&addr(1), 100, 110), vec![3]);
    assert_eq!(registry.list_eligible(&addr(1), 100, 111), Vec::<usize>::new());
}

#[test]
fn nothing_eligible_gives_empty_list() {
    let registry = ReserveRegistry::new(vec![reserve(1, 30, 1000), reserve(2, 10, 500)]);
    assert!(registry.list_eligible(&addr(1), 1001, 100).is_empty());
    assert_eq!(flashfee(&registry, &addr(1), 1001, 100), None);
    let empty = ReserveRegistry::new(vec![]);
    assert!(empty.list_eligible(&addr(1), 0, 0).is_empty());
    assert_eq!(empty.len(), 0);
}

#[test]
fn max_flash_loan_is_deepest_fresh_liquidity() {
    let mut stale = reserve(3, 1, 5000);
    stale.last_refreshed_slot = 0;
    let registry = ReserveRegistry::new(vec![reserve(1, 30, 1000), reserve(2, 10, 500), stale]);
    assert_eq!(maxflashloan(&registry, &addr(1), 100), 1000);
    assert_eq!(maxflashloan(&registry, &addr(2), 100), 0);
}

#[test]
fn fee_rounds_up() {
    assert_eq!(fee(0, 30), 0);
    assert_eq!(fee(1, 1), 1);
    assert_eq!(fee(10_000, 1), 1);
    assert_eq!(fee(10_001, 1), 2);
    assert_eq!(fee(1_000_000, 9), 900);
    assert_eq!(fee(1_000_000, 0), 0);
    assert_eq!(fee(u64::MAX, u64::MAX), 34028236692093846342648111928434911);
    for amount in [0u64, 1, 7, 399, 400, 9_999, 123_456_789] {
        for bps in [0u64, 1, 9, 10, 30, 10_000, 65_535] {
            let f = fee(amount, bps);
            let exact = amount as u128 * bps as u128;
            assert!(f * 10_000 >= exact);
            assert!(f == 0 || (f - 1) * 10_000 < exact);
        }
    }
}

#[test]
fn repayment_check() {
    assert!(is_repaid(50, 50, 0, 0));
    assert!(is_repaid(50, 51, 0, 0));
    assert!(!is_repaid(50, 49, 0, 0));
    assert!(is_repaid(1000, 1401, 400, 1));
    assert!(is_repaid(1000, 1500, 400, 1));
    assert!(!is_repaid(1000, 1400, 400, 1));
    assert!(!is_repaid(0, u64::MAX, u64::MAX, 1));
    assert!(!is_repaid(0, u64::MAX, 0, u128::MAX));
}
