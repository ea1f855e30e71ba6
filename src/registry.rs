//! The configured lending reserves and the query that ranks those able to serve
//! a loan: cheapest fee first, then deepest liquidity, then configured order.
use vstd::prelude::*;
use crate::address::Address;
use crate::fee::{fee, fee_of};

verus! {

/// What the aggregator knows of one lending reserve, as last refreshed.
#[derive(Clone, Copy, Debug, PartialEq, Eq)]
pub struct ReserveDescriptor {
    /// Identifier of the lending backend the reserve belongs to.
    pub backend_id: u64,
    /// The lending backend's program.
    pub program_address: Address,
    /// The reserve account.
    pub reserve: Address,
    /// The lending market the reserve belongs to.
    pub lending_market: Address,
    /// Mint of the asset the reserve lends.
    pub liquidity_mint: Address,
    /// The reserve's liquidity supply token account, the source of loans.
    pub liquidity_supply: Address,
    /// Mint of the collateral tokens the reserve issues for deposits.
    pub collateral_mint: Address,
    /// The account that receives the reserve's flash-loan fees.
    pub fee_receiver: Address,
    /// The price oracle account read when the reserve is refreshed.
    pub price_oracle: Address,
    /// Flash-loan fee in basis points.
    pub fee_basis_points: u64,
    /// Balance of the liquidity supply account.
    pub available_liquidity: u64,
    /// Slot at which the reserve was last refreshed.
    pub last_refreshed_slot: u64,
    /// How many slots after a refresh the reserve's data may still be used.
    pub max_staleness_slots: u64,
}

impl ReserveDescriptor {
    /// The reserve's data is recent enough to be used at slot `now`.
    pub open spec fn is_fresh(&self, now: u64) -> bool {
        now <= self.last_refreshed_slot + self.max_staleness_slots
    }

    /// The reserve may serve a loan of `amount` of `asset` at slot `now`.
    pub open spec fn is_eligible(&self, asset: Seq<u8>, amount: u64, now: u64) -> bool {
        &&& self.liquidity_mint@ == asset
        &&& self.available_liquidity >= amount
        &&& self.is_fresh(now)
    }

    /// Whether the reserve's data is recent enough to be used at slot `now`.
    pub fn fresh_at(&self, now: u64) -> (r: bool)
        ensures
            r == self.is_fresh(now),
    {
        (now as u128) <= (self.last_refreshed_slot as u128) + (self.max_staleness_slots as u128)
    }

    /// Whether the reserve may serve a loan of `amount` of `asset` at slot `now`.
    pub fn eligible_for(&self, asset: &Address, amount: u64, now: u64) -> (r: bool)
        ensures
            r == self.is_eligible(asset@, amount, now),
    {
        self.liquidity_mint.same_as(asset) && self.available_liquidity >= amount && self.fresh_at(now)
    }
}

/// The reserve at position `i` ranks ahead of the one at position `j`: a lower fee,
/// or the same fee and more liquidity, or both equal and configured earlier.
pub open spec fn ranks_ahead(reserves: Seq<ReserveDescriptor>, i: int, j: int) -> bool {
    let a = reserves[i];
    let b = reserves[j];
    ||| a.fee_basis_points < b.fee_basis_points
    ||| a.fee_basis_points == b.fee_basis_points && a.available_liquidity > b.available_liquidity
    ||| a.fee_basis_points == b.fee_basis_points && a.available_liquidity == b.available_liquidity
        && i < j
}

/// `order` lists the positions of exactly the reserves eligible for the request,
/// each once, best ranked first.
pub open spec fn is_ranking(
    reserves: Seq<ReserveDescriptor>,
    asset: Seq<u8>,
    amount: u64,
    now: u64,
    order: Seq<usize>,
) -> bool {
    &&& forall|k: int|
        0 <= k < order.len() ==> #[trigger] order[k] < reserves.len() && reserves[order[k] as int].is_eligible(
            asset,
            amount,
            now,
        )
    &&& forall|p: int|
        0 <= p < reserves.len() && (#[trigger] reserves[p]).is_eligible(asset, amount, now)
            ==> exists|k: int| 0 <= k < order.len() && #[trigger] order[k] as int == p
    &&& forall|k: int, l: int|
        0 <= k < l < order.len() ==> ranks_ahead(reserves, #[trigger] order[k] as int, #[trigger] order[l] as int)
}

/// The set of reserves configured for the aggregator, in priority order.
pub struct ReserveRegistry {
    reserves: Vec<ReserveDescriptor>,
}

impl View for ReserveRegistry {
    type V = Seq<ReserveDescriptor>;

    closed spec fn view(&self) -> Seq<ReserveDescriptor> {
        self.reserves@
    }
}

impl ReserveRegistry {
    /// A registry holding `reserves`; their order is the tie-breaking priority.
    pub fn new(reserves: Vec<ReserveDescriptor>) -> (r: ReserveRegistry)
        ensures
            r@ == reserves@,
    {
        ReserveRegistry { reserves }
    }

    /// Number of configured reserves.
    pub fn len(&self) -> (r: usize)
        ensures
            r == self@.len(),
    {
        self.reserves.len()
    }

    /// The reserve at position `i`.
    pub fn get(&self, i: usize) -> (r: ReserveDescriptor)
        requires
            i < self@.len(),
        ensures
            r == self@[i as int],
    {
        self.reserves[i]
    }

    /// Whether the reserve at `i` ranks ahead of the reserve at `j`.
    fn ahead(&self, i: usize, j: usize) -> (r: bool)
        requires
            i < self@.len(),
            j < self@.len(),
        ensures
            r == ranks_ahead(self@, i as int, j as int),
    {
        let a = &self.reserves[i];
        let b = &self.reserves[j];
        if a.fee_basis_points != b.fee_basis_points {
            a.fee_basis_points < b.fee_basis_points
        } else if a.available_liquidity != b.available_liquidity {
            a.available_liquidity > b.available_liquidity
        } else {
            i < j
        }
    }

    /// Positions of the reserves able to serve a loan of `amount` of `asset` at slot
    /// `now`, best ranked first: ascending fee, then descending liquidity, then
    /// configured order. Reserves that fail the liquidity or freshness test are left
    /// out; an empty result means no reserve qualifies.
    pub fn list_eligible(&self, asset: &Address, amount: u64, now: u64) -> (r: Vec<usize>)
        ensures
            is_ranking(self@, asset@, amount, now, r@),
    {
        let n = self.reserves.len();
        let mut order: Vec<usize> = Vec::new();
        let mut p: usize = 0;
        while p < n
            invariant
                n == self@.len(),
                p <= n,
                forall|k: int|
                    0 <= k < order@.len() ==> #[trigger] order@[k] < p && self@[
                        order@[k] as int
                    ].is_eligible(asset@, amount, now),
                forall|q: int|
                    0 <= q < p && (#[trigger] self@[q]).is_eligible(asset@, amount, now)
                        ==> exists|k: int| 0 <= k < order@.len() && #[trigger] order@[k] as int == q,
                forall|k: int, l: int|
                    0 <= k < l < order@.len() ==> ranks_ahead(
                        self@,
                        #[trigger] order@[k] as int,
                        #[trigger] order@[l] as int,
                    ),
            decreases n - p,
        {
            if self.reserves[p].eligible_for(asset, amount, now) {
                let mut k: usize = 0;
                while k < order.len() && !self.ahead(p, order[k])
                    invariant
                        n == self@.len(),
                        p < n,
                        k <= order@.len(),
                        forall|m: int| 0 <= m < order@.len() ==> #[trigger] order@[m] < p,
                        forall|m: int|
                            0 <= m < k ==> !ranks_ahead(self@, p as int, #[trigger] order@[m] as int),
                    decreases order@.len() - k,
                {
                    k = k + 1;
                }
                let ghost before = order@;
                proof {
                    assert forall|m: int| k <= m < before.len() implies ranks_ahead(
                        self@,
                        p as int,
                        #[trigger] before[m] as int,
                    ) by {
                        if m > k {
                            assert(ranks_ahead(self@, before[k as int] as int, before[m] as int));
                        }
                    }
                    assert forall|m: int| 0 <= m < k implies ranks_ahead(
                        self@,
                        #[trigger] before[m] as int,
                        p as int,
                    ) by {
                        assert(!ranks_ahead(self@, p as int, before[m] as int));
                        assert(before[m] < p);
                    }
                }
                order.insert(k, p);
                proof {
                    let after = order@;
                    assert(after == before.insert(k as int, p));
                    assert forall|a: int, b: int| 0 <= a < b < after.len() implies ranks_ahead(
                        self@,
                        #[trigger] after[a] as int,
                        #[trigger] after[b] as int,
                    ) by {
                        if b < k {
                            assert(after[a] == before[a] && after[b] == before[b]);
                        } else if b == k {
                            assert(after[a] == before[a]);
                        } else if a < k {
                            assert(after[a] == before[a] && after[b] == before[b - 1]);
                        } else if a == k {
                            assert(after[b] == before[b - 1]);
                        } else {
                            assert(after[a] == before[a - 1] && after[b] == before[b - 1]);
                        }
                    }
                    assert forall|q: int|
                        0 <= q < p + 1 && (#[trigger] self@[q]).is_eligible(asset@, amount, now)
                            implies exists|j: int| 0 <= j < after.len() && #[trigger] after[j] as int == q by {
                        if q == p {
                            assert(after[k as int] == p);
                        } else {
                            let i = choose|i: int| 0 <= i < before.len() && #[trigger] before[i] as int == q;
                            if i < k {
                                assert(after[i] == before[i]);
                            } else {
                                assert(after[i + 1] == before[i]);
                            }
                        }
                    }
                    assert forall|m: int| 0 <= m < after.len() implies #[trigger] after[m] < p + 1
                        && self@[after[m] as int].is_eligible(asset@, amount, now) by {
                        if m < k {
                            assert(after[m] == before[m]);
                        } else if m > k {
                            assert(after[m] == before[m - 1]);
                        }
                    }
                }
            }
            p = p + 1;
        }
        order
    }
}

/// The reserve may lend `asset` at slot `now`, whatever the amount.
pub open spec fn lends(reserve: ReserveDescriptor, asset: Seq<u8>, now: u64) -> bool {
    reserve.liquidity_mint@ == asset && reserve.is_fresh(now)
}

/// No configured reserve is eligible for the request.
pub open spec fn none_eligible(reserves: Seq<ReserveDescriptor>, asset: Seq<u8>, amount: u64, now: u64) -> bool {
    forall|p: int| 0 <= p < reserves.len() ==> !(#[trigger] reserves[p]).is_eligible(asset, amount, now)
}

/// The fee rate `bps` is the lowest among the reserves eligible for the request, and
/// some eligible reserve charges it.
pub open spec fn is_lowest_eligible_fee(
    reserves: Seq<ReserveDescriptor>,
    asset: Seq<u8>,
    amount: u64,
    now: u64,
    bps: u64,
) -> bool {
    &&& exists|p: int|
        0 <= p < reserves.len() && (#[trigger] reserves[p]).is_eligible(asset, amount, now)
            && reserves[p].fee_basis_points == bps
    &&& forall|p: int|
        0 <= p < reserves.len() && (#[trigger] reserves[p]).is_eligible(asset, amount, now)
            ==> bps <= reserves[p].fee_basis_points
}

/// Fees never decrease along a ranking; its head charges the lowest fee among all
/// reserves eligible for the request; and it is empty exactly when none is eligible.
pub proof fn lemma_ranking_cheapest_first(
    reserves: Seq<ReserveDescriptor>,
    asset: Seq<u8>,
    amount: u64,
    now: u64,
    order: Seq<usize>,
)
    requires
        is_ranking(reserves, asset, amount, now, order),
    ensures
        forall|k: int, l: int|
            0 <= k < l < order.len() ==> reserves[#[trigger] order[k] as int].fee_basis_points
                <= reserves[#[trigger] order[l] as int].fee_basis_points,
        order.len() > 0 ==> is_lowest_eligible_fee(
            reserves,
            asset,
            amount,
            now,
            reserves[order[0] as int].fee_basis_points,
        ),
        order.len() == 0 <==> none_eligible(reserves, asset, amount, now),
{
    assert forall|k: int, l: int| 0 <= k < l < order.len() implies reserves[#[trigger] order[k] as int].fee_basis_points
        <= reserves[#[trigger] order[l] as int].fee_basis_points by {
        assert(ranks_ahead(reserves, order[k] as int, order[l] as int));
    }
    if order.len() > 0 {
        let head = order[0] as int;
        assert(0 <= head < reserves.len() && reserves[head].is_eligible(asset, amount, now));
        assert forall|p: int|
            0 <= p < reserves.len() && (#[trigger] reserves[p]).is_eligible(asset, amount, now)
                implies reserves[head].fee_basis_points <= reserves[p].fee_basis_points by {
            let i = choose|i: int| 0 <= i < order.len() && #[trigger] order[i] as int == p;
            if i > 0 {
                assert(ranks_ahead(reserves, order[0] as int, order[i] as int));
            }
        }
        assert(!none_eligible(reserves, asset, amount, now)) by {
            assert(!(reserves[head]).is_eligible(asset, amount, now) ==> false);
        }
    } else {
        assert forall|p: int| 0 <= p < reserves.len() implies !(#[trigger] reserves[p]).is_eligible(asset, amount, now) by {
            if reserves[p].is_eligible(asset, amount, now) {
                let i = choose|i: int| 0 <= i < order.len() && #[trigger] order[i] as int == p;
            }
        }
    }
}

/// The largest loan of `asset` that any configured reserve could serve at slot
/// `now`: the deepest liquidity among fresh reserves of that asset, or 0 if none.
pub fn maxflashloan(registry: &ReserveRegistry, asset: &Address, now: u64) -> (r: u64)
    ensures
        forall|p: int|
            0 <= p < registry@.len() && lends(#[trigger] registry@[p], asset@, now)
                ==> registry@[p].available_liquidity <= r,
        r == 0 || exists|p: int|
            0 <= p < registry@.len() && lends(#[trigger] registry@[p], asset@, now)
                && registry@[p].available_liquidity == r,
{
    let n = registry.len();
    let mut best: u64 = 0;
    let mut i: usize = 0;
    while i < n
        invariant
            n == registry@.len(),
            i <= n,
            forall|p: int|
                0 <= p < i && lends(#[trigger] registry@[p], asset@, now)
                    ==> registry@[p].available_liquidity <= best,
            best == 0 || exists|p: int|
                0 <= p < i && lends(#[trigger] registry@[p], asset@, now)
                    && registry@[p].available_liquidity == best,
        decreases n - i,
    {
        let reserve = registry.get(i);
        if reserve.liquidity_mint.same_as(asset) && reserve.fresh_at(now)
            && reserve.available_liquidity > best {
            best = reserve.available_liquidity;
            assert(lends(registry@[i as int], asset@, now));
        }
        i = i + 1;
    }
    best
}

/// The fee the cheapest eligible reserve would charge for a loan of `amount` of
/// `asset` at slot `now`, or `None` when no reserve is eligible.
pub fn flashfee(registry: &ReserveRegistry, asset: &Address, amount: u64, now: u64) -> (r: Option<u128>)
    ensures
        r is None <==> none_eligible(registry@, asset@, amount, now),
        r matches Some(f) ==> exists|bps: u64|
            is_lowest_eligible_fee(registry@, asset@, amount, now, bps) && f == fee_of(
                amount as int,
                bps as int,
            ),
{
    let order = registry.list_eligible(asset, amount, now);
    proof {
        lemma_ranking_cheapest_first(registry@, asset@, amount, now, order@);
    }
    if order.len() == 0 {
        None
    } else {
        let best = registry.get(order[0]);
        Some(fee(amount, best.fee_basis_points))
    }
}

/// Position `p` holds the best-ranked reserve eligible for the request: it ranks ahead
/// of every other eligible reserve.
pub open spec fn is_top_ranked(reserves: Seq<ReserveDescriptor>, asset: Seq<u8>, amount: u64, now: u64, p: int) -> bool {
    &&& 0 <= p < reserves.len()
    &&& reserves[p].is_eligible(asset, amount, now)
    &&& forall|q: int|
        0 <= q < reserves.len() && q != p && (#[trigger] reserves[q]).is_eligible(asset, amount, now)
            ==> ranks_ahead(reserves, p, q)
}

/// The head of a non-empty ranking is the top-ranked eligible reserve.
pub proof fn lemma_head_is_top_ranked(
    reserves: Seq<ReserveDescriptor>,
    asset: Seq<u8>,
    amount: u64,
    now: u64,
    order: Seq<usize>,
)
    requires
        is_ranking(reserves, asset, amount, now, order),
        order.len() > 0,
    ensures
        is_top_ranked(reserves, asset, amount, now, order[0] as int),
{
    assert forall|q: int|
        0 <= q < reserves.len() && q != order[0] as int && (#[trigger] reserves[q]).is_eligible(asset, amount, now)
            implies ranks_ahead(reserves, order[0] as int, q) by {
        let i = choose|i: int| 0 <= i < order.len() && #[trigger] order[i] as int == q;
        assert(ranks_ahead(reserves, order[0] as int, order[i] as int));
    }
}

/// When no configured reserve holds at least `amount`, none is eligible.
pub proof fn lemma_short_liquidity_none_eligible(
    reserves: Seq<ReserveDescriptor>,
    asset: Seq<u8>,
    amount: u64,
    now: u64,
)
    requires
        forall|p: int| 0 <= p < reserves.len() ==> (#[trigger] reserves[p]).available_liquidity < amount,
    ensures
        none_eligible(reserves, asset, amount, now),
{
}

} // verus!
