//! What holds of the pool's operations over all inputs.

use vstd::prelude::*;
use crate::state::LiquidityPool;
use crate::state::LiquidityProvider;
use crate::state::amount_out;
use crate::state::swap_outcome;
use crate::state::grant_shares_outcome;
use crate::state::remove_shares_outcome;
use crate::state::add_liquidity_outcome;
use crate::state::deposit_shares;
use crate::state::remove_liquidity_outcome;
use crate::state::share_value;
use crate::errors::DexProgramError;

verus! {

/// A swap never pays out more than the second reserve holds.
pub proof fn lemma_swap_pays_within_reserve(reserve_one: u64, reserve_two: u64, amount_in: u64)
    requires
        reserve_one + amount_in > 0,
    ensures
        0 <= amount_out(reserve_one, reserve_two, amount_in) <= reserve_two,
{
    let x = reserve_one as int;
    let y = reserve_two as int;
    let d = amount_in as int;
    assert(0 <= y * d / (x + d) <= y) by (nonlinear_arith)
        requires
            x >= 0,
            y >= 0,
            d >= 0,
            x + d > 0,
    {
        assert(y * d <= y * (x + d));
    }
}

/// A swap whose priced amount is no more than the amount paid in never
/// lowers the product of the reserves (`x * y = k` does not decrease).
pub proof fn lemma_swap_keeps_product(pool: LiquidityPool, amount: u64, amount_after_fee: u64)
    requires
        amount_after_fee <= amount,
        swap_outcome(pool, amount, amount_after_fee).1 is Ok,
    ensures
        swap_outcome(pool, amount, amount_after_fee).0.reserve_one * swap_outcome(
            pool,
            amount,
            amount_after_fee,
        ).0.reserve_two >= pool.reserve_one * pool.reserve_two,
{
    let x = pool.reserve_one as int;
    let y = pool.reserve_two as int;
    let d = amount_after_fee as int;
    let a = amount as int;
    let out = amount_out(pool.reserve_one, pool.reserve_two, amount_after_fee);
    assert((x + a) * (y - out) >= x * y) by (nonlinear_arith)
        requires
            x >= 0,
            y >= 0,
            d >= 0,
            a >= d,
            x + d > 0,
            out == y * d / (x + d),
            out <= y,
    {
        assert((x + d) * out <= y * d);
        assert((x + a) * (y - out) >= (x + d) * (y - out));
    }
}

/// Granting shares moves them from the pool's supply to the provider: the
/// sum of the two is unchanged.
pub proof fn lemma_grant_shares_moves_supply(
    pool: LiquidityPool,
    provider: LiquidityProvider,
    shares: u64,
)
    requires
        grant_shares_outcome(pool, provider, shares).2 is Ok,
    ensures
        grant_shares_outcome(pool, provider, shares).0.total_supply + grant_shares_outcome(
            pool,
            provider,
            shares,
        ).1.shares == pool.total_supply + provider.shares,
        grant_shares_outcome(pool, provider, shares).1.shares == provider.shares + shares,
{
}

/// Removing shares takes the same number from the provider and from the
/// pool's supply.
pub proof fn lemma_remove_shares_burns_supply(
    pool: LiquidityPool,
    provider: LiquidityProvider,
    shares: u64,
)
    requires
        remove_shares_outcome(pool, provider, shares).2 is Ok,
    ensures
        remove_shares_outcome(pool, provider, shares).0.total_supply == pool.total_supply - shares,
        remove_shares_outcome(pool, provider, shares).1.shares == provider.shares - shares,
{
}

/// A deposit into a pool that has a supply earns no more shares than its
/// part of either reserve: `shares * reserve <= amount * total_supply`, and
/// the reserves grow by exactly the amounts deposited.
pub proof fn lemma_deposit_within_proportion(
    pool: LiquidityPool,
    provider: LiquidityProvider,
    amount_one: u64,
    amount_two: u64,
    first_deposit_shares: u64,
)
    requires
        pool.total_supply > 0,
        add_liquidity_outcome(pool, provider, amount_one, amount_two, first_deposit_shares).2 is Ok,
    ensures
        ({
            let after = add_liquidity_outcome(
                pool,
                provider,
                amount_one,
                amount_two,
                first_deposit_shares,
            );
            let granted = after.1.shares - provider.shares;
            &&& granted > 0
            &&& after.0.total_supply == pool.total_supply - granted
            &&& granted * pool.reserve_one <= amount_one * pool.total_supply
            &&& granted * pool.reserve_two <= amount_two * pool.total_supply
            &&& after.0.reserve_one == pool.reserve_one + amount_one
            &&& after.0.reserve_two == pool.reserve_two + amount_two
        }),
{
    let ts = pool.total_supply as int;
    let r1 = pool.reserve_one as int;
    let r2 = pool.reserve_two as int;
    let p1 = amount_one * ts;
    let p2 = amount_two * ts;
    let s = deposit_shares(pool, amount_one, amount_two, first_deposit_shares)->Ok_0 as int;
    assert(s * r1 <= p1) by (nonlinear_arith)
        requires
            r1 > 0,
            p1 >= 0,
            s <= p1 / r1,
    {
        assert((p1 / r1) * r1 <= p1);
        assert(s * r1 <= (p1 / r1) * r1);
    }
    assert(s * r2 <= p2) by (nonlinear_arith)
        requires
            r2 > 0,
            p2 >= 0,
            s <= p2 / r2,
    {
        assert((p2 / r2) * r2 <= p2);
        assert(s * r2 <= (p2 / r2) * r2);
    }
}

/// A withdrawal pays out, of each token, no more than the withdrawn shares'
/// part of the reserve, and so never more than the reserve; the reserves
/// shrink by what is paid out, and the provider and the supply each lose
/// the shares.
pub proof fn lemma_withdrawal_within_proportion(
    pool: LiquidityPool,
    provider: LiquidityProvider,
    shares: u64,
)
    requires
        remove_liquidity_outcome(pool, provider, shares).2 is Ok,
    ensures
        ({
            let after = remove_liquidity_outcome(pool, provider, shares);
            let (out_one, out_two) = after.2->Ok_0;
            &&& out_one * pool.total_supply <= shares * pool.reserve_one
            &&& out_two * pool.total_supply <= shares * pool.reserve_two
            &&& out_one <= pool.reserve_one
            &&& out_two <= pool.reserve_two
            &&& after.0.reserve_one == pool.reserve_one - out_one
            &&& after.0.reserve_two == pool.reserve_two - out_two
            &&& after.0.total_supply == pool.total_supply - shares
            &&& after.1.shares == provider.shares - shares
        }),
{
    let ts = pool.total_supply as int;
    let r1 = pool.reserve_one as int;
    let r2 = pool.reserve_two as int;
    let s = shares as int;
    let o1 = share_value(shares, pool.reserve_one, pool.total_supply);
    let o2 = share_value(shares, pool.reserve_two, pool.total_supply);
    assert(o1 * ts <= s * r1 && o1 <= r1) by (nonlinear_arith)
        requires
            ts > 0,
            s <= ts,
            r1 >= 0,
            s >= 0,
            o1 == s * r1 / ts,
    {
        assert(o1 * ts <= s * r1);
        assert(s * r1 <= ts * r1);
    }
    assert(o2 * ts <= s * r2 && o2 <= r2) by (nonlinear_arith)
        requires
            ts > 0,
            s <= ts,
            r2 >= 0,
            s >= 0,
            o2 == s * r2 / ts,
    {
        assert(o2 * ts <= s * r2);
        assert(s * r2 <= ts * r2);
    }
}

/// A refused swap leaves the pool as it was.
pub proof fn lemma_refused_swap_changes_nothing(
    pool: LiquidityPool,
    amount: u64,
    amount_after_fee: u64,
)
    requires
        swap_outcome(pool, amount, amount_after_fee).1 is Err,
    ensures
        swap_outcome(pool, amount, amount_after_fee).0 == pool,
{
}

/// A refused deposit or withdrawal leaves the reserves as they were (the
/// shares may have moved before the refusal).
pub proof fn lemma_refusals_keep_reserves(
    pool: LiquidityPool,
    provider: LiquidityProvider,
    amount_one: u64,
    amount_two: u64,
    first_deposit_shares: u64,
    shares: u64,
)
    ensures
        add_liquidity_outcome(pool, provider, amount_one, amount_two, first_deposit_shares).2 is Err
            ==> add_liquidity_outcome(
            pool,
            provider,
            amount_one,
            amount_two,
            first_deposit_shares,
        ).0.with_total_supply(pool.total_supply as int) == pool,
        remove_liquidity_outcome(pool, provider, shares).2 is Err ==> remove_liquidity_outcome(
            pool,
            provider,
            shares,
        ).0.with_total_supply(pool.total_supply as int) == pool,
{
}

/// The constant-product price grows with the amount priced: pricing more
/// never pays out less.
pub proof fn lemma_amount_out_monotone(
    reserve_in: u64,
    reserve_out: u64,
    amount_in_low: u64,
    amount_in_high: u64,
)
    requires
        amount_in_low <= amount_in_high,
        reserve_in + amount_in_low > 0,
    ensures
        amount_out(reserve_in, reserve_out, amount_in_low) <= amount_out(
            reserve_in,
            reserve_out,
            amount_in_high,
        ),
{
    let x = reserve_in as int;
    let y = reserve_out as int;
    let d1 = amount_in_low as int;
    let d2 = amount_in_high as int;
    let q1 = y * d1 / (x + d1);
    let q2 = y * d2 / (x + d2);
    assert(q1 * (x + d1) <= y * d1) by (nonlinear_arith)
        requires
            x + d1 > 0,
            q1 == y * d1 / (x + d1),
    ;
    assert(y * d1 * (x + d2) <= y * d2 * (x + d1)) by (nonlinear_arith)
        requires
            x >= 0,
            y >= 0,
            0 <= d1 <= d2,
    ;
    assert(q1 * (x + d2) <= y * d2) by (nonlinear_arith)
        requires
            x + d1 > 0,
            d1 <= d2,
            q1 >= 0,
            q1 * (x + d1) <= y * d1,
            y * d1 * (x + d2) <= y * d2 * (x + d1),
    {
        assert(q1 * (x + d1) * (x + d2) <= y * d1 * (x + d2));
        assert(q1 * (x + d2) * (x + d1) <= y * d2 * (x + d1));
    }
    assert(q1 <= q2) by (nonlinear_arith)
        requires
            x + d2 > 0,
            q1 >= 0,
            q1 * (x + d2) <= y * d2,
            q2 == y * d2 / (x + d2),
    {
        assert(y * d2 < (q2 + 1) * (x + d2));
    }
}

/// Of two swaps from one pool that both succeed, the one whose priced amount
/// (the amount after the fee) is larger pays out no less. So a larger amount
/// under one fee pays no less, and a larger fee on one amount (a smaller
/// priced amount) pays no more, while the first reserve takes the whole
/// amount paid in either way.
pub proof fn lemma_swap_payout_monotone(
    pool: LiquidityPool,
    amount_low: u64,
    amount_after_fee_low: u64,
    amount_high: u64,
    amount_after_fee_high: u64,
)
    requires
        amount_after_fee_low <= amount_after_fee_high,
        swap_outcome(pool, amount_low, amount_after_fee_low).1 is Ok,
        swap_outcome(pool, amount_high, amount_after_fee_high).1 is Ok,
    ensures
        swap_outcome(pool, amount_low, amount_after_fee_low).1->Ok_0 <= swap_outcome(
            pool,
            amount_high,
            amount_after_fee_high,
        ).1->Ok_0,
        pool.reserve_two - swap_outcome(pool, amount_low, amount_after_fee_low).0.reserve_two
            <= pool.reserve_two - swap_outcome(pool, amount_high, amount_after_fee_high).0.reserve_two,
        swap_outcome(pool, amount_low, amount_after_fee_low).0.reserve_one == pool.reserve_one
            + amount_low,
        swap_outcome(pool, amount_high, amount_after_fee_high).0.reserve_one == pool.reserve_one
            + amount_high,
{
    lemma_amount_out_monotone(
        pool.reserve_one,
        pool.reserve_two,
        amount_after_fee_low,
        amount_after_fee_high,
    );
}

/// A swap is refused exactly when nothing is paid in or a sum or product of
/// the pricing does not fit in a `u64` (or both the first reserve and the
/// priced amount are zero). Otherwise it pays out `q` with
/// `q * (x + dx) <= y * dx < (q + 1) * (x + dx)`, that is `y * dx / (x + dx)`
/// rounded down, the first reserve takes the whole amount and the second
/// pays out `q`; nothing else in the pool changes.
pub proof fn lemma_swap_result(pool: LiquidityPool, amount: u64, amount_after_fee: u64)
    ensures
        ({
            let x = pool.reserve_one as int;
            let y = pool.reserve_two as int;
            let dx = amount_after_fee as int;
            let after = swap_outcome(pool, amount, amount_after_fee);
            &&& (after.1 is Ok) <==> (amount > 0 && x + dx <= u64::MAX && y * dx <= u64::MAX && x
                + dx > 0 && x + amount <= u64::MAX)
            &&& after.1 is Ok ==> {
                let q = after.1->Ok_0 as int;
                &&& q * (x + dx) <= y * dx
                &&& y * dx < (q + 1) * (x + dx)
                &&& after.0.reserve_one == x + amount
                &&& after.0.reserve_two == y - q
                &&& after.0.total_supply == pool.total_supply
                &&& after.0.token_one == pool.token_one
                &&& after.0.token_two == pool.token_two
                &&& after.0.bump == pool.bump
            }
            &&& after.1 is Err ==> after.0 == pool
            &&& amount == 0 ==> after.1 == Err::<u64, DexProgramError>(
                DexProgramError::InvalidAmount,
            )
            &&& amount > 0 && !(after.1 is Ok) ==> after.1 == Err::<u64, DexProgramError>(
                DexProgramError::OverflowOrUnderflowOccurred,
            )
        }),
{
    let x = pool.reserve_one as int;
    let y = pool.reserve_two as int;
    let dx = amount_after_fee as int;
    if amount > 0 && x + dx <= u64::MAX && y * dx <= u64::MAX && x + dx > 0 && x + amount
        <= u64::MAX {
        lemma_swap_pays_within_reserve(pool.reserve_one, pool.reserve_two, amount_after_fee);
        let q = amount_out(pool.reserve_one, pool.reserve_two, amount_after_fee);
        assert(q * (x + dx) <= y * dx && y * dx < (q + 1) * (x + dx)) by (nonlinear_arith)
            requires
                x + dx > 0,
                y * dx >= 0,
                q == y * dx / (x + dx),
        ;
    }
}

/// A withdrawal of `shares` succeeds exactly when it withdraws some shares,
/// the provider holds them, the pool's supply covers them, the products
/// `shares * reserve` fit in a `u64` and each is worth at least one token
/// (`shares * reserve >= total_supply`). It then pays out of each reserve
/// `out` with `out * total_supply <= shares * reserve < (out + 1) *
/// total_supply`, that is the shares' part rounded down; the reserves shrink
/// by the payouts and the provider and the supply each lose the shares.
pub proof fn lemma_withdrawal_result(pool: LiquidityPool, provider: LiquidityProvider, shares: u64)
    ensures
        ({
            let ts = pool.total_supply as int;
            let r1 = pool.reserve_one as int;
            let r2 = pool.reserve_two as int;
            let s = shares as int;
            let after = remove_liquidity_outcome(pool, provider, shares);
            &&& (after.2 is Ok) <==> (0 < s && s <= provider.shares && s <= ts && s * r1
                <= u64::MAX && s * r2 <= u64::MAX && s * r1 >= ts && s * r2 >= ts)
            &&& after.2 is Ok ==> {
                let (o1, o2) = after.2->Ok_0;
                &&& o1 * ts <= s * r1 < (o1 + 1) * ts
                &&& o2 * ts <= s * r2 < (o2 + 1) * ts
                &&& after.0.reserve_one == r1 - o1
                &&& after.0.reserve_two == r2 - o2
                &&& after.0.total_supply == ts - s
                &&& after.1.shares == provider.shares - s
                &&& after.0.token_one == pool.token_one
                &&& after.0.token_two == pool.token_two
                &&& after.0.bump == pool.bump
            }
        }),
{
    let ts = pool.total_supply as int;
    let r1 = pool.reserve_one as int;
    let r2 = pool.reserve_two as int;
    let s = shares as int;
    if 0 < s && s <= provider.shares && s * r1 <= u64::MAX && s * r2 <= u64::MAX && ts > 0 {
        let o1 = share_value(shares, pool.reserve_one, pool.total_supply);
        let o2 = share_value(shares, pool.reserve_two, pool.total_supply);
        assert(o1 * ts <= s * r1 < (o1 + 1) * ts && (o1 == 0 <==> s * r1 < ts)) by (
        nonlinear_arith)
            requires
                ts > 0,
                s * r1 >= 0,
                o1 == s * r1 / ts,
        ;
        assert(o2 * ts <= s * r2 < (o2 + 1) * ts && (o2 == 0 <==> s * r2 < ts)) by (
        nonlinear_arith)
            requires
                ts > 0,
                s * r2 >= 0,
                o2 == s * r2 / ts,
        ;
        if s <= ts {
            assert(o1 <= r1 && o2 <= r2) by (nonlinear_arith)
                requires
                    ts > 0,
                    0 <= s <= ts,
                    r1 >= 0,
                    r2 >= 0,
                    o1 * ts <= s * r1,
                    o2 * ts <= s * r2,
            {
                assert(s * r1 <= ts * r1);
                assert(s * r2 <= ts * r2);
            }
        }
    }
}

/// A deposit into a pool that has a supply earns exactly the smaller of the
/// two proportional shares, `amount * total_supply / reserve` rounded down:
/// no more than either (`granted * reserve <= amount * total_supply`) and,
/// for the token that limits it, one more would be too many. It succeeds
/// exactly when the products fit, both reserves are non-empty, the shares
/// earned are positive, fit beside the provider's and are covered by the
/// supply, and the new reserves fit. On success the provider gains the
/// shares, the supply loses them and the reserves grow by the amounts.
pub proof fn lemma_deposit_result(
    pool: LiquidityPool,
    provider: LiquidityProvider,
    amount_one: u64,
    amount_two: u64,
    first_deposit_shares: u64,
)
    requires
        pool.total_supply > 0,
    ensures
        ({
            let ts = pool.total_supply as int;
            let r1 = pool.reserve_one as int;
            let r2 = pool.reserve_two as int;
            let a1 = amount_one as int;
            let a2 = amount_two as int;
            let after = add_liquidity_outcome(
                pool,
                provider,
                amount_one,
                amount_two,
                first_deposit_shares,
            );
            let fits = a1 * ts <= u64::MAX && a2 * ts <= u64::MAX && r1 > 0 && r2 > 0;
            let earned = if a1 * ts / r1 <= a2 * ts / r2 {
                a1 * ts / r1
            } else {
                a2 * ts / r2
            };
            &&& (after.2 is Ok) <==> (fits && earned > 0 && provider.shares + earned <= u64::MAX
                && earned <= ts && r1 + a1 <= u64::MAX && r2 + a2 <= u64::MAX)
            &&& after.2 is Ok ==> {
                let granted = after.1.shares - provider.shares;
                &&& granted == earned
                &&& granted * r1 <= a1 * ts
                &&& granted * r2 <= a2 * ts
                &&& (granted + 1) * r1 > a1 * ts || (granted + 1) * r2 > a2 * ts
                &&& after.0.total_supply == ts - granted
                &&& after.0.reserve_one == r1 + a1
                &&& after.0.reserve_two == r2 + a2
                &&& after.0.token_one == pool.token_one
                &&& after.0.token_two == pool.token_two
                &&& after.0.bump == pool.bump
            }
        }),
{
    let ts = pool.total_supply as int;
    let r1 = pool.reserve_one as int;
    let r2 = pool.reserve_two as int;
    let a1 = amount_one as int;
    let a2 = amount_two as int;
    if a1 * ts <= u64::MAX && a2 * ts <= u64::MAX && r1 > 0 && r2 > 0 {
        let q1 = a1 * ts / r1;
        let q2 = a2 * ts / r2;
        assert(q1 * r1 <= a1 * ts < (q1 + 1) * r1 && q1 >= 0) by (nonlinear_arith)
            requires
                r1 > 0,
                a1 * ts >= 0,
                q1 == a1 * ts / r1,
        ;
        assert(q2 * r2 <= a2 * ts < (q2 + 1) * r2 && q2 >= 0) by (nonlinear_arith)
            requires
                r2 > 0,
                a2 * ts >= 0,
                q2 == a2 * ts / r2,
        ;
        if q1 <= q2 {
            assert(q1 * r2 <= q2 * r2) by (nonlinear_arith)
                requires
                    q1 <= q2,
                    r2 > 0,
            ;
        } else {
            assert(q2 * r1 <= q1 * r1) by (nonlinear_arith)
                requires
                    q2 <= q1,
                    r1 > 0,
            ;
        }
    }
}

/// Granting shares succeeds exactly when the provider's new total fits in a
/// `u64` and the supply covers the shares; removing shares succeeds exactly
/// when the provider holds them and the supply covers them.
pub proof fn lemma_share_moves_succeed(
    pool: LiquidityPool,
    provider: LiquidityProvider,
    shares: u64,
)
    ensures
        (grant_shares_outcome(pool, provider, shares).2 is Ok) <==> (provider.shares + shares
            <= u64::MAX && shares <= pool.total_supply),
        (remove_shares_outcome(pool, provider, shares).2 is Ok) <==> (shares <= provider.shares
            && shares <= pool.total_supply),
{
}

} // verus!
