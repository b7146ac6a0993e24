//! The pool's accounts and the rules by which deposits, withdrawals and
//! swaps change them.

use vstd::prelude::*;
use crate::errors::DexProgramError;
use crate::pubkey::Pubkey;
use crate::pubkey::bytes_greater;
use crate::pubkey::base58_text;

verus! {

/// A liquidity provider's account: the shares it holds in one pool.
#[derive(Clone, Copy, Debug)]
pub struct LiquidityProvider {
    pub shares: u64,
}

impl LiquidityProvider {
    pub const SEED_PREFIX: &'static str = "LiqudityProvider";

    // Discriminator (8) + shares (8)
    pub const ACCOUNT_SIZE: usize = 8 + 8;
}

/// A pool of two tokens: their mints, the supply of shares, the reserves of
/// each token, and the bump of the pool's address.
#[derive(Clone, Copy, Debug)]
pub struct LiquidityPool {
    pub token_one: Pubkey,
    pub token_two: Pubkey,
    pub total_supply: u64,
    pub reserve_one: u64,
    pub reserve_two: u64,
    pub bump: u8,
}

/// The seed text of a pool of the two tokens, given the base58 text of each:
/// the text of the greater address comes first.
pub open spec fn seed_text(
    token_one: Seq<u8>,
    token_two: Seq<u8>,
    text_one: Seq<char>,
    text_two: Seq<char>,
) -> Seq<char> {
    if bytes_greater(token_one, token_two) {
        text_one + text_two
    } else {
        text_two + text_one
    }
}

impl LiquidityPool {
    pub const POOL_SEED_PREFIX: &'static str = "liquidity_pool";

    // Discriminator (8) + Pubkey (32) + Pubkey (32) + totalsupply (8)
    // + reserve one (8) + reserve two (8) + Bump (1)
    pub const ACCOUNT_SIZE: usize = 8 + 32 + 32 + 8 + 8 + 8 + 1;

    /// This pool with another supply of shares.
    pub open spec fn with_total_supply(self, total_supply: int) -> LiquidityPool {
        LiquidityPool { total_supply: total_supply as u64, ..self }
    }

    /// This pool with other reserves.
    pub open spec fn with_reserves(self, reserve_one: int, reserve_two: int) -> LiquidityPool {
        LiquidityPool { reserve_one: reserve_one as u64, reserve_two: reserve_two as u64, ..self }
    }

    /// Joins the base58 texts of the two tokens into the pool's seed text.
    pub fn join_seed(token_one: &Pubkey, token_two: &Pubkey, text_one: &str, text_two: &str) -> (seed:
        String)
        ensures
            seed@ == seed_text(token_one.bytes@, token_two.bytes@, text_one@, text_two@),
    {
        let mut seed = String::new();
        if token_one.greater_than(token_two) {
            seed.append(text_one);
            seed.append(text_two);
        } else {
            seed.append(text_two);
            seed.append(text_one);
        }
        seed
    }

    /// The seed text of the pool of the two tokens.
    pub fn generate_seed(token_one: Pubkey, token_two: Pubkey) -> (seed: String)
        ensures
            seed@ == seed_text(
                token_one.bytes@,
                token_two.bytes@,
                base58_text(token_one.bytes@),
                base58_text(token_two.bytes@),
            ),
    {
        let text_one = token_one.to_base58();
        let text_two = token_two.to_base58();
        Self::join_seed(&token_one, &token_two, text_one.as_str(), text_two.as_str())
    }

    /// A new, empty pool of the two tokens.
    pub fn new(token_one: Pubkey, token_two: Pubkey, bump: u8) -> (pool: Self)
        ensures
            pool.token_one == token_one,
            pool.token_two == token_two,
            pool.total_supply == 0,
            pool.reserve_one == 0,
            pool.reserve_two == 0,
            pool.bump == bump,
    {
        Self {
            token_one: token_one,
            token_two: token_two,
            total_supply: 0_u64,
            reserve_one: 0_u64,
            reserve_two: 0_u64,
            bump: bump,
        }
    }
}

/// Granting `shares` to a provider: the provider's shares grow by them and
/// the pool's supply shrinks by them. The pool, the provider and the result
/// after the grant; where the supply cannot shrink by that much, the
/// provider keeps the shares it was already given.
pub open spec fn grant_shares_outcome(
    pool: LiquidityPool,
    provider: LiquidityProvider,
    shares: u64,
) -> (LiquidityPool, LiquidityProvider, Result<(), DexProgramError>) {
    if provider.shares + shares > u64::MAX {
        (pool, provider, Err(DexProgramError::FailedToAllocateShares))
    } else {
        let granted = LiquidityProvider { shares: (provider.shares + shares) as u64 };
        if pool.total_supply < shares {
            (pool, granted, Err(DexProgramError::OverflowOrUnderflowOccurred))
        } else {
            (pool.with_total_supply(pool.total_supply - shares), granted, Ok(()))
        }
    }
}

/// Taking `shares` back from a provider: the provider's shares and the pool's
/// supply both shrink by them. The pool, the provider and the result after
/// the removal; where the supply cannot shrink by that much, the provider
/// has already lost the shares.
pub open spec fn remove_shares_outcome(
    pool: LiquidityPool,
    provider: LiquidityProvider,
    shares: u64,
) -> (LiquidityPool, LiquidityProvider, Result<(), DexProgramError>) {
    if provider.shares < shares {
        (pool, provider, Err(DexProgramError::FailedToDeallocateShares))
    } else {
        let removed = LiquidityProvider { shares: (provider.shares - shares) as u64 };
        if pool.total_supply < shares {
            (pool, removed, Err(DexProgramError::OverflowOrUnderflowOccurred))
        } else {
            (pool.with_total_supply(pool.total_supply - shares), removed, Ok(()))
        }
    }
}

/// The smaller of two integers.
pub open spec fn min_int(a: int, b: int) -> int {
    if a <= b {
        a
    } else {
        b
    }
}

/// The shares that a deposit of the two amounts earns: `first_deposit_shares`
/// while the pool has no supply, else the smaller of the two proportional
/// shares `amount * total_supply / reserve`, rounded down. An error where a
/// product does not fit in a `u64` or a reserve is zero.
pub open spec fn deposit_shares(
    pool: LiquidityPool,
    amount_one: u64,
    amount_two: u64,
    first_deposit_shares: u64,
) -> Result<u64, DexProgramError> {
    if pool.total_supply == 0 {
        Ok(first_deposit_shares)
    } else if amount_one * pool.total_supply > u64::MAX || pool.reserve_one == 0 || amount_two
        * pool.total_supply > u64::MAX || pool.reserve_two == 0 {
        Err(DexProgramError::OverflowOrUnderflowOccurred)
    } else {
        Ok(
            min_int(
                amount_one * pool.total_supply / pool.reserve_one as int,
                amount_two * pool.total_supply / pool.reserve_two as int,
            ) as u64,
        )
    }
}

/// A deposit of the two amounts: the provider is granted the shares that
/// the deposit earns, then both reserves grow by the amounts. The pool, the
/// provider and the result afterwards.
pub open spec fn add_liquidity_outcome(
    pool: LiquidityPool,
    provider: LiquidityProvider,
    amount_one: u64,
    amount_two: u64,
    first_deposit_shares: u64,
) -> (LiquidityPool, LiquidityProvider, Result<(), DexProgramError>) {
    match deposit_shares(pool, amount_one, amount_two, first_deposit_shares) {
        Err(e) => (pool, provider, Err(e)),
        Ok(shares) => if shares == 0 {
            (pool, provider, Err(DexProgramError::FailedToAddLiquidity))
        } else {
            let granted = grant_shares_outcome(pool, provider, shares);
            let (after, provider_after) = (granted.0, granted.1);
            if granted.2 is Err {
                granted
            } else if after.reserve_one + amount_one > u64::MAX || after.reserve_two + amount_two
                > u64::MAX {
                (after, provider_after, Err(DexProgramError::OverflowOrUnderflowOccurred))
            } else {
                (
                    after.with_reserves(
                        after.reserve_one + amount_one,
                        after.reserve_two + amount_two,
                    ),
                    provider_after,
                    Ok(()),
                )
            }
        },
    }
}

/// What `shares` of the pool are worth in one token: their part of the
/// reserve, `shares * reserve / total_supply`, rounded down.
pub open spec fn share_value(shares: u64, reserve: u64, total_supply: u64) -> int {
    shares * reserve / total_supply as int
}

/// A withdrawal of `shares`: they are worth their part of each reserve; the
/// provider loses them, the pool's supply shrinks by them and each reserve
/// by the amount paid out of it. The pool, the provider and the result
/// (the amounts paid out) afterwards.
pub open spec fn remove_liquidity_outcome(
    pool: LiquidityPool,
    provider: LiquidityProvider,
    shares: u64,
) -> (LiquidityPool, LiquidityProvider, Result<(u64, u64), DexProgramError>) {
    if shares == 0 {
        (pool, provider, Err(DexProgramError::FailedToRemoveLiquidity))
    } else if provider.shares < shares {
        (pool, provider, Err(DexProgramError::InsufficientShares))
    } else if shares * pool.reserve_one > u64::MAX || pool.total_supply == 0 || shares
        * pool.reserve_two > u64::MAX {
        (pool, provider, Err(DexProgramError::OverflowOrUnderflowOccurred))
    } else {
        let out_one = share_value(shares, pool.reserve_one, pool.total_supply);
        let out_two = share_value(shares, pool.reserve_two, pool.total_supply);
        if out_one == 0 || out_two == 0 {
            (pool, provider, Err(DexProgramError::FailedToRemoveLiquidity))
        } else {
            let removed = remove_shares_outcome(pool, provider, shares);
            let (after, provider_after) = (removed.0, removed.1);
            if removed.2 is Err {
                (after, provider_after, Err(removed.2->Err_0))
            } else if after.reserve_one < out_one || after.reserve_two < out_two {
                (after, provider_after, Err(DexProgramError::OverflowOrUnderflowOccurred))
            } else {
                (
                    after.with_reserves(after.reserve_one - out_one, after.reserve_two - out_two),
                    provider_after,
                    Ok((out_one as u64, out_two as u64)),
                )
            }
        }
    }
}

/// The constant-product price: paying `amount_in` into a pool with reserves
/// `reserve_in` and `reserve_out` gives `reserve_out * amount_in / (reserve_in
/// + amount_in)`, rounded down.
pub open spec fn amount_out(reserve_in: u64, reserve_out: u64, amount_in: u64) -> int {
    reserve_out * amount_in / (reserve_in + amount_in)
}

/// A swap of `amount` of the first token, of which `amount_after_fee` is
/// priced: the second reserve pays out the price of `amount_after_fee`, and
/// the first reserve receives all of `amount`. The pool and the result (the
/// amount paid out) afterwards.
pub open spec fn swap_outcome(pool: LiquidityPool, amount: u64, amount_after_fee: u64) -> (
    LiquidityPool,
    Result<u64, DexProgramError>,
) {
    if amount == 0 {
        (pool, Err(DexProgramError::InvalidAmount))
    } else if pool.reserve_one + amount_after_fee > u64::MAX || pool.reserve_two
        * amount_after_fee > u64::MAX || pool.reserve_one + amount_after_fee == 0
        || pool.reserve_one + amount > u64::MAX {
        (pool, Err(DexProgramError::OverflowOrUnderflowOccurred))
    } else {
        let out = amount_out(pool.reserve_one, pool.reserve_two, amount_after_fee);
        if pool.reserve_two < out {
            (pool, Err(DexProgramError::OverflowOrUnderflowOccurred))
        } else {
            (
                pool.with_reserves(pool.reserve_one + amount, pool.reserve_two - out),
                Ok(out as u64),
            )
        }
    }
}

impl LiquidityPool {
    /// Grants `shares` to the provider, taking them from the pool's supply.
    pub fn grant_shares(
        &mut self,
        liquidity_provider_account: &mut LiquidityProvider,
        shares: u64,
    ) -> (result: Result<(), DexProgramError>)
        ensures
            (*final(self), *final(liquidity_provider_account), result) == grant_shares_outcome(
                *old(self),
                *old(liquidity_provider_account),
                shares,
            ),
    {
        match liquidity_provider_account.shares.checked_add(shares) {
            Some(total) => liquidity_provider_account.shares = total,
            None => return Err(DexProgramError::FailedToAllocateShares),
        }
        match self.total_supply.checked_sub(shares) {
            Some(supply) => self.total_supply = supply,
            None => return Err(DexProgramError::OverflowOrUnderflowOccurred),
        }
        Ok(())
    }

    /// Takes `shares` back from the provider and out of the pool's supply.
    pub fn remove_shares(
        &mut self,
        liquidity_provider_account: &mut LiquidityProvider,
        shares: u64,
    ) -> (result: Result<(), DexProgramError>)
        ensures
            (*final(self), *final(liquidity_provider_account), result) == remove_shares_outcome(
                *old(self),
                *old(liquidity_provider_account),
                shares,
            ),
    {
        match liquidity_provider_account.shares.checked_sub(shares) {
            Some(left) => liquidity_provider_account.shares = left,
            None => return Err(DexProgramError::FailedToDeallocateShares),
        }
        match self.total_supply.checked_sub(shares) {
            Some(supply) => self.total_supply = supply,
            None => return Err(DexProgramError::OverflowOrUnderflowOccurred),
        }
        Ok(())
    }

    /// Sets both reserves.
    pub fn update_reserves(&mut self, reserve_one: u64, reserve_two: u64) -> (result: Result<
        (),
        DexProgramError,
    >)
        ensures
            *final(self) == old(self).with_reserves(reserve_one as int, reserve_two as int),
            result == Ok::<(), DexProgramError>(()),
    {
        self.reserve_one = reserve_one;
        self.reserve_two = reserve_two;
        Ok(())
    }

    /// Deposits `amount_one` and `amount_two` into the reserves and grants the
    /// provider the shares that the deposit earns. While the pool has no
    /// supply, the deposit earns `first_deposit_shares` (the square root of
    /// the product of the two amounts in whole tokens, which the caller
    /// computes). The tokens themselves are moved by the caller, after a
    /// success.
    pub fn add_liquidity(
        &mut self,
        amount_one: u64,
        amount_two: u64,
        first_deposit_shares: u64,
        liquidity_provider_account: &mut LiquidityProvider,
    ) -> (result: Result<(), DexProgramError>)
        ensures
            (*final(self), *final(liquidity_provider_account), result) == add_liquidity_outcome(
                *old(self),
                *old(liquidity_provider_account),
                amount_one,
                amount_two,
                first_deposit_shares,
            ),
    {
        let shares_to_allocate: u64;
        if self.total_supply == 0 {
            shares_to_allocate = first_deposit_shares;
        } else {
            let mul_value = match amount_one.checked_mul(self.total_supply) {
                Some(v) => v,
                None => return Err(DexProgramError::OverflowOrUnderflowOccurred),
            };
            let shares_one = match mul_value.checked_div(self.reserve_one) {
                Some(v) => v,
                None => return Err(DexProgramError::OverflowOrUnderflowOccurred),
            };
            let mul_value = match amount_two.checked_mul(self.total_supply) {
                Some(v) => v,
                None => return Err(DexProgramError::OverflowOrUnderflowOccurred),
            };
            let shares_two = match mul_value.checked_div(self.reserve_two) {
                Some(v) => v,
                None => return Err(DexProgramError::OverflowOrUnderflowOccurred),
            };
            shares_to_allocate = if shares_one <= shares_two {
                shares_one
            } else {
                shares_two
            };
        }

        if shares_to_allocate == 0 {
            return Err(DexProgramError::FailedToAddLiquidity);
        }

        let granted = self.grant_shares(liquidity_provider_account, shares_to_allocate);
        if granted.is_err() {
            return granted;
        }

        let new_reserves_one = match self.reserve_one.checked_add(amount_one) {
            Some(v) => v,
            None => return Err(DexProgramError::OverflowOrUnderflowOccurred),
        };
        let new_reserves_two = match self.reserve_two.checked_add(amount_two) {
            Some(v) => v,
            None => return Err(DexProgramError::OverflowOrUnderflowOccurred),
        };

        self.update_reserves(new_reserves_one, new_reserves_two)
    }

    /// Withdraws `shares`: the provider loses them and is owed their part of
    /// each reserve, which is returned (first token, second token) and taken
    /// out of the reserves. The tokens themselves are moved by the caller,
    /// after a success.
    pub fn remove_liquidity(
        &mut self,
        shares: u64,
        liquidity_provider_account: &mut LiquidityProvider,
    ) -> (result: Result<(u64, u64), DexProgramError>)
        ensures
            (*final(self), *final(liquidity_provider_account), result) == remove_liquidity_outcome(
                *old(self),
                *old(liquidity_provider_account),
                shares,
            ),
    {
        if shares == 0 {
            return Err(DexProgramError::FailedToRemoveLiquidity);
        }

        if liquidity_provider_account.shares < shares {
            return Err(DexProgramError::InsufficientShares);
        }

        let mul_value = match shares.checked_mul(self.reserve_one) {
            Some(v) => v,
            None => return Err(DexProgramError::OverflowOrUnderflowOccurred),
        };
        let amount_out_one = match mul_value.checked_div(self.total_supply) {
            Some(v) => v,
            None => return Err(DexProgramError::OverflowOrUnderflowOccurred),
        };
        let mul_value = match shares.checked_mul(self.reserve_two) {
            Some(v) => v,
            None => return Err(DexProgramError::OverflowOrUnderflowOccurred),
        };
        let amount_out_two = match mul_value.checked_div(self.total_supply) {
            Some(v) => v,
            None => return Err(DexProgramError::OverflowOrUnderflowOccurred),
        };

        if amount_out_one == 0 || amount_out_two == 0 {
            return Err(DexProgramError::FailedToRemoveLiquidity);
        }

        match self.remove_shares(liquidity_provider_account, shares) {
            Ok(()) => {},
            Err(e) => return Err(e),
        }

        let new_reserves_one = match self.reserve_one.checked_sub(amount_out_one) {
            Some(v) => v,
            None => return Err(DexProgramError::OverflowOrUnderflowOccurred),
        };
        let new_reserves_two = match self.reserve_two.checked_sub(amount_out_two) {
            Some(v) => v,
            None => return Err(DexProgramError::OverflowOrUnderflowOccurred),
        };

        let _ = self.update_reserves(new_reserves_one, new_reserves_two);
        Ok((amount_out_one, amount_out_two))
    }

    /// Swaps `amount` of the first token for the second, by the constant
    /// product `x * y = k`: the price is that of `amount_after_fee`, the part
    /// of `amount` left after the pool's fee (which the caller computes from
    /// the fee in percent), and the whole `amount` goes into the first
    /// reserve. Returns the amount of the second token paid out; the tokens
    /// themselves are moved by the caller, after a success.
    pub fn swap(&mut self, amount: u64, amount_after_fee: u64) -> (result: Result<
        u64,
        DexProgramError,
    >)
        ensures
            (*final(self), result) == swap_outcome(*old(self), amount, amount_after_fee),
    {
        if amount == 0 {
            return Err(DexProgramError::InvalidAmount);
        }

        // xy = k => Constant product formula
        // (x + dx)(y - dy) = k
        // y - dy = k / (x + dx)
        // y - dy = xy / (x + dx)
        // dy = y - (xy / (x + dx))
        // dy = yx + ydx - xy / (x + dx)
        // formula => dy = ydx / (x + dx)

        let denominator_sum = match self.reserve_one.checked_add(amount_after_fee) {
            Some(v) => v,
            None => return Err(DexProgramError::OverflowOrUnderflowOccurred),
        };
        let numerator_mul = match self.reserve_two.checked_mul(amount_after_fee) {
            Some(v) => v,
            None => return Err(DexProgramError::OverflowOrUnderflowOccurred),
        };
        let amount_out = match numerator_mul.checked_div(denominator_sum) {
            Some(v) => v,
            None => return Err(DexProgramError::OverflowOrUnderflowOccurred),
        };
        let new_reserves_one = match self.reserve_one.checked_add(amount) {
            Some(v) => v,
            None => return Err(DexProgramError::OverflowOrUnderflowOccurred),
        };
        let new_reserves_two = match self.reserve_two.checked_sub(amount_out) {
            Some(v) => v,
            None => return Err(DexProgramError::OverflowOrUnderflowOccurred),
        };

        let _ = self.update_reserves(new_reserves_one, new_reserves_two);
        Ok(amount_out)
    }
}

/// The seed of a pool does not depend on the order in which its two tokens
/// are given.
pub proof fn lemma_seed_order_independent(token_one: Pubkey, token_two: Pubkey)
    ensures
        seed_text(
            token_one.bytes@,
            token_two.bytes@,
            base58_text(token_one.bytes@),
            base58_text(token_two.bytes@),
        ) == seed_text(
            token_two.bytes@,
            token_one.bytes@,
            base58_text(token_two.bytes@),
            base58_text(token_one.bytes@),
        ),
{
    crate::pubkey::lemma_bytes_order_total(token_one.bytes@, token_two.bytes@);
}

} // verus!
