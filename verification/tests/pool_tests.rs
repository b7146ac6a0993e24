use pump::errors::DexProgramError;
use pump::pubkey::Pubkey;
use pump::state::LiquidityPool;
use pump::state::LiquidityProvider;

fn pool(total_supply: u64, reserve_one: u64, reserve_two: u64) -> LiquidityPool {
    let mut pool = LiquidityPool::new(
        Pubkey::new_from_array([1u8; 32]),
        Pubkey::new_from_array([2u8; 32]),
        254,
    );
    pool.total_supply = total_supply;
    pool.reserve_one = reserve_one;
    pool.reserve_two = reserve_two;
    pool
}

fn state(pool: &LiquidityPool) -> (u64, u64, u64) {
    (pool.total_supply, pool.reserve_one, pool.reserve_two)
}

#[test]
fn new_pool_is_empty() {
    let p = LiquidityPool::new(
        Pubkey::new_from_array([1u8; 32]),
        Pubkey::new_from_array([2u8; 32]),
        7,
    );
    assert_eq!(state(&p), (0, 0, 0));
    assert_eq!(p.bump, 7);
    assert_eq!(p.token_one.to_bytes(), [1u8; 32]);
    assert_eq!(p.token_two.to_bytes(), [2u8; 32]);
}

#[test]
fn account_constants() {
    assert_eq!(LiquidityPool::ACCOUNT_SIZE, 97);
    assert_eq!(LiquidityPool::POOL_SEED_PREFIX, "liquidity_pool");
    assert_eq!(LiquidityProvider::ACCOUNT_SIZE, 16);
    assert_eq!(LiquidityProvider::SEED_PREFIX, "LiqudityProvider");
}

#[test]
fn grant_shares_moves_supply_to_provider() {
    let mut p = pool(100, 0, 0);
    let mut lp = LiquidityProvider { shares: 5 };
    assert_eq!(p.grant_shares(&mut lp, 10), Ok(()));
    assert_eq!(lp.shares, 15);
    assert_eq!(p.total_supply, 90);
}

#[test]
fn grant_shares_overflowing_provider() {
    let mut p = pool(100, 0, 0);
    let mut lp = LiquidityProvider { shares: u64::MAX };
    assert_eq!(p.grant_shares(&mut lp, 1), Err(DexProgramError::FailedToAllocateShares));
    assert_eq!(lp.shares, u64::MAX);
    assert_eq!(p.total_supply, 100);
}

#[test]
fn grant_shares_beyond_supply() {
    let mut p = pool(3, 0, 0);
    let mut lp = LiquidityProvider { shares: 0 };
    assert_eq!(p.grant_shares(&mut lp, 4), Err(DexProgramError::OverflowOrUnderflowOccurred));
    assert_eq!(lp.shares, 4);
    assert_eq!(p.total_supply, 3);
}

#[test]
fn remove_shares_burns_supply() {
    let mut p = pool(100, 0, 0);
    let mut lp = LiquidityProvider { shares: 20 };
    assert_eq!(p.remove_shares(&mut lp, 5), Ok(()));
    assert_eq!(lp.shares, 15);
    assert_eq!(p.total_supply, 95);
    assert_eq!(p.remove_shares(&mut lp, 16), Err(DexProgramError::FailedToDeallocateShares));
    assert_eq!(lp.shares, 15);
}

#[test]
fn remove_shares_beyond_supply() {
    let mut p = pool(3, 0, 0);
    let mut lp = LiquidityProvider { shares: 10 };
    assert_eq!(p.remove_shares(&mut lp, 4), Err(DexProgramError::OverflowOrUnderflowOccurred));
    assert_eq!(lp.shares, 6);
    assert_eq!(p.total_supply, 3);
}

#[test]
fn update_reserves_sets_both() {
    let mut p = pool(9, 1, 2);
    assert_eq!(p.update_reserves(30, 40), Ok(()));
    assert_eq!(state(&p), (9, 30, 40));
}

#[test]
fn add_liquidity_to_pool_with_supply() {
    let mut p = pool(1000, 100, 200);
    let mut lp = LiquidityProvider { shares: 0 };
    assert_eq!(p.add_liquidity(10, 30, 0, &mut lp), Ok(()));
    assert_eq!(lp.shares, 100);
    assert_eq!(state(&p), (900, 110, 230));
}

#[test]
fn add_liquidity_shares_are_the_smaller_proportion() {
    let mut p = pool(1000, 100, 200);
    let mut lp = LiquidityProvider { shares: 1 };
    assert_eq!(p.add_liquidity(50, 10, 0, &mut lp), Ok(()));
    assert_eq!(lp.shares, 51);
    assert_eq!(state(&p), (950, 150, 210));
}

#[test]
fn add_liquidity_to_empty_pool_is_refused() {
    let mut p = pool(0, 0, 0);
    let mut lp = LiquidityProvider { shares: 0 };
    assert_eq!(
        p.add_liquidity(4_000, 9_000, 6_000, &mut lp),
        Err(DexProgramError::OverflowOrUnderflowOccurred)
    );
    assert_eq!(lp.shares, 6_000);
    assert_eq!(state(&p), (0, 0, 0));
}

#[test]
fn add_liquidity_earning_nothing() {
    let mut p = pool(0, 0, 0);
    let mut lp = LiquidityProvider { shares: 0 };
    assert_eq!(p.add_liquidity(1, 1, 0, &mut lp), Err(DexProgramError::FailedToAddLiquidity));
    let mut p = pool(10, 1_000, 1_000);
    assert_eq!(p.add_liquidity(50, 50, 0, &mut lp), Err(DexProgramError::FailedToAddLiquidity));
    assert_eq!(lp.shares, 0);
    assert_eq!(state(&p), (10, 1_000, 1_000));
}

#[test]
fn add_liquidity_with_empty_reserve() {
    let mut p = pool(10, 0, 1_000);
    let mut lp = LiquidityProvider { shares: 0 };
    assert_eq!(
        p.add_liquidity(5, 5, 0, &mut lp),
        Err(DexProgramError::OverflowOrUnderflowOccurred)
    );
    assert_eq!(state(&p), (10, 0, 1_000));
}

#[test]
fn add_liquidity_overflowing_product() {
    let mut p = pool(u64::MAX, 1, 1);
    let mut lp = LiquidityProvider { shares: 0 };
    assert_eq!(
        p.add_liquidity(2, 2, 0, &mut lp),
        Err(DexProgramError::OverflowOrUnderflowOccurred)
    );
}

#[test]
fn add_liquidity_overflowing_reserve() {
    let mut p = pool(u64::MAX / 3, u64::MAX - 1, 3);
    let mut lp = LiquidityProvider { shares: 0 };
    assert_eq!(
        p.add_liquidity(3, 3, 0, &mut lp),
        Err(DexProgramError::OverflowOrUnderflowOccurred)
    );
    assert_eq!(lp.shares, 1);
    assert_eq!(state(&p), (u64::MAX / 3 - 1, u64::MAX - 1, 3));
}

#[test]
fn remove_liquidity_pays_proportional_part() {
    let mut p = pool(1000, 500, 300);
    let mut lp = LiquidityProvider { shares: 200 };
    assert_eq!(p.remove_liquidity(100, &mut lp), Ok((50, 30)));
    assert_eq!(lp.shares, 100);
    assert_eq!(state(&p), (900, 450, 270));
}

#[test]
fn remove_liquidity_rounds_down() {
    let mut p = pool(3, 10, 20);
    let mut lp = LiquidityProvider { shares: 3 };
    assert_eq!(p.remove_liquidity(1, &mut lp), Ok((3, 6)));
    assert_eq!(state(&p), (2, 7, 14));
}

#[test]
fn remove_liquidity_refusals() {
    let mut p = pool(1000, 500, 300);
    let mut lp = LiquidityProvider { shares: 200 };
    assert_eq!(p.remove_liquidity(0, &mut lp), Err(DexProgramError::FailedToRemoveLiquidity));
    assert_eq!(p.remove_liquidity(201, &mut lp), Err(DexProgramError::InsufficientShares));
    assert_eq!(p.remove_liquidity(1, &mut lp), Err(DexProgramError::FailedToRemoveLiquidity));
    assert_eq!(lp.shares, 200);
    assert_eq!(state(&p), (1000, 500, 300));
}

#[test]
fn remove_liquidity_from_pool_without_supply() {
    let mut p = pool(0, 500, 300);
    let mut lp = LiquidityProvider { shares: 5 };
    assert_eq!(
        p.remove_liquidity(5, &mut lp),
        Err(DexProgramError::OverflowOrUnderflowOccurred)
    );
    assert_eq!(lp.shares, 5);
}

#[test]
fn remove_liquidity_beyond_supply() {
    let mut p = pool(10, 500, 300);
    let mut lp = LiquidityProvider { shares: 20 };
    assert_eq!(
        p.remove_liquidity(20, &mut lp),
        Err(DexProgramError::OverflowOrUnderflowOccurred)
    );
    assert_eq!(lp.shares, 0);
    assert_eq!(state(&p), (10, 500, 300));
}

#[test]
fn swap_by_constant_product() {
    let mut p = pool(0, 1000, 1000);
    assert_eq!(p.swap(100, 99, ), Ok(90));
    assert_eq!(state(&p), (0, 1100, 910));
    assert!(1100u128 * 910 >= 1000u128 * 1000);
}

#[test]
fn swap_without_fee() {
    let mut p = pool(0, 300, 600);
    assert_eq!(p.swap(100, 100), Ok(150));
    assert_eq!(state(&p), (0, 400, 450));
}

#[test]
fn swap_of_nothing() {
    let mut p = pool(0, 1000, 1000);
    assert_eq!(p.swap(0, 0), Err(DexProgramError::InvalidAmount));
    assert_eq!(state(&p), (0, 1000, 1000));
}

#[test]
fn swap_into_empty_pool() {
    let mut p = pool(0, 0, 0);
    assert_eq!(p.swap(5, 0), Err(DexProgramError::OverflowOrUnderflowOccurred));
    let mut p = pool(0, 0, 70);
    assert_eq!(p.swap(5, 5), Ok(70));
    assert_eq!(state(&p), (0, 5, 0));
}

#[test]
fn swap_overflows() {
    let mut p = pool(0, 10, u64::MAX);
    assert_eq!(p.swap(2, 2), Err(DexProgramError::OverflowOrUnderflowOccurred));
    let mut p = pool(0, u64::MAX - 1, 10);
    assert_eq!(p.swap(2, 1), Err(DexProgramError::OverflowOrUnderflowOccurred));
    assert_eq!(state(&p), (0, u64::MAX - 1, 10));
}

#[test]
fn swap_payout_grows_with_priced_amount() {
    let mut low = pool(0, 1000, 1000);
    let mut high = pool(0, 1000, 1000);
    assert_eq!(low.swap(100, 90), Ok(82));
    assert_eq!(high.swap(100, 99), Ok(90));
    assert_eq!(low.reserve_one, high.reserve_one);
    let mut larger = pool(0, 1000, 1000);
    assert_eq!(larger.swap(200, 198), Ok(165));
}
