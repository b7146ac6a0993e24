use pump::errors::DexProgramError;
use pump::pubkey::Pubkey;
use pump::state::LiquidityPool;

fn key(first: u8, last: u8) -> Pubkey {
    let mut bytes = [7u8; 32];
    bytes[0] = first;
    bytes[31] = last;
    Pubkey::new_from_array(bytes)
}

fn base58(key: &Pubkey) -> String {
    anchor_lang::prelude::Pubkey::new_from_array(key.to_bytes()).to_string()
}

#[test]
fn address_order_is_byte_order() {
    assert!(key(2, 0).greater_than(&key(1, 9)));
    assert!(!key(1, 9).greater_than(&key(2, 0)));
    assert!(key(1, 9).greater_than(&key(1, 8)));
    assert!(!key(1, 9).greater_than(&key(1, 9)));
}

#[test]
fn base58_text_matches_the_address_display() {
    let a = key(3, 4);
    assert_eq!(a.to_base58(), base58(&a));
    assert_ne!(a.to_base58(), base58(&key(4, 3)));
    let zero = Pubkey::new_from_array([0u8; 32]);
    assert_eq!(zero.to_base58(), "11111111111111111111111111111111");
}

#[test]
fn generate_seed_puts_greater_address_first() {
    let big = key(200, 1);
    let small = key(10, 1);
    let expected = format!("{}{}", base58(&big), base58(&small));
    assert_eq!(LiquidityPool::generate_seed(big, small), expected);
    assert_eq!(LiquidityPool::generate_seed(small, big), expected);
}

#[test]
fn generate_seed_of_one_address_twice() {
    let a = key(5, 5);
    assert_eq!(LiquidityPool::generate_seed(a, a), format!("{}{}", base58(&a), base58(&a)));
}

#[test]
fn join_seed_orders_given_texts() {
    assert_eq!(LiquidityPool::join_seed(&key(9, 0), &key(1, 0), "ab", "cd"), "abcd");
    assert_eq!(LiquidityPool::join_seed(&key(1, 0), &key(9, 0), "ab", "cd"), "cdab");
    assert_eq!(LiquidityPool::join_seed(&key(1, 0), &key(1, 0), "ab", "cd"), "cdab");
}

#[test]
fn error_messages() {
    assert_eq!(DexProgramError::InsufficientFunds.message(), "Insufficient funds to swap");
    assert_eq!(DexProgramError::FailedToAllocateShares.message(), "Failed to allocate shares");
    assert_eq!(DexProgramError::FailedToDeallocateShares.message(), "Failed to deallocate shares");
    assert_eq!(DexProgramError::InsufficientShares.message(), "Insufficient shares");
    assert_eq!(DexProgramError::InvalidAmount.message(), "Invalid amount to swap");
    assert_eq!(DexProgramError::InvalidFee.message(), "Invalid fee");
    assert_eq!(
        DexProgramError::DuplicateTokenNotAllowed.message(),
        "Duplicate tokens are not allowed"
    );
    assert_eq!(DexProgramError::FailedToAddLiquidity.message(), "Failed to add liquidity");
    assert_eq!(DexProgramError::FailedToRemoveLiquidity.message(), "Failed to remove liquidity");
    assert_eq!(
        DexProgramError::OverflowOrUnderflowOccurred.message(),
        "Overflow or underflow occured"
    );
}
