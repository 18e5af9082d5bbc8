use token_lending::error::LendingError;
use token_lending::introspection::{Instruction, Introspection};
use token_lending::pubkey::{Pubkey, PUBKEY_BYTES};
use token_lending::reserve::ReserveLiquidity;

#[test]
fn borrow_moves_the_amount_from_available_to_borrowed() {
    let mut liquidity = ReserveLiquidity::new(5000, 700);
    assert_eq!(liquidity.borrow(1000), Ok(()));
    assert_eq!(liquidity.available_amount, 4000);
    assert_eq!(liquidity.borrowed_amount, 1700);
}

#[test]
fn borrow_of_all_that_is_available() {
    let mut liquidity = ReserveLiquidity::new(5000, 0);
    assert_eq!(liquidity.borrow(5000), Ok(()));
    assert_eq!(liquidity, ReserveLiquidity::new(0, 5000));
}

#[test]
fn borrow_of_more_than_is_available_is_refused() {
    let mut liquidity = ReserveLiquidity::new(5000, 700);
    assert_eq!(liquidity.borrow(5001), Err(LendingError::InsufficientLiquidity));
    assert_eq!(liquidity, ReserveLiquidity::new(5000, 700));
}

#[test]
fn borrow_that_overflows_the_ledger_is_refused() {
    let mut liquidity = ReserveLiquidity::new(10, u128::MAX - 4);
    assert_eq!(liquidity.borrow(5), Err(LendingError::MathOverflow));
    assert_eq!(liquidity, ReserveLiquidity::new(10, u128::MAX - 4));
    assert_eq!(liquidity.borrow(4), Ok(()));
    assert_eq!(liquidity, ReserveLiquidity::new(6, u128::MAX));
}

#[test]
fn insufficient_liquidity_comes_before_overflow() {
    let mut liquidity = ReserveLiquidity::new(1, u128::MAX);
    assert_eq!(liquidity.borrow(2), Err(LendingError::InsufficientLiquidity));
}

#[test]
fn repay_returns_the_amount_with_fees_and_settles_the_amount() {
    let mut liquidity = ReserveLiquidity::new(4000, 1700);
    assert_eq!(liquidity.repay(1000, 1003), Ok(()));
    assert_eq!(liquidity.available_amount, 5003);
    assert_eq!(liquidity.borrowed_amount, 700);
}

#[test]
fn repay_of_more_than_is_borrowed_is_refused() {
    let mut liquidity = ReserveLiquidity::new(4000, 999);
    assert_eq!(liquidity.repay(1000, 1000), Err(LendingError::MathOverflow));
    assert_eq!(liquidity, ReserveLiquidity::new(4000, 999));
}

#[test]
fn repay_that_overflows_what_is_available_is_refused() {
    let mut liquidity = ReserveLiquidity::new(u64::MAX - 1, 10);
    assert_eq!(liquidity.repay(2, 2), Err(LendingError::MathOverflow));
    assert_eq!(liquidity, ReserveLiquidity::new(u64::MAX - 1, 10));
    assert_eq!(liquidity.repay(2, 1), Ok(()));
    assert_eq!(liquidity, ReserveLiquidity::new(u64::MAX, 8));
}

#[test]
fn borrow_then_repay_restores_the_ledger() {
    for (available, borrowed, amount) in
        [(5000u64, 700u128, 1000u64), (1, 0, 1), (u64::MAX, 0, u64::MAX), (9, u128::MAX - 9, 9)]
    {
        let mut liquidity = ReserveLiquidity::new(available, borrowed);
        assert_eq!(liquidity.borrow(amount), Ok(()));
        assert_eq!(liquidity.repay(amount, amount), Ok(()));
        assert_eq!(liquidity, ReserveLiquidity::new(available, borrowed));
    }
}

#[test]
fn identifiers_are_equal_when_all_bytes_are() {
    let a = Pubkey::new([7; 32]);
    let b = Pubkey::new([7; 32]);
    assert!(a == b);
    assert_eq!(a.to_bytes(), [7; 32]);
    assert_eq!(PUBKEY_BYTES, 32);
    for i in 0..32 {
        let mut bytes = [7u8; 32];
        bytes[i] = 8;
        assert!(Pubkey::new(bytes) != a);
        assert!(!(a == Pubkey::new(bytes)));
    }
}

#[test]
fn handle_shows_what_it_was_made_with() {
    let program = Pubkey::new([1; 32]);
    let first = Instruction::new(program, vec![Pubkey::new([2; 32])], vec![1, 2, 3]);
    let second = Instruction::new(Pubkey::new([3; 32]), vec![], vec![]);
    let handle = Introspection::new(vec![first, second], 1, 4);
    assert_eq!(handle.current_instruction_index(), 1);
    assert_eq!(handle.current_call_stack_depth(), 4);
    let loaded = handle.load_instruction_at(0).unwrap();
    assert!(loaded.program_id == program);
    assert_eq!(loaded.data, vec![1, 2, 3]);
    assert_eq!(loaded.accounts.len(), 1);
    assert!(loaded.accounts[0] == Pubkey::new([2; 32]));
    assert!(handle.load_instruction_at(1).unwrap().data.is_empty());
    assert_eq!(handle.load_instruction_at(2).err(), Some(LendingError::OutOfBoundsIndex));
    assert_eq!(handle.load_instruction_at(usize::MAX).err(), Some(LendingError::OutOfBoundsIndex));
}
