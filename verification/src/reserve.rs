//! The ledger of a reserve: what it can lend and what it has lent.

use crate::error::LendingError;
use crate::pubkey::Pubkey;
use vstd::prelude::*;

verus! {

/// The liquidity of one reserve, counted in the smallest unit of its asset.
#[derive(Clone, Copy, Debug, PartialEq, Eq, Structural)]
pub struct ReserveLiquidity {
    /// What the reserve holds and can lend.
    pub available_amount: u64,
    /// What the reserve has lent and is owed.
    pub borrowed_amount: u128,
}

/// The ledger after lending `amount`: the amount moves from what is available
/// to what is borrowed. A reserve cannot lend more than it holds.
pub open spec fn spec_borrow(liquidity: ReserveLiquidity, amount: u64) -> Result<
    ReserveLiquidity,
    LendingError,
> {
    if amount > liquidity.available_amount {
        Err(LendingError::InsufficientLiquidity)
    } else if liquidity.borrowed_amount + amount > u128::MAX {
        Err(LendingError::MathOverflow)
    } else {
        Ok(
            ReserveLiquidity {
                available_amount: (liquidity.available_amount - amount) as u64,
                borrowed_amount: (liquidity.borrowed_amount + amount) as u128,
            },
        )
    }
}

/// The ledger after a repayment: `amount_with_fees` comes back into what is
/// available, and what is borrowed goes down by `amount`.
pub open spec fn spec_repay(
    liquidity: ReserveLiquidity,
    amount: u64,
    amount_with_fees: u64,
) -> Result<ReserveLiquidity, LendingError> {
    if liquidity.available_amount + amount_with_fees > u64::MAX {
        Err(LendingError::MathOverflow)
    } else if amount > liquidity.borrowed_amount {
        Err(LendingError::MathOverflow)
    } else {
        Ok(
            ReserveLiquidity {
                available_amount: (liquidity.available_amount + amount_with_fees) as u64,
                borrowed_amount: (liquidity.borrowed_amount - amount) as u128,
            },
        )
    }
}

impl ReserveLiquidity {
    /// A ledger with the given amounts.
    pub fn new(available_amount: u64, borrowed_amount: u128) -> (liquidity: ReserveLiquidity)
        ensures
            liquidity == (ReserveLiquidity { available_amount, borrowed_amount }),
    {
        ReserveLiquidity { available_amount, borrowed_amount }
    }

    /// Lends `amount`. On an error the ledger is as it was.
    pub fn borrow(&mut self, amount: u64) -> (done: Result<(), LendingError>)
        ensures
            match done {
                Ok(()) => spec_borrow(*old(self), amount) == Ok::<ReserveLiquidity, LendingError>(
                    *final(self),
                ),
                Err(e) => spec_borrow(*old(self), amount) == Err::<ReserveLiquidity, LendingError>(
                    e,
                ) && *final(self) == *old(self),
            },
    {
        if amount > self.available_amount {
            return Err(LendingError::InsufficientLiquidity);
        }
        let borrowed = match self.borrowed_amount.checked_add(amount as u128) {
            Some(sum) => sum,
            None => {
                return Err(LendingError::MathOverflow);
            },
        };
        self.available_amount = self.available_amount - amount;
        self.borrowed_amount = borrowed;
        Ok(())
    }

    /// Takes a repayment of `amount`, of which `amount_with_fees` comes back
    /// into the reserve. On an error the ledger is as it was.
    pub fn repay(&mut self, amount: u64, amount_with_fees: u64) -> (done: Result<(), LendingError>)
        ensures
            match done {
                Ok(()) => spec_repay(*old(self), amount, amount_with_fees) == Ok::<
                    ReserveLiquidity,
                    LendingError,
                >(*final(self)),
                Err(e) => spec_repay(*old(self), amount, amount_with_fees) == Err::<
                    ReserveLiquidity,
                    LendingError,
                >(e) && *final(self) == *old(self),
            },
    {
        let available = match self.available_amount.checked_add(amount_with_fees) {
            Some(sum) => sum,
            None => {
                return Err(LendingError::MathOverflow);
            },
        };
        let borrowed = match self.borrowed_amount.checked_sub(amount as u128) {
            Some(rest) => rest,
            None => {
                return Err(LendingError::MathOverflow);
            },
        };
        self.available_amount = available;
        self.borrowed_amount = borrowed;
        Ok(())
    }
}

/// A reserve: the account that identifies it and its ledger.
#[derive(Clone, Copy, Debug)]
pub struct Reserve {
    /// The identifier of the reserve's account.
    pub key: Pubkey,
    /// The reserve's ledger.
    pub liquidity: ReserveLiquidity,
}

/// Lending an amount and taking the same amount back leaves the ledger as it
/// was.
pub proof fn lemma_borrow_then_repay(liquidity: ReserveLiquidity, amount: u64)
    requires
        spec_borrow(liquidity, amount) is Ok,
    ensures
        spec_repay(spec_borrow(liquidity, amount)->Ok_0, amount, amount) == Ok::<
            ReserveLiquidity,
            LendingError,
        >(liquidity),
{
}

} // verus!
