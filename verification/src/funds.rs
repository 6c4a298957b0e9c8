//! The backing value that moves when stake is deposited or paid out.

use crate::error::StakingError;
use vstd::prelude::*;

verus! {

/// The two balances that an operation can move value between.
///
/// The ledger record only keeps accounts; the value itself sits in these
/// balances. A transfer takes from one and gives the same amount to the other.
#[derive(Clone, Copy, Debug, PartialEq, Eq, Structural)]
pub struct Funds {
    /// What the caller holds outside the ledger.
    pub caller: u64,
    /// What the custodian holds to back stakes and rewards.
    pub custodian: u64,
}

impl Funds {
    /// The value in both balances together.
    pub open spec fn total(self) -> int {
        self.caller + self.custodian
    }

    /// Why a transfer of `amount` from the caller to the custodian is refused,
    /// if it is: the caller cannot cover it, or the custodian's balance would
    /// leave its range.
    pub open spec fn deposit_refusal(self, amount: u64) -> Option<StakingError> {
        if self.caller < amount {
            Some(StakingError::InsufficientFunds)
        } else if self.custodian + amount > u64::MAX {
            Some(StakingError::Overflow)
        } else {
            None
        }
    }

    /// The balances after `amount` has moved from the caller to the custodian.
    pub open spec fn deposited(self, amount: u64) -> Funds {
        Funds {
            caller: (self.caller - amount) as u64,
            custodian: (self.custodian + amount) as u64,
        }
    }

    /// Why a transfer of `amount` from the custodian to the caller is refused,
    /// if it is: the custodian cannot cover it, or the caller's balance would
    /// leave its range.
    pub open spec fn payout_refusal(self, amount: u64) -> Option<StakingError> {
        if self.custodian < amount {
            Some(StakingError::InsufficientFunds)
        } else if self.caller + amount > u64::MAX {
            Some(StakingError::Overflow)
        } else {
            None
        }
    }

    /// The balances after `amount` has moved from the custodian to the caller.
    pub open spec fn paid_out(self, amount: u64) -> Funds {
        Funds {
            caller: (self.caller + amount) as u64,
            custodian: (self.custodian - amount) as u64,
        }
    }

    /// Moves `amount` from the caller to the custodian.
    ///
    /// Refused, with both balances left as they were, exactly when
    /// [`Funds::deposit_refusal`] names an error.
    pub fn transfer_to_custodian(&mut self, amount: u64) -> (res: Result<(), StakingError>)
        ensures
            match old(self).deposit_refusal(amount) {
                Some(e) => res == Err::<(), StakingError>(e) && *final(self) == *old(self),
                None => res is Ok && *final(self) == old(self).deposited(amount),
            },
            final(self).total() == old(self).total(),
    {
        if self.caller < amount {
            return Err(StakingError::InsufficientFunds);
        }
        match self.custodian.checked_add(amount) {
            Some(custodian) => {
                self.caller = self.caller - amount;
                self.custodian = custodian;
                Ok(())
            },
            None => Err(StakingError::Overflow),
        }
    }

    /// Moves `amount` from the custodian to the caller.
    ///
    /// Refused, with both balances left as they were, exactly when
    /// [`Funds::payout_refusal`] names an error.
    pub fn transfer_to_caller(&mut self, amount: u64) -> (res: Result<(), StakingError>)
        ensures
            match old(self).payout_refusal(amount) {
                Some(e) => res == Err::<(), StakingError>(e) && *final(self) == *old(self),
                None => res is Ok && *final(self) == old(self).paid_out(amount),
            },
            final(self).total() == old(self).total(),
    {
        if self.custodian < amount {
            return Err(StakingError::InsufficientFunds);
        }
        match self.caller.checked_add(amount) {
            Some(caller) => {
                self.custodian = self.custodian - amount;
                self.caller = caller;
                Ok(())
            },
            None => Err(StakingError::Overflow),
        }
    }
}

} // verus!
