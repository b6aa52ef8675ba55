//! The stored records: the counter that numbers the surges, a surge, and the
//! receipt of one contributor in one surge.

use crate::address::Address;
use crate::error::ErrorCode;
use vstd::prelude::*;

verus! {

/// The counter that numbers the surges. It is created once and never goes
/// back.
#[derive(Clone, Copy, Debug, PartialEq, Eq)]
pub struct SurgeCounter {
    /// The number that the next surge gets.
    pub next_surge_id: u64,
}

/// What one contributor has put into one surge, and whether the share has
/// been paid out.
#[derive(Clone, Copy, Debug, PartialEq, Eq)]
pub struct Receipt {
    /// Sum of this contributor's deposits into the surge.
    pub amount_deposited: u64,
    pub vote: Address,
    /// Set by the one successful claim, and never cleared.
    pub claimed: bool,
    /// The contributor.
    pub owner: Address,
    /// The number of the surge that the deposits went to.
    pub surge_id: u64,
}

/// One funding round.
#[derive(Clone, Debug, PartialEq, Eq)]
pub struct Surge {
    /// Number of the surge, taken from the counter when it was created.
    pub id: u64,
    /// The creator, who alone may deploy the pool.
    pub authority: Address,
    pub name: String,
    /// Sum of all deposits.
    pub amount_deposited: u64,
    /// The most that the surge accepts.
    pub threshold: u64,
    /// Units of the asset in the vault after the deployment; zero before.
    pub spl_amount: u64,
    pub spl_address: Address,
    /// The asset that was bought.
    pub mint: Address,
    /// Currency in the vault after the deployment.
    pub leftover_sol: u64,
    /// Bump seed of the address where this record is stored.
    pub bump: u8,
}

/// The two states of a surge. A surge never goes back from `Deployed`.
#[derive(Clone, Copy, Debug, PartialEq, Eq, Structural)]
pub enum Status {
    /// Deposits are accepted, nothing has been bought.
    Open,
    /// The pool has been converted; shares can be claimed.
    Deployed,
}

impl SurgeCounter {
    /// The counter after it has handed out a number.
    pub open spec fn advanced(self) -> SurgeCounter {
        SurgeCounter { next_surge_id: (self.next_surge_id + 1) as u64 }
    }

    /// Hands out the next number and advances the counter. At the last
    /// number of 64 bits the counter stays and the call fails.
    pub fn next(&mut self) -> (issued: Result<u64, ErrorCode>)
        ensures
            old(self).next_surge_id < u64::MAX ==> issued == Ok::<u64, ErrorCode>(
                old(self).next_surge_id,
            ) && *final(self) == old(self).advanced(),
            old(self).next_surge_id == u64::MAX ==> issued == Err::<u64, ErrorCode>(
                ErrorCode::Overflow,
            ) && *final(self) == *old(self),
    {
        let id: u64 = self.next_surge_id;
        if id == u64::MAX {
            return Err(ErrorCode::Overflow);
        }
        self.next_surge_id = id + 1;
        Ok(id)
    }
}

impl Surge {
    /// The state of the surge, read from the asset it holds.
    pub open spec fn status_of(self) -> Status {
        if self.spl_amount == 0 {
            Status::Open
        } else {
            Status::Deployed
        }
    }

    /// The deposits stay within the threshold.
    pub open spec fn within_threshold(self) -> bool {
        self.amount_deposited <= self.threshold
    }

    /// The state of the surge.
    pub fn status(&self) -> (status: Status)
        ensures
            status == self.status_of(),
    {
        if self.spl_amount == 0 {
            Status::Open
        } else {
            Status::Deployed
        }
    }
}

impl Receipt {
    /// The receipt is the one of `owner` in the surge numbered `surge_id`.
    pub open spec fn filed_under(self, surge_id: u64, owner: Address) -> bool {
        self.surge_id == surge_id && self.owner == owner
    }

    /// Reads a stored record: one that names no owner is a receipt that no
    /// deposit has opened yet.
    pub fn held(self) -> (receipt: Option<Receipt>)
        ensures
            receipt == if self.owner == Address::zero_value() {
                None
            } else {
                Some(self)
            },
    {
        if self.owner.same(&Address::zero()) {
            None
        } else {
            Some(self)
        }
    }

    /// The first receipt of `owner` in the surge numbered `surge_id`, holding
    /// `amount`.
    pub open spec fn opened(surge_id: u64, owner: Address, amount: u64) -> Receipt {
        Receipt { amount_deposited: amount, vote: Address::zero_value(), claimed: false, owner, surge_id }
    }
}

} // verus!
