use vstd::prelude::*;
use crate::types::{MintingStatus, Shiden34Error, Timestamp};

verus! {

/// The declared stage of the sale, its schedule and its limits. The stage
/// changes only when the administrator says so; the times are kept as data
/// and decide nothing about the stage.
#[derive(Clone, Copy, Debug, PartialEq, Eq)]
pub struct SaleState {
    pub phase: MintingStatus,
    pub max_supply: u64,
    pub max_amount_per_call: u64,
    pub prepresale_start_at: Timestamp,
    pub presale_start_at: Timestamp,
    pub public_sale_start_at: Timestamp,
    pub public_sale_end_at: Option<Timestamp>,
}

impl SaleState {
    /// One call may always mint at least one token.
    pub open spec fn wf(&self) -> bool {
        self.max_amount_per_call >= 1
    }

    /// Why a request for `amount` tokens is refused by its size alone, with
    /// `supply` tokens issued so far: it asks for nothing, for more than one
    /// call may mint, or for more than the collection has left.
    pub open spec fn amount_rejection(&self, supply: u64, amount: u64) -> Option<Shiden34Error> {
        if amount == 0 {
            Some(Shiden34Error::CannotMintZeroTokens)
        } else if amount > self.max_amount_per_call {
            Some(Shiden34Error::TooManyTokensToMint)
        } else if supply + amount > self.max_supply {
            Some(Shiden34Error::CollectionIsFull)
        } else {
            None
        }
    }

    pub fn check_amount(&self, supply: u64, mint_amount: u64) -> (r: Result<(), Shiden34Error>)
        ensures
            match self.amount_rejection(supply, mint_amount) {
                Some(e) => r == Err::<(), Shiden34Error>(e),
                None => r == Ok::<(), Shiden34Error>(()),
            },
    {
        if mint_amount == 0 {
            return Err(Shiden34Error::CannotMintZeroTokens);
        }
        if mint_amount > self.max_amount_per_call {
            return Err(Shiden34Error::TooManyTokensToMint);
        }
        match supply.checked_add(mint_amount) {
            Some(wanted) => {
                if wanted <= self.max_supply {
                    Ok(())
                } else {
                    Err(Shiden34Error::CollectionIsFull)
                }
            },
            None => Err(Shiden34Error::CollectionIsFull),
        }
    }

    /// Why nobody can mint in the declared stage, if nobody can.
    pub open spec fn phase_rejection(&self) -> Option<Shiden34Error> {
        match self.phase {
            MintingStatus::Unset => Some(Shiden34Error::MintingNotStarted),
            MintingStatus::Ended => Some(Shiden34Error::MintingHasEnded),
            _ => None,
        }
    }

    pub fn check_phase(&self) -> (r: Result<(), Shiden34Error>)
        ensures
            match self.phase_rejection() {
                Some(e) => r == Err::<(), Shiden34Error>(e),
                None => r == Ok::<(), Shiden34Error>(()),
            },
    {
        match self.phase {
            MintingStatus::Unset => Err(Shiden34Error::MintingNotStarted),
            MintingStatus::Ended => Err(Shiden34Error::MintingHasEnded),
            _ => Ok(()),
        }
    }

    /// Whether proceeds may be taken out at the time `now`: the public sale
    /// has no end, or `now` lies after it.
    pub open spec fn spec_sale_finished(&self, now: Timestamp) -> bool {
        match self.public_sale_end_at {
            Some(end) => now > end,
            None => true,
        }
    }

    pub fn sale_finished(&self, now: Timestamp) -> (finished: bool)
        ensures
            finished == self.spec_sale_finished(now),
    {
        match self.public_sale_end_at {
            Some(end) => now > end,
            None => true,
        }
    }

    /// Declares a stage, whichever stage was declared before. Only the
    /// administrator may.
    pub fn set_phase(&mut self, caller_is_admin: bool, phase: MintingStatus) -> (r: Result<
        (),
        Shiden34Error,
    >)
        ensures
            caller_is_admin ==> r == Ok::<(), Shiden34Error>(()) && *final(self) == (SaleState {
                phase,
                ..*old(self)
            }),
            !caller_is_admin ==> r == Err::<(), Shiden34Error>(Shiden34Error::Unauthorized)
                && *final(self) == *old(self),
    {
        if !caller_is_admin {
            return Err(Shiden34Error::Unauthorized);
        }
        self.phase = phase;
        Ok(())
    }

    /// Replaces the number of tokens that one call may mint. Only the
    /// administrator may.
    pub fn set_max_amount_per_call(&mut self, caller_is_admin: bool, max_amount: u64) -> (r: Result<
        (),
        Shiden34Error,
    >)
        requires
            max_amount >= 1,
        ensures
            caller_is_admin ==> r == Ok::<(), Shiden34Error>(()) && *final(self) == (SaleState {
                max_amount_per_call: max_amount,
                ..*old(self)
            }),
            !caller_is_admin ==> r == Err::<(), Shiden34Error>(Shiden34Error::Unauthorized)
                && *final(self) == *old(self),
    {
        if !caller_is_admin {
            return Err(Shiden34Error::Unauthorized);
        }
        self.max_amount_per_call = max_amount;
        Ok(())
    }
}

} // verus!
