use vstd::prelude::*;
use vstd::arithmetic::mul::{
    lemma_mul_inequality, lemma_mul_is_commutative, lemma_mul_is_distributive_add,
};
use crate::account::AccountId;
use crate::types::{Balance, Percentage, Shiden34Error};

verus! {

/// The proceeds of the sale, and how much of them each of the two
/// treasuries has taken out.
#[derive(Clone, Copy, Debug, PartialEq, Eq)]
pub struct RevenueLedger {
    pub total_sales: Balance,
    pub withdrawn_launchpad: Balance,
    pub withdrawn_project: Balance,
    pub fee_percent: Percentage,
    pub project_treasury: AccountId,
    pub launchpad_treasury: Option<AccountId>,
}

/// `percent` hundredths of `total`, rounded down.
pub open spec fn share(total: Balance, percent: int) -> int {
    (total * percent) / 100
}

/// A larger total gives no smaller share.
pub proof fn lemma_share_grows(smaller: Balance, larger: Balance, percent: int)
    requires
        smaller <= larger,
        0 <= percent,
    ensures
        share(smaller, percent) <= share(larger, percent),
{
    lemma_mul_inequality(smaller as int, larger as int, percent);
}

/// Two shares that together make the whole never exceed the total, and
/// neither exceeds it alone.
pub proof fn lemma_shares_within_total(total: Balance, percent: int)
    requires
        0 <= percent <= 100,
    ensures
        0 <= share(total, percent) <= total,
        share(total, percent) + share(total, 100 - percent) <= total,
{
    lemma_mul_is_distributive_add(total as int, percent, 100 - percent);
    lemma_mul_is_commutative(total as int, 100);
    lemma_mul_inequality(0, total as int, percent);
    lemma_mul_inequality(0, total as int, 100 - percent);
}

/// `percent` hundredths of `total`, rounded down, without a product that
/// could leave the integer type.
pub fn percent_of(total: Balance, percent: Percentage) -> (part: Balance)
    requires
        percent <= 100,
    ensures
        part == share(total, percent as int),
{
    let whole: u128 = total / 100;
    let rest: u128 = total % 100;
    proof {
        assert(total * percent == 100 * (whole * percent) + rest * percent && total * percent
            <= total * 100 && 0 <= whole * percent <= whole * 100 && 0 <= rest * percent <= 9900)
            by (nonlinear_arith)
            requires
                total == 100 * whole + rest,
                rest < 100,
                percent <= 100,
        ;
    }
    whole * percent + (rest * percent) / 100
}

impl RevenueLedger {
    /// What the launchpad treasury has earned so far.
    pub open spec fn launchpad_share(&self) -> int {
        share(self.total_sales, self.fee_percent as int)
    }

    /// What the project treasury has earned so far.
    pub open spec fn project_share(&self) -> int {
        share(self.total_sales, 100 - self.fee_percent)
    }

    /// The fee leaves something to the project, and neither treasury has
    /// taken out more than it has earned, so that together they have taken
    /// out no more than was sold.
    pub open spec fn wf(&self) -> bool {
        &&& self.fee_percent < 100
        &&& self.withdrawn_launchpad <= self.launchpad_share()
        &&& self.withdrawn_project <= self.project_share()
        &&& self.withdrawn_launchpad + self.withdrawn_project <= self.total_sales
    }

    /// What the launchpad treasury can take out now.
    pub open spec fn spec_available_launchpad(&self) -> int {
        self.launchpad_share() - self.withdrawn_launchpad
    }

    /// What the project treasury can take out now.
    pub open spec fn spec_available_project(&self) -> int {
        self.project_share() - self.withdrawn_project
    }

    /// Whether this ledger is one that the operations take.
    pub fn is_well_formed(&self) -> (ok: bool)
        ensures
            ok == self.wf(),
    {
        if self.fee_percent >= 100 {
            return false;
        }
        proof {
            lemma_shares_within_total(self.total_sales, self.fee_percent as int);
        }
        self.withdrawn_launchpad <= percent_of(self.total_sales, self.fee_percent)
            && self.withdrawn_project <= percent_of(self.total_sales, 100 - self.fee_percent)
    }

    /// An empty ledger that splits what comes in by `fee_percent`.
    pub fn new(fee_percent: Percentage, project_treasury: AccountId, launchpad_treasury: Option<
        AccountId,
    >) -> (ledger: RevenueLedger)
        requires
            fee_percent < 100,
        ensures
            ledger.wf(),
            ledger == (RevenueLedger {
                total_sales: 0,
                withdrawn_launchpad: 0,
                withdrawn_project: 0,
                fee_percent,
                project_treasury,
                launchpad_treasury,
            }),
    {
        let ledger = RevenueLedger {
            total_sales: 0,
            withdrawn_launchpad: 0,
            withdrawn_project: 0,
            fee_percent,
            project_treasury,
            launchpad_treasury,
        };
        proof {
            lemma_shares_within_total(0, fee_percent as int);
            lemma_shares_within_total(0, 100 - fee_percent);
        }
        ledger
    }

    /// Books a sale. A total that would not fit is refused and nothing is
    /// booked.
    pub fn record_sale(&mut self, amount: Balance) -> (r: Result<(), Shiden34Error>)
        requires
            old(self).wf(),
        ensures
            final(self).wf(),
            old(self).total_sales + amount <= u128::MAX ==> r == Ok::<(), Shiden34Error>(())
                && *final(self) == (RevenueLedger {
                total_sales: (old(self).total_sales + amount) as u128,
                ..*old(self)
            }),
            old(self).total_sales + amount > u128::MAX ==> r == Err::<(), Shiden34Error>(
                Shiden34Error::BadMintValue,
            ) && *final(self) == *old(self),
    {
        match self.total_sales.checked_add(amount) {
            Some(total) => {
                proof {
                    lemma_share_grows(self.total_sales, total, self.fee_percent as int);
                    lemma_share_grows(self.total_sales, total, 100 - self.fee_percent);
                }
                self.total_sales = total;
                Ok(())
            },
            None => Err(Shiden34Error::BadMintValue),
        }
    }

    pub fn available_launchpad(&self) -> (amount: Balance)
        requires
            self.wf(),
        ensures
            amount == self.spec_available_launchpad(),
    {
        percent_of(self.total_sales, self.fee_percent) - self.withdrawn_launchpad
    }

    pub fn available_project(&self) -> (amount: Balance)
        requires
            self.wf(),
        ensures
            amount == self.spec_available_project(),
    {
        percent_of(self.total_sales, 100 - self.fee_percent) - self.withdrawn_project
    }

    /// Why the launchpad's share is not paid out to `caller`, if it is not:
    /// the caller is not the launchpad treasury, or there is none; the sale
    /// has not finished; or the share has been paid out in full.
    pub open spec fn launchpad_withdrawal_rejection(
        &self,
        caller: AccountId,
        sale_finished: bool,
    ) -> Option<Shiden34Error> {
        if !caller.spec_occupies(self.launchpad_treasury) {
            Some(Shiden34Error::Unauthorized)
        } else if !sale_finished {
            Some(Shiden34Error::SaleNotFinished)
        } else if self.spec_available_launchpad() == 0 {
            Some(Shiden34Error::NothingToWithdraw)
        } else {
            None
        }
    }

    /// Why the project's share is not paid out to `caller`, if it is not.
    pub open spec fn project_withdrawal_rejection(
        &self,
        caller: AccountId,
        sale_finished: bool,
    ) -> Option<Shiden34Error> {
        if caller@ != self.project_treasury@ {
            Some(Shiden34Error::Unauthorized)
        } else if !sale_finished {
            Some(Shiden34Error::SaleNotFinished)
        } else if self.spec_available_project() == 0 {
            Some(Shiden34Error::NothingToWithdraw)
        } else {
            None
        }
    }

    /// Pays the launchpad treasury all that it can take out: the amount is
    /// booked as withdrawn and returned, for the caller to be sent it.
    /// A refusal changes nothing.
    pub fn withdraw_launchpad(&mut self, caller: &AccountId, sale_finished: bool) -> (r: Result<
        Balance,
        Shiden34Error,
    >)
        requires
            old(self).wf(),
        ensures
            final(self).wf(),
            match old(self).launchpad_withdrawal_rejection(*caller, sale_finished) {
                Some(e) => r == Err::<Balance, Shiden34Error>(e) && *final(self) == *old(self),
                None => r == Ok::<Balance, Shiden34Error>(
                    old(self).spec_available_launchpad() as u128,
                ) && *final(self) == (RevenueLedger {
                    withdrawn_launchpad: old(self).launchpad_share() as u128,
                    ..*old(self)
                }),
            },
    {
        if !caller.occupies(&self.launchpad_treasury) {
            return Err(Shiden34Error::Unauthorized);
        }
        if !sale_finished {
            return Err(Shiden34Error::SaleNotFinished);
        }
        let amount = self.available_launchpad();
        if amount == 0 {
            return Err(Shiden34Error::NothingToWithdraw);
        }
        proof {
            lemma_shares_within_total(self.total_sales, self.fee_percent as int);
        }
        self.withdrawn_launchpad = self.withdrawn_launchpad + amount;
        Ok(amount)
    }

    /// Pays the project treasury all that it can take out, in the same way.
    pub fn withdraw_project(&mut self, caller: &AccountId, sale_finished: bool) -> (r: Result<
        Balance,
        Shiden34Error,
    >)
        requires
            old(self).wf(),
        ensures
            final(self).wf(),
            match old(self).project_withdrawal_rejection(*caller, sale_finished) {
                Some(e) => r == Err::<Balance, Shiden34Error>(e) && *final(self) == *old(self),
                None => r == Ok::<Balance, Shiden34Error>(
                    old(self).spec_available_project() as u128,
                ) && *final(self) == (RevenueLedger {
                    withdrawn_project: old(self).project_share() as u128,
                    ..*old(self)
                }),
            },
    {
        if *caller != self.project_treasury {
            return Err(Shiden34Error::Unauthorized);
        }
        if !sale_finished {
            return Err(Shiden34Error::SaleNotFinished);
        }
        let amount = self.available_project();
        if amount == 0 {
            return Err(Shiden34Error::NothingToWithdraw);
        }
        proof {
            lemma_shares_within_total(self.total_sales, self.fee_percent as int);
        }
        self.withdrawn_project = self.withdrawn_project + amount;
        Ok(amount)
    }
}

} // verus!
