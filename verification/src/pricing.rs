use vstd::prelude::*;
use crate::types::{Balance, MintingStatus, Shiden34Error};

verus! {

/// What one token costs in each stage of the sale. A gated stage without a
/// price is closed to orders.
#[derive(Clone, Copy, Debug, PartialEq, Eq)]
pub struct PricingState {
    pub prepresale_price: Option<Balance>,
    pub presale_price: Option<Balance>,
    pub public_price: Balance,
}

impl PricingState {
    /// The price of one token in `phase`, where tokens can be ordered in it.
    pub open spec fn spec_unit_price(&self, phase: MintingStatus) -> Option<Balance> {
        match phase {
            MintingStatus::Prepresale => self.prepresale_price,
            MintingStatus::Presale => self.presale_price,
            MintingStatus::Public => Some(self.public_price),
            MintingStatus::Unset => None,
            MintingStatus::Ended => None,
        }
    }

    pub fn unit_price(&self, phase: MintingStatus) -> (price: Option<Balance>)
        ensures
            price == self.spec_unit_price(phase),
    {
        match phase {
            MintingStatus::Prepresale => self.prepresale_price,
            MintingStatus::Presale => self.presale_price,
            MintingStatus::Public => Some(self.public_price),
            MintingStatus::Unset => None,
            MintingStatus::Ended => None,
        }
    }

    /// Whether `value` pays for `amount` tokens in `phase` to the last unit:
    /// the stage has a price, and `value` is that price times `amount`.
    pub open spec fn pays_exactly(
        &self,
        value: Balance,
        amount: u64,
        phase: MintingStatus,
    ) -> bool {
        self.spec_unit_price(phase) matches Some(price) && price * amount == value
    }

    /// Accepts a payment that is exactly the price of the request, and
    /// nothing else: neither less nor more, nor a price too large to hold.
    pub fn check_value(
        &self,
        transferred_value: Balance,
        mint_amount: u64,
        phase: &MintingStatus,
    ) -> (r: Result<(), Shiden34Error>)
        ensures
            self.pays_exactly(transferred_value, mint_amount, *phase) ==> r == Ok::<
                (),
                Shiden34Error,
            >(()),
            !self.pays_exactly(transferred_value, mint_amount, *phase) ==> r == Err::<
                (),
                Shiden34Error,
            >(Shiden34Error::BadMintValue),
    {
        match self.unit_price(*phase) {
            Some(price) => {
                match price.checked_mul(mint_amount as u128) {
                    Some(required) => {
                        if required == transferred_value {
                            Ok(())
                        } else {
                            Err(Shiden34Error::BadMintValue)
                        }
                    },
                    None => Err(Shiden34Error::BadMintValue),
                }
            },
            None => Err(Shiden34Error::BadMintValue),
        }
    }
}

} // verus!
