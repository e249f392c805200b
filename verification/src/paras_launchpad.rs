use vstd::prelude::*;
use crate::account::AccountId;
use crate::allowlist::AllowlistView;
use crate::launchpad::{Launchpad, LaunchpadView};
use crate::ledger::RevenueLedger;
use crate::pricing::PricingState;
use crate::sale::SaleState;
use crate::token_pool::PoolView;
use crate::types::{Balance, MintingStatus, Percentage, Timestamp};

verus! {

/// How many tokens one call may mint, until the administrator says
/// otherwise.
pub const MAX_AMOUNT_PER_CALL: u64 = 10;

/// A collection sold through the launchpad on terms of the project's own
/// choosing: it has a price for every stage, and the launchpad takes a fee
/// from every sale.
#[derive(Clone, Debug, PartialEq, Eq)]
pub struct ParasLaunchpadContract {
    pub launchpad: Launchpad,
    pub name: String,
    pub symbol: String,
    pub base_uri: String,
}

impl ParasLaunchpadContract {
    /// The launchpad of the collection when it is set up.
    pub open spec fn spec_launchpad(
        max_supply: u64,
        prepresale_price_per_mint: Balance,
        presale_price_per_mint: Balance,
        price_per_mint: Balance,
        prepresale_start_at: Timestamp,
        presale_start_at: Timestamp,
        public_sale_start_at: Timestamp,
        public_sale_end_at: Option<Timestamp>,
        launchpad_fee: Percentage,
        project_treasury: AccountId,
        launchpad_treasury: AccountId,
    ) -> LaunchpadView {
        LaunchpadView {
            sale: SaleState {
                phase: MintingStatus::Unset,
                max_supply,
                max_amount_per_call: MAX_AMOUNT_PER_CALL,
                prepresale_start_at,
                presale_start_at,
                public_sale_start_at,
                public_sale_end_at,
            },
            pricing: PricingState {
                prepresale_price: Some(prepresale_price_per_mint),
                presale_price: Some(presale_price_per_mint),
                public_price: price_per_mint,
            },
            allowlist: AllowlistView { prepresale: Map::empty(), presale: Map::empty() },
            pool: PoolView::spec_range(0, max_supply),
            ledger: RevenueLedger {
                total_sales: 0,
                withdrawn_launchpad: 0,
                withdrawn_project: 0,
                fee_percent: launchpad_fee,
                project_treasury,
                launchpad_treasury: Some(launchpad_treasury),
            },
            total_supply: 0,
        }
    }

    /// Sets the collection up with all of its tokens, 1 to `max_supply`,
    /// waiting in the pool. A fee of a hundred hundredths or more would
    /// leave the project nothing and is not accepted.
    pub fn new(
        name: String,
        symbol: String,
        base_uri: String,
        max_supply: u64,
        prepresale_price_per_mint: Balance,
        presale_price_per_mint: Balance,
        price_per_mint: Balance,
        prepresale_start_at: Timestamp,
        presale_start_at: Timestamp,
        public_sale_start_at: Timestamp,
        public_sale_end_at: Option<Timestamp>,
        launchpad_fee: Percentage,
        project_treasury: AccountId,
        launchpad_treasury: AccountId,
    ) -> (instance: ParasLaunchpadContract)
        requires
            launchpad_fee < 100,
        ensures
            instance.launchpad.wf(),
            instance.launchpad@ == Self::spec_launchpad(
                max_supply,
                prepresale_price_per_mint,
                presale_price_per_mint,
                price_per_mint,
                prepresale_start_at,
                presale_start_at,
                public_sale_start_at,
                public_sale_end_at,
                launchpad_fee,
                project_treasury,
                launchpad_treasury,
            ),
            instance.name == name,
            instance.symbol == symbol,
            instance.base_uri == base_uri,
    {
        let sale = SaleState {
            phase: MintingStatus::Unset,
            max_supply,
            max_amount_per_call: MAX_AMOUNT_PER_CALL,
            prepresale_start_at,
            presale_start_at,
            public_sale_start_at,
            public_sale_end_at,
        };
        let pricing = PricingState {
            prepresale_price: Some(prepresale_price_per_mint),
            presale_price: Some(presale_price_per_mint),
            public_price: price_per_mint,
        };
        let launchpad = Launchpad::new(
            sale,
            pricing,
            launchpad_fee,
            project_treasury,
            Some(launchpad_treasury),
            0,
        );
        ParasLaunchpadContract { launchpad, name, symbol, base_uri }
    }
}

} // verus!
