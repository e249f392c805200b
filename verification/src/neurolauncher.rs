use vstd::prelude::*;
use crate::account::AccountId;
use crate::allowlist::AllowlistView;
use crate::launchpad::{Launchpad, LaunchpadView};
use crate::ledger::RevenueLedger;
use crate::pricing::PricingState;
use crate::sale::SaleState;
use crate::token_pool::PoolView;
use crate::types::{Balance, MintingStatus, Timestamp, Transfer};

verus! {

/// How many tokens the collection has.
pub const MAX_SUPPLY: u64 = 1000;

/// How many tokens one call may mint, until the administrator says
/// otherwise.
pub const MAX_AMOUNT_PER_CALL: u64 = 3;

/// How many tokens, the lowest identifiers, go to the project treasury when
/// the collection is set up.
pub const MINTED_TO_OWNER: u64 = 100;

/// The Neurolauncher collection: a thousand tokens, of which the first
/// hundred belong to the project from the start. It has a presale and a
/// public sale, keeps every sale for the project, and lets it take the
/// proceeds out at any time.
#[derive(Clone, Debug, PartialEq, Eq)]
pub struct Neurolauncher {
    pub launchpad: Launchpad,
    pub name: String,
    pub symbol: String,
    pub base_uri: String,
    /// The notices of the tokens that went to the project treasury when the
    /// collection was set up.
    pub reserved: Vec<Transfer>,
}

/// The tokens that go to the project at the start are none of those that
/// wait in the pool: no identifier of the collection is handed out twice,
/// not even across the two ways of handing one out.
pub proof fn lemma_reserve_is_apart(
    presale_price_per_mint: Balance,
    price_per_mint: Balance,
    prepresale_start_at: Timestamp,
    presale_start_at: Timestamp,
    public_sale_start_at: Timestamp,
    project_treasury: AccountId,
    id: u64,
)
    ensures
        Neurolauncher::spec_launchpad(
            presale_price_per_mint,
            price_per_mint,
            prepresale_start_at,
            presale_start_at,
            public_sale_start_at,
            project_treasury,
        ).pool.unused.contains(id) <==> MINTED_TO_OWNER < id <= MAX_SUPPLY,
{
    let pool = PoolView::spec_range(MINTED_TO_OWNER, MAX_SUPPLY);
    if MINTED_TO_OWNER < id <= MAX_SUPPLY {
        assert(pool.unused[id - MINTED_TO_OWNER - 1] == id);
    }
}

impl Neurolauncher {
    /// The launchpad of the collection when it is set up.
    pub open spec fn spec_launchpad(
        presale_price_per_mint: Balance,
        price_per_mint: Balance,
        prepresale_start_at: Timestamp,
        presale_start_at: Timestamp,
        public_sale_start_at: Timestamp,
        project_treasury: AccountId,
    ) -> LaunchpadView {
        LaunchpadView {
            sale: SaleState {
                phase: MintingStatus::Unset,
                max_supply: MAX_SUPPLY,
                max_amount_per_call: MAX_AMOUNT_PER_CALL,
                prepresale_start_at,
                presale_start_at,
                public_sale_start_at,
                public_sale_end_at: None,
            },
            pricing: PricingState {
                prepresale_price: None,
                presale_price: Some(presale_price_per_mint),
                public_price: price_per_mint,
            },
            allowlist: AllowlistView { prepresale: Map::empty(), presale: Map::empty() },
            pool: PoolView::spec_range(MINTED_TO_OWNER, MAX_SUPPLY),
            ledger: RevenueLedger {
                total_sales: 0,
                withdrawn_launchpad: 0,
                withdrawn_project: 0,
                fee_percent: 0,
                project_treasury,
                launchpad_treasury: None,
            },
            total_supply: MINTED_TO_OWNER,
        }
    }

    /// Sets the collection up. The tokens 1 to 100 are issued to the project
    /// treasury, in rising order, and the others wait in the pool.
    pub fn new(
        base_uri: String,
        presale_price_per_mint: Balance,
        price_per_mint: Balance,
        prepresale_start_at: Timestamp,
        presale_start_at: Timestamp,
        public_sale_start_at: Timestamp,
        project_treasury: AccountId,
    ) -> (instance: Neurolauncher)
        ensures
            instance.launchpad.wf(),
            instance.launchpad@ == Self::spec_launchpad(
                presale_price_per_mint,
                price_per_mint,
                prepresale_start_at,
                presale_start_at,
                public_sale_start_at,
                project_treasury,
            ),
            instance.name@ == "Neurolauncher"@,
            instance.symbol@ == "NRL"@,
            instance.base_uri == base_uri,
            instance.reserved@ == Seq::new(
                MINTED_TO_OWNER as nat,
                |i: int| Transfer::spec_issue(project_treasury, (i + 1) as u64),
            ),
    {
        let sale = SaleState {
            phase: MintingStatus::Unset,
            max_supply: MAX_SUPPLY,
            max_amount_per_call: MAX_AMOUNT_PER_CALL,
            prepresale_start_at,
            presale_start_at,
            public_sale_start_at,
            public_sale_end_at: None,
        };
        let pricing = PricingState {
            prepresale_price: None,
            presale_price: Some(presale_price_per_mint),
            public_price: price_per_mint,
        };
        let launchpad = Launchpad::new(sale, pricing, 0, project_treasury, None, MINTED_TO_OWNER);
        let mut reserved: Vec<Transfer> = Vec::new();
        let mut id: u64 = 0;
        while id < MINTED_TO_OWNER
            invariant
                id <= MINTED_TO_OWNER,
                reserved@.len() == id,
                forall|i: int|
                    0 <= i < id ==> reserved@[i] == Transfer::spec_issue(
                        project_treasury,
                        (i + 1) as u64,
                    ),
            decreases MINTED_TO_OWNER - id,
        {
            id = id + 1;
            reserved.push(Transfer::issue(project_treasury, id));
        }
        assert(reserved@ =~= Seq::new(
            MINTED_TO_OWNER as nat,
            |i: int| Transfer::spec_issue(project_treasury, (i + 1) as u64),
        ));
        Neurolauncher {
            launchpad,
            name: "Neurolauncher".to_owned(),
            symbol: "NRL".to_owned(),
            base_uri,
            reserved,
        }
    }
}

} // verus!
