use vstd::prelude::*;
use crate::account::AccountId;
use crate::allowlist::{AllowlistRegistry, AllowlistView, with_batch};
use crate::ledger::RevenueLedger;
use crate::pricing::PricingState;
use crate::sale::SaleState;
use crate::token_pool::{lemma_draws, PoolView, TokenPool};
use crate::types::{
    Balance, CallContext, GatedPhase, MintingStatus, Percentage, Shiden34Error, Timestamp, Transfer,
};

verus! {

/// The sale of one collection: its stage and limits, its prices, its
/// allowlists, the identifiers not yet issued, and its proceeds.
///
/// Every operation either takes effect as a whole or refuses and leaves the
/// launchpad as it was. What an operation asks of the world outside, tokens
/// to be issued or currency to be sent, it hands back to its caller, after
/// its own books are up to date.
#[derive(Clone, Debug, PartialEq, Eq)]
pub struct Launchpad {
    pub sale: SaleState,
    pub pricing: PricingState,
    pub allowlist: AllowlistRegistry,
    pub pool: TokenPool,
    pub ledger: RevenueLedger,
    /// How many tokens of the collection have been issued.
    pub total_supply: u64,
}

/// The model of a launchpad that the clauses of its operations speak of:
/// the same values, with the lists as maps and the pool as a sequence.
pub struct LaunchpadView {
    pub sale: SaleState,
    pub pricing: PricingState,
    pub allowlist: AllowlistView,
    pub pool: PoolView,
    pub ledger: RevenueLedger,
    pub total_supply: u64,
}

impl View for Launchpad {
    type V = LaunchpadView;

    open spec fn view(&self) -> LaunchpadView {
        LaunchpadView {
            sale: self.sale,
            pricing: self.pricing,
            allowlist: self.allowlist@,
            pool: self.pool@,
            ledger: self.ledger,
            total_supply: self.total_supply,
        }
    }
}

impl LaunchpadView {
    /// The parts are sound, and the tokens issued and the identifiers left
    /// make up the collection between them.
    pub open spec fn wf(self) -> bool {
        &&& self.sale.wf()
        &&& self.pool.wf()
        &&& self.ledger.wf()
        &&& self.total_supply + self.pool.unused.len() == self.sale.max_supply
    }

    /// Why a paid request for `amount` tokens is refused, if it is. The
    /// size of the request is judged first, then the stage of the sale, then
    /// in a gated stage whether the caller's quota covers the request and
    /// the stage has a price, and last the payment, which has to be the
    /// price to the unit and must not lift the proceeds out of range.
    pub open spec fn mint_rejection(self, ctx: CallContext, amount: u64) -> Option<Shiden34Error> {
        let phase = self.sale.phase;
        if self.sale.amount_rejection(self.total_supply, amount) is Some {
            self.sale.amount_rejection(self.total_supply, amount)
        } else if self.sale.phase_rejection() is Some {
            self.sale.phase_rejection()
        } else if phase.spec_gated() matches Some(gate) && !(self.allowlist.covers(
            gate,
            ctx.caller@,
            amount,
        ) && self.pricing.spec_unit_price(phase) is Some) {
            Some(Shiden34Error::Unauthorized)
        } else if !self.pricing.pays_exactly(ctx.transferred_value, amount, phase) {
            Some(Shiden34Error::BadMintValue)
        } else if self.ledger.total_sales + ctx.transferred_value > u128::MAX {
            Some(Shiden34Error::BadMintValue)
        } else {
            None
        }
    }

    /// The launchpad after `amount` tokens have been drawn for the caller
    /// of `ctx`.
    pub open spec fn after_issue(self, ctx: CallContext, amount: u64) -> LaunchpadView {
        LaunchpadView {
            pool: self.pool.after_draws(ctx.caller@, ctx.block_timestamp, amount as nat),
            total_supply: (self.total_supply + amount) as u64,
            ..self
        }
    }

    /// The launchpad after a paid request: as it was where the request is
    /// refused; else the tokens are drawn, in a gated stage the caller's
    /// quota is less by `amount`, and the payment is added to the proceeds.
    pub open spec fn after_mint(self, ctx: CallContext, amount: u64) -> LaunchpadView {
        if self.mint_rejection(ctx, amount) is Some {
            self
        } else {
            LaunchpadView {
                allowlist: match self.sale.phase.spec_gated() {
                    Some(gate) => self.allowlist.after_consume(gate, ctx.caller@, amount),
                    None => self.allowlist,
                },
                ledger: RevenueLedger {
                    total_sales: (self.ledger.total_sales + ctx.transferred_value) as u128,
                    ..self.ledger
                },
                ..self.after_issue(ctx, amount)
            }
        }
    }

    /// The notices of the tokens that a request for `amount` tokens issues
    /// to `to`, in the order in which they are drawn.
    pub open spec fn issued(self, ctx: CallContext, to: AccountId, amount: u64) -> Seq<Transfer> {
        Seq::new(
            amount as nat,
            |i: int|
                Transfer::spec_issue(
                    to,
                    self.pool.draws(ctx.caller@, ctx.block_timestamp, amount as nat)[i],
                ),
        )
    }

    /// Why a request of the administrator for `amount` tokens free of charge
    /// is refused, if it is: the caller is not the administrator, or the
    /// collection has fewer tokens left.
    pub open spec fn project_mint_rejection(self, ctx: CallContext, amount: u64) -> Option<
        Shiden34Error,
    > {
        if !ctx.caller_is_admin {
            Some(Shiden34Error::Unauthorized)
        } else if self.total_supply + amount > self.sale.max_supply {
            Some(Shiden34Error::CollectionIsFull)
        } else {
            None
        }
    }

    /// The launchpad after a request of the administrator for tokens free of
    /// charge.
    pub open spec fn after_project_mint(self, ctx: CallContext, amount: u64) -> LaunchpadView {
        if self.project_mint_rejection(ctx, amount) is Some {
            self
        } else {
            self.after_issue(ctx, amount)
        }
    }

    /// Why the launchpad's share is not paid out to the caller of `ctx`, if
    /// it is not: the caller is not the launchpad treasury, or there is
    /// none; the public sale has an end and the block's time is not past it;
    /// or the share has been paid out in full.
    pub open spec fn launchpad_withdrawal_rejection(self, ctx: CallContext) -> Option<
        Shiden34Error,
    > {
        self.ledger.launchpad_withdrawal_rejection(
            ctx.caller,
            self.sale.spec_sale_finished(ctx.block_timestamp),
        )
    }

    /// The launchpad after the launchpad treasury has asked for its share:
    /// where it is paid, all that it has earned is booked as withdrawn.
    pub open spec fn after_withdraw_launchpad(self, ctx: CallContext) -> LaunchpadView {
        if self.launchpad_withdrawal_rejection(ctx) is Some {
            self
        } else {
            LaunchpadView {
                ledger: RevenueLedger {
                    withdrawn_launchpad: self.ledger.launchpad_share() as u128,
                    ..self.ledger
                },
                ..self
            }
        }
    }

    /// Why the project's share is not paid out to the caller of `ctx`, if
    /// it is not: the caller is not the project treasury; the public sale
    /// has an end and the block's time is not past it; or the share has been
    /// paid out in full.
    pub open spec fn project_withdrawal_rejection(self, ctx: CallContext) -> Option<Shiden34Error> {
        self.ledger.project_withdrawal_rejection(
            ctx.caller,
            self.sale.spec_sale_finished(ctx.block_timestamp),
        )
    }

    /// The launchpad after the project treasury has asked for its share.
    pub open spec fn after_withdraw_project(self, ctx: CallContext) -> LaunchpadView {
        if self.project_withdrawal_rejection(ctx) is Some {
            self
        } else {
            LaunchpadView {
                ledger: RevenueLedger {
                    withdrawn_project: self.ledger.project_share() as u128,
                    ..self.ledger
                },
                ..self
            }
        }
    }

    /// Why a change that is the administrator's to make is refused, if it
    /// is: the caller is somebody else.
    pub open spec fn admin_rejection(ctx: CallContext) -> Option<Shiden34Error> {
        if ctx.caller_is_admin {
            None
        } else {
            Some(Shiden34Error::Unauthorized)
        }
    }

    /// The launchpad after a request to let one call mint `max_amount`
    /// tokens.
    pub open spec fn after_set_max_mint_amount(
        self,
        ctx: CallContext,
        max_amount: u64,
    ) -> LaunchpadView {
        if ctx.caller_is_admin {
            LaunchpadView {
                sale: SaleState { max_amount_per_call: max_amount, ..self.sale },
                ..self
            }
        } else {
            self
        }
    }

    /// The launchpad after a request to declare the stage that `index`
    /// stands for.
    pub open spec fn after_set_minting_status(
        self,
        ctx: CallContext,
        index: Option<u8>,
    ) -> LaunchpadView {
        if ctx.caller_is_admin {
            LaunchpadView {
                sale: SaleState { phase: MintingStatus::spec_from_index(index), ..self.sale },
                ..self
            }
        } else {
            self
        }
    }

    /// The launchpad after a request to set the quota of one account in a
    /// gated stage.
    pub open spec fn after_add_account(
        self,
        ctx: CallContext,
        phase: GatedPhase,
        account: AccountId,
        quota: u64,
    ) -> LaunchpadView {
        if ctx.caller_is_admin {
            LaunchpadView { allowlist: self.allowlist.with_quota(phase, account@, quota), ..self }
        } else {
            self
        }
    }

    /// The launchpad after a request to set the quotas of a list of
    /// accounts in a gated stage, first to last.
    pub open spec fn after_add_accounts(
        self,
        ctx: CallContext,
        phase: GatedPhase,
        list: Seq<(AccountId, u64)>,
    ) -> LaunchpadView {
        if ctx.caller_is_admin {
            LaunchpadView {
                allowlist: self.allowlist.with_quotas(
                    phase,
                    with_batch(self.allowlist.quotas(phase), list),
                ),
                ..self
            }
        } else {
            self
        }
    }
}

impl Launchpad {
    pub open spec fn wf(&self) -> bool {
        &&& self.allowlist.wf()
        &&& self@.wf()
    }

    /// Whether this launchpad is one that the operations take: its parts are
    /// sound, and the tokens issued and the identifiers left make up the
    /// collection between them.
    pub fn is_well_formed(&self) -> (ok: bool)
        ensures
            ok == self.wf(),
    {
        let left = self.pool.remaining_count();
        self.sale.max_amount_per_call >= 1 && self.allowlist.is_well_formed()
            && self.pool.is_well_formed() && self.ledger.is_well_formed()
            && left <= self.sale.max_supply && self.sale.max_supply - left == self.total_supply
    }

    /// A launchpad at the start of its life: nothing sold, nobody on the
    /// allowlists, and the identifiers above `reserved` up to the whole
    /// supply waiting in the pool. The `reserved` lowest identifiers count as
    /// issued; they are for the caller to hand out.
    pub fn new(
        sale: SaleState,
        pricing: PricingState,
        launchpad_fee: Percentage,
        project_treasury: AccountId,
        launchpad_treasury: Option<AccountId>,
        reserved: u64,
    ) -> (launchpad: Launchpad)
        requires
            sale.wf(),
            launchpad_fee < 100,
            reserved <= sale.max_supply,
        ensures
            launchpad.wf(),
            launchpad@ == (LaunchpadView {
                sale,
                pricing,
                allowlist: AllowlistView { prepresale: Map::empty(), presale: Map::empty() },
                pool: PoolView::spec_range(reserved, sale.max_supply),
                ledger: RevenueLedger {
                    total_sales: 0,
                    withdrawn_launchpad: 0,
                    withdrawn_project: 0,
                    fee_percent: launchpad_fee,
                    project_treasury,
                    launchpad_treasury,
                },
                total_supply: reserved,
            }),
    {
        Launchpad {
            sale,
            pricing,
            allowlist: AllowlistRegistry::new(),
            pool: TokenPool::with_range(reserved, sale.max_supply),
            ledger: RevenueLedger::new(launchpad_fee, project_treasury, launchpad_treasury),
            total_supply: reserved,
        }
    }

    /// Draws `amount` identifiers for the caller of `ctx` and counts them as
    /// issued to `to`.
    fn issue(&mut self, ctx: &CallContext, to: AccountId, amount: u64) -> (notices: Vec<Transfer>)
        requires
            old(self).wf(),
            old(self).total_supply + amount <= old(self).sale.max_supply,
        ensures
            final(self).wf(),
            final(self)@ == old(self)@.after_issue(*ctx, amount),
            final(self).allowlist == old(self).allowlist,
            notices@ == old(self)@.issued(*ctx, to, amount),
    {
        proof {
            lemma_draws(self.pool@, ctx.caller@, ctx.block_timestamp, amount as nat);
        }
        let mut notices: Vec<Transfer> = Vec::new();
        match self.pool.draw(&ctx.caller, ctx.block_timestamp, amount) {
            Ok(ids) => {
                let mut i: usize = 0;
                while i < ids.len()
                    invariant
                        i <= ids@.len(),
                        notices@.len() == i,
                        forall|k: int|
                            0 <= k < i ==> notices@[k] == Transfer::spec_issue(to, ids@[k]),
                    decreases ids@.len() - i,
                {
                    notices.push(Transfer::issue(to, ids[i]));
                    i = i + 1;
                }
            },
            Err(_) => {},
        }
        self.total_supply = self.total_supply + amount;
        assert(notices@ =~= old(self)@.issued(*ctx, to, amount));
        notices
    }

    /// Sells `mint_amount` tokens to the caller of `ctx`, to be issued to
    /// `to`; the notices of the tokens come back in the order drawn. The
    /// payment has to be the price of the request to the unit. A refusal
    /// changes nothing.
    pub fn mint(&mut self, ctx: &CallContext, to: AccountId, mint_amount: u64) -> (r: Result<
        Vec<Transfer>,
        Shiden34Error,
    >)
        requires
            old(self).wf(),
        ensures
            final(self).wf(),
            final(self)@ == old(self)@.after_mint(*ctx, mint_amount),
            match old(self)@.mint_rejection(*ctx, mint_amount) {
                Some(e) => r == Err::<Vec<Transfer>, Shiden34Error>(e),
                None => r is Ok && r->Ok_0@ == old(self)@.issued(*ctx, to, mint_amount),
            },
    {
        match self.sale.check_amount(self.total_supply, mint_amount) {
            Err(e) => {
                return Err(e);
            },
            Ok(_) => {},
        }
        match self.sale.check_phase() {
            Err(e) => {
                return Err(e);
            },
            Ok(_) => {},
        }
        let phase = self.sale.phase;
        let gate = phase.gated();
        match gate {
            Some(g) => {
                let covered = match self.allowlist.remaining(g, &ctx.caller) {
                    Some(left) => mint_amount <= left,
                    None => false,
                };
                if !covered || self.pricing.unit_price(phase).is_none() {
                    return Err(Shiden34Error::Unauthorized);
                }
            },
            None => {},
        }
        match self.pricing.check_value(ctx.transferred_value, mint_amount, &phase) {
            Err(e) => {
                return Err(e);
            },
            Ok(_) => {},
        }
        if self.ledger.total_sales.checked_add(ctx.transferred_value).is_none() {
            return Err(Shiden34Error::BadMintValue);
        }
        let notices = self.issue(ctx, to, mint_amount);
        match gate {
            Some(g) => {
                let _ = self.allowlist.consume(g, &ctx.caller, mint_amount);
            },
            None => {},
        }
        let _ = self.ledger.record_sale(ctx.transferred_value);
        Ok(notices)
    }

    /// Sells the caller of `ctx` one token, issued to the caller.
    pub fn mint_next(&mut self, ctx: &CallContext) -> (r: Result<Vec<Transfer>, Shiden34Error>)
        requires
            old(self).wf(),
        ensures
            final(self).wf(),
            final(self)@ == old(self)@.after_mint(*ctx, 1),
            match old(self)@.mint_rejection(*ctx, 1) {
                Some(e) => r == Err::<Vec<Transfer>, Shiden34Error>(e),
                None => r is Ok && r->Ok_0@ == old(self)@.issued(*ctx, ctx.caller, 1),
            },
    {
        self.mint(ctx, ctx.caller, 1)
    }

    /// Issues `mint_amount` tokens to `to` free of charge, whatever the
    /// stage of the sale and the allowlists say, as long as the collection
    /// has that many left. Only the administrator may.
    pub fn mint_project(&mut self, ctx: &CallContext, to: AccountId, mint_amount: u64) -> (r:
        Result<Vec<Transfer>, Shiden34Error>)
        requires
            old(self).wf(),
        ensures
            final(self).wf(),
            final(self)@ == old(self)@.after_project_mint(*ctx, mint_amount),
            match old(self)@.project_mint_rejection(*ctx, mint_amount) {
                Some(e) => r == Err::<Vec<Transfer>, Shiden34Error>(e),
                None => r is Ok && r->Ok_0@ == old(self)@.issued(*ctx, to, mint_amount),
            },
    {
        if !ctx.caller_is_admin {
            return Err(Shiden34Error::Unauthorized);
        }
        match self.total_supply.checked_add(mint_amount) {
            Some(wanted) => {
                if wanted > self.sale.max_supply {
                    return Err(Shiden34Error::CollectionIsFull);
                }
            },
            None => {
                return Err(Shiden34Error::CollectionIsFull);
            },
        }
        Ok(self.issue(ctx, to, mint_amount))
    }

    /// Judges a request by its size alone: it has to ask for at least one
    /// token, for no more than one call may mint, and for no more than the
    /// collection has left.
    pub fn check_amount(&self, mint_amount: u64) -> (r: Result<(), Shiden34Error>)
        ensures
            match self.sale.amount_rejection(self.total_supply, mint_amount) {
                Some(e) => r == Err::<(), Shiden34Error>(e),
                None => r == Ok::<(), Shiden34Error>(()),
            },
    {
        self.sale.check_amount(self.total_supply, mint_amount)
    }

    /// Judges a payment: it has to be the price of `mint_amount` tokens in
    /// `phase` to the unit.
    pub fn check_value(
        &self,
        transferred_value: Balance,
        mint_amount: u64,
        phase: &MintingStatus,
    ) -> (r: Result<(), Shiden34Error>)
        ensures
            self.pricing.pays_exactly(transferred_value, mint_amount, *phase) ==> r == Ok::<
                (),
                Shiden34Error,
            >(()),
            !self.pricing.pays_exactly(transferred_value, mint_amount, *phase) ==> r == Err::<
                (),
                Shiden34Error,
            >(Shiden34Error::BadMintValue),
    {
        self.pricing.check_value(transferred_value, mint_amount, phase)
    }

    /// What the launchpad treasury can take out now.
    pub fn get_available_to_withdraw_launchpad(&self) -> (amount: Balance)
        requires
            self.wf(),
        ensures
            amount == self.ledger.spec_available_launchpad(),
    {
        self.ledger.available_launchpad()
    }

    /// What the project treasury can take out now.
    pub fn get_available_to_withdraw_project(&self) -> (amount: Balance)
        requires
            self.wf(),
        ensures
            amount == self.ledger.spec_available_project(),
    {
        self.ledger.available_project()
    }

    /// Pays the launchpad treasury all that it can take out. The amount is
    /// booked as withdrawn before it comes back, to be sent to the caller.
    /// Nobody but the launchpad treasury is paid, and nobody before the
    /// public sale has ended.
    pub fn withdraw_launchpad(&mut self, ctx: &CallContext) -> (r: Result<Balance, Shiden34Error>)
        requires
            old(self).wf(),
        ensures
            final(self).wf(),
            final(self)@ == old(self)@.after_withdraw_launchpad(*ctx),
            match old(self)@.launchpad_withdrawal_rejection(*ctx) {
                Some(e) => r == Err::<Balance, Shiden34Error>(e),
                None => r == Ok::<Balance, Shiden34Error>(
                    old(self).ledger.spec_available_launchpad() as u128,
                ),
            },
    {
        let finished = self.sale.sale_finished(ctx.block_timestamp);
        self.ledger.withdraw_launchpad(&ctx.caller, finished)
    }

    /// Pays the project treasury all that it can take out, in the same way.
    pub fn withdraw_project(&mut self, ctx: &CallContext) -> (r: Result<Balance, Shiden34Error>)
        requires
            old(self).wf(),
        ensures
            final(self).wf(),
            final(self)@ == old(self)@.after_withdraw_project(*ctx),
            match old(self)@.project_withdrawal_rejection(*ctx) {
                Some(e) => r == Err::<Balance, Shiden34Error>(e),
                None => r == Ok::<Balance, Shiden34Error>(
                    old(self).ledger.spec_available_project() as u128,
                ),
            },
    {
        let finished = self.sale.sale_finished(ctx.block_timestamp);
        self.ledger.withdraw_project(&ctx.caller, finished)
    }

    /// Replaces the number of tokens that one call may mint. Only the
    /// administrator may.
    pub fn set_max_mint_amount(&mut self, ctx: &CallContext, max_amount: u64) -> (r: Result<
        (),
        Shiden34Error,
    >)
        requires
            old(self).wf(),
            max_amount >= 1,
        ensures
            final(self).wf(),
            final(self)@ == old(self)@.after_set_max_mint_amount(*ctx, max_amount),
            match LaunchpadView::admin_rejection(*ctx) {
                Some(e) => r == Err::<(), Shiden34Error>(e),
                None => r == Ok::<(), Shiden34Error>(()),
            },
    {
        self.sale.set_max_amount_per_call(ctx.caller_is_admin, max_amount)
    }

    /// Declares the stage that `minting_status_index` stands for, whichever
    /// stage was declared before. Only the administrator may.
    pub fn set_minting_status(&mut self, ctx: &CallContext, minting_status_index: Option<u8>) -> (r:
        Result<(), Shiden34Error>)
        requires
            old(self).wf(),
        ensures
            final(self).wf(),
            final(self)@ == old(self)@.after_set_minting_status(*ctx, minting_status_index),
            match LaunchpadView::admin_rejection(*ctx) {
                Some(e) => r == Err::<(), Shiden34Error>(e),
                None => r == Ok::<(), Shiden34Error>(()),
            },
    {
        self.sale.set_phase(ctx.caller_is_admin, MintingStatus::from_index(minting_status_index))
    }

    /// The declared stage of the sale, as text.
    pub fn get_minting_status(&self) -> (text: String)
        ensures
            text@ == self.sale.phase.spec_text(),
    {
        self.sale.phase.as_str()
    }

    /// Sets the quota of `account_id` in the first gated stage. Only the
    /// administrator may.
    pub fn add_account_to_prepresale(
        &mut self,
        ctx: &CallContext,
        account_id: AccountId,
        mint_amount: u64,
    ) -> (r: Result<(), Shiden34Error>)
        requires
            old(self).wf(),
        ensures
            final(self).wf(),
            final(self)@ == old(self)@.after_add_account(
                *ctx,
                GatedPhase::Prepresale,
                account_id,
                mint_amount,
            ),
            match LaunchpadView::admin_rejection(*ctx) {
                Some(e) => r == Err::<(), Shiden34Error>(e),
                None => r == Ok::<(), Shiden34Error>(()),
            },
    {
        self.allowlist.add(ctx.caller_is_admin, GatedPhase::Prepresale, account_id, mint_amount)
    }

    /// Sets the quota of `account_id` in the second gated stage. Only the
    /// administrator may.
    pub fn add_account_to_presale(
        &mut self,
        ctx: &CallContext,
        account_id: AccountId,
        mint_amount: u64,
    ) -> (r: Result<(), Shiden34Error>)
        requires
            old(self).wf(),
        ensures
            final(self).wf(),
            final(self)@ == old(self)@.after_add_account(
                *ctx,
                GatedPhase::Presale,
                account_id,
                mint_amount,
            ),
            match LaunchpadView::admin_rejection(*ctx) {
                Some(e) => r == Err::<(), Shiden34Error>(e),
                None => r == Ok::<(), Shiden34Error>(()),
            },
    {
        self.allowlist.add(ctx.caller_is_admin, GatedPhase::Presale, account_id, mint_amount)
    }

    /// Sets the quotas of a list of accounts in the first gated stage, first
    /// to last. Without the administrator's authority none is set.
    pub fn add_account_to_prepresale_batch(
        &mut self,
        ctx: &CallContext,
        account_id_mint_amounts: Vec<(AccountId, u64)>,
    ) -> (r: Result<(), Shiden34Error>)
        requires
            old(self).wf(),
        ensures
            final(self).wf(),
            final(self)@ == old(self)@.after_add_accounts(
                *ctx,
                GatedPhase::Prepresale,
                account_id_mint_amounts@,
            ),
            match LaunchpadView::admin_rejection(*ctx) {
                Some(e) => r == Err::<(), Shiden34Error>(e),
                None => r == Ok::<(), Shiden34Error>(()),
            },
    {
        self.allowlist.add_batch(
            ctx.caller_is_admin,
            GatedPhase::Prepresale,
            &account_id_mint_amounts,
        )
    }

    /// Sets the quotas of a list of accounts in the second gated stage,
    /// first to last. Without the administrator's authority none is set.
    pub fn add_account_to_presale_batch(
        &mut self,
        ctx: &CallContext,
        account_id_mint_amounts: Vec<(AccountId, u64)>,
    ) -> (r: Result<(), Shiden34Error>)
        requires
            old(self).wf(),
        ensures
            final(self).wf(),
            final(self)@ == old(self)@.after_add_accounts(
                *ctx,
                GatedPhase::Presale,
                account_id_mint_amounts@,
            ),
            match LaunchpadView::admin_rejection(*ctx) {
                Some(e) => r == Err::<(), Shiden34Error>(e),
                None => r == Ok::<(), Shiden34Error>(()),
            },
    {
        self.allowlist.add_batch(ctx.caller_is_admin, GatedPhase::Presale, &account_id_mint_amounts)
    }

    /// What is left of the quota of `account_id` in the first gated stage,
    /// if it is on that stage's list.
    pub fn get_account_prepresale_minting_amount(&self, account_id: AccountId) -> (quota: Option<
        u64,
    >)
        requires
            self.wf(),
        ensures
            quota == self@.allowlist.remaining(GatedPhase::Prepresale, account_id@),
    {
        self.allowlist.remaining(GatedPhase::Prepresale, &account_id)
    }

    /// What is left of the quota of `account_id` in the second gated stage,
    /// if it is on that stage's list.
    pub fn get_account_presale_minting_amount(&self, account_id: AccountId) -> (quota: Option<u64>)
        requires
            self.wf(),
        ensures
            quota == self@.allowlist.remaining(GatedPhase::Presale, account_id@),
    {
        self.allowlist.remaining(GatedPhase::Presale, &account_id)
    }

    /// How many tokens have been issued.
    pub fn total_supply(&self) -> (supply: u64)
        ensures
            supply == self.total_supply,
    {
        self.total_supply
    }

    /// How many tokens the collection has in all.
    pub fn max_supply(&self) -> (supply: u64)
        ensures
            supply == self.sale.max_supply,
    {
        self.sale.max_supply
    }

    /// The price of one token in the public sale.
    pub fn price(&self) -> (price: Balance)
        ensures
            price == self.pricing.public_price,
    {
        self.pricing.public_price
    }

    /// The price of one token in the first gated stage, if it has one.
    pub fn prepresale_price(&self) -> (price: Option<Balance>)
        ensures
            price == self.pricing.prepresale_price,
    {
        self.pricing.prepresale_price
    }

    /// The price of one token in the second gated stage, if it has one.
    pub fn presale_price(&self) -> (price: Option<Balance>)
        ensures
            price == self.pricing.presale_price,
    {
        self.pricing.presale_price
    }

    pub fn get_prepresale_start_at(&self) -> (at: Timestamp)
        ensures
            at == self.sale.prepresale_start_at,
    {
        self.sale.prepresale_start_at
    }

    pub fn get_presale_start_at(&self) -> (at: Timestamp)
        ensures
            at == self.sale.presale_start_at,
    {
        self.sale.presale_start_at
    }

    pub fn get_public_sale_start_at(&self) -> (at: Timestamp)
        ensures
            at == self.sale.public_sale_start_at,
    {
        self.sale.public_sale_start_at
    }

    pub fn get_public_sale_end_at(&self) -> (at: Option<Timestamp>)
        ensures
            at == self.sale.public_sale_end_at,
    {
        self.sale.public_sale_end_at
    }

    /// The launchpad's share of the proceeds, in hundredths.
    pub fn get_launchpad_fee(&self) -> (fee: Percentage)
        ensures
            fee == self.ledger.fee_percent,
    {
        self.ledger.fee_percent
    }

    pub fn get_project_treasury_address(&self) -> (treasury: AccountId)
        ensures
            treasury == self.ledger.project_treasury,
    {
        self.ledger.project_treasury
    }

    pub fn get_launchpad_treasury_address(&self) -> (treasury: Option<AccountId>)
        ensures
            treasury == self.ledger.launchpad_treasury,
    {
        self.ledger.launchpad_treasury
    }

    /// How many tokens one call may mint.
    pub fn get_max_mint_amount(&self) -> (max_amount: u64)
        ensures
            max_amount == self.sale.max_amount_per_call,
    {
        self.sale.max_amount_per_call
    }
}

} // verus!
