use vstd::prelude::*;
use crate::account::AccountId;
use crate::launchpad::LaunchpadView;
use crate::ledger::{lemma_share_grows, lemma_shares_within_total};
use crate::token_pool::lemma_draws;
use crate::types::{CallContext, GatedPhase, Shiden34Error};

verus! {

/// One request to a launchpad, with what the chain says of the call.
pub enum Operation {
    Mint { ctx: CallContext, to: AccountId, amount: u64 },
    MintProject { ctx: CallContext, to: AccountId, amount: u64 },
    WithdrawLaunchpad { ctx: CallContext },
    WithdrawProject { ctx: CallContext },
    SetMaxMintAmount { ctx: CallContext, max_amount: u64 },
    SetMintingStatus { ctx: CallContext, index: Option<u8> },
    AddAccount { ctx: CallContext, phase: GatedPhase, account: AccountId, quota: u64 },
    AddAccounts { ctx: CallContext, phase: GatedPhase, list: Seq<(AccountId, u64)> },
}

impl Operation {
    /// Whether the request is one that a launchpad takes at all: one call
    /// cannot be limited to no token.
    pub open spec fn admissible(self) -> bool {
        self matches Operation::SetMaxMintAmount { max_amount, .. } ==> max_amount >= 1
    }
}

impl LaunchpadView {
    /// Why a request is refused, if it is.
    pub open spec fn rejection(self, op: Operation) -> Option<Shiden34Error> {
        match op {
            Operation::Mint { ctx, amount, .. } => self.mint_rejection(ctx, amount),
            Operation::MintProject { ctx, amount, .. } => self.project_mint_rejection(ctx, amount),
            Operation::WithdrawLaunchpad { ctx } => self.launchpad_withdrawal_rejection(ctx),
            Operation::WithdrawProject { ctx } => self.project_withdrawal_rejection(ctx),
            Operation::SetMaxMintAmount { ctx, .. } => Self::admin_rejection(ctx),
            Operation::SetMintingStatus { ctx, .. } => Self::admin_rejection(ctx),
            Operation::AddAccount { ctx, .. } => Self::admin_rejection(ctx),
            Operation::AddAccounts { ctx, .. } => Self::admin_rejection(ctx),
        }
    }

    /// The launchpad after a request.
    pub open spec fn apply(self, op: Operation) -> LaunchpadView {
        match op {
            Operation::Mint { ctx, amount, .. } => self.after_mint(ctx, amount),
            Operation::MintProject { ctx, amount, .. } => self.after_project_mint(ctx, amount),
            Operation::WithdrawLaunchpad { ctx } => self.after_withdraw_launchpad(ctx),
            Operation::WithdrawProject { ctx } => self.after_withdraw_project(ctx),
            Operation::SetMaxMintAmount { ctx, max_amount } => self.after_set_max_mint_amount(
                ctx,
                max_amount,
            ),
            Operation::SetMintingStatus { ctx, index } => self.after_set_minting_status(ctx, index),
            Operation::AddAccount { ctx, phase, account, quota } => self.after_add_account(
                ctx,
                phase,
                account,
                quota,
            ),
            Operation::AddAccounts { ctx, phase, list } => self.after_add_accounts(
                ctx,
                phase,
                list,
            ),
        }
    }

    /// The identifiers of the tokens that a request issues, in the order
    /// drawn: none unless it is a request for tokens that is accepted.
    pub open spec fn tokens_of(self, op: Operation) -> Seq<u64> {
        match op {
            Operation::Mint { ctx, amount, .. } => if self.mint_rejection(ctx, amount) is None {
                self.pool.draws(ctx.caller@, ctx.block_timestamp, amount as nat)
            } else {
                Seq::empty()
            },
            Operation::MintProject { ctx, amount, .. } => if self.project_mint_rejection(
                ctx,
                amount,
            ) is None {
                self.pool.draws(ctx.caller@, ctx.block_timestamp, amount as nat)
            } else {
                Seq::empty()
            },
            _ => Seq::empty(),
        }
    }

    /// What a request brings in: the price of the tokens where it is a paid
    /// request that is accepted, and nothing otherwise.
    pub open spec fn proceeds_of(self, op: Operation) -> int {
        match op {
            Operation::Mint { ctx, amount, .. } => if self.mint_rejection(ctx, amount) is None {
                self.pricing.spec_unit_price(self.sale.phase)->Some_0 * amount
            } else {
                0
            },
            _ => 0,
        }
    }

    /// The launchpad after a series of requests, served first to last.
    pub open spec fn run(self, ops: Seq<Operation>) -> LaunchpadView
        decreases ops.len(),
    {
        if ops.len() == 0 {
            self
        } else {
            self.run(ops.drop_last()).apply(ops.last())
        }
    }

    /// The identifiers of all the tokens that a series of requests issues,
    /// in the order drawn.
    pub open spec fn tokens_of_run(self, ops: Seq<Operation>) -> Seq<u64>
        decreases ops.len(),
    {
        if ops.len() == 0 {
            Seq::empty()
        } else {
            self.tokens_of_run(ops.drop_last()) + self.run(ops.drop_last()).tokens_of(ops.last())
        }
    }

    /// What a series of requests brings in.
    pub open spec fn proceeds_of_run(self, ops: Seq<Operation>) -> int
        decreases ops.len(),
    {
        if ops.len() == 0 {
            0
        } else {
            self.proceeds_of_run(ops.drop_last()) + self.run(ops.drop_last()).proceeds_of(
                ops.last(),
            )
        }
    }
}

/// A request that is refused leaves the launchpad exactly as it was.
pub proof fn lemma_refusal_changes_nothing(state: LaunchpadView, op: Operation)
    requires
        state.rejection(op) is Some,
    ensures
        state.apply(op) == state,
{
}

/// A sound launchpad stays sound under every request, accepted or not. In
/// particular the two treasuries never have taken out more between them than
/// was sold, and never more tokens are issued than the collection has.
pub proof fn lemma_operation_keeps_wf(state: LaunchpadView, op: Operation)
    requires
        state.wf(),
        op.admissible(),
    ensures
        state.apply(op).wf(),
        state.apply(op).ledger.withdrawn_launchpad + state.apply(op).ledger.withdrawn_project
            <= state.apply(op).ledger.total_sales,
        state.apply(op).total_supply <= state.apply(op).sale.max_supply,
        state.apply(op).sale.max_supply == state.sale.max_supply,
{
    let fee = state.ledger.fee_percent as int;
    lemma_shares_within_total(state.ledger.total_sales, fee);
    match op {
        Operation::Mint { ctx, amount, .. } => {
            if state.mint_rejection(ctx, amount) is None {
                lemma_draws(state.pool, ctx.caller@, ctx.block_timestamp, amount as nat);
                let total = (state.ledger.total_sales + ctx.transferred_value) as u128;
                lemma_share_grows(state.ledger.total_sales, total, fee);
                lemma_share_grows(state.ledger.total_sales, total, 100 - fee);
            }
        },
        Operation::MintProject { ctx, amount, .. } => {
            if state.project_mint_rejection(ctx, amount) is None {
                lemma_draws(state.pool, ctx.caller@, ctx.block_timestamp, amount as nat);
            }
        },
        _ => {},
    }
}

/// The terms of a sale are fixed when it is set up. No request changes the
/// supply, the prices, the schedule, the fee or the treasuries. The stage
/// changes only when the administrator declares one, the number of tokens
/// per call only when the administrator sets it, and time alone changes
/// neither.
pub proof fn lemma_terms_are_fixed(state: LaunchpadView, op: Operation)
    ensures
        state.apply(op).pricing == state.pricing,
        state.apply(op).sale.max_supply == state.sale.max_supply,
        state.apply(op).sale.prepresale_start_at == state.sale.prepresale_start_at,
        state.apply(op).sale.presale_start_at == state.sale.presale_start_at,
        state.apply(op).sale.public_sale_start_at == state.sale.public_sale_start_at,
        state.apply(op).sale.public_sale_end_at == state.sale.public_sale_end_at,
        state.apply(op).ledger.fee_percent == state.ledger.fee_percent,
        state.apply(op).ledger.project_treasury == state.ledger.project_treasury,
        state.apply(op).ledger.launchpad_treasury == state.ledger.launchpad_treasury,
        state.apply(op).sale.phase != state.sale.phase ==> op is SetMintingStatus
            && op->SetMintingStatus_ctx.caller_is_admin,
        state.apply(op).sale.max_amount_per_call != state.sale.max_amount_per_call ==> op
            is SetMaxMintAmount && op->SetMaxMintAmount_ctx.caller_is_admin,
{
}

/// The books only grow: no request lowers the proceeds or what a treasury
/// has taken out, and none but a paid request that is accepted raises the
/// proceeds.
pub proof fn lemma_books_only_grow(state: LaunchpadView, op: Operation)
    requires
        state.wf(),
    ensures
        state.apply(op).ledger.total_sales == state.ledger.total_sales + state.proceeds_of(op),
        state.proceeds_of(op) >= 0,
        state.apply(op).ledger.withdrawn_launchpad >= state.ledger.withdrawn_launchpad,
        state.apply(op).ledger.withdrawn_project >= state.ledger.withdrawn_project,
{
    let fee = state.ledger.fee_percent as int;
    lemma_shares_within_total(state.ledger.total_sales, fee);
    lemma_shares_within_total(state.ledger.total_sales, 100 - fee);
}

/// A sound launchpad is sound after every series of requests.
pub proof fn lemma_run_keeps_wf(start: LaunchpadView, ops: Seq<Operation>)
    requires
        start.wf(),
        forall|i: int| 0 <= i < ops.len() ==> (#[trigger] ops[i]).admissible(),
    ensures
        start.run(ops).wf(),
        start.run(ops).ledger.withdrawn_launchpad + start.run(ops).ledger.withdrawn_project
            <= start.run(ops).ledger.total_sales,
        start.run(ops).total_supply <= start.run(ops).sale.max_supply,
        start.run(ops).sale.max_supply == start.sale.max_supply,
    decreases ops.len(),
{
    if ops.len() > 0 {
        let front = ops.drop_last();
        assert forall|i: int| 0 <= i < front.len() implies (#[trigger] front[i]).admissible() by {
            assert(front[i] == ops[i]);
        }
        lemma_run_keeps_wf(start, front);
        lemma_operation_keeps_wf(start.run(front), ops.last());
    }
}

/// After any series of requests the proceeds are what they were at the
/// start and the prices of the paid requests that were accepted, each the
/// price of one token in the stage of the time, times the number of tokens.
/// Nothing else adds to the proceeds, and nothing takes from them.
pub proof fn lemma_proceeds_add_up(start: LaunchpadView, ops: Seq<Operation>)
    ensures
        start.run(ops).ledger.total_sales == start.ledger.total_sales + start.proceeds_of_run(ops),
    decreases ops.len(),
{
    if ops.len() > 0 {
        lemma_proceeds_add_up(start, ops.drop_last());
    }
}

/// Over any series of requests no identifier is issued twice, every
/// identifier issued was in the pool at the start, and the pool at the end
/// holds exactly the identifiers of the start that were not issued.
pub proof fn lemma_tokens_are_fresh(start: LaunchpadView, ops: Seq<Operation>)
    requires
        start.wf(),
        forall|i: int| 0 <= i < ops.len() ==> (#[trigger] ops[i]).admissible(),
    ensures
        start.tokens_of_run(ops).no_duplicates(),
        forall|id: u64|
            start.pool.unused.contains(id) <==> (start.run(ops).pool.unused.contains(id)
                || start.tokens_of_run(ops).contains(id)),
        forall|id: u64|
            !(start.run(ops).pool.unused.contains(id) && start.tokens_of_run(ops).contains(id)),
    decreases ops.len(),
{
    if ops.len() == 0 {
    } else {
        let front = ops.drop_last();
        let op = ops.last();
        assert forall|i: int| 0 <= i < front.len() implies (#[trigger] front[i]).admissible() by {
            assert(front[i] == ops[i]);
        }
        lemma_tokens_are_fresh(start, front);
        lemma_run_keeps_wf(start, front);
        let mid = start.run(front);
        let earlier = start.tokens_of_run(front);
        let now = mid.tokens_of(op);
        let all = start.tokens_of_run(ops);
        let end = start.run(ops);
        assert(all == earlier + now);
        assert forall|id: u64|
            (mid.pool.unused.contains(id) <==> (end.pool.unused.contains(id) || now.contains(id)))
                && !(end.pool.unused.contains(id) && now.contains(id)) by {
            lemma_draws_of_operation(mid, op);
        }
        assert(now.no_duplicates()) by {
            lemma_draws_of_operation(mid, op);
        }
        assert forall|id: u64| all.contains(id) <==> (earlier.contains(id) || now.contains(id)) by {
            if all.contains(id) {
                let k = choose|k: int| 0 <= k < all.len() && all[k] == id;
                if k < earlier.len() {
                    assert(earlier[k] == id);
                } else {
                    assert(now[k - earlier.len()] == id);
                }
            }
            if earlier.contains(id) {
                let k = choose|k: int| 0 <= k < earlier.len() && earlier[k] == id;
                assert(all[k] == id);
            }
            if now.contains(id) {
                let k = choose|k: int| 0 <= k < now.len() && now[k] == id;
                assert(all[earlier.len() + k] == id);
            }
        }
        assert forall|i: int, j: int|
            0 <= i < all.len() && 0 <= j < all.len() && i != j implies all[i] != all[j] by {
            let n = earlier.len() as int;
            if i < n && j < n {
                assert(earlier[i] == all[i] && earlier[j] == all[j]);
            } else if i >= n && j >= n {
                assert(now[i - n] == all[i] && now[j - n] == all[j]);
            } else if i < n {
                assert(earlier.contains(all[i]));
                assert(now[j - n] == all[j]);
                assert(now.contains(all[j]));
            } else {
                assert(earlier.contains(all[j]));
                assert(now[i - n] == all[i]);
                assert(now.contains(all[i]));
            }
        }
    }
}

/// The tokens that one request issues are no two alike and come out of the
/// pool, which keeps the others and shrinks by one for every token issued.
pub proof fn lemma_draws_of_operation(state: LaunchpadView, op: Operation)
    requires
        state.wf(),
    ensures
        state.tokens_of(op).no_duplicates(),
        state.apply(op).pool.unused.len() + state.tokens_of(op).len() == state.pool.unused.len(),
        state.apply(op).total_supply == state.total_supply + state.tokens_of(op).len(),
        forall|id: u64|
            state.pool.unused.contains(id) <==> (state.apply(op).pool.unused.contains(id)
                || state.tokens_of(op).contains(id)),
        forall|id: u64|
            !(state.apply(op).pool.unused.contains(id) && state.tokens_of(op).contains(id)),
{
    match op {
        Operation::Mint { ctx, amount, .. } => {
            if state.mint_rejection(ctx, amount) is None {
                lemma_draws(state.pool, ctx.caller@, ctx.block_timestamp, amount as nat);
            }
        },
        Operation::MintProject { ctx, amount, .. } => {
            if state.project_mint_rejection(ctx, amount) is None {
                lemma_draws(state.pool, ctx.caller@, ctx.block_timestamp, amount as nat);
            }
        },
        _ => {},
    }
}

/// In a gated stage a quota is never overdrawn. A request for more tokens
/// than the caller has left, or from a caller who is not on the list, is
/// refused and changes nothing; one that is accepted leaves the caller with
/// the quota less the tokens minted, which is not below zero.
pub proof fn lemma_quota_is_respected(
    state: LaunchpadView,
    ctx: CallContext,
    amount: u64,
    gate: GatedPhase,
)
    requires
        state.sale.phase.spec_gated() == Some(gate),
    ensures
        !state.allowlist.covers(gate, ctx.caller@, amount) ==> state.mint_rejection(ctx, amount)
            is Some && state.after_mint(ctx, amount) == state,
        state.mint_rejection(ctx, amount) is None ==> state.allowlist.remaining(gate, ctx.caller@)
            is Some && amount <= state.allowlist.remaining(gate, ctx.caller@)->Some_0
            && state.after_mint(ctx, amount).allowlist.remaining(gate, ctx.caller@) == Some(
            (state.allowlist.remaining(gate, ctx.caller@)->Some_0 - amount) as u64,
        ),
{
}

/// The supply is a hard bound. A request of a size that one call may mint
/// is refused as too large for the collection exactly when the tokens
/// issued and the tokens asked for exceed the supply, be it by one; and no
/// request that would exceed it is accepted, whatever its size.
pub proof fn lemma_supply_is_a_bound(state: LaunchpadView, ctx: CallContext, amount: u64)
    ensures
        state.mint_rejection(ctx, amount) == Some(Shiden34Error::CollectionIsFull) <==> (1 <= amount
            <= state.sale.max_amount_per_call && state.total_supply + amount
            > state.sale.max_supply),
        state.total_supply + amount > state.sale.max_supply ==> state.mint_rejection(ctx, amount)
            is Some,
        state.total_supply + amount > state.sale.max_supply ==> state.project_mint_rejection(
            ctx,
            amount,
        ) is Some,
{
}

/// Once the size of a request, the stage and the caller's quota are in
/// order, the payment alone decides. The request is accepted where the
/// payment is the price of one token times the number of tokens and the
/// proceeds stay in range, and refused as a bad payment otherwise.
pub proof fn lemma_payment_decides(state: LaunchpadView, ctx: CallContext, amount: u64)
    requires
        state.sale.amount_rejection(state.total_supply, amount) is None,
        state.sale.phase_rejection() is None,
        state.sale.phase.spec_gated() matches Some(gate) ==> state.allowlist.covers(
            gate,
            ctx.caller@,
            amount,
        ) && state.pricing.spec_unit_price(state.sale.phase) is Some,
    ensures
        state.pricing.spec_unit_price(state.sale.phase) is Some,
        state.mint_rejection(ctx, amount) is None <==> ctx.transferred_value
            == state.pricing.spec_unit_price(state.sale.phase)->Some_0 * amount
            && state.ledger.total_sales + ctx.transferred_value <= u128::MAX,
        state.mint_rejection(ctx, amount) is Some ==> state.mint_rejection(ctx, amount) == Some(
            Shiden34Error::BadMintValue,
        ),
{
}

/// A payment is accepted only to the unit. Where a request is accepted, the
/// payment is the price of one token times the number of tokens, and the
/// same request with any other payment, smaller or larger, is refused as a
/// bad payment.
pub proof fn lemma_payment_is_exact(
    state: LaunchpadView,
    ctx: CallContext,
    amount: u64,
    other: u128,
)
    requires
        state.mint_rejection(ctx, amount) is None,
        other != ctx.transferred_value,
    ensures
        state.pricing.spec_unit_price(state.sale.phase) is Some,
        ctx.transferred_value == state.pricing.spec_unit_price(state.sale.phase)->Some_0 * amount,
        state.mint_rejection(CallContext { transferred_value: other, ..ctx }, amount) == Some(
            Shiden34Error::BadMintValue,
        ),
{
}

} // verus!
