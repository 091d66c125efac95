use vstd::prelude::*;
use crate::escrow::{
    create_after, create_check, is_party, join_after, join_check, resolve_after, resolve_check,
    settlement_of,
    CreateWager, JoinWager, ResolveWager,
};
use crate::identity::Identity;
use crate::payout::{payout_fits, payout_of, FEE_PERCENT, PERCENT_BASE};
use crate::wager::{Account, Config, EscrowError, WagerStatus};

verus! {

/// Whenever the split of a pool fits in `u64`, the winner's payout and the fee
/// add up to the whole pool `2 * amount`, and the fee is `2 * amount * 5 / 100`,
/// truncated.
pub proof fn lemma_payout_conserves_pool(amount: u64)
    requires
        payout_fits(amount as int),
    ensures
        payout_of(amount as int).winner_payout + payout_of(amount as int).platform_fee == 2
            * amount,
        payout_of(amount as int).platform_fee == (2 * amount * 5) / 100,
        payout_of(amount as int).pool == 2 * amount,
{
    let pool: int = 2 * amount;
    assert(FEE_PERCENT == 5 && PERCENT_BASE == 100);
    assert(0 <= pool * 5 / 100 <= pool) by (nonlinear_arith)
        requires
            pool >= 0,
    ;
}

/// A resolution that goes through pays the winner and the treasury exactly
/// the pool `2 * amount` between them, the fee being `2 * amount * 5 / 100`,
/// and returns the rest of the entry's balance to the creator.
pub proof fn lemma_resolution_conserves_pool(ctx: ResolveWager, config: Config, winner_pubkey: Identity)
    requires
        resolve_check(ctx, config, winner_pubkey) is Ok,
    ensures
        ctx.wager.data matches Some(w) && {
            let s = settlement_of(ctx);
            &&& s.payout.winner_payout + s.payout.platform_fee == 2 * w.amount
            &&& s.payout.platform_fee == (2 * w.amount * 5) / 100
            &&& s.creator_refund == ctx.wager.lamports - 2 * w.amount
        },
{
    lemma_payout_conserves_pool(ctx.wager.data->0.amount);
}

/// A second join of the same entry is refused with `InvalidWagerStatus`,
/// whoever makes either call.
pub proof fn lemma_second_join_rejected(ctx: JoinWager, second: Account)
    requires
        ctx.wf(),
        join_check(ctx) is Ok,
    ensures
        join_check(JoinWager { wager: join_after(ctx).wager, opponent: second })
            == Err::<(), EscrowError>(EscrowError::InvalidWagerStatus),
{
}

/// Resolving an entry that was just opened, with no join between, is refused
/// with `InvalidWagerStatus`.
pub proof fn lemma_resolve_before_join_rejected(
    open: CreateWager,
    wager_id: u64,
    amount: u64,
    resolve: ResolveWager,
    config: Config,
    winner_pubkey: Identity,
)
    requires
        open.wf(),
        create_check(open, amount) is Ok,
        resolve.wager == create_after(open, wager_id, amount).wager,
    ensures
        resolve_check(resolve, config, winner_pubkey) == Err::<(), EscrowError>(
            EscrowError::InvalidWagerStatus,
        ),
{
}

/// A creator who tries to join their own wager is refused with
/// `CannotJoinOwnWager`, and the wager stays `Created`.
pub proof fn lemma_join_own_wager_rejected(ctx: JoinWager)
    requires
        ctx.wf(),
        ctx.wager.status_of() == Some(WagerStatus::Created),
        ctx.wager.data matches Some(w) && ctx.opponent.key == w.creator,
    ensures
        join_check(ctx) == Err::<(), EscrowError>(EscrowError::CannotJoinOwnWager),
        join_after(ctx) == ctx,
        join_after(ctx).wager.status_of() == Some(WagerStatus::Created),
{
}

/// Resolving an active wager in favour of someone who is neither party is
/// refused with `InvalidWinner`.
pub proof fn lemma_resolve_outsider_rejected(ctx: ResolveWager, config: Config, winner_pubkey: Identity)
    requires
        ctx.wager.data matches Some(w) && w.status == WagerStatus::Active && !is_party(w, ctx.winner),
    ensures
        resolve_check(ctx, config, winner_pubkey) == Err::<(), EscrowError>(
            EscrowError::InvalidWinner,
        ),
        resolve_after(ctx, config, winner_pubkey) == ctx,
{
}

/// Resolving an active wager with a declared winner other than the payout
/// account is refused with `WinnerMismatch`.
pub proof fn lemma_resolve_mismatch_rejected(ctx: ResolveWager, config: Config, winner_pubkey: Identity)
    requires
        ctx.wager.data matches Some(w) && w.status == WagerStatus::Active && is_party(w, ctx.winner),
        winner_pubkey != ctx.winner,
    ensures
        resolve_check(ctx, config, winner_pubkey) == Err::<(), EscrowError>(
            EscrowError::WinnerMismatch,
        ),
        resolve_after(ctx, config, winner_pubkey) == ctx,
{
}

/// An otherwise valid resolution of a stake above `u64::MAX / 10`, whose pool
/// or fee would overflow `u64`, is refused with `MathOverflow`, and the entry
/// and its balance stay as they were.
pub proof fn lemma_resolve_overflow_rejected(ctx: ResolveWager, config: Config, winner_pubkey: Identity)
    requires
        ctx.wager.data matches Some(w) && w.status == WagerStatus::Active && is_party(w, ctx.winner)
            && ctx.platform_treasury == config.treasury && ctx.creator == w.creator
            && w.amount > u64::MAX / 10,
        winner_pubkey == ctx.winner,
        ctx.backend_authority == config.authority,
    ensures
        resolve_check(ctx, config, winner_pubkey) == Err::<(), EscrowError>(
            EscrowError::MathOverflow,
        ),
        resolve_after(ctx, config, winner_pubkey) == ctx,
{
}

/// Right after an open and a join, the entry holds both stakes and the
/// storage reserve, on top of what the slot held before.
pub proof fn lemma_custody_after_join(
    open: CreateWager,
    wager_id: u64,
    amount: u64,
    join: JoinWager,
)
    requires
        open.wf(),
        create_check(open, amount) is Ok,
        join.wager == create_after(open, wager_id, amount).wager,
        join.wf(),
        join_check(join) is Ok,
    ensures
        join_after(join).wager.lamports == open.wager.lamports + open.reserve + 2 * amount,
        join_after(join).wager.status_of() == Some(WagerStatus::Active),
{
}

} // verus!
