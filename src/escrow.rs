use vstd::prelude::*;
use crate::identity::Identity;
use crate::payout::{compute_payout, payout_fits, payout_of, pool_of, Payout};
use crate::wager::{Account, Config, EscrowError, Wager, WagerAccount, WagerStatus};

verus! {

/// The accounts that opening a wager touches.
#[derive(Clone, Copy, Debug)]
pub struct CreateWager {
    /// The slot at the address derived from the creator and the wager id.
    pub wager: WagerAccount,
    /// The creator, who pays the stake and the storage reserve.
    pub creator: Account,
    /// The storage reserve that allocating the entry costs, set by the ledger.
    pub reserve: u64,
}

/// The accounts that joining a wager touches.
#[derive(Clone, Copy, Debug)]
pub struct JoinWager {
    pub wager: WagerAccount,
    /// The opponent, who pays a stake equal to the creator's.
    pub opponent: Account,
}

/// The accounts that resolving a wager names.
#[derive(Clone, Copy, Debug)]
pub struct ResolveWager {
    pub wager: WagerAccount,
    /// The account that receives the winner's payout.
    pub winner: Identity,
    /// The account that receives the platform fee.
    pub platform_treasury: Identity,
    /// The account that receives what the entry holds beyond the pool.
    pub creator: Identity,
    /// The identity that signed the resolution.
    pub backend_authority: Identity,
}

/// What a resolution pays out. The entry itself is closed.
#[derive(Clone, Copy, Debug)]
pub struct Settlement {
    /// The entry's last record: `Resolved`, with its winner.
    pub wager: Wager,
    /// The split of the pool between the winner and the treasury.
    pub payout: Payout,
    /// The entry's balance beyond the pool, returned to the creator.
    pub creator_refund: u64,
}

impl CreateWager {
    /// The record is well formed, and the balances involved fit together in a
    /// `u64`, as every balance of the ledger does.
    pub open spec fn wf(self) -> bool {
        &&& self.wager.wf()
        &&& self.wager.lamports + self.creator.lamports <= u64::MAX
    }

    pub fn is_well_formed(&self) -> (r: bool)
        ensures
            r == self.wf(),
    {
        self.wager.is_well_formed() && self.wager.lamports.checked_add(self.creator.lamports).is_some()
    }
}

impl JoinWager {
    /// As for `CreateWager::wf`.
    pub open spec fn wf(self) -> bool {
        &&& self.wager.wf()
        &&& self.wager.lamports + self.opponent.lamports <= u64::MAX
    }

    pub fn is_well_formed(&self) -> (r: bool)
        ensures
            r == self.wf(),
    {
        self.wager.is_well_formed() && self.wager.lamports.checked_add(self.opponent.lamports).is_some()
    }
}

/// The outcome of opening a wager of `amount` per side.
pub open spec fn create_check(ctx: CreateWager, amount: u64) -> Result<(), EscrowError> {
    if ctx.wager.data is Some {
        Err(EscrowError::DuplicateWager)
    } else if ctx.creator.lamports < ctx.reserve + amount {
        Err(EscrowError::InsufficientFunds)
    } else {
        Ok(())
    }
}

/// The accounts after opening a wager; unchanged when it is refused.
pub open spec fn create_after(ctx: CreateWager, wager_id: u64, amount: u64) -> CreateWager {
    if create_check(ctx, amount) is Ok {
        let moved = ctx.reserve + amount;
        CreateWager {
            wager: WagerAccount {
                lamports: (ctx.wager.lamports + moved) as u64,
                data: Some(
                    Wager {
                        creator: ctx.creator.key,
                        opponent: None,
                        amount,
                        status: WagerStatus::Created,
                        winner: None,
                        wager_id,
                    },
                ),
            },
            creator: Account { key: ctx.creator.key, lamports: (ctx.creator.lamports - moved) as u64 },
            reserve: ctx.reserve,
        }
    } else {
        ctx
    }
}

/// The outcome of a join.
pub open spec fn join_check(ctx: JoinWager) -> Result<(), EscrowError> {
    match ctx.wager.data {
        None => Err(EscrowError::InvalidWagerStatus),
        Some(w) => if w.status != WagerStatus::Created {
            Err(EscrowError::InvalidWagerStatus)
        } else if ctx.opponent.key == w.creator {
            Err(EscrowError::CannotJoinOwnWager)
        } else if ctx.opponent.lamports < w.amount {
            Err(EscrowError::InsufficientFunds)
        } else {
            Ok(())
        },
    }
}

/// The accounts after a join; unchanged when it is refused.
pub open spec fn join_after(ctx: JoinWager) -> JoinWager {
    match ctx.wager.data {
        Some(w) if join_check(ctx) is Ok => JoinWager {
            wager: WagerAccount {
                lamports: (ctx.wager.lamports + w.amount) as u64,
                data: Some(Wager { opponent: Some(ctx.opponent.key), status: WagerStatus::Active, ..w }),
            },
            opponent: Account {
                key: ctx.opponent.key,
                lamports: (ctx.opponent.lamports - w.amount) as u64,
            },
        },
        _ => ctx,
    }
}

/// Whether `id` is one of the two parties of `w`.
pub open spec fn is_party(w: Wager, id: Identity) -> bool {
    id == w.creator || w.opponent == Some(id)
}

/// The outcome of a resolution that declares `winner_pubkey` the winner.
pub open spec fn resolve_check(ctx: ResolveWager, config: Config, winner_pubkey: Identity) -> Result<
    (),
    EscrowError,
> {
    match ctx.wager.data {
        None => Err(EscrowError::InvalidWagerStatus),
        Some(w) => if w.status != WagerStatus::Active {
            Err(EscrowError::InvalidWagerStatus)
        } else if !is_party(w, ctx.winner) {
            Err(EscrowError::InvalidWinner)
        } else if winner_pubkey != ctx.winner {
            Err(EscrowError::WinnerMismatch)
        } else if ctx.backend_authority != config.authority {
            Err(EscrowError::Unauthorized)
        } else if ctx.platform_treasury != config.treasury || ctx.creator != w.creator {
            Err(EscrowError::AccountMismatch)
        } else if !payout_fits(w.amount as int) {
            Err(EscrowError::MathOverflow)
        } else if ctx.wager.lamports < pool_of(w.amount as int) {
            Err(EscrowError::InsufficientFunds)
        } else {
            Ok(())
        },
    }
}

/// The accounts after a resolution: the entry is closed and holds nothing;
/// unchanged when the resolution is refused.
pub open spec fn resolve_after(ctx: ResolveWager, config: Config, winner_pubkey: Identity) -> ResolveWager {
    if resolve_check(ctx, config, winner_pubkey) is Ok {
        ResolveWager { wager: WagerAccount { lamports: 0, data: None }, ..ctx }
    } else {
        ctx
    }
}

/// What a successful resolution pays out, on an entry that holds a record.
pub open spec fn settlement_of(ctx: ResolveWager) -> Settlement
    recommends
        ctx.wager.data is Some,
{
    let w = ctx.wager.data->0;
    Settlement {
        wager: Wager { status: WagerStatus::Resolved, winner: Some(ctx.winner), ..w },
        payout: payout_of(w.amount as int),
        creator_refund: (ctx.wager.lamports - pool_of(w.amount as int)) as u64,
    }
}

/// Opens a wager of `amount` per side: allocates the entry in the empty slot
/// and moves the stake and the storage reserve from the creator into it.
pub fn create_wager(ctx: &mut CreateWager, wager_id: u64, amount: u64) -> (r: Result<(), EscrowError>)
    requires
        old(ctx).wf(),
    ensures
        r == create_check(*old(ctx), amount),
        *final(ctx) == create_after(*old(ctx), wager_id, amount),
        final(ctx).wf(),
{
    if ctx.wager.data.is_some() {
        return Err(EscrowError::DuplicateWager);
    }
    let moved = match ctx.reserve.checked_add(amount) {
        Some(v) => v,
        None => return Err(EscrowError::InsufficientFunds),
    };
    if ctx.creator.lamports < moved {
        return Err(EscrowError::InsufficientFunds);
    }
    ctx.creator.lamports = ctx.creator.lamports - moved;
    ctx.wager.lamports = ctx.wager.lamports + moved;
    ctx.wager.data = Some(
        Wager {
            creator: ctx.creator.key,
            opponent: None,
            amount,
            status: WagerStatus::Created,
            winner: None,
            wager_id,
        },
    );
    Ok(())
}

/// Joins a wager as its opponent: moves a stake equal to the creator's into
/// the entry and makes the wager `Active`.
pub fn join_wager(ctx: &mut JoinWager) -> (r: Result<(), EscrowError>)
    requires
        old(ctx).wf(),
    ensures
        r == join_check(*old(ctx)),
        *final(ctx) == join_after(*old(ctx)),
        final(ctx).wf(),
{
    let w = match ctx.wager.data {
        Some(w) => w,
        None => return Err(EscrowError::InvalidWagerStatus),
    };
    if w.status != WagerStatus::Created {
        return Err(EscrowError::InvalidWagerStatus);
    }
    if ctx.opponent.key == w.creator {
        return Err(EscrowError::CannotJoinOwnWager);
    }
    if ctx.opponent.lamports < w.amount {
        return Err(EscrowError::InsufficientFunds);
    }
    ctx.opponent.lamports = ctx.opponent.lamports - w.amount;
    ctx.wager.lamports = ctx.wager.lamports + w.amount;
    ctx.wager.data = Some(Wager { opponent: Some(ctx.opponent.key), status: WagerStatus::Active, ..w });
    Ok(())
}

/// Resolves an `Active` wager in favour of `winner_pubkey`, which must be the
/// payout account and one of the two parties. The pool is split between the
/// winner and the treasury, the rest of the entry's balance goes back to the
/// creator, and the entry is closed.
pub fn resolve_wager(ctx: &mut ResolveWager, config: &Config, winner_pubkey: Identity) -> (r: Result<
    Settlement,
    EscrowError,
>)
    ensures
        r matches Err(e) ==> resolve_check(*old(ctx), *config, winner_pubkey) == Err::<(), _>(e),
        r matches Ok(s) ==> {
            &&& resolve_check(*old(ctx), *config, winner_pubkey) is Ok
            &&& s == settlement_of(*old(ctx))
            &&& s.payout.winner_payout + s.payout.platform_fee + s.creator_refund
                == old(ctx).wager.lamports
            &&& (old(ctx).wager.wf() ==> s.wager.inv())
        },
        *final(ctx) == resolve_after(*old(ctx), *config, winner_pubkey),
{
    let w = match ctx.wager.data {
        Some(w) => w,
        None => return Err(EscrowError::InvalidWagerStatus),
    };
    if w.status != WagerStatus::Active {
        return Err(EscrowError::InvalidWagerStatus);
    }
    let winner_is_party = ctx.winner == w.creator || match w.opponent {
        Some(o) => ctx.winner == o,
        None => false,
    };
    if !winner_is_party {
        return Err(EscrowError::InvalidWinner);
    }
    if winner_pubkey != ctx.winner {
        return Err(EscrowError::WinnerMismatch);
    }
    if ctx.backend_authority != config.authority {
        return Err(EscrowError::Unauthorized);
    }
    if ctx.platform_treasury != config.treasury || ctx.creator != w.creator {
        return Err(EscrowError::AccountMismatch);
    }
    let payout = match compute_payout(w.amount) {
        Ok(p) => p,
        Err(e) => return Err(e),
    };
    if ctx.wager.lamports < payout.pool {
        return Err(EscrowError::InsufficientFunds);
    }
    let creator_refund = ctx.wager.lamports - payout.pool;
    let settled = Wager { status: WagerStatus::Resolved, winner: Some(ctx.winner), ..w };
    ctx.wager = WagerAccount { lamports: 0, data: None };
    Ok(Settlement { wager: settled, payout, creator_refund })
}

} // verus!
