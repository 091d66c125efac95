use vstd::prelude::*;
use crate::wager::EscrowError;

verus! {

/// The platform's share of every pool, in percent.
pub const FEE_PERCENT: u64 = 5;

/// The denominator of `FEE_PERCENT`.
pub const PERCENT_BASE: u64 = 100;

/// How a pool is split at resolution.
#[derive(Clone, Copy, Debug, PartialEq, Eq, Structural)]
pub struct Payout {
    /// Both stakes together.
    pub pool: u64,
    /// The platform's fee, taken from the pool.
    pub platform_fee: u64,
    /// What the winner receives: the pool less the fee.
    pub winner_payout: u64,
}

/// The pool of a wager whose stake per side is `amount`.
pub open spec fn pool_of(amount: int) -> int {
    2 * amount
}

/// The fee on a pool: `FEE_PERCENT` percent, truncated.
pub open spec fn fee_of(pool: int) -> int {
    pool * FEE_PERCENT / PERCENT_BASE as int
}

/// Whether every step of the split stays within `u64`: the pool, and the
/// pool times the fee rate before the division.
pub open spec fn payout_fits(amount: int) -> bool {
    pool_of(amount) * FEE_PERCENT <= u64::MAX
}

/// The split of the pool of a wager whose stake per side is `amount`.
pub open spec fn payout_of(amount: int) -> Payout {
    Payout {
        pool: pool_of(amount) as u64,
        platform_fee: fee_of(pool_of(amount)) as u64,
        winner_payout: (pool_of(amount) - fee_of(pool_of(amount))) as u64,
    }
}

/// Splits the pool `2 * amount` into the platform fee and the winner's payout,
/// with every step checked; any overflow fails with `MathOverflow`.
pub fn compute_payout(amount: u64) -> (r: Result<Payout, EscrowError>)
    ensures
        r is Ok <==> payout_fits(amount as int),
        r matches Ok(p) ==> p == payout_of(amount as int),
        r matches Err(e) ==> e == EscrowError::MathOverflow,
{
    let pool = match amount.checked_mul(2) {
        Some(v) => v,
        None => return Err(EscrowError::MathOverflow),
    };
    let scaled = match pool.checked_mul(FEE_PERCENT) {
        Some(v) => v,
        None => return Err(EscrowError::MathOverflow),
    };
    let platform_fee = match scaled.checked_div(PERCENT_BASE) {
        Some(v) => v,
        None => return Err(EscrowError::MathOverflow),
    };
    let winner_payout = match pool.checked_sub(platform_fee) {
        Some(v) => v,
        None => return Err(EscrowError::MathOverflow),
    };
    Ok(Payout { pool, platform_fee, winner_payout })
}

} // verus!
