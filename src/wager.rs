use vstd::prelude::*;
use crate::identity::Identity;

verus! {

/// Where a wager stands in its lifecycle: `Created`, then `Active`, then `Resolved`.
#[derive(Clone, Copy, Debug, PartialEq, Eq, Structural)]
pub enum WagerStatus {
    Created,
    Active,
    Resolved,
}

/// Why an operation on a wager was refused. A refused operation changes nothing.
#[derive(Clone, Copy, Debug, PartialEq, Eq, Structural)]
pub enum EscrowError {
    /// The operation does not apply to the entry's lifecycle state (or the entry is gone).
    InvalidWagerStatus,
    /// The opponent is the creator.
    CannotJoinOwnWager,
    /// The declared winner is neither the creator nor the opponent.
    InvalidWinner,
    /// The payout account does not match the declared winner.
    WinnerMismatch,
    /// The pool or fee arithmetic would overflow.
    MathOverflow,
    /// An entry already exists at the derived address.
    DuplicateWager,
    /// A payer, or the entry's custody, cannot cover a required transfer.
    InsufficientFunds,
    /// The caller of a resolution is not the resolution authority.
    Unauthorized,
    /// The treasury or refund account is not the one the wager pays.
    AccountMismatch,
}

/// The persisted record of one wager.
#[derive(Clone, Copy, Debug)]
pub struct Wager {
    pub creator: Identity,
    pub opponent: Option<Identity>,
    /// The stake of each side, not the pool.
    pub amount: u64,
    pub status: WagerStatus,
    pub winner: Option<Identity>,
    pub wager_id: u64,
}

impl Wager {
    /// Bytes that the record reserves in storage, past its type tag.
    pub const LEN: usize = 32 + 1 + 32 + 8 + 1 + 1 + 32 + 8;

    /// The opponent is set exactly when the wager has left `Created`,
    /// the winner exactly when it is `Resolved`.
    pub open spec fn inv(self) -> bool {
        &&& (self.opponent is None <==> self.status == WagerStatus::Created)
        &&& (self.winner is None <==> self.status != WagerStatus::Resolved)
    }

    /// Whether the record keeps its invariant.
    pub fn is_consistent(&self) -> (r: bool)
        ensures
            r == self.inv(),
    {
        let created = match self.status {
            WagerStatus::Created => true,
            _ => false,
        };
        let resolved = match self.status {
            WagerStatus::Resolved => true,
            _ => false,
        };
        self.opponent.is_none() == created && self.winner.is_none() == !resolved
    }
}

/// A balance-holding account of the ledger.
#[derive(Clone, Copy, Debug)]
pub struct Account {
    pub key: Identity,
    pub lamports: u64,
}

/// The storage slot of a wager at its derived address: its custodied balance,
/// and its record while it is allocated.
#[derive(Clone, Copy, Debug)]
pub struct WagerAccount {
    pub lamports: u64,
    pub data: Option<Wager>,
}

impl WagerAccount {
    /// An empty slot: nothing allocated, nothing held.
    pub fn vacant() -> (r: WagerAccount)
        ensures
            r.lamports == 0,
            r.data is None,
    {
        WagerAccount { lamports: 0, data: None }
    }

    pub open spec fn wf(self) -> bool {
        self.data matches Some(w) ==> w.inv()
    }

    /// Whether the record held here, if any, keeps its invariant.
    pub fn is_well_formed(&self) -> (r: bool)
        ensures
            r == self.wf(),
    {
        match &self.data {
            Some(w) => w.is_consistent(),
            None => true,
        }
    }

    /// The lifecycle state of the entry held here, if any.
    pub open spec fn status_of(self) -> Option<WagerStatus> {
        match self.data {
            Some(w) => Some(w.status),
            None => None,
        }
    }
}

/// Configuration fixed when the program is deployed.
#[derive(Clone, Copy, Debug)]
pub struct Config {
    /// The only identity that may resolve wagers.
    pub authority: Identity,
    /// The account that receives platform fees.
    pub treasury: Identity,
}

} // verus!
