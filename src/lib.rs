//! An escrowed two-party wager: a creator opens an entry with a stake, an
//! opponent matches it, and a fixed resolution authority declares the winner,
//! who is paid the pool less a platform fee.

pub mod identity;
pub mod wager;
pub mod payout;
pub mod escrow;
pub mod laws;
