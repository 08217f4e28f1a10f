//! Accounting core of a staking pool: participants deposit a base asset into
//! a position and accrue a reward asset in proportion to the amount staked and
//! the time elapsed since the position was last settled.
//!
//! Every operation is split in two. A pure planning step decides, from the
//! accounts it reads, what must be issued or transferred and what the position
//! becomes; `commit` then writes the new position only when the outside effects
//! all succeeded, so a failure leaves no partial update behind.
pub mod state;
pub mod accrual;
pub mod instructions;
pub mod laws;
