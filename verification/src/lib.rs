//! Linear token vesting: a grantor escrows a fixed amount for a beneficiary,
//! who may claim what has unlocked over time; the grantor may revoke a
//! revocable grant and take back what is still in escrow.
//!
//! The library decides and records. Moving funds is left to the caller: each
//! operation names the transfer it needs and is committed with the outcome of
//! that transfer.

pub mod types;
pub mod clock;
pub mod authority;
pub mod schedule;
pub mod lifecycle;
pub mod laws;
