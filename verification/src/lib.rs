//! Custody of a fungible asset, released under two policies: a time-based
//! vesting schedule with cliff, linear accrual, partial claims and
//! administrative clawback, and an immediate proportional distribution among
//! a fixed set of recipients defined by basis-point shares.
//!
//! Every operation is a pure function of its inputs, the persisted state and
//! the externally supplied clock. The host that embeds a contract performs
//! authorization checks through [`auth::AuthContext`], carries out the
//! [`movement::Transfer`] actions an operation returns, and commits the new
//! state only when every transfer succeeded; a failed transfer discards the
//! staged state, so no side effect of a failed call is ever observable.

pub mod auth;
pub mod cross_asset_payment;
pub mod errors;
pub mod movement;
pub mod revenue_split;
pub mod vesting_escrow;
