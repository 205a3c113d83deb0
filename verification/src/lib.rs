//! Yield-tokenization and secondary-market settlement engine.
//!
//! Users deposit an underlying asset into a named strategy that accrues yield
//! at a configured annual rate, receive claim tokens representing their stake,
//! and may trade those claims on an order-book marketplace before redeeming
//! them for principal plus accrued yield.
//!
//! This crate holds the accounting and settlement core: time-proportional
//! yield accrual, redemption arithmetic, order placement and cancellation,
//! and trade matching with fee settlement. Record storage, authentication of
//! callers against stored owners, and the atomic token transfer / mint / burn
//! primitive are external collaborators: the functions here take the affected
//! records and caller-supplied balances as plain values, validate and commit
//! the record updates, and report the exact token movements the caller must
//! perform through the transfer service.

pub mod marketplace;
pub mod math;
pub mod position;
pub mod strategy;
pub mod trade;
