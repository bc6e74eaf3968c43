//! Accounting and pricing core of a two-asset constant-product liquidity pool.
//!
//! The crate has two layers. `data` is a fungible-token ledger (balances,
//! allowances, total supply) in the style of the PSP22 standard; `pair` is the
//! trading pair itself: proportional share accounting, a constant-product
//! pricing engine with a fee tier and a loyalty discount, slippage protection,
//! and overflow-checked arithmetic on every multiplicative step. The pair
//! reads and moves the pooled assets through `data` ledgers handed in by the
//! caller, so the whole flow of every operation is verified.

pub mod contract;
pub mod data;
pub mod errors;
pub mod pair;
pub mod sums;
pub mod traits;
pub mod types;
