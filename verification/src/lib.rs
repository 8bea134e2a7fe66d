//! A custodial token-sale engine, verified with Verus.
//!
//! A creator deposits a fixed supply of a sale token into a program-controlled
//! vault and sets a fixed price in a reference payment token; buyers exchange
//! payment tokens for sale tokens at that price until the sale is deactivated.
//! All durable state lives in ledger records: the sale state record and the
//! vault balances. The modules here model those records with plain values,
//! state the lifecycle invariants as contracts, and prove the purchase and
//! initialization logic against them. Address derivation for the keyless
//! vault authorities is delegated to the host ledger's derivation primitive
//! behind a trusted wrapper.

pub mod address;
pub mod buy_token;
pub mod errors;
pub mod init_launchpad;
pub mod launchpad;
pub mod seeds;
pub mod token;
