//! Deposit-address derivation, Bitcoin address conversion and price-path
//! validation for a Bitcoin bridge client.

pub mod currency;
pub mod config;
pub mod addr;
pub mod keys;
