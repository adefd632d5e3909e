//! A confidential-balance ledger core: mint configuration records, confidential
//! account records and the private transfer engine, with the replay and
//! binding rules that keep a transfer safe.

pub mod error;
pub mod bytes;
pub mod mint;
pub mod account;
pub mod transfer;
pub mod laws;
