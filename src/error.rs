//! The error kinds of the ledger operations.
use vstd::prelude::*;

verus! {

/// Every way in which a ledger operation can be rejected. All of them are
/// terminal for the attempt and leave every record untouched.
#[derive(Debug, Clone, Copy, PartialEq, Eq, Structural)]
pub enum VeilError {
    /// The record that the operation would create already exists.
    AlreadyInitialized,
    /// The configuration blob fails its header check.
    InvalidConfig,
    /// The two accounts, or an account and the mint, belong to different mints.
    MintMismatch,
    /// The request's nonce is not the sender's current sequence number.
    StaleNonce,
    /// The claimed commitment does not open the encrypted amount.
    CommitmentMismatch,
    /// The authentication tag does not cover the transfer's fields.
    TagInvalid,
    /// No valid proof that the sender's balance stays non-negative.
    InsufficientProof,
}

} // verus!
