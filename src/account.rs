//! Confidential account records and their creation.
use vstd::prelude::*;
use crate::error::VeilError;
use crate::mint::MintConfig;

verus! {

/// The zero-balance state of a new account, as the mint's scheme encrypts and
/// commits to the amount zero under the mint's parameters.
#[derive(Debug, Clone, Copy)]
pub struct ZeroBalance {
    pub encrypted_balance: [u8; 64],
    pub balance_commitment: [u8; 32],
}

/// The confidential balance of one owner in one token type.
#[derive(Debug, Clone, Copy)]
pub struct ConfidentialAccount {
    /// Identity of the controlling party.
    pub owner: [u8; 32],
    /// Address of the mint that this record belongs to.
    pub mint: [u8; 32],
    /// Ciphertext of the balance under the mint's scheme.
    pub encrypted_balance: [u8; 64],
    /// Binding commitment to the plaintext balance.
    pub balance_commitment: [u8; 32],
    /// Replay-protection counter: one more for each transfer that debits or
    /// credits this account.
    pub sequence: u64,
}

/// The record that `init_balance` creates for `owner` under `mint`.
pub open spec fn fresh_account(owner: [u8; 32], mint: MintConfig, zero: ZeroBalance) -> ConfidentialAccount {
    ConfidentialAccount {
        owner,
        mint: mint.address,
        encrypted_balance: zero.encrypted_balance,
        balance_commitment: zero.balance_commitment,
        sequence: 0,
    }
}

/// Creates the zero-balance record of `owner` under `mint` in `slot`, the
/// ledger's storage for that (owner, mint) pair (`None` while it does not
/// exist). The record is bound to the mint's address, so that it is refused
/// against any other mint. An existing record is never overwritten.
pub fn init_balance(
    slot: &mut Option<ConfidentialAccount>,
    owner: [u8; 32],
    mint: &MintConfig,
    zero: &ZeroBalance,
) -> (r: Result<(), VeilError>)
    ensures
        old(slot).is_some() <==> r == Err::<(), VeilError>(VeilError::AlreadyInitialized),
        r.is_ok() <==> old(slot).is_none(),
        r.is_ok() ==> *final(slot) == Some(fresh_account(owner, *mint, *zero)),
        r.is_err() ==> *final(slot) == *old(slot),
{
    if slot.is_some() {
        return Err(VeilError::AlreadyInitialized);
    }
    *slot = Some(
        ConfidentialAccount {
            owner,
            mint: mint.address,
            encrypted_balance: zero.encrypted_balance,
            balance_commitment: zero.balance_commitment,
            sequence: 0,
        },
    );
    Ok(())
}

} // verus!
