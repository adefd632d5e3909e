//! The transfer engine: the request, the canonical message that its tag
//! covers, and the ordered checks and atomic update of a private transfer.
use vstd::prelude::*;
use crate::account::ConfidentialAccount;
use crate::bytes::{copy32, copy64, eq32};
use crate::error::VeilError;
use crate::mint::MintConfig;

verus! {

/// One private transfer as the sender submits it. Nothing in it reveals the amount.
#[derive(Debug, Clone, Copy)]
pub struct TransferRequest {
    /// Ciphertext of the amount under the mint's scheme.
    pub encrypted_amount: [u8; 64],
    /// The sender's sequence number that the request was made against.
    pub expected_nonce: u64,
    /// Commitment that `encrypted_amount` is claimed to open to.
    pub commitment_hash: [u8; 32],
    /// Authentication tag over the canonical transfer message.
    pub encrypted_tag: [u8; 32],
}

/// What the mint's scheme answered for one request. Each flag is the result of
/// one scheme-level check, made on exactly the values that its doc names.
#[derive(Debug, Clone, Copy)]
pub struct SchemeVerdicts {
    /// The commitment check of `commitment_hash` against `encrypted_amount`
    /// under the mint's parameters.
    pub commitment_opens: bool,
    /// The tag check of `encrypted_tag` over `tag_message` of the request and
    /// the two owners, under the sender's key material.
    pub tag_valid: bool,
    /// The check of the proof that the sender's balance stays non-negative
    /// after the amount is taken from it.
    pub solvency_proven: bool,
}

/// The new balances, as the scheme's homomorphic operations combine the
/// encrypted amount with each account's ciphertext and commitment.
#[derive(Debug, Clone, Copy)]
pub struct BalanceUpdate {
    pub sender_balance: [u8; 64],
    pub sender_commitment: [u8; 32],
    pub receiver_balance: [u8; 64],
    pub receiver_commitment: [u8; 32],
}

/// Length of the canonical message that a transfer's tag covers.
pub const TAG_MESSAGE_LEN: usize = 168;

/// Little-endian encoding of a nonce.
pub open spec fn nonce_bytes(n: u64) -> Seq<u8> {
    seq![
        (n & 0xff) as u8,
        ((n >> 8u64) & 0xff) as u8,
        ((n >> 16u64) & 0xff) as u8,
        ((n >> 24u64) & 0xff) as u8,
        ((n >> 32u64) & 0xff) as u8,
        ((n >> 40u64) & 0xff) as u8,
        ((n >> 48u64) & 0xff) as u8,
        ((n >> 56u64) & 0xff) as u8,
    ]
}

/// The canonical encoding of the fields that a transfer's tag binds together:
/// amount, commitment, sender, receiver, then the nonce in little-endian order.
pub open spec fn tag_message_of(
    amount: Seq<u8>,
    commitment: Seq<u8>,
    sender: Seq<u8>,
    receiver: Seq<u8>,
    nonce: u64,
) -> Seq<u8> {
    amount + commitment + sender + receiver + nonce_bytes(nonce)
}

/// Appends `b` to `out`.
fn append_bytes(out: &mut Vec<u8>, b: &[u8])
    ensures
        final(out)@ == old(out)@ + b@,
{
    let mut i: usize = 0;
    while i < b.len()
        invariant
            i <= b@.len(),
            out@ == old(out)@ + b@.subrange(0, i as int),
        decreases b@.len() - i,
    {
        out.push(b[i]);
        i = i + 1;
        assert(out@ =~= old(out)@ + b@.subrange(0, i as int));
    }
    assert(b@.subrange(0, b@.len() as int) =~= b@);
}

/// The message that the tag of `request` must cover when it moves value from
/// `sender` to `receiver`.
pub fn tag_message(request: &TransferRequest, sender: &[u8; 32], receiver: &[u8; 32]) -> (r: Vec<u8>)
    ensures
        r@ == tag_message_of(
            request.encrypted_amount@,
            request.commitment_hash@,
            sender@,
            receiver@,
            request.expected_nonce,
        ),
        r@.len() == TAG_MESSAGE_LEN,
{
    let mut out: Vec<u8> = Vec::new();
    append_bytes(&mut out, &request.encrypted_amount);
    append_bytes(&mut out, &request.commitment_hash);
    append_bytes(&mut out, sender);
    append_bytes(&mut out, receiver);
    let n: u64 = request.expected_nonce;
    out.push((n & 0xff) as u8);
    out.push(((n >> 8u64) & 0xff) as u8);
    out.push(((n >> 16u64) & 0xff) as u8);
    out.push(((n >> 24u64) & 0xff) as u8);
    out.push(((n >> 32u64) & 0xff) as u8);
    out.push(((n >> 40u64) & 0xff) as u8);
    out.push(((n >> 48u64) & 0xff) as u8);
    out.push(((n >> 56u64) & 0xff) as u8);
    assert(out@ =~= tag_message_of(
        request.encrypted_amount@,
        request.commitment_hash@,
        sender@,
        receiver@,
        request.expected_nonce,
    ));
    out
}

/// Length of a transfer's instruction data: the amount, the nonce in
/// little-endian order, the commitment, then the tag.
pub const REQUEST_LEN: usize = 136;

/// Reads a little-endian nonce from the 8 bytes of `data` that start at `off`.
fn read_nonce(data: &[u8], off: usize) -> (r: u64)
    requires
        off + 8 <= data@.len(),
    ensures
        nonce_bytes(r) == data@.subrange(off as int, off + 8),
{
    let b0: u8 = data[off];
    let b1: u8 = data[off + 1];
    let b2: u8 = data[off + 2];
    let b3: u8 = data[off + 3];
    let b4: u8 = data[off + 4];
    let b5: u8 = data[off + 5];
    let b6: u8 = data[off + 6];
    let b7: u8 = data[off + 7];
    let n: u64 = (b0 as u64) | ((b1 as u64) << 8u64) | ((b2 as u64) << 16u64) | ((b3 as u64)
        << 24u64) | ((b4 as u64) << 32u64) | ((b5 as u64) << 40u64) | ((b6 as u64) << 48u64)
        | ((b7 as u64) << 56u64);
    assert(
        (n & 0xff) as u8 == b0 && ((n >> 8u64) & 0xff) as u8 == b1 && ((n >> 16u64) & 0xff) as u8
            == b2 && ((n >> 24u64) & 0xff) as u8 == b3 && ((n >> 32u64) & 0xff) as u8 == b4 && ((n
            >> 40u64) & 0xff) as u8 == b5 && ((n >> 48u64) & 0xff) as u8 == b6 && ((n >> 56u64)
            & 0xff) as u8 == b7
    ) by (bit_vector)
        requires
            n == (b0 as u64) | ((b1 as u64) << 8u64) | ((b2 as u64) << 16u64) | ((b3 as u64)
                << 24u64) | ((b4 as u64) << 32u64) | ((b5 as u64) << 40u64) | ((b6 as u64)
                << 48u64) | ((b7 as u64) << 56u64),
    ;
    assert(nonce_bytes(n) =~= data@.subrange(off as int, off + 8));
    n
}

/// Decodes a transfer request from its instruction data, which must be
/// exactly `REQUEST_LEN` bytes long: a buffer of any other length is refused
/// before the engine sees it.
pub fn decode_request(data: &[u8]) -> (r: Option<TransferRequest>)
    ensures
        r.is_some() <==> data@.len() == REQUEST_LEN,
        r matches Some(req) ==> {
            &&& req.encrypted_amount@ == data@.subrange(0, 64)
            &&& nonce_bytes(req.expected_nonce) == data@.subrange(64, 72)
            &&& req.commitment_hash@ == data@.subrange(72, 104)
            &&& req.encrypted_tag@ == data@.subrange(104, 136)
        },
{
    if data.len() != REQUEST_LEN {
        return None;
    }
    let encrypted_amount = copy64(data, 0);
    let expected_nonce = read_nonce(data, 64);
    let commitment_hash = copy32(data, 72);
    let encrypted_tag = copy32(data, 104);
    Some(TransferRequest { encrypted_amount, expected_nonce, commitment_hash, encrypted_tag })
}

/// What a transfer returns. The checks come in a fixed order and the first
/// one that fails decides the error: the mint, the nonce, the commitment, the
/// tag, then the solvency proof.
pub open spec fn transfer_outcome(
    mint: MintConfig,
    sender: ConfidentialAccount,
    receiver: ConfidentialAccount,
    request: TransferRequest,
    verdicts: SchemeVerdicts,
) -> Result<(), VeilError> {
    if sender.mint@ != mint.address@ || receiver.mint@ != mint.address@ {
        Err(VeilError::MintMismatch)
    } else if request.expected_nonce != sender.sequence {
        Err(VeilError::StaleNonce)
    } else if !verdicts.commitment_opens {
        Err(VeilError::CommitmentMismatch)
    } else if !verdicts.tag_valid {
        Err(VeilError::TagInvalid)
    } else if !verdicts.solvency_proven {
        Err(VeilError::InsufficientProof)
    } else {
        Ok(())
    }
}

/// The sender's record after a successful transfer.
pub open spec fn debited(sender: ConfidentialAccount, update: BalanceUpdate) -> ConfidentialAccount {
    ConfidentialAccount {
        encrypted_balance: update.sender_balance,
        balance_commitment: update.sender_commitment,
        sequence: (sender.sequence + 1) as u64,
        ..sender
    }
}

/// The receiver's record after a successful transfer.
pub open spec fn credited(receiver: ConfidentialAccount, update: BalanceUpdate) -> ConfidentialAccount {
    ConfidentialAccount {
        encrypted_balance: update.receiver_balance,
        balance_commitment: update.receiver_commitment,
        sequence: (receiver.sequence + 1) as u64,
        ..receiver
    }
}

/// Moves the encrypted amount of `request` from `sender` to `receiver`, both
/// records of `mint`. On success both records take their new balances and
/// each sequence number goes up by one; on any error neither record changes.
pub fn private_transfer(
    mint: &MintConfig,
    sender: &mut ConfidentialAccount,
    receiver: &mut ConfidentialAccount,
    request: &TransferRequest,
    verdicts: &SchemeVerdicts,
    update: &BalanceUpdate,
) -> (r: Result<(), VeilError>)
    requires
        old(sender).sequence < u64::MAX,
        old(receiver).sequence < u64::MAX,
    ensures
        r == transfer_outcome(*mint, *old(sender), *old(receiver), *request, *verdicts),
        r.is_ok() ==> *final(sender) == debited(*old(sender), *update),
        r.is_ok() ==> *final(receiver) == credited(*old(receiver), *update),
        r.is_err() ==> *final(sender) == *old(sender),
        r.is_err() ==> *final(receiver) == *old(receiver),
{
    if !eq32(&sender.mint, &mint.address) || !eq32(&receiver.mint, &mint.address) {
        return Err(VeilError::MintMismatch);
    }
    if request.expected_nonce != sender.sequence {
        return Err(VeilError::StaleNonce);
    }
    if !verdicts.commitment_opens {
        return Err(VeilError::CommitmentMismatch);
    }
    if !verdicts.tag_valid {
        return Err(VeilError::TagInvalid);
    }
    if !verdicts.solvency_proven {
        return Err(VeilError::InsufficientProof);
    }
    sender.encrypted_balance = update.sender_balance;
    sender.balance_commitment = update.sender_commitment;
    sender.sequence = sender.sequence + 1;
    receiver.encrypted_balance = update.receiver_balance;
    receiver.balance_commitment = update.receiver_commitment;
    receiver.sequence = receiver.sequence + 1;
    Ok(())
}

} // verus!
