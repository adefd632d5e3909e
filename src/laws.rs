//! Properties of the transfer engine that hold of all inputs.
use vstd::prelude::*;
use crate::account::{ConfidentialAccount, ZeroBalance, fresh_account};
use crate::error::VeilError;
use crate::mint::MintConfig;
use crate::transfer::{
    BalanceUpdate, SchemeVerdicts, TransferRequest, credited, debited, nonce_bytes,
    tag_message_of, transfer_outcome,
};

verus! {

/// Value is conserved: when the scheme's homomorphic update takes the amount
/// from the sender's ciphertext and adds it to the receiver's, as `plain`
/// decrypts them, the sum of the two plaintext balances after a successful
/// transfer equals the sum before.
pub proof fn conservation(
    plain: spec_fn([u8; 64]) -> int,
    mint: MintConfig,
    sender: ConfidentialAccount,
    receiver: ConfidentialAccount,
    request: TransferRequest,
    verdicts: SchemeVerdicts,
    update: BalanceUpdate,
)
    requires
        transfer_outcome(mint, sender, receiver, request, verdicts).is_ok(),
        plain(update.sender_balance) == plain(sender.encrypted_balance) - plain(
            request.encrypted_amount,
        ),
        plain(update.receiver_balance) == plain(receiver.encrypted_balance) + plain(
            request.encrypted_amount,
        ),
    ensures
        plain(debited(sender, update).encrypted_balance) + plain(
            credited(receiver, update).encrypted_balance,
        ) == plain(sender.encrypted_balance) + plain(receiver.encrypted_balance),
{
}

/// A request that succeeded once fails with `StaleNonce` when it is submitted
/// again against the records that the first submission left, whatever the
/// scheme answers the second time.
pub proof fn replay_rejected(
    mint: MintConfig,
    sender: ConfidentialAccount,
    receiver: ConfidentialAccount,
    request: TransferRequest,
    verdicts: SchemeVerdicts,
    update: BalanceUpdate,
    again: SchemeVerdicts,
)
    requires
        transfer_outcome(mint, sender, receiver, request, verdicts).is_ok(),
        sender.sequence < u64::MAX,
    ensures
        transfer_outcome(mint, debited(sender, update), credited(receiver, update), request, again)
            == Err::<(), VeilError>(VeilError::StaleNonce),
{
}

/// The nonce encoding is one-to-one.
proof fn nonce_bytes_injective(a: u64, b: u64)
    requires
        nonce_bytes(a) == nonce_bytes(b),
    ensures
        a == b,
{
    assert(nonce_bytes(a)[0] == nonce_bytes(b)[0]);
    assert(nonce_bytes(a)[1] == nonce_bytes(b)[1]);
    assert(nonce_bytes(a)[2] == nonce_bytes(b)[2]);
    assert(nonce_bytes(a)[3] == nonce_bytes(b)[3]);
    assert(nonce_bytes(a)[4] == nonce_bytes(b)[4]);
    assert(nonce_bytes(a)[5] == nonce_bytes(b)[5]);
    assert(nonce_bytes(a)[6] == nonce_bytes(b)[6]);
    assert(nonce_bytes(a)[7] == nonce_bytes(b)[7]);
    assert(a == b) by (bit_vector)
        requires
            (a & 0xff) as u8 == (b & 0xff) as u8,
            ((a >> 8u64) & 0xff) as u8 == ((b >> 8u64) & 0xff) as u8,
            ((a >> 16u64) & 0xff) as u8 == ((b >> 16u64) & 0xff) as u8,
            ((a >> 24u64) & 0xff) as u8 == ((b >> 24u64) & 0xff) as u8,
            ((a >> 32u64) & 0xff) as u8 == ((b >> 32u64) & 0xff) as u8,
            ((a >> 40u64) & 0xff) as u8 == ((b >> 40u64) & 0xff) as u8,
            ((a >> 48u64) & 0xff) as u8 == ((b >> 48u64) & 0xff) as u8,
            ((a >> 56u64) & 0xff) as u8 == ((b >> 56u64) & 0xff) as u8,
    ;
}

/// The tag message binds every field: two transfers whose messages are equal
/// agree on the amount, the commitment, the sender, the receiver and the
/// nonce. So changing any one of them changes the message that a kept tag
/// would have to cover.
pub proof fn tag_message_binds(
    amount1: [u8; 64],
    commitment1: [u8; 32],
    sender1: [u8; 32],
    receiver1: [u8; 32],
    nonce1: u64,
    amount2: [u8; 64],
    commitment2: [u8; 32],
    sender2: [u8; 32],
    receiver2: [u8; 32],
    nonce2: u64,
)
    requires
        tag_message_of(amount1@, commitment1@, sender1@, receiver1@, nonce1) == tag_message_of(
            amount2@,
            commitment2@,
            sender2@,
            receiver2@,
            nonce2,
        ),
    ensures
        amount1@ == amount2@,
        commitment1@ == commitment2@,
        sender1@ == sender2@,
        receiver1@ == receiver2@,
        nonce1 == nonce2,
{
    let m1 = tag_message_of(amount1@, commitment1@, sender1@, receiver1@, nonce1);
    let m2 = tag_message_of(amount2@, commitment2@, sender2@, receiver2@, nonce2);
    assert(m1.subrange(0, 64) =~= amount1@);
    assert(m2.subrange(0, 64) =~= amount2@);
    assert(m1.subrange(64, 96) =~= commitment1@);
    assert(m2.subrange(64, 96) =~= commitment2@);
    assert(m1.subrange(96, 128) =~= sender1@);
    assert(m2.subrange(96, 128) =~= sender2@);
    assert(m1.subrange(128, 160) =~= receiver1@);
    assert(m2.subrange(128, 160) =~= receiver2@);
    assert(m1.subrange(160, 168) =~= nonce_bytes(nonce1));
    assert(m2.subrange(160, 168) =~= nonce_bytes(nonce2));
    nonce_bytes_injective(nonce1, nonce2);
}

/// A tag that the scheme rejects for the request's message makes a transfer
/// that passed the earlier checks fail with `TagInvalid`.
pub proof fn rejected_tag_fails(
    mint: MintConfig,
    sender: ConfidentialAccount,
    receiver: ConfidentialAccount,
    request: TransferRequest,
    verdicts: SchemeVerdicts,
)
    requires
        sender.mint@ == mint.address@,
        receiver.mint@ == mint.address@,
        request.expected_nonce == sender.sequence,
        verdicts.commitment_opens,
        !verdicts.tag_valid,
    ensures
        transfer_outcome(mint, sender, receiver, request, verdicts) == Err::<(), VeilError>(
            VeilError::TagInvalid,
        ),
{
}

/// A commitment that does not open the encrypted amount makes a transfer with
/// a current nonce fail with `CommitmentMismatch`, whatever the tag check
/// says.
pub proof fn commitment_binding(
    mint: MintConfig,
    sender: ConfidentialAccount,
    receiver: ConfidentialAccount,
    request: TransferRequest,
    verdicts: SchemeVerdicts,
)
    requires
        sender.mint@ == mint.address@,
        receiver.mint@ == mint.address@,
        request.expected_nonce == sender.sequence,
        !verdicts.commitment_opens,
    ensures
        transfer_outcome(mint, sender, receiver, request, verdicts) == Err::<(), VeilError>(
            VeilError::CommitmentMismatch,
        ),
{
}

/// No transfer whose nonce is below the sender's current sequence succeeds.
pub proof fn stale_nonce_never_succeeds(
    mint: MintConfig,
    sender: ConfidentialAccount,
    receiver: ConfidentialAccount,
    request: TransferRequest,
    verdicts: SchemeVerdicts,
)
    requires
        request.expected_nonce < sender.sequence,
    ensures
        transfer_outcome(mint, sender, receiver, request, verdicts).is_err(),
{
}

/// The sender's record after each transfer of `steps` in turn, each one a
/// receiver, a request, the scheme's verdicts and the balance update; `None`
/// when one of them fails.
pub open spec fn run_transfers(
    mint: MintConfig,
    sender: ConfidentialAccount,
    steps: Seq<(ConfidentialAccount, TransferRequest, SchemeVerdicts, BalanceUpdate)>,
) -> Option<ConfidentialAccount>
    decreases steps.len(),
{
    if steps.len() == 0 {
        Some(sender)
    } else {
        let (receiver, request, verdicts, update) = steps[0];
        if transfer_outcome(mint, sender, receiver, request, verdicts).is_ok() {
            run_transfers(mint, debited(sender, update), steps.drop_first())
        } else {
            None
        }
    }
}

/// After N successful transfers from an account, its sequence number is its
/// initial one plus N.
pub proof fn sequence_counts_transfers(
    mint: MintConfig,
    sender: ConfidentialAccount,
    steps: Seq<(ConfidentialAccount, TransferRequest, SchemeVerdicts, BalanceUpdate)>,
)
    requires
        run_transfers(mint, sender, steps).is_some(),
        sender.sequence + steps.len() <= u64::MAX,
    ensures
        run_transfers(mint, sender, steps).unwrap().sequence == sender.sequence + steps.len(),
    decreases steps.len(),
{
    if steps.len() > 0 {
        let (receiver, request, verdicts, update) = steps[0];
        sequence_counts_transfers(mint, debited(sender, update), steps.drop_first());
    }
}

/// Each record's commitment keeps opening to the value that its ciphertext
/// encrypts. Here `plain` decrypts a ciphertext and `bound` gives the value
/// that a commitment binds; the scheme's commitment check accepts a pair only
/// when the two agree, and its homomorphic update subtracts and adds the
/// amount on both sides alike.
pub proof fn consistency_preserved(
    plain: spec_fn([u8; 64]) -> int,
    bound: spec_fn([u8; 32]) -> int,
    mint: MintConfig,
    sender: ConfidentialAccount,
    receiver: ConfidentialAccount,
    request: TransferRequest,
    verdicts: SchemeVerdicts,
    update: BalanceUpdate,
)
    requires
        transfer_outcome(mint, sender, receiver, request, verdicts).is_ok(),
        plain(sender.encrypted_balance) == bound(sender.balance_commitment),
        plain(receiver.encrypted_balance) == bound(receiver.balance_commitment),
        verdicts.commitment_opens ==> plain(request.encrypted_amount) == bound(
            request.commitment_hash,
        ),
        plain(update.sender_balance) == plain(sender.encrypted_balance) - plain(
            request.encrypted_amount,
        ),
        bound(update.sender_commitment) == bound(sender.balance_commitment) - bound(
            request.commitment_hash,
        ),
        plain(update.receiver_balance) == plain(receiver.encrypted_balance) + plain(
            request.encrypted_amount,
        ),
        bound(update.receiver_commitment) == bound(receiver.balance_commitment) + bound(
            request.commitment_hash,
        ),
    ensures
        plain(debited(sender, update).encrypted_balance) == bound(
            debited(sender, update).balance_commitment,
        ),
        plain(credited(receiver, update).encrypted_balance) == bound(
            credited(receiver, update).balance_commitment,
        ),
{
}

/// A record created under one mint is refused, as sender or as receiver, by
/// a transfer under any mint with another address.
pub proof fn record_bound_to_its_mint(
    owner: [u8; 32],
    home: MintConfig,
    zero: ZeroBalance,
    mint: MintConfig,
    other: ConfidentialAccount,
    request: TransferRequest,
    verdicts: SchemeVerdicts,
)
    requires
        home.address@ != mint.address@,
    ensures
        transfer_outcome(mint, fresh_account(owner, home, zero), other, request, verdicts)
            == Err::<(), VeilError>(VeilError::MintMismatch),
        transfer_outcome(mint, other, fresh_account(owner, home, zero), request, verdicts)
            == Err::<(), VeilError>(VeilError::MintMismatch),
{
}

} // verus!
