//! The escrow state machine: a record is created once, funded at creation,
//! and claimed at most once by whoever presents the preimage of its
//! commitment. Every failure is fail-closed: it leaves the record unchanged.

use vstd::prelude::*;

use crate::hash::secret_matches;
use crate::hash::sha256_of;

verus! {

/// One escrow record, as it is persisted by the host ledger.
#[derive(Clone, Copy, Debug, PartialEq, Eq)]
pub struct PrivateDeposit {
    /// Identity (public key) of the depositor who created the record.
    pub depositor: [u8; 32],
    /// SHA-256 digest of the secret required to claim.
    pub claim_hash: [u8; 32],
    /// Value locked at creation, in the smallest ledger unit.
    pub amount: u64,
    /// True once the record has been successfully claimed.
    pub claimed: bool,
    /// Disambiguator for the record's deterministic address; opaque here.
    pub bump: u8,
}

/// The closed set of escrow errors. Every operation that fails with one of
/// these leaves all state unchanged.
#[derive(Clone, Copy, Debug, PartialEq, Eq, Structural)]
pub enum PrivyLinkError {
    /// A claim was attempted against a record already claimed.
    AlreadyClaimed,
    /// The supplied secret does not hash to the stored commitment.
    InvalidSecret,
    /// The deposit is too small to keep the record alive, or a balance
    /// move would underflow or overflow.
    InvalidAmount,
}

/// What creation yields: the record for a proposed deposit, or the error
/// rejecting it. The deposit must strictly exceed the ledger's minimum
/// storage reservation for a record of this size.
pub open spec fn spec_create(
    depositor: [u8; 32],
    amount: u64,
    claim_hash: [u8; 32],
    rent_required: u64,
    bump: u8,
) -> Result<PrivateDeposit, PrivyLinkError> {
    if amount > rent_required {
        Ok(PrivateDeposit { depositor, claim_hash, amount, claimed: false, bump })
    } else {
        Err(PrivyLinkError::InvalidAmount)
    }
}

/// Validates a proposed deposit and builds its record.
///
/// The record starts unclaimed, holding exactly `amount` under the given
/// commitment. `rent_required` is the minimum balance the host ledger
/// demands to keep a record of this byte-size alive; the caller moves
/// `amount` from the depositor to the record only when this succeeds.
pub fn create_private_deposit(
    depositor: [u8; 32],
    amount: u64,
    claim_hash: [u8; 32],
    rent_required: u64,
    bump: u8,
) -> (r: Result<PrivateDeposit, PrivyLinkError>)
    ensures
        r == spec_create(depositor, amount, claim_hash, rent_required, bump),
        r is Ok <==> amount > rent_required,
        r matches Ok(d) ==> d.depositor == depositor && d.claim_hash == claim_hash
            && d.amount == amount && !d.claimed && d.bump == bump,
        r is Err ==> r == Err::<PrivateDeposit, PrivyLinkError>(PrivyLinkError::InvalidAmount),
{
    if amount > rent_required {
        Ok(PrivateDeposit { depositor, claim_hash, amount, claimed: false, bump })
    } else {
        Err(PrivyLinkError::InvalidAmount)
    }
}

/// What a claim yields: the pair (record balance, claimer balance) after the
/// transfer on success, or the error rejecting the claim; and, as the second
/// component, the record as the claim leaves it. Checks run in a fixed
/// order — claimed flag, then commitment, then balance arithmetic — and the
/// first failure wins, leaving the record unchanged.
pub open spec fn spec_claim(
    d: PrivateDeposit,
    deposit_balance: u64,
    claimer_balance: u64,
    secret: Seq<u8>,
) -> (Result<(u64, u64), PrivyLinkError>, PrivateDeposit) {
    if d.claimed {
        (Err(PrivyLinkError::AlreadyClaimed), d)
    } else if sha256_of(secret) != d.claim_hash@ {
        (Err(PrivyLinkError::InvalidSecret), d)
    } else if deposit_balance < d.amount {
        (Err(PrivyLinkError::InvalidAmount), d)
    } else if claimer_balance + d.amount > u64::MAX {
        (Err(PrivyLinkError::InvalidAmount), d)
    } else {
        (
            Ok((
                (deposit_balance - d.amount) as u64,
                (claimer_balance + d.amount) as u64,
            )),
            PrivateDeposit { claimed: true, ..d },
        )
    }
}

/// Claims a deposit by revealing the secret behind its commitment.
///
/// `deposit_balance` is what the record's account holds, `claimer_balance`
/// what the claimer holds; on success the function returns both balances
/// after moving the record's full `amount` to the claimer, and marks the
/// record claimed. The subtraction and the addition are both guarded, so
/// neither can wrap; any failure leaves the record byte-for-byte unchanged.
pub fn claim_deposit(
    deposit: &mut PrivateDeposit,
    deposit_balance: u64,
    claimer_balance: u64,
    secret: &[u8],
) -> (r: Result<(u64, u64), PrivyLinkError>)
    ensures
        r == spec_claim(*old(deposit), deposit_balance, claimer_balance, secret@).0,
        *final(deposit) == spec_claim(*old(deposit), deposit_balance, claimer_balance, secret@).1,
        r is Err ==> *final(deposit) == *old(deposit),
        r is Ok ==> final(deposit).claimed,
{
    if deposit.claimed {
        return Err(PrivyLinkError::AlreadyClaimed);
    }
    if !secret_matches(secret, &deposit.claim_hash) {
        return Err(PrivyLinkError::InvalidSecret);
    }
    // Snapshot the amount before any mutation.
    let amount = deposit.amount;
    if deposit_balance < amount {
        return Err(PrivyLinkError::InvalidAmount);
    }
    if claimer_balance > u64::MAX - amount {
        return Err(PrivyLinkError::InvalidAmount);
    }
    let new_deposit_balance = deposit_balance - amount;
    let new_claimer_balance = claimer_balance + amount;
    deposit.claimed = true;
    Ok((new_deposit_balance, new_claimer_balance))
}

/// A record fresh from creation is unclaimed and carries the amount and the
/// commitment it was created with, untouched.
pub proof fn lemma_create_initializes_record(
    depositor: [u8; 32],
    amount: u64,
    claim_hash: [u8; 32],
    rent_required: u64,
    bump: u8,
)
    requires
        amount > rent_required,
    ensures
        ({
            let r = spec_create(depositor, amount, claim_hash, rent_required, bump);
            &&& r is Ok
            &&& !r->Ok_0.claimed
            &&& r->Ok_0.amount == amount
            &&& r->Ok_0.claim_hash == claim_hash
            &&& r->Ok_0.depositor == depositor
        }),
{
}

/// A claim with the correct secret succeeds whenever the record is still
/// unclaimed and the balance arithmetic cannot wrap; it marks the record
/// claimed.
pub proof fn lemma_correct_secret_succeeds(
    d: PrivateDeposit,
    deposit_balance: u64,
    claimer_balance: u64,
    secret: Seq<u8>,
)
    requires
        !d.claimed,
        sha256_of(secret) == d.claim_hash@,
        d.amount <= deposit_balance,
        claimer_balance + d.amount <= u64::MAX,
    ensures
        spec_claim(d, deposit_balance, claimer_balance, secret).0 is Ok,
        spec_claim(d, deposit_balance, claimer_balance, secret).1.claimed,
{
}

/// A claim succeeds at most once: once a claim has succeeded, every further
/// claim against the record it leaves — with any secret, correct or not, and
/// any balances — fails with AlreadyClaimed and changes nothing.
pub proof fn lemma_claim_succeeds_exactly_once(
    d: PrivateDeposit,
    deposit_balance: u64,
    claimer_balance: u64,
    secret: Seq<u8>,
    later_deposit_balance: u64,
    later_claimer_balance: u64,
    later_secret: Seq<u8>,
)
    requires
        spec_claim(d, deposit_balance, claimer_balance, secret).0 is Ok,
    ensures
        ({
            let d1 = spec_claim(d, deposit_balance, claimer_balance, secret).1;
            let again = spec_claim(d1, later_deposit_balance, later_claimer_balance, later_secret);
            &&& again.0 == Err::<(u64, u64), PrivyLinkError>(PrivyLinkError::AlreadyClaimed)
            &&& again.1 == d1
        }),
{
}

/// A claim with a wrong secret fails with InvalidSecret and leaves the
/// record — amount, commitment, claimed flag — unchanged.
pub proof fn lemma_wrong_secret_rejected(
    d: PrivateDeposit,
    deposit_balance: u64,
    claimer_balance: u64,
    secret: Seq<u8>,
)
    requires
        !d.claimed,
        sha256_of(secret) != d.claim_hash@,
    ensures
        spec_claim(d, deposit_balance, claimer_balance, secret).0
            == Err::<(u64, u64), PrivyLinkError>(PrivyLinkError::InvalidSecret),
        spec_claim(d, deposit_balance, claimer_balance, secret).1 == d,
{
}

/// No claim succeeds without the correct preimage: a claim succeeds only
/// against a still-unclaimed record, with a secret that hashes exactly to
/// the stored commitment.
pub proof fn lemma_success_requires_preimage(
    d: PrivateDeposit,
    deposit_balance: u64,
    claimer_balance: u64,
    secret: Seq<u8>,
)
    requires
        spec_claim(d, deposit_balance, claimer_balance, secret).0 is Ok,
    ensures
        sha256_of(secret) == d.claim_hash@,
        !d.claimed,
{
}

/// A claim can do no more than set the claimed flag: the depositor, the
/// commitment, the amount and the derivation nonce survive any claim
/// untouched, and a claimed record never becomes unclaimed again.
pub proof fn lemma_claim_changes_only_the_claimed_flag(
    d: PrivateDeposit,
    deposit_balance: u64,
    claimer_balance: u64,
    secret: Seq<u8>,
)
    ensures
        ({
            let d1 = spec_claim(d, deposit_balance, claimer_balance, secret).1;
            &&& d1.depositor == d.depositor
            &&& d1.claim_hash == d.claim_hash
            &&& d1.amount == d.amount
            &&& d1.bump == d.bump
            &&& (d.claimed ==> d1.claimed)
        }),
{
}

/// Fail-closed: whatever the reason a claim fails, the record is unchanged.
pub proof fn lemma_failed_claim_leaves_record_unchanged(
    d: PrivateDeposit,
    deposit_balance: u64,
    claimer_balance: u64,
    secret: Seq<u8>,
)
    requires
        spec_claim(d, deposit_balance, claimer_balance, secret).0 is Err,
    ensures
        spec_claim(d, deposit_balance, claimer_balance, secret).1 == d,
{
}

/// Balance conservation: a successful claim moves exactly the record's
/// pre-claim amount from the record's account to the claimer, and the sum of
/// the two balances is unchanged — no value appears or vanishes.
pub proof fn lemma_balance_conservation(
    d: PrivateDeposit,
    deposit_balance: u64,
    claimer_balance: u64,
    secret: Seq<u8>,
)
    requires
        spec_claim(d, deposit_balance, claimer_balance, secret).0 is Ok,
    ensures
        ({
            let after = spec_claim(d, deposit_balance, claimer_balance, secret).0->Ok_0;
            &&& after.0 == deposit_balance - d.amount
            &&& after.1 == claimer_balance + d.amount
            &&& after.0 + after.1 == deposit_balance + claimer_balance
        }),
{
}

} // verus!
