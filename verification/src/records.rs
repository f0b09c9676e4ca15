//! The auxiliary records beside Event and Ticket: delegate grants, gate
//! validation entries, freeze audit records and refund requests.

use vstd::prelude::*;

use crate::AcctId;

verus! {

/// A short-lived capability binding one ticket to a hashed recipient
/// identifier. Destroyed on a successful claim; `claimed` marks it spent
/// for the moment between the claim and the delete.
#[derive(Clone, Copy, Debug)]
pub struct DelegateAuthority {
    pub event_id: u64,
    pub ticket_id: u64,
    pub original_owner: AcctId,
    /// A one-way digest of the recipient identifier; the plaintext is never
    /// stored.
    pub email_hash: [u8; 32],
    /// Derived from the ticket's identity and the hashed recipient, so it
    /// cannot be forged without knowing the hashed recipient value.
    pub claim_code: [u8; 16],
    pub created_at: i64,
    pub expires_at: i64,
    pub claimed: bool,
}

/// The kind of a gate scan.
#[derive(Clone, Copy, PartialEq, Eq, Structural, Debug)]
pub enum ValidationType {
    Entry,
    Exit,
    Checkpoint,
}

/// An immutable audit record of one gate scan; never updated or deleted by
/// this engine.
#[derive(Clone, Debug)]
pub struct ValidationRecord {
    pub event_id: u64,
    pub ticket_id: u64,
    pub validator: AcctId,
    pub timestamp: i64,
    pub gate_id: String,
    pub validation_type: ValidationType,
}

/// Why a hold was placed on a ticket.
#[derive(Clone, Copy, PartialEq, Eq, Structural, Debug)]
pub enum FreezeReason {
    SuspectedFraud,
    DuplicateDetected,
    PaymentIssue,
    SecurityConcern,
    LegalHold,
    Other,
}

/// The audit record of a hold; updated on release and then destroyed by the
/// caller.
#[derive(Clone, Debug)]
pub struct FreezeRecord {
    pub event_id: u64,
    pub ticket_id: u64,
    pub frozen_by: AcctId,
    pub freeze_timestamp: i64,
    pub reason: FreezeReason,
    pub evidence: String,
    pub unfrozen: bool,
    pub unfrozen_by: Option<AcctId>,
    pub unfreeze_timestamp: Option<i64>,
    pub unfreeze_note: Option<String>,
}

/// The status of a refund request.
#[derive(Clone, Copy, PartialEq, Eq, Structural, Debug)]
pub enum RefundStatus {
    Pending,
    Approved,
    Rejected,
    Cancelled,
}

/// A buyer's request to be paid back for a ticket. Created by
/// `request_refund`; updated only by processing or cancellation.
#[derive(Clone, Debug)]
pub struct RefundRequest {
    pub event_id: u64,
    pub ticket_id: u64,
    pub requester: AcctId,
    pub amount: u64,
    pub reason: String,
    pub requested_at: i64,
    pub status: RefundStatus,
    pub processed_at: Option<i64>,
    pub processor: Option<AcctId>,
}

} // verus!
