//! The Ticket record: one sold or reserved seat, with a single status enum
//! as the source of truth for its lifecycle, and append-only history logs.

use vstd::prelude::*;

use crate::AcctId;
use crate::errors::TicketError;

verus! {

/// The mutually-exclusive lifecycle status of a ticket. Booleans such as
/// "used" or "frozen" are derived from it, never stored beside it.
#[derive(Clone, Copy, PartialEq, Eq, Structural, Debug)]
pub enum TicketStatus {
    Valid,
    Used,
    Refunded,
    Expired,
    Frozen,
    Burned,
}

/// How an ownership change came about.
#[derive(Clone, Copy, PartialEq, Eq, Structural, Debug)]
pub enum TransferType {
    Direct,
    Delegated,
    Gift,
    Marketplace,
    Admin,
}

/// One entry of a ticket's append-only transfer history.
#[derive(Clone, Debug)]
pub struct TransferRecord {
    pub from: AcctId,
    pub to: AcctId,
    pub timestamp: i64,
    pub memo: Option<String>,
    pub transfer_type: TransferType,
}

/// One entry of a ticket's append-only delegated-transfer history.
#[derive(Clone, Copy, Debug)]
pub struct DelegateTransferRecord {
    pub from: AcctId,
    pub to: AcctId,
    pub timestamp: i64,
    pub email_hash: [u8; 32],
    pub claimed_at: i64,
}

/// One sold or reserved seat, uniquely identified by
/// `(event_id, ticket_id)`.
#[derive(Clone, Debug)]
pub struct Ticket {
    pub ticket_id: u64,
    pub event_id: u64,
    pub owner: AcctId,
    pub original_owner: AcctId,
    /// Index into the event's tier table; per-tier counters are only
    /// touched while it is in range.
    pub tier_index: usize,
    pub purchase_price: u64,
    pub purchased_at: i64,
    pub status: TicketStatus,
    pub used_at: Option<i64>,
    pub freeze_timestamp: Option<i64>,
    pub unfreeze_timestamp: Option<i64>,
    pub entry_validated: bool,
    pub entry_time: Option<i64>,
    pub entry_gate: Option<String>,
    pub exit_time: Option<i64>,
    pub exit_gate: Option<String>,
    pub transfer_count: u32,
    pub last_transfer_timestamp: i64,
    /// Set while a delegate grant for this ticket is outstanding.
    pub pending_transfer: bool,
    pub validation_count: u32,
    pub last_validated: i64,
    pub checkpoint_scans: Vec<(String, i64)>,
    pub transfer_history: Vec<TransferRecord>,
    pub delegate_transfer_history: Vec<DelegateTransferRecord>,
    pub refund_eligible: bool,
    pub refund_deadline: Option<i64>,
    pub refunded_at: Option<i64>,
    pub refund_amount: Option<u64>,
    pub refund_reason: Option<String>,
}

impl Ticket {
    /// Derived from the status enum: the ticket has been consumed.
    pub open spec fn is_used(self) -> bool {
        self.status == TicketStatus::Used || self.status == TicketStatus::Burned
    }

    /// Derived from the status enum: a compliance hold is active.
    pub open spec fn is_frozen(self) -> bool {
        self.status == TicketStatus::Frozen
    }
}

/// Why a status other than `Valid` blocks a transition, `None` for a
/// `Valid` ticket. A frozen ticket is suspended, a used or burned one is
/// consumed, a refunded one is paid out.
pub open spec fn spec_status_block(status: TicketStatus) -> Option<TicketError> {
    match status {
        TicketStatus::Valid => None,
        TicketStatus::Used => Some(TicketError::TicketAlreadyUsed),
        TicketStatus::Frozen => Some(TicketError::TicketFrozen),
        TicketStatus::Refunded => Some(TicketError::AlreadyRefunded),
        TicketStatus::Burned => Some(TicketError::TicketAlreadyUsed),
        TicketStatus::Expired => Some(TicketError::InvalidTicketStatus),
    }
}

/// The executable mirror of `spec_status_block`.
pub fn status_block(status: TicketStatus) -> (r: Option<TicketError>)
    ensures
        r == spec_status_block(status),
{
    match status {
        TicketStatus::Valid => None,
        TicketStatus::Used => Some(TicketError::TicketAlreadyUsed),
        TicketStatus::Frozen => Some(TicketError::TicketFrozen),
        TicketStatus::Refunded => Some(TicketError::AlreadyRefunded),
        TicketStatus::Burned => Some(TicketError::TicketAlreadyUsed),
        TicketStatus::Expired => Some(TicketError::InvalidTicketStatus),
    }
}

} // verus!
