//! The closed set of typed failures an operation can return, with the
//! taxonomy kind and the stable numeric code of each.

use vstd::prelude::*;

verus! {

/// Every failure an engine operation can report. No operation that returns
/// one of these has mutated anything.
#[derive(Clone, Copy, PartialEq, Eq, Structural, Debug)]
pub enum TicketError {
    // Event management
    EventNameTooLong,
    EventNameEmpty,
    InvalidCharacters,
    DescriptionTooLong,
    VenueTooLong,
    VenueEmpty,
    InvalidEventDate,
    EventInPast,
    InvalidDateRange,
    EventCancelled,
    EventAlreadyCancelled,
    EventAlreadyStarted,
    EventHasTicketsSold,
    EventNotStarted,
    EventEnded,
    // Tickets and issuance
    InvalidPrice,
    InvalidTicketTier,
    EventSoldOut,
    InsufficientCapacity,
    BatchSizeTooLarge,
    MaximumTicketsExceeded,
    WhitelistExpired,
    TicketAlreadyUsed,
    TicketFrozen,
    TicketNotFrozen,
    TicketAlreadyFrozen,
    NotTicketOwner,
    TicketNotValidated,
    AlreadyValidatedForEntry,
    ValidationLogFull,
    InvalidTicketStatus,
    // Transfers
    TransfersNotAllowed,
    TransferWindowClosed,
    AlreadyDelegated,
    InvalidDelegateAuthority,
    DelegateAlreadyClaimed,
    DelegateExpired,
    InvalidEmailHash,
    InvalidClaimCode,
    // Authorization
    Unauthorized,
    UnauthorizedValidator,
    UnauthorizedFreezer,
    UnauthorizedUnfreezer,
    UnauthorizedBurner,
    InsufficientSigners,
    // Refunds
    RefundNotEligible,
    RefundWindowClosed,
    RefundReasonTooLong,
    AlreadyRefunded,
    InvalidRefundStatus,
    InvalidRefundRecord,
    InvalidFreezeRecord,
    InsufficientFunds,
    // System
    ProgramPaused,
    AlreadyPaused,
    NotPaused,
    RateLimitExceeded,
    PriceOutOfRange,
    MathOverflow,
    MathUnderflow,
}

/// The taxonomy of failure kinds: what sort of precondition was violated.
#[derive(Clone, Copy, PartialEq, Eq, Structural, Debug)]
pub enum ErrorKind {
    /// Malformed, too-long or out-of-range input.
    Validation,
    /// The operation is illegal for the record's current status.
    StateConflict,
    /// The caller lacks the required role.
    Authorization,
    /// Sold out, batch too large, or a per-wallet limit.
    Capacity,
    /// Outside an allowed time window, or an expired grant.
    Timing,
    /// Overflow or underflow; always fatal to the operation.
    Arithmetic,
    /// A collaborator (funds movement) could not complete.
    ExternalFailure,
}

impl TicketError {
    /// The taxonomy kind of this error.
    pub open spec fn spec_kind(self) -> ErrorKind {
        match self {
            TicketError::EventNameTooLong => ErrorKind::Validation,
            TicketError::EventNameEmpty => ErrorKind::Validation,
            TicketError::InvalidCharacters => ErrorKind::Validation,
            TicketError::DescriptionTooLong => ErrorKind::Validation,
            TicketError::VenueTooLong => ErrorKind::Validation,
            TicketError::VenueEmpty => ErrorKind::Validation,
            TicketError::InvalidEventDate => ErrorKind::Validation,
            TicketError::EventInPast => ErrorKind::Validation,
            TicketError::InvalidDateRange => ErrorKind::Validation,
            TicketError::EventCancelled => ErrorKind::StateConflict,
            TicketError::EventAlreadyCancelled => ErrorKind::StateConflict,
            TicketError::EventAlreadyStarted => ErrorKind::Timing,
            TicketError::EventHasTicketsSold => ErrorKind::StateConflict,
            TicketError::EventNotStarted => ErrorKind::Timing,
            TicketError::EventEnded => ErrorKind::Timing,
            TicketError::InvalidPrice => ErrorKind::Validation,
            TicketError::InvalidTicketTier => ErrorKind::Validation,
            TicketError::EventSoldOut => ErrorKind::Capacity,
            TicketError::InsufficientCapacity => ErrorKind::Capacity,
            TicketError::BatchSizeTooLarge => ErrorKind::Capacity,
            TicketError::MaximumTicketsExceeded => ErrorKind::Capacity,
            TicketError::WhitelistExpired => ErrorKind::Timing,
            TicketError::TicketAlreadyUsed => ErrorKind::StateConflict,
            TicketError::TicketFrozen => ErrorKind::StateConflict,
            TicketError::TicketNotFrozen => ErrorKind::StateConflict,
            TicketError::TicketAlreadyFrozen => ErrorKind::StateConflict,
            TicketError::NotTicketOwner => ErrorKind::Authorization,
            TicketError::TicketNotValidated => ErrorKind::StateConflict,
            TicketError::AlreadyValidatedForEntry => ErrorKind::StateConflict,
            TicketError::ValidationLogFull => ErrorKind::Capacity,
            TicketError::InvalidTicketStatus => ErrorKind::StateConflict,
            TicketError::TransfersNotAllowed => ErrorKind::StateConflict,
            TicketError::TransferWindowClosed => ErrorKind::Timing,
            TicketError::AlreadyDelegated => ErrorKind::StateConflict,
            TicketError::InvalidDelegateAuthority => ErrorKind::Validation,
            TicketError::DelegateAlreadyClaimed => ErrorKind::StateConflict,
            TicketError::DelegateExpired => ErrorKind::Timing,
            TicketError::InvalidEmailHash => ErrorKind::Validation,
            TicketError::InvalidClaimCode => ErrorKind::Validation,
            TicketError::Unauthorized => ErrorKind::Authorization,
            TicketError::UnauthorizedValidator => ErrorKind::Authorization,
            TicketError::UnauthorizedFreezer => ErrorKind::Authorization,
            TicketError::UnauthorizedUnfreezer => ErrorKind::Authorization,
            TicketError::UnauthorizedBurner => ErrorKind::Authorization,
            TicketError::InsufficientSigners => ErrorKind::Authorization,
            TicketError::RefundNotEligible => ErrorKind::StateConflict,
            TicketError::RefundWindowClosed => ErrorKind::Timing,
            TicketError::RefundReasonTooLong => ErrorKind::Validation,
            TicketError::AlreadyRefunded => ErrorKind::StateConflict,
            TicketError::InvalidRefundStatus => ErrorKind::StateConflict,
            TicketError::InvalidRefundRecord => ErrorKind::Validation,
            TicketError::InvalidFreezeRecord => ErrorKind::Validation,
            TicketError::InsufficientFunds => ErrorKind::ExternalFailure,
            TicketError::ProgramPaused => ErrorKind::StateConflict,
            TicketError::AlreadyPaused => ErrorKind::StateConflict,
            TicketError::NotPaused => ErrorKind::StateConflict,
            TicketError::RateLimitExceeded => ErrorKind::Capacity,
            TicketError::PriceOutOfRange => ErrorKind::Validation,
            TicketError::MathOverflow => ErrorKind::Arithmetic,
            TicketError::MathUnderflow => ErrorKind::Arithmetic,
        }
    }

    /// The taxonomy kind, as executable code.
    pub fn kind(&self) -> (k: ErrorKind)
        ensures
            k == self.spec_kind(),
    {
        match self {
            TicketError::EventNameTooLong => ErrorKind::Validation,
            TicketError::EventNameEmpty => ErrorKind::Validation,
            TicketError::InvalidCharacters => ErrorKind::Validation,
            TicketError::DescriptionTooLong => ErrorKind::Validation,
            TicketError::VenueTooLong => ErrorKind::Validation,
            TicketError::VenueEmpty => ErrorKind::Validation,
            TicketError::InvalidEventDate => ErrorKind::Validation,
            TicketError::EventInPast => ErrorKind::Validation,
            TicketError::InvalidDateRange => ErrorKind::Validation,
            TicketError::EventCancelled => ErrorKind::StateConflict,
            TicketError::EventAlreadyCancelled => ErrorKind::StateConflict,
            TicketError::EventAlreadyStarted => ErrorKind::Timing,
            TicketError::EventHasTicketsSold => ErrorKind::StateConflict,
            TicketError::EventNotStarted => ErrorKind::Timing,
            TicketError::EventEnded => ErrorKind::Timing,
            TicketError::InvalidPrice => ErrorKind::Validation,
            TicketError::InvalidTicketTier => ErrorKind::Validation,
            TicketError::EventSoldOut => ErrorKind::Capacity,
            TicketError::InsufficientCapacity => ErrorKind::Capacity,
            TicketError::BatchSizeTooLarge => ErrorKind::Capacity,
            TicketError::MaximumTicketsExceeded => ErrorKind::Capacity,
            TicketError::WhitelistExpired => ErrorKind::Timing,
            TicketError::TicketAlreadyUsed => ErrorKind::StateConflict,
            TicketError::TicketFrozen => ErrorKind::StateConflict,
            TicketError::TicketNotFrozen => ErrorKind::StateConflict,
            TicketError::TicketAlreadyFrozen => ErrorKind::StateConflict,
            TicketError::NotTicketOwner => ErrorKind::Authorization,
            TicketError::TicketNotValidated => ErrorKind::StateConflict,
            TicketError::AlreadyValidatedForEntry => ErrorKind::StateConflict,
            TicketError::ValidationLogFull => ErrorKind::Capacity,
            TicketError::InvalidTicketStatus => ErrorKind::StateConflict,
            TicketError::TransfersNotAllowed => ErrorKind::StateConflict,
            TicketError::TransferWindowClosed => ErrorKind::Timing,
            TicketError::AlreadyDelegated => ErrorKind::StateConflict,
            TicketError::InvalidDelegateAuthority => ErrorKind::Validation,
            TicketError::DelegateAlreadyClaimed => ErrorKind::StateConflict,
            TicketError::DelegateExpired => ErrorKind::Timing,
            TicketError::InvalidEmailHash => ErrorKind::Validation,
            TicketError::InvalidClaimCode => ErrorKind::Validation,
            TicketError::Unauthorized => ErrorKind::Authorization,
            TicketError::UnauthorizedValidator => ErrorKind::Authorization,
            TicketError::UnauthorizedFreezer => ErrorKind::Authorization,
            TicketError::UnauthorizedUnfreezer => ErrorKind::Authorization,
            TicketError::UnauthorizedBurner => ErrorKind::Authorization,
            TicketError::InsufficientSigners => ErrorKind::Authorization,
            TicketError::RefundNotEligible => ErrorKind::StateConflict,
            TicketError::RefundWindowClosed => ErrorKind::Timing,
            TicketError::RefundReasonTooLong => ErrorKind::Validation,
            TicketError::AlreadyRefunded => ErrorKind::StateConflict,
            TicketError::InvalidRefundStatus => ErrorKind::StateConflict,
            TicketError::InvalidRefundRecord => ErrorKind::Validation,
            TicketError::InvalidFreezeRecord => ErrorKind::Validation,
            TicketError::InsufficientFunds => ErrorKind::ExternalFailure,
            TicketError::ProgramPaused => ErrorKind::StateConflict,
            TicketError::AlreadyPaused => ErrorKind::StateConflict,
            TicketError::NotPaused => ErrorKind::StateConflict,
            TicketError::RateLimitExceeded => ErrorKind::Capacity,
            TicketError::PriceOutOfRange => ErrorKind::Validation,
            TicketError::MathOverflow => ErrorKind::Arithmetic,
            TicketError::MathUnderflow => ErrorKind::Arithmetic,
        }
    }
}

} // verus!
