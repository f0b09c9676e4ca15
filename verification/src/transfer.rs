//! Ownership transfer: direct transfers, and the two-phase delegated
//! (claim-code) transfer for offline handoff.
//!
//! A delegate grant binds a ticket to a hashed recipient identifier and a
//! claim code derived by a one-way digest from the ticket's identity and
//! that hash, so the code cannot be forged without knowing the hashed
//! recipient value.

use vstd::prelude::*;

use crate::AcctId;
use crate::admin::ProgramState;
use crate::bytes_eq;
use crate::errors::TicketError;
use crate::event::Event;
use crate::records::DelegateAuthority;
use crate::ticket::DelegateTransferRecord;
use crate::ticket::Ticket;
use crate::ticket::TransferRecord;
use crate::ticket::TransferType;
use crate::ticket::spec_status_block;
use crate::ticket::status_block;

verus! {

/// What the claim-code digest returns for a ticket identity and a hashed
/// recipient. Named, not spelled out: the digest is a fixed one-way
/// function of those bytes alone.
pub uninterp spec fn claim_code_of(event_id: u64, ticket_id: u64, email_hash: Seq<u8>) -> Seq<
    u8,
>;

/// Relies on anchor_lang::solana_program::hash::Hasher (SHA-256): the
/// digest depends only on the bytes hashed, so the same ticket identity
/// and hashed recipient always yield the same code; the first sixteen
/// digest bytes become the claim code.
#[verifier::external_body]
fn derive_claim_code(event_id: u64, ticket_id: u64, email_hash: &[u8; 32]) -> (r: [u8; 16])
    ensures
        r@ == claim_code_of(event_id, ticket_id, email_hash@),
{
    let mut hasher = anchor_lang::solana_program::hash::Hasher::default();
    hasher.hash(&event_id.to_le_bytes());
    hasher.hash(&ticket_id.to_le_bytes());
    hasher.hash(email_hash.as_slice());
    let digest = hasher.result().to_bytes();
    let mut code = [0u8; 16];
    code.copy_from_slice(&digest[..16]);
    code
}

/// The first precondition `transfer_ticket` finds broken, `None` when the
/// call must succeed.
pub open spec fn spec_transfer_err(
    ps: ProgramState,
    ev: Event,
    t: Ticket,
    from: AcctId,
    now: i64,
) -> Option<TicketError> {
    if ps.paused {
        Some(TicketError::ProgramPaused)
    } else if t.owner != from {
        Some(TicketError::NotTicketOwner)
    } else if spec_status_block(t.status) is Some {
        spec_status_block(t.status)
    } else if ev.cancelled {
        Some(TicketError::EventCancelled)
    } else if !ev.transferable {
        Some(TicketError::TransfersNotAllowed)
    } else if ev.transfer_freeze_time is Some && now >= ev.transfer_freeze_time->Some_0 {
        Some(TicketError::TransferWindowClosed)
    } else if t.transfer_count == u32::MAX {
        Some(TicketError::MathOverflow)
    } else {
        None
    }
}

/// `t2` is `t` handed from `from` to `to` at `now`: new owner, one more
/// transfer, and one more history entry; everything else untouched.
pub open spec fn spec_transferred(
    t2: Ticket,
    t: Ticket,
    from: AcctId,
    to: AcctId,
    memo: Option<String>,
    now: i64,
) -> bool {
    &&& t2 == (Ticket {
        owner: to,
        transfer_count: t2.transfer_count,
        last_transfer_timestamp: now,
        transfer_history: t2.transfer_history,
        ..t
    })
    &&& t2.transfer_count == t.transfer_count + 1
    &&& t2.transfer_history@ == t.transfer_history@.push(
        TransferRecord {
            from,
            to,
            timestamp: now,
            memo,
            transfer_type: TransferType::Direct,
        },
    )
}

/// Transfers a ticket directly to a new owner. Only the current owner of a
/// `Valid`, unfrozen ticket of a transferable, non-cancelled event may
/// call, and only before the event's transfer-freeze cutoff if one is
/// set.
pub fn transfer_ticket(
    ps: &ProgramState,
    ev: &Event,
    t: &mut Ticket,
    from: AcctId,
    to: AcctId,
    memo: Option<String>,
    now: i64,
) -> (r: Result<(), TicketError>)
    ensures
        match spec_transfer_err(*ps, *ev, *old(t), from, now) {
            Some(e) => r == Err::<(), TicketError>(e) && *final(t) == *old(t),
            None => r is Ok && spec_transferred(*final(t), *old(t), from, to, memo, now),
        },
{
    if ps.paused {
        return Err(TicketError::ProgramPaused);
    }
    if t.owner != from {
        return Err(TicketError::NotTicketOwner);
    }
    if let Some(e) = status_block(t.status) {
        return Err(e);
    }
    if ev.cancelled {
        return Err(TicketError::EventCancelled);
    }
    if !ev.transferable {
        return Err(TicketError::TransfersNotAllowed);
    }
    if let Some(cutoff) = ev.transfer_freeze_time {
        if now >= cutoff {
            return Err(TicketError::TransferWindowClosed);
        }
    }
    if t.transfer_count == u32::MAX {
        return Err(TicketError::MathOverflow);
    }
    t.owner = to;
    t.transfer_count = t.transfer_count + 1;
    t.last_transfer_timestamp = now;
    t.transfer_history.push(
        TransferRecord { from, to, timestamp: now, memo, transfer_type: TransferType::Direct },
    );
    Ok(())
}

/// The first precondition `initialize_delegate_transfer` finds broken,
/// `None` when the call must succeed.
pub open spec fn spec_init_delegate_err(
    ps: ProgramState,
    ev: Event,
    t: Ticket,
    owner: AcctId,
    expires_in_hours: u64,
    now: i64,
) -> Option<TicketError> {
    if ps.paused {
        Some(TicketError::ProgramPaused)
    } else if t.owner != owner {
        Some(TicketError::NotTicketOwner)
    } else if spec_status_block(t.status) is Some {
        spec_status_block(t.status)
    } else if ev.cancelled {
        Some(TicketError::EventCancelled)
    } else if !ev.transferable {
        Some(TicketError::TransfersNotAllowed)
    } else if t.pending_transfer {
        Some(TicketError::AlreadyDelegated)
    } else if expires_in_hours * 3600 > i64::MAX || now + expires_in_hours * 3600
        > i64::MAX {
        Some(TicketError::MathOverflow)
    } else {
        None
    }
}

/// The grant a successful `initialize_delegate_transfer` creates: bound to
/// the ticket, expiring `expires_in_hours` hours from `now`, unclaimed,
/// with the derived claim code.
pub open spec fn spec_fresh_grant(
    g: DelegateAuthority,
    t: Ticket,
    owner: AcctId,
    email_hash: Seq<u8>,
    expires_in_hours: u64,
    now: i64,
) -> bool {
    &&& g.event_id == t.event_id
    &&& g.ticket_id == t.ticket_id
    &&& g.original_owner == owner
    &&& g.email_hash@ == email_hash
    &&& g.claim_code@ == claim_code_of(t.event_id, t.ticket_id, email_hash)
    &&& g.created_at == now
    &&& g.expires_at == now + expires_in_hours * 3600
    &&& !g.claimed
}

/// Opens a delegated transfer: only the owner of a `Valid`, unfrozen,
/// not-yet-delegated ticket of a transferable event may call. Creates the
/// grant and marks the ticket pending.
pub fn initialize_delegate_transfer(
    ps: &ProgramState,
    ev: &Event,
    t: &mut Ticket,
    owner: AcctId,
    email_hash: [u8; 32],
    expires_in_hours: u64,
    now: i64,
) -> (r: Result<DelegateAuthority, TicketError>)
    ensures
        match spec_init_delegate_err(*ps, *ev, *old(t), owner, expires_in_hours, now) {
            Some(e) => r == Err::<DelegateAuthority, TicketError>(e) && *final(t) == *old(
                t,
            ),
            None => {
                &&& r is Ok
                &&& spec_fresh_grant(
                    r->Ok_0,
                    *old(t),
                    owner,
                    email_hash@,
                    expires_in_hours,
                    now,
                )
                &&& *final(t) == (Ticket { pending_transfer: true, ..*old(t) })
            },
        },
{
    if ps.paused {
        return Err(TicketError::ProgramPaused);
    }
    if t.owner != owner {
        return Err(TicketError::NotTicketOwner);
    }
    if let Some(e) = status_block(t.status) {
        return Err(e);
    }
    if ev.cancelled {
        return Err(TicketError::EventCancelled);
    }
    if !ev.transferable {
        return Err(TicketError::TransfersNotAllowed);
    }
    if t.pending_transfer {
        return Err(TicketError::AlreadyDelegated);
    }
    if expires_in_hours > (i64::MAX as u64) {
        return Err(TicketError::MathOverflow);
    }
    let ttl_seconds = match (expires_in_hours as i64).checked_mul(3600) {
        Some(s) => s,
        None => {
            return Err(TicketError::MathOverflow);
        },
    };
    let expires_at = match now.checked_add(ttl_seconds) {
        Some(e) => e,
        None => {
            return Err(TicketError::MathOverflow);
        },
    };
    let claim_code = derive_claim_code(t.event_id, t.ticket_id, &email_hash);
    t.pending_transfer = true;
    Ok(
        DelegateAuthority {
            event_id: t.event_id,
            ticket_id: t.ticket_id,
            original_owner: owner,
            email_hash,
            claim_code,
            created_at: now,
            expires_at,
            claimed: false,
        },
    )
}

/// The first precondition `complete_delegate_transfer` finds broken,
/// `None` when the call must succeed. The four grant failures are
/// distinguished for caller feedback but identical in effect: nothing
/// mutates.
pub open spec fn spec_complete_delegate_err(
    ps: ProgramState,
    t: Ticket,
    g: DelegateAuthority,
    email_hash: Seq<u8>,
    claim_code: Seq<u8>,
    now: i64,
) -> Option<TicketError> {
    if ps.paused {
        Some(TicketError::ProgramPaused)
    } else if g.event_id != t.event_id || g.ticket_id != t.ticket_id {
        Some(TicketError::InvalidDelegateAuthority)
    } else if g.claimed {
        Some(TicketError::DelegateAlreadyClaimed)
    } else if g.expires_at <= now {
        Some(TicketError::DelegateExpired)
    } else if g.email_hash@ != email_hash {
        Some(TicketError::InvalidEmailHash)
    } else if g.claim_code@ != claim_code {
        Some(TicketError::InvalidClaimCode)
    } else if spec_status_block(t.status) is Some {
        spec_status_block(t.status)
    } else if t.transfer_count == u32::MAX {
        Some(TicketError::MathOverflow)
    } else {
        None
    }
}

/// `t2` is `t` claimed by `to` under grant `g` at `now`: new owner, no
/// longer pending, one more transfer, and one entry appended to each of
/// the transfer and delegate histories.
pub open spec fn spec_delegate_claimed(
    t2: Ticket,
    t: Ticket,
    g: DelegateAuthority,
    to: AcctId,
    now: i64,
) -> bool {
    &&& t2 == (Ticket {
        owner: to,
        pending_transfer: false,
        transfer_count: t2.transfer_count,
        last_transfer_timestamp: now,
        transfer_history: t2.transfer_history,
        delegate_transfer_history: t2.delegate_transfer_history,
        ..t
    })
    &&& t2.transfer_count == t.transfer_count + 1
    &&& t2.transfer_history@ == t.transfer_history@.push(
        TransferRecord {
            from: g.original_owner,
            to,
            timestamp: now,
            memo: None,
            transfer_type: TransferType::Delegated,
        },
    )
    &&& t2.delegate_transfer_history@ == t.delegate_transfer_history@.push(
        DelegateTransferRecord {
            from: g.original_owner,
            to,
            timestamp: now,
            email_hash: g.email_hash,
            claimed_at: now,
        },
    )
}

/// Claims a delegated transfer: any caller presenting the matching hashed
/// recipient and claim code, strictly before expiry and before anyone
/// else, takes ownership. On success the grant is marked claimed; the
/// caller then deletes its record and returns its storage cost to the
/// original owner.
pub fn complete_delegate_transfer(
    ps: &ProgramState,
    t: &mut Ticket,
    g: &mut DelegateAuthority,
    new_owner: AcctId,
    email_hash: [u8; 32],
    claim_code: [u8; 16],
    now: i64,
) -> (r: Result<(), TicketError>)
    ensures
        match spec_complete_delegate_err(
            *ps,
            *old(t),
            *old(g),
            email_hash@,
            claim_code@,
            now,
        ) {
            Some(e) => r == Err::<(), TicketError>(e) && *final(t) == *old(t) && *final(g)
                == *old(g),
            None => {
                &&& r is Ok
                &&& spec_delegate_claimed(*final(t), *old(t), *old(g), new_owner, now)
                &&& *final(g) == (DelegateAuthority { claimed: true, ..*old(g) })
            },
        },
{
    if ps.paused {
        return Err(TicketError::ProgramPaused);
    }
    if g.event_id != t.event_id || g.ticket_id != t.ticket_id {
        return Err(TicketError::InvalidDelegateAuthority);
    }
    if g.claimed {
        return Err(TicketError::DelegateAlreadyClaimed);
    }
    if g.expires_at <= now {
        return Err(TicketError::DelegateExpired);
    }
    if !bytes_eq(&g.email_hash, &email_hash) {
        return Err(TicketError::InvalidEmailHash);
    }
    if !bytes_eq(&g.claim_code, &claim_code) {
        return Err(TicketError::InvalidClaimCode);
    }
    if let Some(e) = status_block(t.status) {
        return Err(e);
    }
    if t.transfer_count == u32::MAX {
        return Err(TicketError::MathOverflow);
    }
    t.owner = new_owner;
    t.pending_transfer = false;
    t.transfer_count = t.transfer_count + 1;
    t.last_transfer_timestamp = now;
    t.transfer_history.push(
        TransferRecord {
            from: g.original_owner,
            to: new_owner,
            timestamp: now,
            memo: None,
            transfer_type: TransferType::Delegated,
        },
    );
    t.delegate_transfer_history.push(
        DelegateTransferRecord {
            from: g.original_owner,
            to: new_owner,
            timestamp: now,
            email_hash: g.email_hash,
            claimed_at: now,
        },
    );
    g.claimed = true;
    Ok(())
}

} // verus!
