//! Compliance holds: freezing a ticket into a non-transferable, non-usable
//! state, and the asymmetric release — freeze authorities can place a
//! hold, only the organizer can lift one.

use vstd::prelude::*;

use crate::AcctId;
use crate::admin::ProgramState;
use crate::errors::TicketError;
use crate::event::Event;
use crate::records::FreezeRecord;
use crate::records::FreezeReason;
use crate::ticket::Ticket;
use crate::ticket::TicketStatus;
use crate::ticket::spec_status_block;
use crate::ticket::status_block;
use crate::contains_acct;

verus! {

/// The first precondition `freeze_ticket` finds broken, `None` when the
/// call must succeed. With the status enum as the single source of truth,
/// only a `Valid` ticket can enter the hold.
pub open spec fn spec_freeze_err(
    ps: ProgramState,
    ev: Event,
    t: Ticket,
    authority: AcctId,
) -> Option<TicketError> {
    if ps.paused {
        Some(TicketError::ProgramPaused)
    } else if ev.organizer != authority && !ev.freeze_authorities@.contains(authority) {
        Some(TicketError::UnauthorizedFreezer)
    } else if t.status == TicketStatus::Frozen {
        Some(TicketError::TicketAlreadyFrozen)
    } else if spec_status_block(t.status) is Some {
        spec_status_block(t.status)
    } else {
        None
    }
}

/// Places a hold on a ticket. Only the organizer or a listed freeze
/// authority may call; freezing twice is a state conflict. While frozen,
/// transfer, validation and refund operations are all rejected. Returns
/// the audit record for the caller to store.
pub fn freeze_ticket(
    ps: &ProgramState,
    ev: &Event,
    t: &mut Ticket,
    authority: AcctId,
    reason: FreezeReason,
    evidence: String,
    now: i64,
) -> (r: Result<FreezeRecord, TicketError>)
    ensures
        match spec_freeze_err(*ps, *ev, *old(t), authority) {
            Some(e) => r == Err::<FreezeRecord, TicketError>(e) && *final(t) == *old(t),
            None => {
                &&& r is Ok
                &&& *final(t) == (Ticket {
                    status: TicketStatus::Frozen,
                    freeze_timestamp: Some(now),
                    ..*old(t)
                })
                &&& r->Ok_0 == (FreezeRecord {
                    event_id: old(t).event_id,
                    ticket_id: old(t).ticket_id,
                    frozen_by: authority,
                    freeze_timestamp: now,
                    reason,
                    evidence,
                    unfrozen: false,
                    unfrozen_by: None,
                    unfreeze_timestamp: None,
                    unfreeze_note: None,
                })
            },
        },
{
    if ps.paused {
        return Err(TicketError::ProgramPaused);
    }
    if !(ev.organizer == authority || contains_acct(&ev.freeze_authorities, authority)) {
        return Err(TicketError::UnauthorizedFreezer);
    }
    if t.status == TicketStatus::Frozen {
        return Err(TicketError::TicketAlreadyFrozen);
    }
    if let Some(e) = status_block(t.status) {
        return Err(e);
    }
    t.status = TicketStatus::Frozen;
    t.freeze_timestamp = Some(now);
    Ok(
        FreezeRecord {
            event_id: t.event_id,
            ticket_id: t.ticket_id,
            frozen_by: authority,
            freeze_timestamp: now,
            reason,
            evidence,
            unfrozen: false,
            unfrozen_by: None,
            unfreeze_timestamp: None,
            unfreeze_note: None,
        },
    )
}

/// The first precondition `unfreeze_ticket` finds broken, `None` when the
/// call must succeed. Releasing needs a strictly higher bar than placing:
/// the organizer alone, so freeze authorities cannot reverse their own
/// action.
pub open spec fn spec_unfreeze_err(
    ps: ProgramState,
    ev: Event,
    t: Ticket,
    fr: FreezeRecord,
    authority: AcctId,
) -> Option<TicketError> {
    if ps.paused {
        Some(TicketError::ProgramPaused)
    } else if ev.organizer != authority {
        Some(TicketError::UnauthorizedUnfreezer)
    } else if t.status != TicketStatus::Frozen {
        Some(TicketError::TicketNotFrozen)
    } else if fr.event_id != t.event_id || fr.ticket_id != t.ticket_id {
        Some(TicketError::InvalidFreezeRecord)
    } else {
        None
    }
}

/// Lifts a hold: organizer only. The ticket returns to `Valid`; the audit
/// record gains the release fields and is then destroyed by the caller,
/// who is expected to log it durably first.
pub fn unfreeze_ticket(
    ps: &ProgramState,
    ev: &Event,
    t: &mut Ticket,
    fr: &mut FreezeRecord,
    authority: AcctId,
    unfreeze_note: String,
    now: i64,
) -> (r: Result<(), TicketError>)
    ensures
        match spec_unfreeze_err(*ps, *ev, *old(t), *old(fr), authority) {
            Some(e) => r == Err::<(), TicketError>(e) && *final(t) == *old(t) && *final(fr)
                == *old(fr),
            None => {
                &&& r is Ok
                &&& *final(t) == (Ticket {
                    status: TicketStatus::Valid,
                    unfreeze_timestamp: Some(now),
                    ..*old(t)
                })
                &&& *final(fr) == (FreezeRecord {
                    unfrozen: true,
                    unfrozen_by: Some(authority),
                    unfreeze_timestamp: Some(now),
                    unfreeze_note: Some(unfreeze_note),
                    ..*old(fr)
                })
            },
        },
{
    if ps.paused {
        return Err(TicketError::ProgramPaused);
    }
    if ev.organizer != authority {
        return Err(TicketError::UnauthorizedUnfreezer);
    }
    if t.status != TicketStatus::Frozen {
        return Err(TicketError::TicketNotFrozen);
    }
    if fr.event_id != t.event_id || fr.ticket_id != t.ticket_id {
        return Err(TicketError::InvalidFreezeRecord);
    }
    t.status = TicketStatus::Valid;
    t.unfreeze_timestamp = Some(now);
    fr.unfrozen = true;
    fr.unfrozen_by = Some(authority);
    fr.unfreeze_timestamp = Some(now);
    fr.unfreeze_note = Some(unfreeze_note);
    Ok(())
}

} // verus!
