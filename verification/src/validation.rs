//! Gate validation: entry, exit and checkpoint scans, and the two terminal
//! actions that follow a validated entry — marking the ticket used (kept
//! for history) or burning it (record reclaimed by the caller).

use vstd::prelude::*;

use crate::AcctId;
use crate::admin::ProgramState;
use crate::constants::ENTRY_GRACE_SECONDS;
use crate::constants::MAX_CHECKPOINT_SCANS;
use crate::contains_acct;
use crate::errors::TicketError;
use crate::event::Event;
use crate::issuance::TierBump;
use crate::issuance::bump_tier;
use crate::issuance::spec_tiers_after;
use crate::issuance::spec_tiers_bump_fits;
use crate::records::ValidationRecord;
use crate::records::ValidationType;
use crate::ticket::Ticket;
use crate::ticket::TicketStatus;
use crate::ticket::spec_status_block;
use crate::ticket::status_block;

verus! {

/// Whether `who` may validate tickets of `ev`: listed gate staff or the
/// organizer.
pub open spec fn spec_may_validate(ev: Event, who: AcctId) -> bool {
    ev.gate_staff@.contains(who) || ev.organizer == who
}

/// The first precondition `validate_entry` finds broken, `None` when the
/// call must succeed. An entry scan of an already entry-validated ticket
/// is a hard error, not a no-op, to surface double scans.
pub open spec fn spec_validate_entry_err(
    ps: ProgramState,
    ev: Event,
    t: Ticket,
    validator: AcctId,
    validation_type: ValidationType,
    now: i64,
) -> Option<TicketError> {
    if ps.paused {
        Some(TicketError::ProgramPaused)
    } else if spec_status_block(t.status) is Some {
        spec_status_block(t.status)
    } else if ev.cancelled {
        Some(TicketError::EventCancelled)
    } else if !spec_may_validate(ev, validator) {
        Some(TicketError::UnauthorizedValidator)
    } else if now < ev.start_time {
        Some(TicketError::EventNotStarted)
    } else if ev.end_time + ENTRY_GRACE_SECONDS > i64::MAX {
        Some(TicketError::MathOverflow)
    } else if now > ev.end_time + ENTRY_GRACE_SECONDS {
        Some(TicketError::EventEnded)
    } else if validation_type == ValidationType::Entry && t.entry_validated {
        Some(TicketError::AlreadyValidatedForEntry)
    } else if validation_type == ValidationType::Checkpoint && t.checkpoint_scans@.len()
        >= MAX_CHECKPOINT_SCANS {
        Some(TicketError::ValidationLogFull)
    } else if t.validation_count == u32::MAX {
        Some(TicketError::MathOverflow)
    } else {
        None
    }
}

/// `t2` is `t` after a successful scan of kind `validation_type` at gate
/// `gate` and time `now`: the kind-specific marks are set, the validation
/// counter moves, and nothing else changes.
pub open spec fn spec_scanned(
    t2: Ticket,
    t: Ticket,
    gate: Seq<char>,
    validation_type: ValidationType,
    now: i64,
) -> bool {
    &&& t2 == (Ticket {
        entry_validated: t2.entry_validated,
        entry_time: t2.entry_time,
        entry_gate: t2.entry_gate,
        exit_time: t2.exit_time,
        exit_gate: t2.exit_gate,
        checkpoint_scans: t2.checkpoint_scans,
        validation_count: t2.validation_count,
        last_validated: now,
        ..t
    })
    &&& t2.validation_count == t.validation_count + 1
    &&& match validation_type {
        ValidationType::Entry => {
            &&& t2.entry_validated
            &&& t2.entry_time == Some(now)
            &&& t2.entry_gate is Some && t2.entry_gate->Some_0@ == gate
            &&& t2.exit_time == t.exit_time
            &&& t2.exit_gate == t.exit_gate
            &&& t2.checkpoint_scans@ == t.checkpoint_scans@
        },
        ValidationType::Exit => {
            &&& t2.entry_validated == t.entry_validated
            &&& t2.entry_time == t.entry_time
            &&& t2.entry_gate == t.entry_gate
            &&& t2.exit_time == Some(now)
            &&& t2.exit_gate is Some && t2.exit_gate->Some_0@ == gate
            &&& t2.checkpoint_scans@ == t.checkpoint_scans@
        },
        ValidationType::Checkpoint => {
            &&& t2.entry_validated == t.entry_validated
            &&& t2.entry_time == t.entry_time
            &&& t2.entry_gate == t.entry_gate
            &&& t2.exit_time == t.exit_time
            &&& t2.exit_gate == t.exit_gate
            &&& t2.checkpoint_scans@.len() == t.checkpoint_scans@.len() + 1
            &&& forall|i: int|
                0 <= i < t.checkpoint_scans@.len() ==> t2.checkpoint_scans@[i]
                    == t.checkpoint_scans@[i]
            &&& t2.checkpoint_scans@.last().0@ == gate
            &&& t2.checkpoint_scans@.last().1 == now
        },
    }
}

/// Records one gate scan. Only gate staff or the organizer may call,
/// within the event window plus a grace period, on a `Valid` unfrozen
/// ticket. A second entry scan fails; exits and checkpoints have no
/// uniqueness constraint. Returns the immutable audit record for the
/// caller to append to the store.
pub fn validate_entry(
    ps: &ProgramState,
    ev: &Event,
    t: &mut Ticket,
    validator: AcctId,
    gate_id: String,
    validation_type: ValidationType,
    now: i64,
) -> (r: Result<ValidationRecord, TicketError>)
    ensures
        match spec_validate_entry_err(*ps, *ev, *old(t), validator, validation_type, now) {
            Some(e) => r == Err::<ValidationRecord, TicketError>(e)
                && *final(t) == *old(t),
            None => {
                &&& r is Ok
                &&& spec_scanned(*final(t), *old(t), gate_id@, validation_type, now)
                &&& r->Ok_0 == (ValidationRecord {
                    event_id: old(t).event_id,
                    ticket_id: old(t).ticket_id,
                    validator,
                    timestamp: now,
                    gate_id,
                    validation_type,
                })
            },
        },
{
    if ps.paused {
        return Err(TicketError::ProgramPaused);
    }
    if let Some(e) = status_block(t.status) {
        return Err(e);
    }
    if ev.cancelled {
        return Err(TicketError::EventCancelled);
    }
    if !(contains_acct(&ev.gate_staff, validator) || ev.organizer == validator) {
        return Err(TicketError::UnauthorizedValidator);
    }
    if now < ev.start_time {
        return Err(TicketError::EventNotStarted);
    }
    let deadline = match ev.end_time.checked_add(ENTRY_GRACE_SECONDS) {
        Some(d) => d,
        None => {
            return Err(TicketError::MathOverflow);
        },
    };
    if now > deadline {
        return Err(TicketError::EventEnded);
    }
    if validation_type == ValidationType::Entry && t.entry_validated {
        return Err(TicketError::AlreadyValidatedForEntry);
    }
    if validation_type == ValidationType::Checkpoint && t.checkpoint_scans.len()
        >= MAX_CHECKPOINT_SCANS {
        return Err(TicketError::ValidationLogFull);
    }
    if t.validation_count == u32::MAX {
        return Err(TicketError::MathOverflow);
    }
    match validation_type {
        ValidationType::Entry => {
            t.entry_validated = true;
            t.entry_time = Some(now);
            t.entry_gate = Some(gate_id.clone());
        },
        ValidationType::Exit => {
            t.exit_time = Some(now);
            t.exit_gate = Some(gate_id.clone());
        },
        ValidationType::Checkpoint => {
            t.checkpoint_scans.push((gate_id.clone(), now));
        },
    }
    t.validation_count = t.validation_count + 1;
    t.last_validated = now;
    Ok(
        ValidationRecord {
            event_id: t.event_id,
            ticket_id: t.ticket_id,
            validator,
            timestamp: now,
            gate_id,
            validation_type,
        },
    )
}

/// The first precondition `mark_ticket_used` finds broken, `None` when the
/// call must succeed.
pub open spec fn spec_mark_used_err(
    ps: ProgramState,
    ev: Event,
    t: Ticket,
    authority: AcctId,
) -> Option<TicketError> {
    if ps.paused {
        Some(TicketError::ProgramPaused)
    } else if !spec_may_validate(ev, authority) {
        Some(TicketError::UnauthorizedValidator)
    } else if !t.entry_validated {
        Some(TicketError::TicketNotValidated)
    } else if spec_status_block(t.status) is Some {
        spec_status_block(t.status)
    } else if ev.tickets_used == u32::MAX {
        Some(TicketError::MathOverflow)
    } else if !spec_tiers_bump_fits(ev.tiers@, t.tier_index, TierBump::Used, 1) {
        Some(TicketError::MathOverflow)
    } else {
        None
    }
}

/// Consumes a validated ticket but keeps its record for history. Only the
/// organizer or gate staff may call, after entry validation, once.
pub fn mark_ticket_used(
    ps: &ProgramState,
    ev: &mut Event,
    t: &mut Ticket,
    authority: AcctId,
    now: i64,
) -> (r: Result<(), TicketError>)
    ensures
        match spec_mark_used_err(*ps, *old(ev), *old(t), authority) {
            Some(e) => r == Err::<(), TicketError>(e) && *final(ev) == *old(ev)
                && *final(t) == *old(t),
            None => {
                &&& r is Ok
                &&& *final(t) == (Ticket {
                    status: TicketStatus::Used,
                    used_at: Some(now),
                    ..*old(t)
                })
                &&& *final(ev) == (Event {
                    tickets_used: (old(ev).tickets_used + 1) as u32,
                    tiers: final(ev).tiers,
                    ..*old(ev)
                })
                &&& final(ev).tiers@ == spec_tiers_after(
                    old(ev).tiers@,
                    old(t).tier_index,
                    TierBump::Used,
                    1,
                )
            },
        },
{
    if ps.paused {
        return Err(TicketError::ProgramPaused);
    }
    if !(contains_acct(&ev.gate_staff, authority) || ev.organizer == authority) {
        return Err(TicketError::UnauthorizedValidator);
    }
    if !t.entry_validated {
        return Err(TicketError::TicketNotValidated);
    }
    if let Some(e) = status_block(t.status) {
        return Err(e);
    }
    if ev.tickets_used == u32::MAX {
        return Err(TicketError::MathOverflow);
    }
    if t.tier_index < ev.tiers.len() && ev.tiers[t.tier_index].used_count == u32::MAX {
        return Err(TicketError::MathOverflow);
    }
    t.status = TicketStatus::Used;
    t.used_at = Some(now);
    ev.tickets_used = ev.tickets_used + 1;
    if t.tier_index < ev.tiers.len() {
        bump_tier(&mut ev.tiers, t.tier_index, TierBump::Used, 1);
    }
    Ok(())
}

/// The first precondition `burn_ticket` finds broken, `None` when the call
/// must succeed.
pub open spec fn spec_burn_err(
    ps: ProgramState,
    ev: Event,
    t: Ticket,
    authority: AcctId,
) -> Option<TicketError> {
    if ps.paused {
        Some(TicketError::ProgramPaused)
    } else if ev.organizer != authority && !ev.burn_authorities@.contains(authority) {
        Some(TicketError::UnauthorizedBurner)
    } else if !t.entry_validated {
        Some(TicketError::TicketNotValidated)
    } else if spec_status_block(t.status) is Some {
        spec_status_block(t.status)
    } else if ev.tickets_used == u32::MAX || ev.tickets_burned == u32::MAX {
        Some(TicketError::MathOverflow)
    } else if !spec_tiers_bump_fits(ev.tiers@, t.tier_index, TierBump::UsedAndBurned, 1) {
        Some(TicketError::MathOverflow)
    } else {
        None
    }
}

/// Consumes a validated ticket and marks it for destruction: the caller
/// deletes the record and returns its storage cost to the owner. Only the
/// organizer or a listed burn authority may call.
pub fn burn_ticket(
    ps: &ProgramState,
    ev: &mut Event,
    t: &mut Ticket,
    authority: AcctId,
    now: i64,
) -> (r: Result<(), TicketError>)
    ensures
        match spec_burn_err(*ps, *old(ev), *old(t), authority) {
            Some(e) => r == Err::<(), TicketError>(e) && *final(ev) == *old(ev)
                && *final(t) == *old(t),
            None => {
                &&& r is Ok
                &&& *final(t) == (Ticket {
                    status: TicketStatus::Burned,
                    used_at: Some(now),
                    ..*old(t)
                })
                &&& *final(ev) == (Event {
                    tickets_used: (old(ev).tickets_used + 1) as u32,
                    tickets_burned: (old(ev).tickets_burned + 1) as u32,
                    tiers: final(ev).tiers,
                    ..*old(ev)
                })
                &&& final(ev).tiers@ == spec_tiers_after(
                    old(ev).tiers@,
                    old(t).tier_index,
                    TierBump::UsedAndBurned,
                    1,
                )
            },
        },
{
    if ps.paused {
        return Err(TicketError::ProgramPaused);
    }
    if !(ev.organizer == authority || contains_acct(&ev.burn_authorities, authority)) {
        return Err(TicketError::UnauthorizedBurner);
    }
    if !t.entry_validated {
        return Err(TicketError::TicketNotValidated);
    }
    if let Some(e) = status_block(t.status) {
        return Err(e);
    }
    if ev.tickets_used == u32::MAX || ev.tickets_burned == u32::MAX {
        return Err(TicketError::MathOverflow);
    }
    if t.tier_index < ev.tiers.len() && (ev.tiers[t.tier_index].used_count == u32::MAX
        || ev.tiers[t.tier_index].burned_count == u32::MAX) {
        return Err(TicketError::MathOverflow);
    }
    t.status = TicketStatus::Burned;
    t.used_at = Some(now);
    ev.tickets_used = ev.tickets_used + 1;
    ev.tickets_burned = ev.tickets_burned + 1;
    if t.tier_index < ev.tiers.len() {
        bump_tier(&mut ev.tiers, t.tier_index, TierBump::UsedAndBurned, 1);
    }
    Ok(())
}

} // verus!
