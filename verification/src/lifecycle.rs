//! The event lifecycle: creation, in-place updates while the event has not
//! started, and cancellation.
//!
//! Cancellation follows the strict policy: an event can be closed only
//! while nothing has been sold. (The alternative — cancelling after sales
//! and flipping every outstanding ticket to refund-eligible — is a
//! legitimate design; this engine picks the strict one and leaves mass
//! refunds to per-ticket requests.)

use vstd::prelude::*;

use crate::AcctId;
use crate::admin::ProgramState;
use crate::constants::DEFAULT_EVENT_DURATION;
use crate::constants::MAX_DESCRIPTION_LEN;
use crate::constants::MAX_VENUE_NAME_LEN;
use crate::errors::TicketError;
use crate::event::Event;
use crate::event::RefundPolicy;
use crate::event::default_refund_tiers;
use crate::input::spec_name_error;
use crate::input::validate_event_name;

verus! {

/// The first precondition `create_event` finds broken, `None` when the
/// call must succeed.
pub open spec fn spec_create_event_err(
    ps: ProgramState,
    name: Seq<char>,
    venue: Seq<char>,
    event_date: i64,
    general_price: u64,
    vip_price: u64,
    now: i64,
) -> Option<TicketError> {
    if ps.paused {
        Some(TicketError::ProgramPaused)
    } else if spec_name_error(name) is Some {
        spec_name_error(name)
    } else if venue.len() > MAX_VENUE_NAME_LEN {
        Some(TicketError::VenueTooLong)
    } else if venue.len() == 0 {
        Some(TicketError::VenueEmpty)
    } else if event_date <= now {
        Some(TicketError::InvalidEventDate)
    } else if vip_price <= general_price {
        Some(TicketError::InvalidPrice)
    } else if event_date + DEFAULT_EVENT_DURATION > i64::MAX {
        Some(TicketError::MathOverflow)
    } else if ps.total_events + 1 > u64::MAX {
        Some(TicketError::MathOverflow)
    } else {
        None
    }
}

/// What a freshly created event looks like: the caller's identities and
/// inputs, zeroed counters, no cancellation, transfers allowed, no role
/// lists, the default tiered refund policy, and a day-long default
/// duration.
pub open spec fn spec_fresh_event(
    ev: Event,
    authority: AcctId,
    event_id: u64,
    name: String,
    venue: String,
    event_date: i64,
    total_tickets: u32,
    general_price: u64,
    vip_price: u64,
    now: i64,
) -> bool {
    &&& ev.event_id == event_id
    &&& ev.organizer == authority
    &&& ev.authority == authority
    &&& ev.name == name
    &&& ev.description@ == Seq::<char>::empty()
    &&& ev.venue == venue
    &&& ev.start_time == event_date
    &&& ev.end_time == event_date + DEFAULT_EVENT_DURATION
    &&& ev.total_tickets == total_tickets
    &&& ev.tickets_sold == 0
    &&& ev.tickets_used == 0
    &&& ev.tickets_burned == 0
    &&& ev.general_price == general_price
    &&& ev.vip_price == vip_price
    &&& !ev.cancelled
    &&& ev.cancelled_at is None
    &&& ev.cancellation_reason is None
    &&& ev.transferable
    &&& ev.transfer_freeze_time is None
    &&& ev.gate_staff@.len() == 0
    &&& ev.freeze_authorities@.len() == 0
    &&& ev.burn_authorities@.len() == 0
    &&& ev.tiers@.len() == 0
    &&& (ev.refund_policy matches RefundPolicy::TieredRefund { tiers } && tiers@
        =~= default_refund_tiers())
    &&& ev.max_tickets_per_wallet is None
    &&& ev.created_at == now
    &&& ev.updated_at == now
}

/// Creates an event. Fails when the program is paused, on a malformed name
/// or venue, a start not strictly in the future, or VIP priced at or below
/// general admission; on success the global event counter moves up by one
/// and the new event satisfies `spec_fresh_event` (and so `wf`).
pub fn create_event(
    ps: &mut ProgramState,
    authority: AcctId,
    event_id: u64,
    name: String,
    venue: String,
    event_date: i64,
    total_tickets: u32,
    general_price: u64,
    vip_price: u64,
    now: i64,
) -> (r: Result<Event, TicketError>)
    ensures
        match spec_create_event_err(
            *old(ps),
            name@,
            venue@,
            event_date,
            general_price,
            vip_price,
            now,
        ) {
            Some(e) => r == Err::<Event, TicketError>(e) && *final(ps) == *old(ps),
            None => {
                &&& r is Ok
                &&& spec_fresh_event(
                    r->Ok_0,
                    authority,
                    event_id,
                    name,
                    venue,
                    event_date,
                    total_tickets,
                    general_price,
                    vip_price,
                    now,
                )
                &&& r->Ok_0.wf()
                &&& *final(ps) == (ProgramState {
                    total_events: (old(ps).total_events + 1) as u64,
                    ..*old(ps)
                })
            },
        },
{
    if ps.paused {
        return Err(TicketError::ProgramPaused);
    }
    validate_event_name(name.as_str())?;
    let venue_len = venue.as_str().unicode_len();
    if venue_len > MAX_VENUE_NAME_LEN {
        return Err(TicketError::VenueTooLong);
    }
    if venue_len == 0 {
        return Err(TicketError::VenueEmpty);
    }
    if event_date <= now {
        return Err(TicketError::InvalidEventDate);
    }
    if vip_price <= general_price {
        return Err(TicketError::InvalidPrice);
    }
    let end_time = match event_date.checked_add(DEFAULT_EVENT_DURATION) {
        Some(t) => t,
        None => {
            return Err(TicketError::MathOverflow);
        },
    };
    let total_events = match ps.total_events.checked_add(1) {
        Some(n) => n,
        None => {
            return Err(TicketError::MathOverflow);
        },
    };
    ps.total_events = total_events;
    Ok(
        Event {
            event_id,
            organizer: authority,
            authority,
            name,
            description: String::new(),
            venue,
            start_time: event_date,
            end_time,
            total_tickets,
            tickets_sold: 0,
            tickets_used: 0,
            tickets_burned: 0,
            general_price,
            vip_price,
            cancelled: false,
            cancelled_at: None,
            cancellation_reason: None,
            transferable: true,
            transfer_freeze_time: None,
            gate_staff: Vec::new(),
            freeze_authorities: Vec::new(),
            burn_authorities: Vec::new(),
            tiers: Vec::new(),
            refund_policy: RefundPolicy::default(),
            max_tickets_per_wallet: None,
            created_at: now,
            updated_at: now,
        },
    )
}

/// The general-admission price `update_event` would leave behind.
pub open spec fn spec_final_general(ev: Event, general_price: Option<u64>) -> u64 {
    if general_price is Some {
        general_price->Some_0
    } else {
        ev.general_price
    }
}

/// The VIP price `update_event` would leave behind.
pub open spec fn spec_final_vip(ev: Event, vip_price: Option<u64>) -> u64 {
    if vip_price is Some {
        vip_price->Some_0
    } else {
        ev.vip_price
    }
}

/// The first precondition `update_event` finds broken, `None` when the
/// call must succeed. Each supplied field is validated independently; the
/// price rule is checked on the prices the update would leave behind.
pub open spec fn spec_update_event_err(
    ps: ProgramState,
    ev: Event,
    caller: AcctId,
    name: Option<String>,
    description: Option<String>,
    venue: Option<String>,
    event_date: Option<i64>,
    general_price: Option<u64>,
    vip_price: Option<u64>,
    now: i64,
) -> Option<TicketError> {
    if ps.paused {
        Some(TicketError::ProgramPaused)
    } else if caller != ev.authority {
        Some(TicketError::Unauthorized)
    } else if now >= ev.start_time {
        Some(TicketError::EventAlreadyStarted)
    } else if name is Some && spec_name_error(name->Some_0@) is Some {
        spec_name_error(name->Some_0@)
    } else if description is Some && description->Some_0@.len() > MAX_DESCRIPTION_LEN {
        Some(TicketError::DescriptionTooLong)
    } else if venue is Some && venue->Some_0@.len() > MAX_VENUE_NAME_LEN {
        Some(TicketError::VenueTooLong)
    } else if venue is Some && venue->Some_0@.len() == 0 {
        Some(TicketError::VenueEmpty)
    } else if event_date is Some && event_date->Some_0 <= now {
        Some(TicketError::InvalidEventDate)
    } else if event_date is Some && ev.end_time <= event_date->Some_0
        && event_date->Some_0 + DEFAULT_EVENT_DURATION > i64::MAX {
        Some(TicketError::MathOverflow)
    } else if spec_final_vip(ev, vip_price) <= spec_final_general(ev, general_price) {
        Some(TicketError::InvalidPrice)
    } else {
        None
    }
}

/// The event a successful `update_event` leaves behind: each supplied field
/// replaces its counterpart, a moved start pushes a now-too-early end to
/// the default duration past it, and `updated_at` records the call.
pub open spec fn spec_updated_event(
    ev: Event,
    name: Option<String>,
    description: Option<String>,
    venue: Option<String>,
    event_date: Option<i64>,
    general_price: Option<u64>,
    vip_price: Option<u64>,
    now: i64,
) -> Event {
    Event {
        name: if name is Some {
            name->Some_0
        } else {
            ev.name
        },
        description: if description is Some {
            description->Some_0
        } else {
            ev.description
        },
        venue: if venue is Some {
            venue->Some_0
        } else {
            ev.venue
        },
        start_time: if event_date is Some {
            event_date->Some_0
        } else {
            ev.start_time
        },
        end_time: if event_date is Some && ev.end_time <= event_date->Some_0 {
            (event_date->Some_0 + DEFAULT_EVENT_DURATION) as i64
        } else {
            ev.end_time
        },
        general_price: spec_final_general(ev, general_price),
        vip_price: spec_final_vip(ev, vip_price),
        updated_at: now,
        ..ev
    }
}

/// Updates an event in place. Only the event authority may call, and only
/// strictly before the start time; price changes never touch already-sold
/// tickets. All validation happens before any field is assigned, so a
/// failed call changes nothing.
pub fn update_event(
    ps: &ProgramState,
    ev: &mut Event,
    caller: AcctId,
    name: Option<String>,
    description: Option<String>,
    venue: Option<String>,
    event_date: Option<i64>,
    general_price: Option<u64>,
    vip_price: Option<u64>,
    now: i64,
) -> (r: Result<(), TicketError>)
    ensures
        match spec_update_event_err(
            *ps,
            *old(ev),
            caller,
            name,
            description,
            venue,
            event_date,
            general_price,
            vip_price,
            now,
        ) {
            Some(e) => r == Err::<(), TicketError>(e) && *final(ev) == *old(ev),
            None => r is Ok && *final(ev) == spec_updated_event(
                *old(ev),
                name,
                description,
                venue,
                event_date,
                general_price,
                vip_price,
                now,
            ),
        },
{
    if ps.paused {
        return Err(TicketError::ProgramPaused);
    }
    if caller != ev.authority {
        return Err(TicketError::Unauthorized);
    }
    if now >= ev.start_time {
        return Err(TicketError::EventAlreadyStarted);
    }
    if let Some(n) = &name {
        validate_event_name(n.as_str())?;
    }
    if let Some(d) = &description {
        if d.as_str().unicode_len() > MAX_DESCRIPTION_LEN {
            return Err(TicketError::DescriptionTooLong);
        }
    }
    if let Some(v) = &venue {
        let venue_len = v.as_str().unicode_len();
        if venue_len > MAX_VENUE_NAME_LEN {
            return Err(TicketError::VenueTooLong);
        }
        if venue_len == 0 {
            return Err(TicketError::VenueEmpty);
        }
    }
    let new_end: i64 = match event_date {
        Some(d) => {
            if d <= now {
                return Err(TicketError::InvalidEventDate);
            }
            if ev.end_time <= d {
                match d.checked_add(DEFAULT_EVENT_DURATION) {
                    Some(t) => t,
                    None => {
                        return Err(TicketError::MathOverflow);
                    },
                }
            } else {
                ev.end_time
            }
        },
        None => ev.end_time,
    };
    let new_general = match general_price {
        Some(g) => g,
        None => ev.general_price,
    };
    let new_vip = match vip_price {
        Some(v) => v,
        None => ev.vip_price,
    };
    if new_vip <= new_general {
        return Err(TicketError::InvalidPrice);
    }
    if let Some(n) = name {
        ev.name = n;
    }
    if let Some(d) = description {
        ev.description = d;
    }
    if let Some(v) = venue {
        ev.venue = v;
    }
    if let Some(d) = event_date {
        ev.start_time = d;
    }
    ev.end_time = new_end;
    ev.general_price = new_general;
    ev.vip_price = new_vip;
    ev.updated_at = now;
    Ok(())
}

/// The first precondition `cancel_event` finds broken, `None` when the
/// call must succeed.
pub open spec fn spec_cancel_event_err(
    ps: ProgramState,
    ev: Event,
    caller: AcctId,
    now: i64,
) -> Option<TicketError> {
    if ps.paused {
        Some(TicketError::ProgramPaused)
    } else if caller != ev.authority {
        Some(TicketError::Unauthorized)
    } else if ev.cancelled {
        Some(TicketError::EventAlreadyCancelled)
    } else if now >= ev.start_time {
        Some(TicketError::EventAlreadyStarted)
    } else if ev.tickets_sold > 0 {
        Some(TicketError::EventHasTicketsSold)
    } else {
        None
    }
}

/// Cancels an event under the strict policy: only its authority, only
/// before the start, only once, and only while nothing has been sold. A
/// cancelled event can never sell or transfer again.
pub fn cancel_event(
    ps: &ProgramState,
    ev: &mut Event,
    caller: AcctId,
    reason: String,
    now: i64,
) -> (r: Result<(), TicketError>)
    ensures
        match spec_cancel_event_err(*ps, *old(ev), caller, now) {
            Some(e) => r == Err::<(), TicketError>(e) && *final(ev) == *old(ev),
            None => r is Ok && *final(ev) == (Event {
                cancelled: true,
                cancelled_at: Some(now),
                cancellation_reason: Some(reason),
                updated_at: now,
                ..*old(ev)
            }),
        },
{
    if ps.paused {
        return Err(TicketError::ProgramPaused);
    }
    if caller != ev.authority {
        return Err(TicketError::Unauthorized);
    }
    if ev.cancelled {
        return Err(TicketError::EventAlreadyCancelled);
    }
    if now >= ev.start_time {
        return Err(TicketError::EventAlreadyStarted);
    }
    if ev.tickets_sold > 0 {
        return Err(TicketError::EventHasTicketsSold);
    }
    ev.cancelled = true;
    ev.cancelled_at = Some(now);
    ev.cancellation_reason = Some(reason);
    ev.updated_at = now;
    Ok(())
}

} // verus!
