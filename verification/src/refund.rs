//! Refunds and settlement: the tiered refund-percentage calculation,
//! immediate payout of small amounts, pending requests for large ones, and
//! cancellation of a pending request.

use vstd::prelude::*;

use crate::AcctId;
use crate::admin::ProgramState;
use crate::constants::MAX_REFUND_REASON_LEN;
use crate::constants::REFUND_WINDOW_SECONDS;
use crate::constants::SMALL_REFUND_THRESHOLD;
use crate::errors::TicketError;
use crate::event::Event;
use crate::event::RefundPolicy;
use crate::event::RefundTier;
use crate::event::TicketTier;
use crate::issuance::TierBump;
use crate::issuance::bump_tier;
use crate::issuance::spec_tiers_after;
use crate::math::calculate_percentage;
use crate::math::safe_sub;
use crate::records::RefundRequest;
use crate::records::RefundStatus;
use crate::ticket::Ticket;
use crate::ticket::TicketStatus;
use crate::ticket::spec_status_block;
use crate::ticket::status_block;

verus! {

/// Whole hours between `now` and the event start, zero once the start has
/// passed, saturating at the counter's width for far-future starts.
pub open spec fn spec_hours_until(event_start: i64, now: i64) -> u32 {
    if now > event_start {
        0
    } else if (event_start - now) / 3600 > u32::MAX {
        u32::MAX
    } else {
        ((event_start - now) / 3600) as u32
    }
}

/// The executable mirror of `spec_hours_until`.
pub fn hours_until_event(event_start: i64, now: i64) -> (h: u32)
    ensures
        h == spec_hours_until(event_start, now),
{
    if now > event_start {
        return 0;
    }
    let d: u64 = ((event_start as i128) - (now as i128)) as u64;
    let h: u64 = d / 3600;
    if h > (u32::MAX as u64) {
        u32::MAX
    } else {
        h as u32
    }
}

/// The first tier of the list, ordered by descending `hours_before`, that
/// applies at `hours` before the event.
pub open spec fn spec_first_tier(tiers: Seq<RefundTier>, hours: u32) -> Option<RefundTier>
    decreases tiers.len(),
{
    if tiers.len() == 0 {
        None
    } else if hours >= tiers[0].hours_before {
        Some(tiers[0])
    } else {
        spec_first_tier(tiers.drop_first(), hours)
    }
}

/// What one refund tier pays on `price`: the refund percentage of the
/// price, less the platform fee of the price in basis points, floored at
/// the arithmetic layer — a negative result is an underflow error, never a
/// silent zero.
pub open spec fn spec_tier_refund(price: u64, t: RefundTier) -> Result<u64, TicketError> {
    if price * (t.refund_percentage as int * 100) > u64::MAX {
        Err(TicketError::MathOverflow)
    } else if price * t.fee_basis_points > u64::MAX {
        Err(TicketError::MathOverflow)
    } else {
        let base = price * (t.refund_percentage as int * 100) / 10_000;
        let fee = price * t.fee_basis_points / 10_000;
        if base < fee {
            Err(TicketError::MathUnderflow)
        } else {
            Ok((base - fee) as u64)
        }
    }
}

/// What a tier list pays on `price` at `hours` before the event: the
/// first applicable tier's net amount, zero when no tier applies.
pub open spec fn spec_tiered_payout(
    tiers: Seq<RefundTier>,
    price: u64,
    hours: u32,
) -> Result<u64, TicketError> {
    match spec_first_tier(tiers, hours) {
        Some(t) => spec_tier_refund(price, t),
        None => Ok(0),
    }
}

/// What a policy pays on `price` at `hours` whole hours before the event:
/// nothing under `NoRefunds`, everything or nothing under `FullRefund`,
/// the first applicable tier's net amount under `TieredRefund` (zero when
/// no tier applies), and half the price for `CustomPolicy` until its
/// external handler takes over.
pub open spec fn spec_refund_amount(
    policy: RefundPolicy,
    price: u64,
    hours: u32,
) -> Result<u64, TicketError> {
    match policy {
        RefundPolicy::NoRefunds => Ok(0),
        RefundPolicy::FullRefund { hours_before_event } => {
            if hours >= hours_before_event {
                Ok(price)
            } else {
                Ok(0)
            }
        },
        RefundPolicy::TieredRefund { tiers } => spec_tiered_payout(tiers@, price, hours),
        RefundPolicy::CustomPolicy { .. } => Ok((price / 2) as u64),
    }
}

/// Computes the refund owed under `policy` for a ticket bought at
/// `purchase_price`, at `current_time` against `event_start`.
pub fn calculate_refund_amount(
    policy: &RefundPolicy,
    purchase_price: u64,
    event_start: i64,
    current_time: i64,
) -> (r: Result<u64, TicketError>)
    ensures
        r == spec_refund_amount(
            *policy,
            purchase_price,
            spec_hours_until(event_start, current_time),
        ),
{
    let hours = hours_until_event(event_start, current_time);
    match policy {
        RefundPolicy::NoRefunds => Ok(0),
        RefundPolicy::FullRefund { hours_before_event } => {
            if hours >= *hours_before_event {
                Ok(purchase_price)
            } else {
                Ok(0)
            }
        },
        RefundPolicy::TieredRefund { tiers } => {
            let n = tiers.len();
            let mut i: usize = 0;
            proof {
                assert(tiers@.skip(0) =~= tiers@);
            }
            while i < n
                invariant
                    n == tiers@.len(),
                    i <= n,
                    hours == spec_hours_until(event_start, current_time),
                    (*policy) is TieredRefund && (*policy)->tiers == *tiers,
                    spec_first_tier(tiers@, hours) == spec_first_tier(
                        tiers@.skip(i as int),
                        hours,
                    ),
                decreases n - i,
            {
                let tr = tiers[i];
                if hours >= tr.hours_before {
                    proof {
                        assert(tiers@.skip(i as int)[0] == tiers@[i as int]);
                        assert(spec_first_tier(tiers@.skip(i as int), hours) == Some(tr));
                    }
                    let base = calculate_percentage(
                        purchase_price,
                        (tr.refund_percentage as u16) * 100,
                    )?;
                    let fee = calculate_percentage(purchase_price, tr.fee_basis_points)?;
                    return safe_sub(base, fee);
                }
                proof {
                    assert(tiers@.skip(i as int)[0] == tiers@[i as int]);
                    assert(tiers@.skip(i as int).drop_first() =~= tiers@.skip(i + 1));
                }
                i = i + 1;
            }
            proof {
                assert(tiers@.skip(n as int).len() == 0);
            }
            Ok(0)
        },
        RefundPolicy::CustomPolicy { .. } => Ok(purchase_price / 2),
    }
}

/// The tier table after a pending refund is cancelled: the bucket's
/// refunded count steps back down when the index is in range.
pub open spec fn spec_tiers_refund_released(
    tiers: Seq<TicketTier>,
    idx: usize,
) -> Seq<TicketTier> {
    if idx < tiers.len() {
        tiers.update(
            idx as int,
            TicketTier {
                refunded_count: (tiers[idx as int].refunded_count - 1) as u32,
                ..tiers[idx as int]
            },
        )
    } else {
        tiers
    }
}

/// Steps one tier's refunded count back down, in place.
fn release_tier_refund(tiers: &mut Vec<TicketTier>, idx: usize)
    requires
        idx < old(tiers)@.len(),
        old(tiers)@[idx as int].refunded_count > 0,
    ensures
        final(tiers)@ == spec_tiers_refund_released(old(tiers)@, idx),
{
    let t = tiers.remove(idx);
    let t2 = TicketTier { refunded_count: t.refunded_count - 1, ..t };
    tiers.insert(idx, t2);
    assert(tiers@ =~= spec_tiers_refund_released(old(tiers)@, idx));
}

/// The refund deadline in force for a ticket: its own deadline when one is
/// set, else the fixed window before the event start.
pub open spec fn spec_refund_deadline_passed(ev: Event, t: Ticket, now: i64) -> bool {
    if t.refund_deadline is Some {
        now >= t.refund_deadline->Some_0
    } else {
        now >= ev.start_time - REFUND_WINDOW_SECONDS
    }
}

/// The first precondition `request_refund` finds broken, `None` when the
/// call must succeed.
pub open spec fn spec_request_refund_err(
    ps: ProgramState,
    ev: Event,
    t: Ticket,
    requester: AcctId,
    reason: Seq<char>,
    buyer_balance: u64,
    treasury_balance: u64,
    now: i64,
) -> Option<TicketError> {
    let amount_r = spec_refund_amount(
        ev.refund_policy,
        t.purchase_price,
        spec_hours_until(ev.start_time, now),
    );
    let amount = amount_r->Ok_0;
    if ps.paused {
        Some(TicketError::ProgramPaused)
    } else if t.owner != requester {
        Some(TicketError::NotTicketOwner)
    } else if spec_status_block(t.status) is Some {
        spec_status_block(t.status)
    } else if !t.refund_eligible {
        Some(TicketError::RefundNotEligible)
    } else if ev.cancelled {
        Some(TicketError::EventCancelled)
    } else if reason.len() > MAX_REFUND_REASON_LEN {
        Some(TicketError::RefundReasonTooLong)
    } else if t.refund_deadline is None && ev.start_time - REFUND_WINDOW_SECONDS
        < i64::MIN {
        Some(TicketError::MathOverflow)
    } else if spec_refund_deadline_passed(ev, t, now) {
        Some(TicketError::RefundWindowClosed)
    } else if amount_r is Err {
        Some(amount_r->Err_0)
    } else if amount < SMALL_REFUND_THRESHOLD && buyer_balance + amount > u64::MAX {
        Some(TicketError::MathOverflow)
    } else if amount < SMALL_REFUND_THRESHOLD && treasury_balance < amount {
        Some(TicketError::MathUnderflow)
    } else if t.tier_index < ev.tiers@.len() && ev.tiers@[t.tier_index as int].refunded_count
        == u32::MAX {
        Some(TicketError::MathOverflow)
    } else if ev.tickets_sold == 0 {
        Some(TicketError::MathUnderflow)
    } else {
        None
    }
}

/// Asks to be paid back for a ticket. Owner-only, on a `Valid`, unfrozen,
/// refund-eligible ticket of a live event, before the refund deadline.
/// The amount comes from the event's policy; below the small-amount
/// threshold it is paid from the treasury at once and the request comes
/// back `Approved`, otherwise the request stays `Pending` for a separate
/// processing step. Either way the ticket flips to `Refunded`, stops being
/// eligible, and the event's sold counter steps back down.
pub fn request_refund(
    ps: &ProgramState,
    ev: &mut Event,
    t: &mut Ticket,
    requester: AcctId,
    reason: String,
    buyer_balance: &mut u64,
    treasury_balance: &mut u64,
    now: i64,
) -> (r: Result<RefundRequest, TicketError>)
    ensures
        match spec_request_refund_err(
            *ps,
            *old(ev),
            *old(t),
            requester,
            reason@,
            *old(buyer_balance),
            *old(treasury_balance),
            now,
        ) {
            Some(e) => {
                &&& r == Err::<RefundRequest, TicketError>(e)
                &&& *final(ev) == *old(ev)
                &&& *final(t) == *old(t)
                &&& *final(buyer_balance) == *old(buyer_balance)
                &&& *final(treasury_balance) == *old(treasury_balance)
            },
            None => {
                let amount = spec_refund_amount(
                    old(ev).refund_policy,
                    old(t).purchase_price,
                    spec_hours_until(old(ev).start_time, now),
                )->Ok_0;
                let small = amount < SMALL_REFUND_THRESHOLD;
                &&& r is Ok
                &&& r->Ok_0 == (RefundRequest {
                    event_id: old(t).event_id,
                    ticket_id: old(t).ticket_id,
                    requester,
                    amount,
                    reason,
                    requested_at: now,
                    status: if small {
                        RefundStatus::Approved
                    } else {
                        RefundStatus::Pending
                    },
                    processed_at: if small {
                        Some(now)
                    } else {
                        None
                    },
                    processor: None,
                })
                &&& *final(t) == (Ticket {
                    status: TicketStatus::Refunded,
                    refund_eligible: false,
                    refunded_at: if small {
                        Some(now)
                    } else {
                        old(t).refunded_at
                    },
                    refund_amount: if small {
                        Some(amount)
                    } else {
                        old(t).refund_amount
                    },
                    refund_reason: final(t).refund_reason,
                    ..*old(t)
                })
                &&& if small {
                    final(t).refund_reason is Some && final(t).refund_reason->Some_0@
                        == reason@
                } else {
                    final(t).refund_reason == old(t).refund_reason
                }
                &&& *final(ev) == (Event {
                    tickets_sold: (old(ev).tickets_sold - 1) as u32,
                    tiers: final(ev).tiers,
                    ..*old(ev)
                })
                &&& final(ev).tiers@ == spec_tiers_after(
                    old(ev).tiers@,
                    old(t).tier_index,
                    TierBump::Refunded,
                    1,
                )
                &&& *final(buyer_balance) == if small {
                    (*old(buyer_balance) + amount) as u64
                } else {
                    *old(buyer_balance)
                }
                &&& *final(treasury_balance) == if small {
                    (*old(treasury_balance) - amount) as u64
                } else {
                    *old(treasury_balance)
                }
            },
        },
{
    if ps.paused {
        return Err(TicketError::ProgramPaused);
    }
    if t.owner != requester {
        return Err(TicketError::NotTicketOwner);
    }
    if let Some(e) = status_block(t.status) {
        return Err(e);
    }
    if !t.refund_eligible {
        return Err(TicketError::RefundNotEligible);
    }
    if ev.cancelled {
        return Err(TicketError::EventCancelled);
    }
    if reason.as_str().unicode_len() > MAX_REFUND_REASON_LEN {
        return Err(TicketError::RefundReasonTooLong);
    }
    match t.refund_deadline {
        Some(deadline) => {
            if now >= deadline {
                return Err(TicketError::RefundWindowClosed);
            }
        },
        None => {
            let default_deadline = match ev.start_time.checked_sub(REFUND_WINDOW_SECONDS) {
                Some(d) => d,
                None => {
                    return Err(TicketError::MathOverflow);
                },
            };
            if now >= default_deadline {
                return Err(TicketError::RefundWindowClosed);
            }
        },
    }
    let amount = match calculate_refund_amount(
        &ev.refund_policy,
        t.purchase_price,
        ev.start_time,
        now,
    ) {
        Ok(a) => a,
        Err(e) => {
            return Err(e);
        },
    };
    let small = amount < SMALL_REFUND_THRESHOLD;
    let mut new_buyer: u64 = *buyer_balance;
    let mut new_treasury: u64 = *treasury_balance;
    if small {
        new_buyer = match buyer_balance.checked_add(amount) {
            Some(v) => v,
            None => {
                return Err(TicketError::MathOverflow);
            },
        };
        new_treasury = match treasury_balance.checked_sub(amount) {
            Some(v) => v,
            None => {
                return Err(TicketError::MathUnderflow);
            },
        };
    }
    if t.tier_index < ev.tiers.len() && ev.tiers[t.tier_index].refunded_count == u32::MAX {
        return Err(TicketError::MathOverflow);
    }
    if ev.tickets_sold == 0 {
        return Err(TicketError::MathUnderflow);
    }
    t.status = TicketStatus::Refunded;
    t.refund_eligible = false;
    if small {
        t.refunded_at = Some(now);
        t.refund_amount = Some(amount);
        t.refund_reason = Some(reason.clone());
    }
    ev.tickets_sold = ev.tickets_sold - 1;
    if t.tier_index < ev.tiers.len() {
        bump_tier(&mut ev.tiers, t.tier_index, TierBump::Refunded, 1);
    }
    *buyer_balance = new_buyer;
    *treasury_balance = new_treasury;
    Ok(
        RefundRequest {
            event_id: t.event_id,
            ticket_id: t.ticket_id,
            requester,
            amount,
            reason,
            requested_at: now,
            status: if small {
                RefundStatus::Approved
            } else {
                RefundStatus::Pending
            },
            processed_at: if small {
                Some(now)
            } else {
                None
            },
            processor: None,
        },
    )
}

/// The first precondition `process_refund` finds broken, `None` when the
/// call must succeed.
pub open spec fn spec_process_refund_err(
    ps: ProgramState,
    ev: Event,
    t: Ticket,
    rr: RefundRequest,
    processor: AcctId,
    buyer_balance: u64,
    treasury_balance: u64,
) -> Option<TicketError> {
    if ps.paused {
        Some(TicketError::ProgramPaused)
    } else if processor != ev.authority {
        Some(TicketError::Unauthorized)
    } else if rr.event_id != t.event_id || rr.ticket_id != t.ticket_id {
        Some(TicketError::InvalidRefundRecord)
    } else if rr.status != RefundStatus::Pending {
        Some(TicketError::InvalidRefundStatus)
    } else if buyer_balance + rr.amount > u64::MAX {
        Some(TicketError::MathOverflow)
    } else if treasury_balance < rr.amount {
        Some(TicketError::MathUnderflow)
    } else {
        None
    }
}

/// Settles a pending refund: the event authority moves the funds and the
/// request flips to `Approved`. The ticket's counters moved when the
/// request was made; this step only pays and records.
pub fn process_refund(
    ps: &ProgramState,
    ev: &Event,
    t: &mut Ticket,
    rr: &mut RefundRequest,
    processor: AcctId,
    buyer_balance: &mut u64,
    treasury_balance: &mut u64,
    now: i64,
) -> (r: Result<(), TicketError>)
    ensures
        match spec_process_refund_err(
            *ps,
            *ev,
            *old(t),
            *old(rr),
            processor,
            *old(buyer_balance),
            *old(treasury_balance),
        ) {
            Some(e) => {
                &&& r == Err::<(), TicketError>(e)
                &&& *final(t) == *old(t)
                &&& *final(rr) == *old(rr)
                &&& *final(buyer_balance) == *old(buyer_balance)
                &&& *final(treasury_balance) == *old(treasury_balance)
            },
            None => {
                &&& r is Ok
                &&& *final(rr) == (RefundRequest {
                    status: RefundStatus::Approved,
                    processed_at: Some(now),
                    processor: Some(processor),
                    ..*old(rr)
                })
                &&& *final(t) == (Ticket {
                    refunded_at: Some(now),
                    refund_amount: Some(old(rr).amount),
                    refund_reason: final(t).refund_reason,
                    ..*old(t)
                })
                &&& final(t).refund_reason is Some && final(t).refund_reason->Some_0@
                    == old(rr).reason@
                &&& *final(buyer_balance) == *old(buyer_balance) + old(rr).amount
                &&& *final(treasury_balance) == *old(treasury_balance) - old(rr).amount
            },
        },
{
    if ps.paused {
        return Err(TicketError::ProgramPaused);
    }
    if processor != ev.authority {
        return Err(TicketError::Unauthorized);
    }
    if rr.event_id != t.event_id || rr.ticket_id != t.ticket_id {
        return Err(TicketError::InvalidRefundRecord);
    }
    if rr.status != RefundStatus::Pending {
        return Err(TicketError::InvalidRefundStatus);
    }
    let new_buyer = match buyer_balance.checked_add(rr.amount) {
        Some(v) => v,
        None => {
            return Err(TicketError::MathOverflow);
        },
    };
    let new_treasury = match treasury_balance.checked_sub(rr.amount) {
        Some(v) => v,
        None => {
            return Err(TicketError::MathUnderflow);
        },
    };
    *buyer_balance = new_buyer;
    *treasury_balance = new_treasury;
    rr.status = RefundStatus::Approved;
    rr.processed_at = Some(now);
    rr.processor = Some(processor);
    t.refunded_at = Some(now);
    t.refund_amount = Some(rr.amount);
    t.refund_reason = Some(rr.reason.clone());
    Ok(())
}

/// The first precondition `cancel_refund` finds broken, `None` when the
/// call must succeed.
pub open spec fn spec_cancel_refund_err(
    ps: ProgramState,
    ev: Event,
    t: Ticket,
    rr: RefundRequest,
    caller: AcctId,
) -> Option<TicketError> {
    if ps.paused {
        Some(TicketError::ProgramPaused)
    } else if caller != rr.requester {
        Some(TicketError::Unauthorized)
    } else if rr.event_id != t.event_id || rr.ticket_id != t.ticket_id {
        Some(TicketError::InvalidRefundRecord)
    } else if rr.status != RefundStatus::Pending {
        Some(TicketError::InvalidRefundStatus)
    } else if t.status != TicketStatus::Refunded {
        Some(TicketError::InvalidTicketStatus)
    } else if ev.tickets_sold == u32::MAX {
        Some(TicketError::MathOverflow)
    } else if t.tier_index < ev.tiers@.len() && ev.tiers@[t.tier_index as int].refunded_count
        == 0 {
        Some(TicketError::MathUnderflow)
    } else {
        None
    }
}

/// Withdraws a pending refund request: only its requester, only while
/// still pending. The ticket returns to `Valid` and refund-eligible, and
/// the counters that moved at request time move back.
pub fn cancel_refund(
    ps: &ProgramState,
    ev: &mut Event,
    t: &mut Ticket,
    rr: &mut RefundRequest,
    caller: AcctId,
    now: i64,
) -> (r: Result<(), TicketError>)
    ensures
        match spec_cancel_refund_err(*ps, *old(ev), *old(t), *old(rr), caller) {
            Some(e) => {
                &&& r == Err::<(), TicketError>(e)
                &&& *final(ev) == *old(ev)
                &&& *final(t) == *old(t)
                &&& *final(rr) == *old(rr)
            },
            None => {
                &&& r is Ok
                &&& *final(rr) == (RefundRequest {
                    status: RefundStatus::Cancelled,
                    processed_at: Some(now),
                    ..*old(rr)
                })
                &&& *final(t) == (Ticket {
                    status: TicketStatus::Valid,
                    refund_eligible: true,
                    ..*old(t)
                })
                &&& *final(ev) == (Event {
                    tickets_sold: (old(ev).tickets_sold + 1) as u32,
                    tiers: final(ev).tiers,
                    ..*old(ev)
                })
                &&& final(ev).tiers@ == spec_tiers_refund_released(
                    old(ev).tiers@,
                    old(t).tier_index,
                )
            },
        },
{
    if ps.paused {
        return Err(TicketError::ProgramPaused);
    }
    if caller != rr.requester {
        return Err(TicketError::Unauthorized);
    }
    if rr.event_id != t.event_id || rr.ticket_id != t.ticket_id {
        return Err(TicketError::InvalidRefundRecord);
    }
    if rr.status != RefundStatus::Pending {
        return Err(TicketError::InvalidRefundStatus);
    }
    if t.status != TicketStatus::Refunded {
        return Err(TicketError::InvalidTicketStatus);
    }
    if ev.tickets_sold == u32::MAX {
        return Err(TicketError::MathOverflow);
    }
    if t.tier_index < ev.tiers.len() && ev.tiers[t.tier_index].refunded_count == 0 {
        return Err(TicketError::MathUnderflow);
    }
    rr.status = RefundStatus::Cancelled;
    rr.processed_at = Some(now);
    t.status = TicketStatus::Valid;
    t.refund_eligible = true;
    ev.tickets_sold = ev.tickets_sold + 1;
    if t.tier_index < ev.tiers.len() {
        release_tier_refund(&mut ev.tiers, t.tier_index);
    }
    Ok(())
}

} // verus!
