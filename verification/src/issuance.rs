//! Ticket issuance: paid single and batch minting, organizer reservations,
//! and discounted whitelist minting. Counters are the sole source of truth
//! for remaining capacity, and every successful path leaves
//! `tickets_sold <= total_tickets`.

use vstd::prelude::*;

use crate::AcctId;
use crate::admin::ProgramState;
use crate::constants::MAX_BATCH_SIZE;
use crate::constants::WHITELIST_CUTOFF_SECONDS;
use crate::errors::TicketError;
use crate::event::Event;
use crate::event::TicketTier;
use crate::ticket::Ticket;
use crate::ticket::TicketStatus;

verus! {

/// Which per-tier counter an operation moves.
#[derive(Clone, Copy, PartialEq, Eq, Structural, Debug)]
pub enum TierBump {
    Minted,
    Used,
    UsedAndBurned,
    Refunded,
}

/// The tier after one of its counters moved up by `quantity`.
pub open spec fn spec_bump_tier(t: TicketTier, b: TierBump, quantity: u32) -> TicketTier {
    match b {
        TierBump::Minted => TicketTier {
            minted_count: (t.minted_count + quantity) as u32,
            ..t
        },
        TierBump::Used => TicketTier { used_count: (t.used_count + quantity) as u32, ..t },
        TierBump::UsedAndBurned => TicketTier {
            used_count: (t.used_count + quantity) as u32,
            burned_count: (t.burned_count + quantity) as u32,
            ..t
        },
        TierBump::Refunded => TicketTier {
            refunded_count: (t.refunded_count + quantity) as u32,
            ..t
        },
    }
}

/// Whether the bump fits the counter's width.
pub open spec fn spec_bump_fits(t: TicketTier, b: TierBump, quantity: u32) -> bool {
    match b {
        TierBump::Minted => t.minted_count + quantity <= u32::MAX,
        TierBump::Used => t.used_count + quantity <= u32::MAX,
        TierBump::UsedAndBurned => t.used_count + quantity <= u32::MAX && t.burned_count
            + quantity <= u32::MAX,
        TierBump::Refunded => t.refunded_count + quantity <= u32::MAX,
    }
}

/// The tier table after an operation on a ticket of tier `idx`: the one
/// bucket moves when the index is in range, and an out-of-range index (an
/// event without tier bookkeeping) leaves the table alone.
pub open spec fn spec_tiers_after(
    tiers: Seq<TicketTier>,
    idx: usize,
    b: TierBump,
    quantity: u32,
) -> Seq<TicketTier> {
    if idx < tiers.len() {
        tiers.update(idx as int, spec_bump_tier(tiers[idx as int], b, quantity))
    } else {
        tiers
    }
}

/// Whether the operation's bump fits; vacuously true out of range.
pub open spec fn spec_tiers_bump_fits(
    tiers: Seq<TicketTier>,
    idx: usize,
    b: TierBump,
    quantity: u32,
) -> bool {
    idx < tiers.len() ==> spec_bump_fits(tiers[idx as int], b, quantity)
}

/// Moves one per-tier counter up by `quantity`, in place.
pub(crate) fn bump_tier(tiers: &mut Vec<TicketTier>, idx: usize, b: TierBump, quantity: u32)
    requires
        idx < old(tiers)@.len(),
        spec_bump_fits(old(tiers)@[idx as int], b, quantity),
    ensures
        final(tiers)@ == spec_tiers_after(old(tiers)@, idx, b, quantity),
{
    let t = tiers.remove(idx);
    let t2 = match b {
        TierBump::Minted => TicketTier { minted_count: t.minted_count + quantity, ..t },
        TierBump::Used => TicketTier { used_count: t.used_count + quantity, ..t },
        TierBump::UsedAndBurned => TicketTier {
            used_count: t.used_count + quantity,
            burned_count: t.burned_count + quantity,
            ..t
        },
        TierBump::Refunded => TicketTier {
            refunded_count: t.refunded_count + quantity,
            ..t
        },
    };
    tiers.insert(idx, t2);
    assert(tiers@ =~= spec_tiers_after(old(tiers)@, idx, b, quantity));
}

/// What a ticket fresh out of issuance looks like: owned by its buyer,
/// `Valid`, refund-eligible, with empty logs and zeroed counters.
pub open spec fn spec_fresh_ticket(
    t: Ticket,
    event_id: u64,
    ticket_id: u64,
    buyer: AcctId,
    tier_index: usize,
    price: u64,
    now: i64,
) -> bool {
    &&& t.ticket_id == ticket_id
    &&& t.event_id == event_id
    &&& t.owner == buyer
    &&& t.original_owner == buyer
    &&& t.tier_index == tier_index
    &&& t.purchase_price == price
    &&& t.purchased_at == now
    &&& t.status == TicketStatus::Valid
    &&& t.used_at is None
    &&& t.freeze_timestamp is None
    &&& t.unfreeze_timestamp is None
    &&& !t.entry_validated
    &&& t.entry_time is None
    &&& t.entry_gate is None
    &&& t.exit_time is None
    &&& t.exit_gate is None
    &&& t.transfer_count == 0
    &&& t.last_transfer_timestamp == 0
    &&& !t.pending_transfer
    &&& t.validation_count == 0
    &&& t.last_validated == 0
    &&& t.checkpoint_scans@.len() == 0
    &&& t.transfer_history@.len() == 0
    &&& t.delegate_transfer_history@.len() == 0
    &&& t.refund_eligible
    &&& t.refund_deadline is None
    &&& t.refunded_at is None
    &&& t.refund_amount is None
    &&& t.refund_reason is None
}

/// Builds the ticket a successful issuance hands out.
fn fresh_ticket(
    event_id: u64,
    ticket_id: u64,
    buyer: AcctId,
    tier_index: usize,
    price: u64,
    now: i64,
) -> (t: Ticket)
    ensures
        spec_fresh_ticket(t, event_id, ticket_id, buyer, tier_index, price, now),
{
    Ticket {
        ticket_id,
        event_id,
        owner: buyer,
        original_owner: buyer,
        tier_index,
        purchase_price: price,
        purchased_at: now,
        status: TicketStatus::Valid,
        used_at: None,
        freeze_timestamp: None,
        unfreeze_timestamp: None,
        entry_validated: false,
        entry_time: None,
        entry_gate: None,
        exit_time: None,
        exit_gate: None,
        transfer_count: 0,
        last_transfer_timestamp: 0,
        pending_transfer: false,
        validation_count: 0,
        last_validated: 0,
        checkpoint_scans: Vec::new(),
        transfer_history: Vec::new(),
        delegate_transfer_history: Vec::new(),
        refund_eligible: true,
        refund_deadline: None,
        refunded_at: None,
        refund_amount: None,
        refund_reason: None,
    }
}

/// Resolves a tier name to its unit price and tier-table index.
fn resolve_tier(ev: &Event, tier: &String) -> (r: Option<(u64, usize)>)
    ensures
        ev.spec_tier_price(tier@) is Some ==> r == Some(
            (ev.spec_tier_price(tier@)->Some_0, Event::spec_tier_index(tier@)),
        ),
        ev.spec_tier_price(tier@) is None ==> r is None,
{
    let general = "general".to_owned();
    if *tier == general {
        return Some((ev.general_price, 0));
    }
    let vip = "vip".to_owned();
    if *tier == vip {
        return Some((ev.vip_price, 1));
    }
    None
}

/// The first precondition `mint_ticket` finds broken, `None` when the call
/// must succeed.
pub open spec fn spec_mint_err(
    ps: ProgramState,
    ev: Event,
    tier: Seq<char>,
    buyer_held: u32,
    buyer_balance: u64,
    treasury_balance: u64,
) -> Option<TicketError> {
    let price = ev.spec_tier_price(tier)->Some_0;
    let idx = Event::spec_tier_index(tier);
    if ps.paused {
        Some(TicketError::ProgramPaused)
    } else if ev.cancelled {
        Some(TicketError::EventCancelled)
    } else if ev.tickets_sold >= ev.total_tickets {
        Some(TicketError::EventSoldOut)
    } else if ev.spec_tier_price(tier) is None {
        Some(TicketError::InvalidTicketTier)
    } else if ev.max_tickets_per_wallet is Some && buyer_held
        >= ev.max_tickets_per_wallet->Some_0 {
        Some(TicketError::MaximumTicketsExceeded)
    } else if buyer_balance < price {
        Some(TicketError::InsufficientFunds)
    } else if treasury_balance + price > u64::MAX {
        Some(TicketError::MathOverflow)
    } else if !spec_tiers_bump_fits(ev.tiers@, idx, TierBump::Minted, 1) {
        Some(TicketError::MathOverflow)
    } else if ps.total_tickets + 1 > u64::MAX || ps.total_revenue + price > u64::MAX {
        Some(TicketError::MathOverflow)
    } else {
        None
    }
}

/// Mints one paid ticket. The buyer pays the tier's unit price into the
/// event treasury and receives a fresh `Valid` ticket; the event's and the
/// program's counters move together, and a failure anywhere moves nothing.
pub fn mint_ticket(
    ps: &mut ProgramState,
    ev: &mut Event,
    buyer: AcctId,
    buyer_balance: &mut u64,
    treasury_balance: &mut u64,
    buyer_held: u32,
    tier: String,
    ticket_id: u64,
    now: i64,
) -> (r: Result<Ticket, TicketError>)
    ensures
        match spec_mint_err(
            *old(ps),
            *old(ev),
            tier@,
            buyer_held,
            *old(buyer_balance),
            *old(treasury_balance),
        ) {
            Some(e) => {
                &&& r == Err::<Ticket, TicketError>(e)
                &&& *final(ps) == *old(ps)
                &&& *final(ev) == *old(ev)
                &&& *final(buyer_balance) == *old(buyer_balance)
                &&& *final(treasury_balance) == *old(treasury_balance)
            },
            None => {
                let price = old(ev).spec_tier_price(tier@)->Some_0;
                let idx = Event::spec_tier_index(tier@);
                &&& r is Ok
                &&& spec_fresh_ticket(
                    r->Ok_0,
                    old(ev).event_id,
                    ticket_id,
                    buyer,
                    idx,
                    price,
                    now,
                )
                &&& *final(ev) == (Event {
                    tickets_sold: (old(ev).tickets_sold + 1) as u32,
                    tiers: final(ev).tiers,
                    ..*old(ev)
                })
                &&& final(ev).tiers@ == spec_tiers_after(
                    old(ev).tiers@,
                    idx,
                    TierBump::Minted,
                    1,
                )
                &&& final(ev).wf()
                &&& *final(buyer_balance) == *old(buyer_balance) - price
                &&& *final(treasury_balance) == *old(treasury_balance) + price
                &&& *final(ps) == (ProgramState {
                    total_tickets: (old(ps).total_tickets + 1) as u64,
                    total_revenue: (old(ps).total_revenue + price) as u64,
                    ..*old(ps)
                })
            },
        },
{
    if ps.paused {
        return Err(TicketError::ProgramPaused);
    }
    if ev.cancelled {
        return Err(TicketError::EventCancelled);
    }
    if ev.tickets_sold >= ev.total_tickets {
        return Err(TicketError::EventSoldOut);
    }
    let (price, idx) = match resolve_tier(ev, &tier) {
        Some(p) => p,
        None => {
            return Err(TicketError::InvalidTicketTier);
        },
    };
    if let Some(max) = ev.max_tickets_per_wallet {
        if buyer_held >= max as u32 {
            return Err(TicketError::MaximumTicketsExceeded);
        }
    }
    if *buyer_balance < price {
        return Err(TicketError::InsufficientFunds);
    }
    let new_treasury = match treasury_balance.checked_add(price) {
        Some(v) => v,
        None => {
            return Err(TicketError::MathOverflow);
        },
    };
    if idx < ev.tiers.len() && ev.tiers[idx].minted_count == u32::MAX {
        return Err(TicketError::MathOverflow);
    }
    let new_total_tickets = match ps.total_tickets.checked_add(1) {
        Some(v) => v,
        None => {
            return Err(TicketError::MathOverflow);
        },
    };
    let new_revenue = match ps.total_revenue.checked_add(price) {
        Some(v) => v,
        None => {
            return Err(TicketError::MathOverflow);
        },
    };
    *buyer_balance = *buyer_balance - price;
    *treasury_balance = new_treasury;
    ev.tickets_sold = ev.tickets_sold + 1;
    if idx < ev.tiers.len() {
        bump_tier(&mut ev.tiers, idx, TierBump::Minted, 1);
    }
    ps.total_tickets = new_total_tickets;
    ps.total_revenue = new_revenue;
    Ok(fresh_ticket(ev.event_id, ticket_id, buyer, idx, price, now))
}

/// The first precondition `batch_mint` finds broken, `None` when the call
/// must succeed.
pub open spec fn spec_batch_mint_err(
    ps: ProgramState,
    ev: Event,
    tier: Seq<char>,
    quantity: u32,
    ticket_id_start: u64,
    buyer_balance: u64,
    treasury_balance: u64,
) -> Option<TicketError> {
    let price = ev.spec_tier_price(tier)->Some_0;
    let idx = Event::spec_tier_index(tier);
    if ps.paused {
        Some(TicketError::ProgramPaused)
    } else if ev.cancelled {
        Some(TicketError::EventCancelled)
    } else if ev.tickets_sold + quantity > ev.total_tickets {
        Some(TicketError::InsufficientCapacity)
    } else if quantity > MAX_BATCH_SIZE {
        Some(TicketError::BatchSizeTooLarge)
    } else if ev.spec_tier_price(tier) is None {
        Some(TicketError::InvalidTicketTier)
    } else if price * quantity > u64::MAX {
        Some(TicketError::MathOverflow)
    } else if buyer_balance < price * quantity {
        Some(TicketError::InsufficientFunds)
    } else if treasury_balance + price * quantity > u64::MAX {
        Some(TicketError::MathOverflow)
    } else if ticket_id_start + quantity > u64::MAX {
        Some(TicketError::MathOverflow)
    } else if !spec_tiers_bump_fits(ev.tiers@, idx, TierBump::Minted, quantity) {
        Some(TicketError::MathOverflow)
    } else if ps.total_tickets + quantity > u64::MAX || ps.total_revenue + price
        * quantity > u64::MAX {
        Some(TicketError::MathOverflow)
    } else {
        None
    }
}

/// Mints up to `MAX_BATCH_SIZE` tickets of one tier in a single paid call.
/// The buyer pays the tier price for every ticket at once; the tickets
/// carry consecutive identifiers from `ticket_id_start`. A failure
/// anywhere, including on the last counter, moves nothing.
#[verifier::loop_isolation(false)]
pub fn batch_mint(
    ps: &mut ProgramState,
    ev: &mut Event,
    buyer: AcctId,
    buyer_balance: &mut u64,
    treasury_balance: &mut u64,
    tier: String,
    quantity: u32,
    ticket_id_start: u64,
    now: i64,
) -> (r: Result<Vec<Ticket>, TicketError>)
    ensures
        match spec_batch_mint_err(
            *old(ps),
            *old(ev),
            tier@,
            quantity,
            ticket_id_start,
            *old(buyer_balance),
            *old(treasury_balance),
        ) {
            Some(e) => {
                &&& r == Err::<Vec<Ticket>, TicketError>(e)
                &&& *final(ps) == *old(ps)
                &&& *final(ev) == *old(ev)
                &&& *final(buyer_balance) == *old(buyer_balance)
                &&& *final(treasury_balance) == *old(treasury_balance)
            },
            None => {
                let price = old(ev).spec_tier_price(tier@)->Some_0;
                let idx = Event::spec_tier_index(tier@);
                &&& r is Ok
                &&& r->Ok_0@.len() == quantity
                &&& forall|i: int|
                    0 <= i < quantity ==> spec_fresh_ticket(
                        #[trigger] r->Ok_0@[i],
                        old(ev).event_id,
                        (ticket_id_start + i) as u64,
                        buyer,
                        idx,
                        price,
                        now,
                    )
                &&& *final(ev) == (Event {
                    tickets_sold: (old(ev).tickets_sold + quantity) as u32,
                    tiers: final(ev).tiers,
                    ..*old(ev)
                })
                &&& final(ev).tiers@ == spec_tiers_after(
                    old(ev).tiers@,
                    idx,
                    TierBump::Minted,
                    quantity,
                )
                &&& final(ev).wf()
                &&& *final(buyer_balance) == *old(buyer_balance) - price * quantity
                &&& *final(treasury_balance) == *old(treasury_balance) + price * quantity
                &&& *final(ps) == (ProgramState {
                    total_tickets: (old(ps).total_tickets + quantity) as u64,
                    total_revenue: (old(ps).total_revenue + price * quantity) as u64,
                    ..*old(ps)
                })
            },
        },
{
    if ps.paused {
        return Err(TicketError::ProgramPaused);
    }
    if ev.cancelled {
        return Err(TicketError::EventCancelled);
    }
    if (ev.tickets_sold as u64) + (quantity as u64) > (ev.total_tickets as u64) {
        return Err(TicketError::InsufficientCapacity);
    }
    if quantity > MAX_BATCH_SIZE {
        return Err(TicketError::BatchSizeTooLarge);
    }
    let (price, idx) = match resolve_tier(ev, &tier) {
        Some(p) => p,
        None => {
            return Err(TicketError::InvalidTicketTier);
        },
    };
    let total_price = match price.checked_mul(quantity as u64) {
        Some(v) => v,
        None => {
            return Err(TicketError::MathOverflow);
        },
    };
    if *buyer_balance < total_price {
        return Err(TicketError::InsufficientFunds);
    }
    let new_treasury = match treasury_balance.checked_add(total_price) {
        Some(v) => v,
        None => {
            return Err(TicketError::MathOverflow);
        },
    };
    if ticket_id_start.checked_add(quantity as u64).is_none() {
        return Err(TicketError::MathOverflow);
    }
    if idx < ev.tiers.len() && quantity > u32::MAX - ev.tiers[idx].minted_count {
        return Err(TicketError::MathOverflow);
    }
    let new_total_tickets = match ps.total_tickets.checked_add(quantity as u64) {
        Some(v) => v,
        None => {
            return Err(TicketError::MathOverflow);
        },
    };
    let new_revenue = match ps.total_revenue.checked_add(total_price) {
        Some(v) => v,
        None => {
            return Err(TicketError::MathOverflow);
        },
    };
    let mut out: Vec<Ticket> = Vec::new();
    let mut i: u32 = 0;
    while i < quantity
        invariant
            i <= quantity,
            out@.len() == i,
            forall|j: int|
                0 <= j < i ==> spec_fresh_ticket(
                    #[trigger] out@[j],
                    ev.event_id,
                    (ticket_id_start + j) as u64,
                    buyer,
                    idx,
                    price,
                    now,
                ),
        decreases quantity - i,
    {
        out.push(
            fresh_ticket(ev.event_id, ticket_id_start + (i as u64), buyer, idx, price, now),
        );
        i = i + 1;
    }
    *buyer_balance = *buyer_balance - total_price;
    *treasury_balance = new_treasury;
    ev.tickets_sold = ev.tickets_sold + quantity;
    if idx < ev.tiers.len() {
        bump_tier(&mut ev.tiers, idx, TierBump::Minted, quantity);
    }
    ps.total_tickets = new_total_tickets;
    ps.total_revenue = new_revenue;
    Ok(out)
}

/// The first precondition `reserve_tickets` finds broken, `None` when the
/// call must succeed.
pub open spec fn spec_reserve_err(
    ps: ProgramState,
    ev: Event,
    caller: AcctId,
    quantity: u32,
) -> Option<TicketError> {
    if ps.paused {
        Some(TicketError::ProgramPaused)
    } else if caller != ev.authority {
        Some(TicketError::Unauthorized)
    } else if ev.cancelled {
        Some(TicketError::EventCancelled)
    } else if ev.tickets_sold + quantity > ev.total_tickets {
        Some(TicketError::InsufficientCapacity)
    } else {
        None
    }
}

/// Sets `quantity` tickets aside without payment, for comps and holds.
/// Only the event authority may call; the reservation consumes capacity
/// like a sale.
pub fn reserve_tickets(
    ps: &ProgramState,
    ev: &mut Event,
    caller: AcctId,
    quantity: u32,
) -> (r: Result<(), TicketError>)
    ensures
        match spec_reserve_err(*ps, *old(ev), caller, quantity) {
            Some(e) => r == Err::<(), TicketError>(e) && *final(ev) == *old(ev),
            None => {
                &&& r is Ok
                &&& *final(ev) == (Event {
                    tickets_sold: (old(ev).tickets_sold + quantity) as u32,
                    ..*old(ev)
                })
                &&& final(ev).wf()
            },
        },
{
    if ps.paused {
        return Err(TicketError::ProgramPaused);
    }
    if caller != ev.authority {
        return Err(TicketError::Unauthorized);
    }
    if ev.cancelled {
        return Err(TicketError::EventCancelled);
    }
    if (ev.tickets_sold as u64) + (quantity as u64) > (ev.total_tickets as u64) {
        return Err(TicketError::InsufficientCapacity);
    }
    ev.tickets_sold = ev.tickets_sold + quantity;
    Ok(())
}

/// The price a whitelisted buyer pays: a fixed fifth off the tier price.
pub open spec fn spec_whitelist_price(price: u64) -> u64 {
    ((price * 80) / 100) as u64
}

/// The first precondition `mint_whitelist` finds broken, `None` when the
/// call must succeed.
pub open spec fn spec_mint_whitelist_err(
    ps: ProgramState,
    ev: Event,
    tier: Seq<char>,
    buyer_balance: u64,
    treasury_balance: u64,
    now: i64,
) -> Option<TicketError> {
    let price = spec_whitelist_price(ev.spec_tier_price(tier)->Some_0);
    let idx = Event::spec_tier_index(tier);
    if ps.paused {
        Some(TicketError::ProgramPaused)
    } else if ev.cancelled {
        Some(TicketError::EventCancelled)
    } else if ev.tickets_sold >= ev.total_tickets {
        Some(TicketError::EventSoldOut)
    } else if ev.start_time - WHITELIST_CUTOFF_SECONDS < i64::MIN {
        Some(TicketError::MathOverflow)
    } else if now > ev.start_time - WHITELIST_CUTOFF_SECONDS {
        Some(TicketError::WhitelistExpired)
    } else if ev.spec_tier_price(tier) is None {
        Some(TicketError::InvalidTicketTier)
    } else if ev.spec_tier_price(tier)->Some_0 * 80 > u64::MAX {
        Some(TicketError::MathOverflow)
    } else if buyer_balance < price {
        Some(TicketError::InsufficientFunds)
    } else if treasury_balance + price > u64::MAX {
        Some(TicketError::MathOverflow)
    } else if !spec_tiers_bump_fits(ev.tiers@, idx, TierBump::Minted, 1) {
        Some(TicketError::MathOverflow)
    } else if ps.total_tickets + 1 > u64::MAX || ps.total_revenue + price > u64::MAX {
        Some(TicketError::MathOverflow)
    } else {
        None
    }
}

/// Mints one ticket at the whitelist discount. Closes a fixed window
/// before the event start; otherwise a paid mint like `mint_ticket`, at
/// the discounted price.
pub fn mint_whitelist(
    ps: &mut ProgramState,
    ev: &mut Event,
    buyer: AcctId,
    buyer_balance: &mut u64,
    treasury_balance: &mut u64,
    tier: String,
    ticket_id: u64,
    now: i64,
) -> (r: Result<Ticket, TicketError>)
    ensures
        match spec_mint_whitelist_err(
            *old(ps),
            *old(ev),
            tier@,
            *old(buyer_balance),
            *old(treasury_balance),
            now,
        ) {
            Some(e) => {
                &&& r == Err::<Ticket, TicketError>(e)
                &&& *final(ps) == *old(ps)
                &&& *final(ev) == *old(ev)
                &&& *final(buyer_balance) == *old(buyer_balance)
                &&& *final(treasury_balance) == *old(treasury_balance)
            },
            None => {
                let price = spec_whitelist_price(old(ev).spec_tier_price(tier@)->Some_0);
                let idx = Event::spec_tier_index(tier@);
                &&& r is Ok
                &&& spec_fresh_ticket(
                    r->Ok_0,
                    old(ev).event_id,
                    ticket_id,
                    buyer,
                    idx,
                    price,
                    now,
                )
                &&& *final(ev) == (Event {
                    tickets_sold: (old(ev).tickets_sold + 1) as u32,
                    tiers: final(ev).tiers,
                    ..*old(ev)
                })
                &&& final(ev).tiers@ == spec_tiers_after(
                    old(ev).tiers@,
                    idx,
                    TierBump::Minted,
                    1,
                )
                &&& final(ev).wf()
                &&& *final(buyer_balance) == *old(buyer_balance) - price
                &&& *final(treasury_balance) == *old(treasury_balance) + price
                &&& *final(ps) == (ProgramState {
                    total_tickets: (old(ps).total_tickets + 1) as u64,
                    total_revenue: (old(ps).total_revenue + price) as u64,
                    ..*old(ps)
                })
            },
        },
{
    if ps.paused {
        return Err(TicketError::ProgramPaused);
    }
    if ev.cancelled {
        return Err(TicketError::EventCancelled);
    }
    if ev.tickets_sold >= ev.total_tickets {
        return Err(TicketError::EventSoldOut);
    }
    let cutoff = match ev.start_time.checked_sub(WHITELIST_CUTOFF_SECONDS) {
        Some(c) => c,
        None => {
            return Err(TicketError::MathOverflow);
        },
    };
    if now > cutoff {
        return Err(TicketError::WhitelistExpired);
    }
    let (full_price, idx) = match resolve_tier(ev, &tier) {
        Some(p) => p,
        None => {
            return Err(TicketError::InvalidTicketTier);
        },
    };
    let price = match full_price.checked_mul(80) {
        Some(p) => p / 100,
        None => {
            return Err(TicketError::MathOverflow);
        },
    };
    if *buyer_balance < price {
        return Err(TicketError::InsufficientFunds);
    }
    let new_treasury = match treasury_balance.checked_add(price) {
        Some(v) => v,
        None => {
            return Err(TicketError::MathOverflow);
        },
    };
    if idx < ev.tiers.len() && ev.tiers[idx].minted_count == u32::MAX {
        return Err(TicketError::MathOverflow);
    }
    let new_total_tickets = match ps.total_tickets.checked_add(1) {
        Some(v) => v,
        None => {
            return Err(TicketError::MathOverflow);
        },
    };
    let new_revenue = match ps.total_revenue.checked_add(price) {
        Some(v) => v,
        None => {
            return Err(TicketError::MathOverflow);
        },
    };
    *buyer_balance = *buyer_balance - price;
    *treasury_balance = new_treasury;
    ev.tickets_sold = ev.tickets_sold + 1;
    if idx < ev.tiers.len() {
        bump_tier(&mut ev.tiers, idx, TierBump::Minted, 1);
    }
    ps.total_tickets = new_total_tickets;
    ps.total_revenue = new_revenue;
    Ok(fresh_ticket(ev.event_id, ticket_id, buyer, idx, price, now))
}

} // verus!
