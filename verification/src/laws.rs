//! Cross-operation guarantees of the engine, stated and proved over the
//! same guard and transition functions the operations' contracts use.

use vstd::prelude::*;

use crate::AcctId;
use crate::admin::ProgramState;
use crate::constants::ENTRY_GRACE_SECONDS;
use crate::errors::TicketError;
use crate::event::Event;
use crate::freeze::spec_freeze_err;
use crate::freeze::spec_unfreeze_err;
use crate::issuance::spec_batch_mint_err;
use crate::issuance::spec_mint_err;
use crate::issuance::spec_mint_whitelist_err;
use crate::issuance::spec_reserve_err;
use crate::lifecycle::spec_cancel_event_err;
use crate::lifecycle::spec_create_event_err;
use crate::lifecycle::spec_update_event_err;
use crate::records::DelegateAuthority;
use crate::records::FreezeRecord;
use crate::records::RefundRequest;
use crate::records::ValidationType;
use crate::event::RefundTier;
use crate::refund::spec_cancel_refund_err;
use crate::refund::spec_first_tier;
use crate::refund::spec_tier_refund;
use crate::refund::spec_tiered_payout;
use crate::refund::spec_process_refund_err;
use crate::refund::spec_request_refund_err;
use crate::ticket::Ticket;
use crate::transfer::claim_code_of;
use crate::transfer::spec_complete_delegate_err;
use crate::transfer::spec_fresh_grant;
use crate::transfer::spec_init_delegate_err;
use crate::transfer::spec_transfer_err;
use crate::transfer::spec_transferred;
use crate::validation::spec_burn_err;
use crate::validation::spec_mark_used_err;
use crate::validation::spec_may_validate;
use crate::validation::spec_validate_entry_err;

verus! {

/// Entry validation rejects repetition: when an entry scan has succeeded,
/// any further entry scan of the same ticket — by any authorized
/// validator, at any time still inside the event window — fails with the
/// double-scan state conflict, whatever else is in order.
pub proof fn lemma_entry_validation_idempotence_rejected(
    ps: ProgramState,
    ev: Event,
    t: Ticket,
    t2: Ticket,
    validator: AcctId,
    gate: Seq<char>,
    now1: i64,
    validator2: AcctId,
    now2: i64,
)
    requires
        spec_validate_entry_err(ps, ev, t, validator, ValidationType::Entry, now1) is None,
        crate::validation::spec_scanned(t2, t, gate, ValidationType::Entry, now1),
        spec_may_validate(ev, validator2),
        ev.start_time <= now2,
        ev.end_time + ENTRY_GRACE_SECONDS <= i64::MAX,
        now2 <= ev.end_time + ENTRY_GRACE_SECONDS,
    ensures
        spec_validate_entry_err(ps, ev, t2, validator2, ValidationType::Entry, now2)
            == Some(TicketError::AlreadyValidatedForEntry),
{
}

/// The delegated-transfer round trip: a grant created with a time to live
/// of `ttl_hours` at time `created` can be claimed with the matching
/// hashed recipient and derived claim code at any `now` strictly before
/// `created + ttl_hours * 3600`, and at or after that moment the claim
/// fails as expired — whatever else is in order.
pub proof fn lemma_delegate_claim_window(
    ps: ProgramState,
    ev: Event,
    t: Ticket,
    t2: Ticket,
    g: DelegateAuthority,
    owner: AcctId,
    email_hash: Seq<u8>,
    ttl_hours: u64,
    created: i64,
    now: i64,
)
    requires
        spec_init_delegate_err(ps, ev, t, owner, ttl_hours, created) is None,
        spec_fresh_grant(g, t, owner, email_hash, ttl_hours, created),
        t2 == (Ticket { pending_transfer: true, ..t }),
        t.transfer_count < u32::MAX,
    ensures
        now < created + ttl_hours * 3600 ==> spec_complete_delegate_err(
            ps,
            t2,
            g,
            email_hash,
            claim_code_of(t.event_id, t.ticket_id, email_hash),
            now,
        ) is None,
        now >= created + ttl_hours * 3600 ==> spec_complete_delegate_err(
            ps,
            t2,
            g,
            email_hash,
            claim_code_of(t.event_id, t.ticket_id, email_hash),
            now,
        ) == Some(TicketError::DelegateExpired),
{
}

/// Freeze exclusivity: while a ticket is frozen, transfer, entry
/// validation and refund requests all fail with the frozen state
/// conflict, a second freeze fails as already frozen — and the organizer's
/// release is owed, after which the ticket is `Valid` again by
/// `unfreeze_ticket`'s contract.
pub proof fn lemma_freeze_exclusivity(
    ps: ProgramState,
    ev: Event,
    t: Ticket,
    fr: FreezeRecord,
    owner: AcctId,
    validator: AcctId,
    validation_type: ValidationType,
    reason: Seq<char>,
    freezer: AcctId,
    buyer_balance: u64,
    treasury_balance: u64,
    now: i64,
)
    requires
        t.is_frozen(),
        !ps.paused,
        t.owner == owner,
        spec_may_validate(ev, validator),
        ev.organizer == freezer || ev.freeze_authorities@.contains(freezer),
    ensures
        spec_transfer_err(ps, ev, t, owner, now) == Some(TicketError::TicketFrozen),
        spec_init_delegate_err(ps, ev, t, owner, 1u64, now) == Some(
            TicketError::TicketFrozen,
        ),
        spec_validate_entry_err(ps, ev, t, validator, validation_type, now) == Some(
            TicketError::TicketFrozen,
        ),
        spec_request_refund_err(
            ps,
            ev,
            t,
            owner,
            reason,
            buyer_balance,
            treasury_balance,
            now,
        ) == Some(TicketError::TicketFrozen),
        spec_freeze_err(ps, ev, t, freezer) == Some(TicketError::TicketAlreadyFrozen),
        fr.event_id == t.event_id && fr.ticket_id == t.ticket_id ==> spec_unfreeze_err(
            ps,
            ev,
            t,
            fr,
            ev.organizer,
        ) is None,
{
}

/// Pause precedence: while the program is paused, every mutating
/// lifecycle operation fails with the pause error, whatever other
/// preconditions it would satisfy. The circuit breaker itself stays
/// reachable: only the emergency authority's unpause lifts the pause.
pub proof fn lemma_pause_precedence(
    ps: ProgramState,
    ev: Event,
    t: Ticket,
    g: DelegateAuthority,
    fr: FreezeRecord,
    rr: RefundRequest,
    who: AcctId,
    name: Seq<char>,
    venue: Seq<char>,
    tier: Seq<char>,
    reason: Seq<char>,
    email: Seq<u8>,
    code: Seq<u8>,
    validation_type: ValidationType,
    opt_name: Option<String>,
    opt_text: Option<String>,
    opt_time: Option<i64>,
    opt_price: Option<u64>,
    n32: u32,
    n64: u64,
    balance_a: u64,
    balance_b: u64,
    now: i64,
)
    requires
        ps.paused,
    ensures
        spec_create_event_err(ps, name, venue, now, n64, n64, now) == Some(
            TicketError::ProgramPaused,
        ),
        spec_update_event_err(
            ps,
            ev,
            who,
            opt_name,
            opt_text,
            opt_text,
            opt_time,
            opt_price,
            opt_price,
            now,
        ) == Some(TicketError::ProgramPaused),
        spec_cancel_event_err(ps, ev, who, now) == Some(TicketError::ProgramPaused),
        spec_mint_err(ps, ev, tier, n32, balance_a, balance_b) == Some(
            TicketError::ProgramPaused,
        ),
        spec_batch_mint_err(ps, ev, tier, n32, n64, balance_a, balance_b) == Some(
            TicketError::ProgramPaused,
        ),
        spec_reserve_err(ps, ev, who, n32) == Some(TicketError::ProgramPaused),
        spec_mint_whitelist_err(ps, ev, tier, balance_a, balance_b, now) == Some(
            TicketError::ProgramPaused,
        ),
        spec_transfer_err(ps, ev, t, who, now) == Some(TicketError::ProgramPaused),
        spec_init_delegate_err(ps, ev, t, who, n64, now) == Some(
            TicketError::ProgramPaused,
        ),
        spec_complete_delegate_err(ps, t, g, email, code, now) == Some(
            TicketError::ProgramPaused,
        ),
        spec_validate_entry_err(ps, ev, t, who, validation_type, now) == Some(
            TicketError::ProgramPaused,
        ),
        spec_mark_used_err(ps, ev, t, who) == Some(TicketError::ProgramPaused),
        spec_burn_err(ps, ev, t, who) == Some(TicketError::ProgramPaused),
        spec_freeze_err(ps, ev, t, who) == Some(TicketError::ProgramPaused),
        spec_unfreeze_err(ps, ev, t, fr, who) == Some(TicketError::ProgramPaused),
        spec_request_refund_err(ps, ev, t, who, reason, balance_a, balance_b, now)
            == Some(TicketError::ProgramPaused),
        spec_process_refund_err(ps, ev, t, rr, who, balance_a, balance_b) == Some(
            TicketError::ProgramPaused,
        ),
        spec_cancel_refund_err(ps, ev, t, rr, who) == Some(TicketError::ProgramPaused),
{
}

/// Serialized conflict on one ticket: of two transfers of the same ticket
/// by the same original owner to different recipients, the one that
/// commits first moves ownership, and the other then fails with an owner
/// mismatch — never a double-owner state.
pub proof fn lemma_transfer_conflict(
    ps: ProgramState,
    ev: Event,
    t: Ticket,
    t2: Ticket,
    owner: AcctId,
    first_to: AcctId,
    memo: Option<String>,
    now1: i64,
    now2: i64,
)
    requires
        spec_transfer_err(ps, ev, t, owner, now1) is None,
        spec_transferred(t2, t, owner, first_to, memo, now1),
        first_to != owner,
    ensures
        t2.owner == first_to,
        spec_transfer_err(ps, ev, t2, owner, now2) == Some(TicketError::NotTicketOwner),
{
}

/// A tier the first-match search returns is a member of the list, and it
/// applies at the queried hour.
pub proof fn lemma_first_tier_member(s: Seq<RefundTier>, h: u32)
    ensures
        spec_first_tier(s, h) matches Some(t) ==> exists|k: int|
            0 <= k < s.len() && s[k] == t && h >= t.hours_before,
    decreases s.len(),
{
    if s.len() == 0 {
    } else if h >= s[0].hours_before {
        assert(s[0] == spec_first_tier(s, h)->Some_0);
    } else {
        lemma_first_tier_member(s.drop_first(), h);
        if spec_first_tier(s, h) is Some {
            let t = spec_first_tier(s, h)->Some_0;
            let k = choose|k: int|
                0 <= k < s.drop_first().len() && s.drop_first()[k] == t && h
                    >= t.hours_before;
            assert(s[k + 1] == s.drop_first()[k]);
        }
    }
}

/// Tiered refund monotonicity: under a policy whose tiers are ordered by
/// descending `hours_before` and pay no more the closer the event comes,
/// and whose amounts all compute without arithmetic error on this price,
/// requesting earlier never pays less — the payout is monotone in the
/// hours left before the event.
pub proof fn lemma_tiered_refund_monotone(
    tiers: Seq<RefundTier>,
    price: u64,
    h1: u32,
    h2: u32,
)
    requires
        h2 <= h1,
        forall|i: int, j: int|
            0 <= i < j < tiers.len() ==> (#[trigger] tiers[i].hours_before)
                >= #[trigger] tiers[j].hours_before,
        forall|i: int|
            0 <= i < tiers.len() ==> (#[trigger] spec_tier_refund(price, tiers[i])) is Ok,
        forall|i: int, j: int|
            0 <= i < j < tiers.len() ==> (#[trigger] spec_tier_refund(
                price,
                tiers[i],
            ))->Ok_0 >= (#[trigger] spec_tier_refund(price, tiers[j]))->Ok_0,
    ensures
        spec_tiered_payout(tiers, price, h1) is Ok,
        spec_tiered_payout(tiers, price, h2) is Ok,
        spec_tiered_payout(tiers, price, h1)->Ok_0 >= spec_tiered_payout(
            tiers,
            price,
            h2,
        )->Ok_0,
    decreases tiers.len(),
{
    if tiers.len() == 0 {
    } else if h2 >= tiers[0].hours_before {
        assert(spec_tier_refund(price, tiers[0]) is Ok);
    } else if h1 >= tiers[0].hours_before {
        assert(spec_tier_refund(price, tiers[0]) is Ok);
        lemma_first_tier_member(tiers.drop_first(), h2);
        if spec_first_tier(tiers.drop_first(), h2) is Some {
            let t = spec_first_tier(tiers.drop_first(), h2)->Some_0;
            let k = choose|k: int|
                0 <= k < tiers.drop_first().len() && tiers.drop_first()[k] == t && h2
                    >= t.hours_before;
            assert(tiers[k + 1] == tiers.drop_first()[k]);
            assert(spec_tier_refund(price, tiers[k + 1]) is Ok);
            assert(spec_tier_refund(price, tiers[0])->Ok_0 >= spec_tier_refund(
                price,
                tiers[k + 1],
            )->Ok_0);
        }
    } else {
        assert forall|i: int, j: int|
            0 <= i < j < tiers.drop_first().len() implies (#[trigger] tiers.drop_first()[i].hours_before)
            >= #[trigger] tiers.drop_first()[j].hours_before by {
            assert(tiers.drop_first()[i] == tiers[i + 1]);
            assert(tiers.drop_first()[j] == tiers[j + 1]);
        }
        assert forall|i: int|
            0 <= i < tiers.drop_first().len() implies (#[trigger] spec_tier_refund(
            price,
            tiers.drop_first()[i],
        )) is Ok by {
            assert(tiers.drop_first()[i] == tiers[i + 1]);
        }
        assert forall|i: int, j: int|
            0 <= i < j < tiers.drop_first().len() implies (#[trigger] spec_tier_refund(
            price,
            tiers.drop_first()[i],
        ))->Ok_0 >= (#[trigger] spec_tier_refund(price, tiers.drop_first()[j]))->Ok_0 by {
            assert(tiers.drop_first()[i] == tiers[i + 1]);
            assert(tiers.drop_first()[j] == tiers[j + 1]);
        }
        lemma_tiered_refund_monotone(tiers.drop_first(), price, h1, h2);
    }
}

} // verus!
