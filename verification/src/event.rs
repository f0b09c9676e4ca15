//! The Event record: one sellable occasion with capacity, pricing tiers,
//! delegated role lists and a refund policy.

use vstd::prelude::*;

use crate::AcctId;

verus! {

/// A named pricing/capacity bucket within an event.
#[derive(Clone, Debug)]
pub struct TicketTier {
    pub name: String,
    pub price: u64,
    pub total_supply: u32,
    pub minted_count: u32,
    pub used_count: u32,
    pub burned_count: u32,
    pub refunded_count: u32,
}

/// One step of a tiered refund policy: a ticket refunded at least
/// `hours_before` hours before the event start returns `refund_percentage`
/// percent of the purchase price, less a platform fee of `fee_basis_points`.
#[derive(Clone, Copy, PartialEq, Eq, Structural, Debug)]
pub struct RefundTier {
    pub hours_before: u32,
    pub refund_percentage: u8,
    pub fee_basis_points: u16,
}

/// The function from time-before-event to refund percentage and platform
/// fee.
#[derive(Clone, Debug)]
pub enum RefundPolicy {
    /// Nothing is ever returned.
    NoRefunds,
    /// The full price until `hours_before_event` hours before the start,
    /// nothing after.
    FullRefund { hours_before_event: u32 },
    /// Ordered by descending `hours_before`; the first tier at or below the
    /// remaining time applies.
    TieredRefund { tiers: Vec<RefundTier> },
    /// Delegated to an external handler record.
    CustomPolicy { handler: AcctId },
}

/// The default tiered policy: a full refund a week out, three quarters less
/// a 250 basis-point fee three days out, half less a 500 basis-point fee one
/// day out.
pub open spec fn default_refund_tiers() -> Seq<RefundTier> {
    seq![
        (RefundTier { hours_before: 168, refund_percentage: 100, fee_basis_points: 0 }),
        (RefundTier { hours_before: 72, refund_percentage: 75, fee_basis_points: 250 }),
        (RefundTier { hours_before: 24, refund_percentage: 50, fee_basis_points: 500 }),
    ]
}

impl Default for RefundPolicy {
    /// The policy an event gets when none is supplied.
    fn default() -> (r: Self)
        ensures
            (r matches RefundPolicy::TieredRefund { tiers } && tiers@
                =~= default_refund_tiers()),
    {
        let tiers = vec![
            (RefundTier { hours_before: 168, refund_percentage: 100, fee_basis_points: 0 }),
            (RefundTier { hours_before: 72, refund_percentage: 75, fee_basis_points: 250 }),
            (RefundTier { hours_before: 24, refund_percentage: 50, fee_basis_points: 500 }),
        ];
        assert(tiers@ =~= default_refund_tiers());
        RefundPolicy::TieredRefund { tiers }
    }
}

/// One sellable occasion. Counters are the sole source of truth for
/// remaining capacity; `wf` is the invariant every operation preserves.
#[derive(Clone, Debug)]
pub struct Event {
    pub event_id: u64,
    /// The organizing identity: gate, freeze and burn authorisations fall
    /// back to it.
    pub organizer: AcctId,
    /// The identity that may update or cancel the event and reserve
    /// tickets.
    pub authority: AcctId,
    pub name: String,
    pub description: String,
    pub venue: String,
    pub start_time: i64,
    pub end_time: i64,
    pub total_tickets: u32,
    pub tickets_sold: u32,
    pub tickets_used: u32,
    pub tickets_burned: u32,
    pub general_price: u64,
    pub vip_price: u64,
    pub cancelled: bool,
    pub cancelled_at: Option<i64>,
    pub cancellation_reason: Option<String>,
    pub transferable: bool,
    /// When set, no transfer may happen at or after this time.
    pub transfer_freeze_time: Option<i64>,
    pub gate_staff: Vec<AcctId>,
    pub freeze_authorities: Vec<AcctId>,
    pub burn_authorities: Vec<AcctId>,
    pub tiers: Vec<TicketTier>,
    pub refund_policy: RefundPolicy,
    /// When set, a buyer may hold at most this many tickets of the event.
    pub max_tickets_per_wallet: Option<u16>,
    pub created_at: i64,
    pub updated_at: i64,
}

impl Event {
    /// The record invariant: sales never exceed capacity.
    pub open spec fn wf(self) -> bool {
        self.tickets_sold <= self.total_tickets
    }

    /// The unit price of a tier name, `None` for an unknown tier.
    pub open spec fn spec_tier_price(self, tier: Seq<char>) -> Option<u64> {
        if tier == "general"@ {
            Some(self.general_price)
        } else if tier == "vip"@ {
            Some(self.vip_price)
        } else {
            None
        }
    }

    /// The index a ticket of this tier carries into `tiers`, matching
    /// `spec_tier_price`: general tickets are the first bucket, VIP the
    /// second.
    pub open spec fn spec_tier_index(tier: Seq<char>) -> usize {
        if tier == "general"@ {
            0usize
        } else {
            1usize
        }
    }
}

} // verus!
