use ticket_core::AcctId;
use ticket_core::admin::ComplianceConfig;
use ticket_core::admin::ProgramState;
use ticket_core::admin::emergency_pause;
use ticket_core::admin::emergency_unpause;
use ticket_core::admin::set_compliance;
use ticket_core::admin::update_authorities;
use ticket_core::errors::ErrorKind;
use ticket_core::errors::TicketError;
use ticket_core::event::Event;
use ticket_core::event::RefundPolicy;
use ticket_core::event::RefundTier;
use ticket_core::freeze::freeze_ticket;
use ticket_core::freeze::unfreeze_ticket;
use ticket_core::input::validate_date_range;
use ticket_core::input::validate_event_name;
use ticket_core::input::validate_price_range;
use ticket_core::issuance::batch_mint;
use ticket_core::issuance::mint_ticket;
use ticket_core::issuance::mint_whitelist;
use ticket_core::issuance::reserve_tickets;
use ticket_core::lifecycle::cancel_event;
use ticket_core::lifecycle::create_event;
use ticket_core::lifecycle::update_event;
use ticket_core::math::calculate_percentage;
use ticket_core::math::calculate_surge_multiplier;
use ticket_core::math::safe_add;
use ticket_core::math::safe_mul;
use ticket_core::math::safe_sub;
use ticket_core::records::FreezeReason;
use ticket_core::records::RefundStatus;
use ticket_core::records::ValidationType;
use ticket_core::refund::calculate_refund_amount;
use ticket_core::refund::cancel_refund;
use ticket_core::refund::hours_until_event;
use ticket_core::refund::process_refund;
use ticket_core::refund::request_refund;
use ticket_core::security::RateLimiter;
use ticket_core::security::verify_multisig;
use ticket_core::ticket::Ticket;
use ticket_core::ticket::TicketStatus;
use ticket_core::transfer::complete_delegate_transfer;
use ticket_core::transfer::initialize_delegate_transfer;
use ticket_core::transfer::transfer_ticket;
use ticket_core::validation::burn_ticket;
use ticket_core::validation::mark_ticket_used;
use ticket_core::validation::validate_entry;

const ORGANIZER: AcctId = AcctId(10);
const BUYER: AcctId = AcctId(20);
const OTHER: AcctId = AcctId(21);
const EMERGENCY: AcctId = AcctId(2);

const HOUR: i64 = 3600;
const DAY: i64 = 86400;

fn new_state() -> ProgramState {
    ProgramState {
        authority: AcctId(1),
        emergency_authority: EMERGENCY,
        paused: false,
        pause_reason: String::new(),
        paused_at: None,
        paused_by: None,
        total_events: 0,
        total_tickets: 0,
        total_revenue: 0,
    }
}

fn new_event(ps: &mut ProgramState, start: i64, now: i64) -> Event {
    create_event(
        ps,
        ORGANIZER,
        7,
        "Gala Night".to_string(),
        "Main Hall".to_string(),
        start,
        100,
        1_000,
        5_000,
        now,
    )
    .unwrap()
}

fn mint_one(ps: &mut ProgramState, ev: &mut Event, now: i64) -> (Ticket, u64, u64) {
    let mut buyer_bal: u64 = 10_000_000;
    let mut treasury: u64 = 0;
    let t = mint_ticket(
        ps,
        ev,
        BUYER,
        &mut buyer_bal,
        &mut treasury,
        0,
        "general".to_string(),
        1,
        now,
    )
    .unwrap();
    (t, buyer_bal, treasury)
}

fn tiered_policy() -> RefundPolicy {
    RefundPolicy::TieredRefund {
        tiers: vec![
            RefundTier { hours_before: 168, refund_percentage: 100, fee_basis_points: 0 },
            RefundTier { hours_before: 72, refund_percentage: 75, fee_basis_points: 250 },
            RefundTier { hours_before: 24, refund_percentage: 50, fee_basis_points: 500 },
        ],
    }
}

// ---- arithmetic layer ----

#[test]
fn safe_math_basics() {
    assert_eq!(safe_add(2, 3), Ok(5));
    assert_eq!(safe_add(u64::MAX, 1), Err(TicketError::MathOverflow));
    assert_eq!(safe_sub(5, 3), Ok(2));
    assert_eq!(safe_sub(3, 5), Err(TicketError::MathUnderflow));
    assert_eq!(safe_mul(6, 7), Ok(42));
    assert_eq!(safe_mul(u64::MAX, 2), Err(TicketError::MathOverflow));
}

#[test]
fn percentage_in_basis_points() {
    assert_eq!(calculate_percentage(100_000, 250), Ok(2_500));
    assert_eq!(calculate_percentage(100_000, 10_000), Ok(100_000));
    assert_eq!(calculate_percentage(u64::MAX, 2), Err(TicketError::MathOverflow));
    assert_eq!(calculate_percentage(0, 500), Ok(0));
}

#[test]
fn surge_multiplier_steps() {
    assert_eq!(calculate_surge_multiplier(0, 100), Ok(100));
    assert_eq!(calculate_surge_multiplier(49, 100), Ok(100));
    assert_eq!(calculate_surge_multiplier(50, 100), Ok(110));
    assert_eq!(calculate_surge_multiplier(70, 100), Ok(125));
    assert_eq!(calculate_surge_multiplier(80, 100), Ok(150));
    assert_eq!(calculate_surge_multiplier(90, 100), Ok(200));
    assert_eq!(calculate_surge_multiplier(0, 0), Ok(200));
}

// ---- input validation ----

#[test]
fn event_name_validation() {
    assert!(validate_event_name("Rock Night!").is_ok());
    assert_eq!(validate_event_name(""), Err(TicketError::EventNameEmpty));
    let long = "x".repeat(51);
    assert_eq!(validate_event_name(&long), Err(TicketError::EventNameTooLong));
    assert_eq!(validate_event_name("bad;name"), Err(TicketError::InvalidCharacters));
    assert!(validate_event_name("Fête 2024").is_ok());
}

#[test]
fn price_and_date_ranges() {
    assert!(validate_price_range(50, 10, 100).is_ok());
    assert_eq!(validate_price_range(5, 10, 100), Err(TicketError::PriceOutOfRange));
    assert_eq!(validate_price_range(101, 10, 100), Err(TicketError::PriceOutOfRange));
    assert!(validate_date_range(100, 200, 50).is_ok());
    assert_eq!(validate_date_range(40, 200, 50), Err(TicketError::EventInPast));
    assert_eq!(validate_date_range(100, 100, 50), Err(TicketError::InvalidDateRange));
}

// ---- event lifecycle ----

#[test]
fn create_event_happy_path() {
    let mut ps = new_state();
    let ev = new_event(&mut ps, 10 * DAY, 0);
    assert_eq!(ev.event_id, 7);
    assert_eq!(ev.tickets_sold, 0);
    assert_eq!(ev.total_tickets, 100);
    assert!(!ev.cancelled);
    assert!(ev.transferable);
    assert_eq!(ev.start_time, 10 * DAY);
    assert_eq!(ev.end_time, 10 * DAY + DAY);
    assert_eq!(ps.total_events, 1);
    assert!(matches!(ev.refund_policy, RefundPolicy::TieredRefund { .. }));
}

#[test]
fn create_event_rejections() {
    let mut ps = new_state();
    let r = create_event(
        &mut ps,
        ORGANIZER,
        7,
        "x".repeat(51),
        "Hall".to_string(),
        10 * DAY,
        100,
        1_000,
        5_000,
        0,
    );
    assert_eq!(r.err(), Some(TicketError::EventNameTooLong));
    let r = create_event(
        &mut ps,
        ORGANIZER,
        7,
        "Gala".to_string(),
        "Hall".to_string(),
        0,
        100,
        1_000,
        5_000,
        0,
    );
    assert_eq!(r.err(), Some(TicketError::InvalidEventDate));
    let r = create_event(
        &mut ps,
        ORGANIZER,
        7,
        "Gala".to_string(),
        "Hall".to_string(),
        10 * DAY,
        100,
        5_000,
        5_000,
        0,
    );
    assert_eq!(r.err(), Some(TicketError::InvalidPrice));
    assert_eq!(ps.total_events, 0);
}

#[test]
fn update_event_rules() {
    let mut ps = new_state();
    let mut ev = new_event(&mut ps, 10 * DAY, 0);
    let r = update_event(
        &ps,
        &mut ev,
        OTHER,
        None,
        None,
        None,
        None,
        None,
        None,
        1,
    );
    assert_eq!(r, Err(TicketError::Unauthorized));
    let r = update_event(
        &ps,
        &mut ev,
        ORGANIZER,
        None,
        None,
        None,
        None,
        Some(9_000),
        None,
        1,
    );
    assert_eq!(r, Err(TicketError::InvalidPrice));
    let r = update_event(
        &ps,
        &mut ev,
        ORGANIZER,
        Some("New Name".to_string()),
        Some("About".to_string()),
        None,
        None,
        Some(2_000),
        Some(8_000),
        1,
    );
    assert!(r.is_ok());
    assert_eq!(ev.name, "New Name");
    assert_eq!(ev.general_price, 2_000);
    assert_eq!(ev.vip_price, 8_000);
    let r = update_event(
        &ps,
        &mut ev,
        ORGANIZER,
        None,
        None,
        None,
        None,
        None,
        None,
        10 * DAY,
    );
    assert_eq!(r, Err(TicketError::EventAlreadyStarted));
}

#[test]
fn cancel_event_strict_policy() {
    let mut ps = new_state();
    let mut ev = new_event(&mut ps, 10 * DAY, 0);
    let r = cancel_event(&ps, &mut ev, OTHER, "weather".to_string(), 1);
    assert_eq!(r, Err(TicketError::Unauthorized));
    assert!(cancel_event(&ps, &mut ev, ORGANIZER, "weather".to_string(), 1).is_ok());
    assert!(ev.cancelled);
    assert_eq!(ev.cancelled_at, Some(1));
    let r = cancel_event(&ps, &mut ev, ORGANIZER, "again".to_string(), 2);
    assert_eq!(r, Err(TicketError::EventAlreadyCancelled));
}

#[test]
fn cancel_event_blocked_after_sales() {
    let mut ps = new_state();
    let mut ev = new_event(&mut ps, 10 * DAY, 0);
    let _ = mint_one(&mut ps, &mut ev, 1);
    let r = cancel_event(&ps, &mut ev, ORGANIZER, "late".to_string(), 2);
    assert_eq!(r, Err(TicketError::EventHasTicketsSold));
}

// ---- issuance ----

#[test]
fn mint_moves_funds_and_counters() {
    let mut ps = new_state();
    let mut ev = new_event(&mut ps, 10 * DAY, 0);
    let (t, buyer_bal, treasury) = mint_one(&mut ps, &mut ev, 1);
    assert_eq!(t.owner, BUYER);
    assert_eq!(t.purchase_price, 1_000);
    assert_eq!(t.status, TicketStatus::Valid);
    assert!(t.refund_eligible);
    assert_eq!(buyer_bal, 10_000_000 - 1_000);
    assert_eq!(treasury, 1_000);
    assert_eq!(ev.tickets_sold, 1);
    assert_eq!(ps.total_tickets, 1);
    assert_eq!(ps.total_revenue, 1_000);
}

#[test]
fn mint_respects_capacity() {
    let mut ps = new_state();
    let mut ev = new_event(&mut ps, 10 * DAY, 0);
    ev.total_tickets = 1;
    let _ = mint_one(&mut ps, &mut ev, 1);
    assert!(ev.tickets_sold <= ev.total_tickets);
    let mut bal: u64 = 10_000;
    let mut treas: u64 = 0;
    let r = mint_ticket(
        &mut ps,
        &mut ev,
        OTHER,
        &mut bal,
        &mut treas,
        0,
        "general".to_string(),
        2,
        1,
    );
    assert_eq!(r.err(), Some(TicketError::EventSoldOut));
    assert_eq!(bal, 10_000);
    assert_eq!(ev.tickets_sold, 1);
}

#[test]
fn mint_rejects_unknown_tier_and_poverty() {
    let mut ps = new_state();
    let mut ev = new_event(&mut ps, 10 * DAY, 0);
    let mut bal: u64 = 10_000;
    let mut treas: u64 = 0;
    let r = mint_ticket(
        &mut ps,
        &mut ev,
        BUYER,
        &mut bal,
        &mut treas,
        0,
        "backstage".to_string(),
        1,
        1,
    );
    assert_eq!(r.err(), Some(TicketError::InvalidTicketTier));
    let mut poor: u64 = 10;
    let r = mint_ticket(
        &mut ps,
        &mut ev,
        BUYER,
        &mut poor,
        &mut treas,
        0,
        "vip".to_string(),
        1,
        1,
    );
    assert_eq!(r.err(), Some(TicketError::InsufficientFunds));
    assert_eq!(ev.tickets_sold, 0);
}

#[test]
fn mint_per_wallet_limit() {
    let mut ps = new_state();
    let mut ev = new_event(&mut ps, 10 * DAY, 0);
    ev.max_tickets_per_wallet = Some(2);
    let mut bal: u64 = 10_000;
    let mut treas: u64 = 0;
    let r = mint_ticket(
        &mut ps,
        &mut ev,
        BUYER,
        &mut bal,
        &mut treas,
        2,
        "general".to_string(),
        1,
        1,
    );
    assert_eq!(r.err(), Some(TicketError::MaximumTicketsExceeded));
}

#[test]
fn batch_mint_mints_consecutive_ids() {
    let mut ps = new_state();
    let mut ev = new_event(&mut ps, 10 * DAY, 0);
    let mut bal: u64 = 1_000_000;
    let mut treas: u64 = 0;
    let out = batch_mint(
        &mut ps,
        &mut ev,
        BUYER,
        &mut bal,
        &mut treas,
        "general".to_string(),
        5,
        100,
        1,
    )
    .unwrap();
    assert_eq!(out.len(), 5);
    assert_eq!(out[0].ticket_id, 100);
    assert_eq!(out[4].ticket_id, 104);
    assert_eq!(ev.tickets_sold, 5);
    assert_eq!(bal, 1_000_000 - 5_000);
    assert_eq!(treas, 5_000);
    assert!(ev.tickets_sold <= ev.total_tickets);
}

#[test]
fn batch_mint_ceiling_and_capacity() {
    let mut ps = new_state();
    let mut ev = new_event(&mut ps, 10 * DAY, 0);
    let mut bal: u64 = u64::MAX / 2;
    let mut treas: u64 = 0;
    let r = batch_mint(
        &mut ps,
        &mut ev,
        BUYER,
        &mut bal,
        &mut treas,
        "general".to_string(),
        101,
        1,
        1,
    );
    assert_eq!(r.err(), Some(TicketError::InsufficientCapacity));
    ev.total_tickets = 500;
    let r = batch_mint(
        &mut ps,
        &mut ev,
        BUYER,
        &mut bal,
        &mut treas,
        "general".to_string(),
        101,
        1,
        1,
    );
    assert_eq!(r.err(), Some(TicketError::BatchSizeTooLarge));
    assert_eq!(ev.tickets_sold, 0);
}

#[test]
fn reserve_tickets_is_organizer_only() {
    let mut ps = new_state();
    let mut ev = new_event(&mut ps, 10 * DAY, 0);
    let r = reserve_tickets(&ps, &mut ev, OTHER, 10);
    assert_eq!(r, Err(TicketError::Unauthorized));
    assert!(reserve_tickets(&ps, &mut ev, ORGANIZER, 10).is_ok());
    assert_eq!(ev.tickets_sold, 10);
    let r = reserve_tickets(&ps, &mut ev, ORGANIZER, 91);
    assert_eq!(r, Err(TicketError::InsufficientCapacity));
    assert!(ev.tickets_sold <= ev.total_tickets);
}

#[test]
fn whitelist_mint_discount_and_window() {
    let mut ps = new_state();
    let mut ev = new_event(&mut ps, 10 * DAY, 0);
    let mut bal: u64 = 10_000;
    let mut treas: u64 = 0;
    let t = mint_whitelist(
        &mut ps,
        &mut ev,
        BUYER,
        &mut bal,
        &mut treas,
        "general".to_string(),
        1,
        1,
    )
    .unwrap();
    assert_eq!(t.purchase_price, 800);
    assert_eq!(treas, 800);
    let late = 10 * DAY - DAY + 1;
    let r = mint_whitelist(
        &mut ps,
        &mut ev,
        BUYER,
        &mut bal,
        &mut treas,
        "general".to_string(),
        2,
        late,
    );
    assert_eq!(r.err(), Some(TicketError::WhitelistExpired));
}

// ---- transfers ----

#[test]
fn direct_transfer_changes_owner_and_logs() {
    let mut ps = new_state();
    let mut ev = new_event(&mut ps, 10 * DAY, 0);
    let (mut t, _, _) = mint_one(&mut ps, &mut ev, 1);
    let r = transfer_ticket(&ps, &ev, &mut t, BUYER, OTHER, Some("gift".to_string()), 2);
    assert!(r.is_ok());
    assert_eq!(t.owner, OTHER);
    assert_eq!(t.transfer_count, 1);
    assert_eq!(t.transfer_history.len(), 1);
    assert_eq!(t.transfer_history[0].from, BUYER);
    assert_eq!(t.transfer_history[0].to, OTHER);
}

#[test]
fn transfer_conflict_second_loses() {
    let mut ps = new_state();
    let mut ev = new_event(&mut ps, 10 * DAY, 0);
    let (mut t, _, _) = mint_one(&mut ps, &mut ev, 1);
    assert!(transfer_ticket(&ps, &ev, &mut t, BUYER, OTHER, None, 2).is_ok());
    let r = transfer_ticket(&ps, &ev, &mut t, BUYER, AcctId(30), None, 2);
    assert_eq!(r, Err(TicketError::NotTicketOwner));
    assert_eq!(t.owner, OTHER);
}

#[test]
fn transfer_respects_freeze_window_and_flags() {
    let mut ps = new_state();
    let mut ev = new_event(&mut ps, 10 * DAY, 0);
    let (mut t, _, _) = mint_one(&mut ps, &mut ev, 1);
    ev.transfer_freeze_time = Some(5);
    let r = transfer_ticket(&ps, &ev, &mut t, BUYER, OTHER, None, 5);
    assert_eq!(r, Err(TicketError::TransferWindowClosed));
    ev.transfer_freeze_time = None;
    ev.transferable = false;
    let r = transfer_ticket(&ps, &ev, &mut t, BUYER, OTHER, None, 5);
    assert_eq!(r, Err(TicketError::TransfersNotAllowed));
    assert_eq!(t.owner, BUYER);
}

#[test]
fn delegate_round_trip_inside_window() {
    let mut ps = new_state();
    let mut ev = new_event(&mut ps, 10 * DAY, 0);
    let (mut t, _, _) = mint_one(&mut ps, &mut ev, 1);
    let email = [7u8; 32];
    let created = 100;
    let hours = 24;
    let mut g = initialize_delegate_transfer(&ps, &ev, &mut t, BUYER, email, hours, created)
        .unwrap();
    assert!(t.pending_transfer);
    assert_eq!(g.expires_at, created + 24 * HOUR);
    let code = g.claim_code;
    let r = complete_delegate_transfer(
        &ps,
        &mut t,
        &mut g,
        OTHER,
        email,
        code,
        created + 24 * HOUR - 1,
    );
    assert!(r.is_ok());
    assert_eq!(t.owner, OTHER);
    assert!(!t.pending_transfer);
    assert!(g.claimed);
    assert_eq!(t.delegate_transfer_history.len(), 1);
}

#[test]
fn delegate_claim_after_expiry_fails() {
    let mut ps = new_state();
    let mut ev = new_event(&mut ps, 10 * DAY, 0);
    let (mut t, _, _) = mint_one(&mut ps, &mut ev, 1);
    let email = [7u8; 32];
    let created = 100;
    let mut g = initialize_delegate_transfer(&ps, &ev, &mut t, BUYER, email, 24, created)
        .unwrap();
    let code = g.claim_code;
    let r = complete_delegate_transfer(
        &ps,
        &mut t,
        &mut g,
        OTHER,
        email,
        code,
        created + 24 * HOUR + 1,
    );
    assert_eq!(r, Err(TicketError::DelegateExpired));
    assert_eq!(TicketError::DelegateExpired.kind(), ErrorKind::Timing);
    assert_eq!(t.owner, BUYER);
    assert!(t.pending_transfer);
}

#[test]
fn delegate_rejects_wrong_secrets_and_reuse() {
    let mut ps = new_state();
    let mut ev = new_event(&mut ps, 10 * DAY, 0);
    let (mut t, _, _) = mint_one(&mut ps, &mut ev, 1);
    let email = [7u8; 32];
    let mut g = initialize_delegate_transfer(&ps, &ev, &mut t, BUYER, email, 24, 100)
        .unwrap();
    let code = g.claim_code;
    let mut wrong_code = code;
    wrong_code[0] = wrong_code[0].wrapping_add(1);
    let r = complete_delegate_transfer(&ps, &mut t, &mut g, OTHER, email, wrong_code, 200);
    assert_eq!(r, Err(TicketError::InvalidClaimCode));
    let r = complete_delegate_transfer(&ps, &mut t, &mut g, OTHER, [8u8; 32], code, 200);
    assert_eq!(r, Err(TicketError::InvalidEmailHash));
    assert!(complete_delegate_transfer(&ps, &mut t, &mut g, OTHER, email, code, 200).is_ok());
    let r = complete_delegate_transfer(&ps, &mut t, &mut g, AcctId(30), email, code, 201);
    assert_eq!(r, Err(TicketError::DelegateAlreadyClaimed));
}

#[test]
fn claim_codes_bind_to_ticket_and_recipient() {
    let mut ps = new_state();
    let mut ev = new_event(&mut ps, 10 * DAY, 0);
    let (mut t1, _, _) = mint_one(&mut ps, &mut ev, 1);
    let mut bal: u64 = 10_000;
    let mut treas: u64 = 0;
    let mut t2 = mint_ticket(
        &mut ps,
        &mut ev,
        BUYER,
        &mut bal,
        &mut treas,
        0,
        "general".to_string(),
        2,
        1,
    )
    .unwrap();
    let g1 = initialize_delegate_transfer(&ps, &ev, &mut t1, BUYER, [7u8; 32], 24, 100)
        .unwrap();
    let g2 = initialize_delegate_transfer(&ps, &ev, &mut t2, BUYER, [7u8; 32], 24, 100)
        .unwrap();
    assert_ne!(g1.claim_code, g2.claim_code);
    let mut t3 = {
        let mut bal2: u64 = 10_000;
        let mut treas2: u64 = 0;
        mint_ticket(
            &mut ps,
            &mut ev,
            BUYER,
            &mut bal2,
            &mut treas2,
            0,
            "general".to_string(),
            3,
            1,
        )
        .unwrap()
    };
    let g3 = initialize_delegate_transfer(&ps, &ev, &mut t3, BUYER, [9u8; 32], 24, 100)
        .unwrap();
    let g4 = {
        let mut t4 = {
            let mut bal2: u64 = 10_000;
            let mut treas2: u64 = 0;
            mint_ticket(
                &mut ps,
                &mut ev,
                BUYER,
                &mut bal2,
                &mut treas2,
                0,
                "general".to_string(),
                3,
                1,
            )
            .unwrap()
        };
        initialize_delegate_transfer(&ps, &ev, &mut t4, BUYER, [10u8; 32], 24, 100).unwrap()
    };
    assert_ne!(g3.claim_code, g4.claim_code);
}

// ---- gate validation ----

#[test]
fn entry_validation_once_then_conflict() {
    let mut ps = new_state();
    let mut ev = new_event(&mut ps, 10 * DAY, 0);
    let (mut t, _, _) = mint_one(&mut ps, &mut ev, 1);
    let at_gate = 10 * DAY + 10;
    let rec = validate_entry(
        &ps,
        &ev,
        &mut t,
        ORGANIZER,
        "gate-a".to_string(),
        ValidationType::Entry,
        at_gate,
    )
    .unwrap();
    assert!(t.entry_validated);
    assert_eq!(t.entry_time, Some(at_gate));
    assert_eq!(t.validation_count, 1);
    assert_eq!(rec.gate_id, "gate-a");
    let r = validate_entry(
        &ps,
        &ev,
        &mut t,
        ORGANIZER,
        "gate-b".to_string(),
        ValidationType::Entry,
        at_gate + 60,
    );
    assert_eq!(r.err(), Some(TicketError::AlreadyValidatedForEntry));
    assert_eq!(TicketError::AlreadyValidatedForEntry.kind(), ErrorKind::StateConflict);
    assert_eq!(t.validation_count, 1);
}

#[test]
fn exit_and_checkpoint_scans_repeat() {
    let mut ps = new_state();
    let mut ev = new_event(&mut ps, 10 * DAY, 0);
    ev.gate_staff.push(AcctId(40));
    let (mut t, _, _) = mint_one(&mut ps, &mut ev, 1);
    let at_gate = 10 * DAY + 10;
    assert!(validate_entry(
        &ps,
        &ev,
        &mut t,
        AcctId(40),
        "x".to_string(),
        ValidationType::Exit,
        at_gate,
    )
    .is_ok());
    assert!(validate_entry(
        &ps,
        &ev,
        &mut t,
        AcctId(40),
        "x".to_string(),
        ValidationType::Exit,
        at_gate + 1,
    )
    .is_ok());
    assert!(validate_entry(
        &ps,
        &ev,
        &mut t,
        AcctId(40),
        "cp".to_string(),
        ValidationType::Checkpoint,
        at_gate + 2,
    )
    .is_ok());
    assert_eq!(t.checkpoint_scans.len(), 1);
    assert_eq!(t.validation_count, 3);
}

#[test]
fn validation_respects_roles_and_window() {
    let mut ps = new_state();
    let mut ev = new_event(&mut ps, 10 * DAY, 0);
    let (mut t, _, _) = mint_one(&mut ps, &mut ev, 1);
    let r = validate_entry(
        &ps,
        &ev,
        &mut t,
        OTHER,
        "g".to_string(),
        ValidationType::Entry,
        10 * DAY + 1,
    );
    assert_eq!(r.err(), Some(TicketError::UnauthorizedValidator));
    let r = validate_entry(
        &ps,
        &ev,
        &mut t,
        ORGANIZER,
        "g".to_string(),
        ValidationType::Entry,
        10 * DAY - 1,
    );
    assert_eq!(r.err(), Some(TicketError::EventNotStarted));
    let too_late = ev.end_time + HOUR + 1;
    let r = validate_entry(
        &ps,
        &ev,
        &mut t,
        ORGANIZER,
        "g".to_string(),
        ValidationType::Entry,
        too_late,
    );
    assert_eq!(r.err(), Some(TicketError::EventEnded));
}

#[test]
fn mark_used_needs_prior_entry() {
    let mut ps = new_state();
    let mut ev = new_event(&mut ps, 10 * DAY, 0);
    let (mut t, _, _) = mint_one(&mut ps, &mut ev, 1);
    let r = mark_ticket_used(&ps, &mut ev, &mut t, ORGANIZER, 10 * DAY + 20);
    assert_eq!(r, Err(TicketError::TicketNotValidated));
    validate_entry(
        &ps,
        &ev,
        &mut t,
        ORGANIZER,
        "g".to_string(),
        ValidationType::Entry,
        10 * DAY + 10,
    )
    .unwrap();
    assert!(mark_ticket_used(&ps, &mut ev, &mut t, ORGANIZER, 10 * DAY + 20).is_ok());
    assert_eq!(t.status, TicketStatus::Used);
    assert_eq!(ev.tickets_used, 1);
    let r = mark_ticket_used(&ps, &mut ev, &mut t, ORGANIZER, 10 * DAY + 30);
    assert_eq!(r, Err(TicketError::TicketAlreadyUsed));
}

#[test]
fn burn_is_terminal_and_role_gated() {
    let mut ps = new_state();
    let mut ev = new_event(&mut ps, 10 * DAY, 0);
    let (mut t, _, _) = mint_one(&mut ps, &mut ev, 1);
    validate_entry(
        &ps,
        &ev,
        &mut t,
        ORGANIZER,
        "g".to_string(),
        ValidationType::Entry,
        10 * DAY + 10,
    )
    .unwrap();
    let r = burn_ticket(&ps, &mut ev, &mut t, OTHER, 10 * DAY + 20);
    assert_eq!(r, Err(TicketError::UnauthorizedBurner));
    assert!(burn_ticket(&ps, &mut ev, &mut t, ORGANIZER, 10 * DAY + 20).is_ok());
    assert_eq!(t.status, TicketStatus::Burned);
    assert_eq!(ev.tickets_used, 1);
    assert_eq!(ev.tickets_burned, 1);
}

// ---- freeze ----

#[test]
fn freeze_exclusivity_until_unfreeze() {
    let mut ps = new_state();
    let mut ev = new_event(&mut ps, 10 * DAY, 0);
    let (mut t, _, _) = mint_one(&mut ps, &mut ev, 1);
    let mut fr = freeze_ticket(
        &ps,
        &ev,
        &mut t,
        ORGANIZER,
        FreezeReason::SuspectedFraud,
        "duplicate scan pattern".to_string(),
        2,
    )
    .unwrap();
    assert_eq!(t.status, TicketStatus::Frozen);
    let r = transfer_ticket(&ps, &ev, &mut t, BUYER, OTHER, None, 3);
    assert_eq!(r, Err(TicketError::TicketFrozen));
    assert_eq!(TicketError::TicketFrozen.kind(), ErrorKind::StateConflict);
    let r = validate_entry(
        &ps,
        &ev,
        &mut t,
        ORGANIZER,
        "g".to_string(),
        ValidationType::Entry,
        10 * DAY + 10,
    );
    assert_eq!(r.err(), Some(TicketError::TicketFrozen));
    let mut bal: u64 = 0;
    let mut treas: u64 = 1_000_000;
    let r = request_refund(
        &ps,
        &mut ev,
        &mut t,
        BUYER,
        "please".to_string(),
        &mut bal,
        &mut treas,
        3,
    );
    assert_eq!(r.err(), Some(TicketError::TicketFrozen));
    let r = freeze_ticket(
        &ps,
        &ev,
        &mut t,
        ORGANIZER,
        FreezeReason::Other,
        "again".to_string(),
        4,
    );
    assert_eq!(r.err(), Some(TicketError::TicketAlreadyFrozen));
    // a freeze authority cannot self-reverse; the organizer can
    let r = unfreeze_ticket(&ps, &ev, &mut t, &mut fr, OTHER, "no".to_string(), 5);
    assert_eq!(r, Err(TicketError::UnauthorizedUnfreezer));
    assert!(unfreeze_ticket(&ps, &ev, &mut t, &mut fr, ORGANIZER, "cleared".to_string(), 5)
        .is_ok());
    assert_eq!(t.status, TicketStatus::Valid);
    assert!(fr.unfrozen);
    assert_eq!(fr.unfreeze_note, Some("cleared".to_string()));
    assert!(transfer_ticket(&ps, &ev, &mut t, BUYER, OTHER, None, 6).is_ok());
}

#[test]
fn freeze_requires_listed_authority() {
    let mut ps = new_state();
    let mut ev = new_event(&mut ps, 10 * DAY, 0);
    let (mut t, _, _) = mint_one(&mut ps, &mut ev, 1);
    let r = freeze_ticket(
        &ps,
        &ev,
        &mut t,
        OTHER,
        FreezeReason::LegalHold,
        "court order".to_string(),
        2,
    );
    assert_eq!(r.err(), Some(TicketError::UnauthorizedFreezer));
    ev.freeze_authorities.push(OTHER);
    assert!(freeze_ticket(
        &ps,
        &ev,
        &mut t,
        OTHER,
        FreezeReason::LegalHold,
        "court order".to_string(),
        2,
    )
    .is_ok());
}

// ---- refunds ----

#[test]
fn tiered_refund_exact_values() {
    let policy = tiered_policy();
    let start = 1_000_000 * HOUR;
    assert_eq!(
        calculate_refund_amount(&policy, 100_000, start, start - 200 * HOUR),
        Ok(100_000)
    );
    assert_eq!(
        calculate_refund_amount(&policy, 100_000, start, start - 100 * HOUR),
        Ok(72_500)
    );
    assert_eq!(
        calculate_refund_amount(&policy, 100_000, start, start - 30 * HOUR),
        Ok(45_000)
    );
    assert_eq!(
        calculate_refund_amount(&policy, 100_000, start, start - 10 * HOUR),
        Ok(0)
    );
}

#[test]
fn tiered_refund_monotone_on_sample() {
    let policy = tiered_policy();
    let start = 1_000_000 * HOUR;
    let mut last = u64::MAX;
    for h in [200i64, 168, 150, 100, 72, 50, 30, 24, 10, 0] {
        let amount = calculate_refund_amount(&policy, 100_000, start, start - h * HOUR)
            .unwrap();
        assert!(amount <= last);
        last = amount;
    }
}

#[test]
fn refund_policy_variants() {
    let start = 1_000 * HOUR;
    assert_eq!(
        calculate_refund_amount(&RefundPolicy::NoRefunds, 5_000, start, 0),
        Ok(0)
    );
    let full = RefundPolicy::FullRefund { hours_before_event: 48 };
    assert_eq!(calculate_refund_amount(&full, 5_000, start, start - 48 * HOUR), Ok(5_000));
    assert_eq!(
        calculate_refund_amount(&full, 5_000, start, start - 48 * HOUR + 1),
        Ok(0)
    );
    let custom = RefundPolicy::CustomPolicy { handler: AcctId(99) };
    assert_eq!(calculate_refund_amount(&custom, 5_000, start, 0), Ok(2_500));
}

#[test]
fn refund_underflow_fails_loudly() {
    let policy = RefundPolicy::TieredRefund {
        tiers: vec![RefundTier {
            hours_before: 0,
            refund_percentage: 1,
            fee_basis_points: 500,
        }],
    };
    let start = 1_000 * HOUR;
    let r = calculate_refund_amount(&policy, 100_000, start, start - 10 * HOUR);
    assert_eq!(r, Err(TicketError::MathUnderflow));
    assert_eq!(TicketError::MathUnderflow.kind(), ErrorKind::Arithmetic);
}

#[test]
fn hours_until_event_saturates() {
    assert_eq!(hours_until_event(100, 200), 0);
    assert_eq!(hours_until_event(HOUR, 0), 1);
    assert_eq!(hours_until_event(HOUR - 1, 0), 0);
    assert_eq!(hours_until_event(i64::MAX, i64::MIN), u32::MAX);
}

#[test]
fn small_refund_pays_immediately() {
    let mut ps = new_state();
    let mut ev = new_event(&mut ps, 10 * DAY, 0);
    let (mut t, _, _) = mint_one(&mut ps, &mut ev, 1);
    let mut bal: u64 = 0;
    let mut treas: u64 = 1_000_000;
    let rr = request_refund(
        &ps,
        &mut ev,
        &mut t,
        BUYER,
        "change of plans".to_string(),
        &mut bal,
        &mut treas,
        2,
    )
    .unwrap();
    // default policy, full week before the start: the full 1_000 comes back
    assert_eq!(rr.amount, 1_000);
    assert_eq!(rr.status, RefundStatus::Approved);
    assert_eq!(rr.processed_at, Some(2));
    assert_eq!(bal, 1_000);
    assert_eq!(treas, 999_000);
    assert_eq!(t.status, TicketStatus::Refunded);
    assert!(!t.refund_eligible);
    assert_eq!(t.refund_amount, Some(1_000));
    assert_eq!(ev.tickets_sold, 0);
    let r = request_refund(
        &ps,
        &mut ev,
        &mut t,
        BUYER,
        "again".to_string(),
        &mut bal,
        &mut treas,
        3,
    );
    assert_eq!(r.err(), Some(TicketError::AlreadyRefunded));
}

#[test]
fn large_refund_stays_pending_then_processes() {
    let mut ps = new_state();
    let mut ev = create_event(
        &mut ps,
        ORGANIZER,
        8,
        "Opera".to_string(),
        "House".to_string(),
        100 * DAY,
        50,
        2_000_000,
        9_000_000,
        0,
    )
    .unwrap();
    let mut buyer_bal: u64 = 3_000_000;
    let mut treasury: u64 = 0;
    let mut t = mint_ticket(
        &mut ps,
        &mut ev,
        BUYER,
        &mut buyer_bal,
        &mut treasury,
        0,
        "general".to_string(),
        1,
        1,
    )
    .unwrap();
    let mut rr = request_refund(
        &ps,
        &mut ev,
        &mut t,
        BUYER,
        "storm".to_string(),
        &mut buyer_bal,
        &mut treasury,
        2,
    )
    .unwrap();
    assert_eq!(rr.amount, 2_000_000);
    assert_eq!(rr.status, RefundStatus::Pending);
    assert_eq!(buyer_bal, 1_000_000);
    assert_eq!(treasury, 2_000_000);
    assert_eq!(t.status, TicketStatus::Refunded);
    assert_eq!(ev.tickets_sold, 0);
    let r = process_refund(
        &ps,
        &ev,
        &mut t,
        &mut rr,
        OTHER,
        &mut buyer_bal,
        &mut treasury,
        3,
    );
    assert_eq!(r, Err(TicketError::Unauthorized));
    assert!(process_refund(
        &ps,
        &ev,
        &mut t,
        &mut rr,
        ORGANIZER,
        &mut buyer_bal,
        &mut treasury,
        3,
    )
    .is_ok());
    assert_eq!(rr.status, RefundStatus::Approved);
    assert_eq!(rr.processor, Some(ORGANIZER));
    assert_eq!(buyer_bal, 3_000_000);
    assert_eq!(treasury, 0);
    let r = process_refund(
        &ps,
        &ev,
        &mut t,
        &mut rr,
        ORGANIZER,
        &mut buyer_bal,
        &mut treasury,
        4,
    );
    assert_eq!(r, Err(TicketError::InvalidRefundStatus));
}

#[test]
fn cancel_refund_restores_ticket() {
    let mut ps = new_state();
    let mut ev = create_event(
        &mut ps,
        ORGANIZER,
        8,
        "Opera".to_string(),
        "House".to_string(),
        100 * DAY,
        50,
        2_000_000,
        9_000_000,
        0,
    )
    .unwrap();
    let mut buyer_bal: u64 = 3_000_000;
    let mut treasury: u64 = 0;
    let mut t = mint_ticket(
        &mut ps,
        &mut ev,
        BUYER,
        &mut buyer_bal,
        &mut treasury,
        0,
        "general".to_string(),
        1,
        1,
    )
    .unwrap();
    let mut rr = request_refund(
        &ps,
        &mut ev,
        &mut t,
        BUYER,
        "maybe not".to_string(),
        &mut buyer_bal,
        &mut treasury,
        2,
    )
    .unwrap();
    let r = cancel_refund(&ps, &mut ev, &mut t, &mut rr, OTHER, 3);
    assert_eq!(r, Err(TicketError::Unauthorized));
    assert!(cancel_refund(&ps, &mut ev, &mut t, &mut rr, BUYER, 3).is_ok());
    assert_eq!(rr.status, RefundStatus::Cancelled);
    assert_eq!(t.status, TicketStatus::Valid);
    assert!(t.refund_eligible);
    assert_eq!(ev.tickets_sold, 1);
}

#[test]
fn refund_window_closes() {
    let mut ps = new_state();
    let mut ev = new_event(&mut ps, 10 * DAY, 0);
    let (mut t, _, _) = mint_one(&mut ps, &mut ev, 1);
    let mut bal: u64 = 0;
    let mut treas: u64 = 1_000_000;
    let r = request_refund(
        &ps,
        &mut ev,
        &mut t,
        BUYER,
        "too late".to_string(),
        &mut bal,
        &mut treas,
        9 * DAY,
    );
    assert_eq!(r.err(), Some(TicketError::RefundWindowClosed));
    t.refund_deadline = Some(9 * DAY + HOUR);
    assert!(request_refund(
        &ps,
        &mut ev,
        &mut t,
        BUYER,
        "just in time".to_string(),
        &mut bal,
        &mut treas,
        9 * DAY,
    )
    .is_ok());
}

// ---- circuit breaker ----

#[test]
fn pause_gates_everything() {
    let mut ps = new_state();
    let mut ev = new_event(&mut ps, 10 * DAY, 0);
    let (mut t, _, _) = mint_one(&mut ps, &mut ev, 1);
    assert!(emergency_pause(&mut ps, EMERGENCY, "incident".to_string(), 5).is_ok());
    assert!(ps.paused);
    assert_eq!(ps.paused_by, Some(EMERGENCY));
    let mut bal: u64 = 10_000;
    let mut treas: u64 = 1_000_000;
    let r = mint_ticket(
        &mut ps,
        &mut ev,
        BUYER,
        &mut bal,
        &mut treas,
        0,
        "general".to_string(),
        9,
        6,
    );
    assert_eq!(r.err(), Some(TicketError::ProgramPaused));
    let r = transfer_ticket(&ps, &ev, &mut t, BUYER, OTHER, None, 6);
    assert_eq!(r, Err(TicketError::ProgramPaused));
    let r = validate_entry(
        &ps,
        &ev,
        &mut t,
        ORGANIZER,
        "g".to_string(),
        ValidationType::Entry,
        10 * DAY + 1,
    );
    assert_eq!(r.err(), Some(TicketError::ProgramPaused));
    let r = freeze_ticket(
        &ps,
        &ev,
        &mut t,
        ORGANIZER,
        FreezeReason::Other,
        "e".to_string(),
        6,
    );
    assert_eq!(r.err(), Some(TicketError::ProgramPaused));
    let r = request_refund(
        &ps,
        &mut ev,
        &mut t,
        BUYER,
        "r".to_string(),
        &mut bal,
        &mut treas,
        6,
    );
    assert_eq!(r.err(), Some(TicketError::ProgramPaused));
    let r = cancel_event(&ps, &mut ev, ORGANIZER, "c".to_string(), 6);
    assert_eq!(r, Err(TicketError::ProgramPaused));
    let r = create_event(
        &mut ps,
        ORGANIZER,
        9,
        "Next".to_string(),
        "Hall".to_string(),
        20 * DAY,
        10,
        1,
        2,
        6,
    );
    assert_eq!(r.err(), Some(TicketError::ProgramPaused));
    let r = reserve_tickets(&ps, &mut ev, ORGANIZER, 1);
    assert_eq!(r, Err(TicketError::ProgramPaused));
    assert_eq!(TicketError::ProgramPaused.kind(), ErrorKind::StateConflict);
    // only the emergency authority's unpause lifts the pause
    assert!(emergency_unpause(&mut ps, EMERGENCY).is_ok());
    assert!(!ps.paused);
    let r = mint_ticket(
        &mut ps,
        &mut ev,
        BUYER,
        &mut bal,
        &mut treas,
        0,
        "general".to_string(),
        9,
        7,
    );
    assert!(r.is_ok());
}

#[test]
fn pause_is_idempotence_rejecting_and_authorized() {
    let mut ps = new_state();
    let r = emergency_pause(&mut ps, OTHER, "nope".to_string(), 1);
    assert_eq!(r, Err(TicketError::Unauthorized));
    assert!(emergency_pause(&mut ps, EMERGENCY, "incident".to_string(), 1).is_ok());
    let r = emergency_pause(&mut ps, EMERGENCY, "again".to_string(), 2);
    assert_eq!(r, Err(TicketError::AlreadyPaused));
    let r = emergency_unpause(&mut ps, OTHER);
    assert_eq!(r, Err(TicketError::Unauthorized));
    assert!(emergency_unpause(&mut ps, EMERGENCY).is_ok());
    let r = emergency_unpause(&mut ps, EMERGENCY);
    assert_eq!(r, Err(TicketError::NotPaused));
}

#[test]
fn authority_rotation_and_compliance_stub() {
    let mut ps = new_state();
    let r = update_authorities(&mut ps, OTHER, AcctId(50));
    assert_eq!(r, Err(TicketError::Unauthorized));
    assert!(update_authorities(&mut ps, AcctId(1), AcctId(50)).is_ok());
    assert_eq!(ps.authority, AcctId(50));
    let mut cfg = ComplianceConfig {
        authority: AcctId(3),
        kyc_required: false,
        whitelist_only: false,
    };
    let r = set_compliance(&mut cfg, OTHER, true, false);
    assert_eq!(r, Err(TicketError::Unauthorized));
    assert!(set_compliance(&mut cfg, AcctId(3), true, true).is_ok());
    assert!(cfg.kyc_required);
    assert!(cfg.whitelist_only);
}

// ---- security utilities ----

#[test]
fn rate_limiter_window() {
    let mut rl = RateLimiter { window_start: 0, counter: 0, max_per_window: 2 };
    assert!(rl.check_and_update(10).is_ok());
    assert!(rl.check_and_update(20).is_ok());
    assert_eq!(rl.check_and_update(30), Err(TicketError::RateLimitExceeded));
    assert!(rl.check_and_update(61).is_ok());
    assert_eq!(rl.counter, 1);
    assert_eq!(rl.window_start, 61);
}

#[test]
fn name_length_boundary() {
    let exact = "x".repeat(50);
    assert!(validate_event_name(&exact).is_ok());
}

#[test]
fn checkpoint_log_is_bounded() {
    let mut ps = new_state();
    let mut ev = new_event(&mut ps, 10 * DAY, 0);
    let (mut t, _, _) = mint_one(&mut ps, &mut ev, 1);
    let at_gate = 10 * DAY + 10;
    for i in 0..100 {
        assert!(validate_entry(
            &ps,
            &ev,
            &mut t,
            ORGANIZER,
            format!("cp-{i}"),
            ValidationType::Checkpoint,
            at_gate + i,
        )
        .is_ok());
    }
    let r = validate_entry(
        &ps,
        &ev,
        &mut t,
        ORGANIZER,
        "cp-overflow".to_string(),
        ValidationType::Checkpoint,
        at_gate + 200,
    );
    assert_eq!(r.err(), Some(TicketError::ValidationLogFull));
    assert_eq!(t.checkpoint_scans.len(), 100);
}

#[test]
fn multisig_counts_listed_signers() {
    let signers = vec![AcctId(1), AcctId(2), AcctId(3)];
    let valid = vec![AcctId(2), AcctId(3), AcctId(4)];
    assert!(verify_multisig(&signers, 2, &valid).is_ok());
    assert_eq!(verify_multisig(&signers, 3, &valid), Err(TicketError::InsufficientSigners));
    assert!(verify_multisig(&signers, 0, &valid).is_ok());
}
