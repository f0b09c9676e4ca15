//! The process-wide singleton state and its administration: the emergency
//! circuit breaker, authority rotation, and the compliance stub.

use vstd::prelude::*;

use crate::AcctId;
use crate::errors::TicketError;

verus! {

/// The process-wide singleton: authorities, the global pause flag and the
/// aggregate counters.
#[derive(Clone, Debug)]
pub struct ProgramState {
    /// May rotate authorities.
    pub authority: AcctId,
    /// May pause and unpause; independent of `authority`.
    pub emergency_authority: AcctId,
    pub paused: bool,
    pub pause_reason: String,
    pub paused_at: Option<i64>,
    pub paused_by: Option<AcctId>,
    pub total_events: u64,
    pub total_tickets: u64,
    pub total_revenue: u64,
}

impl ProgramState {
    /// The state after a successful pause.
    pub open spec fn spec_paused(
        self,
        caller: AcctId,
        reason: String,
        now: i64,
    ) -> ProgramState {
        ProgramState {
            paused: true,
            pause_reason: reason,
            paused_at: Some(now),
            paused_by: Some(caller),
            ..self
        }
    }

    /// `self` is `before` with the pause lifted and its bookkeeping
    /// cleared.
    pub open spec fn unpaused_from(self, before: ProgramState) -> bool {
        &&& self == (ProgramState {
            paused: false,
            pause_reason: self.pause_reason,
            paused_at: None,
            paused_by: None,
            ..before
        })
        &&& self.pause_reason@ == Seq::<char>::empty()
    }
}

/// Halts every mutating lifecycle operation. Only the emergency authority
/// may call; pausing twice is a state conflict, not a no-op.
pub fn emergency_pause(
    ps: &mut ProgramState,
    caller: AcctId,
    reason: String,
    now: i64,
) -> (r: Result<(), TicketError>)
    ensures
        caller != old(ps).emergency_authority ==> r == Err::<(), TicketError>(
            TicketError::Unauthorized,
        ) && *final(ps) == *old(ps),
        caller == old(ps).emergency_authority && old(ps).paused ==> r == Err::<
            (),
            TicketError,
        >(TicketError::AlreadyPaused) && *final(ps) == *old(ps),
        caller == old(ps).emergency_authority && !old(ps).paused ==> r is Ok
            && *final(ps) == old(ps).spec_paused(caller, reason, now),
{
    if caller != ps.emergency_authority {
        return Err(TicketError::Unauthorized);
    }
    if ps.paused {
        return Err(TicketError::AlreadyPaused);
    }
    ps.paused = true;
    ps.pause_reason = reason;
    ps.paused_at = Some(now);
    ps.paused_by = Some(caller);
    Ok(())
}

/// Lifts the circuit breaker. Only the emergency authority may call;
/// unpausing an unpaused program is a state conflict.
pub fn emergency_unpause(ps: &mut ProgramState, caller: AcctId) -> (r: Result<
    (),
    TicketError,
>)
    ensures
        caller != old(ps).emergency_authority ==> r == Err::<(), TicketError>(
            TicketError::Unauthorized,
        ) && *final(ps) == *old(ps),
        caller == old(ps).emergency_authority && !old(ps).paused ==> r == Err::<
            (),
            TicketError,
        >(TicketError::NotPaused) && *final(ps) == *old(ps),
        caller == old(ps).emergency_authority && old(ps).paused ==> r is Ok
            && final(ps).unpaused_from(*old(ps)),
{
    if caller != ps.emergency_authority {
        return Err(TicketError::Unauthorized);
    }
    if !ps.paused {
        return Err(TicketError::NotPaused);
    }
    ps.paused = false;
    ps.pause_reason = String::new();
    ps.paused_at = None;
    ps.paused_by = None;
    Ok(())
}

/// Rotates the general authority. Only the current authority may call.
pub fn update_authorities(
    ps: &mut ProgramState,
    caller: AcctId,
    new_authority: AcctId,
) -> (r: Result<(), TicketError>)
    ensures
        caller != old(ps).authority ==> r == Err::<(), TicketError>(
            TicketError::Unauthorized,
        ) && *final(ps) == *old(ps),
        caller == old(ps).authority ==> r is Ok && *final(ps) == (ProgramState {
            authority: new_authority,
            ..*old(ps)
        }),
{
    if caller != ps.authority {
        return Err(TicketError::Unauthorized);
    }
    ps.authority = new_authority;
    Ok(())
}

/// The compliance stub: a boolean gate configuration, set by its authority
/// and read by collaborators outside this engine.
#[derive(Clone, Copy, Debug)]
pub struct ComplianceConfig {
    pub authority: AcctId,
    pub kyc_required: bool,
    pub whitelist_only: bool,
}

/// Reconfigures the compliance gate. Only its authority may call.
pub fn set_compliance(
    cfg: &mut ComplianceConfig,
    caller: AcctId,
    kyc_required: bool,
    whitelist_only: bool,
) -> (r: Result<(), TicketError>)
    ensures
        caller != old(cfg).authority ==> r == Err::<(), TicketError>(
            TicketError::Unauthorized,
        ) && *final(cfg) == *old(cfg),
        caller == old(cfg).authority ==> r is Ok && *final(cfg) == (ComplianceConfig {
            authority: old(cfg).authority,
            kyc_required,
            whitelist_only,
        }),
{
    if caller != cfg.authority {
        return Err(TicketError::Unauthorized);
    }
    cfg.kyc_required = kyc_required;
    cfg.whitelist_only = whitelist_only;
    Ok(())
}

} // verus!
