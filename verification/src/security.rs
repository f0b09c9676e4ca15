//! Security utilities: a fixed-window rate limiter and a multi-signature
//! check.

use vstd::prelude::*;

use crate::AcctId;
use crate::contains_acct;
use crate::errors::TicketError;

verus! {

/// A fixed one-minute-window rate limiter.
#[derive(Clone, Copy, PartialEq, Eq, Structural, Debug)]
pub struct RateLimiter {
    pub window_start: i64,
    pub counter: u32,
    pub max_per_window: u32,
}

impl RateLimiter {
    /// Whether a call at `now` opens a fresh window.
    pub open spec fn spec_window_expired(self, now: i64) -> bool {
        now - self.window_start > 60
    }

    /// The limiter state a call at `now` counts against: reset when the
    /// window has expired, unchanged otherwise.
    pub open spec fn spec_windowed(self, now: i64) -> RateLimiter {
        if self.spec_window_expired(now) {
            RateLimiter { window_start: now, counter: 0, ..self }
        } else {
            self
        }
    }

    /// Counts one call against the window. Opens a fresh window when the
    /// current one has expired; rejects once the window's quota is
    /// reached. A rejected call still keeps the window it opened.
    pub fn check_and_update(&mut self, now: i64) -> (r: Result<(), TicketError>)
        ensures
            old(self).spec_windowed(now).counter >= old(self).max_per_window ==> r
                == Err::<(), TicketError>(TicketError::RateLimitExceeded) && *final(self)
                == old(self).spec_windowed(now),
            old(self).spec_windowed(now).counter < old(self).max_per_window ==> r is Ok
                && *final(self) == (RateLimiter {
                counter: (old(self).spec_windowed(now).counter + 1) as u32,
                ..old(self).spec_windowed(now)
            }),
    {
        let elapsed: i128 = (now as i128) - (self.window_start as i128);
        if elapsed > 60 {
            self.window_start = now;
            self.counter = 0;
        }
        if self.counter >= self.max_per_window {
            return Err(TicketError::RateLimitExceeded);
        }
        self.counter = self.counter + 1;
        Ok(())
    }
}

/// How many of `signers` stand in `valid`, duplicates counted as the
/// caller listed them.
pub open spec fn spec_valid_signer_count(signers: Seq<AcctId>, valid: Seq<AcctId>) -> nat
    decreases signers.len(),
{
    if signers.len() == 0 {
        0
    } else {
        (if valid.contains(signers[0]) {
            1nat
        } else {
            0nat
        }) + spec_valid_signer_count(signers.drop_first(), valid)
    }
}

/// Accepts exactly when at least `required` of the given signers are
/// listed as valid.
pub fn verify_multisig(
    signers: &Vec<AcctId>,
    required: u8,
    valid_signers: &Vec<AcctId>,
) -> (r: Result<(), TicketError>)
    ensures
        r is Ok <==> spec_valid_signer_count(signers@, valid_signers@) >= required,
        r is Err ==> r == Err::<(), TicketError>(TicketError::InsufficientSigners),
{
    let n = signers.len();
    let mut count: usize = 0;
    let mut i: usize = 0;
    proof {
        assert(signers@.skip(0) =~= signers@);
    }
    while i < n
        invariant
            n == signers@.len(),
            i <= n,
            count <= i,
            spec_valid_signer_count(signers@, valid_signers@) == count
                + spec_valid_signer_count(signers@.skip(i as int), valid_signers@),
        decreases n - i,
    {
        proof {
            assert(signers@.skip(i as int)[0] == signers@[i as int]);
            assert(signers@.skip(i as int).drop_first() =~= signers@.skip(i + 1));
        }
        if contains_acct(valid_signers, signers[i]) {
            count = count + 1;
        }
        i = i + 1;
    }
    if count >= required as usize {
        Ok(())
    } else {
        Err(TicketError::InsufficientSigners)
    }
}

} // verus!
