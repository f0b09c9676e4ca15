//! Global constants of the ticket system.

use vstd::prelude::*;

verus! {

/// Longest accepted event name, in characters.
pub const MAX_EVENT_NAME_LEN: usize = 50;

/// Longest accepted venue name, in characters.
pub const MAX_VENUE_NAME_LEN: usize = 50;

/// Longest accepted event description, in characters.
pub const MAX_DESCRIPTION_LEN: usize = 200;

/// Longest accepted refund reason, in characters.
pub const MAX_REFUND_REASON_LEN: usize = 200;

/// Most tickets one batch mint may issue, to bound per-call cost.
pub const MAX_BATCH_SIZE: u32 = 100;

/// Most checkpoint scans a ticket's bounded scan log holds.
pub const MAX_CHECKPOINT_SCANS: usize = 100;

/// The default refund deadline: this many seconds before the event start.
pub const REFUND_WINDOW_SECONDS: i64 = 86400;

/// Refunds below this amount are paid out immediately; larger ones stay
/// pending for a separate processing step.
pub const SMALL_REFUND_THRESHOLD: u64 = 1_000_000;

/// An event created without an end time runs this long.
pub const DEFAULT_EVENT_DURATION: i64 = 86400;

/// Gate scans are accepted this long after the event end.
pub const ENTRY_GRACE_SECONDS: i64 = 3600;

/// Whitelist minting closes this long before the event start.
pub const WHITELIST_CUTOFF_SECONDS: i64 = 86400;

} // verus!
