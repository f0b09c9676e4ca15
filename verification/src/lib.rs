//! A verified engine for the lifecycle of event tickets: issuance, transfer,
//! gate validation, compliance holds, refunds and an emergency circuit
//! breaker.
//!
//! The engine is pure: every operation takes the records it touches (program
//! state, event, ticket, grants, balances) together with the caller's
//! identity and the current time, validates all preconditions, and either
//! applies the whole mutation or returns a typed error and changes nothing.
//! Storage, clocks and funds movement live outside the crate; balances are
//! handed in as plain integers.

use vstd::prelude::*;

pub mod admin;
pub mod constants;
pub mod errors;
pub mod event;
pub mod freeze;
pub mod input;
pub mod issuance;
pub mod laws;
pub mod lifecycle;
pub mod math;
pub mod records;
pub mod refund;
pub mod security;
pub mod ticket;
pub mod transfer;
pub mod validation;

verus! {

/// An opaque account identity. The engine never interprets identities; it
/// only compares them against stored authority fields and lists.
#[derive(Clone, Copy, PartialEq, Eq, Structural, Debug, Hash)]
pub struct AcctId(pub u64);

/// Whether a role list holds an identity.
pub fn contains_acct(v: &Vec<AcctId>, x: AcctId) -> (r: bool)
    ensures
        r == v@.contains(x),
{
    let mut i: usize = 0;
    while i < v.len()
        invariant
            i <= v@.len(),
            forall|j: int| 0 <= j < i ==> v@[j] != x,
        decreases v@.len() - i,
    {
        if v[i] == x {
            assert(v@[i as int] == x);
            return true;
        }
        i += 1;
    }
    false
}

/// Whether two fixed-size byte strings (digests, claim codes) hold the
/// same bytes.
pub fn bytes_eq<const N: usize>(a: &[u8; N], b: &[u8; N]) -> (r: bool)
    ensures
        r <==> a@ == b@,
{
    let mut i: usize = 0;
    while i < N
        invariant
            i <= N,
            forall|j: int| 0 <= j < i ==> a@[j] == b@[j],
        decreases N - i,
    {
        if a[i] != b[i] {
            assert(a@[i as int] != b@[i as int]);
            return false;
        }
        i += 1;
    }
    assert(a@ =~= b@);
    true
}

} // verus!
