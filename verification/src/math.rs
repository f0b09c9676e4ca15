//! The arithmetic safety layer: checked add/sub/mul, basis-point
//! percentages, and the surge-pricing multiplier. Nothing here ever wraps
//! silently; an overflow or underflow is reported as an error and aborts the
//! caller's whole operation.

use vstd::prelude::*;

use crate::errors::TicketError;

verus! {

/// Checked addition; overflow is an arithmetic error.
pub fn safe_add(a: u64, b: u64) -> (r: Result<u64, TicketError>)
    ensures
        a + b <= u64::MAX ==> r == Ok::<u64, TicketError>((a + b) as u64),
        a + b > u64::MAX ==> r == Err::<u64, TicketError>(TicketError::MathOverflow),
{
    match a.checked_add(b) {
        Some(v) => Ok(v),
        None => Err(TicketError::MathOverflow),
    }
}

/// Checked subtraction; underflow is an arithmetic error.
pub fn safe_sub(a: u64, b: u64) -> (r: Result<u64, TicketError>)
    ensures
        b <= a ==> r == Ok::<u64, TicketError>((a - b) as u64),
        b > a ==> r == Err::<u64, TicketError>(TicketError::MathUnderflow),
{
    match a.checked_sub(b) {
        Some(v) => Ok(v),
        None => Err(TicketError::MathUnderflow),
    }
}

/// Checked multiplication; overflow is an arithmetic error.
pub fn safe_mul(a: u64, b: u64) -> (r: Result<u64, TicketError>)
    ensures
        a * b <= u64::MAX ==> r == Ok::<u64, TicketError>((a * b) as u64),
        a * b > u64::MAX ==> r == Err::<u64, TicketError>(TicketError::MathOverflow),
{
    match a.checked_mul(b) {
        Some(v) => Ok(v),
        None => Err(TicketError::MathOverflow),
    }
}

/// `amount * basis_points / 10_000`, the share of `amount` that
/// `basis_points` names (100 basis points are one percent). Fails only when
/// the intermediate product overflows.
pub fn calculate_percentage(amount: u64, basis_points: u16) -> (r: Result<
    u64,
    TicketError,
>)
    ensures
        amount * basis_points <= u64::MAX ==> r == Ok::<u64, TicketError>(
            ((amount * basis_points) / 10_000) as u64,
        ),
        amount * basis_points > u64::MAX ==> r == Err::<u64, TicketError>(
            TicketError::MathOverflow,
        ),
{
    let product = safe_mul(amount, basis_points as u64)?;
    Ok(product / 10_000)
}

/// The surge multiplier (in hundredths) for a given utilisation, as exact
/// rational thresholds on `sold / capacity`: below one half the base price
/// holds, and the multiplier steps up at 0.7, 0.8 and 0.9 of capacity. A
/// zero capacity counts as full.
pub open spec fn spec_surge_multiplier(sold: u32, capacity: u32) -> u16 {
    if capacity == 0 {
        200
    } else if 10 * (sold as int) < 5 * (capacity as int) {
        100
    } else if 10 * (sold as int) < 7 * (capacity as int) {
        110
    } else if 10 * (sold as int) < 8 * (capacity as int) {
        125
    } else if 10 * (sold as int) < 9 * (capacity as int) {
        150
    } else {
        200
    }
}

/// The surge-pricing multiplier for an event that has `sold` of `capacity`
/// tickets out, in hundredths of the base price.
pub fn calculate_surge_multiplier(sold: u32, capacity: u32) -> (r: Result<
    u16,
    TicketError,
>)
    ensures
        r == Ok::<u16, TicketError>(spec_surge_multiplier(sold, capacity)),
{
    let s: u64 = (sold as u64) * 10;
    let c: u64 = capacity as u64;
    let m: u16 = if capacity == 0 {
        200
    } else if s < c * 5 {
        100
    } else if s < c * 7 {
        110
    } else if s < c * 8 {
        125
    } else if s < c * 9 {
        150
    } else {
        200
    };
    Ok(m)
}

} // verus!
