//! Input validation for caller-supplied text, prices and dates.

use vstd::prelude::*;

use crate::constants::MAX_EVENT_NAME_LEN;
use crate::errors::TicketError;

verus! {

/// Whether `c` counts as alphanumeric under Unicode. Named, not spelled
/// out: the Unicode tables are the definition.
pub uninterp spec fn unicode_alphanumeric(c: char) -> bool;

/// Whether `c` has the Unicode white-space property.
pub uninterp spec fn unicode_whitespace(c: char) -> bool;

/// Relies on char::is_alphanumeric: true exactly for characters in the
/// Unicode Alphabetic or Number classes, a property of the character alone.
#[verifier::external_body]
fn char_is_alphanumeric(c: char) -> (r: bool)
    ensures
        r == unicode_alphanumeric(c),
{
    c.is_alphanumeric()
}

/// Relies on char::is_whitespace: true exactly for characters with the
/// Unicode White_Space property, a property of the character alone.
#[verifier::external_body]
fn char_is_whitespace(c: char) -> (r: bool)
    ensures
        r == unicode_whitespace(c),
{
    c.is_whitespace()
}

/// The punctuation accepted in event names besides letters, digits and
/// white space.
pub open spec fn spec_allowed_punctuation(c: char) -> bool {
    ||| c == '!'
    ||| c == '@'
    ||| c == '#'
    ||| c == '$'
    ||| c == '%'
    ||| c == '^'
    ||| c == '&'
    ||| c == '*'
    ||| c == '('
    ||| c == ')'
    ||| c == '-'
    ||| c == '_'
    ||| c == '='
    ||| c == '+'
}

fn allowed_punctuation(c: char) -> (r: bool)
    ensures
        r == spec_allowed_punctuation(c),
{
    c == '!' || c == '@' || c == '#' || c == '$' || c == '%' || c == '^' || c == '&'
        || c == '*' || c == '(' || c == ')' || c == '-' || c == '_' || c == '='
        || c == '+'
}

/// A character an event name may hold.
pub open spec fn spec_valid_name_char(c: char) -> bool {
    unicode_alphanumeric(c) || unicode_whitespace(c) || spec_allowed_punctuation(c)
}

/// A well-formed event name: non-empty, within the length bound, and made
/// of accepted characters only.
pub open spec fn spec_valid_event_name(s: Seq<char>) -> bool {
    &&& 0 < s.len() <= MAX_EVENT_NAME_LEN
    &&& forall|i: int| 0 <= i < s.len() ==> spec_valid_name_char(#[trigger] s[i])
}

/// The first bound a name breaks, `None` for a well-formed one: the length
/// cap, then emptiness, then the character set.
pub open spec fn spec_name_error(s: Seq<char>) -> Option<TicketError> {
    if s.len() > MAX_EVENT_NAME_LEN {
        Some(TicketError::EventNameTooLong)
    } else if s.len() == 0 {
        Some(TicketError::EventNameEmpty)
    } else if exists|i: int| 0 <= i < s.len() && !spec_valid_name_char(#[trigger] s[i]) {
        Some(TicketError::InvalidCharacters)
    } else {
        None
    }
}

/// Accepts exactly the well-formed event names, reporting the first bound
/// the input breaks.
pub fn validate_event_name(name: &str) -> (r: Result<(), TicketError>)
    ensures
        r is Ok <==> spec_valid_event_name(name@),
        r is Ok <==> spec_name_error(name@) is None,
        r is Err ==> r->Err_0 == spec_name_error(name@)->Some_0,
{
    let len = name.unicode_len();
    if len > MAX_EVENT_NAME_LEN {
        return Err(TicketError::EventNameTooLong);
    }
    if len == 0 {
        return Err(TicketError::EventNameEmpty);
    }
    let mut i: usize = 0;
    while i < len
        invariant
            len == name@.len(),
            0 < len <= MAX_EVENT_NAME_LEN,
            i <= len,
            forall|j: int| 0 <= j < i ==> spec_valid_name_char(#[trigger] name@[j]),
        decreases len - i,
    {
        let c = name.get_char(i);
        if !(char_is_alphanumeric(c) || char_is_whitespace(c) || allowed_punctuation(c)) {
            assert(!spec_valid_name_char(name@[i as int]));
            return Err(TicketError::InvalidCharacters);
        }
        i += 1;
    }
    Ok(())
}

/// Accepts a price exactly when it lies within `[min, max]`.
pub fn validate_price_range(price: u64, min: u64, max: u64) -> (r: Result<
    (),
    TicketError,
>)
    ensures
        r is Ok <==> min <= price <= max,
        r is Err ==> r == Err::<(), TicketError>(TicketError::PriceOutOfRange),
{
    if price >= min && price <= max {
        Ok(())
    } else {
        Err(TicketError::PriceOutOfRange)
    }
}

/// Accepts a date range exactly when it starts strictly in the future and
/// ends strictly after it starts.
pub fn validate_date_range(start: i64, end: i64, now: i64) -> (r: Result<
    (),
    TicketError,
>)
    ensures
        r is Ok <==> start > now && end > start,
        start <= now ==> r == Err::<(), TicketError>(TicketError::EventInPast),
        start > now && end <= start ==> r == Err::<(), TicketError>(
            TicketError::InvalidDateRange,
        ),
{
    if start <= now {
        return Err(TicketError::EventInPast);
    }
    if end <= start {
        return Err(TicketError::InvalidDateRange);
    }
    Ok(())
}

} // verus!
