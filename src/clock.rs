//! The clock that stamps new posts with the current date.

use vstd::prelude::*;

verus! {

/// A decimal digit.
pub open spec fn is_digit(c: char) -> bool {
    '0' <= c <= '9'
}

/// Text that ends in a calendar date written `Y-MM-DD`: at least four year
/// digits (a leading sign is allowed before them), then a dash, two month
/// digits, a dash and two day digits.
pub open spec fn is_date_text(s: Seq<char>) -> bool {
    let n = s.len() as int;
    &&& n >= 10
    &&& s[n - 3] == '-'
    &&& s[n - 6] == '-'
    &&& forall|k: int| n - 10 <= k < n && k != n - 3 && k != n - 6 ==> is_digit(#[trigger] s[k])
}

/// Relies on chrono's `From<SystemTime> for DateTime<Utc>`, which handles
/// clocks set before 1970, and its `%Y-%m-%d` formatting: the current UTC
/// calendar date as text. The year is padded to at least four digits (with a
/// sign outside 0..=9999); month and day take two zero-padded digits each.
#[verifier::external_body]
pub(crate) fn current_date() -> (r: String)
    ensures
        is_date_text(r@),
{
    let now = chrono::DateTime::<chrono::Utc>::from(std::time::SystemTime::now());
    now.format("%Y-%m-%d").to_string()
}

} // verus!
