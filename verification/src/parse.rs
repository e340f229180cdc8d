//! Decimal integers written as text.
use vstd::prelude::*;

verus! {

/// Whether `c` is one of the ASCII digits `0`..`9`.
pub open spec fn is_digit(c: char) -> bool {
    '0' <= c && c <= '9'
}

/// The value of a string of ASCII digits, most significant first.
pub open spec fn digits_value(s: Seq<char>) -> int
    decreases s.len(),
{
    if s.len() == 0 {
        0
    } else {
        digits_value(s.drop_last()) * 10 + (s.last() as int - '0' as int)
    }
}

/// The digits of `s` once an optional leading sign is taken off.
pub open spec fn unsigned_part(s: Seq<char>) -> Seq<char> {
    if s.len() > 0 && (s[0] == '-' || s[0] == '+') {
        s.drop_first()
    } else {
        s
    }
}

/// The value that the text `s` denotes as a decimal `i64`: an optional `+`
/// or `-` followed by at least one ASCII digit and nothing else, within the
/// range of `i64`; `None` for any other text.
pub open spec fn decimal_i64(s: Seq<char>) -> Option<int> {
    let body = unsigned_part(s);
    let magnitude = digits_value(body);
    let value = if s.len() > 0 && s[0] == '-' { -magnitude } else { magnitude };
    if body.len() > 0 && (forall|i: int| 0 <= i < body.len() ==> is_digit(#[trigger] body[i]))
        && i64::MIN <= value <= i64::MAX {
        Some(value)
    } else {
        None
    }
}

/// Reads `s` as a decimal `i64` with std's `str::parse::<i64>`.
///
/// Trusted: std documents that the text must be an optional `+` or `-` sign
/// followed by only digits, and that any other text, and a value out of the
/// range of `i64`, is an error; the contract states exactly that.
#[verifier::external_body]
pub(crate) fn parse_i64(s: &str) -> (r: Option<i64>)
    ensures
        r is Some <==> decimal_i64(s@) is Some,
        r is Some ==> r->0 as int == decimal_i64(s@)->0,
{
    s.parse::<i64>().ok()
}

} // verus!
