use vstd::prelude::*;

verus! {

/// How many tabs the pool holds when the setting is absent.
pub const DEFAULT_TAB_POOL_SIZE: usize = 10;

/// Whether every character of `s` is an ASCII digit.
pub open spec fn all_digits(s: Seq<char>) -> bool {
    forall|i: int| 0 <= i < s.len() ==> '0' <= #[trigger] s[i] <= '9'
}

/// The number that the decimal digits `s` write.
pub open spec fn digits_value(s: Seq<char>) -> int
    decreases s.len(),
{
    if s.len() == 0 {
        0
    } else {
        digits_value(s.drop_last()) * 10 + (s.last() as int - '0' as int)
    }
}

/// How `usize` reads `s`: an optional `+` then one or more decimal digits,
/// whose value must fit.
pub open spec fn decimal_usize(s: Seq<char>) -> Option<usize> {
    let d = if s.len() > 0 && s[0] == '+' { s.drop_first() } else { s };
    if d.len() > 0 && all_digits(d) && digits_value(d) <= usize::MAX {
        Some(digits_value(d) as usize)
    } else {
        None
    }
}

/// Relies on `str::parse::<usize>`, which takes an optional `+` followed by
/// decimal digits, and fails on anything else or on a value that overflows.
#[verifier::external_body]
fn parse_usize(s: &str) -> (r: Option<usize>)
    ensures
        r == decimal_usize(s@),
{
    s.parse::<usize>().ok()
}

/// The tab pool's size from its setting: the default when there is none, the
/// number the setting writes, or `None` when it writes no number.
pub fn tab_pool_size(setting: Option<&str>) -> (r: Option<usize>)
    ensures
        setting is None ==> r == Some(DEFAULT_TAB_POOL_SIZE),
        setting matches Some(s) ==> r == decimal_usize(s@),
{
    match setting {
        Some(s) => parse_usize(s),
        None => Some(DEFAULT_TAB_POOL_SIZE),
    }
}

} // verus!
