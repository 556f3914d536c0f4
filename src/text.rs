//! Text values written into proxy configuration: endpoints, decimal ports,
//! substring tests.
use vstd::prelude::*;

verus! {

/// The decimal digit character for `d` (`d < 10`).
pub open spec fn digit_char(d: nat) -> char {
    if d == 0 {
        '0'
    } else if d == 1 {
        '1'
    } else if d == 2 {
        '2'
    } else if d == 3 {
        '3'
    } else if d == 4 {
        '4'
    } else if d == 5 {
        '5'
    } else if d == 6 {
        '6'
    } else if d == 7 {
        '7'
    } else if d == 8 {
        '8'
    } else {
        '9'
    }
}

/// Decimal notation of `n`: no sign, no leading zeros.
pub open spec fn decimal(n: nat) -> Seq<char>
    decreases n,
{
    if n < 10 {
        seq![digit_char(n)]
    } else {
        decimal(n / 10).push(digit_char(n % 10))
    }
}

/// `p` occurs in `s` as a contiguous run of characters.
pub open spec fn has_substring(s: Seq<char>, p: Seq<char>) -> bool {
    exists|i: int| 0 <= i && i + p.len() <= s.len() && #[trigger] s.subrange(i, i + p.len()) == p
}

/// The endpoint text `host:port`.
pub open spec fn endpoint(host: Seq<char>, port: int) -> Seq<char> {
    host + ":"@ + decimal(port as nat)
}

/// What `str::to_lowercase` returns for a string.
pub uninterp spec fn lower_of(s: Seq<char>) -> Seq<char>;

/// Relies on `str::to_lowercase`: the result depends on the characters alone.
#[verifier::external_body]
pub(crate) fn lowercase(s: &str) -> (r: String)
    ensures
        r@ == lower_of(s@),
{
    s.to_lowercase()
}

/// Relies on `str::contains` with a `&str` pattern: true exactly when the
/// pattern occurs in `s` as a contiguous run.
#[verifier::external_body]
pub(crate) fn contains(s: &str, p: &str) -> (r: bool)
    ensures
        r == has_substring(s@, p@),
{
    s.contains(p)
}

/// Relies on `i32`'s `ToString` (through `Display`): a non-negative value is
/// written as its decimal digits, without sign or leading zeros.
#[verifier::external_body]
fn decimal_text(n: i32) -> (r: String)
    requires
        0 <= n,
    ensures
        r@ == decimal(n as nat),
{
    n.to_string()
}

/// The endpoint text `host:port`.
pub fn endpoint_text(host: &str, port: i32) -> (r: String)
    requires
        0 <= port,
    ensures
        r@ == endpoint(host@, port as int),
{
    let digits = decimal_text(port);
    let mut r = String::from_str(host);
    r.append(":");
    r.append(digits.as_str());
    r
}

/// `prefix` followed by the endpoint text `host:port`.
pub fn prefixed_endpoint_text(prefix: &str, host: &str, port: i32) -> (r: String)
    requires
        0 <= port,
    ensures
        r@ == prefix@ + endpoint(host@, port as int),
{
    let e = endpoint_text(host, port);
    let mut r = String::from_str(prefix);
    r.append(e.as_str());
    r
}

} // verus!
