use crate::account::AccountSummary;
use crate::amount::Amount;
use crate::text::{spec_uint_text, u32_text};
use vstd::prelude::*;
use vstd::string::StringExecFns;

verus! {

/// What the decimal library prints for a coefficient and a scale after
/// rounding to four fractional digits; the text depends on those two values
/// alone.
pub uninterp spec fn dec_display_rounded(mantissa: int, scale: int) -> Seq<char>;

/// Renders an amount for the report: rounded to four fractional digits, with
/// at least one digit before the point and no padding beyond the rounding.
///
/// Relies on rust_decimal's `round_dp` (four fractional digits, midpoint to
/// even) followed by its `Display`; both depend on the coefficient and the
/// scale alone.
#[verifier::external_body]
pub fn decimal_field(a: &Amount) -> (r: String)
    requires
        a.inv(),
    ensures
        r@ == dec_display_rounded(a.mantissa as int, a.scale as int),
{
    rust_decimal::Decimal::from_i128_with_scale(a.mantissa, a.scale).round_dp(4).to_string()
}

/// Renders a client id as plain decimal digits.
pub fn client_field(id: u16) -> (r: String)
    ensures
        r@ == spec_uint_text(id as int),
{
    u32_text(id as u32)
}

/// Renders a lock flag as the literal `true` or `false`.
pub fn bool_field(v: bool) -> (r: String)
    ensures
        v ==> r@ == "true"@,
        !v ==> r@ == "false"@,
{
    if v {
        String::from_str("true")
    } else {
        String::from_str("false")
    }
}

/// The header row of the report: the five column names.
pub fn header_fields() -> (r: Vec<String>)
    ensures
        r@.len() == 5,
        r@[0]@ == "client"@,
        r@[1]@ == "available"@,
        r@[2]@ == "held"@,
        r@[3]@ == "total"@,
        r@[4]@ == "locked"@,
{
    let mut out: Vec<String> = Vec::new();
    out.push(String::from_str("client"));
    out.push(String::from_str("available"));
    out.push(String::from_str("held"));
    out.push(String::from_str("total"));
    out.push(String::from_str("locked"));
    out
}

/// One account's report row: id, the three rounded balances, and the lock
/// flag, in the report's column order.
pub fn summary_fields(s: &AccountSummary) -> (r: Vec<String>)
    requires
        s.available.inv(),
        s.held.inv(),
        s.total.inv(),
    ensures
        r@.len() == 5,
        r@[0]@ == spec_uint_text(s.id as int),
        r@[1]@ == dec_display_rounded(s.available.mantissa as int, s.available.scale as int),
        r@[2]@ == dec_display_rounded(s.held.mantissa as int, s.held.scale as int),
        r@[3]@ == dec_display_rounded(s.total.mantissa as int, s.total.scale as int),
        s.is_locked ==> r@[4]@ == "true"@,
        !s.is_locked ==> r@[4]@ == "false"@,
{
    let mut out: Vec<String> = Vec::new();
    out.push(client_field(s.id));
    out.push(decimal_field(&s.available));
    out.push(decimal_field(&s.held));
    out.push(decimal_field(&s.total));
    out.push(bool_field(s.is_locked));
    out
}

} // verus!
