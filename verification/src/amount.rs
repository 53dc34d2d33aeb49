//! Fixed-point amounts, computed by `rust_decimal`.

use vstd::prelude::*;

verus! {

/// A decimal number held as plain integers: its value is
/// `mantissa / 10^scale`.
#[derive(Clone, Copy, Debug, PartialEq, Eq, Structural)]
pub struct Amount {
    pub mantissa: i128,
    pub scale: u32,
}

/// What `rust_decimal::Decimal::from_str_exact` makes of a text: the mantissa
/// and the scale of the parsed number, or `None` where it rejects the text.
pub uninterp spec fn decimal_from_str_exact(text: Seq<char>) -> Option<(int, nat)>;

/// What `rust_decimal::Decimal::checked_div` makes of two decimals given by
/// mantissa and scale: the mantissa and the scale of the quotient, or `None`
/// where an operand is no decimal of that crate, the divisor is zero or
/// the quotient overflows.
pub uninterp spec fn decimal_checked_div(
    dividend_mantissa: int,
    dividend_scale: nat,
    divisor_mantissa: int,
    divisor_scale: nat,
) -> Option<(int, nat)>;

/// The pair of integers that stands for an amount in contracts.
pub open spec fn amount_parts(a: Option<Amount>) -> Option<(int, nat)> {
    match a {
        Some(a) => Some((a.mantissa as int, a.scale as nat)),
        None => None,
    }
}

/// Calls `rust_decimal::Decimal::from_str_exact`. The parsed number is
/// handed back by its mantissa and scale. Nothing is claimed of which texts
/// the crate accepts, only that the same text always gives the same result.
#[verifier::external_body]
pub(crate) fn parse_decimal(text: &str) -> (r: Option<Amount>)
    ensures
        amount_parts(r) == decimal_from_str_exact(text@),
{
    match rust_decimal::Decimal::from_str_exact(text) {
        Ok(d) => Some(Amount { mantissa: d.mantissa(), scale: d.scale() }),
        Err(_) => None,
    }
}

/// Calls `rust_decimal::Decimal::checked_div` on the decimals that the two
/// amounts stand for. `None` comes back where the crate refuses an operand
/// (a scale above 28, a mantissa beyond 96 bits), where the divisor is zero
/// and where the quotient overflows.
#[verifier::external_body]
pub(crate) fn divide_decimal(dividend: Amount, divisor: Amount) -> (r: Option<Amount>)
    ensures
        amount_parts(r) == decimal_checked_div(
            dividend.mantissa as int,
            dividend.scale as nat,
            divisor.mantissa as int,
            divisor.scale as nat,
        ),
{
    let a = rust_decimal::Decimal::try_from_i128_with_scale(dividend.mantissa, dividend.scale);
    let b = rust_decimal::Decimal::try_from_i128_with_scale(divisor.mantissa, divisor.scale);
    match (a, b) {
        (Ok(a), Ok(b)) => match a.checked_div(b) {
            Some(q) => Some(Amount { mantissa: q.mantissa(), scale: q.scale() }),
            None => None,
        },
        _ => None,
    }
}

} // verus!
