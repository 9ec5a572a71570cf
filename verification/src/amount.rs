//! Decimal amounts: a signed mantissa and the number of fractional digits.
//!
//! Parsing and addition are done by `rust_decimal`; this module carries the
//! outcome as plain integers, so that the engine can be stated over them.

use rust_decimal::Decimal;
use std::str::FromStr;
use vstd::prelude::*;

verus! {

/// Number of fractional digits that a ledger balance canonically carries.
pub const LEDGER_BALANCE_SCALE: u32 = 9;

/// The decimal number `mantissa / 10^scale`.
#[derive(Clone, Copy, Debug, PartialEq, Eq, Structural)]
pub struct Amount {
    pub mantissa: i128,
    pub scale: u32,
}

/// What `rust_decimal` reads from a piece of text: mantissa and scale of the
/// decimal, or `None` where the text is rejected.
pub uninterp spec fn decimal_from_str(text: Seq<char>) -> Option<(i128, u32)>;

/// What `rust_decimal` gives for `a + b`, each number written as mantissa and
/// scale: `None` where an operand is not a decimal of that crate or the sum
/// overflows.
pub uninterp spec fn decimal_sum(a: (i128, u32), b: (i128, u32)) -> Option<(i128, u32)>;

/// Zero at the ledger balance scale.
pub open spec fn zero_balance() -> Amount {
    Amount { mantissa: 0, scale: LEDGER_BALANCE_SCALE }
}

/// The amount that a balance text stands for: what the text parses to, and
/// zero at the ledger balance scale where it does not parse.
pub open spec fn balance_of(text: Seq<char>) -> Amount {
    match decimal_from_str(text) {
        Some((mantissa, scale)) => Amount { mantissa, scale },
        None => zero_balance(),
    }
}

/// `a + b` as `rust_decimal` computes it.
pub open spec fn amount_sum(a: Amount, b: Amount) -> Option<Amount> {
    match decimal_sum((a.mantissa, a.scale), (b.mantissa, b.scale)) {
        Some((mantissa, scale)) => Some(Amount { mantissa, scale }),
        None => None,
    }
}

/// Calls `Decimal::from_str` and hands out mantissa and scale of the decimal
/// it returns; an error of that call becomes `None`. Nothing is claimed of the
/// outcome but that it depends on the text alone.
#[verifier::external_body]
fn decimal_parse(text: &str) -> (parsed: Option<(i128, u32)>)
    ensures
        parsed == decimal_from_str(text@),
{
    match Decimal::from_str(text) {
        Ok(d) => Some((d.mantissa(), d.scale())),
        Err(_) => None,
    }
}

/// Calls `Decimal::checked_add` on the decimals that
/// `Decimal::try_from_i128_with_scale` makes of the operands, and hands out
/// mantissa and scale of the sum. An operand that the crate refuses and an
/// overflowing sum become `None`. Nothing is claimed of the outcome but that
/// it depends on the operands alone.
#[verifier::external_body]
fn decimal_add(a: (i128, u32), b: (i128, u32)) -> (sum: Option<(i128, u32)>)
    ensures
        sum == decimal_sum(a, b),
{
    let x = Decimal::try_from_i128_with_scale(a.0, a.1).ok()?;
    let y = Decimal::try_from_i128_with_scale(b.0, b.1).ok()?;
    let z = x.checked_add(y)?;
    Some((z.mantissa(), z.scale()))
}

impl Amount {
    /// Zero at the ledger balance scale.
    pub fn zero() -> (zero: Amount)
        ensures
            zero == zero_balance(),
    {
        Amount { mantissa: 0, scale: LEDGER_BALANCE_SCALE }
    }

    /// Reads a balance. Text that does not parse counts as zero at the ledger
    /// balance scale; it is never an error.
    pub fn parse_balance(text: &str) -> (amount: Amount)
        ensures
            amount == balance_of(text@),
    {
        Self::from_parsed(decimal_parse(text))
    }

    /// Turns the outcome of parsing into a balance: the decimal that was read,
    /// or zero at the ledger balance scale where nothing was.
    pub fn from_parsed(parsed: Option<(i128, u32)>) -> (amount: Amount)
        ensures
            amount == match parsed {
                Some((mantissa, scale)) => (Amount { mantissa, scale }),
                None => zero_balance(),
            },
    {
        match parsed {
            Some((mantissa, scale)) => Amount { mantissa, scale },
            None => Amount::zero(),
        }
    }

    /// Adds two amounts; `None` where the sum cannot be represented.
    pub fn checked_add(self, other: Amount) -> (sum: Option<Amount>)
        ensures
            sum == amount_sum(self, other),
    {
        match decimal_add((self.mantissa, self.scale), (other.mantissa, other.scale)) {
            Some((mantissa, scale)) => Some(Amount { mantissa, scale }),
            None => None,
        }
    }
}

} // verus!
