//! Fixed-point decimals and the integer arithmetic of `cosmwasm_std` that the
//! contracts rely on.

use vstd::prelude::*;

verus! {

/// The number of atomic units in one whole `Decimal` (18 fractional digits).
pub const DECIMAL_FRACTIONAL: u128 = 1_000_000_000_000_000_000u128;

/// A fixed-point decimal with 18 fractional digits, held by its atomic units:
/// the value is `atomics / 10^18`.
#[derive(Clone, Copy, Debug, PartialEq, Eq)]
pub struct Decimal {
    pub atomics: u128,
}

/// `value * numerator / denominator`, rounded down.
pub open spec fn mul_div_floor(value: int, numerator: int, denominator: int) -> int {
    value * numerator / denominator
}

/// The atomic units of the decimal `numerator / denominator`, rounded down.
pub open spec fn ratio_atomics(numerator: int, denominator: int) -> int {
    mul_div_floor(numerator, DECIMAL_FRACTIONAL as int, denominator)
}

/// `Uint128::multiply_ratio` of `cosmwasm_std`: computes `value * numerator /
/// denominator` in 256 bits and rounds down; it panics on a zero denominator
/// and when the quotient does not fit in 128 bits, which `requires` rules out.
#[verifier::external_body]
pub fn multiply_ratio(value: u128, numerator: u128, denominator: u128) -> (r: u128)
    requires
        denominator > 0,
        mul_div_floor(value as int, numerator as int, denominator as int) <= u128::MAX,
    ensures
        r == mul_div_floor(value as int, numerator as int, denominator as int),
{
    cosmwasm_std::Uint128::new(value).multiply_ratio(numerator, denominator).u128()
}

/// `Decimal::from_ratio` of `cosmwasm_std`: the decimal whose atomic units are
/// `numerator * 10^18 / denominator`, rounded down; it panics on a zero
/// denominator and when the atomics do not fit in 128 bits.
#[verifier::external_body]
pub fn decimal_from_ratio(numerator: u128, denominator: u128) -> (r: Decimal)
    requires
        denominator > 0,
        ratio_atomics(numerator as int, denominator as int) <= u128::MAX,
    ensures
        r.atomics == ratio_atomics(numerator as int, denominator as int),
{
    Decimal { atomics: cosmwasm_std::Decimal::from_ratio(numerator, denominator).atomics().u128() }
}

/// `Uint128 * Decimal` of `cosmwasm_std`: zero when either side is zero, else
/// `value * atomics / 10^18` rounded down (which is also zero then); it panics
/// when the product does not fit in 128 bits.
#[verifier::external_body]
pub fn mul_decimal(value: u128, rate: Decimal) -> (r: u128)
    requires
        mul_div_floor(value as int, rate.atomics as int, DECIMAL_FRACTIONAL as int) <= u128::MAX,
    ensures
        r == mul_div_floor(value as int, rate.atomics as int, DECIMAL_FRACTIONAL as int),
{
    let d = cosmwasm_std::Decimal::new(cosmwasm_std::Uint128::new(rate.atomics));
    (cosmwasm_std::Uint128::new(value) * d).u128()
}

/// The character of a decimal digit.
pub open spec fn digit_char(d: nat) -> char {
    (48 + d) as char
}

/// The decimal representation of a number, without leading zeros.
pub open spec fn decimal_text(n: nat) -> Seq<char>
    decreases n,
{
    if n < 10 {
        seq![digit_char(n)]
    } else {
        decimal_text(n / 10).push(digit_char(n % 10))
    }
}

/// The display text of `Uint128` of `cosmwasm_std`, which writes the number
/// in decimal as `u128` does. Claimed: the text is the decimal representation.
#[verifier::external_body]
pub fn uint128_text(n: u128) -> (r: String)
    ensures
        r@ == decimal_text(n as nat),
{
    cosmwasm_std::Uint128::new(n).to_string()
}

/// A product scaled down by a ratio of at most one is no larger than the value.
pub proof fn lemma_mul_div_le(value: nat, numerator: nat, denominator: nat)
    requires
        0 < denominator,
        numerator <= denominator,
    ensures
        mul_div_floor(value as int, numerator as int, denominator as int) <= value,
        0 <= mul_div_floor(value as int, numerator as int, denominator as int),
{
    assert(value * numerator <= value * denominator) by (nonlinear_arith)
        requires numerator <= denominator;
    assert(value * denominator / denominator == value) by (nonlinear_arith)
        requires 0 < denominator;
    vstd::arithmetic::div_mod::lemma_div_is_ordered(
        (value * numerator) as int,
        (value * denominator) as int,
        denominator as int,
    );
    assert(0 <= value * numerator) by (nonlinear_arith);
    vstd::arithmetic::div_mod::lemma_div_pos_is_pos((value * numerator) as int, denominator as int);
}

} // verus!
