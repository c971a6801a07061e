use vstd::prelude::*;

verus! {

/// Fixed-point decimal numbers (`rust_decimal::Decimal`), carried through
/// requests as they are.
#[verifier::external_type_specification]
#[verifier::external_body]
pub struct ExDecimal(rust_decimal::Decimal);

/// Whether the sign bit of a decimal is set, as
/// `rust_decimal::Decimal::is_sign_negative` reads it.
pub uninterp spec fn decimal_is_negative(d: rust_decimal::Decimal) -> bool;

/// The decimal `rust_decimal::Decimal::abs` gives for `d`.
pub uninterp spec fn decimal_abs(d: rust_decimal::Decimal) -> rust_decimal::Decimal;

/// `rust_decimal::Decimal::is_sign_positive`: true exactly when the sign
/// bit is clear. The contract states that through the name of the bit and
/// says nothing of the number's magnitude.
#[verifier::external_body]
pub(crate) fn is_sign_positive(d: &rust_decimal::Decimal) -> (b: bool)
    ensures
        b == !decimal_is_negative(*d),
{
    d.is_sign_positive()
}

/// `rust_decimal::Decimal::abs`: the same mantissa and scale with the sign
/// bit cleared. The contract names the result, says its sign bit is clear,
/// and that a decimal whose bit is already clear comes back unchanged.
#[verifier::external_body]
pub(crate) fn abs(d: &rust_decimal::Decimal) -> (r: rust_decimal::Decimal)
    ensures
        r == decimal_abs(*d),
        !decimal_is_negative(r),
        !decimal_is_negative(*d) ==> r == *d,
{
    d.abs()
}

/// The text `Display` writes for a decimal.
pub uninterp spec fn decimal_text(d: rust_decimal::Decimal) -> Seq<char>;

/// The text of a decimal as `Display` writes it (`to_string`): its digits,
/// with a `-` before a negative number and a `.` before the fraction. The
/// contract names the text and states only that it holds no comma.
#[verifier::external_body]
pub(crate) fn decimal_to_string(d: &rust_decimal::Decimal) -> (s: String)
    ensures
        s@ == decimal_text(*d),
        !s@.contains(','),
{
    d.to_string()
}

} // verus!
