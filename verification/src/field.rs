//! Elements of the Pallas base field, as far as witnesses need them.
//!
//! A witness only ever holds small numbers, so an element is kept as the
//! `u64` it was made from; the field arithmetic itself is `pasta_curves`'.

use vstd::prelude::*;
use vstd::arithmetic::div_mod::lemma_div_denominator;

verus! {

/// An element of the Pallas base field that is the image of a `u64`.
#[derive(Clone, Copy, Debug, PartialEq, Eq, Structural)]
pub struct FieldElement {
    pub value: u64,
}

/// The lower-case hexadecimal digit for `d` in `0..16`.
pub open spec fn hex_digit(d: int) -> char {
    seq!['0', '1', '2', '3', '4', '5', '6', '7', '8', '9', 'a', 'b', 'c', 'd', 'e', 'f'][d]
}

/// 16 to the power `e`.
pub open spec fn pow16(e: nat) -> nat
    decreases e,
{
    if e == 0 {
        1
    } else {
        16 * pow16((e - 1) as nat)
    }
}

/// The hexadecimal digit of `value` at `place`, place 0 being the least
/// significant.
pub open spec fn digit(value: nat, place: nat) -> int {
    ((value / pow16(place)) % 16) as int
}

/// The canonical text of the field element with integer value `value`:
/// `0x`, then the 64 hexadecimal digits of the 256-bit number, most
/// significant first.
pub open spec fn canonical_text(value: nat) -> Seq<char> {
    seq!['0', 'x'] + Seq::new(64, |i: int| hex_digit(digit(value, (63 - i) as nat)))
}

/// Text of the field element made from `value`, as `pasta_curves` prints it.
///
/// Calls `pasta_curves::Fp::from(u64)` and formats the element with its
/// `Debug` impl. That impl writes `0x` and then the 32 bytes of the element's
/// canonical (non-Montgomery) representation from the most significant to the
/// least, two lower-case hexadecimal digits each. The field's modulus is above
/// 2^254, so the element made from a `u64` has that very number as its
/// canonical value. Trusted, not proved.
#[verifier::external_body]
fn fp_debug_text(value: u64) -> (text: String)
    ensures
        text@ == canonical_text(value as nat),
{
    format!("{:?}", pasta_curves::Fp::from(value))
}

/// Powers of 16 are positive and grow with the exponent.
pub proof fn lemma_pow16_grows(low: nat, high: nat)
    requires
        low <= high,
    ensures
        1 <= pow16(low) <= pow16(high),
    decreases high,
{
    if high > 0 {
        if low < high {
            lemma_pow16_grows(low, (high - 1) as nat);
        } else {
            lemma_pow16_grows((low - 1) as nat, (high - 1) as nat);
        }
    }
}

/// Distinct digit values have distinct digit characters.
pub proof fn lemma_hex_digit_injective(a: int, b: int)
    requires
        0 <= a < 16,
        0 <= b < 16,
        hex_digit(a) == hex_digit(b),
    ensures
        a == b,
{
}

/// Dropping the last digit of a number moves every other digit down by one
/// place.
pub proof fn lemma_digit_shift(value: nat, place: nat)
    ensures
        digit(value / 16, place) == digit(value, place + 1),
{
    lemma_pow16_grows(0, place);
    lemma_div_denominator(value as int, 16, pow16(place) as int);
    assert(pow16(place + 1) == 16 * pow16(place));
}

/// Two numbers below `16^places` with the same digits are the same number.
pub proof fn lemma_digits_identify(a: nat, b: nat, places: nat)
    requires
        a < pow16(places),
        b < pow16(places),
        forall|k: nat| k < places ==> digit(a, k) == digit(b, k),
    ensures
        a == b,
    decreases places,
{
    if places > 0 {
        let fewer = (places - 1) as nat;
        assert(pow16(places) == 16 * pow16(fewer));
        let upper_a = a / 16;
        let upper_b = b / 16;
        assert forall|k: nat| k < fewer implies digit(upper_a, k) == digit(upper_b, k) by {
            lemma_digit_shift(a, k);
            lemma_digit_shift(b, k);
            assert(digit(a, k + 1) == digit(b, k + 1));
        }
        lemma_digits_identify(upper_a, upper_b, fewer);
        assert(digit(a, 0) == digit(b, 0));
        assert(pow16(0) == 1);
    }
}

/// The canonical text is faithful: numbers below `16^64` with the same text
/// are the same number, so the text can be read back into the element.
pub proof fn lemma_canonical_text_injective(a: nat, b: nat)
    requires
        a < pow16(64),
        b < pow16(64),
        canonical_text(a) == canonical_text(b),
    ensures
        a == b,
{
    assert forall|k: nat| k < 64 implies digit(a, k) == digit(b, k) by {
        let i = 63 - k;
        lemma_pow16_grows(0, k);
        assert(canonical_text(a)[2 + i] == hex_digit(digit(a, k)));
        assert(canonical_text(b)[2 + i] == hex_digit(digit(b, k)));
        lemma_hex_digit_injective(digit(a, k), digit(b, k));
    }
    lemma_digits_identify(a, b, 64);
}

/// Field elements with the same text are the same element.
pub proof fn lemma_text_identifies_element(a: FieldElement, b: FieldElement)
    requires
        canonical_text(a@) == canonical_text(b@),
    ensures
        a == b,
{
    reveal_with_fuel(pow16, 17);
    assert(pow16(16) == 0x1_0000_0000_0000_0000);
    lemma_pow16_grows(16, 64);
    lemma_canonical_text_injective(a@, b@);
}

/// The canonical text has 66 characters and starts with `0x`.
pub proof fn lemma_canonical_text_shape(value: nat)
    ensures
        canonical_text(value).len() == 66,
        canonical_text(value)[0] == '0',
        canonical_text(value)[1] == 'x',
{
}

impl View for FieldElement {
    type V = nat;

    open spec fn view(&self) -> nat {
        self.value as nat
    }
}

impl FieldElement {
    /// The field element with integer value `value`.
    pub fn new(value: u64) -> (element: FieldElement)
        ensures
            element@ == value,
    {
        FieldElement { value }
    }

    /// The canonical text of the element: 66 characters, stable and distinct
    /// for distinct elements.
    pub fn text(&self) -> (text: String)
        ensures
            text@ == canonical_text(self@),
    {
        fp_debug_text(self.value)
    }
}

} // verus!
