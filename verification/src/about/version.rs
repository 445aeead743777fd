//! Reading the numbers of a semantic version.

use vstd::prelude::*;
use vstd::string::StringSliceAdditionalSpecFns;

verus! {

/// Whether `byte` is the ASCII code of a decimal digit.
pub open spec fn is_digit(byte: u8) -> bool {
    0x30 <= byte <= 0x39
}

/// The number that the ASCII digits `digits` denote in base ten, most
/// significant digit first. The empty sequence denotes zero.
pub open spec fn decimal_value(digits: Seq<u8>) -> nat
    decreases digits.len(),
{
    if digits.len() == 0 {
        0
    } else {
        decimal_value(digits.drop_last()) * 10 + (digits.last() - 0x30) as nat
    }
}

/// A number is at least as large as the number that any prefix of its digits
/// denotes.
pub proof fn lemma_prefix_value(digits: Seq<u8>, len: int)
    requires
        0 <= len <= digits.len(),
        forall|i: int| 0 <= i < digits.len() ==> is_digit(#[trigger] digits[i]),
    ensures
        decimal_value(digits.take(len)) <= decimal_value(digits),
    decreases digits.len() - len,
{
    if len == digits.len() {
        assert(digits.take(len) =~= digits);
    } else {
        lemma_prefix_value(digits, len + 1);
        let longer = digits.take(len + 1);
        assert(longer.drop_last() =~= digits.take(len));
        assert(is_digit(digits[len]));
        assert(longer.last() == digits[len]);
    }
}

/// Parses a non-empty string of decimal digits whose value fits in 128 bits.
pub fn const_parse_to_u128(string: &str) -> (value: u128)
    requires
        string.spec_bytes().len() > 0,
        forall|i: int| 0 <= i < string.spec_bytes().len() ==> is_digit(#[trigger] string.spec_bytes()[i]),
        decimal_value(string.spec_bytes()) <= u128::MAX,
    ensures
        value == decimal_value(string.spec_bytes()),
{
    let string_bytes = string.as_bytes();
    let mut result: u128 = 0;
    let mut i: usize = 0;
    assert(string_bytes@.take(0) =~= Seq::<u8>::empty());
    while i < string_bytes.len()
        invariant
            i <= string_bytes@.len(),
            string_bytes@ == string.spec_bytes(),
            forall|j: int| 0 <= j < string_bytes@.len() ==> is_digit(#[trigger] string_bytes@[j]),
            decimal_value(string_bytes@) <= u128::MAX,
            result == decimal_value(string_bytes@.take(i as int)),
        decreases string_bytes@.len() - i,
    {
        let u8_character: u8 = string_bytes[i];
        let digit: u8 = u8_character - 0x30;
        proof {
            let longer = string_bytes@.take(i + 1);
            assert(longer.drop_last() =~= string_bytes@.take(i as int));
            assert(longer.last() == u8_character);
            lemma_prefix_value(string_bytes@, i + 1);
        }
        result = result * 10 + digit as u128;
        i += 1;
    }
    assert(string_bytes@.take(i as int) =~= string_bytes@);
    result
}

} // verus!
