use vstd::prelude::*;
use vstd::string::{StringExecFns, StringSliceAdditionalSpecFns};

verus! {

/// `String::push` of std: appends one character to the end of the string.
#[verifier::external_body]
pub(crate) fn push_char(text: &mut String, c: char)
    ensures
        final(text)@ == old(text)@.push(c),
{
    text.push(c)
}

/// The character of a decimal digit.
pub open spec fn digit_char(digit: nat) -> char {
    (48 + digit) as char
}

/// A number written in decimal digits, without leading zeros.
pub open spec fn decimal_text(number: nat) -> Seq<char>
    decreases number,
{
    if number < 10 {
        seq![digit_char(number)]
    } else {
        decimal_text(number / 10).push(digit_char(number % 10))
    }
}

/// Writes a number in decimal digits
pub fn decimal(number: u64) -> (text: String)
    ensures
        text@ == decimal_text(number as nat),
    decreases number,
{
    if number < 10 {
        let mut text = String::new();
        push_char(&mut text, (48 + number as u8) as char);
        assert(text@ =~= decimal_text(number as nat));
        text
    } else {
        let mut text = decimal(number / 10);
        push_char(&mut text, (48 + (number % 10) as u8) as char);
        text
    }
}

/// Writes `prefix`, then a number in decimal digits
pub fn with_number(prefix: &str, number: u64) -> (text: String)
    ensures
        text@ == prefix@ + decimal_text(number as nat),
{
    let mut text = String::from_str(prefix);
    let digits = decimal(number);
    text.append(digits.as_str());
    text
}

/// Tells whether two strings hold the same text
pub fn str_eq(left: &str, right: &str) -> (equal: bool)
    ensures
        equal == (left@ == right@),
{
    let left_bytes = left.as_bytes();
    let right_bytes = right.as_bytes();
    proof {
        vstd::utf8::encode_utf8_decode_utf8(left@);
        vstd::utf8::encode_utf8_decode_utf8(right@);
    }
    if left_bytes.len() != right_bytes.len() {
        return false;
    }
    let mut i: usize = 0;
    while i < left_bytes.len()
        invariant
            i <= left_bytes@.len(),
            left_bytes@.len() == right_bytes@.len(),
            left_bytes@ == left.spec_bytes(),
            right_bytes@ == right.spec_bytes(),
            vstd::utf8::decode_utf8(left.spec_bytes()) == left@,
            vstd::utf8::decode_utf8(right.spec_bytes()) == right@,
            forall|j: int| 0 <= j < i ==> left_bytes@[j] == right_bytes@[j],
        decreases left_bytes@.len() - i,
    {
        if left_bytes[i] != right_bytes[i] {
            return false;
        }
        i += 1;
    }
    proof {
        assert(left_bytes@ =~= right_bytes@);
    }
    true
}

} // verus!
