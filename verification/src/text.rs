//! Text in bytes.

use vstd::prelude::*;
use vstd::utf8::{decode_utf8, valid_utf8};

verus! {

/// `core::str::from_utf8`: the text that the bytes encode in UTF-8, if they
/// do.
#[verifier::external_body]
pub(crate) fn utf8_text(bytes: &[u8]) -> (text: Option<&str>)
    ensures
        match text {
            Some(t) => valid_utf8(bytes@) && t@ == decode_utf8(bytes@),
            None => !valid_utf8(bytes@),
        },
{
    core::str::from_utf8(bytes).ok()
}

/// The text that `String::from_utf8_lossy` makes of bytes.
pub uninterp spec fn lossy_utf8(bytes: Seq<u8>) -> Seq<char>;

/// `String::from_utf8_lossy`: the text that the bytes encode in UTF-8, with a
/// replacement character for each part that is not UTF-8. Which parts those
/// are is left to the name; bytes that are UTF-8 have none.
#[verifier::external_body]
pub(crate) fn lossy_text(bytes: &[u8]) -> (text: String)
    ensures
        text@ == lossy_utf8(bytes@),
        valid_utf8(bytes@) ==> text@ == decode_utf8(bytes@),
{
    String::from_utf8_lossy(bytes).into_owned()
}

/// The text that bytes are shown as: the one that they encode in UTF-8, and
/// otherwise what is left of it.
pub open spec fn shown(bytes: Seq<u8>) -> Seq<char> {
    if valid_utf8(bytes) {
        decode_utf8(bytes)
    } else {
        lossy_utf8(bytes)
    }
}

/// The decimal digits of a number.
pub open spec fn decimal(number: nat) -> Seq<u8>
    decreases number,
{
    if number < 10 {
        seq![(48 + number) as u8]
    } else {
        decimal(number / 10).push((48 + number % 10) as u8)
    }
}

/// The number that decimal digits say.
pub open spec fn number_of(digits: Seq<u8>) -> int
    decreases digits.len(),
{
    if digits.len() == 0 {
        0
    } else {
        10 * number_of(digits.drop_last()) + (digits.last() - 48)
    }
}

/// The decimal digits of a number say that number. They are digits, and the first
/// of them is 0 only where it is the only one.
pub proof fn decimal_is_read_back(number: nat)
    ensures
        number_of(decimal(number)) == number,
        decimal(number).len() > 0,
        forall|i: int| 0 <= i < decimal(number).len() ==> 48 <= #[trigger] decimal(number)[i] <= 57,
        decimal(number).len() > 1 ==> decimal(number)[0] != 48,
    decreases number,
{
    let digits = decimal(number);
    reveal_with_fuel(number_of, 2);
    if number < 10 {
        assert(digits.drop_last() =~= Seq::empty());
    } else {
        decimal_is_read_back(number / 10);
        assert(digits.drop_last() =~= decimal(number / 10));
    }
}

/// Writes a number in decimal.
pub fn decimal_digits(number: u64) -> (digits: Vec<u8>)
    ensures
        digits@ == decimal(number as nat),
    decreases number,
{
    if number < 10 {
        let digits: Vec<u8> = vec![48u8 + number as u8];
        assert(digits@ =~= decimal(number as nat));
        digits
    } else {
        let mut digits = decimal_digits(number / 10);
        digits.push(48u8 + (number % 10) as u8);
        digits
    }
}

/// Appends bytes.
pub(crate) fn append_bytes(target: &mut Vec<u8>, bytes: &[u8])
    ensures
        final(target)@ == old(target)@ + bytes@,
{
    for i in 0..bytes.len()
        invariant
            target@ == old(target)@ + bytes@.take(i as int),
    {
        target.push(bytes[i]);
        assert(bytes@.take(i + 1) =~= bytes@.take(i as int).push(bytes@[i as int]));
    }
    assert(bytes@.take(bytes@.len() as int) =~= bytes@);
}

/// Whether a byte occurs.
pub(crate) fn contains_byte(bytes: &[u8], byte: u8) -> (found: bool)
    ensures
        found <==> bytes@.contains(byte),
{
    for i in 0..bytes.len()
        invariant
            forall|j: int| 0 <= j < i ==> bytes@[j] != byte,
    {
        if bytes[i] == byte {
            return true;
        }
    }
    false
}

} // verus!
