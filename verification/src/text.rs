//! Text that messages are made of: numbers in decimal, and names that come
//! as bytes.

use vstd::prelude::*;
use vstd::utf8::{decode_utf8, valid_utf8};

verus! {

/// The character that stands for the digit `value`.
pub open spec fn digit(value: int) -> char {
    if value == 0 {
        '0'
    } else if value == 1 {
        '1'
    } else if value == 2 {
        '2'
    } else if value == 3 {
        '3'
    } else if value == 4 {
        '4'
    } else if value == 5 {
        '5'
    } else if value == 6 {
        '6'
    } else if value == 7 {
        '7'
    } else if value == 8 {
        '8'
    } else {
        '9'
    }
}

/// `value` written in decimal, without leading zeros.
pub open spec fn decimal(value: nat) -> Seq<char>
    decreases value,
{
    if value < 10 {
        seq![digit(value as int)]
    } else {
        decimal(value / 10).push(digit((value % 10) as int))
    }
}

fn digit_text(value: usize) -> (text: &'static str)
    requires
        value < 10,
    ensures
        text@ == seq![digit(value as int)],
{
    proof {
        reveal_strlit("0");
        reveal_strlit("1");
        reveal_strlit("2");
        reveal_strlit("3");
        reveal_strlit("4");
        reveal_strlit("5");
        reveal_strlit("6");
        reveal_strlit("7");
        reveal_strlit("8");
        reveal_strlit("9");
    }
    let text = match value {
        0 => "0",
        1 => "1",
        2 => "2",
        3 => "3",
        4 => "4",
        5 => "5",
        6 => "6",
        7 => "7",
        8 => "8",
        _ => "9",
    };
    assert(text@ =~= seq![digit(value as int)]);
    text
}

/// Writes `value` in decimal.
pub fn decimal_string(value: usize) -> (text: String)
    ensures
        text@ == decimal(value as nat),
    decreases value,
{
    if value < 10 {
        String::from_str(digit_text(value))
    } else {
        let mut text = decimal_string(value / 10);
        text.append(digit_text(value % 10));
        assert(text@ =~= decimal(value as nat));
        text
    }
}

/// Whether `position` is where the first zero byte of `bytes` stands.
pub open spec fn is_first_nul(bytes: Seq<u8>, position: int) -> bool {
    &&& 0 <= position < bytes.len()
    &&& bytes[position] == 0
    &&& forall|i: int| 0 <= i < position ==> bytes[i] != 0
}

/// Whether no byte of `bytes` is zero.
pub open spec fn nul_free(bytes: Seq<u8>) -> bool {
    forall|i: int| 0 <= i < bytes.len() ==> bytes[i] != 0
}

/// Where the first zero byte of `bytes` stands, if there is one.
pub open spec fn first_nul(bytes: Seq<u8>) -> Option<int> {
    if exists|position: int| is_first_nul(bytes, position) {
        Some(choose|position: int| is_first_nul(bytes, position))
    } else {
        None
    }
}

/// The first zero byte stands in one place only.
pub proof fn lemma_first_nul(bytes: Seq<u8>, position: int)
    requires
        is_first_nul(bytes, position),
    ensures
        first_nul(bytes) == Some(position),
{
    let chosen = choose|position: int| is_first_nul(bytes, position);
    if chosen < position {
        assert(bytes[chosen] != 0);
    } else if position < chosen {
        assert(bytes[position] != 0);
    }
}

/// Bytes without a zero byte have no first one.
pub proof fn lemma_nul_free(bytes: Seq<u8>)
    requires
        nul_free(bytes),
    ensures
        first_nul(bytes) is None,
{
}

/// Looks for the first zero byte of `bytes`.
pub fn find_nul(bytes: &[u8]) -> (found: Option<usize>)
    ensures
        found matches Some(position) ==> first_nul(bytes@) == Some(position as int),
        found is None ==> first_nul(bytes@) is None && nul_free(bytes@),
{
    let mut index: usize = 0;
    while index < bytes.len()
        invariant
            index <= bytes.len(),
            forall|i: int| 0 <= i < index ==> bytes@[i] != 0,
        decreases bytes.len() - index,
    {
        if bytes[index] == 0 {
            proof {
                lemma_first_nul(bytes@, index as int);
            }
            return Some(index);
        }
        index = index + 1;
    }
    None
}

/// The text that `String::from_utf8_lossy` makes of `bytes`.
pub uninterp spec fn lossy_text(bytes: Seq<u8>) -> Seq<char>;

/// The text that a name given as bytes is shown as: the text that the bytes
/// encode, or, where they encode none, what a lossy conversion makes of
/// them.
pub open spec fn shown(bytes: Seq<u8>) -> Seq<char> {
    if valid_utf8(bytes) {
        decode_utf8(bytes)
    } else {
        lossy_text(bytes)
    }
}

/// Calls `String::from_utf8_lossy`. Unproved: the result is the text named
/// `lossy_text`, and for bytes that are valid UTF-8 it is the text that they
/// encode, as the function's documentation says.
#[verifier::external_body]
pub(crate) fn from_utf8_lossy(bytes: &[u8]) -> (text: String)
    ensures
        text@ == lossy_text(bytes@),
        valid_utf8(bytes@) ==> text@ == decode_utf8(bytes@),
{
    String::from_utf8_lossy(bytes).into_owned()
}

} // verus!
