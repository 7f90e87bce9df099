//! Wide text as the spooler stores it: 16-bit units, least significant byte
//! first, ended by a zero unit or by the end of the field that holds it.

use vstd::prelude::*;
use vstd::slice::slice_subrange;
use vstd::string::StringExecFns;

verus! {

/// Bytes taken by one text unit.
pub const TEXT_UNIT_BYTES: usize = 2;

/// The text unit stored at unit position `index` of `bytes`.
pub open spec fn unit_at(bytes: Seq<u8>, index: int) -> u16 {
    (bytes[2 * index] + 256 * bytes[2 * index + 1]) as u16
}

/// The text units stored in `bytes`; a trailing odd byte holds no unit.
pub open spec fn units_of(bytes: Seq<u8>) -> Seq<u16> {
    Seq::new(bytes.len() / 2, |index: int| unit_at(bytes, index))
}

/// `end` is where the text in `units` stops: at the first zero unit, or at
/// the end of `units` if no unit is zero.
pub open spec fn is_text_end(units: Seq<u16>, end: int) -> bool {
    &&& 0 <= end <= units.len()
    &&& forall|i: int| 0 <= i < end ==> units[i] != 0
    &&& end < units.len() ==> units[end] == 0
}

/// The position where the text in `units` stops.
pub open spec fn text_end(units: Seq<u16>) -> int {
    choose|end: int| is_text_end(units, end)
}

/// The units of the text in `units`, without the terminator and what follows
/// it.
pub open spec fn text_units(units: Seq<u16>) -> Seq<u16> {
    units.take(text_end(units))
}

/// The characters that the UTF-16 units `units` encode, or `None` where they
/// are not valid UTF-16.
pub uninterp spec fn utf16_text(units: Seq<u16>) -> Option<Seq<char>>;

/// The text held by a field of wide text: what the units before the
/// terminator decode to, and nothing where they are empty or malformed.
pub open spec fn wide_text(units: Seq<u16>) -> Seq<char> {
    let text = text_units(units);
    if text.len() == 0 {
        Seq::<char>::empty()
    } else {
        match utf16_text(text) {
            Some(chars) => chars,
            None => Seq::<char>::empty(),
        }
    }
}

/// Calls `String::from_utf16` and keeps the string or the fact that there is
/// none. The contract only names the outcome: the decoded characters are
/// whatever the standard library makes of these units, the same for the same
/// units, and an error where it rejects them.
#[verifier::external_body]
fn decode_utf16(units: &[u16]) -> (decoded: Option<String>)
    ensures
        decoded matches Some(text) ==> utf16_text(units@) == Some(text@),
        decoded is None ==> utf16_text(units@) is None,
{
    String::from_utf16(units).ok()
}

/// Finds where the text in `units` stops.
pub fn terminator_index(units: &[u16]) -> (end: usize)
    ensures
        is_text_end(units@, end as int),
        end == text_end(units@),
{
    let mut end: usize = 0;
    while end < units.len() && units[end] != 0
        invariant
            end <= units@.len(),
            forall|i: int| 0 <= i < end ==> units@[i] != 0,
        decreases units@.len() - end,
    {
        end = end + 1;
    }
    end
}

/// Converts a field of wide text to a string. The text stops at the first
/// zero unit, or at the end of the field if it has none. A field whose text
/// is empty or is not valid UTF-16 gives the empty string.
pub fn wchar_t_to_string(units: &[u16]) -> (text: String)
    ensures
        text@ == wide_text(units@),
{
    let end: usize = terminator_index(units);
    if end == 0 {
        return String::new();
    }
    let prefix = slice_subrange(units, 0, end);
    match decode_utf16(prefix) {
        Some(text) => text,
        None => String::new(),
    }
}

/// Reads the text units stored in `bytes`, least significant byte first.
pub fn read_units(bytes: &[u8]) -> (units: Vec<u16>)
    ensures
        units@ == units_of(bytes@),
{
    let len: usize = bytes.len();
    let total: usize = len / 2;
    let mut units: Vec<u16> = Vec::new();
    let mut index: usize = 0;
    while index < total
        invariant
            len == bytes@.len(),
            total == len / 2,
            index <= total,
            units@.len() == index,
            forall|i: int| 0 <= i < index ==> units@[i] == unit_at(bytes@, i),
        decreases total - index,
    {
        let low: u16 = bytes[2 * index] as u16;
        let high: u16 = bytes[2 * index + 1] as u16;
        units.push(low + 256 * high);
        index = index + 1;
    }
    units
}

/// Converts a fixed-width field of wide text, given as bytes, to a string.
pub fn bytes_to_string(bytes: &[u8]) -> (text: String)
    ensures
        text@ == wide_text(units_of(bytes@)),
{
    let units = read_units(bytes);
    wchar_t_to_string(units.as_slice())
}

/// The decimal digit for a value below ten.
pub open spec fn digit_of(value: nat) -> char {
    if value == 0 {
        '0'
    } else if value == 1 {
        '1'
    } else if value == 2 {
        '2'
    } else if value == 3 {
        '3'
    } else if value == 4 {
        '4'
    } else if value == 5 {
        '5'
    } else if value == 6 {
        '6'
    } else if value == 7 {
        '7'
    } else if value == 8 {
        '8'
    } else {
        '9'
    }
}

/// The decimal numeral of `value`, without sign and without leading zeros.
pub open spec fn decimal_text(value: nat) -> Seq<char>
    decreases value,
{
    if value < 10 {
        seq![digit_of(value)]
    } else {
        decimal_text(value / 10).push(digit_of(value % 10))
    }
}

fn digit_str(value: u32) -> (digit: &'static str)
    requires
        value < 10,
    ensures
        digit@ == seq![digit_of(value as nat)],
{
    proof {
        reveal_strlit("0");
        reveal_strlit("1");
        reveal_strlit("2");
        reveal_strlit("3");
        reveal_strlit("4");
        reveal_strlit("5");
        reveal_strlit("6");
        reveal_strlit("7");
        reveal_strlit("8");
        reveal_strlit("9");
    }
    let digit = if value == 0 {
        "0"
    } else if value == 1 {
        "1"
    } else if value == 2 {
        "2"
    } else if value == 3 {
        "3"
    } else if value == 4 {
        "4"
    } else if value == 5 {
        "5"
    } else if value == 6 {
        "6"
    } else if value == 7 {
        "7"
    } else if value == 8 {
        "8"
    } else {
        "9"
    };
    digit
}

/// Writes `value` as a decimal numeral.
pub fn decimal_string(value: u32) -> (text: String)
    ensures
        text@ == decimal_text(value as nat),
    decreases value,
{
    let digit = digit_str(value % 10);
    if value < 10 {
        digit.to_owned()
    } else {
        let text = decimal_string(value / 10).concat(digit);
        text
    }
}

} // verus!
