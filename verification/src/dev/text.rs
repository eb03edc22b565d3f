//! The pieces that report lines are put together from.
use vstd::prelude::*;
use vstd::string::StrSliceExecFns;
use vstd::string::StringExecFns;

verus! {

/// The digit for a value below sixteen, in lower case; `f` for any other
/// value.
pub open spec fn digit_text(value: nat) -> Seq<char> {
    if value == 0 {
        "0"@
    } else if value == 1 {
        "1"@
    } else if value == 2 {
        "2"@
    } else if value == 3 {
        "3"@
    } else if value == 4 {
        "4"@
    } else if value == 5 {
        "5"@
    } else if value == 6 {
        "6"@
    } else if value == 7 {
        "7"@
    } else if value == 8 {
        "8"@
    } else if value == 9 {
        "9"@
    } else if value == 10 {
        "a"@
    } else if value == 11 {
        "b"@
    } else if value == 12 {
        "c"@
    } else if value == 13 {
        "d"@
    } else if value == 14 {
        "e"@
    } else {
        "f"@
    }
}

/// `value` in decimal, without leading zeros.
pub open spec fn decimal_text(value: nat) -> Seq<char>
    decreases value,
{
    if value < 10 {
        digit_text(value)
    } else {
        decimal_text(value / 10) + digit_text(value % 10)
    }
}

/// `value` as two hexadecimal digits.
pub open spec fn byte_text(value: u8) -> Seq<char> {
    digit_text((value / 16) as nat) + digit_text((value % 16) as nat)
}

/// The bytes as two hexadecimal digits each, with one space between
/// neighbours.
pub open spec fn hex_text(bytes: Seq<u8>) -> Seq<char>
    decreases bytes.len(),
{
    if bytes.len() == 0 {
        Seq::empty()
    } else if bytes.len() == 1 {
        byte_text(bytes[0])
    } else {
        hex_text(bytes.drop_last()) + " "@ + byte_text(bytes.last())
    }
}

/// `count` spaces.
pub open spec fn spaces(count: nat) -> Seq<char>
    decreases count,
{
    if count == 0 {
        Seq::empty()
    } else {
        spaces((count - 1) as nat) + " "@
    }
}

/// `text` with spaces before it, as many as it takes to reach `width`
/// characters. A text that is wide enough stays as it is.
pub open spec fn right_aligned(text: Seq<char>, width: nat) -> Seq<char> {
    if text.len() < width {
        spaces((width - text.len()) as nat) + text
    } else {
        text
    }
}

/// The digit for a value below sixteen; `f` for any other value.
pub fn digit(value: usize) -> (text: &'static str)
    ensures
        text@ == digit_text(value as nat),
{
    if value == 0 {
        "0"
    } else if value == 1 {
        "1"
    } else if value == 2 {
        "2"
    } else if value == 3 {
        "3"
    } else if value == 4 {
        "4"
    } else if value == 5 {
        "5"
    } else if value == 6 {
        "6"
    } else if value == 7 {
        "7"
    } else if value == 8 {
        "8"
    } else if value == 9 {
        "9"
    } else if value == 10 {
        "a"
    } else if value == 11 {
        "b"
    } else if value == 12 {
        "c"
    } else if value == 13 {
        "d"
    } else if value == 14 {
        "e"
    } else {
        "f"
    }
}

/// `value` in decimal.
pub fn decimal(value: usize) -> (text: String)
    ensures
        text@ == decimal_text(value as nat),
    decreases value,
{
    if value < 10 {
        String::from_str(digit(value))
    } else {
        let mut text = decimal(value / 10);
        text.append(digit(value % 10));
        text
    }
}

/// Appends `value` to `text` as two hexadecimal digits.
pub fn append_byte(text: &mut String, value: u8)
    ensures
        final(text)@ == old(text)@ + byte_text(value),
{
    let high: usize = (value / 16) as usize;
    let low: usize = (value % 16) as usize;
    text.append(digit(high));
    text.append(digit(low));
    proof {
        assert(text@ == old(text)@ + byte_text(value));
    }
}

/// `text` moved to the right end of a field of `width` characters.
pub fn align_right(text: String, width: usize) -> (aligned: String)
    ensures
        aligned@ == right_aligned(text@, width as nat),
{
    let length = text.as_str().unicode_len();
    if length >= width {
        return text;
    }
    let mut aligned = String::new();
    let mut count: usize = 0;
    while count < width - length
        invariant
            length < width,
            count <= width - length,
            aligned@ == spaces(count as nat),
        decreases width - length - count,
    {
        aligned.append(" ");
        count = count + 1;
    }
    aligned.append(text.as_str());
    aligned
}

} // verus!
