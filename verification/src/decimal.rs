//! Canonical decimal rendering of integers: digits `0`-`9`, most significant
//! first, no leading zeros, no separators, and a leading `-` for negatives.

use vstd::prelude::*;
use vstd::string::*;

verus! {

/// The character that writes the digit `d`, for `0 <= d <= 9`.
pub open spec fn digit(d: int) -> char {
    ('0' as int + d) as char
}

/// The decimal numeral of a natural number.
pub open spec fn numeral(n: nat) -> Seq<char>
    decreases n,
{
    if n < 10 {
        seq![digit(n as int)]
    } else {
        numeral(n / 10).push(digit((n % 10) as int))
    }
}

/// The decimal text of an integer.
pub open spec fn decimal(v: int) -> Seq<char> {
    if v < 0 {
        seq!['-'] + numeral((-v) as nat)
    } else {
        numeral(v as nat)
    }
}

/// Appends the numeral of `n` to `text`.
fn append_numeral(text: &mut String, n: u32)
    ensures
        final(text)@ == old(text)@ + numeral(n as nat),
    decreases n,
{
    if n >= 10 {
        append_numeral(text, n / 10);
    }
    let d: usize = (n % 10) as usize;
    proof {
        reveal_strlit("0123456789");
    }
    let glyph = "0123456789".substring_ascii(d, d + 1);
    text.append(glyph);
}

/// The decimal text of `n`.
pub fn to_decimal(n: i32) -> (text: String)
    ensures
        text@ == decimal(n as int),
{
    let mut text = String::new();
    if n < 0 {
        let magnitude: u32 = (0 - n as i64) as u32;
        proof {
            reveal_strlit("-");
        }
        text.append("-");
        append_numeral(&mut text, magnitude);
    } else {
        append_numeral(&mut text, n as u32);
    }
    text
}

} // verus!
