//! Decimal and hexadecimal renderings of numbers, for the texts of errors.

use vstd::prelude::*;
use vstd::string::StringExecFns;

verus! {

/// The text of one decimal digit.
pub open spec fn digit_text(d: int) -> Seq<char> {
    if d == 0 {
        "0"@
    } else if d == 1 {
        "1"@
    } else if d == 2 {
        "2"@
    } else if d == 3 {
        "3"@
    } else if d == 4 {
        "4"@
    } else if d == 5 {
        "5"@
    } else if d == 6 {
        "6"@
    } else if d == 7 {
        "7"@
    } else if d == 8 {
        "8"@
    } else {
        "9"@
    }
}

/// The text of one hexadecimal digit, in capitals.
pub open spec fn hex_digit_text(d: int) -> Seq<char> {
    if d < 10 {
        digit_text(d)
    } else if d == 10 {
        "A"@
    } else if d == 11 {
        "B"@
    } else if d == 12 {
        "C"@
    } else if d == 13 {
        "D"@
    } else if d == 14 {
        "E"@
    } else {
        "F"@
    }
}

/// The decimal text of `n`, without leading zeros.
pub open spec fn decimal_text(n: nat) -> Seq<char>
    decreases n,
{
    if n < 10 {
        digit_text(n as int)
    } else {
        decimal_text(n / 10) + digit_text((n % 10) as int)
    }
}

/// The two-digit hexadecimal text of a byte, in capitals.
pub open spec fn hex_byte_text(b: u8) -> Seq<char> {
    hex_digit_text((b / 16) as int) + hex_digit_text((b % 16) as int)
}

fn digit_str(d: u64) -> (s: &'static str)
    requires
        d < 10,
    ensures
        s@ == digit_text(d as int),
{
    if d == 0 {
        "0"
    } else if d == 1 {
        "1"
    } else if d == 2 {
        "2"
    } else if d == 3 {
        "3"
    } else if d == 4 {
        "4"
    } else if d == 5 {
        "5"
    } else if d == 6 {
        "6"
    } else if d == 7 {
        "7"
    } else if d == 8 {
        "8"
    } else {
        "9"
    }
}

fn hex_digit_str(d: u8) -> (s: &'static str)
    requires
        d < 16,
    ensures
        s@ == hex_digit_text(d as int),
{
    if d < 10 {
        digit_str(d as u64)
    } else if d == 10 {
        "A"
    } else if d == 11 {
        "B"
    } else if d == 12 {
        "C"
    } else if d == 13 {
        "D"
    } else if d == 14 {
        "E"
    } else {
        "F"
    }
}

/// The decimal text of `n`.
pub fn decimal_string(n: u64) -> (s: String)
    ensures
        s@ == decimal_text(n as nat),
    decreases n,
{
    if n < 10 {
        return String::from_str(digit_str(n));
    }
    let mut s = decimal_string(n / 10);
    s.append(digit_str(n % 10));
    s
}

/// The two-digit hexadecimal text of a byte, in capitals.
pub fn hex_byte_string(b: u8) -> (s: String)
    ensures
        s@ == hex_byte_text(b),
{
    let s = String::from_str(hex_digit_str(b / 16));
    s.concat(hex_digit_str(b % 16))
}

/// `prefix` followed by `tail`.
pub fn joined(prefix: &str, tail: &str) -> (s: String)
    ensures
        s@ == prefix@ + tail@,
{
    String::from_str(prefix).concat(tail)
}


/// The eight-digit hexadecimal text of a 32-bit number, in capitals.
pub open spec fn hex_word_text(v: u32) -> Seq<char> {
    hex_byte_text((v / 0x100_0000) as u8) + hex_byte_text((v / 0x1_0000 % 0x100) as u8) + hex_byte_text(
        (v / 0x100 % 0x100) as u8,
    ) + hex_byte_text((v % 0x100) as u8)
}

/// The items of `s`, each as two hexadecimal digits, separated by ", ".
pub open spec fn hex_items_text(s: Seq<u8>) -> Seq<char>
    decreases s.len(),
{
    if s.len() == 0 {
        Seq::empty()
    } else if s.len() == 1 {
        hex_byte_text(s[0])
    } else {
        hex_items_text(s.drop_last()) + ", "@ + hex_byte_text(s.last())
    }
}

/// A byte list in brackets, each byte as two hexadecimal digits.
pub open spec fn hex_list_text(s: Seq<u8>) -> Seq<char> {
    "["@ + hex_items_text(s) + "]"@
}

/// The items of `s` in decimal, separated by ", ".
pub open spec fn decimal_items_text(s: Seq<u32>) -> Seq<char>
    decreases s.len(),
{
    if s.len() == 0 {
        Seq::empty()
    } else if s.len() == 1 {
        decimal_text(s[0] as nat)
    } else {
        decimal_items_text(s.drop_last()) + ", "@ + decimal_text(s.last() as nat)
    }
}

/// A list of numbers in brackets, in decimal.
pub open spec fn decimal_list_text(s: Seq<u32>) -> Seq<char> {
    "["@ + decimal_items_text(s) + "]"@
}

/// The eight-digit hexadecimal text of a 32-bit number, in capitals.
pub fn hex_word_string(v: u32) -> (s: String)
    ensures
        s@ == hex_word_text(v),
{
    let mut s = hex_byte_string((v / 0x100_0000) as u8);
    let b = hex_byte_string((v / 0x1_0000 % 0x100) as u8);
    s.append(b.as_str());
    let c = hex_byte_string((v / 0x100 % 0x100) as u8);
    s.append(c.as_str());
    let d = hex_byte_string((v % 0x100) as u8);
    s.append(d.as_str());
    s
}

/// A byte list in brackets, each byte as two hexadecimal digits.
pub fn hex_list_string(v: &Vec<u8>) -> (s: String)
    ensures
        s@ == hex_list_text(v@),
{
    let mut s = String::from_str("[");
    let mut i: usize = 0;
    while i < v.len()
        invariant
            i <= v@.len(),
            s@ == "["@ + hex_items_text(v@.take(i as int)),
        decreases v@.len() - i,
    {
        assert(v@.take(i as int + 1).drop_last() =~= v@.take(i as int));
        if i > 0 {
            s.append(", ");
        }
        let h = hex_byte_string(v[i]);
        s.append(h.as_str());
        i += 1;
        assert(s@ =~= "["@ + hex_items_text(v@.take(i as int)));
    }
    assert(v@.take(i as int) =~= v@);
    s.append("]");
    s
}

/// A list of numbers in brackets, in decimal.
pub fn decimal_list_string(v: &Vec<u32>) -> (s: String)
    ensures
        s@ == decimal_list_text(v@),
{
    let mut s = String::from_str("[");
    let mut i: usize = 0;
    while i < v.len()
        invariant
            i <= v@.len(),
            s@ == "["@ + decimal_items_text(v@.take(i as int)),
        decreases v@.len() - i,
    {
        assert(v@.take(i as int + 1).drop_last() =~= v@.take(i as int));
        if i > 0 {
            s.append(", ");
        }
        let h = decimal_string(v[i] as u64);
        s.append(h.as_str());
        i += 1;
        assert(s@ =~= "["@ + decimal_items_text(v@.take(i as int)));
    }
    assert(v@.take(i as int) =~= v@);
    s.append("]");
    s
}
} // verus!
