//! Small verified helpers for building and comparing text.
use vstd::prelude::*;
use vstd::string::StrSliceExecFns;
use vstd::string::StringExecFns;

verus! {

/// Relies on char's std ToString: the rendering of a single character is that
/// character alone.
#[verifier::external_body]
pub fn char_to_string(c: char) -> (s: String)
    ensures
        s@ == seq![c],
{
    c.to_string()
}

/// Character-for-character equality of two string slices.
pub fn str_eq(a: &str, b: &str) -> (r: bool)
    ensures
        r == (a@ == b@),
{
    let na = a.unicode_len();
    let nb = b.unicode_len();
    if na != nb {
        proof {
            assert(a@ != b@) by {
                assert(a@.len() != b@.len());
            }
        }
        return false;
    }
    let mut i: usize = 0;
    while i < na
        invariant
            na == a@.len(),
            na == b@.len(),
            i <= na,
            forall|j: int| 0 <= j < i ==> a@[j] == b@[j],
        decreases na - i,
    {
        if a.get_char(i) != b.get_char(i) {
            return false;
        }
        i += 1;
    }
    proof {
        assert(a@ =~= b@);
    }
    true
}

/// The decimal digit character for a value below ten.
pub open spec fn digit_char(d: int) -> char {
    if d == 0 { '0' }
    else if d == 1 { '1' }
    else if d == 2 { '2' }
    else if d == 3 { '3' }
    else if d == 4 { '4' }
    else if d == 5 { '5' }
    else if d == 6 { '6' }
    else if d == 7 { '7' }
    else if d == 8 { '8' }
    else { '9' }
}

/// The usual decimal rendering of a natural number, most significant digit
/// first, with no leading zeroes (a lone zero for zero).
pub open spec fn dec_digits(n: int) -> Seq<char>
    decreases n,
{
    if n < 10 {
        seq![digit_char(n)]
    } else {
        dec_digits(n / 10).push(digit_char(n % 10))
    }
}

fn digit_char_exec(d: u64) -> (c: char)
    requires
        d < 10,
    ensures
        c == digit_char(d as int),
{
    match d {
        0 => '0',
        1 => '1',
        2 => '2',
        3 => '3',
        4 => '4',
        5 => '5',
        6 => '6',
        7 => '7',
        8 => '8',
        _ => '9',
    }
}

/// Decimal rendering of a `u64`.
pub fn dec_u64(n: u64) -> (s: String)
    ensures
        s@ == dec_digits(n as int),
    decreases n,
{
    if n < 10 {
        char_to_string(digit_char_exec(n))
    } else {
        let mut s = dec_u64(n / 10);
        let d = char_to_string(digit_char_exec(n % 10));
        s.append(d.as_str());
        s
    }
}

/// Decimal rendering padded with leading zeroes to at least four characters,
/// as the `{:04}` format does.
pub open spec fn dec_pad4(n: int) -> Seq<char> {
    if n < 10 {
        "000"@ + dec_digits(n)
    } else if n < 100 {
        "00"@ + dec_digits(n)
    } else if n < 1000 {
        "0"@ + dec_digits(n)
    } else {
        dec_digits(n)
    }
}

pub fn pad4_u64(n: u64) -> (s: String)
    ensures
        s@ == dec_pad4(n as int),
{
    let mut s = if n < 10 {
        String::from_str("000")
    } else if n < 100 {
        String::from_str("00")
    } else if n < 1000 {
        String::from_str("0")
    } else {
        String::from_str("")
    };
    let d = dec_u64(n);
    s.append(d.as_str());
    proof {
        if n >= 1000 {
            reveal_strlit("");
            assert(s@ =~= dec_digits(n as int));
        }
    }
    s
}

/// Decimal rendering of an integer, with a leading minus sign when negative.
pub open spec fn dec_signed(n: int) -> Seq<char> {
    if n < 0 {
        seq!['-'] + dec_digits(-n)
    } else {
        dec_digits(n)
    }
}

pub fn dec_i64(n: i64) -> (s: String)
    ensures
        s@ == dec_signed(n as int),
{
    if n >= 0 {
        let s = dec_u64(n as u64);
        s
    } else {
        let mag: u64 = if n == i64::MIN {
            0x8000_0000_0000_0000
        } else {
            (-n) as u64
        };
        let mut s = String::from_str("-");
        let d = dec_u64(mag);
        s.append(d.as_str());
        proof {
            reveal_strlit("-");
            assert(s@ =~= dec_signed(n as int));
        }
        s
    }
}

/// The hexadecimal digit character for a value below sixteen.
pub open spec fn hex_char(d: int) -> char {
    if d < 10 {
        digit_char(d)
    } else if d == 10 { 'A' }
    else if d == 11 { 'B' }
    else if d == 12 { 'C' }
    else if d == 13 { 'D' }
    else if d == 14 { 'E' }
    else { 'F' }
}

fn hex_char_exec(d: u64) -> (c: char)
    requires
        d < 16,
    ensures
        c == hex_char(d as int),
{
    if d < 10 {
        digit_char_exec(d)
    } else {
        match d {
            10 => 'A',
            11 => 'B',
            12 => 'C',
            13 => 'D',
            14 => 'E',
            _ => 'F',
        }
    }
}

/// Sixteen hexadecimal digits, most significant nibble first.
pub open spec fn hex_digits16(b: u64) -> Seq<char> {
    Seq::new(16, |i: int| hex_char(((b >> ((60 - 4 * i) as u64)) & 0xf) as int))
}

pub fn hex_u64(b: u64) -> (s: String)
    ensures
        s@ == hex_digits16(b),
{
    let mut s = String::from_str("");
    let mut i: usize = 0;
    proof {
        reveal_strlit("");
    }
    while i < 16
        invariant
            i <= 16,
            s@ == hex_digits16(b).take(i as int),
        decreases 16 - i,
    {
        let sh: u64 = 60 - 4 * (i as u64);
        let nib: u64 = (b >> sh) & 0xf;
        proof {
            assert((b >> sh) & 0xf < 16) by (bit_vector);
        }
        let d = char_to_string(hex_char_exec(nib));
        s.append(d.as_str());
        proof {
            assert(s@ =~= hex_digits16(b).take(i + 1));
        }
        i += 1;
    }
    proof {
        assert(s@ =~= hex_digits16(b));
    }
    s
}

} // verus!
