use vstd::prelude::*;

verus! {

// Hex digits and decimal digits, and the verified conversions between byte
// runs and their textual forms. Characters compare by code point.

pub open spec fn is_hex_digit(c: char) -> bool {
    ('0' <= c && c <= '9') || ('a' <= c && c <= 'f') || ('A' <= c && c <= 'F')
}

/// The numeric value of one hex digit; meaningful only when `is_hex_digit(c)`.
pub open spec fn hex_digit_value(c: char) -> int {
    if '0' <= c && c <= '9' {
        c as u32 - '0' as u32
    } else if 'a' <= c && c <= 'f' {
        c as u32 - 'a' as u32 + 10
    } else {
        c as u32 - 'A' as u32 + 10
    }
}

pub open spec fn all_hex_digits(s: Seq<char>) -> bool {
    forall|i: int| 0 <= i < s.len() ==> is_hex_digit(#[trigger] s[i])
}

/// The bytes that an even-length run of hex digits denotes, two digits a byte.
pub open spec fn hex_decoded(s: Seq<char>) -> Seq<u8> {
    Seq::new(
        (s.len() / 2) as nat,
        |i: int| (hex_digit_value(s[2 * i]) * 16 + hex_digit_value(s[2 * i + 1])) as u8,
    )
}

/// The lowercase digit for a value below 16.
pub open spec fn digit_char_of(v: int) -> char {
    if v == 0 {
        '0'
    } else if v == 1 {
        '1'
    } else if v == 2 {
        '2'
    } else if v == 3 {
        '3'
    } else if v == 4 {
        '4'
    } else if v == 5 {
        '5'
    } else if v == 6 {
        '6'
    } else if v == 7 {
        '7'
    } else if v == 8 {
        '8'
    } else if v == 9 {
        '9'
    } else if v == 10 {
        'a'
    } else if v == 11 {
        'b'
    } else if v == 12 {
        'c'
    } else if v == 13 {
        'd'
    } else if v == 14 {
        'e'
    } else {
        'f'
    }
}

/// Lowercase hex rendering of bytes, two digits a byte.
pub open spec fn hex_encoded(b: Seq<u8>) -> Seq<char> {
    Seq::new(
        b.len() * 2,
        |i: int| if i % 2 == 0 {
            digit_char_of(b[i / 2] as int / 16)
        } else {
            digit_char_of(b[i / 2] as int % 16)
        },
    )
}

/// Hex text with the usual `0x` prefix.
pub open spec fn hex_0x_of(b: Seq<u8>) -> Seq<char> {
    seq!['0', 'x'] + hex_encoded(b)
}

/// Decimal rendering of a natural number, most significant digit first,
/// without leading zeros (a single zero for zero itself).
pub open spec fn dec_chars_of(n: nat) -> Seq<char>
    decreases n,
{
    if n < 10 {
        seq![digit_char_of(n as int)]
    } else {
        dec_chars_of(n / 10).push(digit_char_of((n % 10) as int))
    }
}

pub fn hex_value_of(c: char) -> (r: Option<u8>)
    ensures
        r is Some <==> is_hex_digit(c),
        r matches Some(v) ==> v == hex_digit_value(c) && v < 16,
{
    let u: u32 = c as u32;
    if 48 <= u && u <= 57 {
        Some((u - 48) as u8)
    } else if 97 <= u && u <= 102 {
        Some((u - 97 + 10) as u8)
    } else if 65 <= u && u <= 70 {
        Some((u - 65 + 10) as u8)
    } else {
        None
    }
}

/// Reads an even-length run of hex digits as bytes; `None` on any other text.
pub fn hex_bytes_of_str(s: &str) -> (r: Option<Vec<u8>>)
    ensures
        r is Some <==> s@.len() % 2 == 0 && all_hex_digits(s@),
        r matches Some(v) ==> v@ == hex_decoded(s@),
{
    let n: usize = s.unicode_len();
    if n % 2 != 0 {
        return None;
    }
    let mut out: Vec<u8> = Vec::new();
    let mut i: usize = 0;
    while i < n
        invariant
            i <= n,
            i % 2 == 0,
            n % 2 == 0,
            n == s@.len(),
            forall|j: int| 0 <= j < i ==> is_hex_digit(#[trigger] s@[j]),
            out@.len() == i / 2,
            forall|k: int| 0 <= k < out@.len() ==> out@[k] == hex_decoded(s@)[k],
        decreases n - i,
    {
        proof {
            assert((n - i) % 2 == 0) by (nonlinear_arith)
                requires
                    i % 2 == 0,
                    n % 2 == 0,
            ;
        }
        let c0 = s.get_char(i);
        let c1 = s.get_char(i + 1);
        let v0 = match hex_value_of(c0) {
            Some(v) => v,
            None => {
                return None;
            },
        };
        let v1 = match hex_value_of(c1) {
            Some(v) => v,
            None => {
                return None;
            },
        };
        out.push(v0 * 16 + v1);
        i += 2;
    }
    proof {
        assert(out@ =~= hex_decoded(s@));
    }
    Some(out)
}

/// Appends the single lowercase digit of a value below 16.
pub fn push_digit(s: &mut String, v: u8)
    requires
        v < 16,
    ensures
        final(s)@ == old(s)@.push(digit_char_of(v as int)),
{
    match v {
        0 => s.append("0"),
        1 => s.append("1"),
        2 => s.append("2"),
        3 => s.append("3"),
        4 => s.append("4"),
        5 => s.append("5"),
        6 => s.append("6"),
        7 => s.append("7"),
        8 => s.append("8"),
        9 => s.append("9"),
        10 => s.append("a"),
        11 => s.append("b"),
        12 => s.append("c"),
        13 => s.append("d"),
        14 => s.append("e"),
        _ => s.append("f"),
    }
    proof {
        reveal_strlit("0");
        reveal_strlit("1");
        reveal_strlit("2");
        reveal_strlit("3");
        reveal_strlit("4");
        reveal_strlit("5");
        reveal_strlit("6");
        reveal_strlit("7");
        reveal_strlit("8");
        reveal_strlit("9");
        reveal_strlit("a");
        reveal_strlit("b");
        reveal_strlit("c");
        reveal_strlit("d");
        reveal_strlit("e");
        reveal_strlit("f");
        assert(s@ =~= old(s)@.push(digit_char_of(v as int)));
    }
}

/// Lowercase hex text of the given bytes.
pub fn hex_string_of(bytes: &[u8]) -> (r: String)
    ensures
        r@ == hex_encoded(bytes@),
{
    let mut out = String::new();
    let mut i: usize = 0;
    while i < bytes.len()
        invariant
            i <= bytes@.len(),
            out@.len() == 2 * i,
            forall|j: int| 0 <= j < out@.len() ==> out@[j] == hex_encoded(bytes@)[j],
        decreases bytes@.len() - i,
    {
        let b = bytes[i];
        push_digit(&mut out, b / 16);
        push_digit(&mut out, b % 16);
        i += 1;
    }
    proof {
        assert(out@ =~= hex_encoded(bytes@));
    }
    out
}

/// `0x`-prefixed lowercase hex text of the given bytes.
pub fn hex_0x_string_of(bytes: &[u8]) -> (r: String)
    ensures
        r@ == hex_0x_of(bytes@),
{
    let mut s = String::from_str("0x");
    let digits = hex_string_of(bytes);
    s.append(digits.as_str());
    proof {
        reveal_strlit("0x");
        assert(s@ =~= hex_0x_of(bytes@));
    }
    s
}

} // verus!
