//! Object identifiers.
//!
//! Every persisted record is addressed by a 12-byte identifier whose
//! interchange form is a string of 24 hexadecimal digits.  The store side
//! works with the bytes; callers supply and receive the hexadecimal form,
//! canonically in lower case.  Any other string is rejected before a
//! lookup reaches the store.

use vstd::prelude::*;

use crate::error::Error;

verus! {

/// Number of bytes in a stored object identifier.
pub const OBJECT_ID_BYTES: usize = 12;

/// Number of characters in the hexadecimal form of an identifier.
pub const OBJECT_ID_CHARS: usize = 24;

/// A hexadecimal digit, either case.
pub open spec fn is_hex_digit(c: char) -> bool {
    ('0' <= c && c <= '9') || ('a' <= c && c <= 'f') || ('A' <= c && c <= 'F')
}

/// A hexadecimal digit as it appears in the canonical (lower-case) form.
pub open spec fn is_lower_hex_digit(c: char) -> bool {
    ('0' <= c && c <= '9') || ('a' <= c && c <= 'f')
}

/// The numeric value of a hexadecimal digit.
pub open spec fn hex_digit_val(c: char) -> int {
    if '0' <= c && c <= '9' {
        c as int - '0' as int
    } else if 'a' <= c && c <= 'f' {
        10 + c as int - 'a' as int
    } else {
        10 + c as int - 'A' as int
    }
}

/// The lower-case digit character for a value in `0..16`.
pub open spec fn lower_hex_digit(n: int) -> char {
    if n == 0 {
        '0'
    } else if n == 1 {
        '1'
    } else if n == 2 {
        '2'
    } else if n == 3 {
        '3'
    } else if n == 4 {
        '4'
    } else if n == 5 {
        '5'
    } else if n == 6 {
        '6'
    } else if n == 7 {
        '7'
    } else if n == 8 {
        '8'
    } else if n == 9 {
        '9'
    } else if n == 10 {
        'a'
    } else if n == 11 {
        'b'
    } else if n == 12 {
        'c'
    } else if n == 13 {
        'd'
    } else if n == 14 {
        'e'
    } else {
        'f'
    }
}

/// The lower-case counterpart of a hexadecimal digit.
pub open spec fn to_lower_hex(c: char) -> char {
    if c == 'A' {
        'a'
    } else if c == 'B' {
        'b'
    } else if c == 'C' {
        'c'
    } else if c == 'D' {
        'd'
    } else if c == 'E' {
        'e'
    } else if c == 'F' {
        'f'
    } else {
        c
    }
}

/// A well-formed identifier string: exactly 24 hexadecimal digits.
pub open spec fn is_object_id_str(s: Seq<char>) -> bool {
    &&& s.len() == OBJECT_ID_CHARS
    &&& forall|i: int| 0 <= i < s.len() ==> is_hex_digit(#[trigger] s[i])
}

/// The canonical interchange form: exactly 24 lower-case hexadecimal digits.
pub open spec fn is_canonical_id(s: Seq<char>) -> bool {
    &&& s.len() == OBJECT_ID_CHARS
    &&& forall|i: int| 0 <= i < s.len() ==> is_lower_hex_digit(#[trigger] s[i])
}

/// The byte encoded by a pair of hexadecimal digits.
pub open spec fn byte_of_hex_pair(hi: char, lo: char) -> u8 {
    (hex_digit_val(hi) * 16 + hex_digit_val(lo)) as u8
}

/// The bytes encoded by a hexadecimal string, two digits per byte.
pub open spec fn bytes_of_hex(s: Seq<char>) -> Seq<u8> {
    Seq::new((s.len() / 2) as nat, |i: int| byte_of_hex_pair(s[2 * i], s[2 * i + 1]))
}

/// The canonical hexadecimal rendering of a byte string.
pub open spec fn hex_of_bytes(b: Seq<u8>) -> Seq<char> {
    Seq::new(
        (b.len() * 2) as nat,
        |i: int|
            if i % 2 == 0 {
                lower_hex_digit(b[i / 2] as int / 16)
            } else {
                lower_hex_digit(b[i / 2] as int % 16)
            },
    )
}

/// The value of a digit, or `None` where the character is not one.
fn hex_digit_value(c: char) -> (r: Option<u8>)
    ensures
        r is Some <==> is_hex_digit(c),
        r matches Some(v) ==> v as int == hex_digit_val(c) && v < 16,
{
    let code: u32 = c as u32;
    if '0' <= c && c <= '9' {
        Some((code - 48) as u8)
    } else if 'a' <= c && c <= 'f' {
        Some((code - 97 + 10) as u8)
    } else if 'A' <= c && c <= 'F' {
        Some((code - 65 + 10) as u8)
    } else {
        None
    }
}

/// The lower-case digit for a value in `0..16`, as a borrowed string.
fn lower_hex_digit_str(n: u8) -> (r: &'static str)
    requires
        n < 16,
    ensures
        r@.len() == 1,
        r@[0] == lower_hex_digit(n as int),
{
    proof {
        reveal_strlit("0");
        reveal_strlit("1");
        reveal_strlit("2");
        reveal_strlit("3");
        reveal_strlit("4");
        reveal_strlit("5");
        reveal_strlit("6");
        reveal_strlit("7");
        reveal_strlit("8");
        reveal_strlit("9");
        reveal_strlit("a");
        reveal_strlit("b");
        reveal_strlit("c");
        reveal_strlit("d");
        reveal_strlit("e");
        reveal_strlit("f");
    }
    if n == 0 {
        "0"
    } else if n == 1 {
        "1"
    } else if n == 2 {
        "2"
    } else if n == 3 {
        "3"
    } else if n == 4 {
        "4"
    } else if n == 5 {
        "5"
    } else if n == 6 {
        "6"
    } else if n == 7 {
        "7"
    } else if n == 8 {
        "8"
    } else if n == 9 {
        "9"
    } else if n == 10 {
        "a"
    } else if n == 11 {
        "b"
    } else if n == 12 {
        "c"
    } else if n == 13 {
        "d"
    } else if n == 14 {
        "e"
    } else {
        "f"
    }
}

/// Render a 12-byte identifier in its canonical hexadecimal form.
pub fn object_id_hex(b: &Vec<u8>) -> (r: String)
    requires
        b@.len() == OBJECT_ID_BYTES,
    ensures
        r@ == hex_of_bytes(b@),
        is_canonical_id(r@),
{
    let mut out = String::new();
    let mut i: usize = 0;
    while i < b.len()
        invariant
            b@.len() == OBJECT_ID_BYTES,
            i <= OBJECT_ID_BYTES,
            out@ == hex_of_bytes(b@).take(2 * i as int),
        decreases b@.len() - i,
    {
        let hi: u8 = b[i] / 16;
        let lo: u8 = b[i] % 16;
        out.append(lower_hex_digit_str(hi));
        out.append(lower_hex_digit_str(lo));
        proof {
            assert(out@ =~= hex_of_bytes(b@).take(2 * (i + 1) as int));
        }
        i = i + 1;
    }
    proof {
        assert(hex_of_bytes(b@).take(2 * OBJECT_ID_BYTES as int) =~= hex_of_bytes(b@));
        lemma_hex_of_bytes_canonical(b@);
    }
    out
}

/// The rendering of any 12-byte string is a canonical identifier.
proof fn lemma_hex_of_bytes_canonical(b: Seq<u8>)
    requires
        b.len() == OBJECT_ID_BYTES,
    ensures
        is_canonical_id(hex_of_bytes(b)),
{
    assert forall|i: int| 0 <= i < hex_of_bytes(b).len() implies is_lower_hex_digit(
        #[trigger] hex_of_bytes(b)[i],
    ) by {
        let v = b[i / 2] as int;
        assert(0 <= v / 16 < 16);
        assert(0 <= v % 16 < 16);
    }
}

/// Parse a 24-digit hexadecimal identifier into its 12 bytes.
///
/// Succeeds exactly on well-formed identifier strings; anything else is an
/// `InvalidIdentifier` carrying the offending string, surfaced before any
/// store access.
pub fn parse_object_id(s: &str) -> (r: Result<Vec<u8>, Error>)
    ensures
        r is Ok <==> is_object_id_str(s@),
        r matches Ok(b) ==> b@ == bytes_of_hex(s@) && b@.len() == OBJECT_ID_BYTES,
        r matches Err(e) ==> e matches Error::InvalidIdentifier(orig) && orig@ == s@,
{
    let n = s.unicode_len();
    if n != OBJECT_ID_CHARS {
        return Err(Error::InvalidIdentifier(s.to_owned()));
    }
    let mut bytes: Vec<u8> = Vec::new();
    let mut i: usize = 0;
    while i < OBJECT_ID_BYTES
        invariant
            s@.len() == OBJECT_ID_CHARS,
            i <= OBJECT_ID_BYTES,
            forall|j: int| 0 <= j < 2 * i ==> is_hex_digit(#[trigger] s@[j]),
            bytes@ == bytes_of_hex(s@).take(i as int),
        decreases OBJECT_ID_BYTES - i,
    {
        let hi = s.get_char(2 * i);
        let lo = s.get_char(2 * i + 1);
        let hv = match hex_digit_value(hi) {
            Some(v) => v,
            None => {
                return Err(Error::InvalidIdentifier(s.to_owned()));
            },
        };
        let lv = match hex_digit_value(lo) {
            Some(v) => v,
            None => {
                return Err(Error::InvalidIdentifier(s.to_owned()));
            },
        };
        bytes.push(hv * 16 + lv);
        proof {
            assert(bytes@ =~= bytes_of_hex(s@).take(i + 1 as int));
        }
        i = i + 1;
    }
    proof {
        assert(bytes_of_hex(s@).take(OBJECT_ID_BYTES as int) =~= bytes_of_hex(s@));
    }
    Ok(bytes)
}

/// Validate a caller-supplied identifier and return its canonical form.
///
/// Succeeds exactly on 24-digit hexadecimal strings, lower- or upper-case;
/// the result is the same identifier in lower case.
pub fn validate_object_id(s: &str) -> (r: Result<String, Error>)
    ensures
        r is Ok <==> is_object_id_str(s@),
        r matches Ok(c) ==> c@ == hex_of_bytes(bytes_of_hex(s@)) && is_canonical_id(c@),
        r matches Err(e) ==> e matches Error::InvalidIdentifier(orig) && orig@ == s@,
{
    match parse_object_id(s) {
        Ok(b) => Ok(object_id_hex(&b)),
        Err(e) => Err(e),
    }
}

/// Rendering the bytes of a well-formed identifier string lowers its case
/// and changes nothing else; a canonical identifier round-trips unchanged.
pub proof fn lemma_hex_roundtrip(s: Seq<char>)
    requires
        is_object_id_str(s),
    ensures
        hex_of_bytes(bytes_of_hex(s)).len() == s.len(),
        forall|i: int|
            0 <= i < s.len() ==> #[trigger] hex_of_bytes(bytes_of_hex(s))[i] == to_lower_hex(s[i]),
        is_canonical_id(s) ==> hex_of_bytes(bytes_of_hex(s)) == s,
{
    let b = bytes_of_hex(s);
    let h = hex_of_bytes(b);
    assert forall|i: int| 0 <= i < s.len() implies #[trigger] h[i] == to_lower_hex(s[i]) by {
        let hi = s[2 * (i / 2)];
        let lo = s[2 * (i / 2) + 1];
        lemma_hex_pair_split(hi, lo);
        if i % 2 == 0 {
            assert(hi == s[i]);
            lemma_lower_of_val(s[i]);
        } else {
            assert(lo == s[i]);
            lemma_lower_of_val(s[i]);
        }
    }
    if is_canonical_id(s) {
        assert forall|i: int| 0 <= i < s.len() implies #[trigger] h[i] == s[i] by {
            lemma_lower_fixes_canonical(s[i]);
        }
        assert(h =~= s);
    }
}

/// A byte built from two digits splits back into those digits.
proof fn lemma_hex_pair_split(hi: char, lo: char)
    requires
        is_hex_digit(hi),
        is_hex_digit(lo),
    ensures
        byte_of_hex_pair(hi, lo) as int / 16 == hex_digit_val(hi),
        byte_of_hex_pair(hi, lo) as int % 16 == hex_digit_val(lo),
{
    assert(0 <= hex_digit_val(hi) < 16);
    assert(0 <= hex_digit_val(lo) < 16);
}

/// The canonical digit for the value of a digit is its lower-case form.
proof fn lemma_lower_of_val(c: char)
    requires
        is_hex_digit(c),
    ensures
        lower_hex_digit(hex_digit_val(c)) == to_lower_hex(c),
{
}

/// Lower-casing fixes a digit that is already lower case.
proof fn lemma_lower_fixes_canonical(c: char)
    requires
        is_lower_hex_digit(c),
    ensures
        to_lower_hex(c) == c,
{
}

} // verus!
