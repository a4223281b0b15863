use vstd::prelude::*;
use vstd::string::{StrSliceExecFns, StringExecFns};

verus! {

/// The characters of an upper-case hexadecimal digit, in order of value.
pub open spec fn hex_alphabet() -> Seq<char> {
    seq!['0', '1', '2', '3', '4', '5', '6', '7', '8', '9', 'A', 'B', 'C', 'D', 'E', 'F']
}

/// Upper-case hexadecimal text of `bytes`: two digits per byte, high nibble first.
pub open spec fn hex_text(bytes: Seq<u8>) -> Seq<char>
    decreases bytes.len(),
{
    if bytes.len() == 0 {
        Seq::empty()
    } else {
        hex_text(bytes.drop_last()) + seq![
            hex_alphabet()[bytes.last() as int / 16],
            hex_alphabet()[bytes.last() as int % 16],
        ]
    }
}

/// A hexadecimal digit, in either case.
pub open spec fn is_hex_char(c: char) -> bool {
    ('0' <= c <= '9') || ('A' <= c <= 'F') || ('a' <= c <= 'f')
}

/// The value of the hexadecimal digit `c`.
pub open spec fn hex_value(c: char) -> int {
    if '0' <= c <= '9' {
        c as int - '0' as int
    } else if 'A' <= c <= 'F' {
        c as int - 'A' as int + 10
    } else {
        c as int - 'a' as int + 10
    }
}

/// Hexadecimal text that decodes to bytes: an even number of hex digits.
pub open spec fn is_hex_pairs(s: Seq<char>) -> bool {
    &&& s.len() % 2 == 0
    &&& forall|i: int| 0 <= i < s.len() ==> is_hex_char(#[trigger] s[i])
}

/// Whether `sid` has the shape of a session identifier: 64 bytes of UTF-8.
pub fn verify_session_id(sid: &str) -> (r: bool)
    ensures
        r == (sid.len() == 64),
{
    sid.len() == 64
}

/// Relies on nanoid::format with nanoid's default random source and its
/// 64-letter URL-safe alphabet, all ASCII: a fresh random identifier of 64
/// characters.
#[verifier::external_body]
pub fn generate_session_id() -> (r: String)
    ensures
        r@.len() == 64,
        r.is_ascii(),
{
    nanoid::format(nanoid::rngs::default, &nanoid::alphabet::SAFE, 64)
}

/// Upper-case hexadecimal text of `bytes`, two digits per byte.
pub fn bin2hex(bytes: &[u8]) -> (r: String)
    ensures
        r@ == hex_text(bytes@),
{
    let digits = "0123456789ABCDEF";
    proof {
        reveal_strlit("0123456789ABCDEF");
    }
    assert(digits@ =~= hex_alphabet());
    assert(digits.is_ascii());
    let mut out = String::new();
    let mut i: usize = 0;
    while i < bytes.len()
        invariant
            i <= bytes@.len(),
            digits@ == hex_alphabet(),
            digits.is_ascii(),
            out@ == hex_text(bytes@.take(i as int)),
        decreases bytes@.len() - i,
    {
        let b = bytes[i];
        let hi = (b / 16) as usize;
        let lo = (b % 16) as usize;
        out.append(digits.substring_ascii(hi, hi + 1));
        out.append(digits.substring_ascii(lo, lo + 1));
        proof {
            let t = bytes@.take(i as int + 1);
            assert(t.drop_last() =~= bytes@.take(i as int));
            assert(t.last() == b);
        }
        assert(out@ =~= hex_text(bytes@.take(i as int + 1)));
        i = i + 1;
    }
    assert(bytes@.take(i as int) =~= bytes@);
    out
}

/// Whether `hex` is text that `hex2bin` decodes: an even number of hex digits.
pub fn is_hex_pairs_text(hex: &str) -> (r: bool)
    ensures
        r == is_hex_pairs(hex@),
{
    let n = hex.unicode_len();
    if n % 2 != 0 {
        return false;
    }
    let mut i: usize = 0;
    while i < n
        invariant
            n == hex@.len(),
            i <= n,
            forall|j: int| 0 <= j < i ==> is_hex_char(#[trigger] hex@[j]),
        decreases n - i,
    {
        let c = hex.get_char(i);
        if !(('0' <= c && c <= '9') || ('A' <= c && c <= 'F') || ('a' <= c && c <= 'f')) {
            return false;
        }
        i = i + 1;
    }
    true
}

/// The value of one hexadecimal digit given by its ASCII code.
fn digit_value(b: u8) -> (r: u8)
    requires
        is_hex_char(b as char),
    ensures
        r as int == hex_value(b as char),
        r < 16,
{
    if b <= 57 {
        b - 48
    } else if b <= 70 {
        b - 55
    } else {
        b - 87
    }
}

/// The bytes that the hexadecimal text `hex` encodes, two digits per byte, high
/// nibble first; digits may be of either case.
pub fn hex2bin(hex: &str) -> (r: Vec<u8>)
    requires
        is_hex_pairs(hex@),
    ensures
        r@.len() * 2 == hex@.len(),
        forall|i: int|
            0 <= i < r@.len() ==> #[trigger] r@[i] as int == 16 * hex_value(hex@[2 * i]) + hex_value(
                hex@[2 * i + 1],
            ),
{
    assert(hex.is_ascii()) by {
        assert forall|i: int| 0 <= i < hex@.len() implies '\0' <= #[trigger] hex@[i] <= '\u{7f}' by {
            assert(is_hex_char(hex@[i]));
        }
    }
    let n = hex.unicode_len();
    let mut out: Vec<u8> = Vec::new();
    let mut i: usize = 0;
    while i < n
        invariant
            n == hex@.len(),
            is_hex_pairs(hex@),
            hex.is_ascii(),
            i % 2 == 0,
            i <= n,
            out@.len() * 2 == i,
            forall|j: int|
                0 <= j < out@.len() ==> #[trigger] out@[j] as int == 16 * hex_value(hex@[2 * j])
                    + hex_value(hex@[2 * j + 1]),
        decreases n - i,
    {
        let a = hex.get_ascii(i);
        let b = hex.get_ascii(i + 1);
        assert(hex@[i as int] as u8 as char == hex@[i as int]) by {
            assert(is_hex_char(hex@[i as int]));
        }
        assert(hex@[i as int + 1] as u8 as char == hex@[i as int + 1]) by {
            assert(is_hex_char(hex@[i as int + 1]));
        }
        let hi = digit_value(a);
        let lo = digit_value(b);
        out.push(hi * 16 + lo);
        i = i + 2;
    }
    out
}

} // verus!
