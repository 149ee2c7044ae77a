use vstd::prelude::*;

verus! {

/// A continuation byte of a multi-byte encoded character.
pub open spec fn is_cont(b: u8) -> bool {
    0x80 <= b && b <= 0xBF
}

/// Whether the bytes of `s` from position `i` onward are well-formed UTF-8.
///
/// This is the byte-level well-formedness condition of RFC 3629: each
/// character is one to four bytes, the lead byte determines the length and
/// the admissible range of the first continuation byte (ruling out overlong
/// encodings, surrogates, and code points above U+10FFFF), and every later
/// byte of a character is a continuation byte.
pub open spec fn is_utf8_from(s: Seq<u8>, i: int) -> bool
    decreases s.len() - i,
{
    if i >= s.len() {
        true
    } else {
        let b0 = s[i];
        if b0 <= 0x7F {
            is_utf8_from(s, i + 1)
        } else if 0xC2 <= b0 && b0 <= 0xDF {
            &&& i + 2 <= s.len()
            &&& is_cont(s[i + 1])
            &&& is_utf8_from(s, i + 2)
        } else if b0 == 0xE0 {
            &&& i + 3 <= s.len()
            &&& 0xA0 <= s[i + 1] && s[i + 1] <= 0xBF
            &&& is_cont(s[i + 2])
            &&& is_utf8_from(s, i + 3)
        } else if 0xE1 <= b0 && b0 <= 0xEC || 0xEE <= b0 && b0 <= 0xEF {
            &&& i + 3 <= s.len()
            &&& is_cont(s[i + 1])
            &&& is_cont(s[i + 2])
            &&& is_utf8_from(s, i + 3)
        } else if b0 == 0xED {
            &&& i + 3 <= s.len()
            &&& 0x80 <= s[i + 1] && s[i + 1] <= 0x9F
            &&& is_cont(s[i + 2])
            &&& is_utf8_from(s, i + 3)
        } else if b0 == 0xF0 {
            &&& i + 4 <= s.len()
            &&& 0x90 <= s[i + 1] && s[i + 1] <= 0xBF
            &&& is_cont(s[i + 2])
            &&& is_cont(s[i + 3])
            &&& is_utf8_from(s, i + 4)
        } else if 0xF1 <= b0 && b0 <= 0xF3 {
            &&& i + 4 <= s.len()
            &&& is_cont(s[i + 1])
            &&& is_cont(s[i + 2])
            &&& is_cont(s[i + 3])
            &&& is_utf8_from(s, i + 4)
        } else if b0 == 0xF4 {
            &&& i + 4 <= s.len()
            &&& 0x80 <= s[i + 1] && s[i + 1] <= 0x8F
            &&& is_cont(s[i + 2])
            &&& is_cont(s[i + 3])
            &&& is_utf8_from(s, i + 4)
        } else {
            false
        }
    }
}

/// Whether `s` as a whole is well-formed UTF-8.
pub open spec fn is_utf8(s: Seq<u8>) -> bool {
    is_utf8_from(s, 0)
}

/// Decides whether `bytes` is well-formed UTF-8.
pub fn validate_utf8(bytes: &Vec<u8>) -> (r: bool)
    ensures
        r == is_utf8(bytes@),
{
    let n = bytes.len();
    let mut i: usize = 0;
    while i < n
        invariant
            i <= n,
            n == bytes@.len(),
            is_utf8(bytes@) == is_utf8_from(bytes@, i as int),
        decreases n - i,
    {
        let b0 = bytes[i];
        if b0 <= 0x7F {
            i = i + 1;
        } else if 0xC2 <= b0 && b0 <= 0xDF {
            if !(n - i >= 2 && is_cont_byte(bytes[i + 1])) {
                return false;
            }
            i = i + 2;
        } else if b0 == 0xE0 {
            if !(n - i >= 3 && 0xA0 <= bytes[i + 1] && bytes[i + 1] <= 0xBF
                && is_cont_byte(bytes[i + 2])) {
                return false;
            }
            i = i + 3;
        } else if 0xE1 <= b0 && b0 <= 0xEC || 0xEE <= b0 && b0 <= 0xEF {
            if !(n - i >= 3 && is_cont_byte(bytes[i + 1]) && is_cont_byte(bytes[i + 2])) {
                return false;
            }
            i = i + 3;
        } else if b0 == 0xED {
            if !(n - i >= 3 && 0x80 <= bytes[i + 1] && bytes[i + 1] <= 0x9F
                && is_cont_byte(bytes[i + 2])) {
                return false;
            }
            i = i + 3;
        } else if b0 == 0xF0 {
            if !(n - i >= 4 && 0x90 <= bytes[i + 1] && bytes[i + 1] <= 0xBF
                && is_cont_byte(bytes[i + 2]) && is_cont_byte(bytes[i + 3])) {
                return false;
            }
            i = i + 4;
        } else if 0xF1 <= b0 && b0 <= 0xF3 {
            if !(n - i >= 4 && is_cont_byte(bytes[i + 1]) && is_cont_byte(bytes[i + 2])
                && is_cont_byte(bytes[i + 3])) {
                return false;
            }
            i = i + 4;
        } else if b0 == 0xF4 {
            if !(n - i >= 4 && 0x80 <= bytes[i + 1] && bytes[i + 1] <= 0x8F
                && is_cont_byte(bytes[i + 2]) && is_cont_byte(bytes[i + 3])) {
                return false;
            }
            i = i + 4;
        } else {
            return false;
        }
    }
    true
}

/// Decides whether `b` is a continuation byte.
fn is_cont_byte(b: u8) -> (r: bool)
    ensures
        r == is_cont(b),
{
    0x80 <= b && b <= 0xBF
}

} // verus!
