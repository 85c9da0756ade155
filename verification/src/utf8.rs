//! Validation of caller-supplied byte buffers as UTF-8 text.
//!
//! Malformed encoding is an expected runtime condition at the boundary, so the
//! validator reports it as a value rather than failing; callers leave state
//! untouched when validation fails.

use vstd::prelude::*;

verus! {

/// Number of bytes in a well-formed UTF-8 sequence led by byte `b`,
/// or 0 when `b` cannot lead a sequence.
pub open spec fn utf8_char_len(b: u8) -> int {
    if b < 0x80 {
        1
    } else if 0xC2 <= b && b <= 0xDF {
        2
    } else if 0xE0 <= b && b <= 0xEF {
        3
    } else if 0xF0 <= b && b <= 0xF4 {
        4
    } else {
        0
    }
}

/// Lower bound on the second byte of a sequence led by `b`.
pub open spec fn second_byte_lo(b: u8) -> u8 {
    if b == 0xE0 {
        0xA0
    } else if b == 0xF0 {
        0x90
    } else {
        0x80
    }
}

/// Upper bound on the second byte of a sequence led by `b`.
pub open spec fn second_byte_hi(b: u8) -> u8 {
    if b == 0xED {
        0x9F
    } else if b == 0xF4 {
        0x8F
    } else {
        0xBF
    }
}

/// The bytes of `s` starting at `i` begin with one well-formed UTF-8 sequence.
pub open spec fn valid_utf8_char_at(s: Seq<u8>, i: int) -> bool {
    let n = utf8_char_len(s[i]);
    &&& 0 <= i < s.len()
    &&& n > 0
    &&& i + n <= s.len()
    &&& (n >= 2 ==> second_byte_lo(s[i]) <= s[i + 1] && s[i + 1] <= second_byte_hi(s[i]))
    &&& (n >= 3 ==> 0x80 <= s[i + 2] && s[i + 2] <= 0xBF)
    &&& (n == 4 ==> 0x80 <= s[i + 3] && s[i + 3] <= 0xBF)
}

/// The bytes of `s` from position `i` on form a sequence of well-formed
/// UTF-8 sequences.
pub open spec fn is_utf8_from(s: Seq<u8>, i: int) -> bool
    decreases s.len() - i,
{
    if i >= s.len() {
        true
    } else if !valid_utf8_char_at(s, i) {
        false
    } else {
        is_utf8_from(s, i + utf8_char_len(s[i]))
    }
}

/// The byte sequence `s` is valid UTF-8.
pub open spec fn is_utf8(s: Seq<u8>) -> bool {
    is_utf8_from(s, 0)
}

/// The empty buffer is always valid UTF-8, so a zero-length buffer can never
/// be rejected for its encoding.
pub proof fn lemma_empty_buffer_is_valid(s: Seq<u8>)
    requires
        s.len() == 0,
    ensures
        is_utf8(s),
{
}

/// Decides whether `bytes` is valid UTF-8.
pub fn validate_utf8(bytes: &[u8]) -> (r: bool)
    ensures
        r == is_utf8(bytes@),
{
    let n = bytes.len();
    let mut i: usize = 0;
    while i < n
        invariant
            n == bytes@.len(),
            i <= n,
            is_utf8(bytes@) == is_utf8_from(bytes@, i as int),
        decreases n - i,
    {
        let b = bytes[i];
        let clen: usize = if b < 0x80 {
            1
        } else if 0xC2 <= b && b <= 0xDF {
            2
        } else if 0xE0 <= b && b <= 0xEF {
            3
        } else if 0xF0 <= b && b <= 0xF4 {
            4
        } else {
            return false;
        };
        if n - i < clen {
            return false;
        }
        if clen >= 2 {
            let lo: u8 = if b == 0xE0 {
                0xA0
            } else if b == 0xF0 {
                0x90
            } else {
                0x80
            };
            let hi: u8 = if b == 0xED {
                0x9F
            } else if b == 0xF4 {
                0x8F
            } else {
                0xBF
            };
            let b1 = bytes[i + 1];
            if b1 < lo || hi < b1 {
                return false;
            }
        }
        if clen >= 3 {
            let b2 = bytes[i + 2];
            if b2 < 0x80 || 0xBF < b2 {
                return false;
            }
        }
        if clen == 4 {
            let b3 = bytes[i + 3];
            if b3 < 0x80 || 0xBF < b3 {
                return false;
            }
        }
        i = i + clen;
    }
    true
}

/// Copies a validated buffer into owned storage, byte for byte.
pub fn copy_bytes(v: &[u8]) -> (r: Vec<u8>)
    ensures
        r@ == v@,
{
    let mut out: Vec<u8> = Vec::new();
    let mut i: usize = 0;
    while i < v.len()
        invariant
            i <= v@.len(),
            out@ == v@.subrange(0, i as int),
        decreases v@.len() - i,
    {
        out.push(v[i]);
        proof {
            assert(out@ =~= v@.subrange(0, i + 1 as int));
        }
        i = i + 1;
    }
    proof {
        assert(v@.subrange(0, v@.len() as int) =~= v@);
    }
    out
}

} // verus!
