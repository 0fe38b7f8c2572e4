//! Text validity: whether a byte sequence is well-formed UTF-8.
//!
//! A command must arrive as valid text before its grammar is even
//! considered. Well-formedness follows the shortest-form encoding rules:
//! one-byte sequences below 0x80; two- to four-byte sequences with lead
//! bytes that exclude overlong forms, surrogate code points and code points
//! beyond 0x10FFFF, each followed by continuation bytes in 0x80..=0xBF.

use vstd::prelude::*;

verus! {

/// Whether `b` is a UTF-8 continuation byte.
pub open spec fn is_cont(b: u8) -> bool {
    0x80 <= b && b <= 0xBF
}

/// The length of the well-formed UTF-8 sequence at position `i` of `s`,
/// or zero when no well-formed sequence starts there (the lead byte is
/// invalid, a continuation byte is out of range, or the sequence is cut
/// short by the end of `s`).
pub open spec fn utf8_step(s: Seq<u8>, i: int) -> int {
    if s[i] < 0x80 {
        1
    } else if 0xC2 <= s[i] && s[i] <= 0xDF {
        if i + 1 < s.len() && is_cont(s[i + 1]) {
            2
        } else {
            0
        }
    } else if s[i] == 0xE0 {
        if i + 2 < s.len() && 0xA0 <= s[i + 1] && s[i + 1] <= 0xBF && is_cont(s[i + 2]) {
            3
        } else {
            0
        }
    } else if (0xE1 <= s[i] && s[i] <= 0xEC) || s[i] == 0xEE || s[i] == 0xEF {
        if i + 2 < s.len() && is_cont(s[i + 1]) && is_cont(s[i + 2]) {
            3
        } else {
            0
        }
    } else if s[i] == 0xED {
        if i + 2 < s.len() && 0x80 <= s[i + 1] && s[i + 1] <= 0x9F && is_cont(s[i + 2]) {
            3
        } else {
            0
        }
    } else if s[i] == 0xF0 {
        if i + 3 < s.len() && 0x90 <= s[i + 1] && s[i + 1] <= 0xBF && is_cont(s[i + 2]) && is_cont(
            s[i + 3],
        ) {
            4
        } else {
            0
        }
    } else if 0xF1 <= s[i] && s[i] <= 0xF3 {
        if i + 3 < s.len() && is_cont(s[i + 1]) && is_cont(s[i + 2]) && is_cont(s[i + 3]) {
            4
        } else {
            0
        }
    } else if s[i] == 0xF4 {
        if i + 3 < s.len() && 0x80 <= s[i + 1] && s[i + 1] <= 0x8F && is_cont(s[i + 2]) && is_cont(
            s[i + 3],
        ) {
            4
        } else {
            0
        }
    } else {
        0
    }
}

/// Whether `s` is well-formed UTF-8 from position `i` on.
pub open spec fn is_text_from(s: Seq<u8>, i: int) -> bool
    decreases s.len() - i when 0 <= i <= s.len()
{
    if i >= s.len() {
        true
    } else {
        let k = utf8_step(s, i);
        k > 0 && is_text_from(s, i + k)
    }
}

/// Whether `s` is well-formed UTF-8, that is, valid text.
pub open spec fn is_text(s: Seq<u8>) -> bool {
    is_text_from(s, 0)
}

/// The sequence length at `i`, computed; zero when no well-formed sequence
/// starts there.
fn utf8_step_at(data: &Vec<u8>, i: usize) -> (r: usize)
    requires
        i < data.len(),
    ensures
        r as int == utf8_step(data@, i as int),
        r <= 4,
        r > 0 ==> i + r <= data.len(),
{
    let b = data[i];
    if b < 0x80 {
        1
    } else if 0xC2 <= b && b <= 0xDF {
        if data.len() - i >= 2 && 0x80 <= data[i + 1] && data[i + 1] <= 0xBF {
            2
        } else {
            0
        }
    } else if b == 0xE0 {
        if data.len() - i >= 3 && 0xA0 <= data[i + 1] && data[i + 1] <= 0xBF && 0x80 <= data[i + 2]
            && data[i + 2] <= 0xBF {
            3
        } else {
            0
        }
    } else if (0xE1 <= b && b <= 0xEC) || b == 0xEE || b == 0xEF {
        if data.len() - i >= 3 && 0x80 <= data[i + 1] && data[i + 1] <= 0xBF && 0x80 <= data[i + 2]
            && data[i + 2] <= 0xBF {
            3
        } else {
            0
        }
    } else if b == 0xED {
        if data.len() - i >= 3 && 0x80 <= data[i + 1] && data[i + 1] <= 0x9F && 0x80 <= data[i + 2]
            && data[i + 2] <= 0xBF {
            3
        } else {
            0
        }
    } else if b == 0xF0 {
        if data.len() - i >= 4 && 0x90 <= data[i + 1] && data[i + 1] <= 0xBF && 0x80 <= data[i + 2]
            && data[i + 2] <= 0xBF && 0x80 <= data[i + 3] && data[i + 3] <= 0xBF {
            4
        } else {
            0
        }
    } else if 0xF1 <= b && b <= 0xF3 {
        if data.len() - i >= 4 && 0x80 <= data[i + 1] && data[i + 1] <= 0xBF && 0x80 <= data[i + 2]
            && data[i + 2] <= 0xBF && 0x80 <= data[i + 3] && data[i + 3] <= 0xBF {
            4
        } else {
            0
        }
    } else if b == 0xF4 {
        if data.len() - i >= 4 && 0x80 <= data[i + 1] && data[i + 1] <= 0x8F && 0x80 <= data[i + 2]
            && data[i + 2] <= 0xBF && 0x80 <= data[i + 3] && data[i + 3] <= 0xBF {
            4
        } else {
            0
        }
    } else {
        0
    }
}

/// Decides whether the bytes are valid text.
pub fn is_valid_text(data: &Vec<u8>) -> (r: bool)
    ensures
        r == is_text(data@),
{
    let mut i: usize = 0;
    while i < data.len()
        invariant
            i <= data.len(),
            is_text(data@) == is_text_from(data@, i as int),
        decreases data.len() - i,
    {
        let k = utf8_step_at(data, i);
        if k == 0 {
            proof {
                assert(!is_text_from(data@, i as int));
            }
            return false;
        }
        proof {
            assert(is_text_from(data@, i as int) == is_text_from(data@, i + k));
        }
        i += k;
    }
    proof {
        assert(is_text_from(data@, i as int));
    }
    true
}

} // verus!
