//! Marshaling of text to the native wide-character convention.
//!
//! Every string handed to a native entry point travels as a NUL-terminated
//! sequence of UTF-16 code units. A terminator character embedded in the
//! caller's string would silently truncate it at the native layer, so the
//! encoded units are checked for an embedded zero before any call is made.

use vstd::prelude::*;

verus! {

/// The UTF-16 code units of a single character: one unit for the basic
/// multilingual plane, a surrogate pair beyond it.
pub open spec fn utf16_units(c: char) -> Seq<u16> {
    let v = c as u32;
    if v < 0x10000 {
        seq![v as u16]
    } else {
        seq![
            (0xD800 + (v - 0x10000) / 0x400) as u16,
            (0xDC00 + (v - 0x10000) % 0x400) as u16,
        ]
    }
}

/// The UTF-16 encoding of a string, character by character.
pub open spec fn encode_utf16(s: Seq<char>) -> Seq<u16>
    decreases s.len(),
{
    if s.len() == 0 {
        Seq::empty()
    } else {
        encode_utf16(s.drop_last()) + utf16_units(s.last())
    }
}

/// The wide form a string takes at the native boundary: its UTF-16
/// encoding followed by a terminating zero unit.
pub open spec fn wide_nul(s: Seq<char>) -> Seq<u16> {
    encode_utf16(s).push(0)
}

/// Whether the string holds an embedded terminator character.
pub open spec fn has_nul(s: Seq<char>) -> bool {
    exists|i: int| 0 <= i < s.len() && s[i] == '\0'
}

/// A character encodes a zero unit exactly when it is the terminator
/// character itself.
proof fn lemma_utf16_units_zero(c: char)
    ensures
        utf16_units(c).contains(0u16) <==> c == '\0',
{
    let v = c as u32;
    if v < 0x10000 {
        assert(utf16_units(c)[0] == (v as u16));
        if c == '\0' {
            assert(utf16_units(c).contains(0u16));
        } else {
            assert(v != 0);
            assert(v as u16 != 0);
        }
    } else {
        assert(0xD800 + (v - 0x10000) / 0x400 < 0x10000);
        assert(utf16_units(c)[0] != 0);
        assert(utf16_units(c)[1] != 0);
    }
}

/// The encoded units of a string hold a zero exactly when the string holds
/// an embedded terminator character: checking the marshaled form for a zero
/// unit is the same check as scanning the characters.
pub proof fn lemma_encode_zero_iff_nul(s: Seq<char>)
    ensures
        encode_utf16(s).contains(0u16) <==> has_nul(s),
    decreases s.len(),
{
    if s.len() == 0 {
    } else {
        lemma_encode_zero_iff_nul(s.drop_last());
        lemma_utf16_units_zero(s.last());
        let w = encode_utf16(s);
        let w1 = encode_utf16(s.drop_last());
        let w2 = utf16_units(s.last());
        if w.contains(0u16) {
            let i = choose|i: int| 0 <= i < w.len() && w[i] == 0u16;
            if i < w1.len() {
                assert(w1.contains(0u16));
                let j = choose|j: int| 0 <= j < s.drop_last().len() && s.drop_last()[j] == '\0';
                assert(s[j] == '\0');
            } else {
                assert(w2[i - w1.len()] == 0u16);
                assert(w2.contains(0u16));
                assert(s.last() == '\0');
                assert(s[s.len() - 1] == '\0');
            }
        }
        if has_nul(s) {
            let i = choose|i: int| 0 <= i < s.len() && s[i] == '\0';
            if i == s.len() - 1 {
                assert(w2.contains(0u16));
                let k = choose|k: int| 0 <= k < w2.len() && w2[k] == 0u16;
                assert(w[w1.len() + k] == 0u16);
            } else {
                assert(s.drop_last()[i] == '\0');
                assert(has_nul(s.drop_last()));
                assert(w1.contains(0u16));
                let k = choose|k: int| 0 <= k < w1.len() && w1[k] == 0u16;
                assert(w[k] == 0u16);
            }
        }
    }
}

/// Encodes a string as UTF-16 code units, without a terminator.
pub fn encode_wide(s: &str) -> (r: Vec<u16>)
    ensures
        r@ == encode_utf16(s@),
{
    let n = s.unicode_len();
    let mut r: Vec<u16> = Vec::new();
    let mut i: usize = 0;
    while i < n
        invariant
            i <= n,
            n == s@.len(),
            r@ == encode_utf16(s@.take(i as int)),
        decreases n - i,
    {
        let c = s.get_char(i);
        let v = c as u32;
        if v < 0x10000 {
            r.push(v as u16);
        } else {
            r.push((0xD800 + (v - 0x10000) / 0x400) as u16);
            r.push((0xDC00 + (v - 0x10000) % 0x400) as u16);
        }
        proof {
            assert(s@.take(i + 1).drop_last() =~= s@.take(i as int));
            assert(s@.take(i + 1).last() == s@[i as int]);
            assert(r@ =~= encode_utf16(s@.take(i + 1)));
        }
        i = i + 1;
    }
    proof {
        assert(s@.take(n as int) =~= s@);
    }
    r
}

/// Whether the encoded units hold a zero.
pub fn contains_zero_unit(w: &Vec<u16>) -> (b: bool)
    ensures
        b == w@.contains(0u16),
{
    let n = w.len();
    let mut i: usize = 0;
    while i < n
        invariant
            i <= n,
            n == w@.len(),
            forall|j: int| 0 <= j < i ==> w@[j] != 0u16,
        decreases n - i,
    {
        if w[i] == 0 {
            assert(w@.contains(0u16));
            return true;
        }
        i = i + 1;
    }
    assert(forall|j: int| 0 <= j < w@.len() ==> w@[j] != 0u16);
    false
}

/// Appends the terminating zero unit to encoded units.
pub fn terminate(mut w: Vec<u16>) -> (r: Vec<u16>)
    ensures
        r@ == w@.push(0u16),
{
    w.push(0);
    w
}

} // verus!
