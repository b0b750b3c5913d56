//! Rendering of numbers as decimal and hexadecimal text.
//!
//! Temporary-file names embed decimal counters, flag values print their
//! residual bits in uppercase hexadecimal, and diagnostic messages show
//! status codes as eight lowercase hexadecimal digits. The spec functions
//! here define those renderings; the exec functions produce them.

use vstd::prelude::*;

verus! {

/// The decimal digit character for `d` (`0 <= d <= 9`).
pub open spec fn dec_digit(d: int) -> char {
    if d == 0 { '0' }
    else if d == 1 { '1' }
    else if d == 2 { '2' }
    else if d == 3 { '3' }
    else if d == 4 { '4' }
    else if d == 5 { '5' }
    else if d == 6 { '6' }
    else if d == 7 { '7' }
    else if d == 8 { '8' }
    else { '9' }
}

/// The decimal rendering of `n`, most significant digit first, with no
/// leading zeros (a single `'0'` for zero).
pub open spec fn dec_chars(n: nat) -> Seq<char>
    decreases n,
{
    if n < 10 {
        seq![dec_digit(n as int)]
    } else {
        dec_chars(n / 10).push(dec_digit((n % 10) as int))
    }
}

/// The uppercase hexadecimal digit character for `d` (`0 <= d <= 15`).
pub open spec fn hex_digit(d: int) -> char {
    if d == 0 { '0' }
    else if d == 1 { '1' }
    else if d == 2 { '2' }
    else if d == 3 { '3' }
    else if d == 4 { '4' }
    else if d == 5 { '5' }
    else if d == 6 { '6' }
    else if d == 7 { '7' }
    else if d == 8 { '8' }
    else if d == 9 { '9' }
    else if d == 10 { 'A' }
    else if d == 11 { 'B' }
    else if d == 12 { 'C' }
    else if d == 13 { 'D' }
    else if d == 14 { 'E' }
    else { 'F' }
}

/// The lowercase hexadecimal digit character for `d` (`0 <= d <= 15`).
pub open spec fn hex_digit_lower(d: int) -> char {
    if d == 0 { '0' }
    else if d == 1 { '1' }
    else if d == 2 { '2' }
    else if d == 3 { '3' }
    else if d == 4 { '4' }
    else if d == 5 { '5' }
    else if d == 6 { '6' }
    else if d == 7 { '7' }
    else if d == 8 { '8' }
    else if d == 9 { '9' }
    else if d == 10 { 'a' }
    else if d == 11 { 'b' }
    else if d == 12 { 'c' }
    else if d == 13 { 'd' }
    else if d == 14 { 'e' }
    else { 'f' }
}

/// The uppercase hexadecimal rendering of `n` with no leading zeros
/// (a single `'0'` for zero).
pub open spec fn hex_chars(n: nat) -> Seq<char>
    decreases n,
{
    if n < 16 {
        seq![hex_digit(n as int)]
    } else {
        hex_chars(n / 16).push(hex_digit((n % 16) as int))
    }
}

/// The lowercase hexadecimal rendering of the low `width` digits of `n`,
/// zero-padded to exactly `width` characters.
pub open spec fn hex_fixed_chars(n: nat, width: nat) -> Seq<char>
    decreases width,
{
    if width == 0 {
        Seq::empty()
    } else {
        hex_fixed_chars(n / 16, (width - 1) as nat).push(hex_digit_lower((n % 16) as int))
    }
}

/// Relies on `String::push`: appends the given character to the end of the
/// string.
#[verifier::external_body]
pub(crate) fn push_char(s: &mut String, c: char)
    ensures
        final(s)@ == old(s)@.push(c),
{
    s.push(c);
}

/// The decimal digit character for `d`.
fn dec_digit_char(d: u64) -> (c: char)
    requires
        d < 10,
    ensures
        c == dec_digit(d as int),
{
    match d {
        0 => '0',
        1 => '1',
        2 => '2',
        3 => '3',
        4 => '4',
        5 => '5',
        6 => '6',
        7 => '7',
        8 => '8',
        _ => '9',
    }
}

/// The uppercase hexadecimal digit character for `d`.
fn hex_digit_char(d: u32) -> (c: char)
    requires
        d < 16,
    ensures
        c == hex_digit(d as int),
{
    match d {
        0 => '0',
        1 => '1',
        2 => '2',
        3 => '3',
        4 => '4',
        5 => '5',
        6 => '6',
        7 => '7',
        8 => '8',
        9 => '9',
        10 => 'A',
        11 => 'B',
        12 => 'C',
        13 => 'D',
        14 => 'E',
        _ => 'F',
    }
}

/// The lowercase hexadecimal digit character for `d`.
fn hex_digit_lower_char(d: u32) -> (c: char)
    requires
        d < 16,
    ensures
        c == hex_digit_lower(d as int),
{
    match d {
        0 => '0',
        1 => '1',
        2 => '2',
        3 => '3',
        4 => '4',
        5 => '5',
        6 => '6',
        7 => '7',
        8 => '8',
        9 => '9',
        10 => 'a',
        11 => 'b',
        12 => 'c',
        13 => 'd',
        14 => 'e',
        _ => 'f',
    }
}

/// Renders `n` in decimal.
pub(crate) fn u64_to_dec(n: u64) -> (r: String)
    ensures
        r@ == dec_chars(n as nat),
    decreases n,
{
    if n < 10 {
        let mut s = String::new();
        push_char(&mut s, dec_digit_char(n));
        s
    } else {
        let mut s = u64_to_dec(n / 10);
        push_char(&mut s, dec_digit_char(n % 10));
        s
    }
}

/// Renders `n` in uppercase hexadecimal with no leading zeros.
pub(crate) fn u32_to_hex(n: u32) -> (r: String)
    ensures
        r@ == hex_chars(n as nat),
    decreases n,
{
    if n < 16 {
        let mut s = String::new();
        push_char(&mut s, hex_digit_char(n));
        s
    } else {
        let mut s = u32_to_hex(n / 16);
        push_char(&mut s, hex_digit_char(n % 16));
        s
    }
}

/// Renders the low `width` hexadecimal digits of `n` in lowercase,
/// zero-padded to exactly `width` characters.
fn u32_to_hex_fixed(n: u32, width: u32) -> (r: String)
    ensures
        r@ == hex_fixed_chars(n as nat, width as nat),
    decreases width,
{
    if width == 0 {
        String::new()
    } else {
        let mut s = u32_to_hex_fixed(n / 16, width - 1);
        push_char(&mut s, hex_digit_lower_char(n % 16));
        s
    }
}

/// Renders `n` as exactly eight lowercase hexadecimal digits, the shape
/// status codes take in diagnostic messages.
pub(crate) fn u32_to_hex8(n: u32) -> (r: String)
    ensures
        r@ == hex_fixed_chars(n as nat, 8),
{
    u32_to_hex_fixed(n, 8)
}

/// Every decimal rendering has at least one character.
pub proof fn lemma_dec_chars_len(n: nat)
    ensures
        dec_chars(n).len() >= 1,
    decreases n,
{
    if n >= 10 {
        lemma_dec_chars_len(n / 10);
    }
}

/// Distinct numbers have distinct decimal renderings.
pub proof fn lemma_dec_chars_injective(a: nat, b: nat)
    requires
        a != b,
    ensures
        dec_chars(a) != dec_chars(b),
    decreases a + b,
{
    if a < 10 && b < 10 {
        assert(dec_chars(a)[0] == dec_digit(a as int));
        assert(dec_chars(b)[0] == dec_digit(b as int));
    } else if a < 10 && b >= 10 {
        lemma_dec_chars_len(b / 10);
        assert(dec_chars(a).len() == 1);
        assert(dec_chars(b).len() >= 2);
    } else if a >= 10 && b < 10 {
        lemma_dec_chars_len(a / 10);
        assert(dec_chars(a).len() >= 2);
        assert(dec_chars(b).len() == 1);
    } else {
        if a % 10 != b % 10 {
            assert(dec_chars(a).last() == dec_digit((a % 10) as int));
            assert(dec_chars(b).last() == dec_digit((b % 10) as int));
        } else {
            assert(a / 10 != b / 10);
            lemma_dec_chars_injective(a / 10, b / 10);
            if dec_chars(a) == dec_chars(b) {
                assert(dec_chars(a).drop_last() =~= dec_chars(a / 10));
                assert(dec_chars(b).drop_last() =~= dec_chars(b / 10));
            }
        }
    }
}

} // verus!
