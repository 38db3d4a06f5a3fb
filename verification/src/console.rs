//! Normalization of console input and the quit test.
//!
//! The supervisor's worker action reads one line from the console. The
//! line is normalized — surrounding white space trimmed, ASCII letters
//! lowercased — and the protocol shuts down exactly when the normalized
//! line is the single byte `q`. Trimming removes the Unicode white-space
//! characters, recognized by their UTF-8 encodings at the ends of the
//! line's byte sequence; lower-casing folds the ASCII letters and leaves
//! every other byte alone. The blocking read itself stays with the
//! caller; the normalization and the decision are modelled here over the
//! raw bytes of the line.

use vstd::prelude::*;

verus! {

/// The byte value of the quit command, `q`.
pub const QUIT_BYTE: u8 = 113;

/// Whether `b` encodes a one-byte white-space character: tab, line
/// feed, vertical tab, form feed, carriage return or space.
pub open spec fn is_space_1(b: u8) -> bool {
    b == 32 || (9 <= b && b <= 13)
}

/// Whether `b0 b1` encode a two-byte white-space character: next line
/// (U+0085) or no-break space (U+00A0).
pub open spec fn is_space_2(b0: u8, b1: u8) -> bool {
    b0 == 0xC2 && (b1 == 0x85 || b1 == 0xA0)
}

/// Whether `b0 b1 b2` encode a three-byte white-space character: ogham
/// space mark (U+1680), the fixed-width spaces U+2000 through U+200A,
/// line separator (U+2028), paragraph separator (U+2029), narrow
/// no-break space (U+202F), medium mathematical space (U+205F) or
/// ideographic space (U+3000).
pub open spec fn is_space_3(b0: u8, b1: u8, b2: u8) -> bool {
    ||| b0 == 0xE1 && b1 == 0x9A && b2 == 0x80
    ||| b0 == 0xE2 && b1 == 0x80 && (0x80 <= b2 && b2 <= 0x8A)
    ||| b0 == 0xE2 && b1 == 0x80 && (b2 == 0xA8 || b2 == 0xA9 || b2 == 0xAF)
    ||| b0 == 0xE2 && b1 == 0x81 && b2 == 0x9F
    ||| b0 == 0xE3 && b1 == 0x80 && b2 == 0x80
}

/// The length of the white-space character encoded at the front of `s`:
/// 1, 2 or 3 bytes, or 0 when `s` does not open with white space.
pub open spec fn ws_prefix_len(s: Seq<u8>) -> int {
    if s.len() >= 3 && is_space_3(s[0], s[1], s[2]) {
        3
    } else if s.len() >= 2 && is_space_2(s[0], s[1]) {
        2
    } else if s.len() >= 1 && is_space_1(s[0]) {
        1
    } else {
        0
    }
}

/// The length of the white-space character encoded at the back of `s`:
/// 1, 2 or 3 bytes, or 0 when `s` does not end in white space. At most
/// one encoding can match, since no one-byte white-space character is a
/// UTF-8 continuation byte and no lead byte of one encoding continues
/// another.
pub open spec fn ws_suffix_len(s: Seq<u8>) -> int {
    if s.len() >= 3 && is_space_3(s[s.len() - 3], s[s.len() - 2], s[s.len() - 1]) {
        3
    } else if s.len() >= 2 && is_space_2(s[s.len() - 2], s[s.len() - 1]) {
        2
    } else if s.len() >= 1 && is_space_1(s[s.len() - 1]) {
        1
    } else {
        0
    }
}

/// `s` with its leading white-space characters removed.
pub open spec fn trim_front(s: Seq<u8>) -> Seq<u8>
    decreases s.len(),
{
    if ws_prefix_len(s) > 0 {
        trim_front(s.skip(ws_prefix_len(s)))
    } else {
        s
    }
}

/// `s` with its trailing white-space characters removed.
pub open spec fn trim_back(s: Seq<u8>) -> Seq<u8>
    decreases s.len(),
{
    if ws_suffix_len(s) > 0 {
        trim_back(s.take(s.len() - ws_suffix_len(s)))
    } else {
        s
    }
}

/// `b` with an ASCII upper-case letter folded to lower case.
pub open spec fn to_lower(b: u8) -> u8 {
    if 65 <= b && b <= 90 {
        (b + 32) as u8
    } else {
        b
    }
}

/// Every byte of `s` folded to lower case.
pub open spec fn lower_all(s: Seq<u8>) -> Seq<u8> {
    Seq::new(s.len(), |j: int| to_lower(s[j]))
}

/// A console line in normal form: trimmed at both ends, lower-cased.
pub open spec fn normalized(s: Seq<u8>) -> Seq<u8> {
    lower_all(trim_back(trim_front(s)))
}

/// Whether the console line `s` commands the supervisor to quit: its
/// normal form is the single byte `q`.
pub open spec fn is_quit_line(s: Seq<u8>) -> bool {
    normalized(s) == seq![QUIT_BYTE]
}

/// Exec mirror of [`is_space_1`].
fn space_1(b: u8) -> (r: bool)
    ensures
        r == is_space_1(b),
{
    b == 32 || (9 <= b && b <= 13)
}

/// Exec mirror of [`is_space_2`].
fn space_2(b0: u8, b1: u8) -> (r: bool)
    ensures
        r == is_space_2(b0, b1),
{
    b0 == 0xC2 && (b1 == 0x85 || b1 == 0xA0)
}

/// Exec mirror of [`is_space_3`].
fn space_3(b0: u8, b1: u8, b2: u8) -> (r: bool)
    ensures
        r == is_space_3(b0, b1, b2),
{
    (b0 == 0xE1 && b1 == 0x9A && b2 == 0x80)
        || (b0 == 0xE2 && b1 == 0x80 && (0x80 <= b2 && b2 <= 0x8A))
        || (b0 == 0xE2 && b1 == 0x80 && (b2 == 0xA8 || b2 == 0xA9 || b2 == 0xAF))
        || (b0 == 0xE2 && b1 == 0x81 && b2 == 0x9F)
        || (b0 == 0xE3 && b1 == 0x80 && b2 == 0x80)
}

/// The length of the white-space character encoded at byte `i` of the
/// line, 0 when none opens there.
fn space_len_at(line: &Vec<u8>, i: usize) -> (k: usize)
    requires
        i <= line@.len(),
    ensures
        k as int == ws_prefix_len(line@.skip(i as int)),
        i + k <= line@.len(),
{
    proof {
        let s = line@.skip(i as int);
        assert(s.len() == line@.len() - i);
        if s.len() >= 1 {
            assert(s[0] == line@[i as int]);
        }
        if s.len() >= 2 {
            assert(s[1] == line@[i as int + 1]);
        }
        if s.len() >= 3 {
            assert(s[2] == line@[i as int + 2]);
        }
    }
    let n = line.len();
    if n - i >= 3 && space_3(line[i], line[i + 1], line[i + 2]) {
        3
    } else if n - i >= 2 && space_2(line[i], line[i + 1]) {
        2
    } else if n - i >= 1 && space_1(line[i]) {
        1
    } else {
        0
    }
}

/// The length of the white-space character encoded just before byte
/// `end`, looking no further back than `start`; 0 when none ends there.
fn space_len_back(line: &Vec<u8>, start: usize, end: usize) -> (k: usize)
    requires
        start <= end <= line@.len(),
    ensures
        k as int == ws_suffix_len(line@.subrange(start as int, end as int)),
        k <= end - start,
{
    proof {
        let t = line@.subrange(start as int, end as int);
        assert(t.len() == end - start);
        if t.len() >= 1 {
            assert(t[t.len() - 1] == line@[end as int - 1]);
        }
        if t.len() >= 2 {
            assert(t[t.len() - 2] == line@[end as int - 2]);
        }
        if t.len() >= 3 {
            assert(t[t.len() - 3] == line@[end as int - 3]);
        }
    }
    if end - start >= 3 && space_3(line[end - 3], line[end - 2], line[end - 1]) {
        3
    } else if end - start >= 2 && space_2(line[end - 2], line[end - 1]) {
        2
    } else if end - start >= 1 && space_1(line[end - 1]) {
        1
    } else {
        0
    }
}

/// Exec mirror of [`to_lower`].
fn lower_byte(b: u8) -> (r: u8)
    ensures
        r == to_lower(b),
{
    if 65 <= b && b <= 90 {
        b + 32
    } else {
        b
    }
}

/// Normalizes one console line: trims white space — Unicode white-space
/// characters, by their UTF-8 encodings — from both ends and folds
/// ASCII letters to lower case.
pub fn normalize_line(line: &Vec<u8>) -> (r: Vec<u8>)
    ensures
        r@ == normalized(line@),
{
    let n = line.len();
    let mut start: usize = 0;
    proof {
        assert(line@.skip(0) =~= line@);
    }
    let mut k = space_len_at(line, 0);
    while k > 0
        invariant
            start + k <= n,
            n == line@.len(),
            k as int == ws_prefix_len(line@.skip(start as int)),
            trim_front(line@) == trim_front(line@.skip(start as int)),
        decreases n - start,
    {
        proof {
            let s = line@.skip(start as int);
            assert(s.skip(k as int) =~= line@.skip(start as int + k as int));
            assert(trim_front(s) == trim_front(s.skip(k as int)));
        }
        start = start + k;
        k = space_len_at(line, start);
    }
    proof {
        assert(trim_front(line@) == line@.skip(start as int));
        assert(line@.skip(start as int) =~= line@.subrange(start as int, n as int));
    }
    let mut end: usize = n;
    let mut k2 = space_len_back(line, start, end);
    while k2 > 0
        invariant
            start <= end <= n,
            n == line@.len(),
            k2 <= end - start,
            k2 as int == ws_suffix_len(line@.subrange(start as int, end as int)),
            trim_back(line@.subrange(start as int, n as int))
                == trim_back(line@.subrange(start as int, end as int)),
        decreases end,
    {
        proof {
            let t = line@.subrange(start as int, end as int);
            assert(t.take(t.len() - k2 as int)
                =~= line@.subrange(start as int, end as int - k2 as int));
            assert(trim_back(t) == trim_back(t.take(t.len() - k2 as int)));
        }
        end = end - k2;
        k2 = space_len_back(line, start, end);
    }
    proof {
        assert(trim_back(trim_front(line@)) == line@.subrange(start as int, end as int));
    }
    let mut out: Vec<u8> = Vec::new();
    let mut i: usize = start;
    proof {
        assert(out@ =~= lower_all(line@.subrange(start as int, start as int)));
    }
    while i < end
        invariant
            start <= i <= end <= n,
            n == line@.len(),
            out@ == lower_all(line@.subrange(start as int, i as int)),
        decreases end - i,
    {
        out.push(lower_byte(line[i]));
        proof {
            assert(out@ =~= lower_all(line@.subrange(start as int, i as int + 1)));
        }
        i = i + 1;
    }
    proof {
        assert(out@ =~= normalized(line@));
    }
    out
}

/// Whether the console line commands the supervisor to quit: after
/// trimming and lower-casing, exactly `q` remains.
pub fn is_quit(line: &Vec<u8>) -> (r: bool)
    ensures
        r == is_quit_line(line@),
{
    let norm = normalize_line(line);
    if norm.len() == 1 && norm[0] == QUIT_BYTE {
        proof {
            assert(norm@ =~= seq![QUIT_BYTE]);
        }
        true
    } else {
        proof {
            if norm@ == seq![QUIT_BYTE] {
                assert(norm@.len() == 1);
                assert(norm@[0] == QUIT_BYTE);
            }
        }
        false
    }
}

} // verus!
