//! The text of a token: three base64url segments, joined by dots.
//!
//! Whether a text has that shape, and what bytes a segment holds, is
//! decided here, on the characters, before any decoder sees the token.

use vstd::prelude::*;
use vstd::string::StrSliceExecFns;

verus! {

/// A character of the base64url alphabet.
pub open spec fn is_symbol(c: char) -> bool {
    ||| 'A' <= c <= 'Z'
    ||| 'a' <= c <= 'z'
    ||| '0' <= c <= '9'
    ||| c == '-'
    ||| c == '_'
}

/// The six bits that a character of the alphabet stands for.
pub open spec fn symbol_value(c: char) -> int {
    if 'A' <= c <= 'Z' {
        c as int - 65
    } else if 'a' <= c <= 'z' {
        c as int - 71
    } else if '0' <= c <= '9' {
        c as int + 4
    } else if c == '-' {
        62
    } else {
        63
    }
}

/// A base64url segment without padding: characters of the alphabet only,
/// a length that whole bytes can have, and no set bit beyond the last byte.
pub open spec fn is_segment(s: Seq<char>) -> bool {
    &&& forall|p: int| 0 <= p < s.len() ==> is_symbol(#[trigger] s[p])
    &&& s.len() % 4 != 1
    &&& s.len() % 4 == 2 ==> symbol_value(s.last()) % 16 == 0
    &&& s.len() % 4 == 3 ==> symbol_value(s.last()) % 4 == 0
}

/// `token` is three segments, with its two dots at `i` and `j`.
pub open spec fn framed_at(token: Seq<char>, i: int, j: int) -> bool {
    &&& 0 <= i < j < token.len()
    &&& token[i] == '.'
    &&& token[j] == '.'
    &&& is_segment(token.subrange(0, i))
    &&& is_segment(token.subrange(i + 1, j))
    &&& is_segment(token.subrange(j + 1, token.len() as int))
}

/// `token` is three base64url segments joined by dots.
pub open spec fn well_framed(token: Seq<char>) -> bool {
    exists|i: int, j: int| framed_at(token, i, j)
}

/// The first segment of a well-framed token.
pub open spec fn header_segment(token: Seq<char>) -> Seq<char> {
    let (i, j) = choose|i: int, j: int| framed_at(token, i, j);
    token.subrange(0, i)
}

/// The bytes that a segment holds: every four characters give three bytes,
/// a rest of three gives two, a rest of two gives one.
pub open spec fn segment_bytes(s: Seq<char>) -> Seq<u8>
    decreases s.len(),
{
    if s.len() >= 4 {
        let v = ((symbol_value(s[0]) * 64 + symbol_value(s[1])) * 64 + symbol_value(s[2])) * 64
            + symbol_value(s[3]);
        seq![(v / 65536) as u8, (v / 256 % 256) as u8, (v % 256) as u8] + segment_bytes(s.skip(4))
    } else if s.len() == 3 {
        let v = (symbol_value(s[0]) * 64 + symbol_value(s[1])) * 64 + symbol_value(s[2]);
        seq![(v / 1024) as u8, (v / 4 % 256) as u8]
    } else if s.len() == 2 {
        let v = symbol_value(s[0]) * 64 + symbol_value(s[1]);
        seq![(v / 16) as u8]
    } else {
        Seq::empty()
    }
}

/// In a framed token every character but the two dots is of the alphabet.
pub proof fn lemma_framed_symbols(token: Seq<char>, i: int, j: int, k: int)
    requires
        framed_at(token, i, j),
        0 <= k < token.len(),
        k != i,
        k != j,
    ensures
        is_symbol(token[k]),
{
    if k < i {
        assert(token.subrange(0, i)[k] == token[k]);
    } else if k < j {
        assert(token.subrange(i + 1, j)[k - i - 1] == token[k]);
    } else {
        assert(token.subrange(j + 1, token.len() as int)[k - j - 1] == token[k]);
    }
}

/// A token is framed in one way at most.
pub proof fn lemma_frame_unique(token: Seq<char>, i: int, j: int, i2: int, j2: int)
    requires
        framed_at(token, i, j),
        framed_at(token, i2, j2),
    ensures
        i == i2,
        j == j2,
{
    if i2 != i && i2 != j {
        lemma_framed_symbols(token, i, j, i2);
    }
    if j2 != i && j2 != j {
        lemma_framed_symbols(token, i, j, j2);
    }
}

/// The header of a token framed at `i` and `j` is what stands before `i`.
pub proof fn lemma_header_segment(token: Seq<char>, i: int, j: int)
    requires
        framed_at(token, i, j),
    ensures
        well_framed(token),
        header_segment(token) == token.subrange(0, i),
{
    let (i2, j2) = choose|i2: int, j2: int| framed_at(token, i2, j2);
    lemma_frame_unique(token, i, j, i2, j2);
}

/// Whether the byte is a character of the alphabet.
fn symbol(b: u8) -> (r: bool)
    requires
        b < 128,
    ensures
        r == is_symbol(b as char),
{
    (65 <= b && b <= 90) || (97 <= b && b <= 122) || (48 <= b && b <= 57) || b == 45 || b == 95
}

/// The six bits of a character of the alphabet.
fn value(b: u8) -> (v: u8)
    requires
        b < 128,
        is_symbol(b as char),
    ensures
        v == symbol_value(b as char),
        v < 64,
{
    if 65 <= b && b <= 90 {
        b - 65
    } else if 97 <= b && b <= 122 {
        b - 71
    } else if 48 <= b && b <= 57 {
        b + 4
    } else if b == 45 {
        62
    } else {
        63
    }
}

/// Whether the characters from `from` up to `to`, all of the alphabet, make
/// a segment.
fn closes(token: &str, from: usize, to: usize) -> (ok: bool)
    requires
        token.is_ascii(),
        from <= to <= token@.len(),
        forall|p: int| from <= p < to ==> is_symbol(#[trigger] token@[p]),
    ensures
        ok == is_segment(token@.subrange(from as int, to as int)),
{
    let ghost s = token@.subrange(from as int, to as int);
    assert forall|p: int| 0 <= p < s.len() implies is_symbol(#[trigger] s[p]) by {
        assert(s[p] == token@[from + p]);
    }
    let rest = (to - from) % 4;
    if rest == 0 {
        true
    } else if rest == 1 {
        false
    } else {
        let b = token.get_ascii(to - 1);
        assert(s.last() == token@[to - 1]);
        assert(token@[to - 1] == b as char);
        let v = value(b);
        if rest == 2 {
            v % 16 == 0
        } else {
            v % 4 == 0
        }
    }
}

/// Finds the two dots of `token`, if it is three base64url segments.
pub fn frame(token: &str) -> (r: Option<(usize, usize)>)
    ensures
        r is Some <==> well_framed(token@),
        r matches Some(at) ==> framed_at(token@, at.0 as int, at.1 as int) && token.is_ascii(),
{
    if !token.is_ascii() {
        proof {
            let p = choose|p: int|
                0 <= p < token@.len() && !('\0' <= #[trigger] token@[p] <= '\u{7f}');
            assert forall|i: int, j: int| !framed_at(token@, i, j) by {
                if framed_at(token@, i, j) {
                    lemma_framed_symbols(token@, i, j, p);
                }
            }
        }
        return None;
    }
    let n = token.unicode_len();
    let mut first: usize = 0;
    let mut second: usize = 0;
    let mut dots: u8 = 0;
    let mut k: usize = 0;
    while k < n
        invariant
            token.is_ascii(),
            n == token@.len(),
            k <= n,
            dots <= 2,
            dots >= 1 ==> first < k && token@[first as int] == '.',
            dots == 2 ==> first < second < k && token@[second as int] == '.',
            forall|p: int|
                0 <= p < k && !(dots >= 1 && p == first) && !(dots == 2 && p == second)
                    ==> is_symbol(#[trigger] token@[p]),
        decreases n - k,
    {
        let b = token.get_ascii(k);
        assert(token@[k as int] == b as char);
        if b == 46 {
            if dots == 2 {
                proof {
                    assert forall|i: int, j: int| !framed_at(token@, i, j) by {
                        if framed_at(token@, i, j) {
                            if first != i && first != j {
                                lemma_framed_symbols(token@, i, j, first as int);
                            } else if second != i && second != j {
                                lemma_framed_symbols(token@, i, j, second as int);
                            } else {
                                lemma_framed_symbols(token@, i, j, k as int);
                            }
                        }
                    }
                }
                return None;
            } else if dots == 1 {
                second = k;
                dots = 2;
            } else {
                first = k;
                dots = 1;
            }
        } else if !symbol(b) {
            proof {
                assert forall|i: int, j: int| !framed_at(token@, i, j) by {
                    if framed_at(token@, i, j) {
                        lemma_framed_symbols(token@, i, j, k as int);
                    }
                }
            }
            return None;
        }
        k += 1;
    }
    if dots != 2 {
        proof {
            assert forall|i: int, j: int| !framed_at(token@, i, j) by {
                if framed_at(token@, i, j) {
                    assert(!is_symbol(token@[i]));
                    assert(!is_symbol(token@[j]));
                }
            }
        }
        return None;
    }
    let ok = closes(token, 0, first) && closes(token, first + 1, second) && closes(
        token,
        second + 1,
        n,
    );
    if !ok {
        proof {
            assert forall|i: int, j: int| !framed_at(token@, i, j) by {
                if framed_at(token@, i, j) {
                    assert(!is_symbol(token@[i]));
                    assert(!is_symbol(token@[j]));
                }
            }
        }
        return None;
    }
    assert(framed_at(token@, first as int, second as int));
    Some((first, second))
}

/// The bytes of the segment that ends before `to` in a token whose first
/// `to` characters make a segment.
pub fn first_segment_bytes(token: &str, to: usize) -> (bytes: Vec<u8>)
    requires
        to <= token@.len(),
        is_segment(token@.subrange(0, to as int)),
        token.is_ascii(),
    ensures
        bytes@ == segment_bytes(token@.subrange(0, to as int)),
{
    let ghost s = token@.subrange(0, to as int);
    let mut bytes: Vec<u8> = Vec::new();
    let mut k: usize = 0;
    assert(s.skip(0) =~= s);
    while to - k >= 4
        invariant
            token.is_ascii(),
            k <= to <= token@.len(),
            s == token@.subrange(0, to as int),
            is_segment(s),
            segment_bytes(s) == bytes@ + segment_bytes(s.skip(k as int)),
        decreases to - k,
    {
        let ghost rest = s.skip(k as int);
        assert(rest[0] == s[k as int] && rest[1] == s[k + 1] && rest[2] == s[k + 2] && rest[3]
            == s[k + 3]);
        let a = value(ascii_at(token, to, k));
        let b = value(ascii_at(token, to, k + 1));
        let c = value(ascii_at(token, to, k + 2));
        let d = value(ascii_at(token, to, k + 3));
        let v: u32 = ((a as u32 * 64 + b as u32) * 64 + c as u32) * 64 + d as u32;
        let ghost before = bytes@;
        bytes.push((v / 65536) as u8);
        bytes.push((v / 256 % 256) as u8);
        bytes.push((v % 256) as u8);
        assert(rest.skip(4) =~= s.skip(k + 4));
        assert(bytes@ =~= before + seq![(v / 65536) as u8, (v / 256 % 256) as u8, (v % 256) as u8]);
        k += 4;
    }
    let ghost rest = s.skip(k as int);
    if to - k == 3 {
        assert(rest[0] == s[k as int] && rest[1] == s[k + 1] && rest[2] == s[k + 2]);
        let a = value(ascii_at(token, to, k));
        let b = value(ascii_at(token, to, k + 1));
        let c = value(ascii_at(token, to, k + 2));
        let v: u32 = (a as u32 * 64 + b as u32) * 64 + c as u32;
        let ghost before = bytes@;
        bytes.push((v / 1024) as u8);
        bytes.push((v / 4 % 256) as u8);
        assert(bytes@ =~= before + seq![(v / 1024) as u8, (v / 4 % 256) as u8]);
    } else if to - k == 2 {
        assert(rest[0] == s[k as int] && rest[1] == s[k + 1]);
        let a = value(ascii_at(token, to, k));
        let b = value(ascii_at(token, to, k + 1));
        let v: u32 = a as u32 * 64 + b as u32;
        let ghost before = bytes@;
        bytes.push((v / 16) as u8);
        assert(bytes@ =~= before + seq![(v / 16) as u8]);
    } else {
        assert(bytes@ =~= bytes@ + Seq::<u8>::empty());
    }
    bytes
}

/// The character at `k`, which is of the alphabet, as a byte.
fn ascii_at(token: &str, to: usize, k: usize) -> (b: u8)
    requires
        token.is_ascii(),
        k < to <= token@.len(),
        is_segment(token@.subrange(0, to as int)),
    ensures
        b < 128,
        b as char == token@[k as int],
        is_symbol(b as char),
{
    let b = token.get_ascii(k);
    assert(token@.subrange(0, to as int)[k as int] == token@[k as int]);
    b
}

} // verus!
