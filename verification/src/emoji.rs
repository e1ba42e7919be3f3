//! Emoji utilities: emoji data in the "unified" notation (code points in
//! hexadecimal, joined by `-`), and picks from it seeded by the clock.

use vstd::prelude::*;
use crate::text::{chars_of, push_char};

verus! {

/// Emojis, by their unified code point sequences.
pub const EMOJI_DATA: [&'static str; 40] = [
    "1F600", "1F603", "1F604", "1F601", "1F606", "1F605", "1F923", "1F602", "1F642", "1F643",
    "1F609", "1F60A", "1F607", "1F970", "1F60D", "1F929", "1F618", "1F617", "1F61A", "1F619",
    "1F60B", "1F61B", "1F61C", "1F92A", "1F61D", "1F911", "1F917", "1F92D", "1F92B", "1F914",
    "1F44D", "1F44E", "1F44F", "1F64C", "1F44B", "1F525", "2728", "1F389", "2764-FE0F", "1F60E",
];

/// Value of a hexadecimal digit.
pub open spec fn hex_digit(c: char) -> Option<nat> {
    if '0' <= c <= '9' {
        Some(((c as int) - ('0' as int)) as nat)
    } else if 'a' <= c <= 'f' {
        Some(((c as int) - ('a' as int) + 10) as nat)
    } else if 'A' <= c <= 'F' {
        Some(((c as int) - ('A' as int) + 10) as nat)
    } else {
        None
    }
}

/// Value of a run of hexadecimal digits, `None` when a character is not one.
pub open spec fn hex_value(s: Seq<char>) -> Option<nat>
    decreases s.len(),
{
    if s.len() == 0 {
        Some(0)
    } else {
        match (hex_value(s.drop_last()), hex_digit(s.last())) {
            (Some(v), Some(d)) => Some(v * 16 + d),
            _ => None,
        }
    }
}

/// `u32::from_str_radix(s, 16)`: an optional `+`, then one or more hex digits,
/// with the value in range.
pub open spec fn parse_hex_u32(s: Seq<char>) -> Option<u32> {
    let d = if s.len() > 0 && s[0] == '+' { s.drop_first() } else { s };
    if d.len() == 0 {
        None
    } else {
        match hex_value(d) {
            Some(v) => if v <= u32::MAX { Some(v as u32) } else { None },
            None => None,
        }
    }
}

/// `v` is a Unicode scalar value, the values `char` can hold.
pub open spec fn is_char_value(v: u32) -> bool {
    v <= 0x10FFFF && !(0xD800 <= v <= 0xDFFF)
}

/// The character one part of a unified name stands for (none when the part
/// is not a hex number of a Unicode scalar value).
pub open spec fn decode_part(p: Seq<char>) -> Seq<char> {
    match parse_hex_u32(p) {
        Some(v) => if is_char_value(v) { seq![v as char] } else { Seq::empty() },
        None => Seq::empty(),
    }
}

/// Decoding of `s` when `cur` is the part read so far: each `-` ends a part.
pub open spec fn decode_unified(s: Seq<char>, cur: Seq<char>) -> Seq<char>
    decreases s.len(),
{
    if s.len() == 0 {
        decode_part(cur)
    } else if s[0] == '-' {
        decode_part(cur) + decode_unified(s.drop_first(), Seq::empty())
    } else {
        decode_unified(s.drop_first(), cur.push(s[0]))
    }
}

/// The emoji a unified name stands for.
pub open spec fn unified_to_emoji_spec(unified: Seq<char>) -> Seq<char> {
    decode_unified(unified, Seq::empty())
}

/// `char::from_u32`: the character with this value, `None` when the value is
/// not a Unicode scalar value (above `0x10FFFF` or a surrogate).
#[verifier::external_body]
fn char_from_u32(v: u32) -> (r: Option<char>)
    ensures
        is_char_value(v) ==> r == Some(v as char),
        !is_char_value(v) ==> r is None,
{
    char::from_u32(v)
}

fn hex_digit_exec(c: char) -> (r: Option<u32>)
    ensures
        match hex_digit(c) {
            Some(d) => r == Some(d as u32),
            None => r is None,
        },
{
    if '0' <= c && c <= '9' {
        Some(c as u32 - '0' as u32)
    } else if 'a' <= c && c <= 'f' {
        Some(c as u32 - 'a' as u32 + 10)
    } else if 'A' <= c && c <= 'F' {
        Some(c as u32 - 'A' as u32 + 10)
    } else {
        None
    }
}

/// `u32::from_str_radix(part, 16).ok()`.
fn parse_hex_exec(p: &Vec<char>) -> (r: Option<u32>)
    ensures
        r == parse_hex_u32(p@),
{
    let start: usize = if p.len() > 0 && p[0] == '+' { 1 } else { 0 };
    let ghost d = if p@.len() > 0 && p@[0] == '+' { p@.drop_first() } else { p@ };
    assert(d =~= p@.subrange(start as int, p@.len() as int));
    if start == p.len() {
        return None;
    }
    let mut acc: u64 = 0;
    let mut i: usize = start;
    while i < p.len()
        invariant
            start <= i <= p.len(),
            d =~= p@.subrange(start as int, p@.len() as int),
            d == (if p@.len() > 0 && p@[0] == '+' { p@.drop_first() } else { p@ }),
            d.len() > 0,
            hex_value(d.take(i - start)) == Some(acc as nat),
            acc <= u32::MAX,
        decreases p.len() - i,
    {
        assert(d.take(i + 1 - start).drop_last() =~= d.take(i - start));
        assert(d.take(i + 1 - start).last() == p@[i as int]);
        match hex_digit_exec(p[i]) {
            None => {
                proof { lemma_hex_value_prefix_none(d, i + 1 - start); }
                return None;
            },
            Some(dv) => {
                let next: u64 = acc * 16 + dv as u64;
                if next > u32::MAX as u64 {
                    proof { lemma_hex_value_prefix_grows(d, i + 1 - start, next as nat); }
                    return None;
                }
                acc = next;
            },
        }
        i = i + 1;
    }
    assert(d.take(i - start) =~= d);
    Some(acc as u32)
}

/// A prefix without value leaves the whole run without value.
proof fn lemma_hex_value_prefix_none(s: Seq<char>, i: int)
    requires
        0 <= i <= s.len(),
        hex_value(s.take(i)) is None,
    ensures
        hex_value(s) is None,
    decreases s.len() - i,
{
    if i < s.len() {
        assert(s.take(i + 1).drop_last() =~= s.take(i));
        lemma_hex_value_prefix_none(s, i + 1);
    } else {
        assert(s.take(i) =~= s);
    }
}

/// Longer runs have larger values.
proof fn lemma_hex_value_prefix_grows(s: Seq<char>, i: int, v: nat)
    requires
        0 <= i <= s.len(),
        hex_value(s.take(i)) == Some(v),
    ensures
        hex_value(s) matches Some(w) ==> w >= v,
    decreases s.len() - i,
{
    if i < s.len() {
        assert(s.take(i + 1).drop_last() =~= s.take(i));
        match hex_value(s.take(i + 1)) {
            Some(w) => {
                lemma_hex_value_prefix_grows(s, i + 1, w);
            },
            None => {
                lemma_hex_value_prefix_none(s, i + 1);
            },
        }
    } else {
        assert(s.take(i) =~= s);
    }
}

fn push_decoded_part(out: &mut String, part: &Vec<char>)
    ensures
        final(out)@ == old(out)@ + decode_part(part@),
{
    match parse_hex_exec(part) {
        Some(v) => match char_from_u32(v) {
            Some(c) => {
                push_char(out, c);
                assert(seq![c] =~= decode_part(part@));
            },
            None => {
                assert(old(out)@ + decode_part(part@) =~= old(out)@);
            },
        },
        None => {
            assert(old(out)@ + decode_part(part@) =~= old(out)@);
        },
    }
}

/// The emoji for a unified name: each `-`-separated part is read as a
/// hexadecimal code point; parts that are not code points are skipped.
pub fn unified_to_emoji(unified: &str) -> (r: String)
    ensures
        r@ == unified_to_emoji_spec(unified@),
{
    let v = chars_of(unified);
    let mut out = String::new();
    let mut cur: Vec<char> = Vec::new();
    let mut i: usize = 0;
    assert(v@.skip(0) =~= v@);
    while i < v.len()
        invariant
            i <= v.len(),
            v@ == unified@,
            out@ + decode_unified(v@.skip(i as int), cur@) == unified_to_emoji_spec(unified@),
        decreases v.len() - i,
    {
        let c = v[i];
        assert(v@.skip(i as int).drop_first() =~= v@.skip(i + 1));
        assert(v@.skip(i as int)[0] == c);
        if c == '-' {
            let ghost before = out@;
            push_decoded_part(&mut out, &cur);
            assert(out@ + decode_unified(v@.skip(i + 1), Seq::<char>::empty())
                =~= before + decode_unified(v@.skip(i as int), cur@));
            cur = Vec::new();
            assert(cur@ =~= Seq::<char>::empty());
        } else {
            cur.push(c);
        }
        i = i + 1;
    }
    let ghost before = out@;
    push_decoded_part(&mut out, &cur);
    assert(v@.skip(i as int) =~= Seq::<char>::empty());
    out
}

/// The emoji of entry `seed` (modulo the number of entries) of the data.
pub fn emoji_at(seed: u64) -> (r: String)
    ensures
        r@ == unified_to_emoji_spec(EMOJI_DATA@[(seed % 40) as int]@),
{
    let i: usize = (seed % 40) as usize;
    unified_to_emoji(EMOJI_DATA[i])
}

/// A random emoji from the data.
pub fn random_emoji() -> (r: String)
    ensures
        exists|i: int| 0 <= i < 40 && r@ == unified_to_emoji_spec(#[trigger] EMOJI_DATA@[i]@),
{
    let clock: (i64, u32) = crate::clock::now();
    let seed: u64 = clock.1 as u64;
    let r = emoji_at(seed);
    assert(0 <= ((seed % 40) as int) && ((seed % 40) as int) < 40);
    r
}

} // verus!
