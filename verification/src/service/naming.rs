//! Naming of sticker packs: versions, pack names and pack links.

use vstd::prelude::*;
use vstd::utf8::{encode_utf8, is_ascii_chars};
use crate::text::{
    all_digits, chars_of, first_index_of, has_prefix, index_of_char, int_decimal, is_digit,
    lemma_digits_no_char, lemma_first_index_of, lemma_first_index_of_append, lemma_nat_decimal, nat_decimal, parse_unsigned, parse_unsigned_range, push_char, push_chars,
    owned, push_i64, push_str, push_u32, starts_with,
};

verus! {

/// The `Vol` prefix of version strings.
pub open spec fn vol() -> Seq<char> {
    seq!['V', 'o', 'l']
}

/// `s` begins with `Vol`.
pub open spec fn has_prefix_vol(s: Seq<char>) -> bool {
    has_prefix(s, vol())
}

/// A version string without its `Vol` prefix (`strip_prefix("Vol").unwrap_or(..)`).
pub open spec fn strip_vol(s: Seq<char>) -> Seq<char> {
    if has_prefix(s, vol()) { s.skip(3) } else { s }
}

/// A `u32` parsed from `s`, or `default` when `s` does not parse.
pub open spec fn parse_u32_or(s: Seq<char>, default: nat) -> nat {
    match parse_unsigned(s, u32::MAX as nat) {
        Some(n) => n,
        None => default,
    }
}

/// Major and minor number of a version, as `next_version` reads them.
pub open spec fn version_numbers(cur: Seq<char>) -> (nat, Option<nat>) {
    let v = strip_vol(cur);
    match first_index_of(v, '.') {
        Some(d) => (parse_u32_or(v.take(d), 1), Some(parse_u32_or(v.skip(d + 1), 0))),
        None => (parse_u32_or(v, 1), None),
    }
}

/// Rendering of a version number pair: `Vol{major}` or `Vol{major}.{minor}`.
pub open spec fn version_string(major: nat, minor: Option<nat>) -> Seq<char> {
    match minor {
        Some(m) => vol() + nat_decimal(major) + seq!['.'] + nat_decimal(m),
        None => vol() + nat_decimal(major),
    }
}

/// The version that follows `cur`: `Vol1 -> Vol1.1 -> ... -> Vol1.9 -> Vol2 -> ...`.
pub open spec fn next_version_spec(cur: Seq<char>) -> Seq<char> {
    let (major, minor) = version_numbers(cur);
    match minor {
        Some(m) => if m >= 9 {
            version_string(major + 1, None)
        } else {
            version_string(major, Some(m + 1))
        },
        None => version_string(major, Some(1)),
    }
}

/// `next_version` would overflow the major number on this input.
pub open spec fn next_version_overflows(cur: Seq<char>) -> bool {
    let (major, minor) = version_numbers(cur);
    minor matches Some(m) && m >= 9 && major == u32::MAX
}

/// `u{telegram_id}V{version}_by_{bot_username}`.
pub open spec fn pack_link_spec(telegram_id: i64, version: Seq<char>, bot_username: Seq<char>) -> Seq<char> {
    seq!['u'] + int_decimal(telegram_id as int) + seq!['V'] + version + seq!['_', 'b', 'y', '_'] + bot_username
}

/// `@{username}'s Kang Pack {version}`.
pub open spec fn pack_name_spec(username: Seq<char>, version: Seq<char>) -> Seq<char> {
    seq!['@'] + username + "'s Kang Pack "@ + version
}

/// ASCII letter.
pub open spec fn is_ascii_alpha(c: char) -> bool {
    ('a' <= c <= 'z') || ('A' <= c <= 'Z')
}

/// ASCII letter or digit.
pub open spec fn is_ascii_alnum(c: char) -> bool {
    is_ascii_alpha(c) || ('0' <= c <= '9')
}

/// A character allowed in a pack link name: ASCII letter, digit or `_`.
pub open spec fn is_link_char(c: char) -> bool {
    is_ascii_alnum(c) || c == '_'
}

/// The characters of `s` that are allowed in a link, in order.
pub open spec fn link_chars(s: Seq<char>) -> Seq<char>
    decreases s.len(),
{
    if s.len() == 0 {
        s
    } else if is_link_char(s.last()) {
        link_chars(s.drop_last()).push(s.last())
    } else {
        link_chars(s.drop_last())
    }
}

/// `s` without trailing underscores (`trim_end_matches('_')`).
pub open spec fn trim_trailing_underscores(s: Seq<char>) -> Seq<char>
    decreases s.len(),
{
    if s.len() > 0 && s.last() == '_' {
        trim_trailing_underscores(s.drop_last())
    } else {
        s
    }
}

/// `_u{telegram_id}_by_{bot_username}`.
pub open spec fn custom_link_suffix(telegram_id: i64, bot_username: Seq<char>) -> Seq<char> {
    seq!['_', 'u'] + int_decimal(telegram_id as int) + seq!['_', 'b', 'y', '_'] + bot_username
}

/// The name part of a custom pack link before it is cut to length:
/// the allowed characters of the pack name (or `pack` when none), with
/// `p_` in front when it does not begin with a letter.
pub open spec fn custom_link_name(pack_name: Seq<char>) -> Seq<char> {
    let kept = link_chars(pack_name);
    let base = if kept.len() == 0 { seq!['p', 'a', 'c', 'k'] } else { kept };
    if !is_ascii_alpha(base[0]) { seq!['p', '_'] + base } else { base }
}

/// Room left for the name in a 64-byte link once the suffix is placed.
pub open spec fn custom_link_room(suffix: Seq<char>) -> nat {
    let n = encode_utf8(suffix).len() as usize;
    if n >= 64 { 0 } else { (64 - n) as nat }
}

/// `{sanitized_name}_u{telegram_id}_by_{bot_username}`.
pub open spec fn custom_pack_link_spec(telegram_id: i64, pack_name: Seq<char>, bot_username: Seq<char>) -> Seq<char> {
    let suffix = custom_link_suffix(telegram_id, bot_username);
    let name = custom_link_name(pack_name);
    let room = custom_link_room(suffix);
    let cut = if name.len() > room { trim_trailing_underscores(name.take(room as int)) } else { name };
    cut + suffix
}

// ---------------------------------------------------------------------------
// Lemmas
// ---------------------------------------------------------------------------

pub proof fn lemma_link_chars(s: Seq<char>)
    ensures
        forall|i: int| 0 <= i < link_chars(s).len() ==> is_link_char(#[trigger] link_chars(s)[i]),
        link_chars(s).len() <= s.len(),
    decreases s.len(),
{
    if s.len() > 0 {
        lemma_link_chars(s.drop_last());
        if is_link_char(s.last()) {
            let t = link_chars(s.drop_last());
            assert forall|i: int| 0 <= i < link_chars(s).len() implies is_link_char(#[trigger] link_chars(s)[i]) by {
                if i < t.len() {
                    assert(link_chars(s)[i] == t[i]);
                }
            }
        }
    }
}

pub proof fn lemma_trim_trailing_underscores(s: Seq<char>)
    ensures
        trim_trailing_underscores(s).len() <= s.len(),
        trim_trailing_underscores(s) == s.take(trim_trailing_underscores(s).len() as int),
        s.len() > 0 && s[0] != '_' ==> trim_trailing_underscores(s).len() > 0,
    decreases s.len(),
{
    if s.len() > 0 && s.last() == '_' {
        lemma_trim_trailing_underscores(s.drop_last());
        let t = trim_trailing_underscores(s.drop_last());
        assert(s.drop_last().take(t.len() as int) =~= s.take(t.len() as int));
        if s.len() > 1 {
            assert(s.drop_last()[0] == s[0]);
        }
    } else {
        assert(s.take(s.len() as int) =~= s);
    }
}

/// The UTF-8 length of a concatenation is the sum of the lengths.
pub proof fn lemma_encode_utf8_len_concat(a: Seq<char>, b: Seq<char>)
    ensures
        encode_utf8(a + b).len() == encode_utf8(a).len() + encode_utf8(b).len(),
    decreases a.len(),
{
    if a.len() > 0 {
        assert((a + b).drop_first() =~= a.drop_first() + b);
        lemma_encode_utf8_len_concat(a.drop_first(), b);
    } else {
        assert(a + b =~= b);
    }
}

/// The name part of a custom link holds link characters only and begins with a letter.
pub proof fn lemma_custom_link_name(pack_name: Seq<char>)
    ensures
        custom_link_name(pack_name).len() > 0,
        is_ascii_alpha(custom_link_name(pack_name)[0]),
        forall|i: int| 0 <= i < custom_link_name(pack_name).len()
            ==> is_link_char(#[trigger] custom_link_name(pack_name)[i]),
{
    lemma_link_chars(pack_name);
    let kept = link_chars(pack_name);
    let base = if kept.len() == 0 { seq!['p', 'a', 'c', 'k'] } else { kept };
    assert forall|i: int| 0 <= i < base.len() implies is_link_char(#[trigger] base[i]) by {}
    if !is_ascii_alpha(base[0]) {
        let n = seq!['p', '_'] + base;
        assert forall|i: int| 0 <= i < n.len() implies is_link_char(#[trigger] n[i]) by {
            if i >= 2 {
                assert(n[i] == base[i - 2]);
            }
        }
    }
}

/// ASCII characters are link characters' superset.
pub proof fn lemma_link_chars_ascii(s: Seq<char>)
    requires
        forall|i: int| 0 <= i < s.len() ==> is_link_char(#[trigger] s[i]),
    ensures
        is_ascii_chars(s),
{
}

/// A decimal rendering parses back to its number.
pub proof fn lemma_parse_decimal(n: nat, max: nat)
    requires
        n <= max,
    ensures
        parse_unsigned(nat_decimal(n), max) == Some(n),
{
    lemma_nat_decimal(n);
    assert(is_digit(nat_decimal(n)[0]));
}

/// The version sequence: `Vol{N}` is followed by `Vol{N}.1`, `Vol{N}.{M}` by
/// `Vol{N}.{M+1}` while `M` is below 9, and `Vol{N}.9` (or a higher minor
/// number) by `Vol{N+1}`.
pub proof fn law_next_version_sequence(major: nat, minor: Option<nat>)
    requires
        major <= u32::MAX,
        minor matches Some(m) ==> m <= u32::MAX,
    ensures
        next_version_spec(version_string(major, minor)) == match minor {
            None => version_string(major, Some(1)),
            Some(m) => if m >= 9 { version_string(major + 1, None) } else { version_string(major, Some(m + 1)) },
        },
        !next_version_overflows(version_string(major, minor)) <==> !(minor matches Some(m) && m >= 9 && major == u32::MAX),
{
    let s = version_string(major, minor);
    let dm = nat_decimal(major);
    lemma_nat_decimal(major);
    lemma_parse_decimal(major, u32::MAX as nat);
    assert(s.subrange(0, 3) =~= vol());
    assert(has_prefix(s, vol()));
    lemma_digits_no_char(dm, '.');
    match minor {
        None => {
            assert(strip_vol(s) =~= dm);
        },
        Some(m) => {
            let rest = seq!['.'] + nat_decimal(m);
            assert(strip_vol(s) =~= dm + rest);
            lemma_first_index_of_append(dm, rest, '.');
            assert(first_index_of(rest, '.') == Some(0int));
            let v = strip_vol(s);
            let d: int = dm.len() as int;
            assert(first_index_of(v, '.') == Some(d));
            assert(v.take(d) =~= dm);
            assert(v.skip(d + 1) =~= nat_decimal(m));
            lemma_parse_decimal(m, u32::MAX as nat);
        },
    }
}

/// Pack links have the form `u{telegram_id}V{version}_by_{bot_username}`: they
/// begin with `u` and the id, hold a `V`, and end with `_by_` and the bot's name.
pub proof fn law_pack_link_format(telegram_id: i64, version: Seq<char>, bot_username: Seq<char>)
    ensures
        has_prefix(pack_link_spec(telegram_id, version, bot_username), seq!['u'] + int_decimal(telegram_id as int)),
        pack_link_spec(telegram_id, version, bot_username).contains('V'),
        crate::text::has_suffix(
            pack_link_spec(telegram_id, version, bot_username),
            seq!['_', 'b', 'y', '_'] + bot_username,
        ),
{
    let head = seq!['u'] + int_decimal(telegram_id as int);
    let tail = seq!['_', 'b', 'y', '_'] + bot_username;
    let s = pack_link_spec(telegram_id, version, bot_username);
    assert(s =~= head + (seq!['V'] + version + tail));
    assert(s.subrange(0, head.len() as int) =~= head);
    assert(s[head.len() as int] == 'V');
    assert(s.subrange(s.len() - tail.len(), s.len() as int) =~= tail);
}

// ---------------------------------------------------------------------------
// Executable functions
// ---------------------------------------------------------------------------

/// The characters of a version string without its `Vol` prefix.
fn strip_vol_exec(current: &str) -> (v: Vec<char>)
    ensures
        v@ == strip_vol(current@),
{
    let cv = chars_of(current);
    let start: usize = if starts_with(current, "Vol") { 3 } else { 0 };
    proof {
        reveal_strlit("Vol");
        assert("Vol"@ =~= vol());
    }
    let mut v: Vec<char> = Vec::new();
    let mut i: usize = start;
    while i < cv.len()
        invariant
            start <= i <= cv.len(),
            start <= cv.len(),
            v@ == cv@.subrange(start as int, i as int),
        decreases cv.len() - i,
    {
        v.push(cv[i]);
        i = i + 1;
        assert(v@ =~= cv@.subrange(start as int, i as int));
    }
    assert(v@ =~= strip_vol(current@));
    v
}

/// `s` without its `Vol` prefix, or `default` when it lacks one.
pub fn strip_vol_or(s: &str, default: &str) -> (r: String)
    ensures
        r@ == if has_prefix_vol(s@) { s@.skip(3) } else { default@ },
{
    if starts_with(s, "Vol") {
        proof {
            reveal_strlit("Vol");
            assert("Vol"@ =~= vol());
        }
        let v = strip_vol_exec(s);
        let mut r = String::new();
        push_chars(&mut r, &v);
        r
    } else {
        proof {
            reveal_strlit("Vol");
            assert("Vol"@ =~= vol());
        }
        owned(default)
    }
}

/// Major and minor number of a version.
fn version_numbers_exec(current: &str) -> (r: (u32, Option<u32>))
    ensures
        r.0 as nat == version_numbers(current@).0,
        match version_numbers(current@).1 {
            Some(m) => r.1 == Some(m as u32),
            None => r.1 is None,
        },
{
    let v = strip_vol_exec(current);
    proof { lemma_first_index_of(v@, '.'); }
    match index_of_char(&v, '.') {
        Some(dot) => {
            assert(v@.take(dot as int) =~= v@.subrange(0, dot as int));
            assert(v@.skip(dot + 1) =~= v@.subrange(dot + 1, v@.len() as int));
            let major: u32 = match parse_unsigned_range(&v, 0, dot, u32::MAX as u64) {
                Some(n) => n as u32,
                None => 1,
            };
            let minor: u32 = match parse_unsigned_range(&v, dot + 1, v.len(), u32::MAX as u64) {
                Some(n) => n as u32,
                None => 0,
            };
            (major, Some(minor))
        },
        None => {
            assert(v@.subrange(0, v@.len() as int) =~= v@);
            let major: u32 = match parse_unsigned_range(&v, 0, v.len(), u32::MAX as u64) {
                Some(n) => n as u32,
                None => 1,
            };
            (major, None)
        },
    }
}

/// Renders `Vol{major}` or `Vol{major}.{minor}`.
fn version_string_exec(major: u32, minor: Option<u32>) -> (r: String)
    ensures
        r@ == version_string(major as nat, match minor {
            Some(m) => Some(m as nat),
            None => None,
        }),
{
    let mut r = String::new();
    push_str(&mut r, "Vol");
    proof {
        reveal_strlit("Vol");
        assert("Vol"@ =~= vol());
    }
    push_u32(&mut r, major);
    if let Some(m) = minor {
        push_char(&mut r, '.');
        push_u32(&mut r, m);
    }
    r
}

/// Whether `next_version` would overflow the major number of `current`.
pub fn version_overflows(current: &str) -> (r: bool)
    ensures
        r == next_version_overflows(current@),
{
    let (major, minor) = version_numbers_exec(current);
    match minor {
        Some(m) => m >= 9 && major == u32::MAX,
        None => false,
    }
}

/// Generates the next version in the sequence.
/// Version sequence: Vol1 → Vol1.1 → ... → Vol1.9 → Vol2 → Vol2.1 → ...
///
/// The `Vol` prefix is optional on input; a major or minor number that does
/// not parse counts as 1 and 0 respectively.
pub fn next_version(current: &str) -> (r: String)
    requires
        !next_version_overflows(current@),
    ensures
        r@ == next_version_spec(current@),
{
    let (major, minor) = version_numbers_exec(current);
    match minor {
        Some(m) => {
            if m >= 9 {
                version_string_exec(major + 1, None)
            } else {
                version_string_exec(major, Some(m + 1))
            }
        },
        None => version_string_exec(major, Some(1)),
    }
}

/// Generates a pack link in the format `u{telegram_id}V{version}_by_{bot_username}`.
pub fn generate_pack_link(telegram_id: i64, version: &str, bot_username: &str) -> (r: String)
    ensures
        r@ == pack_link_spec(telegram_id, version@, bot_username@),
{
    let mut r = String::new();
    push_char(&mut r, 'u');
    push_i64(&mut r, telegram_id);
    push_char(&mut r, 'V');
    push_str(&mut r, version);
    push_str(&mut r, "_by_");
    proof {
        reveal_strlit("_by_");
        assert("_by_"@ =~= seq!['_', 'b', 'y', '_']);
    }
    push_str(&mut r, bot_username);
    r
}

/// Generates a pack name in the format `@{username}'s Kang Pack {version}`.
pub fn generate_pack_name(username: &str, version: &str) -> (r: String)
    ensures
        r@ == pack_name_spec(username@, version@),
{
    let mut r = String::new();
    push_char(&mut r, '@');
    push_str(&mut r, username);
    push_str(&mut r, "'s Kang Pack ");
    push_str(&mut r, version);
    r
}

fn is_ascii_alpha_exec(c: char) -> (r: bool)
    ensures
        r == is_ascii_alpha(c),
{
    ('a' <= c && c <= 'z') || ('A' <= c && c <= 'Z')
}

fn is_link_char_exec(c: char) -> (r: bool)
    ensures
        r == is_link_char(c),
{
    is_ascii_alpha_exec(c) || ('0' <= c && c <= '9') || c == '_'
}

/// The name part of a custom link, before it is cut to length.
fn custom_link_name_exec(pack_name: &str) -> (r: Vec<char>)
    ensures
        r@ == custom_link_name(pack_name@),
{
    let name = chars_of(pack_name);
    let mut safe: Vec<char> = Vec::new();
    let mut i: usize = 0;
    while i < name.len()
        invariant
            i <= name.len(),
            name@ == pack_name@,
            safe@ == link_chars(name@.take(i as int)),
        decreases name.len() - i,
    {
        let c = name[i];
        assert(name@.take(i + 1).drop_last() =~= name@.take(i as int));
        if is_link_char_exec(c) {
            safe.push(c);
        }
        i = i + 1;
    }
    assert(name@.take(i as int) =~= name@);
    if safe.len() == 0 {
        safe.push('p');
        safe.push('a');
        safe.push('c');
        safe.push('k');
        assert(safe@ =~= seq!['p', 'a', 'c', 'k']);
    }
    if !is_ascii_alpha_exec(safe[0]) {
        let mut prefixed: Vec<char> = Vec::new();
        prefixed.push('p');
        prefixed.push('_');
        let mut j: usize = 0;
        while j < safe.len()
            invariant
                j <= safe.len(),
                prefixed@ == seq!['p', '_'] + safe@.take(j as int),
            decreases safe.len() - j,
        {
            prefixed.push(safe[j]);
            j = j + 1;
            assert(prefixed@ =~= seq!['p', '_'] + safe@.take(j as int));
        }
        assert(safe@.take(j as int) =~= safe@);
        safe = prefixed;
    }
    safe
}

/// `_u{telegram_id}_by_{bot_username}`.
fn custom_link_suffix_exec(telegram_id: i64, bot_username: &str) -> (r: String)
    ensures
        r@ == custom_link_suffix(telegram_id, bot_username@),
{
    let mut suffix = String::new();
    push_char(&mut suffix, '_');
    push_char(&mut suffix, 'u');
    push_i64(&mut suffix, telegram_id);
    push_str(&mut suffix, "_by_");
    proof {
        reveal_strlit("_by_");
        assert("_by_"@ =~= seq!['_', 'b', 'y', '_']);
    }
    push_str(&mut suffix, bot_username);
    suffix
}

/// The suffix holds link characters only when the id is not negative and
/// the bot username holds link characters only.
proof fn lemma_custom_link_suffix_chars(telegram_id: i64, bot_username: Seq<char>)
    requires
        telegram_id >= 0,
        forall|i: int| 0 <= i < bot_username.len() ==> is_link_char(#[trigger] bot_username[i]),
    ensures
        forall|k: int| 0 <= k < custom_link_suffix(telegram_id, bot_username).len()
            ==> is_link_char(#[trigger] custom_link_suffix(telegram_id, bot_username)[k]),
{
    lemma_nat_decimal(telegram_id as nat);
    let digits = int_decimal(telegram_id as int);
    let suffix = custom_link_suffix(telegram_id, bot_username);
    let a = seq!['_', 'u'];
    let b = seq!['_', 'b', 'y', '_'];
    assert(suffix == a + digits + b + bot_username);
    assert forall|k: int| 0 <= k < suffix.len() implies is_link_char(#[trigger] suffix[k]) by {
        if k < 2 {
            assert(suffix[k] == a[k]);
        } else if k < 2 + digits.len() {
            assert(suffix[k] == digits[k - 2]);
            assert(is_digit(digits[k - 2]));
        } else if k < 6 + digits.len() {
            assert(suffix[k] == b[k - 2 - digits.len()]);
        } else {
            assert(suffix[k] == bot_username[k - 6 - digits.len()]);
        }
    }
}

/// The promises of the custom link format.
proof fn lemma_custom_pack_link(telegram_id: i64, pack_name: Seq<char>, bot_username: Seq<char>)
    ensures
        ({
            let r = custom_pack_link_spec(telegram_id, pack_name, bot_username);
            let suffix = custom_link_suffix(telegram_id, bot_username);
            &&& telegram_id >= 0 && (forall|i: int| 0 <= i < bot_username.len() ==> is_link_char(#[trigger] bot_username[i]))
                ==> forall|i: int| 0 <= i < r.len() ==> is_link_char(#[trigger] r[i])
            &&& encode_utf8(suffix).len() < 64 ==> is_ascii_alpha(r[0])
            &&& encode_utf8(suffix).len() <= 64 ==> encode_utf8(r).len() <= 64
        }),
{
    let r = custom_pack_link_spec(telegram_id, pack_name, bot_username);
    let suffix = custom_link_suffix(telegram_id, bot_username);
    let name_s = custom_link_name(pack_name);
    let room = custom_link_room(suffix);
    let cut = if name_s.len() > room { trim_trailing_underscores(name_s.take(room as int)) } else { name_s };
    assert(r == cut + suffix);
    lemma_custom_link_name(pack_name);
    if name_s.len() > room {
        lemma_trim_trailing_underscores(name_s.take(room as int));
    }
    assert forall|k: int| 0 <= k < cut.len() implies is_link_char(#[trigger] cut[k]) by {
        if name_s.len() > room {
            assert(cut[k] == name_s.take(room as int)[k]);
            assert(name_s.take(room as int)[k] == name_s[k]);
        }
    }
    if telegram_id >= 0 && (forall|i: int| 0 <= i < bot_username.len() ==> is_link_char(#[trigger] bot_username[i])) {
        lemma_custom_link_suffix_chars(telegram_id, bot_username);
        assert forall|k: int| 0 <= k < r.len() implies is_link_char(#[trigger] r[k]) by {
            if k < cut.len() {
                assert(r[k] == cut[k]);
            } else {
                assert(r[k] == suffix[k - cut.len()]);
            }
        }
    }
    if encode_utf8(suffix).len() < 64 {
        assert(room >= 1);
        if name_s.len() > room {
            assert(name_s.take(room as int)[0] == name_s[0]);
            assert(cut[0] == name_s.take(room as int)[0]);
        }
        assert(r[0] == cut[0]);
    }
    if encode_utf8(suffix).len() <= 64 {
        assert(cut.len() <= room);
        lemma_link_chars_ascii(cut);
        vstd::utf8::is_ascii_chars_encode_utf8(cut);
        lemma_encode_utf8_len_concat(cut, suffix);
    }
}

/// Generates a custom pack link in the format `{sanitized_name}_u{telegram_id}_by_{bot_username}`.
///
/// The name keeps only ASCII letters, digits and underscores (`pack` when
/// nothing is left), gets `p_` in front when it does not begin with a letter,
/// and is cut (then stripped of trailing underscores) so that the whole link
/// fits in 64 bytes. When the telegram id is not negative and the bot
/// username holds only ASCII letters, digits and underscores, the link holds
/// only those too; when the suffix leaves room, the link begins with a letter
/// and is at most 64 bytes long.
pub fn generate_custom_pack_link(telegram_id: i64, pack_name: &str, bot_username: &str) -> (r: String)
    ensures
        r@ == custom_pack_link_spec(telegram_id, pack_name@, bot_username@),
        telegram_id >= 0 && (forall|i: int| 0 <= i < bot_username@.len() ==> is_link_char(#[trigger] bot_username@[i]))
            ==> forall|i: int| 0 <= i < r@.len() ==> is_link_char(#[trigger] r@[i]),
        encode_utf8(custom_link_suffix(telegram_id, bot_username@)).len() < 64 ==> is_ascii_alpha(r@[0]),
        encode_utf8(custom_link_suffix(telegram_id, bot_username@)).len() <= 64 ==> encode_utf8(r@).len() <= 64,
{
    let suffix = custom_link_suffix_exec(telegram_id, bot_username);
    let mut safe = custom_link_name_exec(pack_name);
    let suffix_len: usize = suffix.as_str().len();
    let room: usize = if suffix_len >= 64 { 0 } else { 64 - suffix_len };
    let ghost name_s = custom_link_name(pack_name@);
    if safe.len() > room {
        safe.truncate(room);
        assert(safe@ =~= name_s.take(room as int));
        while safe.len() > 0 && safe[safe.len() - 1] == '_'
            invariant
                trim_trailing_underscores(safe@) == trim_trailing_underscores(name_s.take(room as int)),
            decreases safe.len(),
        {
            let ghost before = safe@;
            safe.pop();
            assert(safe@ =~= before.drop_last());
        }
    }
    let mut r = String::new();
    push_chars(&mut r, &safe);
    push_str(&mut r, suffix.as_str());
    proof { lemma_custom_pack_link(telegram_id, pack_name@, bot_username@); }
    r
}


/// Every character of a custom pack link is an ASCII letter, an ASCII digit or
/// `_`, whatever the pack name holds, when the id is not negative and the
/// bot's name holds only such characters.
pub proof fn law_custom_pack_link_charset(telegram_id: i64, pack_name: Seq<char>, bot_username: Seq<char>)
    requires
        telegram_id >= 0,
        forall|i: int| 0 <= i < bot_username.len() ==> {
            let c = #[trigger] bot_username[i];
            ('a' <= c <= 'z') || ('A' <= c <= 'Z') || ('0' <= c <= '9') || c == '_'
        },
    ensures
        forall|i: int| 0 <= i < custom_pack_link_spec(telegram_id, pack_name, bot_username).len() ==> {
            let c = #[trigger] custom_pack_link_spec(telegram_id, pack_name, bot_username)[i];
            ('a' <= c <= 'z') || ('A' <= c <= 'Z') || ('0' <= c <= '9') || c == '_'
        },
{
    assert forall|i: int| 0 <= i < bot_username.len() implies is_link_char(#[trigger] bot_username[i]) by {
        let c = bot_username[i];
        assert(('a' <= c <= 'z') || ('A' <= c <= 'Z') || ('0' <= c <= '9') || c == '_');
    }
    lemma_custom_pack_link(telegram_id, pack_name, bot_username);
    let r = custom_pack_link_spec(telegram_id, pack_name, bot_username);
    assert forall|i: int| 0 <= i < r.len() implies {
        let c = #[trigger] r[i];
        ('a' <= c <= 'z') || ('A' <= c <= 'Z') || ('0' <= c <= '9') || c == '_'
    } by {
        assert(is_link_char(r[i]));
    }
}

} // verus!
