//! Helpers shared by the command handlers.

use vstd::prelude::*;
use crate::db::schema::StickerPack;
use crate::text::{chars_of, has_prefix, int_decimal, push_char, push_i64, push_str, replace_spec};

verus! {

/// What one character becomes in HTML text.
pub open spec fn escape_html_char(c: char) -> Seq<char> {
    if c == '&' {
        seq!['&', 'a', 'm', 'p', ';']
    } else if c == '<' {
        seq!['&', 'l', 't', ';']
    } else if c == '>' {
        seq!['&', 'g', 't', ';']
    } else if c == '"' {
        seq!['&', 'q', 'u', 'o', 't', ';']
    } else {
        seq![c]
    }
}

/// `s` with `&`, `<`, `>` and `"` replaced by their HTML entities.
pub open spec fn escape_html_spec(s: Seq<char>) -> Seq<char>
    decreases s.len(),
{
    if s.len() == 0 {
        Seq::empty()
    } else {
        escape_html_spec(s.drop_last()) + escape_html_char(s.last())
    }
}

/// Reading HTML text back: the entities `&amp;`, `&lt;`, `&gt;` and `&quot;`
/// become `&`, `<`, `>` and `"`, from left to right; other characters stay.
pub open spec fn unescape_html_spec(s: Seq<char>) -> Seq<char>
    decreases s.len(),
{
    if s.len() == 0 {
        Seq::empty()
    } else if s.len() >= 5 && s.take(5) == seq!['&', 'a', 'm', 'p', ';'] {
        seq!['&'] + unescape_html_spec(s.skip(5))
    } else if s.len() >= 4 && s.take(4) == seq!['&', 'l', 't', ';'] {
        seq!['<'] + unescape_html_spec(s.skip(4))
    } else if s.len() >= 4 && s.take(4) == seq!['&', 'g', 't', ';'] {
        seq!['>'] + unescape_html_spec(s.skip(4))
    } else if s.len() >= 6 && s.take(6) == seq!['&', 'q', 'u', 'o', 't', ';'] {
        seq!['"'] + unescape_html_spec(s.skip(6))
    } else {
        seq![s[0]] + unescape_html_spec(s.skip(1))
    }
}

/// Escaping works character by character from the front as well.
proof fn lemma_escape_html_front(s: Seq<char>)
    requires
        s.len() > 0,
    ensures
        escape_html_spec(s) == escape_html_char(s[0]) + escape_html_spec(s.skip(1)),
    decreases s.len(),
{
    if s.len() == 1 {
        assert(s.drop_last() =~= Seq::<char>::empty());
        assert(s.skip(1) =~= Seq::<char>::empty());
        assert(escape_html_char(s[0]) + Seq::<char>::empty() =~= escape_html_char(s[0]));
    } else {
        lemma_escape_html_front(s.drop_last());
        assert(s.drop_last().skip(1) =~= s.skip(1).drop_last());
        assert(s.skip(1).last() == s.last());
        assert(s.drop_last()[0] == s[0]);
        assert(escape_html_spec(s) =~= escape_html_char(s[0]) + escape_html_spec(s.skip(1)));
    }
}

/// Reading escaped text back gives the text that was escaped.
pub proof fn law_escape_html_round_trip(s: Seq<char>)
    ensures
        unescape_html_spec(escape_html_spec(s)) == s,
    decreases s.len(),
{
    if s.len() == 0 {
        assert(escape_html_spec(s) =~= Seq::<char>::empty());
    } else {
        lemma_escape_html_front(s);
        law_escape_html_round_trip(s.skip(1));
        let c = s[0];
        let e = escape_html_char(c);
        let rest = escape_html_spec(s.skip(1));
        let t = e + rest;
        assert(t.skip(e.len() as int) =~= rest);
        assert(t.take(e.len() as int) =~= e);
        if c == '&' {
            assert(t.take(5) =~= seq!['&', 'a', 'm', 'p', ';']);
        } else if c == '<' {
            assert(t.take(4) =~= seq!['&', 'l', 't', ';']);
            assert(t.take(5) != seq!['&', 'a', 'm', 'p', ';'] || t.len() < 5) by {
                if t.len() >= 5 { assert(t.take(5)[1] == 'l'); }
            }
        } else if c == '>' {
            assert(t.take(4) =~= seq!['&', 'g', 't', ';']);
            if t.len() >= 5 { assert(t.take(5)[1] == 'g'); }
            assert(t.take(4)[1] == 'g');
        } else if c == '"' {
            assert(t.take(6) =~= seq!['&', 'q', 'u', 'o', 't', ';']);
            assert(t.take(5)[1] == 'q');
            assert(t.take(4)[1] == 'q');
        } else {
            assert(e =~= seq![c]);
            assert(t[0] == c);
            if t.len() >= 4 { assert(t.take(4)[0] == c); }
            if t.len() >= 5 { assert(t.take(5)[0] == c); }
            if t.len() >= 6 { assert(t.take(6)[0] == c); }
        }
        assert(s =~= seq![c] + s.skip(1));
    }
}

/// Place of a character among those the HTML escape rewrites, in the order in
/// which they are read back: `"`, `>`, `<`, `&`; other characters have none.
pub open spec fn unescape_rank(c: char) -> int {
    if c == '"' { 0 } else if c == '>' { 1 } else if c == '<' { 2 } else if c == '&' { 3 } else { -1 }
}

/// The entity of the character of rank `k`.
pub open spec fn entity_of_rank(k: int) -> Seq<char> {
    if k == 0 {
        seq!['&', 'q', 'u', 'o', 't', ';']
    } else if k == 1 {
        seq!['&', 'g', 't', ';']
    } else if k == 2 {
        seq!['&', 'l', 't', ';']
    } else {
        seq!['&', 'a', 'm', 'p', ';']
    }
}

/// The character of rank `k`.
pub open spec fn char_of_rank(k: int) -> char {
    if k == 0 { '"' } else if k == 1 { '>' } else if k == 2 { '<' } else { '&' }
}

/// Escaped text after the entities of the first `k` ranks were read back.
spec fn escape_stage(s: Seq<char>, k: int) -> Seq<char>
    decreases s.len(),
{
    if s.len() == 0 {
        Seq::empty()
    } else {
        let c = s[0];
        let head = if 0 <= unescape_rank(c) < k { seq![c] } else { escape_html_char(c) };
        head + escape_stage(s.skip(1), k)
    }
}

proof fn lemma_escape_stage_ends(s: Seq<char>)
    ensures
        escape_stage(s, 0) == escape_html_spec(s),
        escape_stage(s, 4) == s,
    decreases s.len(),
{
    if s.len() > 0 {
        lemma_escape_html_front(s);
        lemma_escape_stage_ends(s.skip(1));
        assert(escape_html_char(s[0]) =~= seq![s[0]] || unescape_rank(s[0]) >= 0);
        assert(escape_stage(s, 4) =~= seq![s[0]] + s.skip(1));
        assert(seq![s[0]] + s.skip(1) =~= s);
    }
}

/// Text without `&` passes a replacement of an `&`-entity unchanged.
proof fn lemma_replace_skips(x: Seq<char>, y: Seq<char>, pat: Seq<char>, rep: Seq<char>)
    requires
        pat.len() > 0,
        pat[0] == '&',
        forall|i: int| 0 <= i < x.len() ==> x[i] != '&',
    ensures
        replace_spec(x + y, pat, rep) == x + replace_spec(y, pat, rep),
    decreases x.len(),
{
    if x.len() > 0 {
        let t = x + y;
        assert(t[0] == x[0]);
        assert(!has_prefix(t, pat)) by {
            if has_prefix(t, pat) {
                assert(t.subrange(0, pat.len() as int)[0] == pat[0]);
            }
        }
        assert(t.skip(1) =~= x.skip(1) + y);
        lemma_replace_skips(x.skip(1), y, pat, rep);
        assert(seq![x[0]] + (x.skip(1) + replace_spec(y, pat, rep)) =~= x + replace_spec(y, pat, rep));
    }
}

/// Reading back the entity of rank `k` moves escaped text one stage on.
proof fn lemma_escape_stage_step(s: Seq<char>, k: int)
    requires
        0 <= k < 4,
    ensures
        replace_spec(escape_stage(s, k), entity_of_rank(k), seq![char_of_rank(k)]) == escape_stage(s, k + 1),
    decreases s.len(),
{
    let pat = entity_of_rank(k);
    let rep = seq![char_of_rank(k)];
    if s.len() > 0 {
        let c = s[0];
        let rest = escape_stage(s.skip(1), k);
        lemma_escape_stage_step(s.skip(1), k);
        let t = escape_stage(s, k);
        let r = unescape_rank(c);
        if r == k {
            assert(escape_html_char(c) =~= pat);
            assert(t =~= pat + rest);
            assert(t.subrange(0, pat.len() as int) =~= pat);
            assert(t.skip(pat.len() as int) =~= rest);
            assert(escape_stage(s, k + 1) =~= rep + escape_stage(s.skip(1), k + 1));
        } else if r < k {
            assert(t =~= seq![c] + rest);
            assert(c != '&');
            assert(!has_prefix(t, pat)) by {
                if has_prefix(t, pat) {
                    assert(t.subrange(0, pat.len() as int)[0] == pat[0]);
                }
            }
            assert(t.skip(1) =~= rest);
            assert(escape_stage(s, k + 1) =~= seq![c] + escape_stage(s.skip(1), k + 1));
        } else {
            let e = escape_html_char(c);
            assert(e =~= entity_of_rank(r));
            assert(t =~= e + rest);
            assert(!has_prefix(t, pat)) by {
                if has_prefix(t, pat) {
                    assert(t.subrange(0, pat.len() as int)[1] == pat[1]);
                    assert(t[1] == e[1]);
                }
            }
            assert(t.skip(1) =~= e.skip(1) + rest);
            lemma_replace_skips(e.skip(1), rest, pat, rep);
            assert(seq![t[0]] + (e.skip(1) + escape_stage(s.skip(1), k + 1)) =~= e + escape_stage(s.skip(1), k + 1));
            assert(escape_stage(s, k + 1) =~= e + escape_stage(s.skip(1), k + 1));
        }
    }
}

/// Undoing the escape with four replacements, `&quot;` first, then `&gt;`,
/// `&lt;` and `&amp;` last, gives back the text that was escaped.
pub proof fn law_escape_html_replacements_undo(s: Seq<char>)
    ensures
        replace_spec(
            replace_spec(
                replace_spec(
                    replace_spec(escape_html_spec(s), seq!['&', 'q', 'u', 'o', 't', ';'], seq!['"']),
                    seq!['&', 'g', 't', ';'],
                    seq!['>'],
                ),
                seq!['&', 'l', 't', ';'],
                seq!['<'],
            ),
            seq!['&', 'a', 'm', 'p', ';'],
            seq!['&'],
        ) == s,
{
    lemma_escape_stage_ends(s);
    lemma_escape_stage_step(s, 0);
    lemma_escape_stage_step(s, 1);
    lemma_escape_stage_step(s, 2);
    lemma_escape_stage_step(s, 3);
}

/// Escaped text holds no `<`, `>` or `"`, so it cannot open or close a tag or
/// an attribute value.
pub proof fn lemma_escape_html_no_markup(s: Seq<char>)
    ensures
        forall|i: int| 0 <= i < escape_html_spec(s).len() ==> {
            let c = #[trigger] escape_html_spec(s)[i];
            c != '<' && c != '>' && c != '"'
        },
    decreases s.len(),
{
    if s.len() > 0 {
        lemma_escape_html_no_markup(s.drop_last());
        let a = escape_html_spec(s.drop_last());
        let b = escape_html_char(s.last());
        assert forall|i: int| 0 <= i < escape_html_spec(s).len() implies {
            let c = #[trigger] escape_html_spec(s)[i];
            c != '<' && c != '>' && c != '"'
        } by {
            if i < a.len() {
                assert(escape_html_spec(s)[i] == a[i]);
            } else {
                assert(escape_html_spec(s)[i] == b[i - a.len()]);
            }
        }
    }
}

/// Escape special characters for HTML format.
pub fn escape_html(text: &str) -> (r: String)
    ensures
        r@ == escape_html_spec(text@),
{
    let v = chars_of(text);
    let mut r = String::new();
    let mut i: usize = 0;
    while i < v.len()
        invariant
            i <= v.len(),
            v@ == text@,
            r@ == escape_html_spec(v@.take(i as int)),
        decreases v.len() - i,
    {
        let c = v[i];
        assert(v@.take(i + 1).drop_last() =~= v@.take(i as int));
        let ghost before = r@;
        if c == '&' {
            push_char(&mut r, '&');
            push_char(&mut r, 'a');
            push_char(&mut r, 'm');
            push_char(&mut r, 'p');
            push_char(&mut r, ';');
        } else if c == '<' {
            push_char(&mut r, '&');
            push_char(&mut r, 'l');
            push_char(&mut r, 't');
            push_char(&mut r, ';');
        } else if c == '>' {
            push_char(&mut r, '&');
            push_char(&mut r, 'g');
            push_char(&mut r, 't');
            push_char(&mut r, ';');
        } else if c == '"' {
            push_char(&mut r, '&');
            push_char(&mut r, 'q');
            push_char(&mut r, 'u');
            push_char(&mut r, 'o');
            push_char(&mut r, 't');
            push_char(&mut r, ';');
        } else {
            push_char(&mut r, c);
        }
        assert(r@ =~= before + escape_html_char(c));
        i = i + 1;
    }
    assert(v@.take(i as int) =~= v@);
    r
}

/// A button of an inline keyboard that sends `callback_data` back when pressed.
#[derive(Debug)]
pub struct KeyboardButton {
    pub text: String,
    pub callback_data: String,
}

/// An inline keyboard, row by row.
#[derive(Debug)]
pub struct InlineKeyboard {
    pub rows: Vec<Vec<KeyboardButton>>,
}

/// The label of a pack's button: `{pack_name} ({sticker_count} stickers)`.
pub open spec fn pack_button_text(p: StickerPack) -> Seq<char> {
    p.pack_name@ + " ("@ + int_decimal(p.sticker_count as int) + " stickers)"@
}

/// The callback data of a pack's button: `pack:{pack_id}`.
pub open spec fn pack_button_data(p: StickerPack) -> Seq<char> {
    "pack:"@ + int_decimal(p.id as int)
}

/// Create an inline keyboard for pack selection: one row per pack, in order,
/// with one button showing the pack name and sticker count.
pub fn create_pack_selection_keyboard(packs: &Vec<StickerPack>) -> (r: InlineKeyboard)
    ensures
        r.rows.len() == packs.len(),
        forall|i: int| 0 <= i < packs.len() ==> {
            &&& (#[trigger] r.rows@[i]).len() == 1
            &&& r.rows@[i]@[0].text@ == pack_button_text(packs@[i])
            &&& r.rows@[i]@[0].callback_data@ == pack_button_data(packs@[i])
        },
{
    let mut rows: Vec<Vec<KeyboardButton>> = Vec::new();
    let mut i: usize = 0;
    while i < packs.len()
        invariant
            i <= packs.len(),
            rows.len() == i,
            forall|j: int| 0 <= j < i ==> {
                &&& (#[trigger] rows@[j]).len() == 1
                &&& rows@[j]@[0].text@ == pack_button_text(packs@[j])
                &&& rows@[j]@[0].callback_data@ == pack_button_data(packs@[j])
            },
        decreases packs.len() - i,
    {
        let p = &packs[i];
        let mut text = String::new();
        push_str(&mut text, p.pack_name.as_str());
        push_str(&mut text, " (");
        push_i64(&mut text, p.sticker_count as i64);
        push_str(&mut text, " stickers)");
        let mut data = String::new();
        push_str(&mut data, "pack:");
        push_i64(&mut data, p.id);
        let mut row: Vec<KeyboardButton> = Vec::new();
        row.push(KeyboardButton { text, callback_data: data });
        rows.push(row);
        i = i + 1;
    }
    InlineKeyboard { rows }
}

} // verus!
