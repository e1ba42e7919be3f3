//! Callback queries from the pack selection keyboard.

use vstd::prelude::*;
use crate::bot::handlers::utils::{escape_html, escape_html_spec, pack_button_data};
use crate::db::schema::StickerPack;
use crate::service::naming::lemma_parse_decimal;
use crate::text::{
    chars_of, has_prefix, int_decimal, lemma_nat_decimal, nat_decimal, owned, parse_i64_spec, parse_i64, push_str,
    starts_with,
};

verus! {

/// The pack id in callback data `pack:{id}`, or the answer that explains why
/// the data is not usable.
pub open spec fn callback_pack_id(data: Option<Seq<char>>) -> Result<i64, Seq<char>> {
    match data {
        None => Err("Invalid callback data"@),
        Some(d) => if !has_prefix(d, "pack:"@) {
            Err("Invalid callback format"@)
        } else {
            match parse_i64_spec(d.skip(5)) {
                Some(id) => Ok(id as i64),
                None => Err("Invalid pack ID"@),
            }
        },
    }
}

/// The callback data of a pack's selection button reads back as that pack's id.
pub proof fn law_callback_data_round_trip(p: StickerPack)
    ensures
        callback_pack_id(Some(pack_button_data(p))) == Ok::<i64, Seq<char>>(p.id),
{
    reveal_strlit("pack:");
    let d = pack_button_data(p);
    let s = int_decimal(p.id as int);
    assert(d.subrange(0, 5) =~= "pack:"@);
    assert(d.skip(5) =~= s);
    if p.id < 0 {
        let n: nat = (-(p.id as int)) as nat;
        lemma_nat_decimal(n);
        lemma_parse_decimal(n, 0x8000_0000_0000_0000);
        assert(s.drop_first() =~= nat_decimal(n));
        assert(nat_decimal(n)[0] != '+') by {
            assert(crate::text::is_digit(nat_decimal(n)[0]));
        }
    } else {
        let n: nat = p.id as nat;
        lemma_nat_decimal(n);
        lemma_parse_decimal(n, 0x7fff_ffff_ffff_ffff);
        assert(crate::text::is_digit(s[0]));
    }
}

/// Parses callback data of the form `pack:{pack_id}`.
pub fn parse_callback_data(data: Option<&str>) -> (r: Result<i64, String>)
    ensures
        match callback_pack_id(match data {
            Some(d) => Some(d@),
            None => None,
        }) {
            Ok(id) => r == Ok::<i64, String>(id),
            Err(t) => (r matches Err(m) && m@ == t),
        },
{
    let d = match data {
        Some(d) => d,
        None => return Err(owned("Invalid callback data")),
    };
    if !starts_with(d, "pack:") {
        return Err(owned("Invalid callback format"));
    }
    proof { reveal_strlit("pack:"); }
    let v = chars_of(d);
    let mut rest = String::new();
    let mut i: usize = 5;
    while i < v.len()
        invariant
            5 <= i <= v.len(),
            v@ == d@,
            rest@ == v@.subrange(5, i as int),
        decreases v.len() - i,
    {
        crate::text::push_char(&mut rest, v[i]);
        i = i + 1;
        assert(rest@ =~= v@.subrange(5, i as int));
    }
    assert(rest@ =~= d@.skip(5));
    match parse_i64(rest.as_str()) {
        Some(id) => Ok(id),
        None => Err(owned("Invalid pack ID")),
    }
}

/// Whether the selected pack can become the user's default: it must exist
/// and belong to the user; otherwise the answer that explains why.
pub open spec fn selection_failure(pack: Option<StickerPack>, user_id: i64) -> Option<Seq<char>> {
    match pack {
        None => Some("Pack not found"@),
        Some(p) => if p.user_id != user_id { Some("That pack doesn't belong to you"@) } else { None },
    }
}

/// Checks the selected pack.
pub fn check_pack_selection(pack: Option<&StickerPack>, user_id: i64) -> (r: Option<String>)
    ensures
        match selection_failure(match pack {
            Some(p) => Some(*p),
            None => None,
        }, user_id) {
            Some(t) => (r matches Some(m) && m@ == t),
            None => r is None,
        },
{
    match pack {
        None => Some(owned("Pack not found")),
        Some(p) => if p.user_id != user_id { Some(owned("That pack doesn't belong to you")) } else { None },
    }
}

/// The answer to the query once the default pack is set.
pub fn default_pack_set_answer(pack_name: &str) -> (r: String)
    ensures
        r@ == "Default pack set to: "@ + pack_name@,
{
    let mut r = String::new();
    push_str(&mut r, "Default pack set to: ");
    push_str(&mut r, pack_name);
    r
}

/// The new text of the selection message once the default pack is set.
pub fn default_pack_set_text(pack_name: &str) -> (r: String)
    ensures
        r@ == "✅ Default pack set to: <b>"@ + escape_html_spec(pack_name@) + "</b>"@,
{
    let name = escape_html(pack_name);
    let mut r = String::new();
    push_str(&mut r, "✅ Default pack set to: <b>");
    push_str(&mut r, name.as_str());
    push_str(&mut r, "</b>");
    r
}

} // verus!
