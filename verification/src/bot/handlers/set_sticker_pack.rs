//! The `/setstickerpack` command.

use vstd::prelude::*;
use crate::bot::handlers::utils::{create_pack_selection_keyboard, pack_button_data, pack_button_text, InlineKeyboard};
use crate::db::schema::StickerPack;
use crate::text::owned;

verus! {

/// The answer to `/setstickerpack`: a text, with a keyboard to pick from.
#[derive(Debug)]
pub struct SetStickerPackReply {
    pub text: String,
    pub keyboard: Option<InlineKeyboard>,
}

/// The answer to `/setstickerpack` for a user with these packs: without packs,
/// a hint to create one; otherwise one button per pack.
pub fn setstickerpack_reply(packs: &Vec<StickerPack>) -> (r: SetStickerPackReply)
    ensures
        packs.len() == 0 ==> r.text@ == "You don't have any sticker packs yet. Create one first with /createpack."@
            && r.keyboard is None,
        packs.len() > 0 ==> r.text@ == "Select your default sticker pack:"@ && (r.keyboard matches Some(k) && {
            &&& k.rows.len() == packs.len()
            &&& forall|i: int| 0 <= i < packs.len() ==> {
                &&& (#[trigger] k.rows@[i]).len() == 1
                &&& k.rows@[i]@[0].text@ == pack_button_text(packs@[i])
                &&& k.rows@[i]@[0].callback_data@ == pack_button_data(packs@[i])
            }
        }),
{
    if packs.len() == 0 {
        return SetStickerPackReply {
            text: owned("You don't have any sticker packs yet. Create one first with /createpack."),
            keyboard: None,
        };
    }
    SetStickerPackReply {
        text: owned("Select your default sticker pack:"),
        keyboard: Some(create_pack_selection_keyboard(packs)),
    }
}

} // verus!
