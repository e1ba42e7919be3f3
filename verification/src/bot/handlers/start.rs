//! The `/start` command.

use vstd::prelude::*;
use crate::text::owned;

verus! {

/// The welcome message and basic instructions.
pub open spec fn welcome_text_spec() -> Seq<char> {
    "👋 <b>Welcome to Sticker Kang Bot!</b>\n\nI can help you \"kang\" (stole) stickers from other packs and add them to your own.\n\n<b>How to use:</b>\n1. Reply to any sticker with /kang\n2. If you don't have a pack yet, I'll create one for you!\n3. Use /createpack &lt;name&gt; to start a new themed pack.\n4. Use /setstickerpack to switch between your packs.\n\n<i>Ready to start kanging? Send me a sticker</i>"@
}

/// The welcome message and basic instructions.
pub fn welcome_text() -> (r: String)
    ensures
        r@ == welcome_text_spec(),
{
    owned("👋 <b>Welcome to Sticker Kang Bot!</b>\n\nI can help you \"kang\" (stole) stickers from other packs and add them to your own.\n\n<b>How to use:</b>\n1. Reply to any sticker with /kang\n2. If you don't have a pack yet, I'll create one for you!\n3. Use /createpack &lt;name&gt; to start a new themed pack.\n4. Use /setstickerpack to switch between your packs.\n\n<i>Ready to start kanging? Send me a sticker</i>")
}

} // verus!
