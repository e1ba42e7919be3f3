//! The `/createpack` command: checking the request, and the answers.

use vstd::prelude::*;
use vstd::utf8::encode_utf8;
use crate::bot::error::BotError;
use crate::bot::handlers::kang::{
    add_stickers_url, sticker_emoji_of, sticker_format_of, telegram_failure_message, telegram_failure_text,
    Sender, StickerInfo,
};
use crate::bot::handlers::utils::{escape_html, escape_html_spec};
use crate::bot::telegram::{get_sticker_format, StickerFormat};
use crate::service::sticker::CreatePackResult;
use crate::text::{is_blank, owned, push_str, trim_spec};

verus! {

/// What to do with a `/createpack` message.
#[derive(Debug)]
pub enum CreatePackRequest {
    /// No sender: the message is ignored.
    Ignore,
    /// Answer with this text and stop.
    Reply(String),
    /// Create the pack `pack_name` for the sender, with the replied-to sticker.
    Create {
        telegram_id: i64,
        username: Option<String>,
        pack_name: String,
        file_id: String,
        format: StickerFormat,
        emojis: String,
    },
}

/// Checks a `/createpack` message in order: it must reply to a sticker, have
/// a sender, a pack name that is not blank and at most 64 bytes long.
pub fn createpack_request(
    from: Option<Sender>,
    reply_sticker: Option<StickerInfo>,
    pack_name: String,
) -> (r: CreatePackRequest)
    ensures
        match reply_sticker {
            None => (r matches CreatePackRequest::Reply(t)
                && t@ == "Please reply to a sticker with /createpack <name> to create a pack."@),
            Some(st) => match from {
                None => r == CreatePackRequest::Ignore,
                Some(s) => if trim_spec(pack_name@).len() == 0 {
                    (r matches CreatePackRequest::Reply(t) && t@ == "Pack name cannot be empty."@)
                } else if encode_utf8(pack_name@).len() as usize > 64 {
                    (r matches CreatePackRequest::Reply(t) && t@ == "Pack name exceeds character limit (max 64 characters)."@)
                } else {
                    r matches CreatePackRequest::Create { telegram_id, username, pack_name: n, file_id, format, emojis }
                        && telegram_id == s.telegram_id && username == s.username && n == pack_name
                        && file_id == st.file_id && format == sticker_format_of(st) && emojis@ == sticker_emoji_of(st)
                },
            },
        },
{
    let sticker = match reply_sticker {
        Some(st) => st,
        None => return CreatePackRequest::Reply(owned("Please reply to a sticker with /createpack <name> to create a pack.")),
    };
    let sender = match from {
        Some(s) => s,
        None => return CreatePackRequest::Ignore,
    };
    if is_blank(pack_name.as_str()) {
        return CreatePackRequest::Reply(owned("Pack name cannot be empty."));
    }
    if pack_name.as_str().len() > 64 {
        return CreatePackRequest::Reply(owned("Pack name exceeds character limit (max 64 characters)."));
    }
    let format = get_sticker_format(sticker.is_animated, sticker.is_video);
    let emojis = match &sticker.emoji {
        Some(e) => e.clone(),
        None => owned("😀"),
    };
    CreatePackRequest::Create {
        telegram_id: sender.telegram_id,
        username: sender.username,
        pack_name,
        file_id: sticker.file_id,
        format,
        emojis,
    }
}

/// The answer to a successful `/createpack`.
pub open spec fn createpack_success_text(r: CreatePackResult) -> Seq<char> {
    "Created custom sticker pack <b>"@ + escape_html_spec(r.pack.pack_name@)
        + "</b>!\n\nIt is now your active pack.\n<a href=\""@ + add_stickers_url(r.pack.pack_link@)
        + "\">Add it here</a>"@
}

/// The answer to a successful `/createpack`.
pub fn createpack_success_message(result: &CreatePackResult) -> (r: String)
    ensures
        r@ == createpack_success_text(*result),
{
    let name = escape_html(result.pack.pack_name.as_str());
    let mut r = String::new();
    push_str(&mut r, "Created custom sticker pack <b>");
    push_str(&mut r, name.as_str());
    push_str(&mut r, "</b>!\n\nIt is now your active pack.\n<a href=\"");
    push_str(&mut r, "https://t.me/addstickers/");
    push_str(&mut r, result.pack.pack_link.as_str());
    push_str(&mut r, "\">Add it here</a>");
    r
}

/// The answer to a failed `/createpack`.
pub open spec fn createpack_error_text(e: BotError, bot_username: Seq<char>) -> Seq<char> {
    match telegram_failure_text(e, bot_username) {
        Some(t) => t,
        None => match e {
            BotError::PackNameTooLong => "Pack name is too long."@,
            _ => "An error occurred while creating the sticker pack."@,
        },
    }
}

/// The answer to a failed `/createpack`.
pub fn createpack_error_message(e: &BotError, bot_username: &str) -> (r: String)
    ensures
        r@ == createpack_error_text(*e, bot_username@),
{
    match telegram_failure_message(e, bot_username) {
        Some(m) => m,
        None => match e {
            BotError::PackNameTooLong => owned("Pack name is too long."),
            _ => owned("An error occurred while creating the sticker pack."),
        },
    }
}

} // verus!
