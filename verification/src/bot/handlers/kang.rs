//! The `/kang` command: what to do with a message, and what to answer.

use vstd::prelude::*;
use crate::bot::error::{BotError, RequestErrorKind};
use crate::bot::handlers::utils::{escape_html, escape_html_spec};
use crate::bot::telegram::{
    api_error_message, create_input_sticker_from_file_id, get_sticker_format, parse_api_error, InputFile,
    InputSticker, StickerFormat,
};
use crate::service::sticker::KangResult;
use crate::text::{owned, push_str};

verus! {

/// The sender of a message.
#[derive(Debug)]
pub struct Sender {
    pub telegram_id: i64,
    pub username: Option<String>,
}

/// What the bot reads of a sticker in a message.
#[derive(Debug)]
pub struct StickerInfo {
    pub file_id: String,
    pub is_animated: bool,
    pub is_video: bool,
    pub emoji: Option<String>,
}

/// What to do with a `/kang` message.
#[derive(Debug)]
pub enum KangRequest {
    /// No sender: the message is ignored.
    Ignore,
    /// Answer with this text and stop.
    Reply(String),
    /// Add `sticker` to a pack of the sender.
    Kang { telegram_id: i64, username: Option<String>, sticker: InputSticker },
}

/// The format of a sticker.
pub open spec fn sticker_format_of(s: StickerInfo) -> StickerFormat {
    if s.is_animated {
        StickerFormat::Animated
    } else if s.is_video {
        StickerFormat::Video
    } else {
        StickerFormat::Static
    }
}

/// The emoji of a sticker, `😀` when it has none.
pub open spec fn sticker_emoji_of(s: StickerInfo) -> Seq<char> {
    match s.emoji {
        Some(e) => e@,
        None => "😀"@,
    }
}

/// `i` is the input sticker made of the sticker `s`.
pub open spec fn is_input_sticker_of(i: InputSticker, s: StickerInfo) -> bool {
    &&& i.sticker matches InputFile::FileId(id) && id@ == s.file_id@
    &&& i.format == sticker_format_of(s)
    &&& i.emoji_list@.len() == 1
    &&& i.emoji_list@[0]@ == sticker_emoji_of(s)
}

/// The input sticker for a sticker of a message: same file, same format, its
/// emoji (or `😀`).
pub fn input_sticker_of(s: &StickerInfo) -> (r: InputSticker)
    ensures
        is_input_sticker_of(r, *s),
{
    let format = get_sticker_format(s.is_animated, s.is_video);
    let emojis = match &s.emoji {
        Some(e) => e.clone(),
        None => owned("😀"),
    };
    create_input_sticker_from_file_id(s.file_id.as_str(), &format, emojis.as_str())
}

/// Decide what to do with a `/kang` message from `from`: the sticker of the
/// replied-to message is used, or else a sticker in the message itself.
pub fn kang_request(from: Option<Sender>, reply_sticker: Option<StickerInfo>, own_sticker: Option<StickerInfo>) -> (r: KangRequest)
    ensures
        match from {
            None => r == KangRequest::Ignore,
            Some(s) => match (reply_sticker, own_sticker) {
                (None, None) => (r matches KangRequest::Reply(t) && t@ == "Please reply to a sticker with /kang to add it."@),
                (Some(st), _) => (r matches KangRequest::Kang { telegram_id, username, sticker }
                    && telegram_id == s.telegram_id && username == s.username && is_input_sticker_of(sticker, st)),
                (None, Some(st)) => (r matches KangRequest::Kang { telegram_id, username, sticker }
                    && telegram_id == s.telegram_id && username == s.username && is_input_sticker_of(sticker, st)),
            },
        },
{
    let sender = match from {
        Some(s) => s,
        None => return KangRequest::Ignore,
    };
    let chosen = match reply_sticker {
        Some(st) => st,
        None => match own_sticker {
            Some(st) => st,
            None => return KangRequest::Reply(owned("Please reply to a sticker with /kang to add it.")),
        },
    };
    let sticker = input_sticker_of(&chosen);
    KangRequest::Kang { telegram_id: sender.telegram_id, username: sender.username, sticker }
}

/// The link that adds a pack: `https://t.me/addstickers/{pack_link}`.
pub open spec fn add_stickers_url(pack_link: Seq<char>) -> Seq<char> {
    "https://t.me/addstickers/"@ + pack_link
}

/// The answer to a successful `/kang`.
pub open spec fn kang_success_text(r: KangResult) -> Seq<char> {
    if r.created_new_pack {
        "Created new sticker pack <b>"@ + escape_html_spec(r.pack.pack_name@) + "</b>!\n\n<a href=\""@
            + add_stickers_url(r.pack.pack_link@) + "\">Add it here</a>"@
    } else {
        "<a href=\""@ + add_stickers_url(r.pack.pack_link@) + "\">Sticker added</a> to <b>"@
            + escape_html_spec(r.pack.pack_name@) + "</b>"@
    }
}

/// The answer to a successful `/kang`.
pub fn kang_success_message(result: &KangResult) -> (r: String)
    ensures
        r@ == kang_success_text(*result),
{
    let name = escape_html(result.pack.pack_name.as_str());
    let mut r = String::new();
    if result.created_new_pack {
        push_str(&mut r, "Created new sticker pack <b>");
        push_str(&mut r, name.as_str());
        push_str(&mut r, "</b>!\n\n<a href=\"");
        push_str(&mut r, "https://t.me/addstickers/");
        push_str(&mut r, result.pack.pack_link.as_str());
        push_str(&mut r, "\">Add it here</a>");
    } else {
        push_str(&mut r, "<a href=\"");
        push_str(&mut r, "https://t.me/addstickers/");
        push_str(&mut r, result.pack.pack_link.as_str());
        push_str(&mut r, "\">Sticker added</a> to <b>");
        push_str(&mut r, name.as_str());
        push_str(&mut r, "</b>");
    }
    r
}

/// The message for a failed Telegram call: the API error's message, or a
/// network error.
pub open spec fn telegram_failure_text(e: BotError, bot_username: Seq<char>) -> Option<Seq<char>> {
    match e {
        BotError::TelegramApi(a) => Some(api_error_message(a, bot_username)),
        BotError::TelegramRequest(q) => match q.kind {
            RequestErrorKind::Api(a) => Some(api_error_message(a, bot_username)),
            RequestErrorKind::Other => Some("A network error occurred. Please try again later."@),
        },
        _ => None,
    }
}

/// The message for a failed Telegram call, when the error is one.
pub fn telegram_failure_message(e: &BotError, bot_username: &str) -> (r: Option<String>)
    ensures
        match telegram_failure_text(*e, bot_username@) {
            Some(t) => (r matches Some(m) && m@ == t),
            None => r is None,
        },
{
    match e {
        BotError::TelegramApi(a) => Some(parse_api_error(a, bot_username)),
        BotError::TelegramRequest(q) => match &q.kind {
            RequestErrorKind::Api(a) => Some(parse_api_error(a, bot_username)),
            RequestErrorKind::Other => Some(owned("A network error occurred. Please try again later.")),
        },
        _ => None,
    }
}

/// The answer to a failed `/kang`.
pub open spec fn kang_error_text(e: BotError, bot_username: Seq<char>) -> Seq<char> {
    match telegram_failure_text(e, bot_username) {
        Some(t) => t,
        None => match e {
            BotError::DatabaseError(_) => "A database error occurred. Please try again later."@,
            BotError::PackNotFound => "Sticker pack not found. Please create a pack first with /createpack."@,
            BotError::PackOwnershipViolation => "That sticker pack doesn't belong to you."@,
            _ => "An error occurred. Please try again later."@,
        },
    }
}

/// The answer to a failed `/kang`.
pub fn kang_error_message(e: &BotError, bot_username: &str) -> (r: String)
    ensures
        r@ == kang_error_text(*e, bot_username@),
{
    match telegram_failure_message(e, bot_username) {
        Some(m) => m,
        None => match e {
            BotError::DatabaseError(_) => owned("A database error occurred. Please try again later."),
            BotError::PackNotFound => owned("Sticker pack not found. Please create a pack first with /createpack."),
            BotError::PackOwnershipViolation => owned("That sticker pack doesn't belong to you."),
            _ => owned("An error occurred. Please try again later."),
        },
    }
}

} // verus!
