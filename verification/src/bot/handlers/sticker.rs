//! The `/s` command: which photo or video becomes a sticker, and its emoji.

use vstd::prelude::*;
use crate::bot::error::BotError;
use crate::bot::handlers::kang::{telegram_failure_message, telegram_failure_text};
use crate::text::{is_blank, owned, trim, trim_spec};

verus! {

/// The media of a message, as `/s` reads it (a video first, then the largest
/// photo size, then a document).
#[derive(Debug)]
pub enum Media {
    Video { file_id: String, duration_secs: u32 },
    Photo { file_id: String },
    /// A document; `mime_type` is the top-level type of its MIME type (`video`, `image`, ...).
    Document { file_id: String, mime_type: Option<String>, size: u32 },
    /// No photo, video or document.
    Nothing,
}

/// Longest video accepted, in seconds.
pub const MAX_VIDEO_SECONDS: u32 = 3;

/// Largest video document accepted, in bytes.
pub const MAX_VIDEO_DOCUMENT_BYTES: u32 = 512000;

/// The media to convert: its file id and whether it is a video, or the
/// answer that explains why there is none. Media of the replied-to message
/// is used when there is one, else the message's own.
pub open spec fn media_choice(reply: Option<Media>, own: Media) -> Result<(String, bool), Seq<char>> {
    let (m, none_text) = match reply {
        Some(r) => (r, "Please reply to a Photo or Video message (Max 3 seconds) with /s."@),
        None => (own, "Please attach or reply to a Photo or Video (Max 3 seconds) to create a sticker."@),
    };
    match m {
        Media::Video { file_id, duration_secs } => if duration_secs > MAX_VIDEO_SECONDS {
            Err("Video is too long! Maximum duration for a sticker is 3 seconds."@)
        } else {
            Ok((file_id, true))
        },
        Media::Photo { file_id } => Ok((file_id, false)),
        Media::Document { file_id, mime_type, size } => match mime_type {
            Some(t) => if t@ == "video"@ {
                if size > MAX_VIDEO_DOCUMENT_BYTES {
                    Err("Sorry, video documents are limited to 500KB for server safety."@)
                } else {
                    Ok((file_id, true))
                }
            } else if t@ == "image"@ {
                Ok((file_id, false))
            } else {
                Err("Document format not supported. Please reply to a Photo or Video."@)
            },
            None => Err("Unknown document format."@),
        },
        Media::Nothing => Err(none_text),
    }
}

/// Chooses the media to convert into a sticker.
pub fn select_media(reply: Option<Media>, own: Media) -> (r: Result<(String, bool), String>)
    ensures
        match media_choice(reply, own) {
            Ok(v) => r == Ok::<(String, bool), String>(v),
            Err(t) => (r matches Err(m) && m@ == t),
        },
{
    let (m, none_text) = match reply {
        Some(r) => (r, "Please reply to a Photo or Video message (Max 3 seconds) with /s."),
        None => (own, "Please attach or reply to a Photo or Video (Max 3 seconds) to create a sticker."),
    };
    match m {
        Media::Video { file_id, duration_secs } => {
            if duration_secs > MAX_VIDEO_SECONDS {
                Err(owned("Video is too long! Maximum duration for a sticker is 3 seconds."))
            } else {
                Ok((file_id, true))
            }
        },
        Media::Photo { file_id } => Ok((file_id, false)),
        Media::Document { file_id, mime_type, size } => match mime_type {
            Some(t) => {
                if crate::text::equals(t.as_str(), "video") {
                    if size > MAX_VIDEO_DOCUMENT_BYTES {
                        Err(owned("Sorry, video documents are limited to 500KB for server safety."))
                    } else {
                        Ok((file_id, true))
                    }
                } else if crate::text::equals(t.as_str(), "image") {
                    Ok((file_id, false))
                } else {
                    Err(owned("Document format not supported. Please reply to a Photo or Video."))
                }
            },
            None => Err(owned("Unknown document format.")),
        },
        Media::Nothing => Err(owned(none_text)),
    }
}

/// The emojis of the new sticker: the trimmed argument, or `random` when the
/// argument is blank.
pub fn sticker_emojis(emoji_arg: &str, random: String) -> (r: String)
    ensures
        r@ == if trim_spec(emoji_arg@).len() == 0 { random@ } else { trim_spec(emoji_arg@) },
{
    if is_blank(emoji_arg) {
        random
    } else {
        trim(emoji_arg)
    }
}

/// The answer to a failed `/s`.
pub open spec fn sticker_error_text(e: BotError, bot_username: Seq<char>) -> Seq<char> {
    match telegram_failure_text(e, bot_username) {
        Some(t) => t,
        None => match e {
            BotError::PackNotFound => "Sticker pack not found. Please create a pack first with /createpack."@,
            BotError::PackOwnershipViolation => "That sticker pack doesn't belong to you."@,
            _ => "An error occurred. Please try again later."@,
        },
    }
}

/// The answer to a failed `/s`.
pub fn sticker_error_message(e: &BotError, bot_username: &str) -> (r: String)
    ensures
        r@ == sticker_error_text(*e, bot_username@),
{
    match telegram_failure_message(e, bot_username) {
        Some(m) => m,
        None => match e {
            BotError::PackNotFound => owned("Sticker pack not found. Please create a pack first with /createpack."),
            BotError::PackOwnershipViolation => owned("That sticker pack doesn't belong to you."),
            _ => owned("An error occurred. Please try again later."),
        },
    }
}

} // verus!
