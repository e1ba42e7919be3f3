//! Telegram values the bot builds or reads: sticker formats, input stickers,
//! and user-facing messages for API errors.

use vstd::prelude::*;
use crate::bot::error::{ApiError, ApiErrorKind};
use crate::text::{contains, contains_seq, owned, push_str};

verus! {

/// Format of a sticker.
#[derive(Debug, Clone, Copy, PartialEq, Eq, Structural)]
pub enum StickerFormat {
    /// WEBP or PNG image.
    Static,
    /// TGS animation.
    Animated,
    /// WEBM video.
    Video,
}

/// Where the file of an input sticker comes from.
#[derive(Debug)]
pub enum InputFile {
    /// A file already on Telegram's servers, by its file id.
    FileId(String),
    /// A local file, by its path.
    Path(String),
}

/// A sticker to add to a set: its file, format and emojis (no mask position,
/// no keywords).
#[derive(Debug)]
pub struct InputSticker {
    pub sticker: InputFile,
    pub format: StickerFormat,
    pub emoji_list: Vec<String>,
}

impl View for InputSticker {
    type V = (InputFile, StickerFormat, Seq<String>);

    open spec fn view(&self) -> Self::V {
        (self.sticker, self.format, self.emoji_list@)
    }
}

impl InputSticker {
    /// A copy of the sticker.
    pub fn copy(&self) -> (r: InputSticker)
        ensures
            r@ == self@,
    {
        let file = match &self.sticker {
            InputFile::FileId(id) => InputFile::FileId(id.clone()),
            InputFile::Path(p) => InputFile::Path(p.clone()),
        };
        let mut emojis: Vec<String> = Vec::new();
        let mut i: usize = 0;
        while i < self.emoji_list.len()
            invariant
                i <= self.emoji_list.len(),
                emojis@ == self.emoji_list@.take(i as int),
            decreases self.emoji_list.len() - i,
        {
            emojis.push(self.emoji_list[i].clone());
            i = i + 1;
            assert(emojis@ =~= self.emoji_list@.take(i as int));
        }
        assert(self.emoji_list@.take(i as int) =~= self.emoji_list@);
        InputSticker { sticker: file, format: self.format, emoji_list: emojis }
    }
}

/// Creates an InputSticker from a sticker file ID.
pub fn create_input_sticker_from_file_id(file_id: &str, format: &StickerFormat, emojis: &str) -> (r: InputSticker)
    ensures
        r.sticker matches InputFile::FileId(id) && id@ == file_id@,
        r.format == *format,
        r.emoji_list@.len() == 1,
        r.emoji_list@[0]@ == emojis@,
{
    let mut emoji_list: Vec<String> = Vec::new();
    emoji_list.push(owned(emojis));
    InputSticker { sticker: InputFile::FileId(owned(file_id)), format: *format, emoji_list }
}

/// Determines the sticker format from a sticker's flags: animated stickers are
/// TGS, video stickers WEBM, the rest static.
pub fn get_sticker_format(is_animated: bool, is_video: bool) -> (r: StickerFormat)
    ensures
        r == (if is_animated {
            StickerFormat::Animated
        } else if is_video {
            StickerFormat::Video
        } else {
            StickerFormat::Static
        }),
{
    if is_animated {
        return StickerFormat::Animated;
    }
    if is_video {
        return StickerFormat::Video;
    }
    StickerFormat::Static
}

/// The message for an API error the bot does not know more about.
pub open spec fn unknown_api_error_message(msg: Seq<char>, bot_username: Seq<char>) -> Seq<char> {
    if contains_seq(msg, "STICKER_VIDEO_LONG"@) {
        "Video is too long! Maximum duration is 3 seconds. Please use a shorter video."@
    } else if contains_seq(msg, "STICKER_VIDEO_TOO_LARGE"@) {
        "Video file is too large! Maximum size is 256KB after conversion."@
    } else if contains_seq(msg, "STICKER_PNG_DIMENSIONS"@) {
        "Sticker dimensions are invalid. Must be 512px on one side."@
    } else if contains_seq(msg, "STICKER_EMOJI_INVALID"@) {
        "Invalid emoji(s) provided. Please use standard emojis."@
    } else if contains_seq(msg, "STICKER_INVALID_EMOJI"@) {
        "Invalid emoji(s) provided. Please use standard emojis."@
    } else if contains_seq(msg, "STICKER_EMPTY"@) {
        "The sticker file is empty or corrupted. Please try a different file."@
    } else if contains_seq(msg, "STICKER_INVALID"@) {
        "Invalid sticker format. Please try a different file."@
    } else if contains_seq(msg, "PEER_ID_INVALID"@) {
        "You need to start me in PM first before creating/adding stickers!\n\n<a href=\"https://t.me/"@
            + bot_username + "?start=1\">👉 Start Bot Here 👈</a>"@
    } else {
        "An unexpected error occurred. Please try again later."@
    }
}

/// The user-friendly message for a Telegram API error.
pub open spec fn api_error_message(e: ApiError, bot_username: Seq<char>) -> Seq<char> {
    match e.kind {
        ApiErrorKind::StickerSetNameOccupied => "A sticker pack with this name already exists. Please try again."@,
        ApiErrorKind::InvalidStickersSet => "The sticker set is invalid or has been deleted."@,
        ApiErrorKind::InvalidStickerName => "The sticker set name is invalid. Please try again."@,
        ApiErrorKind::StickerSetOwnerIsBot => "Cannot create sticker set for bots."@,
        ApiErrorKind::WrongFileId => "Invalid sticker file. Please use a different sticker."@,
        ApiErrorKind::WrongFileIdOrUrl => "Invalid sticker file or URL. Please try again."@,
        ApiErrorKind::FailedToGetUrlContent => "Failed to download sticker. Please try again."@,
        ApiErrorKind::ImageProcessFailed => "Failed to process sticker image. Please use a different sticker."@,
        ApiErrorKind::Unknown(msg) => unknown_api_error_message(msg@, bot_username),
        ApiErrorKind::Other => "An error occurred while communicating with Telegram. Please try again."@,
    }
}

fn unknown_api_error_message_exec(msg: &str, bot_username: &str) -> (r: String)
    ensures
        r@ == unknown_api_error_message(msg@, bot_username@),
{
    if contains(msg, "STICKER_VIDEO_LONG") {
        return owned("Video is too long! Maximum duration is 3 seconds. Please use a shorter video.");
    }
    if contains(msg, "STICKER_VIDEO_TOO_LARGE") {
        return owned("Video file is too large! Maximum size is 256KB after conversion.");
    }
    if contains(msg, "STICKER_PNG_DIMENSIONS") {
        return owned("Sticker dimensions are invalid. Must be 512px on one side.");
    }
    if contains(msg, "STICKER_EMOJI_INVALID") {
        return owned("Invalid emoji(s) provided. Please use standard emojis.");
    }
    if contains(msg, "STICKER_INVALID_EMOJI") {
        return owned("Invalid emoji(s) provided. Please use standard emojis.");
    }
    if contains(msg, "STICKER_EMPTY") {
        return owned("The sticker file is empty or corrupted. Please try a different file.");
    }
    if contains(msg, "STICKER_INVALID") {
        return owned("Invalid sticker format. Please try a different file.");
    }
    if contains(msg, "PEER_ID_INVALID") {
        let mut r = String::new();
        push_str(&mut r, "You need to start me in PM first before creating/adding stickers!\n\n<a href=\"https://t.me/");
        push_str(&mut r, bot_username);
        push_str(&mut r, "?start=1\">👉 Start Bot Here 👈</a>");
        return r;
    }
    owned("An unexpected error occurred. Please try again later.")
}

/// Parses a Telegram API error and returns a user-friendly error message.
pub fn parse_api_error(error: &ApiError, bot_username: &str) -> (r: String)
    ensures
        r@ == api_error_message(*error, bot_username@),
{
    match &error.kind {
        ApiErrorKind::StickerSetNameOccupied => owned("A sticker pack with this name already exists. Please try again."),
        ApiErrorKind::InvalidStickersSet => owned("The sticker set is invalid or has been deleted."),
        ApiErrorKind::InvalidStickerName => owned("The sticker set name is invalid. Please try again."),
        ApiErrorKind::StickerSetOwnerIsBot => owned("Cannot create sticker set for bots."),
        ApiErrorKind::WrongFileId => owned("Invalid sticker file. Please use a different sticker."),
        ApiErrorKind::WrongFileIdOrUrl => owned("Invalid sticker file or URL. Please try again."),
        ApiErrorKind::FailedToGetUrlContent => owned("Failed to download sticker. Please try again."),
        ApiErrorKind::ImageProcessFailed => owned("Failed to process sticker image. Please use a different sticker."),
        ApiErrorKind::Unknown(msg) => unknown_api_error_message_exec(msg.as_str(), bot_username),
        ApiErrorKind::Other => owned("An error occurred while communicating with Telegram. Please try again."),
    }
}

} // verus!
