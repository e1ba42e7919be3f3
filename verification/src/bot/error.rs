//! Bot-specific error types.
//!
//! Errors reported by the Telegram API and by the database are kept as the
//! plain values the bot's logic reads: which error it is, and how it is
//! rendered for logs (`Debug`) and for people (`Display`).

use vstd::prelude::*;
use crate::text::{push_str, contains, contains_seq};

verus! {

/// The errors of the Telegram Bot API that the bot tells apart.
#[derive(Debug)]
pub enum ApiErrorKind {
    StickerSetNameOccupied,
    InvalidStickersSet,
    InvalidStickerName,
    StickerSetOwnerIsBot,
    WrongFileId,
    WrongFileIdOrUrl,
    FailedToGetUrlContent,
    ImageProcessFailed,
    /// An error the API reported with this description.
    Unknown(String),
    /// Any other API error.
    Other,
}

/// An error reported by the Telegram Bot API.
#[derive(Debug)]
pub struct ApiError {
    pub kind: ApiErrorKind,
    /// The error's `Debug` rendering.
    pub debug_text: String,
    /// The error's `Display` rendering.
    pub display_text: String,
}

/// The kinds of failure of a request to Telegram.
#[derive(Debug)]
pub enum RequestErrorKind {
    /// The API answered with an error.
    Api(ApiError),
    /// Network, timeout, decoding or other transport failures.
    Other,
}

/// A failed request to Telegram.
#[derive(Debug)]
pub struct RequestError {
    pub kind: RequestErrorKind,
    /// The error's `Debug` rendering.
    pub debug_text: String,
    /// The error's `Display` rendering.
    pub display_text: String,
}

/// Errors of the data access layer.
#[derive(Debug)]
pub enum RepositoryError {
    /// The database failed; the value is the underlying error's `Debug` rendering.
    ConnectionError(String),
    /// No row matched.
    NotFound,
    /// A unique constraint was violated.
    DuplicateEntry,
}

/// Errors of the bot's operations.
#[derive(Debug)]
pub enum BotError {
    PackNameTooLong,
    PackNotFound,
    PackOwnershipViolation,
    TelegramApi(ApiError),
    TelegramRequest(RequestError),
    DatabaseError(RepositoryError),
}

/// The `Debug` rendering of a repository error.
pub open spec fn repository_error_debug(e: RepositoryError) -> Seq<char> {
    match e {
        RepositoryError::ConnectionError(t) => "ConnectionError("@ + t@ + ")"@,
        RepositoryError::NotFound => "NotFound"@,
        RepositoryError::DuplicateEntry => "DuplicateEntry"@,
    }
}

/// The `Debug` rendering of a bot error.
pub open spec fn bot_error_debug(e: BotError) -> Seq<char> {
    match e {
        BotError::PackNameTooLong => "PackNameTooLong"@,
        BotError::PackNotFound => "PackNotFound"@,
        BotError::PackOwnershipViolation => "PackOwnershipViolation"@,
        BotError::TelegramApi(a) => "TelegramApi("@ + a.debug_text@ + ")"@,
        BotError::TelegramRequest(r) => "TelegramRequest("@ + r.debug_text@ + ")"@,
        BotError::DatabaseError(d) => "DatabaseError("@ + repository_error_debug(d) + ")"@,
    }
}

/// The `Display` rendering of a bot error.
pub open spec fn bot_error_display(e: BotError) -> Seq<char> {
    match e {
        BotError::PackNameTooLong => "Pack name exceeds character limit (max 64 characters)"@,
        BotError::PackNotFound => "Sticker pack not found."@,
        BotError::PackOwnershipViolation => "That pack doesn't belong to you."@,
        BotError::TelegramApi(a) => "Telegram API error: "@ + a.display_text@,
        BotError::TelegramRequest(r) => "Telegram request error: "@ + r.display_text@,
        BotError::DatabaseError(_) => "Database error occurred. Please try again later."@,
    }
}

/// The error reports that a sticker set is full.
pub open spec fn is_pack_full_error_spec(e: BotError) -> bool {
    match e {
        BotError::TelegramApi(a) => {
            ||| contains_seq(a.debug_text@, "STICKERSET_FULL"@)
            ||| contains_seq(a.debug_text@, "stickerset_full"@)
            ||| contains_seq(a.debug_text@, "too many stickers"@)
            ||| contains_seq(a.debug_text@, "STICKERS_TOO_MUCH"@)
        },
        _ => false,
    }
}

/// The error reports that a sticker set is invalid or was deleted.
pub open spec fn is_pack_invalid_error_spec(e: BotError) -> bool {
    match e {
        BotError::TelegramApi(a) => {
            ||| contains_seq(a.debug_text@, "InvalidStickersSet"@)
            ||| contains_seq(a.debug_text@, "STICKERSET_INVALID"@)
        },
        _ => false,
    }
}

/// The error reports that a sticker set name is taken.
pub open spec fn is_pack_occupied_error_spec(e: BotError) -> bool {
    match e {
        BotError::TelegramRequest(r) if r.kind matches RequestErrorKind::Api(a)
            && a.kind is StickerSetNameOccupied => true,
        BotError::TelegramApi(a) if a.kind is StickerSetNameOccupied => true,
        _ => {
            ||| contains_seq(bot_error_debug(e), "StickerSetNameOccupied"@)
            ||| contains_seq(bot_error_debug(e), "STICKERSET_NAME_OCCUPIED"@)
        },
    }
}

impl BotError {
    /// The error's `Debug` rendering.
    pub fn debug_text(&self) -> (r: String)
        ensures
            r@ == bot_error_debug(*self),
    {
        let mut r = String::new();
        match self {
            BotError::PackNameTooLong => push_str(&mut r, "PackNameTooLong"),
            BotError::PackNotFound => push_str(&mut r, "PackNotFound"),
            BotError::PackOwnershipViolation => push_str(&mut r, "PackOwnershipViolation"),
            BotError::TelegramApi(a) => {
                push_str(&mut r, "TelegramApi(");
                push_str(&mut r, a.debug_text.as_str());
                push_str(&mut r, ")");
            },
            BotError::TelegramRequest(q) => {
                push_str(&mut r, "TelegramRequest(");
                push_str(&mut r, q.debug_text.as_str());
                push_str(&mut r, ")");
            },
            BotError::DatabaseError(d) => {
                push_str(&mut r, "DatabaseError(");
                match d {
                    RepositoryError::ConnectionError(t) => {
                        push_str(&mut r, "ConnectionError(");
                        push_str(&mut r, t.as_str());
                        push_str(&mut r, ")");
                    },
                    RepositoryError::NotFound => push_str(&mut r, "NotFound"),
                    RepositoryError::DuplicateEntry => push_str(&mut r, "DuplicateEntry"),
                }
                push_str(&mut r, ")");
            },
        }
        r
    }

    /// The error's `Display` rendering.
    pub fn message(&self) -> (r: String)
        ensures
            r@ == bot_error_display(*self),
    {
        let mut r = String::new();
        match self {
            BotError::PackNameTooLong => push_str(&mut r, "Pack name exceeds character limit (max 64 characters)"),
            BotError::PackNotFound => push_str(&mut r, "Sticker pack not found."),
            BotError::PackOwnershipViolation => push_str(&mut r, "That pack doesn't belong to you."),
            BotError::TelegramApi(a) => {
                push_str(&mut r, "Telegram API error: ");
                push_str(&mut r, a.display_text.as_str());
            },
            BotError::TelegramRequest(q) => {
                push_str(&mut r, "Telegram request error: ");
                push_str(&mut r, q.display_text.as_str());
            },
            BotError::DatabaseError(_) => push_str(&mut r, "Database error occurred. Please try again later."),
        }
        r
    }

    /// Check if an error indicates the pack is full.
    pub fn is_pack_full_error(&self) -> (r: bool)
        ensures
            r == is_pack_full_error_spec(*self),
    {
        match self {
            BotError::TelegramApi(a) => {
                let t = a.debug_text.as_str();
                contains(t, "STICKERSET_FULL") || contains(t, "stickerset_full")
                    || contains(t, "too many stickers") || contains(t, "STICKERS_TOO_MUCH")
            },
            _ => false,
        }
    }

    /// Check if an error indicates the pack is invalid/deleted.
    pub fn is_pack_invalid_error(&self) -> (r: bool)
        ensures
            r == is_pack_invalid_error_spec(*self),
    {
        match self {
            BotError::TelegramApi(a) => {
                let t = a.debug_text.as_str();
                contains(t, "InvalidStickersSet") || contains(t, "STICKERSET_INVALID")
            },
            _ => false,
        }
    }

    /// Check if an error indicates the pack name is already occupied.
    pub fn is_pack_occupied_error(&self) -> (r: bool)
        ensures
            r == is_pack_occupied_error_spec(*self),
    {
        match self {
            BotError::TelegramRequest(q) => {
                if let RequestErrorKind::Api(a) = &q.kind {
                    if let ApiErrorKind::StickerSetNameOccupied = &a.kind {
                        return true;
                    }
                }
            },
            BotError::TelegramApi(a) => {
                if let ApiErrorKind::StickerSetNameOccupied = &a.kind {
                    return true;
                }
            },
            _ => {},
        }
        let d = self.debug_text();
        contains(d.as_str(), "StickerSetNameOccupied") || contains(d.as_str(), "STICKERSET_NAME_OCCUPIED")
    }
}

} // verus!
