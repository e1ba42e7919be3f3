use kangbot::bot::error::{ApiError, ApiErrorKind, BotError, RepositoryError, RequestError, RequestErrorKind};
use kangbot::bot::telegram::{create_input_sticker_from_file_id, get_sticker_format, parse_api_error, InputFile, StickerFormat};

fn api(kind: ApiErrorKind, debug: &str) -> ApiError {
    ApiError { kind, debug_text: debug.to_string(), display_text: "display".to_string() }
}

#[test]
fn test_parse_api_error_sticker_set_name_occupied() {
    let error = api(ApiErrorKind::StickerSetNameOccupied, "StickerSetNameOccupied");
    let message = parse_api_error(&error, "testbot");
    assert!(message.contains("already exists"));
}

#[test]
fn test_parse_api_error_invalid_stickers_set() {
    let error = api(ApiErrorKind::InvalidStickersSet, "InvalidStickersSet");
    let message = parse_api_error(&error, "testbot");
    assert!(message.contains("invalid or has been deleted"));
}

#[test]
fn test_parse_api_error_unknown() {
    let error = api(ApiErrorKind::Unknown("test error".to_string()), "Unknown(\"test error\")");
    let message = parse_api_error(&error, "testbot");
    assert!(message.contains("unexpected error"));
}

#[test]
fn test_create_input_sticker() {
    let sticker = create_input_sticker_from_file_id("test_file_id", &StickerFormat::Static, "😀");
    assert_eq!(sticker.format, StickerFormat::Static);
    assert_eq!(sticker.emoji_list, vec!["😀"]);
}

#[test]
fn input_sticker_names_the_file_id() {
    let sticker = create_input_sticker_from_file_id("abc", &StickerFormat::Video, "👍");
    assert!(matches!(&sticker.sticker, InputFile::FileId(id) if id == "abc"));
    assert_eq!(sticker.format, StickerFormat::Video);
    let copy = sticker.copy();
    assert!(matches!(&copy.sticker, InputFile::FileId(id) if id == "abc"));
    assert_eq!(copy.emoji_list, vec!["👍"]);
}

#[test]
fn sticker_format_from_flags() {
    assert_eq!(get_sticker_format(true, false), StickerFormat::Animated);
    assert_eq!(get_sticker_format(true, true), StickerFormat::Animated);
    assert_eq!(get_sticker_format(false, true), StickerFormat::Video);
    assert_eq!(get_sticker_format(false, false), StickerFormat::Static);
}

#[test]
fn api_error_messages_for_every_kind() {
    let m = |k: ApiErrorKind| parse_api_error(&api(k, ""), "mybot");
    assert_eq!(m(ApiErrorKind::InvalidStickerName), "The sticker set name is invalid. Please try again.");
    assert_eq!(m(ApiErrorKind::StickerSetOwnerIsBot), "Cannot create sticker set for bots.");
    assert_eq!(m(ApiErrorKind::WrongFileId), "Invalid sticker file. Please use a different sticker.");
    assert_eq!(m(ApiErrorKind::WrongFileIdOrUrl), "Invalid sticker file or URL. Please try again.");
    assert_eq!(m(ApiErrorKind::FailedToGetUrlContent), "Failed to download sticker. Please try again.");
    assert_eq!(m(ApiErrorKind::ImageProcessFailed), "Failed to process sticker image. Please use a different sticker.");
    assert_eq!(m(ApiErrorKind::Other), "An error occurred while communicating with Telegram. Please try again.");
    assert_eq!(
        m(ApiErrorKind::Unknown("Bad Request: STICKER_VIDEO_LONG".to_string())),
        "Video is too long! Maximum duration is 3 seconds. Please use a shorter video."
    );
    assert_eq!(
        m(ApiErrorKind::Unknown("STICKER_INVALID_EMOJI".to_string())),
        "Invalid emoji(s) provided. Please use standard emojis."
    );
    assert_eq!(
        m(ApiErrorKind::Unknown("STICKER_INVALID".to_string())),
        "Invalid sticker format. Please try a different file."
    );
    assert_eq!(
        m(ApiErrorKind::Unknown("PEER_ID_INVALID".to_string())),
        "You need to start me in PM first before creating/adding stickers!\n\n<a href=\"https://t.me/mybot?start=1\">👉 Start Bot Here 👈</a>"
    );
}

#[test]
fn bot_error_classification() {
    let full = BotError::TelegramApi(api(ApiErrorKind::Other, "Unknown(\"Bad Request: STICKERSET_FULL\")"));
    assert!(full.is_pack_full_error());
    assert!(!full.is_pack_invalid_error());
    let too_many = BotError::TelegramApi(api(ApiErrorKind::Other, "too many stickers in set"));
    assert!(too_many.is_pack_full_error());
    let invalid = BotError::TelegramApi(api(ApiErrorKind::InvalidStickersSet, "InvalidStickersSet"));
    assert!(invalid.is_pack_invalid_error());
    assert!(!invalid.is_pack_full_error());
    let occupied = BotError::TelegramApi(api(ApiErrorKind::StickerSetNameOccupied, "StickerSetNameOccupied"));
    assert!(occupied.is_pack_occupied_error());
    let occupied_req = BotError::TelegramRequest(RequestError {
        kind: RequestErrorKind::Api(api(ApiErrorKind::StickerSetNameOccupied, "StickerSetNameOccupied")),
        debug_text: "Api(StickerSetNameOccupied)".to_string(),
        display_text: "x".to_string(),
    });
    assert!(occupied_req.is_pack_occupied_error());
    assert!(!occupied_req.is_pack_full_error());
    let by_text = BotError::TelegramApi(api(ApiErrorKind::Other, "STICKERSET_NAME_OCCUPIED"));
    assert!(by_text.is_pack_occupied_error());
    assert!(!BotError::PackNotFound.is_pack_occupied_error());
    assert!(!BotError::DatabaseError(RepositoryError::NotFound).is_pack_full_error());
}

#[test]
fn bot_error_renderings() {
    assert_eq!(BotError::PackNotFound.debug_text(), "PackNotFound");
    assert_eq!(
        BotError::DatabaseError(RepositoryError::ConnectionError("boom".to_string())).debug_text(),
        "DatabaseError(ConnectionError(boom))"
    );
    assert_eq!(BotError::DatabaseError(RepositoryError::DuplicateEntry).debug_text(), "DatabaseError(DuplicateEntry)");
    assert_eq!(BotError::TelegramApi(api(ApiErrorKind::Other, "X")).debug_text(), "TelegramApi(X)");
    assert_eq!(BotError::PackNameTooLong.message(), "Pack name exceeds character limit (max 64 characters)");
    assert_eq!(BotError::PackOwnershipViolation.message(), "That pack doesn't belong to you.");
    assert_eq!(BotError::TelegramApi(api(ApiErrorKind::Other, "X")).message(), "Telegram API error: display");
    assert_eq!(
        BotError::DatabaseError(RepositoryError::NotFound).message(),
        "Database error occurred. Please try again later."
    );
}
