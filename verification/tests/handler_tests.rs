use kangbot::bot::error::{ApiError, ApiErrorKind, BotError, RepositoryError, RequestError, RequestErrorKind};
use kangbot::bot::handlers::callback_query::{check_pack_selection, default_pack_set_answer, default_pack_set_text, parse_callback_data};
use kangbot::bot::handlers::create_pack::{createpack_error_message, createpack_request, createpack_success_message, CreatePackRequest};
use kangbot::bot::handlers::kang::{input_sticker_of, kang_error_message, kang_request, kang_success_message, telegram_failure_message, KangRequest, Sender, StickerInfo};
use kangbot::bot::handlers::set_sticker_pack::setstickerpack_reply;
use kangbot::bot::handlers::start::welcome_text;
use kangbot::bot::handlers::stats::{stats_allowed, uptime_parts};
use kangbot::bot::handlers::sticker::{select_media, sticker_emojis, sticker_error_message, Media};
use kangbot::bot::handlers::utils::{create_pack_selection_keyboard, escape_html};
use kangbot::bot::telegram::{InputFile, StickerFormat};
use kangbot::db::schema::StickerPack;
use kangbot::service::sticker::{CreatePackResult, KangResult};

fn sample_pack(id: i64, user_id: i64, name: &str, link: &str, count: i32) -> StickerPack {
    StickerPack {
        id,
        user_id,
        pack_name: name.to_string(),
        pack_link: link.to_string(),
        version: "Vol1".to_string(),
        sticker_count: count,
        is_active: true,
        created_at: 0,
        updated_at: 0,
        last_synced_at: None,
    }
}

fn info(file_id: &str, animated: bool, video: bool, emoji: Option<&str>) -> StickerInfo {
    StickerInfo { file_id: file_id.to_string(), is_animated: animated, is_video: video, emoji: emoji.map(|e| e.to_string()) }
}

fn sender(id: i64) -> Sender {
    Sender { telegram_id: id, username: Some("alice".to_string()) }
}

#[test]
fn escape_html_replaces_markup() {
    assert_eq!(escape_html("a < b & c > \"d\""), "a &lt; b &amp; c &gt; &quot;d&quot;");
    assert_eq!(escape_html("plain"), "plain");
    assert_eq!(escape_html(""), "");
    assert_eq!(escape_html("it's"), "it's");
}

#[test]
fn escaped_text_has_no_markup() {
    let e = escape_html("<b>\"x\"</b> & <i>");
    assert!(!e.contains('<') && !e.contains('>') && !e.contains('"'));
}

#[test]
fn selection_keyboard_has_one_row_per_pack() {
    let packs = vec![sample_pack(3, 1, "A", "a", 5), sample_pack(9, 1, "B & C", "b", 120)];
    let k = create_pack_selection_keyboard(&packs);
    assert_eq!(k.rows.len(), 2);
    assert_eq!(k.rows[0].len(), 1);
    assert_eq!(k.rows[0][0].text, "A (5 stickers)");
    assert_eq!(k.rows[0][0].callback_data, "pack:3");
    assert_eq!(k.rows[1][0].text, "B & C (120 stickers)");
    assert_eq!(k.rows[1][0].callback_data, "pack:9");
}

#[test]
fn setstickerpack_answers() {
    let r = setstickerpack_reply(&vec![]);
    assert_eq!(r.text, "You don't have any sticker packs yet. Create one first with /createpack.");
    assert!(r.keyboard.is_none());
    let r = setstickerpack_reply(&vec![sample_pack(1, 1, "P", "p", 0)]);
    assert_eq!(r.text, "Select your default sticker pack:");
    let k = r.keyboard.unwrap();
    assert_eq!(k.rows[0][0].callback_data, "pack:1");
}

#[test]
fn callback_data_parsing() {
    assert_eq!(parse_callback_data(Some("pack:42")), Ok(42));
    assert_eq!(parse_callback_data(Some("pack:-7")), Ok(-7));
    assert_eq!(parse_callback_data(None), Err("Invalid callback data".to_string()));
    assert_eq!(parse_callback_data(Some("other:1")), Err("Invalid callback format".to_string()));
    assert_eq!(parse_callback_data(Some("pack:x")), Err("Invalid pack ID".to_string()));
    assert_eq!(parse_callback_data(Some("pack:")), Err("Invalid pack ID".to_string()));
    assert_eq!(parse_callback_data(Some("pack:99999999999999999999")), Err("Invalid pack ID".to_string()));
}

#[test]
fn callback_round_trips_keyboard_data() {
    let packs = vec![sample_pack(-5, 1, "A", "a", 0), sample_pack(i64::MAX, 1, "B", "b", 0)];
    let k = create_pack_selection_keyboard(&packs);
    for (row, p) in k.rows.iter().zip(packs.iter()) {
        assert_eq!(parse_callback_data(Some(&row[0].callback_data)), Ok(p.id));
    }
}

#[test]
fn pack_selection_checks() {
    let p = sample_pack(1, 10, "P", "p", 0);
    assert_eq!(check_pack_selection(Some(&p), 10), None);
    assert_eq!(check_pack_selection(Some(&p), 11), Some("That pack doesn't belong to you".to_string()));
    assert_eq!(check_pack_selection(None, 10), Some("Pack not found".to_string()));
    assert_eq!(default_pack_set_answer("My <Pack>"), "Default pack set to: My <Pack>");
    assert_eq!(default_pack_set_text("My <Pack>"), "✅ Default pack set to: <b>My &lt;Pack&gt;</b>");
}

#[test]
fn kang_request_choice() {
    assert!(matches!(kang_request(None, Some(info("f", false, false, None)), None), KangRequest::Ignore));
    match kang_request(Some(sender(5)), None, None) {
        KangRequest::Reply(t) => assert_eq!(t, "Please reply to a sticker with /kang to add it."),
        other => panic!("unexpected {:?}", other),
    }
    match kang_request(Some(sender(5)), Some(info("reply", false, true, Some("🔥"))), Some(info("own", false, false, None))) {
        KangRequest::Kang { telegram_id, username, sticker } => {
            assert_eq!(telegram_id, 5);
            assert_eq!(username.as_deref(), Some("alice"));
            assert!(matches!(&sticker.sticker, InputFile::FileId(id) if id == "reply"));
            assert_eq!(sticker.format, StickerFormat::Video);
            assert_eq!(sticker.emoji_list, vec!["🔥"]);
        },
        other => panic!("unexpected {:?}", other),
    }
    match kang_request(Some(sender(5)), None, Some(info("own", true, false, None))) {
        KangRequest::Kang { sticker, .. } => {
            assert!(matches!(&sticker.sticker, InputFile::FileId(id) if id == "own"));
            assert_eq!(sticker.format, StickerFormat::Animated);
            assert_eq!(sticker.emoji_list, vec!["😀"]);
        },
        other => panic!("unexpected {:?}", other),
    }
    let s = input_sticker_of(&info("x", false, false, None));
    assert_eq!(s.format, StickerFormat::Static);
}

#[test]
fn kang_messages() {
    let p = sample_pack(1, 1, "Kang & Co", "u1V1_by_bot", 3);
    assert_eq!(
        kang_success_message(&KangResult { pack: p.clone(), created_new_pack: true }),
        "Created new sticker pack <b>Kang &amp; Co</b>!\n\n<a href=\"https://t.me/addstickers/u1V1_by_bot\">Add it here</a>"
    );
    assert_eq!(
        kang_success_message(&KangResult { pack: p, created_new_pack: false }),
        "<a href=\"https://t.me/addstickers/u1V1_by_bot\">Sticker added</a> to <b>Kang &amp; Co</b>"
    );
    assert_eq!(kang_error_message(&BotError::PackNotFound, "bot"), "Sticker pack not found. Please create a pack first with /createpack.");
    assert_eq!(kang_error_message(&BotError::PackOwnershipViolation, "bot"), "That sticker pack doesn't belong to you.");
    assert_eq!(kang_error_message(&BotError::DatabaseError(RepositoryError::NotFound), "bot"), "A database error occurred. Please try again later.");
    assert_eq!(kang_error_message(&BotError::PackNameTooLong, "bot"), "An error occurred. Please try again later.");
    let api = ApiError { kind: ApiErrorKind::InvalidStickersSet, debug_text: String::new(), display_text: String::new() };
    assert_eq!(kang_error_message(&BotError::TelegramApi(api), "bot"), "The sticker set is invalid or has been deleted.");
    let net = BotError::TelegramRequest(RequestError { kind: RequestErrorKind::Other, debug_text: String::new(), display_text: String::new() });
    assert_eq!(telegram_failure_message(&net, "bot"), Some("A network error occurred. Please try again later.".to_string()));
    assert_eq!(telegram_failure_message(&BotError::PackNotFound, "bot"), None);
}

#[test]
fn createpack_request_checks() {
    match createpack_request(Some(sender(1)), None, "x".to_string()) {
        CreatePackRequest::Reply(t) => assert_eq!(t, "Please reply to a sticker with /createpack <name> to create a pack."),
        other => panic!("unexpected {:?}", other),
    }
    assert!(matches!(createpack_request(None, Some(info("f", false, false, None)), "x".to_string()), CreatePackRequest::Ignore));
    match createpack_request(Some(sender(1)), Some(info("f", false, false, None)), "   ".to_string()) {
        CreatePackRequest::Reply(t) => assert_eq!(t, "Pack name cannot be empty."),
        other => panic!("unexpected {:?}", other),
    }
    match createpack_request(Some(sender(1)), Some(info("f", false, false, None)), "x".repeat(65)) {
        CreatePackRequest::Reply(t) => assert_eq!(t, "Pack name exceeds character limit (max 64 characters)."),
        other => panic!("unexpected {:?}", other),
    }
    match createpack_request(Some(sender(1)), Some(info("f", false, true, Some("🎉"))), "x".repeat(64)) {
        CreatePackRequest::Create { telegram_id, pack_name, file_id, format, emojis, .. } => {
            assert_eq!(telegram_id, 1);
            assert_eq!(pack_name, "x".repeat(64));
            assert_eq!(file_id, "f");
            assert_eq!(format, StickerFormat::Video);
            assert_eq!(emojis, "🎉");
        },
        other => panic!("unexpected {:?}", other),
    }
}

#[test]
fn createpack_messages() {
    let p = sample_pack(1, 1, "Cats", "Cats_u1_by_bot", 1);
    assert_eq!(
        createpack_success_message(&CreatePackResult { pack: p }),
        "Created custom sticker pack <b>Cats</b>!\n\nIt is now your active pack.\n<a href=\"https://t.me/addstickers/Cats_u1_by_bot\">Add it here</a>"
    );
    assert_eq!(createpack_error_message(&BotError::PackNameTooLong, "bot"), "Pack name is too long.");
    assert_eq!(createpack_error_message(&BotError::PackNotFound, "bot"), "An error occurred while creating the sticker pack.");
}

#[test]
fn stats_rules() {
    assert!(stats_allowed(None, None));
    assert!(stats_allowed(None, Some(3)));
    assert!(stats_allowed(Some(3), Some(3)));
    assert!(!stats_allowed(Some(3), Some(4)));
    assert!(!stats_allowed(Some(3), None));
    assert_eq!(uptime_parts(0), (0, 0, 0));
    assert_eq!(uptime_parts(90061), (1, 1, 1));
    assert_eq!(uptime_parts(3 * 86400 + 5 * 3600 + 59 * 60 + 59), (3, 5, 59));
}

#[test]
fn media_selection() {
    let video = |d: u32| Media::Video { file_id: "v".to_string(), duration_secs: d };
    assert_eq!(select_media(None, video(3)), Ok(("v".to_string(), true)));
    assert_eq!(select_media(None, video(4)), Err("Video is too long! Maximum duration for a sticker is 3 seconds.".to_string()));
    assert_eq!(select_media(Some(Media::Photo { file_id: "p".to_string() }), video(1)), Ok(("p".to_string(), false)));
    assert_eq!(
        select_media(Some(Media::Nothing), video(1)),
        Err("Please reply to a Photo or Video message (Max 3 seconds) with /s.".to_string())
    );
    assert_eq!(
        select_media(None, Media::Nothing),
        Err("Please attach or reply to a Photo or Video (Max 3 seconds) to create a sticker.".to_string())
    );
    let doc = |m: Option<&str>, size: u32| Media::Document { file_id: "d".to_string(), mime_type: m.map(|s| s.to_string()), size };
    assert_eq!(select_media(None, doc(Some("video"), 512000)), Ok(("d".to_string(), true)));
    assert_eq!(
        select_media(None, doc(Some("video"), 512001)),
        Err("Sorry, video documents are limited to 500KB for server safety.".to_string())
    );
    assert_eq!(select_media(None, doc(Some("image"), 99999999)), Ok(("d".to_string(), false)));
    assert_eq!(
        select_media(None, doc(Some("audio"), 1)),
        Err("Document format not supported. Please reply to a Photo or Video.".to_string())
    );
    assert_eq!(select_media(None, doc(None, 1)), Err("Unknown document format.".to_string()));
}

#[test]
fn sticker_emoji_choice() {
    assert_eq!(sticker_emojis("  🔥 ", "😀".to_string()), "🔥");
    assert_eq!(sticker_emojis("   ", "😀".to_string()), "😀");
    assert_eq!(sticker_emojis("", "👍".to_string()), "👍");
    assert_eq!(sticker_error_message(&BotError::PackNotFound, "b"), "Sticker pack not found. Please create a pack first with /createpack.");
    assert_eq!(sticker_error_message(&BotError::PackNameTooLong, "b"), "An error occurred. Please try again later.");
}

#[test]
fn welcome_message() {
    let w = welcome_text();
    assert!(w.starts_with("👋 <b>Welcome to Sticker Kang Bot!</b>"));
    assert!(w.contains("/createpack &lt;name&gt;"));
}

#[test]
fn escape_html_reads_back() {
    for text in ["a < b & c > \"d\"", "&amp; already", "plain", "", "<<&&>>\"\""] {
        let e = escape_html(text);
        assert!(!e.contains('<') && !e.contains('>') && !e.contains('"'));
        let back = e.replace("&quot;", "\"").replace("&gt;", ">").replace("&lt;", "<").replace("&amp;", "&");
        assert_eq!(back, text);
    }
}
