use chrono::Utc;
use kangbot::db::schema::{StickerPack, User};
use kangbot::service::sticker::{StickerService, MAX_PACK_NAME_LENGTH, MAX_STICKERS_PER_PACK, STALE_THRESHOLD_SECONDS};

fn pack_synced_at(last_synced_at: Option<i64>, now: i64) -> StickerPack {
    StickerPack {
        id: 1,
        user_id: 1,
        pack_name: "Test Pack".to_string(),
        pack_link: "u1V1_by_testbot".to_string(),
        version: "Vol1".to_string(),
        sticker_count: 0,
        is_active: true,
        created_at: now,
        updated_at: now,
        last_synced_at,
    }
}

fn user_named(username: Option<&str>) -> User {
    User {
        id: 7,
        telegram_id: 555,
        username: username.map(|s| s.to_string()),
        default_pack_id: None,
        created_at: 0,
        updated_at: 0,
    }
}

#[test]
fn test_is_pack_stale_no_sync_timestamp() {
    // Pack with no last_synced_at should be considered stale
    let pack = StickerPack {
        id: 1,
        user_id: 1,
        pack_name: "Test Pack".to_string(),
        pack_link: "u1V1_by_testbot".to_string(),
        version: "Vol1".to_string(),
        sticker_count: 0,
        is_active: true,
        created_at: Utc::now().timestamp(),
        updated_at: Utc::now().timestamp(),
        last_synced_at: None,
    };
    assert!(StickerService::is_pack_stale(&pack));
}

#[test]
fn test_is_pack_stale_recent_sync() {
    // Pack synced recently (within 7 days) should not be stale
    let now = Utc::now().timestamp();
    let recent_sync = now - (3 * 24 * 3600); // 3 days ago
    let pack = pack_synced_at(Some(recent_sync), now);
    assert!(!StickerService::is_pack_stale(&pack));
}

#[test]
fn test_is_pack_stale_old_sync() {
    // Pack synced more than 7 days ago should be stale
    let now = Utc::now().timestamp();
    let old_sync = now - (8 * 24 * 3600); // 8 days ago
    let pack = pack_synced_at(Some(old_sync), now);
    assert!(StickerService::is_pack_stale(&pack));
}

#[test]
fn test_is_pack_stale_exactly_7_days() {
    // Pack synced exactly 7 days ago should be stale
    let now = Utc::now().timestamp();
    let exact_sync = now - (7 * 24 * 3600);
    let pack = pack_synced_at(Some(exact_sync), now);
    assert!(StickerService::is_pack_stale(&pack));
}

#[test]
fn staleness_at_a_given_time() {
    let p = pack_synced_at(Some(1_000), 0);
    assert!(!StickerService::is_pack_stale_at(&p, 1_000));
    assert!(!StickerService::is_pack_stale_at(&p, 1_000 + STALE_THRESHOLD_SECONDS - 1));
    assert!(StickerService::is_pack_stale_at(&p, 1_000 + STALE_THRESHOLD_SECONDS));
    assert!(!StickerService::is_pack_stale_at(&p, 0));
    assert!(StickerService::is_pack_stale_at(&pack_synced_at(None, 0), 0));
    // Extreme timestamps do not overflow.
    assert!(StickerService::is_pack_stale_at(&pack_synced_at(Some(i64::MIN), 0), i64::MAX));
    assert!(!StickerService::is_pack_stale_at(&pack_synced_at(Some(i64::MAX), 0), i64::MIN));
}

#[test]
fn limits() {
    assert_eq!(MAX_STICKERS_PER_PACK, 120);
    assert_eq!(MAX_PACK_NAME_LENGTH, 64);
    assert_eq!(STALE_THRESHOLD_SECONDS, 7 * 24 * 3600);
}

#[test]
fn first_pack_request() {
    let service = StickerService::new("testbot".to_string());
    assert_eq!(service.bot_username(), "testbot");
    let req = service.default_pack_request(&user_named(Some("alice")));
    assert_eq!(req.user_id, 7);
    assert_eq!(req.version, "Vol1");
    assert_eq!(req.pack_name, "@alice's Kang Pack Vol1");
    assert_eq!(req.pack_link, "u555V1_by_testbot");
    let req = service.default_pack_request(&user_named(None));
    assert_eq!(req.pack_name, "@user's Kang Pack Vol1");
}

#[test]
fn next_version_request() {
    let service = StickerService::new("testbot".to_string());
    let mut current = pack_synced_at(None, 0);
    current.version = "Vol1.9".to_string();
    let req = service.next_version_pack_request(&user_named(Some("bob")), &current);
    assert_eq!(req.version, "Vol2");
    assert_eq!(req.pack_name, "@bob's Kang Pack Vol2");
    assert_eq!(req.pack_link, "u555V2_by_testbot");
    current.version = "Vol2".to_string();
    let req = service.next_version_pack_request(&user_named(Some("bob")), &current);
    assert_eq!(req.pack_link, "u555V2.1_by_testbot");
    // A version without the prefix is linked as version 1.
    current.version = "Custom".to_string();
    let req = service.next_version_pack_request(&user_named(Some("bob")), &current);
    assert_eq!(req.version, "Vol1.1");
    assert_eq!(req.pack_link, "u555V1.1_by_testbot");
}

#[test]
fn version_for_next_custom_pack() {
    assert_eq!(StickerService::next_version_for(None), "Vol1");
    let mut p = pack_synced_at(None, 0);
    p.version = "Vol3.4".to_string();
    assert_eq!(StickerService::next_version_for(Some(&p)), "Vol3.5");
}

#[test]
fn staleness_now_at_the_extremes() {
    assert!(!StickerService::is_pack_stale(&pack_synced_at(Some(i64::MAX), 0)));
    assert!(StickerService::is_pack_stale(&pack_synced_at(Some(i64::MIN), 0)));
}
