use kangbot::bot::error::{ApiError, ApiErrorKind, BotError, RepositoryError};
use kangbot::bot::telegram::{create_input_sticker_from_file_id, InputFile, StickerFormat};
use kangbot::db::schema::{StickerPack, User};
use kangbot::service::effects::{Action, Event, Step};
use kangbot::service::kang::{KangOp, KangState};
use kangbot::service::sticker::{StickerService, STALE_THRESHOLD_SECONDS};

const NOW: i64 = 1_700_000_000;

fn kang_user(default_pack_id: Option<i64>) -> User {
    User { id: 1, telegram_id: 100, username: Some("alice".to_string()), default_pack_id, created_at: 0, updated_at: 0 }
}

fn kang_pack(id: i64, user_id: i64, version: &str, count: i32, synced: Option<i64>) -> StickerPack {
    let link = format!("u100V{}_by_testbot", version.trim_start_matches("Vol"));
    StickerPack {
        id,
        user_id,
        pack_name: format!("@alice's Kang Pack {}", version),
        pack_link: link,
        version: version.to_string(),
        sticker_count: count,
        is_active: true,
        created_at: 0,
        updated_at: 0,
        last_synced_at: synced,
    }
}

fn api_error(kind: ApiErrorKind, debug: &str) -> BotError {
    BotError::TelegramApi(ApiError { kind, debug_text: debug.to_string(), display_text: debug.to_string() })
}

fn run(service: &StickerService, op: KangOp, ev: Event) -> Step<KangOp, kangbot::service::sticker::KangResult> {
    assert!(op.accepts(&ev), "state {:?} does not expect {:?}", op.state, ev);
    op.step(service, ev)
}

fn start_op(user: User) -> (KangOp, Action) {
    KangOp::start(user, create_input_sticker_from_file_id("file1", &StickerFormat::Static, "😀"))
}

#[test]
fn kang_creates_first_pack() {
    let service = StickerService::new("testbot".to_string());
    let (op, a) = start_op(kang_user(None));
    assert!(matches!(a, Action::GetActivePack(1)));
    let (op, a) = match run(&service, op, Event::Pack(Ok(None))) {
        Step::Continue(op, a) => (op, a),
        other => panic!("{:?}", other),
    };
    match &a {
        Action::CreatePack(req) => {
            assert_eq!(req.user_id, 1);
            assert_eq!(req.version, "Vol1");
            assert_eq!(req.pack_name, "@alice's Kang Pack Vol1");
            assert_eq!(req.pack_link, "u100V1_by_testbot");
        },
        other => panic!("{:?}", other),
    }
    let created = kang_pack(5, 1, "Vol1", 0, None);
    let (op, a) = match run(&service, op, Event::Created(Ok(created))) {
        Step::Continue(op, a) => (op, a),
        other => panic!("{:?}", other),
    };
    match &a {
        Action::CreateStickerSet { user_id, name, title, sticker } => {
            assert_eq!(*user_id, 100);
            assert_eq!(name, "u100V1_by_testbot");
            assert_eq!(title, "@alice's Kang Pack Vol1");
            assert!(matches!(&sticker.sticker, InputFile::FileId(f) if f == "file1"));
        },
        other => panic!("{:?}", other),
    }
    let (op, a) = match run(&service, op, Event::Telegram(Ok(()))) {
        Step::Continue(op, a) => (op, a),
        other => panic!("{:?}", other),
    };
    assert!(matches!(a, Action::IncrementStickerCount(5)));
    match run(&service, op, Event::Stored(Ok(()))) {
        Step::Finished(Ok(r)) => {
            assert_eq!(r.pack.id, 5);
            assert!(r.created_new_pack);
        },
        other => panic!("{:?}", other),
    }
}

#[test]
fn kang_adds_to_fresh_active_pack() {
    let service = StickerService::new("testbot".to_string());
    let (op, _) = start_op(kang_user(None));
    let pack = kang_pack(8, 1, "Vol2", 10, Some(NOW - 60));
    let (op, a) = match run(&service, op, Event::Pack(Ok(Some(pack)))) {
        Step::Continue(op, a) => (op, a),
        other => panic!("{:?}", other),
    };
    assert!(matches!(a, Action::ReadClock));
    let (op, a) = match run(&service, op, Event::Clock(NOW)) {
        Step::Continue(op, a) => (op, a),
        other => panic!("{:?}", other),
    };
    match &a {
        Action::AddStickerToSet { user_id, name, sticker } => {
            assert_eq!(*user_id, 100);
            assert_eq!(name, "u100V2_by_testbot");
            assert_eq!(sticker.emoji_list, vec!["😀"]);
        },
        other => panic!("{:?}", other),
    }
    assert!(matches!(&op.state, KangState::AwaitAdd(p) if p.id == 8));
    let (op, a) = match run(&service, op, Event::Telegram(Ok(()))) {
        Step::Continue(op, a) => (op, a),
        other => panic!("{:?}", other),
    };
    assert!(matches!(a, Action::IncrementStickerCount(8)));
    match run(&service, op, Event::Stored(Ok(()))) {
        Step::Finished(Ok(r)) => {
            assert_eq!(r.pack.id, 8);
            assert!(!r.created_new_pack);
        },
        other => panic!("{:?}", other),
    }
}

#[test]
fn kang_full_pack_gets_next_version() {
    let service = StickerService::new("testbot".to_string());
    let (op, _) = start_op(kang_user(None));
    let pack = kang_pack(8, 1, "Vol1.9", 120, Some(NOW));
    let op = match run(&service, op, Event::Pack(Ok(Some(pack)))) {
        Step::Continue(op, _) => op,
        other => panic!("{:?}", other),
    };
    match run(&service, op, Event::Clock(NOW)) {
        Step::Continue(op, Action::CreatePack(req)) => {
            assert!(matches!(op.state, KangState::AwaitNextVersionPack));
            assert_eq!(req.version, "Vol2");
            assert_eq!(req.pack_link, "u100V2_by_testbot");
            assert_eq!(req.pack_name, "@alice's Kang Pack Vol2");
        },
        other => panic!("{:?}", other),
    }
}

#[test]
fn kang_stale_pack_is_synchronized_first() {
    let service = StickerService::new("testbot".to_string());
    let (op, _) = start_op(kang_user(None));
    let pack = kang_pack(8, 1, "Vol1", 10, Some(NOW - STALE_THRESHOLD_SECONDS));
    let op = match run(&service, op, Event::Pack(Ok(Some(pack)))) {
        Step::Continue(op, _) => op,
        other => panic!("{:?}", other),
    };
    let op = match run(&service, op, Event::Clock(NOW)) {
        Step::Continue(op, Action::SyncPack(p)) => {
            assert_eq!(p.id, 8);
            op
        },
        other => panic!("{:?}", other),
    };
    // Telegram reports the set invalid: the pack is treated as full.
    let invalid = api_error(ApiErrorKind::InvalidStickersSet, "InvalidStickersSet");
    match run(&service, op, Event::Synced(Err(invalid))) {
        Step::Continue(_, Action::CreatePack(req)) => assert_eq!(req.version, "Vol1.1"),
        other => panic!("{:?}", other),
    }
}

#[test]
fn kang_stale_sync_updates_the_count() {
    let service = StickerService::new("testbot".to_string());
    let (op, _) = start_op(kang_user(None));
    let op = match run(&service, op, Event::Pack(Ok(Some(kang_pack(8, 1, "Vol1", 10, None))))) {
        Step::Continue(op, _) => op,
        other => panic!("{:?}", other),
    };
    let op = match run(&service, op, Event::Clock(NOW)) {
        Step::Continue(op, Action::SyncPack(_)) => op,
        other => panic!("{:?}", other),
    };
    let synced = kang_pack(8, 1, "Vol1", 120, Some(NOW));
    match run(&service, op, Event::Synced(Ok(synced))) {
        Step::Continue(_, Action::CreatePack(req)) => assert_eq!(req.version, "Vol1.1"),
        other => panic!("{:?}", other),
    }
    // Another failure of the synchronization keeps the pack as it was.
    let (op, _) = start_op(kang_user(None));
    let op = match run(&service, op, Event::Pack(Ok(Some(kang_pack(8, 1, "Vol1", 10, None))))) {
        Step::Continue(op, _) => op,
        other => panic!("{:?}", other),
    };
    let op = match run(&service, op, Event::Clock(NOW)) {
        Step::Continue(op, _) => op,
        other => panic!("{:?}", other),
    };
    match run(&service, op, Event::Synced(Err(BotError::PackNotFound))) {
        Step::Continue(_, Action::AddStickerToSet { name, .. }) => assert_eq!(name, "u100V1_by_testbot"),
        other => panic!("{:?}", other),
    }
}

#[test]
fn kang_refuses_default_pack_of_another_user() {
    let service = StickerService::new("testbot".to_string());
    let (op, a) = start_op(kang_user(Some(77)));
    assert!(matches!(a, Action::GetPackById(77)));
    match run(&service, op, Event::Pack(Ok(Some(kang_pack(77, 2, "Vol1", 0, None))))) {
        Step::Finished(Err(BotError::PackOwnershipViolation)) => {},
        other => panic!("{:?}", other),
    }
}

#[test]
fn kang_missing_default_pack_falls_back_to_active() {
    let service = StickerService::new("testbot".to_string());
    let (op, _) = start_op(kang_user(Some(77)));
    match run(&service, op, Event::Pack(Ok(None))) {
        Step::Continue(op, Action::GetActivePack(1)) => assert!(matches!(op.state, KangState::AwaitActivePack)),
        other => panic!("{:?}", other),
    }
    let (op, _) = start_op(kang_user(Some(77)));
    match run(&service, op, Event::Pack(Ok(Some(kang_pack(77, 1, "Vol1", 0, None))))) {
        Step::Continue(op, Action::ReadClock) => assert!(matches!(&op.state, KangState::AwaitClock(p) if p.id == 77)),
        other => panic!("{:?}", other),
    }
}

#[test]
fn kang_retries_on_full_set() {
    let service = StickerService::new("testbot".to_string());
    let (op, _) = start_op(kang_user(None));
    let op = match run(&service, op, Event::Pack(Ok(Some(kang_pack(8, 1, "Vol1.2", 100, Some(NOW)))))) {
        Step::Continue(op, _) => op,
        other => panic!("{:?}", other),
    };
    let op = match run(&service, op, Event::Clock(NOW)) {
        Step::Continue(op, Action::AddStickerToSet { .. }) => op,
        other => panic!("{:?}", other),
    };
    let full = api_error(ApiErrorKind::Other, "Unknown(\"Bad Request: STICKERSET_FULL\")");
    let op = match run(&service, op, Event::Telegram(Err(full))) {
        Step::Continue(op, Action::SyncPack(p)) => {
            assert_eq!(p.id, 8);
            op
        },
        other => panic!("{:?}", other),
    };
    let op = match run(&service, op, Event::Synced(Ok(kang_pack(8, 1, "Vol1.2", 120, Some(NOW))))) {
        Step::Continue(op, Action::CreatePack(req)) => {
            assert_eq!(req.version, "Vol1.3");
            op
        },
        other => panic!("{:?}", other),
    };
    let op = match run(&service, op, Event::Created(Ok(kang_pack(9, 1, "Vol1.3", 0, None)))) {
        Step::Continue(op, Action::AddStickerToSet { name, .. }) => {
            assert_eq!(name, "u100V1.3_by_testbot");
            op
        },
        other => panic!("{:?}", other),
    };
    let op = match run(&service, op, Event::Telegram(Ok(()))) {
        Step::Continue(op, Action::IncrementStickerCount(9)) => op,
        other => panic!("{:?}", other),
    };
    match run(&service, op, Event::Stored(Ok(()))) {
        Step::Finished(Ok(r)) => {
            assert_eq!(r.pack.id, 9);
            assert!(r.created_new_pack);
        },
        other => panic!("{:?}", other),
    }
}

#[test]
fn kang_recovers_occupied_set_name() {
    let service = StickerService::new("testbot".to_string());
    let (op, _) = start_op(kang_user(None));
    let op = match run(&service, op, Event::Pack(Ok(None))) {
        Step::Continue(op, _) => op,
        other => panic!("{:?}", other),
    };
    let op = match run(&service, op, Event::Created(Ok(kang_pack(5, 1, "Vol1", 0, None)))) {
        Step::Continue(op, _) => op,
        other => panic!("{:?}", other),
    };
    let occupied = api_error(ApiErrorKind::StickerSetNameOccupied, "StickerSetNameOccupied");
    let op = match run(&service, op, Event::Telegram(Err(occupied))) {
        Step::Continue(op, Action::RecoverPack { pack_link, pack_name, version }) => {
            assert_eq!(pack_link, "u100V1_by_testbot");
            assert_eq!(pack_name, "@alice's Kang Pack Vol1");
            assert_eq!(version, "Vol1");
            op
        },
        other => panic!("{:?}", other),
    };
    let op = match run(&service, op, Event::Recovered(Ok(kang_pack(6, 1, "Vol1", 4, Some(NOW))))) {
        Step::Continue(op, Action::AddStickerToSet { name, .. }) => {
            assert_eq!(name, "u100V1_by_testbot");
            op
        },
        other => panic!("{:?}", other),
    };
    let op = match run(&service, op, Event::Telegram(Ok(()))) {
        Step::Continue(op, Action::IncrementStickerCount(6)) => op,
        other => panic!("{:?}", other),
    };
    assert!(matches!(run(&service, op, Event::Stored(Ok(()))), Step::Finished(Ok(r)) if r.pack.id == 6 && r.created_new_pack));
}

#[test]
fn kang_reports_errors() {
    let service = StickerService::new("testbot".to_string());
    let (op, _) = start_op(kang_user(None));
    match run(&service, op, Event::Pack(Err(RepositoryError::ConnectionError("down".to_string())))) {
        Step::Finished(Err(BotError::DatabaseError(RepositoryError::ConnectionError(m)))) => assert_eq!(m, "down"),
        other => panic!("{:?}", other),
    }
    let (op, _) = start_op(kang_user(None));
    let op = match run(&service, op, Event::Pack(Ok(Some(kang_pack(8, 1, "Vol1", 0, Some(NOW)))))) {
        Step::Continue(op, _) => op,
        other => panic!("{:?}", other),
    };
    let op = match run(&service, op, Event::Clock(NOW)) {
        Step::Continue(op, _) => op,
        other => panic!("{:?}", other),
    };
    let other_err = api_error(ApiErrorKind::WrongFileId, "WrongFileId");
    assert!(matches!(run(&service, op, Event::Telegram(Err(other_err))), Step::Finished(Err(BotError::TelegramApi(_)))));
}

#[test]
fn kang_rejects_unexpected_events() {
    let (op, _) = start_op(kang_user(None));
    assert!(!op.accepts(&Event::Clock(NOW)));
    assert!(!op.accepts(&Event::Stored(Ok(()))));
    assert!(op.accepts(&Event::Pack(Ok(None))));
    // A full pack whose version cannot be incremented is not accepted.
    let service = StickerService::new("testbot".to_string());
    let op = match run(&service, op, Event::Pack(Ok(Some(kang_pack(8, 1, "Vol4294967295.9", 120, Some(NOW)))))) {
        Step::Continue(op, _) => op,
        other => panic!("{:?}", other),
    };
    assert!(!op.accepts(&Event::Clock(NOW)));
}
