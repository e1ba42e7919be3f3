//! Database schema and entity structs.
//!
//! The SQL statements create and migrate the `users` and `sticker_packs`
//! tables; the structs are the rows the bot works with.

use vstd::prelude::*;

verus! {

/// SQL to create the table that records how many migrations were applied.
pub const CREATE_MIGRATIONS_TABLE: &'static str = "CREATE TABLE IF NOT EXISTS __migrations_metadata (id INTEGER PRIMARY KEY CHECK (id = 1), version INTEGER NOT NULL)";

/// SQL to create the single row of the migrations table.
pub const INITIALIZE_MIGRATIONS_TABLE: &'static str = "INSERT OR IGNORE INTO __migrations_metadata (id, version) VALUES (1, 0)";

/// SQL to create the users table.
pub const CREATE_USERS_TABLE: &'static str = "
CREATE TABLE IF NOT EXISTS users (
    id INTEGER PRIMARY KEY AUTOINCREMENT,
    telegram_id INTEGER NOT NULL UNIQUE,
    username TEXT,
    created_at INTEGER NOT NULL DEFAULT (unixepoch()),
    updated_at INTEGER NOT NULL DEFAULT (unixepoch())
)
";

/// SQL to create the index on `users.telegram_id`.
pub const CREATE_USERS_TELEGRAM_ID_INDEX: &'static str = "
CREATE INDEX IF NOT EXISTS idx_users_telegram_id ON users(telegram_id)
";

/// SQL to create the sticker_packs table.
pub const CREATE_STICKER_PACKS_TABLE: &'static str = "
CREATE TABLE IF NOT EXISTS sticker_packs (
    id INTEGER PRIMARY KEY AUTOINCREMENT,
    user_id INTEGER NOT NULL,
    pack_name TEXT NOT NULL,
    pack_link TEXT NOT NULL UNIQUE,
    version TEXT NOT NULL,
    sticker_count INTEGER NOT NULL DEFAULT 0,
    is_active INTEGER NOT NULL DEFAULT 1,
    created_at INTEGER NOT NULL DEFAULT (unixepoch()),
    updated_at INTEGER NOT NULL DEFAULT (unixepoch()),
    last_synced_at INTEGER,
    FOREIGN KEY (user_id) REFERENCES users(id) ON DELETE CASCADE
)
";

/// SQL to create the index on `sticker_packs.pack_link`.
pub const CREATE_STICKER_PACKS_PACK_LINK_INDEX: &'static str = "
CREATE INDEX IF NOT EXISTS idx_sticker_packs_pack_link ON sticker_packs(pack_link)
";

/// SQL to create the index on `sticker_packs.user_id`.
pub const CREATE_STICKER_PACKS_USER_ID_INDEX: &'static str = "
CREATE INDEX IF NOT EXISTS idx_sticker_packs_user_id ON sticker_packs(user_id)
";

/// SQL to add the `default_pack_id` column to the users table.
pub const ADD_DEFAULT_PACK_ID_COLUMN: &'static str = "
ALTER TABLE users ADD COLUMN default_pack_id INTEGER REFERENCES sticker_packs(id) ON DELETE SET NULL
";

/// SQL to create the index on `users.default_pack_id`.
pub const CREATE_USERS_DEFAULT_PACK_ID_INDEX: &'static str = "
CREATE INDEX IF NOT EXISTS idx_users_default_pack_id ON users(default_pack_id)
";

/// SQL to fill `default_pack_id` for existing users that have an active pack.
pub const MIGRATE_DEFAULT_PACK_ID: &'static str = "
UPDATE users
SET default_pack_id = (
    SELECT id FROM sticker_packs
    WHERE user_id = users.id AND is_active = 1
    LIMIT 1
)
WHERE EXISTS (
    SELECT 1 FROM sticker_packs
    WHERE user_id = users.id AND is_active = 1
)
";

/// Number of schema migrations.
pub const SCHEMA_MIGRATION_COUNT: usize = 8;

/// All schema migrations, in the order they are applied.
pub fn schema_migrations() -> (m: Vec<&'static str>)
    ensures
        m.len() == SCHEMA_MIGRATION_COUNT,
        m@ == seq![
            CREATE_USERS_TABLE,
            CREATE_USERS_TELEGRAM_ID_INDEX,
            CREATE_STICKER_PACKS_TABLE,
            CREATE_STICKER_PACKS_PACK_LINK_INDEX,
            CREATE_STICKER_PACKS_USER_ID_INDEX,
            ADD_DEFAULT_PACK_ID_COLUMN,
            CREATE_USERS_DEFAULT_PACK_ID_INDEX,
            MIGRATE_DEFAULT_PACK_ID,
        ],
{
    let mut m: Vec<&'static str> = Vec::new();
    m.push(CREATE_USERS_TABLE);
    m.push(CREATE_USERS_TELEGRAM_ID_INDEX);
    m.push(CREATE_STICKER_PACKS_TABLE);
    m.push(CREATE_STICKER_PACKS_PACK_LINK_INDEX);
    m.push(CREATE_STICKER_PACKS_USER_ID_INDEX);
    m.push(ADD_DEFAULT_PACK_ID_COLUMN);
    m.push(CREATE_USERS_DEFAULT_PACK_ID_INDEX);
    m.push(MIGRATE_DEFAULT_PACK_ID);
    assert(m@ =~= seq![
        CREATE_USERS_TABLE,
        CREATE_USERS_TELEGRAM_ID_INDEX,
        CREATE_STICKER_PACKS_TABLE,
        CREATE_STICKER_PACKS_PACK_LINK_INDEX,
        CREATE_STICKER_PACKS_USER_ID_INDEX,
        ADD_DEFAULT_PACK_ID_COLUMN,
        CREATE_USERS_DEFAULT_PACK_ID_INDEX,
        MIGRATE_DEFAULT_PACK_ID,
    ]);
    m
}

/// A registered bot user.
#[derive(Debug)]
pub struct User {
    pub id: i64,
    pub telegram_id: i64,
    pub username: Option<String>,
    pub default_pack_id: Option<i64>,
    pub created_at: i64,
    pub updated_at: i64,
}

/// A sticker pack owned by a user.
#[derive(Debug)]
pub struct StickerPack {
    pub id: i64,
    pub user_id: i64,
    pub pack_name: String,
    pub pack_link: String,
    pub version: String,
    pub sticker_count: i32,
    pub is_active: bool,
    pub created_at: i64,
    pub updated_at: i64,
    pub last_synced_at: Option<i64>,
}

/// A user about to be inserted.
#[derive(Debug)]
pub struct NewUser {
    pub telegram_id: i64,
    pub username: Option<String>,
}

/// A sticker pack about to be inserted.
#[derive(Debug)]
pub struct NewStickerPack {
    pub user_id: i64,
    pub pack_name: String,
    pub pack_link: String,
    pub version: String,
}

/// A copy of an optional string.
pub fn clone_opt_string(s: &Option<String>) -> (r: Option<String>)
    ensures
        r == *s,
{
    match s {
        Some(v) => Some(v.clone()),
        None => None,
    }
}

impl Clone for User {
    fn clone(&self) -> (r: Self)
        ensures
            r == *self,
    {
        User {
            id: self.id,
            telegram_id: self.telegram_id,
            username: clone_opt_string(&self.username),
            default_pack_id: self.default_pack_id,
            created_at: self.created_at,
            updated_at: self.updated_at,
        }
    }
}

impl Clone for StickerPack {
    fn clone(&self) -> (r: Self)
        ensures
            r == *self,
    {
        StickerPack {
            id: self.id,
            user_id: self.user_id,
            pack_name: self.pack_name.clone(),
            pack_link: self.pack_link.clone(),
            version: self.version.clone(),
            sticker_count: self.sticker_count,
            is_active: self.is_active,
            created_at: self.created_at,
            updated_at: self.updated_at,
            last_synced_at: self.last_synced_at,
        }
    }
}

impl Clone for NewUser {
    fn clone(&self) -> (r: Self)
        ensures
            r == *self,
    {
        NewUser { telegram_id: self.telegram_id, username: clone_opt_string(&self.username) }
    }
}

impl Clone for NewStickerPack {
    fn clone(&self) -> (r: Self)
        ensures
            r == *self,
    {
        NewStickerPack {
            user_id: self.user_id,
            pack_name: self.pack_name.clone(),
            pack_link: self.pack_link.clone(),
            version: self.version.clone(),
        }
    }
}

} // verus!
