# kangbot

A Telegram bot that "kangs" stickers: `/kang` adds a replied-to sticker to the
user's own sticker pack, creating the pack (and its next volume once a pack
holds 120 stickers) as needed; `/createpack <name>` starts a custom pack;
`/setstickerpack` picks the default pack; `/stats` shows resource usage.

## Layout

- `src/` is the verified library (Verus). It holds the bot's logic with its
  contracts and laws:
  - `service/`: the operations (adding a sticker, creating a custom pack,
    synchronizing and recovering packs, rotating full packs, getting or
    creating users) as step functions: each step takes the outcome of the last
    database or Telegram call and names the next one; pack naming and the
    version sequence (`Vol1 → Vol1.1 → … → Vol1.9 → Vol2`).
  - `bot/`: error values, the retry schedule, Telegram values and the texts
    and checks of the command handlers.
  - `config.rs`: building and validating the configuration.
  - `db/`: the schema and the order in which migrations run.
  - `emoji.rs`, `text.rs`: emoji decoding and string helpers.
- `app/` is the program around it: reading the environment, the libSQL
  database, the Telegram client with retries, and the dispatcher. It performs
  the actions the library's operations ask for and feeds the outcomes back.
- `tests/` exercises the library on concrete values.
