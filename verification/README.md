# Daily Pulse

A Telegram bot that watches a feed and announces new stories to the chats that
subscribed to it.

- `src/` is the library: what the bot answers, whom it tells and what it
  remembers. Every function states what it returns, and Verus proves it.
- `app/` is the program: the environment, the network and the files.
- `tests/` runs the library on concrete values.

The environment sets `TELEGRAM_BOT_TOKEN` and, if wanted, `FEED_URL`,
`MAX_POSTS`, `CHECK_INTERVAL_SECS` and `STATE_DIR`.
