# space_bot

The verified core of Space, a Discord bot with help pages, moderation
commands, automatic bans and a MySQL store.

- `src/` is the library, verified with Verus: the text of every reply, the
  help pages, the rules of `kick` and of the automatic ban, the permission
  report, the SQL that creates the schema and schedules unbans, and the
  parsing of user ids and numbers.
- `app/` is the bot itself: the serenity framework and event handlers, the
  database connection and queries, and the HTTP calls. It gathers plain
  values, asks the library what to do, and performs it.
- `tests/` runs the library on concrete values.

The bot reads its settings from the environment (or a `.env` file):
`DISCORD_TOKEN`, `BOT_ID`, `DEFAULT_PREFIX`, `DATABASE_HOST`, `DATABASE_PORT`,
`DATABASE_USER`, `DATABASE_PASS`, `DATABASE_NAME`, and the emojis
`EMOJI_ENABLED`, `EMOJI_DISABLED` and `EMOJI_TICKNO`.
