# nsfw_bot

A Discord bot with a `/nsfw` slash command that marks a text channel NSFW or
SFW, plus `/ping`, `/support` and `/invite`, a help reply to mentions, command
and server logs sent through webhooks, and server counts posted to bot lists.

- `src/` is the verified library: every decision the bot takes, with its
  contract (`decimal`, `text`, `mention`, `permissions`, `interaction`,
  `nsfw`, `guilds`, `bot_cfg`, `bot_list`, `logger`, `commands`, `ready`).
- `app/` is the program around it: the serenity event handler, HTTP calls,
  timers and the TOML configuration file.
- `tests/` runs the library on concrete values, and compares the number
  parser, the mention grammar and the permission check with `str::parse`,
  the `regex` crate and serenity's `Permissions`.
