# splatoonbot

A Mastodon bot that announces the current Splatoon 3 map rotation.

- `src/` is the verified library: reading the schedule document
  (`api`), the post text and the timing of the next post (`bot`, `time`),
  the Mastodon account state and request contents (`mastodon`), the
  configuration types (`config`) and small string helpers (`strings`).
- `app/` is the program around it: reading `config.toml`, fetching the
  schedules, the HTTP requests, reading the authorization code from the
  terminal, and sleeping until the next rotation.
- `tests/` exercises the library on concrete values.
