# Streamocracy

A Discord bot that lets the members of a voice channel vote to disconnect
someone who is screensharing, with its decision logic verified by Verus.

- `src/` — the verified library: configuration (`config`), slash commands and
  the checks on a `/votekick` invocation (`commands`, `utils`), the running
  polls, the vote tally and the votekick verdict with the steps that follow it
  (`polls`), the tab-list placeholders and plugin metadata of the server
  plugin (`modules`, `plugin`), and text helpers (`text`).
- `app/` — the bot itself: reads `config.toml`, talks to Discord through
  serenity, and carries out what the library decides.
- `tests/` — tests of the library on concrete values.
