# posterbot

A Telegram bot for anonymous suggestions: users send texts, photos, videos,
audio, voice messages, video notes, stickers and albums; moderators approve
them for a channel, reject them (optionally with a reason) or ban the sender
with an appeal code; the owner manages moderators and the bot's language.

The logic is a library verified with Verus (`src/`):

- `db/` — the store (messages, moderators, bans, dialogue states) with the
  semantics of its SQL tables, its invariant, and the laws its operations
  obey (`db/laws.rs`);
- `bot/` — each command, message and button press as a function from the
  store and the incoming update to the new store and the Telegram requests
  to perform, in order; `bot/laws.rs` states that what moderators and the
  channel see never depends on who sent a proposal;
- `locales.rs`, `text.rs`, `uid.rs`, `clock.rs`, `config.rs` — the texts in
  both languages, string and number handling, appeal codes, dates and
  settings.

Appeal codes name one ban: the store refuses to record an active ban under
a code that another active ban holds. A new ban draws a random code and, when
an active ban already holds it, draws again, at most eight times in all;
only then is the ban refused. While no active ban holds a code of that form,
recording a ban always succeeds.

`app/` is the process around it: settings from the environment, the SQLite
file that keeps the store between runs, and the Telegram dispatcher that
performs the requests the library returns.
