# unbound

The combat rules of the Unbound yard as a verified Verus library.

- `src/` — the rules, each with a contract proved by Verus:
  `action` (action codes and what they allow), `timing` (tick lengths at
  30 Hz), `loadout` (sword, bow, staff; stats in hundredths), `skills`
  (levels from experience and level-up announcements), `input` (button
  bits), `prediction` (client prediction and reconciliation with server
  rows), `events` (combat events, their sounds and feedback), `world`
  (resource nodes, the dummy), `bot` (the headless bot's decisions),
  `hud` (cursor, keys, banner) and `token` (the stored identity token).
- `app/` — ordinary Rust around it: float movement and damage math, token
  storage, the bot's reading of positions, and the float side of the
  client's prediction.
- `tests/` — tests of the library on concrete values.
