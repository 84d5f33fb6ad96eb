# abot

The game and utility rules of the ABot chat bot, written in Verus with contracts that
Verus proves.

- `src/` — the verified library: the horse-racing economy (settlement of timed
  resources, training, breeding and gacha rules, PvP rooms and prize splitting), the
  shared pixel board, drift bottles, nicknames, Minecraft server lists, the help menu
  and the small text parsers the chat commands use.
- `app/` — ordinary Rust around the library: the floating-point parts of the games
  (race simulation, odds, birth and breeding rolls, decay curves, averages) and the
  wall clock.
- `tests/` — tests that run the library on concrete values.
