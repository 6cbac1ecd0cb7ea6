# fhe_game

A small multi-player board game whose server never sees the players'
positions: positions, moves and the egg board are encrypted with
phantom-zone's multi-party FHE, and the server evaluates the game rules as
boolean circuits over the ciphertexts.

- `src/` is the library, with its proofs: the bit layer (`wire`, `fhe`),
  the bit encodings (`encoding`), the game rules as specifications
  (`board`), the circuits (`move_player`, `lay_egg`, `pickup_egg`,
  `get_cell`, `circuits::move_player_20_20`) and game-level properties
  (`laws`).
- `app/` runs one round with four players: key generation, encryption,
  evaluation on the server and joint decryption.
- `tests/` runs the circuits on plain bits.
