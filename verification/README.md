# board_game

The rules of a small multiplayer board game, verified with Verus.

- `src/user.rs`: players, and the hourly award of action points.
- `src/board.rs`: tiles, board creation, digging.
- `src/actions.rs`: moving, upgrading range, attacking, gifting.
- `src/auth.rs`: signed tokens (via `itsdangerous`), decimal ids, storage keys.
- `src/error.rs`: refusals and their messages.
- `src/random.rs`: the calls into `rand`.
- `app/main.rs`: the actix-web server around the library, with Redis storage.
