# mancala

Mancala (Kalah) for the terminal, with its rules and screen logic verified
by Verus.

- `src/` is the verified library: the board and its moves (`game`, with the
  laws in `game_laws` and stone counting in `stones`), the pit cursor
  (`cursor`), key events and key bindings (`keys`, `bindings`), themes
  (`theme`), the screens and how one leads to the next (`screen`), the
  selectable widgets of a window (`widgets`), and the text that the screens
  draw (`view`, `text`, `decimal`).
- `app/` runs the programs on a terminal with crossterm: the game (no
  argument), the menu screens (`menu`), the pit cursor preview (`pits`) and
  the widget window (`window`).
- `tests/` runs the library on concrete games, keys and screens.
