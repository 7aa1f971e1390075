# RATATUI OPEN

A tiny 3D tennis game for the terminal, best in one of 100×30 cells or more. You play
against the computer; the first to win three games wins the match.

| key          | what it does            |
|--------------|-------------------------|
| ◀ ▶ or A D   | move along the baseline |
| ▲ ▼ or W S   | step in, step back      |
| SPACE        | serve                   |
| P            | pause                   |
| R            | rematch                 |
| Q or Esc     | quit                    |

A direction stays live for half a second after its key was last pressed or repeated, for
terminals that never report the release of a key.

## Layout

- `src/` is the library, verified with Verus: the rules and the score, the keys, the
  scoreboard, and the drawing of every cell of the screen. The contracts speak of
  mathematical views (`ScoreView`, `GameView`, maps from positions to cells); what relates
  several functions is stated in the proof functions named `law_…`.
- `app/` is the program around it: terminal, clock, the flight of the ball and the
  perspective view, all of which is input and output or floating point.
- `tests/` runs the library.

The library draws with ratatui. The few functions that call into it are marked
`external_body` in `src/screen.rs`, `src/panel.rs` and `src/board.rs`; their contracts are
trusted.
