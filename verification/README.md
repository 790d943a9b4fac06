# tracker

A tracker-style music editor. The library (`src/`, verified with Verus) holds
the editor's logic; `app/` is the program around it (window, audio device,
floating-point synthesis and timing).

- `src/pattern.rs` — notes, the pattern grid, time signatures, tracker notation.
- `src/action.rs` — editor actions and the side effects sent to the audio side.
- `src/state.rs` — the editor state and its reducer `AppState::apply`, specified
  as a state machine over `StateView`.
- `src/sequencer.rs` — what happens at a row boundary during playback.
- `src/voices.rs` — voice allocation of a polyphonic instrument.
- `src/laws.rs` — properties of the editor that span actions.
