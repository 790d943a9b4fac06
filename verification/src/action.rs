//! What the user asks of the editor, and what the editor asks of the audio side.
use vstd::prelude::*;
use crate::pattern::{Note, Pattern, PatternView};

verus! {

#[derive(Clone, Copy, Debug, PartialEq, Eq, Structural)]
pub enum Direction {
    Up,
    Down,
    Left,
    Right,
}

/// A keyboard key that maps to a chromatic semitone offset.
/// Layout starting from A: A=C, S=C#, D=D, F=D#, G=E, H=F, J=F#, K=G, L=G#,
/// Semicolon=A, Quote=A#
/// Upper row Q=C+12, W=C#+12, E=D+12, R=D#+12, T=E+12, Y=F+12, U=F#+12,
/// I=G+12, O=G#+12, P=A+12
#[derive(Clone, Copy, Debug, PartialEq, Eq, Structural)]
pub enum NoteKey {
    // Home row: A..Quote = C..A#
    A,
    S,
    D,
    F,
    G,
    H,
    J,
    K,
    L,
    Semicolon,
    Quote,
    // Upper row: Q..P = C+12..A+12
    Q,
    W,
    E,
    R,
    T,
    Y,
    U,
    I,
    O,
    P,
}

impl NoteKey {
    /// The home row, from A to Quote, in order.
    pub open spec fn home_row() -> Seq<NoteKey> {
        seq![
            NoteKey::A, NoteKey::S, NoteKey::D, NoteKey::F, NoteKey::G, NoteKey::H,
            NoteKey::J, NoteKey::K, NoteKey::L, NoteKey::Semicolon, NoteKey::Quote,
        ]
    }

    /// The upper row, from Q to P, in order.
    pub open spec fn upper_row() -> Seq<NoteKey> {
        seq![
            NoteKey::Q, NoteKey::W, NoteKey::E, NoteKey::R, NoteKey::T, NoteKey::Y,
            NoteKey::U, NoteKey::I, NoteKey::O, NoteKey::P,
        ]
    }

    /// The semitone above C of the base octave that the key plays: the key's place
    /// in the home row, or 12 plus its place in the upper row.
    pub open spec fn semitone(self) -> int {
        if Self::home_row().contains(self) {
            Self::home_row().index_of(self)
        } else {
            12 + Self::upper_row().index_of(self)
        }
    }

    /// Returns the semitone offset from C in the base octave.
    /// Home row keys return 0..10.
    /// Upper row keys return 12..21.
    pub fn semitone_offset(self) -> (r: u8)
        ensures
            r == self.semitone(),
            r <= 21,
    {
        let r: u8 = match self {
            NoteKey::A => 0,  // C
            NoteKey::S => 1,  // C#
            NoteKey::D => 2,  // D
            NoteKey::F => 3,  // D#
            NoteKey::G => 4,  // E
            NoteKey::H => 5,  // F
            NoteKey::J => 6,  // F#
            NoteKey::K => 7,  // G
            NoteKey::L => 8,  // G#
            NoteKey::Semicolon => 9,  // A
            NoteKey::Quote => 10,  // A#
            NoteKey::Q => 12,  // C (+1 oct)
            NoteKey::W => 13,  // C#
            NoteKey::E => 14,  // D
            NoteKey::R => 15,  // D#
            NoteKey::T => 16,  // E
            NoteKey::Y => 17,  // F
            NoteKey::U => 18,  // F#
            NoteKey::I => 19,  // G
            NoteKey::O => 20,  // G#
            NoteKey::P => 21,  // A
        };
        proof {
            let home = Self::home_row();
            let upper = Self::upper_row();
            if r <= 10 {
                assert(home[r as int] == self);
                assert(home.contains(self));
                home.index_of_first_ensures(self);
            } else {
                assert(upper[r - 12] == self);
                assert(forall|i: int| 0 <= i < home.len() ==> home[i] != self);
                assert(!home.contains(self));
                upper.index_of_first_ensures(self);
            }
        }
        r
    }
}

/// Everything the editor can be asked to do, except changing the tempo, which
/// the application handles beside it.
#[derive(Clone, Copy, Debug, PartialEq, Eq, Structural)]
pub enum Action {
    /// Set a note at a specific position.
    SetNote { row: usize, channel: usize, note: Note },
    /// Clear the note at a specific position.
    ClearNote { row: usize, channel: usize },
    /// Move the cursor.
    MoveCursor(Direction),
    /// A note key was pressed — map to MIDI pitch using current octave.
    NoteKeyPress(NoteKey),
    /// Insert a note-off at the current cursor position.
    NoteOff,
    /// Delete the note at the current cursor position.
    Delete,
    /// Start playback.
    Play,
    /// Stop playback.
    Stop,
    /// Toggle play/stop.
    TogglePlayback,
    /// Set the cursor position directly (e.g. from a mouse click).
    SetCursorPosition { row: usize, channel: usize },
    /// Change the current octave (clamped to 0-8).
    SetOctave(u8),
    /// Set how many rows the cursor advances after entering a note.
    SetEditStep(usize),
    /// Set the time signature (numerator, denominator).
    SetTimeSignature { numerator: u8, denominator: u8 },
    /// Set the pattern length in bars.
    SetBars(usize),
    /// Set how many rows represent one beat (denominator-unit).
    SetRowsPerBeat(usize),
}

/// What the audio side is to be told after an action.
#[derive(Clone, Debug, PartialEq)]
pub enum SideEffect {
    StartAudio,
    StopAudio,
    SendPatternToAudio(Pattern),
    SendTimingToAudio { rows_per_beat: usize, beat_value: u8 },
}

/// The content of a side effect, with the pattern taken by its view.
pub enum EffectView {
    StartAudio,
    StopAudio,
    SendPatternToAudio(PatternView),
    SendTimingToAudio { rows_per_beat: int, beat_value: int },
}

impl View for SideEffect {
    type V = EffectView;

    open spec fn view(&self) -> EffectView {
        match self {
            SideEffect::StartAudio => EffectView::StartAudio,
            SideEffect::StopAudio => EffectView::StopAudio,
            SideEffect::SendPatternToAudio(p) => EffectView::SendPatternToAudio(p@),
            SideEffect::SendTimingToAudio { rows_per_beat, beat_value } => {
                EffectView::SendTimingToAudio {
                    rows_per_beat: *rows_per_beat as int,
                    beat_value: *beat_value as int,
                }
            },
        }
    }
}

/// The views of a list of side effects, in order.
pub open spec fn effects_view(effects: Seq<SideEffect>) -> Seq<EffectView> {
    effects.map_values(|e: SideEffect| e@)
}

} // verus!
