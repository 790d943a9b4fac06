//! Properties of the editor that hold across actions.
use vstd::prelude::*;
use crate::action::{Action, Direction, EffectView, NoteKey};
use crate::pattern::{Note, PatternView, TimeSignature};
use crate::state::{
    initial_state, is_pow2, key_pitch, lemma_resized_wf, weight_of, StateView, MAX_OCTAVE, MAX_PITCH,
};

verus! {

/// A new editor is in a well-formed state.
pub proof fn law_initial_state_wf()
    ensures
        initial_state().wf(),
{
    let s = initial_state();
    assert(is_pow2(4)) by {
        reveal_with_fuel(is_pow2, 3);
    }
    assert(s.time_signature.pattern_rows(s.bars, s.rows_per_beat) == 64);
}

/// Writing one cell keeps the grid well formed.
pub proof fn lemma_with_cell_wf(p: PatternView, row: int, channel: int, note: Note)
    requires
        p.wf(),
        0 <= row < p.num_rows,
        0 <= channel < p.num_channels,
    ensures
        p.with_cell(row, channel, note).wf(),
{
    let q = p.with_cell(row, channel, note);
    assert forall|r: int| 0 <= r < q.num_rows implies (#[trigger] q.cells[r]).len()
        == q.num_channels by {
        assert(p.cells[r].len() == p.num_channels);
    }
}

/// Every action that the state admits leads from a well-formed state to a
/// well-formed state: the pattern stays a grid as long as the time signature,
/// bars and rows per beat say, and the cursor stays on it.
pub proof fn law_apply_keeps_wf(s: StateView, a: Action)
    requires
        s.wf(),
        s.admits(a),
    ensures
        s.after(a).wf(),
{
    let n = s.pattern.num_rows;
    assert(0 <= (s.cursor_row + s.edit_step) % n < n) by {
        vstd::arithmetic::div_mod::lemma_mod_bound(s.cursor_row + s.edit_step, n);
    }
    assert(0 <= (s.cursor_row + 1) % n < n) by {
        vstd::arithmetic::div_mod::lemma_mod_bound(s.cursor_row + 1, n);
    }
    assert(0 <= (s.cursor_channel + 1) % s.pattern.num_channels < s.pattern.num_channels) by {
        vstd::arithmetic::div_mod::lemma_mod_bound(
            s.cursor_channel + 1,
            s.pattern.num_channels,
        );
    }
    match a {
        Action::SetNote { row, channel, note } => {
            lemma_with_cell_wf(s.pattern, row as int, channel as int, note);
        },
        Action::ClearNote { row, channel } => {
            lemma_with_cell_wf(s.pattern, row as int, channel as int, Note::blank());
        },
        Action::NoteKeyPress(key) => {
            lemma_with_cell_wf(s.pattern, s.cursor_row, s.cursor_channel, s.key_note(key));
        },
        Action::NoteOff => {
            lemma_with_cell_wf(s.pattern, s.cursor_row, s.cursor_channel, Note::off_marker());
        },
        Action::Delete => {
            lemma_with_cell_wf(s.pattern, s.cursor_row, s.cursor_channel, Note::blank());
        },
        Action::SetTimeSignature { numerator, denominator } => {
            if StateView::valid_signature(numerator, denominator) {
                lemma_resized_wf(
                    StateView { time_signature: TimeSignature { numerator, denominator }, ..s },
                );
            }
        },
        Action::SetBars(bars) => {
            if bars > 0 {
                lemma_resized_wf(StateView { bars: bars as int, ..s });
            }
        },
        Action::SetRowsPerBeat(rpb) => {
            if rpb > 0 {
                lemma_resized_wf(StateView { rows_per_beat: rpb as int, ..s });
            }
        },
        _ => {},
    }
}

/// Moving the cursor down and then up, or up and then down, returns it to where
/// it was; so do right and then left, and left and then right.
pub proof fn law_cursor_moves_undo(s: StateView)
    requires
        s.wf(),
    ensures
        s.after(Action::MoveCursor(Direction::Down)).after(Action::MoveCursor(Direction::Up))
            == s,
        s.after(Action::MoveCursor(Direction::Up)).after(Action::MoveCursor(Direction::Down))
            == s,
        s.after(Action::MoveCursor(Direction::Right)).after(Action::MoveCursor(Direction::Left))
            == s,
        s.after(Action::MoveCursor(Direction::Left)).after(Action::MoveCursor(Direction::Right))
            == s,
{
    let n = s.pattern.num_rows;
    let m = s.pattern.num_channels;
    if s.cursor_row + 1 < n {
        vstd::arithmetic::div_mod::lemma_small_mod((s.cursor_row + 1) as nat, n as nat);
    } else {
        vstd::arithmetic::div_mod::lemma_mod_self_0(n);
    }
    if s.cursor_row > 0 {
        vstd::arithmetic::div_mod::lemma_small_mod(s.cursor_row as nat, n as nat);
    } else {
        vstd::arithmetic::div_mod::lemma_mod_self_0(n);
    }
    if s.cursor_channel + 1 < m {
        vstd::arithmetic::div_mod::lemma_small_mod((s.cursor_channel + 1) as nat, m as nat);
    } else {
        vstd::arithmetic::div_mod::lemma_mod_self_0(m);
    }
    if s.cursor_channel > 0 {
        vstd::arithmetic::div_mod::lemma_small_mod(s.cursor_channel as nat, m as nat);
    } else {
        vstd::arithmetic::div_mod::lemma_mod_self_0(m);
    }
}

/// Every cursor move stays on the grid and wraps at its edges: up is one row
/// back modulo the number of rows, down one row forward, left and right the
/// same over channels; nothing else changes.
pub proof fn law_cursor_move_wraps(s: StateView, dir: Direction)
    requires
        s.wf(),
    ensures
        ({
            let t = s.after(Action::MoveCursor(dir));
            let rows = s.pattern.num_rows;
            let chans = s.pattern.num_channels;
            &&& t.wf()
            &&& dir == Direction::Up ==> t == StateView {
                cursor_row: (s.cursor_row + rows - 1) % rows,
                ..s
            }
            &&& dir == Direction::Down ==> t == StateView {
                cursor_row: (s.cursor_row + 1) % rows,
                ..s
            }
            &&& dir == Direction::Left ==> t == StateView {
                cursor_channel: (s.cursor_channel + chans - 1) % chans,
                ..s
            }
            &&& dir == Direction::Right ==> t == StateView {
                cursor_channel: (s.cursor_channel + 1) % chans,
                ..s
            }
        }),
{
    let rows = s.pattern.num_rows;
    let chans = s.pattern.num_channels;
    law_apply_keeps_wf(s, Action::MoveCursor(dir));
    if s.cursor_row == 0 {
        vstd::arithmetic::div_mod::lemma_small_mod((rows - 1) as nat, rows as nat);
    } else {
        vstd::arithmetic::div_mod::lemma_mod_add_multiples_vanish(s.cursor_row - 1, rows);
        vstd::arithmetic::div_mod::lemma_small_mod((s.cursor_row - 1) as nat, rows as nat);
    }
    if s.cursor_channel == 0 {
        vstd::arithmetic::div_mod::lemma_small_mod((chans - 1) as nat, chans as nat);
    } else {
        vstd::arithmetic::div_mod::lemma_mod_add_multiples_vanish(s.cursor_channel - 1, chans);
        vstd::arithmetic::div_mod::lemma_small_mod((s.cursor_channel - 1) as nat, chans as nat);
    }
}

/// Recomputing the pattern length gives a pattern of exactly
/// numerator * rows per beat * bars rows on the same channels; rows that the old
/// and the new pattern share keep their notes, added rows are blank; the cursor
/// row is clamped to the last row where it fell off; nothing else changes.
pub proof fn law_resize_shape(s: StateView)
    requires
        s.pattern.wf(),
        s.pattern.num_channels > 0,
        s.time_signature.numerator > 0,
        is_pow2(s.time_signature.denominator as int),
        s.bars > 0,
        s.rows_per_beat > 0,
        s.time_signature.pattern_rows(s.bars, s.rows_per_beat) <= usize::MAX,
        0 <= s.cursor_row,
        0 <= s.cursor_channel < s.pattern.num_channels,
    ensures
        ({
            let n = s.time_signature.pattern_rows(s.bars, s.rows_per_beat);
            let t = s.resized();
            &&& t.wf()
            &&& t.pattern.num_rows == n
            &&& t.pattern.cells.len() == n
            &&& t.pattern.num_channels == s.pattern.num_channels
            &&& forall|r: int, c: int|
                0 <= r < n && r < s.pattern.num_rows && 0 <= c < s.pattern.num_channels
                    ==> #[trigger] t.pattern.cells[r][c] == s.pattern.cells[r][c]
            &&& forall|r: int, c: int|
                s.pattern.num_rows <= r < n && 0 <= c < s.pattern.num_channels
                    ==> #[trigger] t.pattern.cells[r][c] == Note::blank()
            &&& t.cursor_row == if s.cursor_row >= n {
                n - 1
            } else {
                s.cursor_row
            }
            &&& t == StateView { pattern: t.pattern, cursor_row: t.cursor_row, ..s }
        }),
{
    lemma_resized_wf(s);
}

/// Toggling playback twice leaves the state as it was.
pub proof fn law_toggle_twice(s: StateView)
    ensures
        s.after(Action::TogglePlayback).after(Action::TogglePlayback) == s,
{
}

/// After a note is written to a cell, that cell holds the note and every other
/// cell holds what it held before.
pub proof fn law_written_note_reads_back(
    s: StateView,
    row: usize,
    channel: usize,
    note: Note,
    r: int,
    c: int,
)
    requires
        s.wf(),
        s.admits(Action::SetNote { row, channel, note }),
        0 <= r < s.pattern.num_rows,
        0 <= c < s.pattern.num_channels,
    ensures
        ({
            let t = s.after(Action::SetNote { row, channel, note });
            t.pattern.cells[r][c] == if r == row && c == channel {
                note
            } else {
                s.pattern.cells[r][c]
            }
        }),
{
}

/// Changing the time signature, bars or rows per beat keeps every note in the
/// rows that the old and the new pattern share, and adds only blank rows.
pub proof fn law_resize_keeps_notes(s: StateView, a: Action, r: int, c: int)
    requires
        s.wf(),
        s.admits(a),
        a is SetTimeSignature || a is SetBars || a is SetRowsPerBeat,
        0 <= r < s.after(a).pattern.num_rows,
        0 <= c < s.pattern.num_channels,
    ensures
        s.after(a).pattern.num_channels == s.pattern.num_channels,
        r < s.pattern.num_rows ==> s.after(a).pattern.cells[r][c] == s.pattern.cells[r][c],
        r >= s.pattern.num_rows ==> s.after(a).pattern.cells[r][c] == Note::blank(),
{
}

/// A shrink followed by a grow keeps the notes of the rows that survived both.
pub proof fn law_shrink_then_grow(p: PatternView, shorter: int, longer: int, r: int)
    requires
        p.wf(),
        0 <= shorter,
        0 <= longer,
        0 <= r < shorter,
        r < longer,
        r < p.num_rows,
    ensures
        p.with_rows(shorter).with_rows(longer).cells[r] == p.cells[r],
{
}

/// A setting that is refused (zero, or a denominator that is not a power of two)
/// changes nothing and tells the audio side nothing.
pub proof fn law_refused_settings(s: StateView, a: Action)
    requires
        match a {
            Action::SetTimeSignature { numerator, denominator } => !StateView::valid_signature(
                numerator,
                denominator,
            ),
            Action::SetBars(bars) => bars == 0,
            Action::SetRowsPerBeat(rpb) => rpb == 0,
            _ => false,
        },
    ensures
        s.after(a) == s,
        s.effects_of(a) == Seq::<EffectView>::empty(),
{
}

/// Whenever an action changes the pattern, the audio side is sent the new pattern.
pub proof fn law_pattern_changes_are_sent(s: StateView, a: Action)
    requires
        s.after(a).pattern != s.pattern,
    ensures
        s.effects_of(a).contains(EffectView::SendPatternToAudio(s.after(a).pattern)),
{
    let e = s.effects_of(a);
    assert(e[0] == EffectView::SendPatternToAudio(s.after(a).pattern));
}

/// A timing change tells the audio side the rows per beat and the beat value
/// that the state holds afterwards.
pub proof fn law_timing_is_sent(s: StateView, a: Action)
    requires
        match a {
            Action::SetTimeSignature { numerator, denominator } => StateView::valid_signature(
                numerator,
                denominator,
            ),
            Action::SetRowsPerBeat(rpb) => rpb > 0,
            _ => false,
        },
    ensures
        s.effects_of(a).contains(
            EffectView::SendTimingToAudio {
                rows_per_beat: s.after(a).rows_per_beat,
                beat_value: s.after(a).time_signature.denominator as int,
            },
        ),
{
    let e = s.effects_of(a);
    assert(e[1] == EffectView::SendTimingToAudio {
        rows_per_beat: s.after(a).rows_per_beat,
        beat_value: s.after(a).time_signature.denominator as int,
    });
}

/// A note key enters a pitch no higher than 127: the key's semitone above C of
/// the current octave where that is at most 127.
pub proof fn law_key_pitch(s: StateView, key: NoteKey)
    requires
        s.wf(),
        0 <= s.octave,
    ensures
        ({
            let t = s.after(Action::NoteKeyPress(key));
            let pitch = t.pattern.cells[s.cursor_row][s.cursor_channel].pitch;
            &&& pitch <= MAX_PITCH
            &&& s.octave * 12 + key.semitone() <= MAX_PITCH ==> pitch == s.octave * 12
                + key.semitone()
        }),
{
}

/// The octave is never set above 8.
pub proof fn law_octave_capped(s: StateView, oct: u8)
    ensures
        s.after(Action::SetOctave(oct)).octave <= MAX_OCTAVE,
{
}

/// Clearing a named cell blanks exactly that cell, wherever the cursor is:
/// every other cell, the cursor and the settings stay as they were, and the
/// audio side is sent the resulting pattern.
pub proof fn law_clear_names_its_cell(s: StateView, row: usize, channel: usize, r: int, c: int)
    requires
        s.wf(),
        row < s.pattern.num_rows,
        channel < s.pattern.num_channels,
        0 <= r < s.pattern.num_rows,
        0 <= c < s.pattern.num_channels,
    ensures
        ({
            let t = s.after(Action::ClearNote { row, channel });
            &&& t.pattern.num_rows == s.pattern.num_rows
            &&& t.pattern.num_channels == s.pattern.num_channels
            &&& t.pattern.cells[r][c] == if r == row && c == channel {
                Note { pitch: 0, instrument: 0, velocity: 0 }
            } else {
                s.pattern.cells[r][c]
            }
            &&& t.cursor_row == s.cursor_row
            &&& t.cursor_channel == s.cursor_channel
            &&& t == StateView { pattern: t.pattern, ..s }
            &&& s.effects_of(Action::ClearNote { row, channel }) == seq![
                EffectView::SendPatternToAudio(t.pattern),
            ]
        }),
{
}

/// Writing a named cell changes exactly that cell to the given note, wherever
/// the cursor is, and nothing else.
pub proof fn law_set_names_its_cell(
    s: StateView,
    row: usize,
    channel: usize,
    note: Note,
    r: int,
    c: int,
)
    requires
        s.wf(),
        row < s.pattern.num_rows,
        channel < s.pattern.num_channels,
        0 <= r < s.pattern.num_rows,
        0 <= c < s.pattern.num_channels,
    ensures
        ({
            let t = s.after(Action::SetNote { row, channel, note });
            &&& t.pattern.num_rows == s.pattern.num_rows
            &&& t.pattern.num_channels == s.pattern.num_channels
            &&& t.pattern.cells[r][c] == if r == row && c == channel {
                note
            } else {
                s.pattern.cells[r][c]
            }
            &&& t == StateView { pattern: t.pattern, ..s }
        }),
{
}

/// Delete blanks the cell under the cursor and no other; the cursor stays.
pub proof fn law_delete_blanks_cursor_cell(s: StateView, r: int, c: int)
    requires
        s.wf(),
        0 <= r < s.pattern.num_rows,
        0 <= c < s.pattern.num_channels,
    ensures
        ({
            let t = s.after(Action::Delete);
            &&& t.pattern.cells[r][c] == if r == s.cursor_row && c == s.cursor_channel {
                Note { pitch: 0, instrument: 0, velocity: 0 }
            } else {
                s.pattern.cells[r][c]
            }
            &&& t == StateView { pattern: t.pattern, ..s }
        }),
{
}

/// Note-off writes a note-off (pitch 255, instrument 0, velocity 0) into the
/// cell under the cursor and no other, then moves the cursor down by the edit
/// step, wrapping at the end of the pattern.
pub proof fn law_note_off_entry(s: StateView, r: int, c: int)
    requires
        s.wf(),
        0 <= r < s.pattern.num_rows,
        0 <= c < s.pattern.num_channels,
    ensures
        ({
            let t = s.after(Action::NoteOff);
            &&& t.pattern.cells[r][c] == if r == s.cursor_row && c == s.cursor_channel {
                Note { pitch: 255, instrument: 0, velocity: 0 }
            } else {
                s.pattern.cells[r][c]
            }
            &&& t.cursor_row == (s.cursor_row + s.edit_step) % s.pattern.num_rows
            &&& t == StateView { pattern: t.pattern, cursor_row: t.cursor_row, ..s }
        }),
{
}

/// A note key writes, into the cell under the cursor and no other, the note of
/// pitch `min(octave * 12 + offset, 127)` on instrument 0 at velocity 127, then
/// moves the cursor down by the edit step, wrapping at the end of the pattern.
pub proof fn law_note_key_entry(s: StateView, key: NoteKey, r: int, c: int)
    requires
        s.wf(),
        0 <= s.octave,
        0 <= r < s.pattern.num_rows,
        0 <= c < s.pattern.num_channels,
    ensures
        ({
            let t = s.after(Action::NoteKeyPress(key));
            let want = s.octave * 12 + key.semitone();
            let pitch = if want <= 127 { want } else { 127 };
            &&& r == s.cursor_row && c == s.cursor_channel ==> {
                &&& t.pattern.cells[r][c].pitch == pitch
                &&& t.pattern.cells[r][c].instrument == 0
                &&& t.pattern.cells[r][c].velocity == 127
            }
            &&& !(r == s.cursor_row && c == s.cursor_channel) ==> t.pattern.cells[r][c]
                == s.pattern.cells[r][c]
            &&& t.cursor_row == (s.cursor_row + s.edit_step) % s.pattern.num_rows
            &&& t == StateView { pattern: t.pattern, cursor_row: t.cursor_row, ..s }
        }),
{
}

/// A click inside the grid puts the cursor exactly on the clicked cell; a click
/// outside it changes nothing. Nothing is sent to the audio side.
pub proof fn law_click_places_cursor(s: StateView, row: usize, channel: usize)
    ensures
        ({
            let t = s.after(Action::SetCursorPosition { row, channel });
            &&& (row < s.pattern.num_rows && channel < s.pattern.num_channels) ==> {
                &&& t.cursor_row == row
                &&& t.cursor_channel == channel
                &&& t == StateView { cursor_row: t.cursor_row, cursor_channel: t.cursor_channel, ..s }
            }
            &&& !(row < s.pattern.num_rows && channel < s.pattern.num_channels) ==> t == s
            &&& s.effects_of(Action::SetCursorPosition { row, channel }).len() == 0
        }),
{
}

/// An accepted time signature n/d becomes the state's time signature exactly;
/// the pattern gets n * rows per beat * bars rows; the audio side is sent the
/// new pattern and then timing with the unchanged rows per beat and beat value d.
pub proof fn law_time_signature_taken(s: StateView, numerator: u8, denominator: u8)
    requires
        numerator > 0,
        denominator > 0,
        is_pow2(denominator as int),
    ensures
        ({
            let a = Action::SetTimeSignature { numerator, denominator };
            let t = s.after(a);
            &&& t.time_signature.numerator == numerator
            &&& t.time_signature.denominator == denominator
            &&& t.bars == s.bars
            &&& t.rows_per_beat == s.rows_per_beat
            &&& t.pattern.num_rows == numerator * s.rows_per_beat * s.bars
            &&& s.effects_of(a).len() == 2
            &&& s.effects_of(a)[0] == EffectView::SendPatternToAudio(t.pattern)
            &&& s.effects_of(a)[1] == EffectView::SendTimingToAudio {
                rows_per_beat: s.rows_per_beat,
                beat_value: denominator as int,
            }
        }),
{
}

/// A positive number of bars b is taken exactly; the pattern gets
/// numerator * rows per beat * b rows, and only the new pattern is sent.
pub proof fn law_bars_taken(s: StateView, bars: usize)
    requires
        bars > 0,
    ensures
        ({
            let t = s.after(Action::SetBars(bars));
            &&& t.bars == bars
            &&& t.time_signature == s.time_signature
            &&& t.rows_per_beat == s.rows_per_beat
            &&& t.pattern.num_rows == s.time_signature.numerator * s.rows_per_beat * bars
            &&& s.effects_of(Action::SetBars(bars)) == seq![
                EffectView::SendPatternToAudio(t.pattern),
            ]
        }),
{
}

/// A positive number of rows per beat r is taken exactly; the pattern gets
/// numerator * r * bars rows; the new pattern is sent, then timing with rows per
/// beat r and the unchanged beat value.
pub proof fn law_rows_per_beat_taken(s: StateView, rpb: usize)
    requires
        rpb > 0,
    ensures
        ({
            let a = Action::SetRowsPerBeat(rpb);
            let t = s.after(a);
            &&& t.rows_per_beat == rpb
            &&& t.time_signature == s.time_signature
            &&& t.bars == s.bars
            &&& t.pattern.num_rows == s.time_signature.numerator * rpb * s.bars
            &&& s.effects_of(a) == seq![
                EffectView::SendPatternToAudio(t.pattern),
                EffectView::SendTimingToAudio {
                    rows_per_beat: rpb as int,
                    beat_value: s.time_signature.denominator as int,
                },
            ]
        }),
{
}

/// Octave and edit step settings are taken as given (the octave capped at 8),
/// and change nothing else.
pub proof fn law_settings_taken(s: StateView, oct: u8, step: usize)
    ensures
        s.after(Action::SetOctave(oct)) == (StateView {
            octave: if oct <= 8 { oct as int } else { 8 },
            ..s
        }),
        s.after(Action::SetEditStep(step)) == (StateView { edit_step: step as int, ..s }),
{
}

/// Play sets the state playing and sends the current pattern, then a start;
/// stop clears it and sends a stop; nothing else changes.
pub proof fn law_transport(s: StateView)
    ensures
        s.after(Action::Play) == (StateView { is_playing: true, ..s }),
        s.effects_of(Action::Play) == seq![
            EffectView::SendPatternToAudio(s.pattern),
            EffectView::StartAudio,
        ],
        s.after(Action::Stop) == (StateView { is_playing: false, ..s }),
        s.effects_of(Action::Stop) == seq![EffectView::StopAudio],
        s.after(Action::TogglePlayback) == if s.is_playing {
            s.after(Action::Stop)
        } else {
            s.after(Action::Play)
        },
        s.effects_of(Action::TogglePlayback) == if s.is_playing {
            s.effects_of(Action::Stop)
        } else {
            s.effects_of(Action::Play)
        },
{
}

/// Distinct note keys enter distinct semitones; each upper-row key is the
/// home-row key below it plus an octave; home-row offsets are 0..=10 and
/// upper-row offsets 12..=21.
pub proof fn law_key_layout(k1: NoteKey, k2: NoteKey)
    ensures
        k1 != k2 ==> k1.semitone() != k2.semitone(),
        NoteKey::Q.semitone() == NoteKey::A.semitone() + 12,
        NoteKey::W.semitone() == NoteKey::S.semitone() + 12,
        NoteKey::E.semitone() == NoteKey::D.semitone() + 12,
        NoteKey::R.semitone() == NoteKey::F.semitone() + 12,
        NoteKey::T.semitone() == NoteKey::G.semitone() + 12,
        NoteKey::Y.semitone() == NoteKey::H.semitone() + 12,
        NoteKey::U.semitone() == NoteKey::J.semitone() + 12,
        NoteKey::I.semitone() == NoteKey::K.semitone() + 12,
        NoteKey::O.semitone() == NoteKey::L.semitone() + 12,
        NoteKey::P.semitone() == NoteKey::Semicolon.semitone() + 12,
        NoteKey::A.semitone() == 0,
        NoteKey::Quote.semitone() == 10,
        NoteKey::P.semitone() == 21,
{
    lemma_semitone_values();
}

proof fn lemma_semitone_values()
    ensures
        forall|k: NoteKey|
            #![trigger k.semitone()]
            k.semitone() == match k {
                NoteKey::A => 0int,
                NoteKey::S => 1,
                NoteKey::D => 2,
                NoteKey::F => 3,
                NoteKey::G => 4,
                NoteKey::H => 5,
                NoteKey::J => 6,
                NoteKey::K => 7,
                NoteKey::L => 8,
                NoteKey::Semicolon => 9,
                NoteKey::Quote => 10,
                NoteKey::Q => 12,
                NoteKey::W => 13,
                NoteKey::E => 14,
                NoteKey::R => 15,
                NoteKey::T => 16,
                NoteKey::Y => 17,
                NoteKey::U => 18,
                NoteKey::I => 19,
                NoteKey::O => 20,
                NoteKey::P => 21,
            },
{
    assert forall|k: NoteKey| #![trigger k.semitone()] k.semitone() == match k {
        NoteKey::A => 0int,
        NoteKey::S => 1,
        NoteKey::D => 2,
        NoteKey::F => 3,
        NoteKey::G => 4,
        NoteKey::H => 5,
        NoteKey::J => 6,
        NoteKey::K => 7,
        NoteKey::L => 8,
        NoteKey::Semicolon => 9,
        NoteKey::Quote => 10,
        NoteKey::Q => 12,
        NoteKey::W => 13,
        NoteKey::E => 14,
        NoteKey::R => 15,
        NoteKey::T => 16,
        NoteKey::Y => 17,
        NoteKey::U => 18,
        NoteKey::I => 19,
        NoteKey::O => 20,
        NoteKey::P => 21,
    } by {
        let home = NoteKey::home_row();
        let upper = NoteKey::upper_row();
        let r: int = match k {
            NoteKey::A => 0int,
            NoteKey::S => 1,
            NoteKey::D => 2,
            NoteKey::F => 3,
            NoteKey::G => 4,
            NoteKey::H => 5,
            NoteKey::J => 6,
            NoteKey::K => 7,
            NoteKey::L => 8,
            NoteKey::Semicolon => 9,
            NoteKey::Quote => 10,
            NoteKey::Q => 12,
            NoteKey::W => 13,
            NoteKey::E => 14,
            NoteKey::R => 15,
            NoteKey::T => 16,
            NoteKey::Y => 17,
            NoteKey::U => 18,
            NoteKey::I => 19,
            NoteKey::O => 20,
            NoteKey::P => 21,
        };
        if r <= 10 {
            assert(home[r] == k);
            assert(home.contains(k));
            home.index_of_first_ensures(k);
        } else {
            assert(upper[r - 12] == k);
            assert(forall|i: int| 0 <= i < home.len() ==> home[i] != k);
            assert(!home.contains(k));
            upper.index_of_first_ensures(k);
        }
    }
}

/// Among the denominators a time signature can have (a `u8`), the powers of two
/// are exactly 1, 2, 4, 8, 16, 32, 64 and 128.
pub proof fn law_pow2_denominators(n: int)
    requires
        0 <= n <= 255,
    ensures
        is_pow2(n) <==> (n == 1 || n == 2 || n == 4 || n == 8 || n == 16 || n == 32 || n == 64
            || n == 128),
    decreases n,
{
    if n > 1 {
        law_pow2_denominators(n / 2);
    }
}

/// Row weights: a row starts a beat exactly when it is a multiple of the rows
/// per beat, and starts a bar exactly when it is a multiple of the rows per bar;
/// a bar start weighs 2, another beat start 1, any other row 0.
pub proof fn law_row_weight(row: int, numerator: int, rows_per_beat: int)
    requires
        0 <= row,
        numerator > 0,
        rows_per_beat > 0,
    ensures
        (weight_of(row, numerator * rows_per_beat, rows_per_beat) == 2) <==> row % (numerator
            * rows_per_beat) == 0,
        (weight_of(row, numerator * rows_per_beat, rows_per_beat) >= 1) <==> row % rows_per_beat
            == 0,
        0 <= weight_of(row, numerator * rows_per_beat, rows_per_beat) <= 2,
{
    vstd::arithmetic::mul::lemma_mul_is_commutative(numerator, rows_per_beat);
    vstd::arithmetic::div_mod::lemma_mod_mod(row, rows_per_beat, numerator);
    assert((row % (rows_per_beat * numerator)) % rows_per_beat == row % rows_per_beat);
    assert(rows_per_beat * numerator == numerator * rows_per_beat);
    if row % (numerator * rows_per_beat) == 0 {
        assert(0int % rows_per_beat == 0);
        assert(row % rows_per_beat == 0);
    }
    assert(numerator * rows_per_beat > 0) by (nonlinear_arith)
        requires
            numerator > 0,
            rows_per_beat > 0,
    ;
}

} // verus!
