//! The editor's state and the reducer that applies an action to it.
use vstd::prelude::*;
use crate::action::{effects_view, Action, Direction, EffectView, NoteKey, SideEffect};
use crate::pattern::{Note, Pattern, PatternView, TimeSignature, NOTE_OFF};

verus! {

pub const DEFAULT_CHANNELS: usize = 4;

pub const DEFAULT_OCTAVE: u8 = 4;

pub const DEFAULT_EDIT_STEP: usize = 1;

pub const DEFAULT_ROWS_PER_BEAT: usize = 4;

pub const DEFAULT_BARS: usize = 4;

/// The highest octave that `SetOctave` accepts.
pub const MAX_OCTAVE: u8 = 8;

/// The highest MIDI pitch that a note key enters.
pub const MAX_PITCH: u8 = 127;

/// `n` is a power of two (1, 2, 4, ...).
pub open spec fn is_pow2(n: int) -> bool
    decreases n,
{
    if n <= 0 {
        false
    } else if n == 1 {
        true
    } else {
        n % 2 == 0 && is_pow2(n / 2)
    }
}

/// Whether `n` is a power of two.
pub fn is_power_of_two(n: u8) -> (r: bool)
    ensures
        r == is_pow2(n as int),
{
    if n == 0 {
        return false;
    }
    let mut m: u8 = n;
    while m > 1
        invariant
            m >= 1,
            is_pow2(n as int) == is_pow2(m as int),
        decreases m,
    {
        if m % 2 != 0 {
            return false;
        }
        m = m / 2;
    }
    true
}

/// The pitch a note key enters at an octave: twelve semitones per octave above
/// the key's offset, capped at 127.
pub open spec fn key_pitch(octave: int, key: NoteKey) -> int {
    let p = octave * 12 + key.semitone();
    if p <= MAX_PITCH { p } else { MAX_PITCH as int }
}

/// The content of the editor's state.
pub struct StateView {
    pub pattern: PatternView,
    pub cursor_row: int,
    pub cursor_channel: int,
    pub is_playing: bool,
    pub octave: int,
    pub edit_step: int,
    pub time_signature: TimeSignature,
    pub bars: int,
    pub rows_per_beat: int,
}

impl StateView {
    /// What holds of every state the editor reaches: the pattern is a proper
    /// grid of as many rows as the time signature, bars and rows per beat give;
    /// the time signature is valid; the cursor is on a cell of the grid.
    pub open spec fn wf(self) -> bool {
        &&& self.pattern.wf()
        &&& self.pattern.num_rows <= usize::MAX
        &&& self.pattern.num_channels > 0
        &&& self.time_signature.numerator > 0
        &&& is_pow2(self.time_signature.denominator as int)
        &&& self.bars > 0
        &&& self.rows_per_beat > 0
        &&& self.pattern.num_rows == self.time_signature.pattern_rows(self.bars, self.rows_per_beat)
        &&& 0 <= self.cursor_row < self.pattern.num_rows
        &&& 0 <= self.cursor_channel < self.pattern.num_channels
    }

    /// The time signature that `SetTimeSignature` accepts.
    pub open spec fn valid_signature(numerator: u8, denominator: u8) -> bool {
        numerator > 0 && denominator > 0 && is_pow2(denominator as int)
    }

    /// The inputs on which applying `a` does not fail: cells that an action names
    /// exist, and a new pattern length fits in `usize`.
    pub open spec fn admits(self, a: Action) -> bool {
        match a {
            Action::SetNote { row, channel, .. } => row < self.pattern.num_rows && channel
                < self.pattern.num_channels,
            Action::ClearNote { row, channel } => row < self.pattern.num_rows && channel
                < self.pattern.num_channels,
            Action::SetTimeSignature { numerator, denominator } => Self::valid_signature(
                numerator,
                denominator,
            ) ==> TimeSignature { numerator, denominator }.pattern_rows(
                self.bars,
                self.rows_per_beat,
            ) <= usize::MAX,
            Action::SetBars(bars) => bars > 0 ==> self.time_signature.pattern_rows(
                bars as int,
                self.rows_per_beat,
            ) <= usize::MAX,
            Action::SetRowsPerBeat(rpb) => rpb > 0 ==> self.time_signature.pattern_rows(
                self.bars,
                rpb as int,
            ) <= usize::MAX,
            _ => true,
        }
    }

    /// The state with the pattern replaced.
    pub open spec fn with_pattern(self, p: PatternView) -> StateView {
        StateView { pattern: p, ..self }
    }

    /// The cursor moved one cell, wrapping around the edges of the grid.
    pub open spec fn moved(self, dir: Direction) -> StateView {
        match dir {
            Direction::Up => StateView {
                cursor_row: if self.cursor_row == 0 {
                    self.pattern.num_rows - 1
                } else {
                    self.cursor_row - 1
                },
                ..self
            },
            Direction::Down => StateView {
                cursor_row: (self.cursor_row + 1) % self.pattern.num_rows,
                ..self
            },
            Direction::Left => StateView {
                cursor_channel: if self.cursor_channel == 0 {
                    self.pattern.num_channels - 1
                } else {
                    self.cursor_channel - 1
                },
                ..self
            },
            Direction::Right => StateView {
                cursor_channel: (self.cursor_channel + 1) % self.pattern.num_channels,
                ..self
            },
        }
    }

    /// The cursor moved down by the edit step, wrapping at the end of the grid.
    pub open spec fn stepped(self) -> StateView {
        StateView {
            cursor_row: (self.cursor_row + self.edit_step) % self.pattern.num_rows,
            ..self
        }
    }

    /// The pattern cut or extended to the length that the time signature, bars
    /// and rows per beat give; the cursor kept on the grid.
    pub open spec fn resized(self) -> StateView {
        let n = self.time_signature.pattern_rows(self.bars, self.rows_per_beat);
        StateView {
            pattern: self.pattern.with_rows(n),
            cursor_row: if self.cursor_row >= n {
                if n > 0 {
                    n - 1
                } else {
                    0
                }
            } else {
                self.cursor_row
            },
            ..self
        }
    }

    /// The note that a key press enters.
    pub open spec fn key_note(self, key: NoteKey) -> Note {
        Note { pitch: key_pitch(self.octave, key) as u8, instrument: 0, velocity: 127 }
    }

    /// The state after applying `a`.
    pub open spec fn after(self, a: Action) -> StateView {
        match a {
            Action::SetNote { row, channel, note } => self.with_pattern(
                self.pattern.with_cell(row as int, channel as int, note),
            ),
            Action::ClearNote { row, channel } => self.with_pattern(
                self.pattern.with_cell(row as int, channel as int, Note::blank()),
            ),
            Action::MoveCursor(dir) => self.moved(dir),
            Action::NoteKeyPress(key) => self.with_pattern(
                self.pattern.with_cell(self.cursor_row, self.cursor_channel, self.key_note(key)),
            ).stepped(),
            Action::NoteOff => self.with_pattern(
                self.pattern.with_cell(self.cursor_row, self.cursor_channel, Note::off_marker()),
            ).stepped(),
            Action::Delete => self.with_pattern(
                self.pattern.with_cell(self.cursor_row, self.cursor_channel, Note::blank()),
            ),
            Action::Play => StateView { is_playing: true, ..self },
            Action::Stop => StateView { is_playing: false, ..self },
            Action::TogglePlayback => StateView { is_playing: !self.is_playing, ..self },
            Action::SetCursorPosition { row, channel } => {
                if row < self.pattern.num_rows && channel < self.pattern.num_channels {
                    StateView { cursor_row: row as int, cursor_channel: channel as int, ..self }
                } else {
                    self
                }
            },
            Action::SetOctave(oct) => StateView {
                octave: if oct <= MAX_OCTAVE { oct as int } else { MAX_OCTAVE as int },
                ..self
            },
            Action::SetEditStep(step) => StateView { edit_step: step as int, ..self },
            Action::SetTimeSignature { numerator, denominator } => {
                if Self::valid_signature(numerator, denominator) {
                    StateView {
                        time_signature: TimeSignature { numerator, denominator },
                        ..self
                    }.resized()
                } else {
                    self
                }
            },
            Action::SetBars(bars) => {
                if bars > 0 {
                    StateView { bars: bars as int, ..self }.resized()
                } else {
                    self
                }
            },
            Action::SetRowsPerBeat(rpb) => {
                if rpb > 0 {
                    StateView { rows_per_beat: rpb as int, ..self }.resized()
                } else {
                    self
                }
            },
        }
    }

    /// What the audio side is told after `a`, in order.
    pub open spec fn effects_of(self, a: Action) -> Seq<EffectView> {
        let next = self.after(a);
        match a {
            Action::SetNote { .. } | Action::ClearNote { .. } | Action::NoteKeyPress(_)
            | Action::NoteOff | Action::Delete => seq![
                EffectView::SendPatternToAudio(next.pattern),
            ],
            Action::Play => seq![
                EffectView::SendPatternToAudio(self.pattern),
                EffectView::StartAudio,
            ],
            Action::Stop => seq![EffectView::StopAudio],
            Action::TogglePlayback => {
                if self.is_playing {
                    seq![EffectView::StopAudio]
                } else {
                    seq![EffectView::SendPatternToAudio(self.pattern), EffectView::StartAudio]
                }
            },
            Action::SetTimeSignature { numerator, denominator } => {
                if Self::valid_signature(numerator, denominator) {
                    seq![
                        EffectView::SendPatternToAudio(next.pattern),
                        EffectView::SendTimingToAudio {
                            rows_per_beat: next.rows_per_beat,
                            beat_value: next.time_signature.denominator as int,
                        },
                    ]
                } else {
                    seq![]
                }
            },
            Action::SetBars(bars) => {
                if bars > 0 {
                    seq![EffectView::SendPatternToAudio(next.pattern)]
                } else {
                    seq![]
                }
            },
            Action::SetRowsPerBeat(rpb) => {
                if rpb > 0 {
                    seq![
                        EffectView::SendPatternToAudio(next.pattern),
                        EffectView::SendTimingToAudio {
                            rows_per_beat: next.rows_per_beat,
                            beat_value: next.time_signature.denominator as int,
                        },
                    ]
                } else {
                    seq![]
                }
            },
            _ => seq![],
        }
    }
}

/// The state of the pattern editor: the pattern, the cursor, the transport
/// flag and the settings that shape note entry and the pattern's length.
#[derive(Debug)]
pub struct AppState {
    pub pattern: Pattern,
    pub cursor_row: usize,
    pub cursor_channel: usize,
    pub is_playing: bool,
    pub octave: u8,
    pub edit_step: usize,
    pub time_signature: TimeSignature,
    pub bars: usize,
    pub rows_per_beat: usize,
}

impl View for AppState {
    type V = StateView;

    open spec fn view(&self) -> StateView {
        StateView {
            pattern: self.pattern@,
            cursor_row: self.cursor_row as int,
            cursor_channel: self.cursor_channel as int,
            is_playing: self.is_playing,
            octave: self.octave as int,
            edit_step: self.edit_step as int,
            time_signature: self.time_signature,
            bars: self.bars as int,
            rows_per_beat: self.rows_per_beat as int,
        }
    }
}

/// The state a new editor starts in: 4/4 time, four bars of four rows per beat
/// (64 rows) on four channels, all blank; cursor at the top left; stopped;
/// octave 4; edit step 1.
pub open spec fn initial_state() -> StateView {
    StateView {
        pattern: PatternView::blank(64, DEFAULT_CHANNELS as int),
        cursor_row: 0,
        cursor_channel: 0,
        is_playing: false,
        octave: DEFAULT_OCTAVE as int,
        edit_step: DEFAULT_EDIT_STEP as int,
        time_signature: TimeSignature { numerator: 4, denominator: 4 },
        bars: DEFAULT_BARS as int,
        rows_per_beat: DEFAULT_ROWS_PER_BEAT as int,
    }
}

/// For natural numbers, a product no larger than `m` with a positive second
/// factor has a first factor no larger than `m`.
proof fn lemma_factor_bound(a: int, b: int, m: int)
    requires
        0 <= a,
        1 <= b,
        a * b <= m,
    ensures
        a <= m,
{
    assert(a <= a * b) by (nonlinear_arith)
        requires
            0 <= a,
            1 <= b,
    ;
}

/// Resizing a state whose settings are valid and whose new length fits in
/// `usize` gives a well-formed state.
pub proof fn lemma_resized_wf(s: StateView)
    requires
        s.pattern.wf(),
        s.pattern.num_channels > 0,
        s.time_signature.numerator > 0,
        is_pow2(s.time_signature.denominator as int),
        s.bars > 0,
        s.rows_per_beat > 0,
        s.time_signature.pattern_rows(s.bars, s.rows_per_beat) <= usize::MAX,
        0 <= s.cursor_row,
        0 <= s.cursor_channel < s.pattern.num_channels,
    ensures
        s.resized().wf(),
{
    let n = s.time_signature.pattern_rows(s.bars, s.rows_per_beat);
    let num = s.time_signature.numerator as int;
    assert(n >= 1) by (nonlinear_arith)
        requires
            n == num * s.rows_per_beat * s.bars,
            num >= 1,
            s.rows_per_beat >= 1,
            s.bars >= 1,
    ;
    let r = s.resized();
    assert forall|k: int| 0 <= k < n implies (#[trigger] r.pattern.cells[k]).len()
        == r.pattern.num_channels by {
        if k < s.pattern.num_rows {
            assert(s.pattern.cells[k].len() == s.pattern.num_channels);
        }
    }
}

impl AppState {
    pub open spec fn wf(&self) -> bool {
        self@.wf()
    }

    pub fn new() -> (s: AppState)
        ensures
            s.wf(),
            s@ == initial_state(),
    {
        let time_sig = TimeSignature::default();  // 4/4
        let bars = DEFAULT_BARS;
        let rows_per_beat = DEFAULT_ROWS_PER_BEAT;
        let num_rows = time_sig.total_rows(bars, rows_per_beat);
        let s = AppState {
            pattern: Pattern::new(num_rows, DEFAULT_CHANNELS),
            cursor_row: 0,
            cursor_channel: 0,
            is_playing: false,
            octave: DEFAULT_OCTAVE,
            edit_step: DEFAULT_EDIT_STEP,
            time_signature: time_sig,
            bars,
            rows_per_beat,
        };
        assert(is_pow2(4)) by {
            reveal_with_fuel(is_pow2, 3);
        }
        s
    }

    /// Apply an action, mutate state, and return any side effects.
    pub fn apply(&mut self, action: Action) -> (effects: Vec<SideEffect>)
        requires
            old(self).wf(),
            old(self)@.admits(action),
        ensures
            final(self).wf(),
            final(self)@ == old(self)@.after(action),
            effects_view(effects@) == old(self)@.effects_of(action),
    {
        let mut effects: Vec<SideEffect> = Vec::new();
        match action {
            Action::SetNote { row, channel, note } => {
                self.pattern.set(row, channel, note);
                effects.push(SideEffect::SendPatternToAudio(self.pattern.clone()));
            },
            Action::ClearNote { row, channel } => {
                self.pattern.clear(row, channel);
                effects.push(SideEffect::SendPatternToAudio(self.pattern.clone()));
            },
            Action::MoveCursor(dir) => {
                self.move_cursor(dir);
            },
            Action::NoteKeyPress(key) => {
                let pitch = self.note_key_to_pitch(key);
                if pitch <= MAX_PITCH {
                    let note = Note { pitch, instrument: 0, velocity: 127 };
                    self.pattern.set(self.cursor_row, self.cursor_channel, note);
                    effects.push(SideEffect::SendPatternToAudio(self.pattern.clone()));
                    // Advance cursor by edit_step
                    self.advance_cursor();
                }
            },
            Action::NoteOff => {
                self.pattern.set(self.cursor_row, self.cursor_channel, Note::note_off());
                effects.push(SideEffect::SendPatternToAudio(self.pattern.clone()));
                self.advance_cursor();
            },
            Action::Delete => {
                self.pattern.clear(self.cursor_row, self.cursor_channel);
                effects.push(SideEffect::SendPatternToAudio(self.pattern.clone()));
            },
            Action::Play => {
                return self.play();
            },
            Action::Stop => {
                return self.stop();
            },
            Action::TogglePlayback => {
                if self.is_playing {
                    return self.stop();
                } else {
                    return self.play();
                }
            },
            Action::SetCursorPosition { row, channel } => {
                if row < self.pattern.num_rows && channel < self.pattern.num_channels {
                    self.cursor_row = row;
                    self.cursor_channel = channel;
                }
            },
            Action::SetOctave(oct) => {
                self.octave = if oct <= MAX_OCTAVE {
                    oct
                } else {
                    MAX_OCTAVE
                };
            },
            Action::SetEditStep(step) => {
                self.edit_step = step;
            },
            Action::SetTimeSignature { numerator, denominator } => {
                if numerator > 0 && denominator > 0 && is_power_of_two(denominator) {
                    self.time_signature = TimeSignature::new(numerator, denominator);
                    self.resize_pattern();
                    effects.push(SideEffect::SendPatternToAudio(self.pattern.clone()));
                    effects.push(
                        SideEffect::SendTimingToAudio {
                            rows_per_beat: self.rows_per_beat,
                            beat_value: self.time_signature.denominator,
                        },
                    );
                }
            },
            Action::SetBars(bars) => {
                if bars > 0 {
                    self.bars = bars;
                    self.resize_pattern();
                    effects.push(SideEffect::SendPatternToAudio(self.pattern.clone()));
                }
            },
            Action::SetRowsPerBeat(rpb) => {
                if rpb > 0 {
                    self.rows_per_beat = rpb;
                    self.resize_pattern();
                    effects.push(SideEffect::SendPatternToAudio(self.pattern.clone()));
                    effects.push(
                        SideEffect::SendTimingToAudio {
                            rows_per_beat: self.rows_per_beat,
                            beat_value: self.time_signature.denominator,
                        },
                    );
                }
            },
        }
        assert(effects_view(effects@) =~= old(self)@.effects_of(action));
        effects
    }

    fn play(&mut self) -> (effects: Vec<SideEffect>)
        requires
            old(self).wf(),
        ensures
            final(self).wf(),
            final(self)@ == (StateView { is_playing: true, ..old(self)@ }),
            effects_view(effects@) == seq![
                EffectView::SendPatternToAudio(old(self)@.pattern),
                EffectView::StartAudio,
            ],
    {
        let mut effects: Vec<SideEffect> = Vec::new();
        self.is_playing = true;
        effects.push(SideEffect::SendPatternToAudio(self.pattern.clone()));
        effects.push(SideEffect::StartAudio);
        assert(effects_view(effects@) =~= seq![
            EffectView::SendPatternToAudio(old(self)@.pattern),
            EffectView::StartAudio,
        ]);
        effects
    }

    fn stop(&mut self) -> (effects: Vec<SideEffect>)
        requires
            old(self).wf(),
        ensures
            final(self).wf(),
            final(self)@ == (StateView { is_playing: false, ..old(self)@ }),
            effects_view(effects@) == seq![EffectView::StopAudio],
    {
        let mut effects: Vec<SideEffect> = Vec::new();
        self.is_playing = false;
        effects.push(SideEffect::StopAudio);
        assert(effects_view(effects@) =~= seq![EffectView::StopAudio]);
        effects
    }

    /// Recompute the pattern length from time signature, bars, and rows_per_beat,
    /// then resize the pattern (preserving existing data).
    fn resize_pattern(&mut self)
        requires
            old(self).pattern.wf(),
            old(self)@.pattern.num_channels > 0,
            old(self)@.time_signature.numerator > 0,
            old(self)@.bars > 0,
            old(self)@.rows_per_beat > 0,
            old(self)@.time_signature.pattern_rows(old(self)@.bars, old(self)@.rows_per_beat)
                <= usize::MAX,
            old(self)@.cursor_channel < old(self)@.pattern.num_channels,
            is_pow2(old(self)@.time_signature.denominator as int),
        ensures
            final(self)@ == old(self)@.resized(),
            final(self).wf(),
    {
        proof {
            lemma_resized_wf(self@);
        }
        proof {
            lemma_factor_bound(
                self.time_signature.bar_rows(self.rows_per_beat as int),
                self.bars as int,
                usize::MAX as int,
            );
        }
        let new_rows = self.time_signature.total_rows(self.bars, self.rows_per_beat);
        self.pattern.resize_rows(new_rows);
        // Clamp cursor
        if self.cursor_row >= self.pattern.num_rows {
            self.cursor_row = if self.pattern.num_rows > 0 {
                self.pattern.num_rows - 1
            } else {
                0
            };
        }
    }

    fn move_cursor(&mut self, dir: Direction)
        requires
            old(self).wf(),
        ensures
            final(self).wf(),
            final(self)@ == old(self)@.moved(dir),
    {
        match dir {
            Direction::Up => {
                if self.cursor_row == 0 {
                    self.cursor_row = self.pattern.num_rows - 1;
                } else {
                    self.cursor_row = self.cursor_row - 1;
                }
            },
            Direction::Down => {
                self.cursor_row = (self.cursor_row + 1) % self.pattern.num_rows;
            },
            Direction::Left => {
                if self.cursor_channel == 0 {
                    self.cursor_channel = self.pattern.num_channels - 1;
                } else {
                    self.cursor_channel = self.cursor_channel - 1;
                }
            },
            Direction::Right => {
                self.cursor_channel = (self.cursor_channel + 1) % self.pattern.num_channels;
            },
        }
    }

    /// Move the cursor down `edit_step` times, one row at a time.
    fn advance_cursor(&mut self)
        requires
            old(self).wf(),
        ensures
            final(self).wf(),
            final(self)@ == old(self)@.stepped(),
    {
        let steps = self.edit_step;
        let mut i: usize = 0;
        proof {
            vstd::arithmetic::div_mod::lemma_small_mod(
                self.cursor_row as nat,
                self.pattern.num_rows as nat,
            );
        }
        while i < steps
            invariant
                steps == old(self).edit_step,
                i <= steps,
                self.wf(),
                self@ == (StateView {
                    cursor_row: (old(self).cursor_row + i) % (old(self).pattern.num_rows as int),
                    ..old(self)@
                }),
            decreases steps - i,
        {
            self.move_cursor(Direction::Down);
            proof {
                let n = old(self).pattern.num_rows as int;
                vstd::arithmetic::div_mod::lemma_add_mod_noop_right(
                    1,
                    old(self).cursor_row + i,
                    n,
                );
            }
            i = i + 1;
        }
    }

    fn note_key_to_pitch(&self, key: NoteKey) -> (p: u8)
        ensures
            p == key_pitch(self.octave as int, key),
    {
        let offset = key.semitone_offset();
        let base: u16 = (self.octave as u16) * 12;
        let pitch: u16 = base + offset as u16;
        if pitch <= MAX_PITCH as u16 {
            pitch as u8
        } else {
            MAX_PITCH
        }
    }
}

/// Whether a pattern of `bars` bars of `rows_per_beat` rows per beat in time
/// signature `ts` has a length that fits in `usize`.
fn rows_fit(ts: TimeSignature, bars: usize, rows_per_beat: usize) -> (r: bool)
    requires
        bars > 0,
    ensures
        r == (ts.pattern_rows(bars as int, rows_per_beat as int) <= usize::MAX),
{
    let ghost a = ts.bar_rows(rows_per_beat as int);
    match (ts.numerator as usize).checked_mul(rows_per_beat) {
        Some(bar) => bar.checked_mul(bars).is_some(),
        None => {
            assert(a * bars > usize::MAX) by (nonlinear_arith)
                requires
                    a > usize::MAX,
                    bars >= 1,
            ;
            false
        },
    }
}

impl AppState {
    /// Whether `apply` does its work on `action` rather than fail: a cell that
    /// the action names exists, and a new pattern length fits in `usize`.
    pub fn admits(&self, action: &Action) -> (r: bool)
        requires
            self.wf(),
        ensures
            r == self@.admits(*action),
    {
        match *action {
            Action::SetNote { row, channel, .. } => row < self.pattern.num_rows && channel
                < self.pattern.num_channels,
            Action::ClearNote { row, channel } => row < self.pattern.num_rows && channel
                < self.pattern.num_channels,
            Action::SetTimeSignature { numerator, denominator } => {
                if numerator > 0 && denominator > 0 && is_power_of_two(denominator) {
                    rows_fit(TimeSignature::new(numerator, denominator), self.bars, self.rows_per_beat)
                } else {
                    true
                }
            },
            Action::SetBars(bars) => {
                if bars > 0 {
                    rows_fit(self.time_signature, bars, self.rows_per_beat)
                } else {
                    true
                }
            },
            Action::SetRowsPerBeat(rpb) => {
                if rpb > 0 {
                    rows_fit(self.time_signature, self.bars, rpb)
                } else {
                    true
                }
            },
            _ => true,
        }
    }
}

impl Clone for AppState {
    fn clone(&self) -> (s: AppState)
        ensures
            s@ == self@,
    {
        AppState {
            pattern: self.pattern.clone(),
            cursor_row: self.cursor_row,
            cursor_channel: self.cursor_channel,
            is_playing: self.is_playing,
            octave: self.octave,
            edit_step: self.edit_step,
            time_signature: self.time_signature,
            bars: self.bars,
            rows_per_beat: self.rows_per_beat,
        }
    }
}

impl Default for AppState {
    fn default() -> (s: AppState)
        ensures
            s.wf(),
            s@ == initial_state(),
    {
        AppState::new()
    }
}

/// The visual weight of a row in the grid: 2 on the first row of a bar, else 1
/// on the first row of a beat, else 0.
pub open spec fn weight_of(row: int, rows_per_bar: int, rows_per_beat: int) -> int {
    if rows_per_bar > 0 && row % rows_per_bar == 0 {
        2
    } else if rows_per_beat > 0 && row % rows_per_beat == 0 {
        1
    } else {
        0
    }
}

/// Determine the visual weight of a row based on time signature structure.
/// Returns 2 for bar lines, 1 for beat lines, 0 for normal rows.
pub fn row_weight(row: usize, state: &AppState) -> (w: u8)
    requires
        state.time_signature.bar_rows(state.rows_per_beat as int) <= usize::MAX,
    ensures
        w == weight_of(
            row as int,
            state.time_signature.bar_rows(state.rows_per_beat as int),
            state.rows_per_beat as int,
        ),
{
    let rows_per_beat = state.rows_per_beat;
    let rows_per_bar = state.time_signature.rows_per_bar(rows_per_beat);
    if rows_per_bar > 0 && row % rows_per_bar == 0 {
        2  // bar boundary
    } else if rows_per_beat > 0 && row % rows_per_beat == 0 {
        1  // beat boundary
    } else {
        0
    }
}

} // verus!
