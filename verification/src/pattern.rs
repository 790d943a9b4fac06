//! Notes, the pattern grid of notes, and the time signature that sizes it.
use vstd::prelude::*;
use vstd::string::StringExecFns;

verus! {

/// Sentinel pitch: no note in this cell.
pub const NOTE_EMPTY: u8 = 0;

/// Sentinel pitch: explicit note-off.
pub const NOTE_OFF: u8 = 255;

/// How a pattern is divided: `numerator` beats per bar, each beat a
/// `1/denominator` note.
#[derive(Clone, Copy, Debug, PartialEq, Eq, Structural)]
pub struct TimeSignature {
    pub numerator: u8,
    pub denominator: u8,
}

impl TimeSignature {
    /// Rows in one bar.
    pub open spec fn bar_rows(self, rows_per_beat: int) -> int {
        self.numerator * rows_per_beat
    }

    /// Rows in a pattern of `bars` bars.
    pub open spec fn pattern_rows(self, bars: int, rows_per_beat: int) -> int {
        self.bar_rows(rows_per_beat) * bars
    }

    pub fn new(numerator: u8, denominator: u8) -> (t: TimeSignature)
        ensures
            t == (TimeSignature { numerator, denominator }),
    {
        TimeSignature { numerator, denominator }
    }

    pub fn rows_per_bar(&self, rows_per_beat: usize) -> (n: usize)
        requires
            self.bar_rows(rows_per_beat as int) <= usize::MAX,
        ensures
            n == self.bar_rows(rows_per_beat as int),
    {
        (self.numerator as usize) * rows_per_beat
    }

    pub fn total_rows(&self, bars: usize, rows_per_beat: usize) -> (n: usize)
        requires
            self.bar_rows(rows_per_beat as int) <= usize::MAX,
            self.pattern_rows(bars as int, rows_per_beat as int) <= usize::MAX,
        ensures
            n == self.pattern_rows(bars as int, rows_per_beat as int),
    {
        self.rows_per_bar(rows_per_beat) * bars
    }
}

impl Default for TimeSignature {
    /// Four-four time.
    fn default() -> (t: TimeSignature)
        ensures
            t == (TimeSignature { numerator: 4, denominator: 4 }),
    {
        TimeSignature { numerator: 4, denominator: 4 }
    }
}

/// One cell of the pattern grid.
#[derive(Clone, Copy, Debug, PartialEq, Eq, Structural)]
pub struct Note {
    /// MIDI note number 1-127, or NOTE_EMPTY (0), or NOTE_OFF (255).
    pub pitch: u8,
    /// Instrument index.
    pub instrument: u8,
    /// Velocity 0-127.
    pub velocity: u8,
}

impl Note {
    /// The value of an empty cell: every field zero.
    pub open spec fn blank() -> Note {
        Note { pitch: NOTE_EMPTY, instrument: 0, velocity: 0 }
    }

    /// The value stored for an explicit note-off.
    pub open spec fn off_marker() -> Note {
        Note { pitch: NOTE_OFF, instrument: 0, velocity: 0 }
    }

    pub fn is_empty(&self) -> (r: bool)
        ensures
            r == (self.pitch == NOTE_EMPTY),
    {
        self.pitch == NOTE_EMPTY
    }

    pub fn is_note_off(&self) -> (r: bool)
        ensures
            r == (self.pitch == NOTE_OFF),
    {
        self.pitch == NOTE_OFF
    }

    pub fn note_off() -> (n: Note)
        ensures
            n == Note::off_marker(),
    {
        Note { pitch: NOTE_OFF, instrument: 0, velocity: 0 }
    }
}

impl Default for Note {
    fn default() -> (n: Note)
        ensures
            n == Note::blank(),
    {
        Note { pitch: NOTE_EMPTY, instrument: 0, velocity: 0 }
    }
}

/// The mathematical content of a pattern: its declared size and its cells,
/// `cells[row][channel]`.
pub struct PatternView {
    pub num_rows: int,
    pub num_channels: int,
    pub cells: Seq<Seq<Note>>,
}

impl PatternView {
    /// The cells form a `num_rows` by `num_channels` grid.
    pub open spec fn wf(self) -> bool {
        &&& self.cells.len() == self.num_rows
        &&& forall|r: int| 0 <= r < self.num_rows ==> (#[trigger] self.cells[r]).len()
            == self.num_channels
    }

    /// A grid of the given size whose every cell is blank.
    pub open spec fn blank(num_rows: int, num_channels: int) -> PatternView {
        PatternView {
            num_rows,
            num_channels,
            cells: Seq::new(num_rows as nat, |r: int| Seq::new(num_channels as nat, |c: int| Note::blank())),
        }
    }

    /// The grid with one cell replaced.
    pub open spec fn with_cell(self, row: int, channel: int, note: Note) -> PatternView {
        PatternView {
            num_rows: self.num_rows,
            num_channels: self.num_channels,
            cells: self.cells.update(row, self.cells[row].update(channel, note)),
        }
    }

    /// The grid cut or extended to `new_rows` rows: rows that exist in both keep
    /// their cells, rows added at the end are blank.
    pub open spec fn with_rows(self, new_rows: int) -> PatternView {
        PatternView {
            num_rows: new_rows,
            num_channels: self.num_channels,
            cells: Seq::new(
                new_rows as nat,
                |r: int|
                    if r < self.num_rows {
                        self.cells[r]
                    } else {
                        Seq::new(self.num_channels as nat, |c: int| Note::blank())
                    },
            ),
        }
    }
}

/// A grid of notes, `data[row][channel]`.
#[derive(Debug, PartialEq)]
pub struct Pattern {
    pub num_rows: usize,
    pub num_channels: usize,
    /// data[row][channel]
    pub data: Vec<Vec<Note>>,
}

impl View for Pattern {
    type V = PatternView;

    open spec fn view(&self) -> PatternView {
        PatternView {
            num_rows: self.num_rows as int,
            num_channels: self.num_channels as int,
            cells: self.data@.map_values(|line: Vec<Note>| line@),
        }
    }
}

/// A row of `n` blank cells.
fn blank_line(n: usize) -> (line: Vec<Note>)
    ensures
        line@ == Seq::new(n as nat, |c: int| Note::blank()),
{
    let mut line: Vec<Note> = Vec::new();
    let mut i: usize = 0;
    while i < n
        invariant
            i <= n,
            line@ == Seq::new(i as nat, |c: int| Note::blank()),
        decreases n - i,
    {
        line.push(Note::default());
        i = i + 1;
    }
    line
}

impl Pattern {
    /// The grid is as large as its declared size.
    pub open spec fn wf(&self) -> bool {
        self@.wf()
    }

    pub fn new(num_rows: usize, num_channels: usize) -> (p: Pattern)
        ensures
            p.wf(),
            p.num_rows == num_rows,
            p.num_channels == num_channels,
            p@ == PatternView::blank(num_rows as int, num_channels as int),
    {
        let mut data: Vec<Vec<Note>> = Vec::new();
        let mut r: usize = 0;
        while r < num_rows
            invariant
                r <= num_rows,
                data@.len() == r,
                forall|k: int|
                    0 <= k < r ==> (#[trigger] data@[k])@ == Seq::new(
                        num_channels as nat,
                        |c: int| Note::blank(),
                    ),
            decreases num_rows - r,
        {
            let line = blank_line(num_channels);
            data.push(line);
            r = r + 1;
        }
        let p = Pattern { num_rows, num_channels, data };
        assert(p@.cells =~= PatternView::blank(num_rows as int, num_channels as int).cells);
        p
    }

    pub fn get(&self, row: usize, channel: usize) -> (n: &Note)
        requires
            self.wf(),
            row < self.num_rows,
            channel < self.num_channels,
        ensures
            *n == self@.cells[row as int][channel as int],
    {
        assert(self@.cells[row as int] == self.data@[row as int]@);
        &self.data[row][channel]
    }

    pub fn set(&mut self, row: usize, channel: usize, note: Note)
        requires
            old(self).wf(),
            row < old(self).num_rows,
            channel < old(self).num_channels,
        ensures
            final(self).wf(),
            final(self)@ == old(self)@.with_cell(row as int, channel as int, note),
    {
        assert(old(self)@.cells[row as int] == old(self).data@[row as int]@);
        let mut line: Vec<Note> = Vec::new();
        std::mem::swap(&mut line, &mut self.data[row]);
        line[channel] = note;
        self.data[row] = line;
        assert(self@.cells =~= old(self)@.with_cell(row as int, channel as int, note).cells);
    }

    pub fn clear(&mut self, row: usize, channel: usize)
        requires
            old(self).wf(),
            row < old(self).num_rows,
            channel < old(self).num_channels,
        ensures
            final(self).wf(),
            final(self)@ == old(self)@.with_cell(row as int, channel as int, Note::blank()),
    {
        self.set(row, channel, Note::default());
    }
}

impl Pattern {
    /// Cut or extend the grid to `new_rows` rows, keeping the cells of the rows
    /// that remain and adding blank rows at the end.
    pub fn resize_rows(&mut self, new_rows: usize)
        requires
            old(self).wf(),
        ensures
            final(self).wf(),
            final(self)@ == old(self)@.with_rows(new_rows as int),
    {
        if new_rows <= self.data.len() {
            self.data.truncate(new_rows);
        } else {
            let ghost before = self.data@;
            while self.data.len() < new_rows
                invariant
                    before == old(self).data@,
                    self.num_channels == old(self).num_channels,
                    before.len() <= self.data@.len() <= new_rows,
                    self.data@.subrange(0, before.len() as int) == before,
                    forall|k: int|
                        before.len() <= k < self.data@.len() ==> (#[trigger] self.data@[k])@
                            == Seq::new(self.num_channels as nat, |c: int| Note::blank()),
                decreases new_rows - self.data@.len(),
            {
                let line = blank_line(self.num_channels);
                self.data.push(line);
                assert(self.data@.subrange(0, before.len() as int) =~= before);
            }
            assert forall|k: int| 0 <= k < before.len() implies self.data@[k] == before[k] by {
                assert(self.data@.subrange(0, before.len() as int)[k] == self.data@[k]);
            }
        }
        self.num_rows = new_rows;
        let ghost target = old(self)@.with_rows(new_rows as int);
        assert forall|k: int| 0 <= k < new_rows implies #[trigger] self@.cells[k] == target.cells[k] by {
            if k < old(self).num_rows {
                assert(self.data@[k] == old(self).data@[k]);
            }
        }
        assert(self@.cells =~= target.cells);
    }
}

impl Clone for Pattern {
    /// A deep copy: the same size and the same cells.
    fn clone(&self) -> (p: Pattern)
        ensures
            p@ == self@,
    {
        let mut data: Vec<Vec<Note>> = Vec::new();
        let mut r: usize = 0;
        while r < self.data.len()
            invariant
                r <= self.data@.len(),
                data@.len() == r,
                forall|k: int| 0 <= k < r ==> (#[trigger] data@[k])@ == self.data@[k]@,
            decreases self.data@.len() - r,
        {
            let src = &self.data[r];
            let mut line: Vec<Note> = Vec::new();
            let mut c: usize = 0;
            while c < src.len()
                invariant
                    c <= src@.len(),
                    line@ == src@.subrange(0, c as int),
                decreases src@.len() - c,
            {
                line.push(src[c]);
                c = c + 1;
                assert(line@ =~= src@.subrange(0, c as int));
            }
            assert(line@ =~= src@);
            data.push(line);
            r = r + 1;
        }
        let p = Pattern { num_rows: self.num_rows, num_channels: self.num_channels, data };
        assert(p@.cells =~= self@.cells);
        p
    }
}

/// The character of the decimal digit `d`.
pub open spec fn digit_char(d: int) -> char {
    seq!['0', '1', '2', '3', '4', '5', '6', '7', '8', '9'][d]
}

/// The decimal numeral of `n`, without leading zeros.
pub open spec fn decimal(n: nat) -> Seq<char>
    decreases n,
{
    if n < 10 {
        seq![digit_char(n as int)]
    } else {
        decimal(n / 10).push(digit_char((n % 10) as int))
    }
}

/// The tracker name of the semitone `k` (0 = C, ..., 11 = B), two characters.
pub open spec fn semitone_name(k: int) -> Seq<char> {
    seq![
        seq!['C', '-'], seq!['C', '#'], seq!['D', '-'], seq!['D', '#'], seq!['E', '-'],
        seq!['F', '-'], seq!['F', '#'], seq!['G', '-'], seq!['G', '#'], seq!['A', '-'],
        seq!['A', '#'], seq!['B', '-'],
    ][k]
}

/// Tracker notation of a pitch: `---` when empty, `OFF` for a note-off, else the
/// semitone name followed by the octave `pitch / 12` in decimal.
pub open spec fn note_text(pitch: u8) -> Seq<char> {
    if pitch == NOTE_EMPTY {
        seq!['-', '-', '-']
    } else if pitch == NOTE_OFF {
        seq!['O', 'F', 'F']
    } else {
        semitone_name((pitch % 12) as int) + decimal((pitch / 12) as nat)
    }
}

fn digit_str(d: u8) -> (s: &'static str)
    requires
        d < 10,
    ensures
        s@ == seq![digit_char(d as int)],
{
    match d {
        0 => { proof { reveal_strlit("0"); } "0" },
        1 => { proof { reveal_strlit("1"); } "1" },
        2 => { proof { reveal_strlit("2"); } "2" },
        3 => { proof { reveal_strlit("3"); } "3" },
        4 => { proof { reveal_strlit("4"); } "4" },
        5 => { proof { reveal_strlit("5"); } "5" },
        6 => { proof { reveal_strlit("6"); } "6" },
        7 => { proof { reveal_strlit("7"); } "7" },
        8 => { proof { reveal_strlit("8"); } "8" },
        _ => { proof { reveal_strlit("9"); } "9" },
    }
}

fn semitone_str(k: u8) -> (s: &'static str)
    requires
        k < 12,
    ensures
        s@ == semitone_name(k as int),
{
    match k {
        0 => { proof { reveal_strlit("C-"); } "C-" },
        1 => { proof { reveal_strlit("C#"); } "C#" },
        2 => { proof { reveal_strlit("D-"); } "D-" },
        3 => { proof { reveal_strlit("D#"); } "D#" },
        4 => { proof { reveal_strlit("E-"); } "E-" },
        5 => { proof { reveal_strlit("F-"); } "F-" },
        6 => { proof { reveal_strlit("F#"); } "F#" },
        7 => { proof { reveal_strlit("G-"); } "G-" },
        8 => { proof { reveal_strlit("G#"); } "G#" },
        9 => { proof { reveal_strlit("A-"); } "A-" },
        10 => { proof { reveal_strlit("A#"); } "A#" },
        _ => { proof { reveal_strlit("B-"); } "B-" },
    }
}

/// Format a MIDI pitch as tracker notation (e.g. "C-4", "D#5").
pub fn format_note(pitch: u8) -> (s: String)
    ensures
        s@ == note_text(pitch),
{
    if pitch == NOTE_EMPTY {
        proof { reveal_strlit("---"); }
        return String::from_str("---");
    }
    if pitch == NOTE_OFF {
        proof { reveal_strlit("OFF"); }
        return String::from_str("OFF");
    }
    let octave: u8 = pitch / 12;
    let mut s = String::from_str(semitone_str(pitch % 12));
    if octave >= 10 {
        s.append(digit_str(octave / 10));
        s.append(digit_str(octave % 10));
        proof {
            let n = octave as nat;
            assert(decimal(n / 10) == seq![digit_char((octave / 10) as int)]);
        }
    } else {
        s.append(digit_str(octave));
    }
    s
}

proof fn lemma_digit_chars()
    ensures
        forall|a: int, b: int|
            0 <= a < 10 && 0 <= b < 10 && #[trigger] digit_char(a) == #[trigger] digit_char(b)
                ==> a == b,
        forall|a: int|
            0 <= a < 10 ==> #[trigger] digit_char(a) != '-' && digit_char(a) != 'F',
{
    let t = seq!['0', '1', '2', '3', '4', '5', '6', '7', '8', '9'];
    assert(t[0] == '0' && t[1] == '1' && t[2] == '2' && t[3] == '3' && t[4] == '4');
    assert(t[5] == '5' && t[6] == '6' && t[7] == '7' && t[8] == '8' && t[9] == '9');
}

proof fn lemma_decimal_shape(n: nat)
    ensures
        decimal(n).len() >= 1,
        n < 10 <==> decimal(n).len() == 1,
        decimal(n).last() == digit_char((n % 10) as int),
        n >= 10 ==> decimal(n).drop_last() == decimal(n / 10),
        forall|i: int|
            0 <= i < decimal(n).len() ==> #[trigger] decimal(n)[i] != '-' && decimal(n)[i]
                != 'F',
    decreases n,
{
    lemma_digit_chars();
    if n >= 10 {
        lemma_decimal_shape(n / 10);
        assert(decimal(n).drop_last() =~= decimal(n / 10));
        let d = decimal(n);
        assert forall|i: int| 0 <= i < d.len() implies #[trigger] d[i] != '-' && d[i] != 'F' by {
            if i < d.len() - 1 {
                assert(d[i] == decimal(n / 10)[i]);
            }
        }
    }
}

/// Distinct numbers have distinct decimal numerals.
pub proof fn law_decimal_injective(a: nat, b: nat)
    requires
        decimal(a) == decimal(b),
    ensures
        a == b,
    decreases a,
{
    lemma_decimal_shape(a);
    lemma_decimal_shape(b);
    lemma_digit_chars();
    assert(a % 10 == b % 10);
    if a >= 10 {
        law_decimal_injective(a / 10, b / 10);
    }
}

proof fn lemma_semitone_names()
    ensures
        forall|k: int| 0 <= k < 12 ==> (#[trigger] semitone_name(k)).len() == 2,
        forall|k: int|
            0 <= k < 12 ==> #[trigger] semitone_name(k)[0] != '-' && semitone_name(k)[0] != 'O',
        forall|a: int, b: int|
            0 <= a < 12 && 0 <= b < 12 && #[trigger] semitone_name(a) == #[trigger] semitone_name(b)
                ==> a == b,
{
    assert(semitone_name(0) == seq!['C', '-']);
    assert(semitone_name(1) == seq!['C', '#']);
    assert(semitone_name(2) == seq!['D', '-']);
    assert(semitone_name(3) == seq!['D', '#']);
    assert(semitone_name(4) == seq!['E', '-']);
    assert(semitone_name(5) == seq!['F', '-']);
    assert(semitone_name(6) == seq!['F', '#']);
    assert(semitone_name(7) == seq!['G', '-']);
    assert(semitone_name(8) == seq!['G', '#']);
    assert(semitone_name(9) == seq!['A', '-']);
    assert(semitone_name(10) == seq!['A', '#']);
    assert(semitone_name(11) == seq!['B', '-']);
    assert forall|a: int, b: int|
        0 <= a < 12 && 0 <= b < 12 && #[trigger] semitone_name(a) == #[trigger] semitone_name(b)
            implies a == b by {
        assert(semitone_name(a)[0] == semitone_name(b)[0]);
        assert(semitone_name(a)[1] == semitone_name(b)[1]);
    }
}

/// Tracker notation tells every pitch apart: distinct pitches get distinct
/// text. In particular no two semitones of an octave share a name, and no
/// octave number is reused.
pub proof fn law_note_text_injective(p: u8, q: u8)
    requires
        note_text(p) == note_text(q),
    ensures
        p == q,
{
    lemma_semitone_names();
    lemma_digit_chars();
    let tp = note_text(p);
    let tq = note_text(q);
    if p != NOTE_EMPTY && p != NOTE_OFF && q != NOTE_EMPTY && q != NOTE_OFF {
        let np = semitone_name((p % 12) as int);
        let nq = semitone_name((q % 12) as int);
        let dp = decimal((p / 12) as nat);
        let dq = decimal((q / 12) as nat);
        assert(tp.subrange(0, 2) =~= np);
        assert(tq.subrange(0, 2) =~= nq);
        assert(tp.subrange(2, tp.len() as int) =~= dp);
        assert(tq.subrange(2, tq.len() as int) =~= dq);
        law_decimal_injective((p / 12) as nat, (q / 12) as nat);
    } else {
        lemma_decimal_shape((p / 12) as nat);
        lemma_decimal_shape((q / 12) as nat);
        assert(tp[0] == tq[0]);
        assert(tp[1] == tq[1]);
        if p != NOTE_EMPTY && p != NOTE_OFF {
            assert(tp[0] == semitone_name((p % 12) as int)[0]);
        }
        if q != NOTE_EMPTY && q != NOTE_OFF {
            assert(tq[0] == semitone_name((q % 12) as int)[0]);
        }
    }
}

/// Pitches an octave apart share the semitone name, and the octave number of the
/// higher one is one more.
pub proof fn law_note_text_octaves(p: u8)
    requires
        1 <= p,
        p + 12 <= 254,
    ensures
        note_text(p).subrange(0, 2) == note_text((p + 12) as u8).subrange(0, 2),
        note_text((p + 12) as u8).subrange(2, note_text((p + 12) as u8).len() as int) == decimal(
            (p / 12 + 1) as nat,
        ),
{
    lemma_semitone_names();
    let q = (p + 12) as u8;
    assert(q % 12 == p % 12);
    assert(q / 12 == p / 12 + 1);
    assert(note_text(p).subrange(0, 2) =~= semitone_name((p % 12) as int));
    assert(note_text(q).subrange(0, 2) =~= semitone_name((q % 12) as int));
    assert(note_text(q).subrange(2, note_text(q).len() as int) =~= decimal((q / 12) as nat));
}

/// Each digit character is the character whose code is that of '0' plus the
/// digit, so the decimal numeral reads as the number.
pub proof fn law_digit_codes(d: int)
    requires
        0 <= d < 10,
    ensures
        digit_char(d) as u32 == '0' as u32 + d,
{
    let t = seq!['0', '1', '2', '3', '4', '5', '6', '7', '8', '9'];
    assert(t[0] == '0' && t[1] == '1' && t[2] == '2' && t[3] == '3' && t[4] == '4');
    assert(t[5] == '5' && t[6] == '6' && t[7] == '7' && t[8] == '8' && t[9] == '9');
}

/// The semitone names follow the chromatic scale: the naturals C D E F G A B
/// sit at 0 2 4 5 7 9 11 with '-' as second character, and each of 1 3 6 8 10
/// is the natural below it with '#'.
pub proof fn law_semitone_scale()
    ensures
        semitone_name(0)[0] == 'C' && semitone_name(2)[0] == 'D' && semitone_name(4)[0] == 'E'
            && semitone_name(5)[0] == 'F' && semitone_name(7)[0] == 'G' && semitone_name(9)[0]
            == 'A' && semitone_name(11)[0] == 'B',
        forall|k: int|
            (k == 0 || k == 2 || k == 4 || k == 5 || k == 7 || k == 9 || k == 11) ==> (
            #[trigger] semitone_name(k)).len() == 2 && semitone_name(k)[1] == '-',
        forall|k: int|
            (k == 1 || k == 3 || k == 6 || k == 8 || k == 10) ==> #[trigger] semitone_name(k)
                == seq![semitone_name(k - 1)[0], '#'],
{
    lemma_semitone_names();
    assert(semitone_name(0) == seq!['C', '-']);
    assert(semitone_name(1) == seq!['C', '#']);
    assert(semitone_name(2) == seq!['D', '-']);
    assert(semitone_name(3) == seq!['D', '#']);
    assert(semitone_name(4) == seq!['E', '-']);
    assert(semitone_name(5) == seq!['F', '-']);
    assert(semitone_name(6) == seq!['F', '#']);
    assert(semitone_name(7) == seq!['G', '-']);
    assert(semitone_name(8) == seq!['G', '#']);
    assert(semitone_name(9) == seq!['A', '-']);
    assert(semitone_name(10) == seq!['A', '#']);
    assert(semitone_name(11) == seq!['B', '-']);
}

/// A new pattern's every cell holds pitch 0, instrument 0, velocity 0.
pub proof fn law_blank_pattern(rows: int, channels: int, r: int, c: int)
    requires
        0 <= r < rows,
        0 <= c < channels,
    ensures
        PatternView::blank(rows, channels).wf(),
        PatternView::blank(rows, channels).cells[r][c] == (Note {
            pitch: 0,
            instrument: 0,
            velocity: 0,
        }),
{
}

} // verus!
