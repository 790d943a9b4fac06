//! What the sequencer does at a row boundary: which notes start and stop on
//! which channel, and which row comes next.
use vstd::prelude::*;
use crate::pattern::{Note, Pattern, NOTE_EMPTY, NOTE_OFF};

verus! {

/// Channels for which the sequencer tracks a sounding note.
pub const MAX_CHANNELS: usize = 64;

/// An instruction for the instrument of one channel.
#[derive(Clone, Copy, Debug, PartialEq, Eq, Structural)]
pub enum NoteEvent {
    NoteOn { channel: usize, pitch: u8, velocity: u8 },
    NoteOff { channel: usize, pitch: u8 },
}

/// The events that one cell causes on its channel, given the note sounding there
/// (0 for none): a note-off cell stops the sounding note; a note cell stops the
/// sounding note and starts its own; an empty cell does nothing.
pub open spec fn channel_events(note: Note, sounding: u8, channel: int) -> Seq<NoteEvent> {
    let stop = if sounding != 0 {
        seq![NoteEvent::NoteOff { channel: channel as usize, pitch: sounding }]
    } else {
        Seq::<NoteEvent>::empty()
    };
    if note.pitch == NOTE_OFF {
        stop
    } else if note.pitch != NOTE_EMPTY {
        stop.push(
            NoteEvent::NoteOn { channel: channel as usize, pitch: note.pitch, velocity: note.velocity },
        )
    } else {
        Seq::<NoteEvent>::empty()
    }
}

/// The note sounding on a channel after its cell is played (0 for none).
pub open spec fn sounding_after(note: Note, sounding: u8) -> u8 {
    if note.pitch == NOTE_OFF {
        0
    } else if note.pitch != NOTE_EMPTY {
        note.pitch
    } else {
        sounding
    }
}

/// The events of the first `n` channels of a row, channel by channel.
pub open spec fn row_events(line: Seq<Note>, sounding: Seq<u8>, n: int) -> Seq<NoteEvent>
    decreases n,
{
    if n <= 0 {
        Seq::<NoteEvent>::empty()
    } else {
        row_events(line, sounding, n - 1) + channel_events(line[n - 1], sounding[n - 1], n - 1)
    }
}

/// The notes sounding after the first `n` channels of a row are played.
pub open spec fn sounding_after_row(line: Seq<Note>, sounding: Seq<u8>, n: int) -> Seq<u8> {
    Seq::new(
        sounding.len(),
        |c: int|
            if c < n {
                sounding_after(line[c], sounding[c])
            } else {
                sounding[c]
            },
    )
}

/// The integer part of the sequencer: the row to play next and the note
/// sounding on each channel (0 for none).
pub struct Playhead {
    pub current_row: usize,
    /// Last note playing on each channel (for monophonic note-off before new note).
    pub active_note: [u8; MAX_CHANNELS],
}

impl Playhead {
    /// At the first row, with nothing sounding.
    pub fn new() -> (h: Playhead)
        ensures
            h.current_row == 0,
            h.active_note@ == Seq::new(MAX_CHANNELS as nat, |c: int| 0u8),
    {
        let active_note = vstd::array::array_fill_for_copy_types::<u8, MAX_CHANNELS>(0u8);
        let h = Playhead { current_row: 0, active_note };
        assert(h.active_note@ =~= Seq::new(MAX_CHANNELS as nat, |c: int| 0u8));
        h
    }

    /// Play the current row of `pattern` on the first `min(channels, instruments)`
    /// channels and move to the next row, wrapping at the end of the pattern.
    /// `events` is cleared and then holds the note events to send to the
    /// instruments, in order; at most two per channel are added, so a buffer
    /// with room for `2 * MAX_CHANNELS` events is never grown.
    pub fn tick(&mut self, pattern: &Pattern, num_instruments: usize, events: &mut Vec<NoteEvent>)
        requires
            pattern.wf(),
            pattern.num_rows > 0,
            old(self).current_row < usize::MAX,
            (pattern.num_channels > 0 && num_instruments > 0) ==> old(self).current_row
                < pattern.num_rows,
            pattern.num_channels <= MAX_CHANNELS || num_instruments <= MAX_CHANNELS,
        ensures
            ({
                let n = if pattern.num_channels < num_instruments {
                    pattern.num_channels as int
                } else {
                    num_instruments as int
                };
                let line = pattern@.cells[old(self).current_row as int];
                &&& final(events)@ == row_events(line, old(self).active_note@, n)
                &&& final(events)@.len() <= 2 * n
                &&& final(self).active_note@ == sounding_after_row(
                    line,
                    old(self).active_note@,
                    n,
                )
            }),
            final(self).current_row == (old(self).current_row + 1) % (pattern.num_rows as int),
    {
        let row = self.current_row;
        let n = if pattern.num_channels < num_instruments {
            pattern.num_channels
        } else {
            num_instruments
        };
        let ghost line = pattern@.cells[row as int];
        let ghost before = self.active_note@;
        events.clear();
        let mut ch: usize = 0;
        while ch < n
            invariant
                n <= pattern.num_channels,
                n <= MAX_CHANNELS,
                ch <= n,
                pattern.wf(),
                n > 0 ==> row < pattern.num_rows,
                line == pattern@.cells[row as int],
                before.len() == MAX_CHANNELS,
                self.current_row == row,
                events@ == row_events(line, before, ch as int),
                events@.len() <= 2 * ch,
                self.active_note@ == sounding_after_row(line, before, ch as int),
            decreases n - ch,
        {
            let note = *pattern.get(row, ch);
            let active = self.active_note[ch];
            let ghost events_before = events@;
            if note.is_note_off() {
                // Explicit note-off
                if active != 0 {
                    events.push(NoteEvent::NoteOff { channel: ch, pitch: active });
                    self.active_note[ch] = 0;
                }
            } else if !note.is_empty() {
                // Stop previous note on this channel before starting new one
                if active != 0 {
                    events.push(NoteEvent::NoteOff { channel: ch, pitch: active });
                }
                events.push(
                    NoteEvent::NoteOn { channel: ch, pitch: note.pitch, velocity: note.velocity },
                );
                self.active_note[ch] = note.pitch;
            }
            proof {
                assert(events@ =~= events_before + channel_events(line[ch as int], before[ch as int], ch as int));
                assert(self.active_note@ =~= sounding_after_row(line, before, ch + 1));
            }
            ch = ch + 1;
        }
        self.current_row = (self.current_row + 1) % pattern.num_rows;
    }
}

/// The channel an event is addressed to.
pub open spec fn event_channel(e: NoteEvent) -> int {
    match e {
        NoteEvent::NoteOn { channel, .. } => channel as int,
        NoteEvent::NoteOff { channel, .. } => channel as int,
    }
}

/// The events of a list that are addressed to channel `c`, in order.
pub open spec fn on_channel(events: Seq<NoteEvent>, c: int) -> Seq<NoteEvent> {
    events.filter(|e: NoteEvent| event_channel(e) == c)
}

proof fn lemma_filter_none(x: Seq<NoteEvent>, p: spec_fn(NoteEvent) -> bool)
    requires
        forall|i: int| 0 <= i < x.len() ==> !p(#[trigger] x[i]),
    ensures
        x.filter(p) == Seq::<NoteEvent>::empty(),
    decreases x.len(),
{
    reveal(Seq::filter);
    if x.len() > 0 {
        lemma_filter_none(x.drop_last(), p);
    }
}

proof fn lemma_filter_all(x: Seq<NoteEvent>, p: spec_fn(NoteEvent) -> bool)
    requires
        forall|i: int| 0 <= i < x.len() ==> p(#[trigger] x[i]),
    ensures
        x.filter(p) == x,
    decreases x.len(),
{
    reveal(Seq::filter);
    if x.len() > 0 {
        lemma_filter_all(x.drop_last(), p);
        assert(x.drop_last().push(x.last()) =~= x);
    }
}

proof fn lemma_channel_events_addressed(note: Note, sounding: u8, k: int)
    requires
        0 <= k <= usize::MAX,
    ensures
        forall|i: int|
            0 <= i < channel_events(note, sounding, k).len() ==> event_channel(
                #[trigger] channel_events(note, sounding, k)[i],
            ) == k,
{
}

proof fn lemma_row_events_below(line: Seq<Note>, sounding: Seq<u8>, m: int)
    requires
        0 <= m <= MAX_CHANNELS,
    ensures
        forall|i: int|
            0 <= i < row_events(line, sounding, m).len() ==> 0 <= event_channel(
                #[trigger] row_events(line, sounding, m)[i],
            ) < m,
    decreases m,
{
    if m > 0 {
        lemma_row_events_below(line, sounding, m - 1);
        lemma_channel_events_addressed(line[m - 1], sounding[m - 1], m - 1);
        let a = row_events(line, sounding, m - 1);
        let b = channel_events(line[m - 1], sounding[m - 1], m - 1);
        assert forall|i: int| 0 <= i < (a + b).len() implies 0 <= event_channel(
            #[trigger] (a + b)[i],
        ) < m by {
            if i < a.len() {
                assert((a + b)[i] == a[i]);
            } else {
                assert((a + b)[i] == b[i - a.len()]);
            }
        }
    }
}

/// What a row does to one of the channels it plays, stated per channel: the
/// events addressed to channel `c` are, for a cell holding a note, a note-off of
/// the note sounding there (if any) followed by a note-on with the cell's pitch
/// and velocity -- also when the sounding note has the same pitch; for a
/// note-off cell, a note-off of the sounding note (if any); for an empty cell,
/// nothing. Afterwards the channel sounds the cell's note, nothing, or what it
/// sounded before, respectively.
pub proof fn law_row_per_channel(line: Seq<Note>, sounding: Seq<u8>, n: int, c: int)
    requires
        0 <= c < n <= MAX_CHANNELS,
        n <= line.len(),
        sounding.len() == MAX_CHANNELS,
    ensures
        ({
            let note = line[c];
            let was = sounding[c];
            let stop = if was != 0 {
                seq![NoteEvent::NoteOff { channel: c as usize, pitch: was }]
            } else {
                Seq::<NoteEvent>::empty()
            };
            let evs = on_channel(row_events(line, sounding, n), c);
            let after = sounding_after_row(line, sounding, n)[c];
            &&& (note.pitch != 0 && note.pitch != 255) ==> {
                &&& evs == stop + seq![
                    NoteEvent::NoteOn { channel: c as usize, pitch: note.pitch, velocity: note.velocity },
                ]
                &&& after == note.pitch
            }
            &&& note.pitch == 255 ==> {
                &&& evs == stop
                &&& after == 0
            }
            &&& note.pitch == 0 ==> {
                &&& evs == Seq::<NoteEvent>::empty()
                &&& after == was
            }
        }),
    decreases n,
{
    let pred = |e: NoteEvent| event_channel(e) == c;
    let a = row_events(line, sounding, n - 1);
    let b = channel_events(line[n - 1], sounding[n - 1], n - 1);
    Seq::filter_distributes_over_add(a, b, pred);
    lemma_channel_events_addressed(line[n - 1], sounding[n - 1], n - 1);
    if c == n - 1 {
        lemma_row_events_below(line, sounding, n - 1);
        lemma_filter_none(a, pred);
        lemma_filter_all(b, pred);
        assert(on_channel(row_events(line, sounding, n), c) =~= b);
    } else {
        law_row_per_channel(line, sounding, n - 1, c);
        lemma_filter_none(b, pred);
        assert(on_channel(row_events(line, sounding, n), c) =~= on_channel(a, c));
    }
}

/// Channels beyond those played receive no event and keep the note they sound.
pub proof fn law_row_unplayed_channels(line: Seq<Note>, sounding: Seq<u8>, n: int, c: int)
    requires
        0 <= n <= c < MAX_CHANNELS,
        n <= line.len(),
        sounding.len() == MAX_CHANNELS,
    ensures
        on_channel(row_events(line, sounding, n), c) == Seq::<NoteEvent>::empty(),
        sounding_after_row(line, sounding, n)[c] == sounding[c],
{
    lemma_row_events_below(line, sounding, n);
    lemma_filter_none(row_events(line, sounding, n), |e: NoteEvent| event_channel(e) == c);
}

} // verus!
