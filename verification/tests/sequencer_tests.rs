use tracker::pattern::{Note, Pattern};
use tracker::sequencer::{NoteEvent, Playhead, MAX_CHANNELS};

fn buffer() -> Vec<NoteEvent> {
    Vec::with_capacity(2 * MAX_CHANNELS)
}

fn tick(h: &mut Playhead, pattern: &Pattern, instruments: usize) -> Vec<NoteEvent> {
    let mut events = buffer();
    h.tick(pattern, instruments, &mut events);
    events
}

fn note(pitch: u8, velocity: u8) -> Note {
    Note {
        pitch,
        instrument: 0,
        velocity,
    }
}

#[test]
fn new_playhead_is_silent_at_row_zero() {
    let h = Playhead::new();
    assert_eq!(h.current_row, 0);
    assert_eq!(h.active_note.len(), MAX_CHANNELS);
    assert!(h.active_note.iter().all(|&p| p == 0));
}

#[test]
fn note_starts_and_row_advances() {
    let mut pattern = Pattern::new(4, 2);
    pattern.set(0, 0, note(69, 127));
    let mut h = Playhead::new();
    let events = tick(&mut h, &pattern, 2);
    assert_eq!(
        events,
        vec![NoteEvent::NoteOn {
            channel: 0,
            pitch: 69,
            velocity: 127
        }]
    );
    assert_eq!(h.active_note[0], 69);
    assert_eq!(h.active_note[1], 0);
    assert_eq!(h.current_row, 1);
}

#[test]
fn monophonic_new_note_stops_previous() {
    let mut pattern = Pattern::new(64, 1);
    pattern.set(0, 0, note(60, 127));
    pattern.set(1, 0, note(64, 127));
    let mut h = Playhead::new();
    tick(&mut h, &pattern, 1);
    let events = tick(&mut h, &pattern, 1);
    assert_eq!(
        events,
        vec![
            NoteEvent::NoteOff {
                channel: 0,
                pitch: 60
            },
            NoteEvent::NoteOn {
                channel: 0,
                pitch: 64,
                velocity: 127
            }
        ]
    );
    assert_eq!(h.active_note[0], 64);
}

#[test]
fn note_off_cell_silences_channel() {
    let mut pattern = Pattern::new(64, 1);
    pattern.set(0, 0, note(69, 127));
    pattern.set(1, 0, Note::note_off());
    let mut h = Playhead::new();
    tick(&mut h, &pattern, 1);
    let events = tick(&mut h, &pattern, 1);
    assert_eq!(
        events,
        vec![NoteEvent::NoteOff {
            channel: 0,
            pitch: 69
        }]
    );
    assert_eq!(h.active_note[0], 0);
    // A second note-off with nothing sounding sends nothing.
    h.current_row = 1;
    assert!(tick(&mut h, &pattern, 1).is_empty());
}

#[test]
fn empty_cell_keeps_sounding_note() {
    let mut pattern = Pattern::new(8, 1);
    pattern.set(0, 0, note(50, 90));
    let mut h = Playhead::new();
    tick(&mut h, &pattern, 1);
    assert!(tick(&mut h, &pattern, 1).is_empty());
    assert_eq!(h.active_note[0], 50);
}

#[test]
fn pattern_wraps() {
    let pattern = Pattern::new(64, 1);
    let mut h = Playhead::new();
    h.current_row = 63;
    tick(&mut h, &pattern, 1);
    assert_eq!(h.current_row, 0);
    tick(&mut h, &pattern, 1);
    assert_eq!(h.current_row, 1);
}

#[test]
fn only_channels_with_instruments_play() {
    let mut pattern = Pattern::new(2, 4);
    for ch in 0..4 {
        pattern.set(0, ch, note(60 + ch as u8, 100));
    }
    let mut h = Playhead::new();
    let events = tick(&mut h, &pattern, 2);
    assert_eq!(events.len(), 2);
    assert_eq!(h.active_note[0], 60);
    assert_eq!(h.active_note[1], 61);
    assert_eq!(h.active_note[2], 0);
    assert_eq!(h.active_note[3], 0);
}

#[test]
fn events_buffer_is_reused_without_growing() {
    let mut pattern = Pattern::new(2, 4);
    for ch in 0..4 {
        pattern.set(0, ch, note(40 + ch as u8, 100));
        pattern.set(1, ch, note(50 + ch as u8, 100));
    }
    let mut h = Playhead::new();
    let mut events = buffer();
    let cap = events.capacity();
    h.tick(&pattern, 4, &mut events);
    assert_eq!(events.len(), 4);
    h.tick(&pattern, 4, &mut events);
    // Each channel stops its note and starts the next one.
    assert_eq!(events.len(), 8);
    assert_eq!(
        events[0],
        NoteEvent::NoteOff {
            channel: 0,
            pitch: 40
        }
    );
    assert_eq!(events.capacity(), cap);
}

#[test]
fn no_channels_played_only_wraps_row() {
    let pattern = Pattern::new(4, 2);
    let mut h = Playhead::new();
    h.current_row = 9; // beyond the pattern, as after a shrink
    let events = tick(&mut h, &pattern, 0);
    assert!(events.is_empty());
    assert_eq!(h.current_row, 10 % 4);
}
