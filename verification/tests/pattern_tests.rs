use tracker::pattern::{format_note, Note, Pattern, TimeSignature, NOTE_OFF};

#[test]
fn test_new_pattern_is_empty() {
    let p = Pattern::new(64, 4);
    assert_eq!(p.num_rows, 64);
    assert_eq!(p.num_channels, 4);
    for row in 0..64 {
        for ch in 0..4 {
            assert!(p.get(row, ch).is_empty());
        }
    }
}

#[test]
fn test_set_and_get_note() {
    let mut p = Pattern::new(64, 4);
    let note = Note {
        pitch: 60,
        instrument: 0,
        velocity: 100,
    };
    p.set(5, 2, note);
    assert_eq!(p.get(5, 2), &note);
    assert!(p.get(5, 1).is_empty());
}

#[test]
fn pattern_test_clear_note() {
    let mut p = Pattern::new(64, 4);
    p.set(
        0,
        0,
        Note {
            pitch: 60,
            instrument: 0,
            velocity: 127,
        },
    );
    p.clear(0, 0);
    assert!(p.get(0, 0).is_empty());
}

#[test]
fn test_format_note_display() {
    assert_eq!(format_note(0), "---");
    assert_eq!(format_note(60), "C-5");
    assert_eq!(format_note(69), "A-5");
    assert_eq!(format_note(61), "C#5");
    assert_eq!(format_note(48), "C-4");
    assert_eq!(format_note(NOTE_OFF), "OFF");
}

#[test]
fn test_note_off() {
    let off = Note::note_off();
    assert!(off.is_note_off());
    assert!(!off.is_empty());
}

#[test]
fn format_note_two_digit_octave() {
    // 254 = 21 * 12 + 2: semitone D, octave 21.
    assert_eq!(format_note(254), "D-21");
    assert_eq!(format_note(131), "B-10");
    assert_eq!(format_note(1), "C#0");
    assert_eq!(format_note(127), "G-10");
}

#[test]
fn default_note_is_empty() {
    let n = Note::default();
    assert!(n.is_empty());
    assert_eq!(
        n,
        Note {
            pitch: 0,
            instrument: 0,
            velocity: 0
        }
    );
    assert_eq!(Note::note_off().pitch, 255);
}

#[test]
fn written_note_reads_back_others_untouched() {
    let mut p = Pattern::new(8, 3);
    let note = Note {
        pitch: 72,
        instrument: 2,
        velocity: 90,
    };
    p.set(7, 2, note);
    for row in 0..8 {
        for ch in 0..3 {
            if row == 7 && ch == 2 {
                assert_eq!(p.get(row, ch), &note);
            } else {
                assert!(p.get(row, ch).is_empty());
            }
        }
    }
}

#[test]
fn resize_rows_keeps_prefix_and_adds_blank_rows() {
    let mut p = Pattern::new(4, 2);
    let note = Note {
        pitch: 60,
        instrument: 0,
        velocity: 100,
    };
    p.set(1, 1, note);
    p.set(3, 0, note);
    p.resize_rows(2);
    assert_eq!(p.num_rows, 2);
    assert_eq!(p.data.len(), 2);
    assert_eq!(p.get(1, 1), &note);
    p.resize_rows(6);
    assert_eq!(p.num_rows, 6);
    assert_eq!(p.get(1, 1), &note);
    // Row 3 was cut by the shrink, so it comes back blank.
    assert!(p.get(3, 0).is_empty());
    for ch in 0..2 {
        assert!(p.get(5, ch).is_empty());
        assert_eq!(p.data[5].len(), 2);
    }
}

#[test]
fn clone_is_deep_copy() {
    let mut p = Pattern::new(3, 2);
    let note = Note {
        pitch: 64,
        instrument: 1,
        velocity: 10,
    };
    p.set(2, 1, note);
    let q = p.clone();
    assert_eq!(p, q);
    p.clear(2, 1);
    assert_eq!(q.get(2, 1), &note);
    assert!(p.get(2, 1).is_empty());
}

#[test]
fn time_signature_rows() {
    let t = TimeSignature::default();
    assert_eq!(t.numerator, 4);
    assert_eq!(t.denominator, 4);
    assert_eq!(t.rows_per_bar(4), 16);
    assert_eq!(t.total_rows(4, 4), 64);
    let six_eight = TimeSignature::new(6, 8);
    assert_eq!(six_eight.rows_per_bar(4), 24);
    assert_eq!(six_eight.total_rows(4, 4), 96);
    assert_eq!(TimeSignature::new(3, 4).total_rows(0, 4), 0);
}
