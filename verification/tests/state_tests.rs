use tracker::action::{Action, Direction, NoteKey, SideEffect};
use tracker::pattern::Note;
use tracker::state::{is_power_of_two, row_weight, AppState};

#[test]
fn test_new_state_defaults() {
    let state = AppState::new();
    assert_eq!(state.cursor_row, 0);
    assert_eq!(state.cursor_channel, 0);
    assert!(!state.is_playing);
    assert_eq!(state.octave, 4);
    assert_eq!(state.edit_step, 1);
    assert_eq!(state.pattern.num_rows, 64);
    assert_eq!(state.pattern.num_channels, 4);
}

#[test]
fn test_set_note() {
    let mut state = AppState::new();
    let note = Note {
        pitch: 60,
        instrument: 0,
        velocity: 100,
    };
    let effects = state.apply(Action::SetNote {
        row: 0,
        channel: 0,
        note,
    });
    assert_eq!(state.pattern.get(0, 0), &note);
    assert!(effects
        .iter()
        .any(|e| matches!(e, SideEffect::SendPatternToAudio(_))));
}

#[test]
fn state_test_clear_note() {
    let mut state = AppState::new();
    state.apply(Action::SetNote {
        row: 0,
        channel: 0,
        note: Note {
            pitch: 60,
            instrument: 0,
            velocity: 100,
        },
    });
    state.apply(Action::ClearNote { row: 0, channel: 0 });
    assert!(state.pattern.get(0, 0).is_empty());
}

#[test]
fn test_move_cursor_wraps_down() {
    let mut state = AppState::new();
    state.cursor_row = 63;
    state.apply(Action::MoveCursor(Direction::Down));
    assert_eq!(state.cursor_row, 0);
}

#[test]
fn test_move_cursor_wraps_up() {
    let mut state = AppState::new();
    state.cursor_row = 0;
    state.apply(Action::MoveCursor(Direction::Up));
    assert_eq!(state.cursor_row, 63);
}

#[test]
fn test_move_cursor_wraps_left() {
    let mut state = AppState::new();
    state.cursor_channel = 0;
    state.apply(Action::MoveCursor(Direction::Left));
    assert_eq!(state.cursor_channel, 3);
}

#[test]
fn test_move_cursor_wraps_right() {
    let mut state = AppState::new();
    state.cursor_channel = 3;
    state.apply(Action::MoveCursor(Direction::Right));
    assert_eq!(state.cursor_channel, 0);
}

#[test]
fn test_note_key_press_sets_note_and_advances() {
    let mut state = AppState::new();
    state.octave = 4;
    // A = C, so pitch = 4*12 + 0 = 48
    state.apply(Action::NoteKeyPress(NoteKey::A));
    assert_eq!(state.pattern.get(0, 0).pitch, 48);
    assert_eq!(state.cursor_row, 1); // advanced by edit_step=1
}

#[test]
fn test_note_key_chromatic_layout() {
    let mut state = AppState::new();
    state.octave = 4;
    // Semicolon = A, offset 9, so pitch = 4*12 + 9 = 57
    state.apply(Action::NoteKeyPress(NoteKey::Semicolon));
    assert_eq!(state.pattern.get(0, 0).pitch, 57);
}

#[test]
fn test_note_key_upper_row() {
    let mut state = AppState::new();
    state.octave = 4;
    // Q = C+1oct, offset 12, so pitch = 4*12 + 12 = 60
    state.apply(Action::NoteKeyPress(NoteKey::Q));
    assert_eq!(state.pattern.get(0, 0).pitch, 60);
}

#[test]
fn test_edit_step_advances_multiple_rows() {
    let mut state = AppState::new();
    state.edit_step = 4;
    state.apply(Action::NoteKeyPress(NoteKey::A));
    assert_eq!(state.cursor_row, 4);
}

#[test]
fn test_delete_clears_current_cell() {
    let mut state = AppState::new();
    state.apply(Action::NoteKeyPress(NoteKey::A));
    state.cursor_row = 0; // go back
    state.apply(Action::Delete);
    assert!(state.pattern.get(0, 0).is_empty());
}

#[test]
fn test_note_off_inserts_and_advances() {
    let mut state = AppState::new();
    state.apply(Action::NoteOff);
    assert!(state.pattern.get(0, 0).is_note_off());
    assert_eq!(state.cursor_row, 1);
}

#[test]
fn test_play_returns_start_audio() {
    let mut state = AppState::new();
    let effects = state.apply(Action::Play);
    assert!(state.is_playing);
    assert!(effects.iter().any(|e| matches!(e, SideEffect::StartAudio)));
}

#[test]
fn test_stop_returns_stop_audio() {
    let mut state = AppState::new();
    state.apply(Action::Play);
    let effects = state.apply(Action::Stop);
    assert!(!state.is_playing);
    assert!(effects.iter().any(|e| matches!(e, SideEffect::StopAudio)));
}

#[test]
fn test_set_octave_clamps() {
    let mut state = AppState::new();
    state.apply(Action::SetOctave(10));
    assert_eq!(state.octave, 8);
}

#[test]
fn test_pitch_clamps_to_127() {
    let mut state = AppState::new();
    state.octave = 8;
    // Upper row key at octave 8: 8*12 + 23 = 119, which is fine
    // But let's test octave 10 (clamped to 8) with high offset
    state.apply(Action::SetOctave(10));
    state.apply(Action::NoteKeyPress(NoteKey::P)); // offset 21
                                                   // octave clamped to 8, pitch = 8*12 + 21 = 117
    assert!(state.pattern.get(0, 0).pitch <= 127);
}

#[test]
fn test_default_time_signature_and_bars() {
    let state = AppState::new();
    assert_eq!(state.time_signature.numerator, 4);
    assert_eq!(state.time_signature.denominator, 4);
    assert_eq!(state.bars, 4);
    assert_eq!(state.rows_per_beat, 4);
    // 4/4 time, 4 bars, 4 rows/beat = 4 * 4 * 4 = 64 rows
    assert_eq!(state.pattern.num_rows, 64);
}

#[test]
fn test_set_time_signature_resizes_pattern() {
    let mut state = AppState::new();
    // Change to 3/4 time: 3 * 4 * 4 = 48 rows
    state.apply(Action::SetTimeSignature {
        numerator: 3,
        denominator: 4,
    });
    assert_eq!(state.time_signature.numerator, 3);
    assert_eq!(state.pattern.num_rows, 48);
}

#[test]
fn test_set_bars_resizes_pattern() {
    let mut state = AppState::new();
    // 4/4 time, 2 bars: 4 * 2 * 4 = 32 rows
    state.apply(Action::SetBars(2));
    assert_eq!(state.bars, 2);
    assert_eq!(state.pattern.num_rows, 32);
}

#[test]
fn test_set_rows_per_beat_resizes_pattern() {
    let mut state = AppState::new();
    // 4/4 time, 4 bars, 8 rows/beat: 4 * 4 * 8 = 128 rows
    state.apply(Action::SetRowsPerBeat(8));
    assert_eq!(state.rows_per_beat, 8);
    assert_eq!(state.pattern.num_rows, 128);
}

#[test]
fn test_resize_preserves_notes() {
    let mut state = AppState::new();
    let note = Note {
        pitch: 60,
        instrument: 0,
        velocity: 100,
    };
    state.apply(Action::SetNote {
        row: 0,
        channel: 0,
        note,
    });
    // Shrink then grow
    state.apply(Action::SetBars(1)); // 16 rows
    assert_eq!(state.pattern.get(0, 0), &note);
    state.apply(Action::SetBars(4)); // back to 64 rows
    assert_eq!(state.pattern.get(0, 0), &note);
}

#[test]
fn test_shrink_clamps_cursor() {
    let mut state = AppState::new();
    state.cursor_row = 60;
    state.apply(Action::SetBars(1)); // 16 rows, cursor was at 60
    assert_eq!(state.cursor_row, 15); // clamped to last row
}

#[test]
fn test_six_eight_time() {
    let mut state = AppState::new();
    // 6/8 time, 4 bars, 4 rows/beat: 6 * 4 * 4 = 96 rows
    state.apply(Action::SetTimeSignature {
        numerator: 6,
        denominator: 8,
    });
    assert_eq!(state.pattern.num_rows, 96);
}

#[test]
fn test_set_time_signature_emits_timing_effect() {
    let mut state = AppState::new();
    let effects = state.apply(Action::SetTimeSignature {
        numerator: 3,
        denominator: 4,
    });
    assert!(effects.iter().any(|e| matches!(
        e,
        SideEffect::SendTimingToAudio {
            rows_per_beat: 4,
            beat_value: 4
        }
    )));
}

#[test]
fn test_set_rows_per_beat_emits_timing_effect() {
    let mut state = AppState::new();
    let effects = state.apply(Action::SetRowsPerBeat(8));
    assert!(effects.iter().any(|e| matches!(
        e,
        SideEffect::SendTimingToAudio {
            rows_per_beat: 8,
            beat_value: 4
        }
    )));
}

#[test]
fn test_invalid_time_signature_ignored() {
    let mut state = AppState::new();
    // denominator 0
    state.apply(Action::SetTimeSignature {
        numerator: 4,
        denominator: 0,
    });
    assert_eq!(state.time_signature.denominator, 4); // unchanged
                                                     // denominator not power of 2
    state.apply(Action::SetTimeSignature {
        numerator: 4,
        denominator: 3,
    });
    assert_eq!(state.time_signature.denominator, 4); // unchanged
                                                     // numerator 0
    state.apply(Action::SetTimeSignature {
        numerator: 0,
        denominator: 4,
    });
    assert_eq!(state.time_signature.numerator, 4); // unchanged
}

#[test]
fn test_zero_bars_ignored() {
    let mut state = AppState::new();
    state.apply(Action::SetBars(0));
    assert_eq!(state.bars, 4); // unchanged
}

#[test]
fn test_zero_rows_per_beat_ignored() {
    let mut state = AppState::new();
    state.apply(Action::SetRowsPerBeat(0));
    assert_eq!(state.rows_per_beat, 4); // unchanged
}

// ---- further cases ----

#[test]
fn cursor_moves_undo_each_other() {
    let mut state = AppState::new();
    state.cursor_row = 5;
    state.cursor_channel = 2;
    for (there, back) in [
        (Direction::Down, Direction::Up),
        (Direction::Up, Direction::Down),
        (Direction::Left, Direction::Right),
        (Direction::Right, Direction::Left),
    ] {
        state.apply(Action::MoveCursor(there));
        state.apply(Action::MoveCursor(back));
        assert_eq!(state.cursor_row, 5);
        assert_eq!(state.cursor_channel, 2);
    }
    state.cursor_row = 0;
    state.apply(Action::MoveCursor(Direction::Up));
    state.apply(Action::MoveCursor(Direction::Down));
    assert_eq!(state.cursor_row, 0);
}

#[test]
fn toggle_twice_restores_playback_flag() {
    let mut state = AppState::new();
    let first = state.apply(Action::TogglePlayback);
    assert!(state.is_playing);
    assert_eq!(first.len(), 2);
    assert!(matches!(first[0], SideEffect::SendPatternToAudio(_)));
    assert!(matches!(first[1], SideEffect::StartAudio));
    let second = state.apply(Action::TogglePlayback);
    assert!(!state.is_playing);
    assert_eq!(second, vec![SideEffect::StopAudio]);
}

#[test]
fn pattern_effect_carries_new_pattern() {
    let mut state = AppState::new();
    let effects = state.apply(Action::NoteKeyPress(NoteKey::W));
    assert_eq!(effects.len(), 1);
    match &effects[0] {
        SideEffect::SendPatternToAudio(p) => {
            assert_eq!(p, &state.pattern);
            assert_eq!(p.get(0, 0).pitch, 61);
            assert_eq!(p.get(0, 0).velocity, 127);
            assert_eq!(p.get(0, 0).instrument, 0);
        }
        _ => panic!("expected a pattern"),
    }
}

#[test]
fn refused_settings_emit_nothing() {
    let mut state = AppState::new();
    assert!(state
        .apply(Action::SetTimeSignature {
            numerator: 4,
            denominator: 6
        })
        .is_empty());
    assert!(state.apply(Action::SetBars(0)).is_empty());
    assert!(state.apply(Action::SetRowsPerBeat(0)).is_empty());
    assert_eq!(state.pattern.num_rows, 64);
}

#[test]
fn cursor_position_outside_grid_is_ignored() {
    let mut state = AppState::new();
    state.apply(Action::SetCursorPosition { row: 10, channel: 3 });
    assert_eq!((state.cursor_row, state.cursor_channel), (10, 3));
    state.apply(Action::SetCursorPosition { row: 64, channel: 0 });
    assert_eq!((state.cursor_row, state.cursor_channel), (10, 3));
    state.apply(Action::SetCursorPosition { row: 0, channel: 4 });
    assert_eq!((state.cursor_row, state.cursor_channel), (10, 3));
}

#[test]
fn edit_step_wraps_and_zero_step_stays() {
    let mut state = AppState::new();
    state.apply(Action::SetEditStep(70));
    state.cursor_row = 60;
    state.apply(Action::NoteOff);
    // (60 + 70) % 64 = 2
    assert_eq!(state.cursor_row, 2);
    assert!(state.pattern.get(60, 0).is_note_off());
    state.apply(Action::SetEditStep(0));
    state.apply(Action::NoteKeyPress(NoteKey::A));
    assert_eq!(state.cursor_row, 2);
}

#[test]
fn high_octave_caps_pitch_at_127() {
    let mut state = AppState::new();
    state.octave = 10; // set directly, beyond what SetOctave allows
    state.apply(Action::NoteKeyPress(NoteKey::P));
    assert_eq!(state.pattern.get(0, 0).pitch, 127);
}

#[test]
fn power_of_two_denominators() {
    for d in [1u8, 2, 4, 8, 16, 32, 64, 128] {
        assert!(is_power_of_two(d));
    }
    for d in [0u8, 3, 6, 12, 255, 96] {
        assert!(!is_power_of_two(d));
    }
}

#[test]
fn row_weights_follow_bars_and_beats() {
    let state = AppState::new();
    assert_eq!(row_weight(0, &state), 2);
    assert_eq!(row_weight(16, &state), 2);
    assert_eq!(row_weight(4, &state), 1);
    assert_eq!(row_weight(5, &state), 0);
    let mut three_four = AppState::new();
    three_four.apply(Action::SetTimeSignature {
        numerator: 3,
        denominator: 4,
    });
    assert_eq!(row_weight(12, &three_four), 2);
    assert_eq!(row_weight(16, &three_four), 1);
}

#[test]
fn semitone_offsets() {
    assert_eq!(NoteKey::A.semitone_offset(), 0);
    assert_eq!(NoteKey::Quote.semitone_offset(), 10);
    assert_eq!(NoteKey::Q.semitone_offset(), 12);
    assert_eq!(NoteKey::P.semitone_offset(), 21);
    assert_eq!(NoteKey::K.semitone_offset(), 7);
}

#[test]
fn default_state_equals_new() {
    let s = AppState::default();
    assert_eq!(s.pattern, AppState::new().pattern);
    assert_eq!(s.bars, 4);
}

#[test]
fn clone_copies_whole_state() {
    let mut s = AppState::new();
    s.apply(Action::NoteKeyPress(NoteKey::E));
    let c = s.clone();
    assert_eq!(c.pattern, s.pattern);
    assert_eq!(c.cursor_row, s.cursor_row);
    assert_eq!(c.octave, s.octave);
    assert_eq!(c.pattern.get(0, 0).pitch, 62);
}
