use tracker::voices::{VoiceBank, VoiceSlot, MAX_VOICES};

fn sounding(bank: &VoiceBank, pitch: u8) -> usize {
    (0..MAX_VOICES)
        .filter(|&i| {
            let v = bank.slot(i);
            v.active && v.pitch == pitch
        })
        .count()
}

#[test]
fn new_bank_is_silent() {
    let bank = VoiceBank::new();
    for i in 0..MAX_VOICES {
        assert_eq!(
            bank.slot(i),
            VoiceSlot {
                pitch: 0,
                active: false
            }
        );
    }
}

#[test]
fn note_on_takes_first_free_voice_and_reuses_same_pitch() {
    let mut bank = VoiceBank::new();
    assert_eq!(bank.note_on(60), 0);
    assert_eq!(bank.note_on(64), 1);
    assert_eq!(bank.note_on(67), 2);
    // Same pitch again: the voice already sounding it restarts.
    assert_eq!(bank.note_on(64), 1);
    assert_eq!(sounding(&bank, 64), 1);
    assert!(!bank.slot(3).active);
}

#[test]
fn note_off_silences_and_frees_voice() {
    let mut bank = VoiceBank::new();
    bank.note_on(69);
    bank.note_on(72);
    bank.note_off(69);
    assert_eq!(sounding(&bank, 69), 0);
    assert_eq!(sounding(&bank, 72), 1);
    // The freed voice is the first free one again.
    assert_eq!(bank.note_on(50), 0);
    // A note-off for a pitch that does not sound changes nothing.
    bank.note_off(99);
    assert_eq!(sounding(&bank, 50), 1);
    assert_eq!(sounding(&bank, 72), 1);
}

#[test]
fn voice_stealing_takes_voice_zero() {
    let mut bank = VoiceBank::new();
    for i in 0..MAX_VOICES {
        assert_eq!(bank.note_on(60 + i as u8), i);
    }
    assert_eq!(bank.note_on(90), 0);
    assert_eq!(
        bank.slot(0),
        VoiceSlot {
            pitch: 90,
            active: true
        }
    );
    assert_eq!(sounding(&bank, 60), 0);
    for i in 1..MAX_VOICES {
        assert_eq!(sounding(&bank, 60 + i as u8), 1);
    }
}

#[test]
fn ninth_note_steals_first_of_eight_voices() {
    assert_eq!(MAX_VOICES, 8);
    let mut bank = VoiceBank::new();
    for i in 0..8u8 {
        bank.note_on(60 + i);
    }
    assert_eq!(bank.note_on(90), 0);
    for p in 61..=67u8 {
        bank.note_off(p);
    }
    assert_eq!(sounding(&bank, 60), 0);
    assert_eq!(sounding(&bank, 90), 1);
    for i in 1..MAX_VOICES {
        assert!(!bank.slot(i).active);
    }
}
