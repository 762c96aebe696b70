use boxpigma::pitch::{note_name, NoteHold, MAX_MISSES};

#[test]
fn midi_numbers_name_their_notes() {
    assert_eq!(note_name(69), ("A", 4));
    assert_eq!(note_name(60), ("C", 4));
    assert_eq!(note_name(61), ("C#", 4));
    assert_eq!(note_name(23), ("B", 0));
    assert_eq!(note_name(0), ("C", -1));
    assert_eq!(note_name(-1), ("B", -2));
    assert_eq!(note_name(-12), ("C", -2));
}

#[test]
fn a_note_is_held_through_a_short_gap_and_then_let_go() {
    let mut hold: NoteHold<&str> = NoteHold::new();
    assert!(!hold.missed_frame(), "nothing to hold yet");
    hold.detected("A4");
    for _ in 0..MAX_MISSES {
        assert!(hold.missed_frame());
        assert_eq!(hold.held(), Some(&"A4"));
    }
    assert!(!hold.missed_frame());
    assert_eq!(hold.held(), None);
    hold.detected("C5");
    assert!(hold.missed_frame(), "a detection starts the count over");
}
