use boxpigma::lyrics::{
    fill, hint_line, line_duration, shown_text, song_duration_ms, window_end, window_start, LyricLine,
    LyricsState,
};

/// Six lines, five seconds apart.
fn lyrics() -> Vec<LyricLine> {
    (0..6u64)
        .map(|i| LyricLine { time_ms: i * 5_000, text: format!("line{i}") })
        .collect()
}

#[test]
fn the_current_line_is_the_one_being_sung_at_that_instant() {
    let lines = lyrics();

    assert_eq!(hint_line(&lines, None, 0), 0);
    assert_eq!(hint_line(&lines, None, 4_999), 0);
    assert_eq!(hint_line(&lines, None, 5_000), 1);
    assert_eq!(hint_line(&lines, None, 27_000), 5);
    assert_eq!(hint_line(&lines, None, 900_000), 5);
}

#[test]
fn an_empty_file_has_no_current_line() {
    assert_eq!(hint_line(&[], None, 12_000), 0);
    assert_eq!(fill(&[], 0, 12_000, None), 0);
}

#[test]
fn a_stale_hint_is_corrected_in_both_directions() {
    let lines = lyrics();

    assert_eq!(hint_line(&lines, Some(1), 21_500), 4);
    assert_eq!(hint_line(&lines, Some(5), 1_000), 0);
    assert_eq!(hint_line(&lines, Some(99), 11_000), 2);
}

#[test]
fn the_hint_follows_the_song_across_frames() {
    let lines = lyrics();
    let mut state = LyricsState::default();

    for (ms, expected) in [(0, 0), (6_000, 1), (11_000, 2), (26_000, 5), (1_000, 0)] {
        assert_eq!(state.current_line(&lines, ms), expected, "at {ms} ms");
    }
}

#[test]
fn any_hint_gives_the_answer_of_a_scan() {
    let lines = lyrics();
    for ms in [0u64, 4_999, 5_000, 12_345, 24_999, 25_000, 99_999] {
        let scan = hint_line(&lines, None, ms);
        for hint in 0..8usize {
            assert_eq!(hint_line(&lines, Some(hint), ms), scan, "hint {hint} at {ms} ms");
        }
    }
}

#[test]
fn a_line_lasts_until_the_next_one_starts() {
    let lines = lyrics();

    assert_eq!(line_duration(&lines, 0, None), 5_000);
    assert_eq!(line_duration(&lines, 4, None), 5_000);
    assert_eq!(line_duration(&lines, 5, Some(40_000)), 15_000);
    assert_eq!(line_duration(&lines, 5, None), 4_000);
    assert_eq!(line_duration(&lines, 5, Some(1_000)), 4_000);
    assert_eq!(song_duration_ms(0), None);
    assert_eq!(song_duration_ms(258_000), Some(258_000));
}

#[test]
fn two_lines_at_the_same_instant_last_a_millisecond() {
    let lines = vec![
        LyricLine { time_ms: 1_000, text: "a".to_string() },
        LyricLine { time_ms: 1_000, text: "b".to_string() },
    ];
    assert_eq!(line_duration(&lines, 0, None), 1);
    assert_eq!(line_duration(&lines, 9, None), 4_000);
}

#[test]
fn the_sung_part_grows_with_the_line() {
    let lines = lyrics();

    assert_eq!(fill(&lines, 1, 5_000, None), 0);
    assert_eq!(fill(&lines, 1, 7_500, None), 2);
    assert_eq!(fill(&lines, 1, 8_000, None), 3);
    assert_eq!(fill(&lines, 1, 10_000, None), 5);
    assert_eq!(fill(&lines, 1, 40_000, None), 5);
    assert_eq!(fill(&lines, 1, 0, None), 0);
}

#[test]
fn the_fill_counts_characters_not_bytes() {
    let lines = vec![LyricLine { time_ms: 0, text: "月亮代表".to_string() }];
    assert_eq!(fill(&lines, 0, 2_000, Some(4_000)), 2);
    assert_eq!(LyricsState::default().fill(&lines, 0, 4_000, Some(4_000)), 4);
}

#[test]
fn an_instrumental_gap_is_drawn_as_a_dot() {
    assert_eq!(shown_text(""), "·");
    assert_eq!(shown_text("line0"), "line0");
}

#[test]
fn the_window_is_centred_on_the_line_being_sung() {
    assert_eq!(window_start(10, 7, 1), 7);
    assert_eq!(window_start(1, 7, 1), 0, "the window does not start before the file");
    assert_eq!(window_start(10, 8, 2), 8, "a translated lyric takes two rows");
    assert_eq!(window_end(7, 7, 1, 100), 14);
    assert_eq!(window_end(7, 7, 1, 9), 9, "and does not run past its end");
}
