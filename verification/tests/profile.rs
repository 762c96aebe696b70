use std::sync::Arc;

use boxpigma::artist::{alias_text, blurb_text, counts_text};
use boxpigma::nav::NavState;
use boxpigma::navigation::NavigationState;
use boxpigma::pagination::PaginationInfo;
use boxpigma::wrap::next_tick;

#[test]
fn aliases_follow_the_name_joined_by_slashes() {
    assert_eq!(alias_text(&vec![]), None);
    assert_eq!(alias_text(&vec!["Jay Chou".to_string()]), Some("   Jay Chou".to_string()));
    assert_eq!(
        alias_text(&vec!["Jay Chou".to_string(), "周董".to_string(), "JAY".to_string()]),
        Some("   Jay Chou / 周董 / JAY".to_string())
    );
}

#[test]
fn the_counts_line_names_songs_and_albums() {
    assert_eq!(counts_text(568, 44), "歌曲 568 · 专辑 44");
    assert_eq!(counts_text(0, 0), "歌曲 0 · 专辑 0");
}

#[test]
fn a_blank_biography_says_there_is_none() {
    assert_eq!(blurb_text("  华语流行乐男歌手 \n"), "华语流行乐男歌手");
    assert_eq!(blurb_text(" \t\n"), "（暂无简介）");
    assert_eq!(blurb_text(""), "（暂无简介）");
}

#[test]
fn the_frame_counter_steps_once_per_eighty_milliseconds_and_at_least_once() {
    assert_eq!(next_tick(10, 0), 11);
    assert_eq!(next_tick(10, 79), 11);
    assert_eq!(next_tick(10, 160), 12);
    assert_eq!(next_tick(10, 8_000), 110);
    assert_eq!(next_tick(u64::MAX, 0), 0, "the counter goes round");
    assert_eq!(next_tick(u64::MAX - 1, 240), 1);
}

fn screen(selected: usize, total: Option<u64>) -> NavigationState<Vec<u32>, u8, u8> {
    NavigationState {
        nav: NavState::from_config(Vec::new(), Vec::new()),
        content: Arc::new(vec![1, 2, 3]),
        history: Vec::new(),
        content_selected: selected,
        content_column_selected: 0,
        table_mode: 0,
        table_state: 0,
        pagination: total.map(|total| PaginationInfo { total, ..PaginationInfo::default() }),
    }
}

#[test]
fn removing_a_song_keeps_the_cursor_on_a_row() {
    let mut state = screen(2, Some(10));
    assert_eq!(state.keep_cursor_after_removal(2), Some(1), "the cursor moves up off the removed last row");
    assert_eq!(state.content_selected, 1);
    assert_eq!(state.pagination.as_ref().map(|p| p.total), Some(9));

    let mut state = screen(0, Some(0));
    assert_eq!(state.keep_cursor_after_removal(0), None, "an empty list selects nothing");
    assert_eq!(state.content_selected, 0);
    assert_eq!(state.pagination.as_ref().map(|p| p.total), Some(0));

    let mut state = screen(1, None);
    assert_eq!(state.keep_cursor_after_removal(5), Some(1));
    assert!(state.pagination.is_none());
}

#[test]
fn a_song_put_on_top_moves_the_cursor_with_its_row() {
    let mut state = screen(3, Some(10));
    assert_eq!(state.follow_cursor_after_insertion(true), Some(4));
    assert_eq!(state.content_selected, 4);
    assert_eq!(state.pagination.as_ref().map(|p| p.total), Some(11));

    let mut state = screen(0, None);
    assert_eq!(state.follow_cursor_after_insertion(false), None);
    assert_eq!(state.content_selected, 1);
}
