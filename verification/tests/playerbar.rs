use boxpigma::geometry::Area;
use boxpigma::playerbar::{modern_layout, spectrum_row};

fn area(x: u16, y: u16, width: u16, height: u16) -> Area {
    Area { x, y, width, height }
}

/// This layout fills every row with something, so the spectrum can only come from the
/// cover column, and only when it is enabled, so nobody else loses a row of art.
#[test]
fn the_spectrum_takes_a_row_from_the_cover_when_enabled() {
    let bar = area(0, 0, 80, 3);
    let layout = modern_layout(bar, true, false, false);
    assert_eq!(layout.cover.height, 3, "the cover keeps the full height");
    assert_eq!(layout.visualizer.height, 0, "nothing is given up unasked");

    let layout = modern_layout(bar, true, true, false);
    assert_eq!(layout.cover.height, 2);
    assert_eq!(layout.visualizer.height, 1);
    assert_eq!(layout.visualizer.y, layout.cover.y + layout.cover.height);
    assert_eq!(layout.visualizer.width, layout.cover.width);
    assert_eq!(layout.visualizer.x, layout.cover.x);
    // The readout has a cell of its own here, so it never has to share that row.
    assert_eq!(layout.pitch.height, 1);
    assert!(layout.pitch.width > 0, "the pitch cell is the idle one beside the song info");
}

#[test]
fn the_right_column_starts_a_cell_past_the_cover_and_a_cell_in() {
    let layout = modern_layout(area(0, 0, 80, 3), true, false, false);
    assert_eq!(layout.cover, area(0, 0, 8, 3));
    assert_eq!(layout.progress_time_left, area(10, 0, 6, 1));
    assert_eq!(layout.progress_time_right, area(73, 0, 6, 1));
    assert_eq!(layout.progress_bar, area(16, 0, 57, 1));
    assert_eq!(layout.song_info.y, 1);
    assert_eq!(layout.spinner, area(71, 1, 8, 1));
    assert_eq!(layout.pitch, layout.spinner);
    assert_eq!(layout.song_detail, area(10, 2, 15, 1));
    assert_eq!(layout.mode_icon.y, 2);
    assert!(!layout.controls_centered);
}

#[test]
fn without_a_cover_the_column_has_no_cells() {
    let layout = modern_layout(area(0, 0, 80, 3), false, false, false);
    assert_eq!(layout.cover.width, 0);
    assert_eq!(layout.progress_time_left.x, 2);
}

#[test]
fn a_sixel_bar_of_five_rows_gives_the_art_four() {
    let layout = modern_layout(area(0, 10, 80, 5), true, false, true);
    assert_eq!(layout.cover, area(0, 10, 8, 4));
    let layout = modern_layout(area(0, 10, 80, 5), true, true, true);
    assert_eq!(layout.cover.height, 3);
    assert_eq!(layout.visualizer, area(0, 13, 8, 1));
}

#[test]
fn a_one_row_bar_keeps_its_art_and_has_no_spectrum() {
    let layout = modern_layout(area(0, 0, 80, 1), true, true, false);
    assert_eq!(layout.cover.height, 1);
    assert_eq!(layout.visualizer, area(0, 0, 0, 0));
}

#[test]
fn the_pitch_readout_takes_the_right_end_of_a_shared_row() {
    let row = area(0, 5, 80, 1);
    assert_eq!(spectrum_row(row, true, true), (area(0, 5, 66, 1), area(66, 5, 14, 1)));
}

#[test]
fn a_row_not_shared_is_whole_for_both() {
    let row = area(0, 5, 80, 1);
    assert_eq!(spectrum_row(row, true, false), (row, row));
    assert_eq!(spectrum_row(row, false, true), (row, row));
    let narrow = area(0, 5, 14, 1);
    assert_eq!(spectrum_row(narrow, true, true), (narrow, narrow));
}
