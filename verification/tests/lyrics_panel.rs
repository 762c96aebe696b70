use boxpigma::geometry::Area;
use boxpigma::lyrics_panel::{
    panel_split, poster_rows, MAX_POSTER_ROWS, MIN_LYRICS_WIDTH, MIN_PANEL_HEIGHT, MIN_POSTER_ROWS, PANEL_GAP,
};

fn rect(x: u16, y: u16, width: u16, height: u16) -> Area {
    Area { x, y, width, height }
}

fn handed_a_column_only_when_the_page_can_hold_it() {
    let tall = rect(0, 0, 100, 40);
    let (lyrics, panel) = panel_split(tall, true, true, 0);
    let panel = panel.expect("a 100×40 page holds the panel");
    assert_eq!(panel.width, MAX_POSTER_ROWS * 2, "a page with rows to spare gets the tallest poster");
    assert_eq!(panel, rect(100 - panel.width, 0, panel.width, 40));
    assert_eq!(
        lyrics.width,
        100 - panel.width - PANEL_GAP,
        "the lyrics keep everything the poster and the gap do not take"
    );

    let small = rect(0, 0, 100, MIN_PANEL_HEIGHT);
    let (lyrics, panel) = panel_split(small, true, true, 0);
    let panel = panel.expect("the shortest page that holds the panel does hold it");
    assert_eq!(panel.width, MIN_POSTER_ROWS * 2, "a shorter page gets a smaller poster rather than none");
    assert_eq!(lyrics.width, 100 - panel.width - PANEL_GAP);

    assert_eq!(panel_split(tall, false, true, 0), (tall, None), "a song with no poster is handed no column");
    let short = rect(0, 0, 100, MIN_PANEL_HEIGHT - 1);
    assert_eq!(panel_split(short, true, true, 0), (short, None));
    let narrow = rect(0, 0, MAX_POSTER_ROWS * 2 + PANEL_GAP + MIN_LYRICS_WIDTH - 1, 40);
    assert_eq!(panel_split(narrow, true, true, 0), (narrow, None));
    assert_eq!(
        panel_split(rect(0, 0, 60, 12), true, true, 0),
        (rect(0, 0, 60, 12), None),
        "the page the other tests draw on"
    );
}

#[test]
fn lyrics_the_panel_is_only_handed_a_column_when_the_page_can_hold_it() {
    handed_a_column_only_when_the_page_can_hold_it();
}

#[test]
fn panel_the_panel_is_only_handed_a_column_when_the_page_can_hold_it() {
    handed_a_column_only_when_the_page_can_hold_it();
}

#[test]
fn panel_the_mv_column_is_a_pane() {
    let page = rect(0, 0, 100, 30);
    let auto = panel_split(page, true, true, 0).1.expect("the default is the width the page can spare");
    assert_eq!(auto.width, poster_rows(page.height) * 2);

    let panel = panel_split(page, true, true, 30).1.expect("a dragged width is used");
    assert_eq!(panel.width, 30);
    assert_eq!(panel.x + panel.width, page.x + page.width, "the column stays on the right");

    assert_eq!(panel_split(page, true, false, 0), (page, None), "a collapsed pane is not drawn, whatever the page could hold");

    // The widest column the page can give once the pane layout has fitted a wider setting to it.
    let fitted = page.width - PANEL_GAP - MIN_LYRICS_WIDTH;
    let (lyrics, panel) = panel_split(page, true, true, fitted);
    assert!(panel.is_some(), "a clamped column is still a column");
    assert!(lyrics.width >= MIN_LYRICS_WIDTH, "the lyrics keep their columns: {lyrics:?}");
}

#[test]
fn the_poster_takes_the_rows_the_text_leaves() {
    assert_eq!(poster_rows(40), MAX_POSTER_ROWS);
    assert_eq!(poster_rows(14), 9);
    assert_eq!(poster_rows(3), 0);
}
