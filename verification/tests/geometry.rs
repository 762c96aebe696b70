use boxpigma::geometry::{
    control_glyph, control_rects, form_layout, form_row_y, like_icon, like_rect, song_info_like_rect,
    Area, ControlButton, CONTROL_GAP,
};

fn area(x: u16, y: u16, width: u16, height: u16) -> Area {
    Area { x, y, width, height }
}

#[test]
fn transport_rects_stay_inside_the_row() {
    let row = area(5, 2, 40, 1);
    let centered = control_rects(row, true);
    assert_eq!(
        centered.map(|(button, _)| button),
        [ControlButton::Prev, ControlButton::PlayPause, ControlButton::Next]
    );

    let total = 3 + CONTROL_GAP * 2;
    assert_eq!(centered[0].1.x, row.x + (row.width - total) / 2);
    for pair in centered.windows(2) {
        assert_eq!(pair[1].1.x, pair[0].1.right() + CONTROL_GAP);
    }
    assert_eq!(control_rects(row, false)[0].1.x, row.x);

    for width in [0u16, 1, 8, 9, 10] {
        let narrow = area(0, 0, width, 1);
        for (_, rect) in control_rects(narrow, false) {
            assert!(rect.right() <= narrow.right(), "{rect:?} escapes {narrow:?}");
        }
    }
    assert!(control_rects(area(0, 0, 0, 0), false).iter().all(|(_, rect)| rect.height == 0));
}

#[test]
fn the_play_button_shows_what_a_press_does() {
    assert_eq!(control_glyph(true, true, ControlButton::PlayPause), "\u{f040a}");
    assert_eq!(control_glyph(false, false, ControlButton::PlayPause), "\u{f040a}");
    assert_eq!(control_glyph(false, true, ControlButton::PlayPause), "\u{f03e4}");
    assert_eq!(control_glyph(false, true, ControlButton::Next), "\u{f050}");
}

#[test]
fn the_like_button_sits_where_it_is_drawn() {
    assert_ne!(like_icon(true), like_icon(false), "the icon shows the like state");
    assert_eq!(like_rect(area(3, 4, 20, 2)), area(3, 4, 1, 1));
    assert_eq!(like_rect(area(3, 4, 0, 0)), area(3, 4, 0, 0));
    assert_eq!(song_info_like_rect(area(3, 4, 20, 2)), area(3, 5, 1, 1));
    assert_eq!(
        song_info_like_rect(area(3, 4, 20, 1)).height,
        0,
        "a single-row block has no second line to click"
    );
}

#[test]
fn the_form_is_centred_in_its_box() {
    let layout = form_layout(area(10, 5, 60, 20), 2);
    assert_eq!(layout.width, 44);
    assert_eq!(layout.x, 10 + (60 - 44) / 2);
    assert_eq!(layout.top, 5 + (20 - 6) / 2);
    assert_eq!(layout.value_width, 44 - 13);
    assert_eq!(form_row_y(layout, 1), layout.top + 4);
    let tiny = form_layout(area(0, 0, 3, 1), 2);
    assert_eq!(tiny.width, 0);
    assert_eq!(tiny.value_width, 0);
}

#[test]
fn control_icons_are_one_cell_wide() {
    for paused in [true, false] {
        for button in [ControlButton::Prev, ControlButton::PlayPause, ControlButton::Next] {
            let glyph = control_glyph(paused, !paused, button);
            assert_eq!(unicode_width::UnicodeWidthStr::width(glyph), 1, "{button:?} draws {glyph:?}");
        }
    }
}
