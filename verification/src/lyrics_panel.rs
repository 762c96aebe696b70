//! Where the lyrics page puts the MV's column: on the right, as wide as the poster the page's
//! height can afford or as the reader dragged it, and only when the page can hold it beside
//! lyrics still worth reading.
use vstd::prelude::*;
use crate::geometry::{Area, min};
use crate::playerbar::{split, split_areas, Along, Sizing, Spread};

verus! {

/// The tallest poster the panel draws, in rows. A poster is a square picture, so at the roughly
/// 1:2 character cell this is 24 cells across.
pub const MAX_POSTER_ROWS: u16 = 12;

/// The widest line the facts under the poster make, in cells (`03:45 · 1993-09-09`).
pub const FACTS_WIDTH: u16 = 18;

/// The shortest poster the panel draws, in rows: as wide as the facts need.
pub const MIN_POSTER_ROWS: u16 = FACTS_WIDTH / 2;

/// Rows the facts take under the poster: the title, the singer, and the length with the release
/// date.
pub const FACTS_ROWS: u16 = 3;

/// Every row of the column that is not the poster: the facts, the blank under them, and one row
/// of blurb.
pub const PANEL_TEXT_ROWS: u16 = FACTS_ROWS + 1 + 1;

/// The shortest page that gets a panel: the smallest poster and the rows under it.
pub const MIN_PANEL_HEIGHT: u16 = MIN_POSTER_ROWS + PANEL_TEXT_ROWS;

/// Cells between the lyrics and the poster column.
pub const PANEL_GAP: u16 = 2;

/// What the lyrics keep of the page: narrower than this and the poster would be the page.
pub const MIN_LYRICS_WIDTH: u16 = 30;

/// Rows the poster takes on a page of `height` rows: everything the text under it does not
/// need, up to the tallest poster.
pub open spec fn spec_poster_rows(height: int) -> int {
    min(if height > PANEL_TEXT_ROWS { height - PANEL_TEXT_ROWS } else { 0 }, MAX_POSTER_ROWS as int)
}

/// Rows the poster takes on a page of `height` rows.
pub fn poster_rows(height: u16) -> (r: u16)
    ensures
        r == spec_poster_rows(height as int),
{
    let spare: u16 = if height > PANEL_TEXT_ROWS { height - PANEL_TEXT_ROWS } else { 0 };
    if spare < MAX_POSTER_ROWS { spare } else { MAX_POSTER_ROWS }
}

/// The column's width on `inner`: the width the reader dragged it to (`dragged`, already
/// fitted to the page by the pane layout), or, left at 0, twice the poster's rows.
pub open spec fn column_width(inner: Area, dragged: u16) -> int {
    if dragged == 0 { spec_poster_rows(inner.height as int) * 2 } else { dragged as int }
}

/// The lyrics area and the MV's column on `inner`: `(inner, None)` when there is no poster to
/// draw (`has_panel`), the pane is collapsed (`visible`), the page is shorter than
/// [`MIN_PANEL_HEIGHT`], or it is too narrow for the column, the gap and [`MIN_LYRICS_WIDTH`]
/// of lyrics; otherwise the lyrics, a gap, and the column at the right edge, as the layout
/// solver cuts them.
pub open spec fn spec_panel_split(inner: Area, has_panel: bool, visible: bool, dragged: u16) -> (Area, Option<Area>) {
    let width = column_width(inner, dragged);
    if !has_panel || !visible || inner.height < MIN_PANEL_HEIGHT
        || inner.width < width + PANEL_GAP + MIN_LYRICS_WIDTH {
        (inner, None)
    } else {
        let parts = split_areas(
            Along::Columns,
            seq![Sizing::Min(MIN_LYRICS_WIDTH), Sizing::Length(PANEL_GAP), Sizing::Length(width as u16)],
            0,
            0,
            Spread::Start,
            inner,
        );
        (parts[0], Some(parts[2]))
    }
}

/// Divide `inner` between the lyrics and the MV's column, which is the rightmost one. A page
/// without a poster, with the pane collapsed, or too small for one keeps the whole page for the
/// lyrics.
pub fn panel_split(inner: Area, has_panel: bool, visible: bool, dragged: u16) -> (r: (Area, Option<Area>))
    ensures
        r == spec_panel_split(inner, has_panel, visible, dragged),
        r.1 is None <==> (!has_panel || !visible || inner.height < MIN_PANEL_HEIGHT
            || inner.width < column_width(inner, dragged) + PANEL_GAP + MIN_LYRICS_WIDTH),
{
    if !has_panel || !visible || inner.height < MIN_PANEL_HEIGHT {
        return (inner, None);
    }
    let width: u16 = if dragged == 0 { poster_rows(inner.height) * 2 } else { dragged };
    if (inner.width as u32) < width as u32 + PANEL_GAP as u32 + MIN_LYRICS_WIDTH as u32 {
        return (inner, None);
    }
    let parts = split(
        Along::Columns,
        &[Sizing::Min(MIN_LYRICS_WIDTH), Sizing::Length(PANEL_GAP), Sizing::Length(width)],
        0,
        0,
        Spread::Start,
        inner,
    );
    proof {
        assert(seq![Sizing::Min(MIN_LYRICS_WIDTH), Sizing::Length(PANEL_GAP), Sizing::Length(width)]
            =~= seq![Sizing::Min(MIN_LYRICS_WIDTH), Sizing::Length(PANEL_GAP), Sizing::Length(column_width(inner, dragged) as u16)]);
    }
    (parts[0], Some(parts[2]))
}

} // verus!
