//! Where the modern player bar puts its parts: the cover column on the left with the spectrum
//! under the art when it is asked for, and three rows on the right for the progress line, the
//! song with its spinner, and the details with the transport buttons and the mode icons.
//!
//! The rows and columns come from `ratatui`'s layout solver; what this module decides is what it
//! asks the solver for, and what it takes from the cover column for the spectrum.
use vstd::prelude::*;
use ratatui::layout::{Constraint, Flex, Layout, Rect};
use crate::geometry::{Area, min};

verus! {

/// How a split sizes one of its parts: the two constraints the player bar uses.
#[derive(Debug, Clone, Copy, PartialEq, Eq, Structural)]
pub enum Sizing {
    /// Exactly this many cells.
    Length(u16),
    /// At least this many cells.
    Min(u16),
}

/// Which way a split cuts its area.
#[derive(Debug, Clone, Copy, PartialEq, Eq, Structural)]
pub enum Along {
    /// Into columns, side by side.
    Columns,
    /// Into rows, one under another.
    Rows,
}

/// Where a split puts the room its parts leave over.
#[derive(Debug, Clone, Copy, PartialEq, Eq, Structural)]
pub enum Spread {
    /// After the last part.
    Start,
    /// Between the parts, the first at the start and the last at the end.
    SpaceBetween,
}

/// The areas `ratatui`'s `Layout` gives for `constraints` in `area`, cut `along` columns or
/// rows; `spacing` cells between parts, `margin` cells kept free on
/// the left and right, and the room left over spread by `spread`. What `Layout::split` computes is
/// not restated here.
pub uninterp spec fn split_areas(
    along: Along,
    constraints: Seq<Sizing>,
    spacing: int,
    margin: int,
    spread: Spread,
    area: Area,
) -> Seq<Area>;

/// `ratatui`'s `Layout::split`, on a layout built by `Layout::horizontal` or `Layout::vertical`
/// with `spacing`, `horizontal_margin` and `flex`: one area per constraint, in order (the solver's
/// segments are taken two variables at a time, one pair per constraint). The solver's
/// required constraints only keep each part inside the area and the parts in order, which can
/// always be met, so the `expect` in `split` never fires.
#[verifier::external_body]
pub(crate) fn split(along: Along, constraints: &[Sizing], spacing: u16, margin: u16, spread: Spread, area: Area) -> (r: Vec<Area>)
    ensures
        r@ == split_areas(along, constraints@, spacing as int, margin as int, spread, area),
        r@.len() == constraints@.len(),
{
    let parts: Vec<_> = constraints.iter().map(|c| match *c { Sizing::Length(n) => Constraint::Length(n), Sizing::Min(n) => Constraint::Min(n) }).collect();
    let layout = match along { Along::Columns => Layout::horizontal(parts), Along::Rows => Layout::vertical(parts) };
    let flex = match spread { Spread::Start => Flex::Start, Spread::SpaceBetween => Flex::SpaceBetween };
    layout.spacing(spacing).horizontal_margin(margin).flex(flex)
        .split(Rect { x: area.x, y: area.y, width: area.width, height: area.height })
        .iter().map(|r| Area { x: r.x, y: r.y, width: r.width, height: r.height }).collect()
}

/// The rectangle of no cells, which a layout gives to a part it has no room for.
pub open spec fn no_area() -> Area {
    Area { x: 0, y: 0, width: 0, height: 0 }
}

/// What the player bar's layout hands the drawing and the click layer.
#[derive(Debug, Clone, Copy, PartialEq, Eq, Structural)]
pub struct PlayerbarAreas {
    pub progress_time_left: Area,
    pub progress_bar: Area,
    pub progress_time_right: Area,
    pub song_info: Area,
    pub song_detail: Area,
    pub cover: Area,
    pub controls: Area,
    /// Whether the transport buttons are centred in their cell.
    pub controls_centered: bool,
    pub gauge: Area,
    pub spinner: Area,
    pub mode_icon: Area,
    pub volume: Area,
    /// The spectrum's row; no cells when the layout has no row to spare for it.
    pub visualizer: Area,
    /// The cell of the pitch readout.
    pub pitch: Area,
}

/// Rows the cover art keeps in a bar `height` rows tall: three, or four on a sixel terminal
/// with five rows to give, never more than the bar; one fewer when the spectrum is shown and
/// the art has a row to give it.
pub open spec fn cover_rows(height: int, show_visualizer: bool, is_sixel: bool) -> int {
    let full = min(if is_sixel && height >= 5 { 4 } else { 3 }, height);
    if show_visualizer && full > 1 { full - 1 } else { full }
}

/// The modern bar's two columns: the cover's, eight cells wide or none, and the rest, a cell
/// apart.
pub open spec fn modern_columns(area: Area, show_cover: bool) -> Seq<Area> {
    split_areas(Along::Columns, seq![Sizing::Length(if show_cover { 8 } else { 0 }), Sizing::Min(20)], 1, 0, Spread::Start, area)
}

/// The three rows of the right column, a cell in from both sides.
pub open spec fn modern_rows(area: Area, show_cover: bool) -> Seq<Area> {
    split_areas(Along::Rows, seq![Sizing::Length(1), Sizing::Length(1), Sizing::Length(1)], 0, 1, Spread::Start, modern_columns(area, show_cover)[1])
}

/// The progress row: the elapsed time, the bar, the length.
pub open spec fn progress_columns(area: Area, show_cover: bool) -> Seq<Area> {
    split_areas(Along::Columns, seq![Sizing::Length(6), Sizing::Min(10), Sizing::Length(6)], 0, 0, Spread::Start, modern_rows(area, show_cover)[0])
}

/// The middle row: the song on the left, the spinner's cell on the right.
pub open spec fn middle_columns(area: Area, show_cover: bool) -> Seq<Area> {
    split_areas(Along::Columns, seq![Sizing::Min(10), Sizing::Length(8)], 0, 0, Spread::SpaceBetween, modern_rows(area, show_cover)[1])
}

/// The bottom row: the details on the left, the buttons in the middle, the icons on the right.
pub open spec fn bottom_columns(area: Area, show_cover: bool) -> Seq<Area> {
    split_areas(Along::Columns, seq![Sizing::Length(15), Sizing::Length(20), Sizing::Length(6)], 0, 0, Spread::SpaceBetween, modern_rows(area, show_cover)[2])
}

/// The icon cell, halved between the volume and the play mode.
pub open spec fn icon_columns(area: Area, show_cover: bool) -> Seq<Area> {
    split_areas(Along::Columns, seq![Sizing::Length(3), Sizing::Length(3)], 0, 0, Spread::Start, bottom_columns(area, show_cover)[2])
}

/// The modern bar laid out in `area`.
pub open spec fn spec_modern_layout(area: Area, show_cover: bool, show_visualizer: bool, is_sixel: bool) -> PlayerbarAreas {
    let column = modern_columns(area, show_cover)[0];
    let rows = cover_rows(area.height as int, show_visualizer, is_sixel);
    let middle = middle_columns(area, show_cover);
    let bottom = bottom_columns(area, show_cover);
    PlayerbarAreas {
        progress_time_left: progress_columns(area, show_cover)[0],
        progress_bar: progress_columns(area, show_cover)[1],
        progress_time_right: progress_columns(area, show_cover)[2],
        song_info: middle[0],
        song_detail: bottom[0],
        cover: Area { x: column.x, y: area.y, width: column.width, height: rows as u16 },
        controls: bottom[1],
        controls_centered: false,
        gauge: no_area(),
        spinner: middle[1],
        mode_icon: icon_columns(area, show_cover)[1],
        volume: icon_columns(area, show_cover)[0],
        visualizer: if show_visualizer && rows < area.height {
            Area { x: column.x, y: (area.y + rows) as u16, width: column.width, height: 1 }
        } else {
            no_area()
        },
        pitch: middle[1],
    }
}

/// Lay the modern player bar out in `area`. The layout fills every row, so the spectrum, when
/// it is asked for, takes the bottom row of the cover column, and nobody else loses a row; the
/// pitch readout shares the spinner's cell, which is idle except while seeking.
pub fn modern_layout(area: Area, show_cover: bool, show_visualizer: bool, is_sixel: bool) -> (r: PlayerbarAreas)
    requires
        area.y + area.height <= u16::MAX,
    ensures
        r == spec_modern_layout(area, show_cover, show_visualizer, is_sixel),
        r.cover.y == area.y,
        r.cover.height == cover_rows(area.height as int, show_visualizer, is_sixel),
        show_visualizer && r.cover.height < area.height ==> r.visualizer == (Area {
            x: r.cover.x,
            y: (area.y + r.cover.height) as u16,
            width: r.cover.width,
            height: 1,
        }),
        !(show_visualizer && r.cover.height < area.height) ==> r.visualizer == no_area(),
{
    let cover_width: u16 = if show_cover { 8 } else { 0 };
    let cols = split(Along::Columns, &[Sizing::Length(cover_width), Sizing::Min(20)], 1, 0, Spread::Start, area);
    let column = cols[0];

    let full: u16 = if is_sixel && area.height >= 5 { 4 } else { 3 };
    let full: u16 = if full < area.height { full } else { area.height };
    let rows: u16 = if show_visualizer && full > 1 { full - 1 } else { full };
    let visualizer = if show_visualizer && rows < area.height {
        Area { x: column.x, y: area.y + rows, width: column.width, height: 1 }
    } else {
        Area { x: 0, y: 0, width: 0, height: 0 }
    };
    let cover = Area { x: column.x, y: area.y, width: column.width, height: rows };

    let right = split(Along::Rows, &[Sizing::Length(1), Sizing::Length(1), Sizing::Length(1)], 0, 1, Spread::Start, cols[1]);
    let progress = split(Along::Columns, &[Sizing::Length(6), Sizing::Min(10), Sizing::Length(6)], 0, 0, Spread::Start, right[0]);
    let middle = split(Along::Columns, &[Sizing::Min(10), Sizing::Length(8)], 0, 0, Spread::SpaceBetween, right[1]);
    let bottom = split(Along::Columns, &[Sizing::Length(15), Sizing::Length(20), Sizing::Length(6)], 0, 0, Spread::SpaceBetween, right[2]);
    let icons = split(Along::Columns, &[Sizing::Length(3), Sizing::Length(3)], 0, 0, Spread::Start, bottom[2]);
    proof {
        assert(seq![Sizing::Length(cover_width), Sizing::Min(20)] =~= seq![Sizing::Length(if show_cover { 8 } else { 0 }), Sizing::Min(20)]);
    }

    PlayerbarAreas {
        progress_time_left: progress[0],
        progress_bar: progress[1],
        progress_time_right: progress[2],
        song_info: middle[0],
        song_detail: bottom[0],
        cover,
        controls: bottom[1],
        controls_centered: false,
        gauge: Area { x: 0, y: 0, width: 0, height: 0 },
        spinner: middle[1],
        mode_icon: icons[1],
        volume: icons[0],
        visualizer,
        pitch: middle[1],
    }
}

/// Cells the pitch readout takes from the spare row when it shares it with the spectrum.
pub const PITCH_WIDTH: u16 = 14;

/// The spare row `area` split between the spectrum and the pitch readout, as
/// `(spectrum, pitch)`: when both are shown and the row is wider than the readout, the readout
/// takes its cells at the right end and the spectrum the rest; otherwise each has the whole row.
pub open spec fn spec_spectrum_row(area: Area, show_visualizer: bool, show_pitch: bool) -> (Area, Area) {
    if show_visualizer && show_pitch && area.width > PITCH_WIDTH {
        let cols = split_areas(Along::Columns, seq![Sizing::Min(0), Sizing::Length(PITCH_WIDTH)], 0, 0, Spread::Start, area);
        (cols[0], cols[1])
    } else {
        (area, area)
    }
}

/// Split the layouts' spare row between the spectrum and the pitch readout, so showing both
/// does not draw one over the other.
pub fn spectrum_row(area: Area, show_visualizer: bool, show_pitch: bool) -> (r: (Area, Area))
    ensures
        r == spec_spectrum_row(area, show_visualizer, show_pitch),
{
    if show_visualizer && show_pitch && area.width > PITCH_WIDTH {
        let cols = split(Along::Columns, &[Sizing::Min(0), Sizing::Length(PITCH_WIDTH)], 0, 0, Spread::Start, area);
        (cols[0], cols[1])
    } else {
        (area, area)
    }
}

/// The spectrum takes its row from the cover: in a bar of two rows or more, showing it leaves
/// the art one row shorter than without it, and the spectrum sits directly under the art, as
/// wide as the cover column. Without it, nothing is given up.
pub proof fn the_spectrum_takes_a_row_from_the_cover(area: Area, show_cover: bool, is_sixel: bool)
    requires
        area.height >= 2,
        area.y + area.height <= u16::MAX,
    ensures ({
        let with = spec_modern_layout(area, show_cover, true, is_sixel);
        let without = spec_modern_layout(area, show_cover, false, is_sixel);
        &&& with.cover.height + 1 == without.cover.height
        &&& with.visualizer.height == 1
        &&& with.visualizer.y == with.cover.y + with.cover.height
        &&& with.visualizer.x == with.cover.x
        &&& with.visualizer.width == with.cover.width
        &&& without.visualizer == no_area()
        &&& without.cover.height == min(if is_sixel && area.height >= 5 { 4 } else { 3 }, area.height as int)
    }),
{
}

} // verus!
