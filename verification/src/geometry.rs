//! Where the player bar's buttons and the login form's rows sit in the cells they are given. The
//! drawing and the click layer both take these numbers, so a click lands on what was drawn.
use vstd::prelude::*;

verus! {

/// A rectangle of terminal cells.
#[derive(Debug, Clone, Copy, PartialEq, Eq, Structural)]
pub struct Area {
    pub x: u16,
    pub y: u16,
    pub width: u16,
    pub height: u16,
}

/// A pane edge being dragged by the mouse: the edge (`D`, as the layout names its dividers), the
/// pane's size when the drag started, and the cell the drag started on.
#[derive(Debug, Clone, Copy)]
pub struct PaneDrag<D> {
    pub divider: D,
    /// The pane's size when the drag started.
    pub start_size: u16,
    pub col: u16,
    pub row: u16,
}

/// `a + b`, saturating at the largest cell coordinate.
pub open spec fn sat_add(a: int, b: int) -> int {
    if a + b > u16::MAX { u16::MAX as int } else { a + b }
}

/// `a - b`, saturating at zero.
pub open spec fn sat_sub(a: int, b: int) -> int {
    if a > b { a - b } else { 0 }
}

pub open spec fn min(a: int, b: int) -> int {
    if a < b { a } else { b }
}

impl Area {
    /// The column just right of the area, saturating at the edge of the coordinate space.
    pub open spec fn spec_right(self) -> int {
        sat_add(self.x as int, self.width as int)
    }

    /// The column just right of the area.
    pub fn right(&self) -> (r: u16)
        ensures
            r == self.spec_right(),
    {
        self.x.saturating_add(self.width)
    }
}

/// The transport buttons, left to right.
#[derive(Debug, Clone, Copy, PartialEq, Eq, Structural)]
pub enum ControlButton {
    Prev,
    PlayPause,
    Next,
}

/// Cells between two transport buttons.
pub const CONTROL_GAP: u16 = 3;

/// The glyph a transport button draws: play while paused or stopped, pause while playing.
pub fn control_glyph(paused: bool, playing: bool, button: ControlButton) -> (r: &'static str)
    ensures
        r@ == (match button {
            ControlButton::Prev => "\u{f049}"@,
            ControlButton::PlayPause => if paused || !playing { "\u{f040a}"@ } else { "\u{f03e4}"@ },
            ControlButton::Next => "\u{f050}"@,
        }),
{
    match button {
        ControlButton::Prev => "\u{f049}",
        ControlButton::PlayPause => if paused || !playing { "\u{f040a}" } else { "\u{f03e4}" },
        ControlButton::Next => "\u{f050}",
    }
}

/// The cell of one button starting at column `x`: one cell wide where the row has room left.
pub open spec fn button_at(area: Area, x: int) -> Area {
    Area {
        x: x as u16,
        y: area.y,
        width: min(1, sat_sub(area.spec_right(), x)) as u16,
        height: min(area.height as int, 1) as u16,
    }
}

/// Where the next button starts after one at `x` that is `width` wide.
pub open spec fn next_x(area: Area, x: int, width: int) -> int {
    min(sat_add(sat_add(x, width), CONTROL_GAP as int), area.spec_right())
}

/// Where the first button starts: the row's left edge, or centred when asked and there is room.
pub open spec fn first_x(area: Area, centered: bool) -> int {
    let total = 3 + 2 * CONTROL_GAP;
    if centered && area.width > total { area.x + (area.width - total) / 2 } else { area.x as int }
}

fn button(area: Area, x: u16, right: u16) -> (r: Area)
    requires
        right == area.spec_right(),
    ensures
        r == button_at(area, x as int),
{
    let room: u16 = if right > x { right - x } else { 0 };
    Area { x, y: area.y, width: if room < 1 { room } else { 1 }, height: if area.height < 1 { area.height } else { 1 } }
}

/// Where the transport buttons land inside their row, left to right: one cell each, a gap
/// between, the row centred when the layout asks for it and has the room, and never a cell
/// past the row's right edge.
pub fn control_rects(area: Area, centered: bool) -> (r: [(ControlButton, Area); 3])
    requires
        area.x + area.width <= u16::MAX,
    ensures
        r@[0].0 == ControlButton::Prev,
        r@[1].0 == ControlButton::PlayPause,
        r@[2].0 == ControlButton::Next,
        r@[0].1 == button_at(area, first_x(area, centered)),
        r@[1].1 == button_at(area, next_x(area, r@[0].1.x as int, r@[0].1.width as int)),
        r@[2].1 == button_at(area, next_x(area, r@[1].1.x as int, r@[1].1.width as int)),
{
    let total: u16 = 3 + 2 * CONTROL_GAP;
    let right = area.right();
    let x0: u16 = if centered && area.width > total { area.x + (area.width - total) / 2 } else { area.x };
    let b0 = button(area, x0, right);
    let x1 = x0.saturating_add(b0.width).saturating_add(CONTROL_GAP);
    let x1 = if x1 < right { x1 } else { right };
    let b1 = button(area, x1, right);
    let x2 = x1.saturating_add(b1.width).saturating_add(CONTROL_GAP);
    let x2 = if x2 < right { x2 } else { right };
    let b2 = button(area, x2, right);
    [(ControlButton::Prev, b0), (ControlButton::PlayPause, b1), (ControlButton::Next, b2)]
}

/// The transport buttons never leave their row, and never overlap: each starts at or after the
/// end of the one before, a gap further on when the row has the room.
pub proof fn the_buttons_stay_in_the_row(area: Area, centered: bool)
    requires
        area.x + area.width <= u16::MAX,
    ensures
        ({
            let b0 = button_at(area, first_x(area, centered));
            let b1 = button_at(area, next_x(area, b0.x as int, b0.width as int));
            let b2 = button_at(area, next_x(area, b1.x as int, b1.width as int));
            &&& b0.spec_right() <= area.spec_right()
            &&& b1.spec_right() <= area.spec_right()
            &&& b2.spec_right() <= area.spec_right()
            &&& area.x <= b0.x
            &&& b0.x + b0.width <= b1.x
            &&& b1.x + b1.width <= b2.x
            &&& b0.height <= 1 && b1.height <= 1 && b2.height <= 1
        }),
{
}

/// The like button's glyph: filled once the song is liked.
pub fn like_icon(liked: bool) -> (r: &'static str)
    ensures
        r@ == (if liked { "\u{f004}"@ } else { "\u{f08a}"@ }),
{
    if liked { "\u{f004}" } else { "\u{f08a}" }
}

/// The cell the like button takes in a one-line song row: the row's first, when it has one.
pub fn like_rect(area: Area) -> (r: Area)
    ensures
        r == (Area { x: area.x, y: area.y, width: min(1, area.width as int) as u16, height: min(area.height as int, 1) as u16 }),
{
    Area {
        x: area.x,
        y: area.y,
        width: if area.width < 1 { area.width } else { 1 },
        height: if area.height < 1 { area.height } else { 1 },
    }
}

/// The cell of the like button in the two-line song block, which puts the liked row second; a
/// block of one row has no second line to click.
pub fn song_info_like_rect(area: Area) -> (r: Area)
    ensures
        r == (Area {
            x: area.x,
            y: sat_add(area.y as int, 1) as u16,
            width: min(1, area.width as int) as u16,
            height: if area.height > 1 { 1u16 } else { 0u16 },
        }),
{
    let second_line = Area {
        x: area.x,
        y: area.y.saturating_add(1),
        width: area.width,
        height: if area.height > 1 { 1 } else { 0 },
    };
    like_rect(second_line)
}

/// Display columns of the login form's label column, and of the caret marker before it.
pub const FORM_LABEL: u16 = 7;
pub const FORM_MARKER: u16 = 2;

/// Where the login form sits in the box: its left edge, its top row, its width, and the cells
/// a value gets between the brackets.
#[derive(Debug, Clone, Copy, PartialEq, Eq, Structural)]
pub struct FormLayout {
    pub x: u16,
    pub top: u16,
    pub width: u16,
    pub value_width: u16,
}

/// The form for `rows` input rows in `area`: at most 44 cells wide and 4 narrower than the box,
/// centred both ways, the heading on the top row and a row every other line under it.
pub open spec fn spec_form_layout(area: Area, rows: int) -> FormLayout {
    let width = min(sat_sub(area.width as int, 4), 44);
    let height = 2 + rows * 2;
    FormLayout {
        x: (area.x + sat_sub(area.width as int, width) / 2) as u16,
        top: (area.y + sat_sub(area.height as int, height) / 2) as u16,
        width: width as u16,
        value_width: sat_sub(width, (FORM_MARKER + FORM_LABEL + 4) as int) as u16,
    }
}

/// Lay the login form out in `area`.
pub fn form_layout(area: Area, rows: u16) -> (r: FormLayout)
    requires
        rows <= 32766,
        area.x + area.width <= u16::MAX,
        area.y + area.height <= u16::MAX,
    ensures
        r == spec_form_layout(area, rows as int),
        r.x + r.width <= area.x + area.width,
{
    let inner: u16 = if area.width > 4 { area.width - 4 } else { 0 };
    let width: u16 = if inner < 44 { inner } else { 44 };
    let height: u16 = 2 + rows * 2;
    let x = area.x + (area.width - width) / 2;
    let top = area.y + (if area.height > height { area.height - height } else { 0 }) / 2;
    let value_width: u16 = if width > FORM_MARKER + FORM_LABEL + 4 { width - (FORM_MARKER + FORM_LABEL + 4) } else { 0 };
    FormLayout { x, top, width, value_width }
}

/// The row of the form's `i`-th input, under the heading.
pub fn form_row_y(layout: FormLayout, i: u16) -> (r: u16)
    requires
        layout.top + 2 + i * 2 <= u16::MAX,
    ensures
        r == layout.top + 2 + i * 2,
{
    layout.top + 2 + i * 2
}

} // verus!
