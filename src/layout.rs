use vstd::prelude::*;
use crate::app::{App, AppState};
use ratatui::layout::{Constraint as RatConstraint, Direction as RatDirection, Layout as RatLayout, Rect as RatRect};

verus! {

/// A rectangle of terminal cells.
#[derive(Clone, Copy, Debug, PartialEq, Eq, Structural)]
pub struct Rect {
    pub x: u16,
    pub y: u16,
    pub width: u16,
    pub height: u16,
}

/// The axis along which an area is cut.
#[derive(Clone, Copy, Debug, PartialEq, Eq, Structural)]
pub enum Direction {
    Horizontal,
    Vertical,
}

/// What one part of a cut asks for along the axis.
#[derive(Clone, Copy, Debug, PartialEq, Eq, Structural)]
pub enum Constraint {
    Length(u16),
    Min(u16),
    Percentage(u16),
}

/// A part of a cut keeps the area's extent across the axis: a row of a
/// vertical cut spans the area's columns, a column of a horizontal cut spans
/// its rows.
pub open spec fn keeps_cross_axis(part: Rect, area: Rect, direction: Direction) -> bool {
    match direction {
        Direction::Vertical => part.x == area.x && part.width == area.width,
        Direction::Horizontal => part.y == area.y && part.height == area.height,
    }
}

/// The two equal halves of the split body.
pub open spec fn halves_spec() -> Seq<Constraint> {
    seq![Constraint::Percentage(50), Constraint::Percentage(50)]
}

/// `left` and `right` lie side by side from the left edge of `area`, with
/// widths that differ by at most one.
pub open spec fn side_by_side_halves(left: Rect, right: Rect, area: Rect) -> bool {
    &&& left.x == area.x
    &&& right.x == left.x + left.width
    &&& left.width <= right.width + 1
    &&& right.width <= left.width + 1
}

/// The rows of the screen, top to bottom: title bar, banner, splits header,
/// body, help bar.
pub open spec fn rows_spec() -> Seq<Constraint> {
    seq![
        Constraint::Length(2),
        Constraint::Length(8),
        Constraint::Length(1),
        Constraint::Min(0),
        Constraint::Length(1),
    ]
}

/// The title bar's columns: the title, then the status line.
pub open spec fn title_columns_spec() -> Seq<Constraint> {
    seq![Constraint::Length(20), Constraint::Min(0)]
}

/// The row starts and heights of the screen's rows: 2, 8 and 1 rows from
/// the top, the rest to the body, and the last row to the help bar.
pub open spec fn rows_exact(r: Seq<Rect>, area: Rect) -> bool {
    &&& r[0].y == area.y && r[0].height == 2
    &&& r[1].y == area.y + 2 && r[1].height == 8
    &&& r[2].y == area.y + 10 && r[2].height == 1
    &&& r[3].y == area.y + 11 && r[3].height == area.height - 12
    &&& r[4].y == area.y + area.height - 1 && r[4].height == 1
}

/// The column starts and widths of the title bar: 20 columns of title, the
/// rest to the status line.
pub open spec fn title_columns_exact(r: Seq<Rect>, area: Rect) -> bool {
    &&& r[0].x == area.x && r[0].width == 20
    &&& r[1].x == area.x + 20 && r[1].width == area.width - 20
}

/// Relies on `ratatui::layout::Layout::split` with the default layout (no
/// margin; the first part starts at the near edge, the last ends at the far
/// edge, clamped to `u16`, and each ends where the next starts): one part
/// per constraint, each keeping the area's position and extent across the
/// axis. Where every `Length` fits beside the `Min(0)` part, the unique
/// optimum meets each `Length` (strong) and leaves the rest to `Min(0)`
/// (medium). Two `Percentage(50)` columns are the unique optimum at half the
/// span each, ends rounded to whole cells.
#[verifier::external_body]
fn split(area: Rect, direction: Direction, constraints: &Vec<Constraint>) -> (r: Vec<Rect>)
    ensures
        r@.len() == constraints@.len(),
        forall|i: int| 0 <= i < r@.len() ==> keeps_cross_axis(#[trigger] r@[i], area, direction),
        (direction == Direction::Vertical && constraints@ == rows_spec() && area.height >= 12
            && area.y + area.height <= u16::MAX) ==> rows_exact(r@, area),
        (direction == Direction::Horizontal && constraints@ == title_columns_spec() && area.width >= 20
            && area.x + area.width <= u16::MAX) ==> title_columns_exact(r@, area),
        (direction == Direction::Horizontal && constraints@ == halves_spec()) ==> side_by_side_halves(
            r@[0],
            r@[1],
            area,
        ),
        (direction == Direction::Horizontal && constraints@ == halves_spec() && area.x + area.width
            <= u16::MAX) ==> r@[0].width + r@[1].width == area.width,
{
    let cs: Vec<RatConstraint> = constraints.iter().map(|c| match *c {
        Constraint::Length(n) => RatConstraint::Length(n),
        Constraint::Min(n) => RatConstraint::Min(n),
        Constraint::Percentage(n) => RatConstraint::Percentage(n),
    }).collect();
    let d = match direction {
        Direction::Horizontal => RatDirection::Horizontal,
        Direction::Vertical => RatDirection::Vertical,
    };
    let a = RatRect { x: area.x, y: area.y, width: area.width, height: area.height };
    let parts = RatLayout::default().direction(d).constraints(cs).split(a);
    parts.iter().map(|p| Rect { x: p.x, y: p.y, width: p.width, height: p.height }).collect()
}

/// The number of regions for a mode.
pub open spec fn region_count(state: AppState) -> nat {
    if state == AppState::Split { 7 } else { 6 }
}

/// A region that spans the screen's columns.
pub open spec fn full_row(part: Rect, area: Rect) -> bool {
    part.x == area.x && part.width == area.width
}

/// `part` has the given position and size.
pub open spec fn placed(part: Rect, x: int, y: int, width: int, height: int) -> bool {
    part.x == x && part.y == y && part.width == width && part.height == height
}

/// A screen large enough for every fixed row and for the title, whose far
/// edges fit in cell coordinates.
pub open spec fn roomy(area: Rect) -> bool {
    &&& area.height >= 12
    &&& area.width >= 20
    &&& area.x + area.width <= u16::MAX
    &&& area.y + area.height <= u16::MAX
}

/// Which region each part of the screen is painted into.
#[derive(Clone, Copy, Debug, PartialEq, Eq)]
pub struct Regions {
    pub title: usize,
    pub status: usize,
    pub banner: usize,
    /// The "Splits" block, shown in `Split` only.
    pub splits: Option<usize>,
    pub page: usize,
    pub help: usize,
}

impl App {
    /// Cuts the screen into its regions for the current mode. Outside
    /// `Split`: title, status, banner, splits header, body, help. In
    /// `Split`: title, status, banner, the two halves of the body, the whole
    /// body, help. On a screen with room for the fixed rows, the title is 20
    /// columns by 2 rows, the banner 8 rows, the splits header 1 row, the help
    /// bar the last row, and the body the rows between.
    pub fn layout(&self, area: Rect) -> (r: Vec<Rect>)
        ensures
            r@.len() == region_count(self.state),
            r@[0].y == r@[1].y && r@[0].height == r@[1].height,
            forall|i: int| 2 <= i < r@.len() && (self.state != AppState::Split || i >= 5)
                ==> full_row(#[trigger] r@[i], area),
            self.state == AppState::Split ==> {
                &&& r@[3].y == r@[5].y && r@[3].height == r@[5].height
                &&& r@[4].y == r@[5].y && r@[4].height == r@[5].height
                &&& side_by_side_halves(r@[3], r@[4], r@[5])
                &&& (area.x + area.width <= u16::MAX ==> r@[3].width + r@[4].width == r@[5].width)
            },
            roomy(area) ==> {
                let (x, y, w, h) = (area.x as int, area.y as int, area.width as int, area.height as int);
                &&& placed(r@[0], x, y, 20, 2)
                &&& placed(r@[1], x + 20, y, w - 20, 2)
                &&& placed(r@[2], x, y + 2, w, 8)
                &&& placed(r@[r@.len() - 1], x, y + h - 1, w, 1)
                &&& self.state != AppState::Split ==> placed(r@[3], x, y + 10, w, 1) && placed(
                    r@[4],
                    x,
                    y + 11,
                    w,
                    h - 12,
                )
                &&& self.state == AppState::Split ==> placed(r@[5], x, y + 11, w, h - 12)
            },
    {
        let rows_c = vec![
            Constraint::Length(2),
            Constraint::Length(8),
            Constraint::Length(1),
            Constraint::Min(0),
            Constraint::Length(1),
        ];
        assert(rows_c@ =~= rows_spec());
        let rows = split(area, Direction::Vertical, &rows_c);
        assert(keeps_cross_axis(rows@[0], area, Direction::Vertical));
        assert(keeps_cross_axis(rows@[1], area, Direction::Vertical));
        assert(keeps_cross_axis(rows@[2], area, Direction::Vertical));
        assert(keeps_cross_axis(rows@[3], area, Direction::Vertical));
        assert(keeps_cross_axis(rows@[4], area, Direction::Vertical));
        let top_c = vec![Constraint::Length(20), Constraint::Min(0)];
        assert(top_c@ =~= title_columns_spec());
        let top = split(rows[0], Direction::Horizontal, &top_c);
        assert(keeps_cross_axis(top@[0], rows@[0], Direction::Horizontal));
        assert(keeps_cross_axis(top@[1], rows@[0], Direction::Horizontal));
        if self.state == AppState::Split {
            let halves_c = vec![Constraint::Percentage(50), Constraint::Percentage(50)];
            assert(halves_c@ =~= halves_spec());
            let halves = split(rows[3], Direction::Horizontal, &halves_c);
            assert(keeps_cross_axis(halves@[0], rows@[3], Direction::Horizontal));
            assert(keeps_cross_axis(halves@[1], rows@[3], Direction::Horizontal));
            vec![top[0], top[1], rows[1], halves[0], halves[1], rows[3], rows[4]]
        } else {
            vec![top[0], top[1], rows[1], rows[2], rows[3], rows[4]]
        }
    }

    /// Which region of `layout` each part of the screen goes to. Outside
    /// `Split` the body holds the page and the splits header stays empty; in
    /// `Split` the left half holds the "Splits" block, the right half the
    /// page, and the help bar moves to the last region.
    pub fn regions(&self) -> (r: Regions)
        ensures
            r.title == 0 && r.status == 1 && r.banner == 2 && r.page == 4,
            self.state == AppState::Split ==> r.splits == Some(3usize) && r.help == 6,
            self.state != AppState::Split ==> r.splits.is_none() && r.help == 5,
            r.help + 1 == region_count(self.state),
    {
        if self.state == AppState::Split {
            Regions { title: 0, status: 1, banner: 2, splits: Some(3), page: 4, help: 6 }
        } else {
            Regions { title: 0, status: 1, banner: 2, splits: None, page: 4, help: 5 }
        }
    }
}

} // verus!
