//! Screen geometry: the popup that shows the session list is centred by
//! splitting the screen with ratatui's layout solver.
use vstd::prelude::*;
use ratatui::layout::{Constraint, Direction, Layout, Rect};

verus! {

/// A rectangle of terminal cells: top-left corner and size.
#[derive(Clone, Copy, Debug, PartialEq, Eq, Structural)]
pub struct Area {
    pub x: u16,
    pub y: u16,
    pub width: u16,
    pub height: u16,
}

impl View for Area {
    type V = (u16, u16, u16, u16);

    open spec fn view(&self) -> (u16, u16, u16, u16) {
        (self.x, self.y, self.width, self.height)
    }
}

/// The direction in which an area is cut into parts.
#[derive(Clone, Copy, Debug, PartialEq, Eq, Structural)]
pub enum Axis {
    /// Parts stacked from top to bottom.
    Vertical,
    /// Parts side by side from left to right.
    Horizontal,
}

/// How much of an area one part takes along the axis of the cut.
#[derive(Clone, Copy, Debug, PartialEq, Eq, Structural)]
pub enum Extent {
    /// This many per cent of the area (ratatui's `Constraint::Percentage`).
    Percent(u16),
    /// At least this many cells (`Constraint::Min`).
    AtLeast(u16),
    /// Exactly this many cells (`Constraint::Length`).
    Exactly(u16),
}

/// All parts are given in per cent.
pub open spec fn all_percent(extents: Seq<Extent>) -> bool {
    forall|i: int| 0 <= i < extents.len() ==> #[trigger] extents[i] is Percent
}

/// The sum of the percentages among the parts.
pub open spec fn percent_total(extents: Seq<Extent>) -> int
    decreases extents.len(),
{
    if extents.len() == 0 {
        0
    } else {
        percent_total(extents.drop_last()) + match extents.last() {
            Extent::Percent(p) => p as int,
            _ => 0,
        }
    }
}

/// The part `p` lies inside `area` and spans it across the axis of the cut.
pub open spec fn part_within(axis: Axis, p: (u16, u16, u16, u16), area: (u16, u16, u16, u16)) -> bool {
    match axis {
        Axis::Vertical => p.0 == area.0 && p.2 == area.2 && area.1 <= p.1 && p.1 + p.3 <= area.1
            + area.3,
        Axis::Horizontal => p.1 == area.1 && p.3 == area.3 && area.0 <= p.0 && p.0 + p.2 <= area.0
            + area.2,
    }
}

/// Where the cut starts: the top of `area` for rows, its left for columns.
pub open spec fn axis_origin(axis: Axis, area: (u16, u16, u16, u16)) -> int {
    match axis {
        Axis::Vertical => area.1 as int,
        Axis::Horizontal => area.0 as int,
    }
}

/// The length of `area` along the cut, up to the last cell of the terminal
/// (`Rect::bottom` and `Rect::right` saturate at `u16::MAX`).
pub open spec fn axis_size(axis: Axis, area: (u16, u16, u16, u16)) -> int {
    let len = match axis {
        Axis::Vertical => area.3 as int,
        Axis::Horizontal => area.2 as int,
    };
    let origin = axis_origin(axis, area);
    if origin + len > u16::MAX {
        u16::MAX - origin
    } else {
        len
    }
}

/// The cell at which the parts before it, `total` per cent of `size` cells
/// from `origin`, end: the exact position rounded to the nearest cell, halves
/// rounded up.
pub open spec fn percent_offset(origin: int, size: int, total: int) -> int {
    (100 * origin + size * total + 50) / 100
}

/// The parts given in per cent (summing to at most 100) laid out one after
/// another from the start of `area`, each spanning `area` across the cut:
/// part `i` runs from the rounded position after the percentages before it to
/// the rounded position after its own.
pub open spec fn percent_layout(axis: Axis, extents: Seq<Extent>, area: (u16, u16, u16, u16)) -> Seq<
    (u16, u16, u16, u16),
> {
    let origin = axis_origin(axis, area);
    let size = axis_size(axis, area);
    Seq::new(
        extents.len(),
        |i: int|
            {
                let start = percent_offset(origin, size, percent_total(extents.take(i)));
                let end = percent_offset(origin, size, percent_total(extents.take(i + 1)));
                match axis {
                    Axis::Vertical => (area.0, start as u16, area.2, (end - start) as u16),
                    Axis::Horizontal => (start as u16, area.1, (end - start) as u16, area.3),
                }
            },
    )
}

/// `parts` is an answer that ratatui's layout solver gives for `area` cut
/// along `axis` into `extents`; where several layouts are equally good the
/// solver, walking hash maps, may pick a different one on another call.
pub uninterp spec fn solver_layout(
    axis: Axis,
    extents: Seq<Extent>,
    area: (u16, u16, u16, u16),
    parts: Seq<(u16, u16, u16, u16)>,
) -> bool;

/// The views of a list of areas.
pub open spec fn area_views(v: Seq<Area>) -> Seq<(u16, u16, u16, u16)> {
    v.map_values(|a: Area| a@)
}

/// ratatui's `Layout::split` (default margin, spacing and flex).
///
/// Its source returns one rectangle per constraint (two solver variables per
/// constraint). Every solver variable is kept inside the area by required
/// constraints, and the rectangles are made by rounding them, so every part
/// lies inside the area and spans it across the cut. Where all parts are
/// percentages summing to at most 100, every percentage can be met with the
/// first spacer empty and the spacers between parts empty, and the solver's
/// weights (percentages `STRONG`, the growing last spacer `MEDIUM / 10`) make
/// that the only best answer: each variable is the area's start times 100 plus
/// `size * percentages before it`, which `changes_to_rects` divides by 100 and
/// rounds, halves up ([`percent_layout`]). For other extents the solver picks
/// among equally good answers by walking hash maps, so only that the result
/// is one of its answers ([`solver_layout`]) is stated. The call's `expect` is reached only when the solver refuses a
/// required constraint; those it adds (the area's bounds, each part's start
/// before its end) can always be met together.
#[verifier::external_body]
fn split_area(axis: Axis, extents: &Vec<Extent>, area: Area) -> (parts: Vec<Area>)
    ensures
        parts@.len() == extents@.len(),
        forall|i: int| 0 <= i < parts@.len() ==> part_within(axis, #[trigger] parts@[i]@, area@),
        solver_layout(axis, extents@, area@, area_views(parts@)),
        all_percent(extents@) && percent_total(extents@) <= 100 ==> area_views(parts@)
            == percent_layout(axis, extents@, area@),
{
    let direction = match axis {
        Axis::Vertical => Direction::Vertical,
        Axis::Horizontal => Direction::Horizontal,
    };
    let constraints = extents.iter().map(|e| match e {
        Extent::Percent(p) => Constraint::Percentage(*p),
        Extent::AtLeast(n) => Constraint::Min(*n),
        Extent::Exactly(n) => Constraint::Length(*n),
    });
    let rect = Rect { x: area.x, y: area.y, width: area.width, height: area.height };
    let parts = Layout::default().direction(direction).constraints(constraints).split(rect);
    parts.iter().map(|r| Area { x: r.x, y: r.y, width: r.width, height: r.height }).collect()
}

/// How the main screen is cut, top to bottom: the visualizer (35 per cent of
/// the height), the conversation (at least 5 rows), the input line and the
/// status line (3 rows each).
pub open spec fn screen_extents() -> Seq<Extent> {
    seq![Extent::Percent(35), Extent::AtLeast(5), Extent::Exactly(3), Extent::Exactly(3)]
}

/// The four panes of the main screen: the screen cut by rows into
/// [`screen_extents`], as ratatui's layout solver answers. Each lies inside
/// the screen and spans its width.
pub fn screen_panes(screen: Area) -> (panes: Vec<Area>)
    ensures
        panes@.len() == 4,
        solver_layout(Axis::Vertical, screen_extents(), screen@, area_views(panes@)),
        forall|i: int| 0 <= i < 4 ==> part_within(Axis::Vertical, #[trigger] panes@[i]@, screen@),
{
    let extents = vec![Extent::Percent(35), Extent::AtLeast(5), Extent::Exactly(3), Extent::Exactly(3)];
    assert(extents@ =~= screen_extents());
    split_area(Axis::Vertical, &extents, screen)
}

/// The three parts that centre a part of `percent` per cent.
pub open spec fn centring_extents(percent: u16) -> Seq<Extent> {
    seq![
        Extent::Percent(((100 - percent) / 2) as u16),
        Extent::Percent(percent),
        Extent::Percent(((100 - percent) / 2) as u16),
    ]
}

/// The three parts of `percent` per cent in the middle and the rest split
/// evenly around it are all percentages, summing to at most 100.
proof fn lemma_centring_is_percent(percent: u16)
    requires
        percent <= 100,
    ensures
        all_percent(centring_extents(percent)),
        percent_total(centring_extents(percent)) <= 100,
{
    let e = centring_extents(percent);
    let side = ((100 - percent) / 2) as u16;
    let e1 = seq![Extent::Percent(side)];
    let e2 = seq![Extent::Percent(side), Extent::Percent(percent)];
    assert(e1.drop_last() =~= Seq::<Extent>::empty());
    assert(percent_total(Seq::<Extent>::empty()) == 0);
    assert(percent_total(e1) == side);
    assert(e2.drop_last() =~= e1);
    assert(e.drop_last() =~= e2);
    assert(percent_total(e.drop_last().drop_last()) == side);
    assert(percent_total(e.drop_last()) == side + percent);
    assert(percent_total(e) == side + percent + side);
}

/// The area `percent_x` per cent wide and `percent_y` per cent high in the
/// middle of `r`: the middle of three rows of `(100 - percent_y) / 2`,
/// `percent_y` and `(100 - percent_y) / 2` per cent, cut into three columns
/// in the same way, each cut at the nearest cells as ratatui's layout solver
/// places them. It lies inside `r`.
pub fn centered_rect(percent_x: u16, percent_y: u16, r: Area) -> (c: Area)
    requires
        percent_x <= 100,
        percent_y <= 100,
    ensures
        c@ == percent_layout(
            Axis::Horizontal,
            centring_extents(percent_x),
            percent_layout(Axis::Vertical, centring_extents(percent_y), r@)[1],
        )[1],
        r.x <= c.x && c.x + c.width <= r.x + r.width,
        r.y <= c.y && c.y + c.height <= r.y + r.height,
{
    let side_y = (100 - percent_y) / 2;
    let rows = split_area(
        Axis::Vertical,
        &vec![Extent::Percent(side_y), Extent::Percent(percent_y), Extent::Percent(side_y)],
        r,
    );
    let side_x = (100 - percent_x) / 2;
    let middle_row = rows[1];
    let columns = split_area(
        Axis::Horizontal,
        &vec![Extent::Percent(side_x), Extent::Percent(percent_x), Extent::Percent(side_x)],
        middle_row,
    );
    proof {
        lemma_centring_is_percent(percent_y);
        lemma_centring_is_percent(percent_x);
        assert(seq![Extent::Percent(side_y), Extent::Percent(percent_y), Extent::Percent(side_y)]
            =~= centring_extents(percent_y));
        assert(seq![Extent::Percent(side_x), Extent::Percent(percent_x), Extent::Percent(side_x)]
            =~= centring_extents(percent_x));
        assert(area_views(rows@)[1] == rows@[1]@);
        assert(area_views(columns@)[1] == columns@[1]@);
        assert(part_within(Axis::Vertical, rows@[1]@, r@));
        assert(part_within(Axis::Horizontal, columns@[1]@, rows@[1]@));
    }
    columns[1]
}

} // verus!
