use vstd::prelude::*;
use ratatui::layout::{Constraint as TuiConstraint, Direction as TuiDirection, Layout, Rect};

verus! {

/// A rectangle of terminal cells.
#[derive(Clone, Copy, Debug, PartialEq, Eq, Structural)]
pub struct Area {
    pub x: u16,
    pub y: u16,
    pub width: u16,
    pub height: u16,
}

/// How much of the split length a part asks for.
#[derive(Clone, Copy, Debug, PartialEq, Eq, Structural)]
pub enum Constraint {
    /// Exactly this many cells.
    Length(u16),
    /// This share of the whole, in percent.
    Percentage(u16),
    /// At least this many cells.
    Min(u16),
}

/// The axis a layout splits along.
#[derive(Clone, Copy, Debug, PartialEq, Eq, Structural)]
pub enum Direction {
    Horizontal,
    Vertical,
}

/// Whether `part` lies inside `area`: across the split axis it spans the
/// area exactly (a horizontal split keeps the rows, a vertical one the
/// columns); along the axis it starts and ends within the area.
pub open spec fn part_within(direction: Direction, part: Area, area: Area) -> bool {
    match direction {
        Direction::Horizontal => part.y == area.y && part.height == area.height
            && area.x <= part.x && part.x + part.width <= area.x + area.width,
        Direction::Vertical => part.x == area.x && part.width == area.width
            && area.y <= part.y && part.y + part.height <= area.y + area.height,
    }
}

/// Whether `inner` lies inside `outer` on both axes.
pub open spec fn inside(inner: Area, outer: Area) -> bool {
    &&& outer.x <= inner.x && inner.x + inner.width <= outer.x + outer.width
    &&& outer.y <= inner.y && inner.y + inner.height <= outer.y + outer.height
}

/// Where an area starts along the axis a split cuts, and how long it is.
pub open spec fn axis_start(direction: Direction, a: Area) -> nat {
    match direction {
        Direction::Horizontal => a.x as nat,
        Direction::Vertical => a.y as nat,
    }
}

pub open spec fn axis_span(direction: Direction, a: Area) -> nat {
    match direction {
        Direction::Horizontal => a.width as nat,
        Direction::Vertical => a.height as nat,
    }
}

/// The size, in hundredths of a cell, that a `Length` or `Percentage`
/// constraint asks of a span (a `Min` takes what is left).
pub open spec fn asked(c: Constraint, span: nat) -> nat {
    match c {
        Constraint::Length(n) => 100 * n as nat,
        Constraint::Percentage(p) => span * p as nat,
        Constraint::Min(_) => 0,
    }
}

/// The least size a `Min` constraint allows, in hundredths of a cell.
pub open spec fn min_floor(c: Constraint) -> nat {
    match c {
        Constraint::Min(n) => 100 * n as nat,
        _ => 0,
    }
}

pub open spec fn total_asked(cs: Seq<Constraint>, span: nat) -> nat
    decreases cs.len(),
{
    if cs.len() == 0 { 0 } else { total_asked(cs.drop_last(), span) + asked(cs.last(), span) }
}

pub open spec fn total_floor(cs: Seq<Constraint>) -> nat
    decreases cs.len(),
{
    if cs.len() == 0 { 0 } else { total_floor(cs.drop_last()) + min_floor(cs.last()) }
}

pub open spec fn min_count(cs: Seq<Constraint>) -> nat
    decreases cs.len(),
{
    if cs.len() == 0 { 0 } else { min_count(cs.drop_last()) + if cs.last() is Min { 1nat } else { 0nat } }
}

/// Whether a split can meet all its constraints at once: at most one `Min`,
/// and the sizes asked for, with that `Min`'s least size, fit the span.
pub open spec fn settled(cs: Seq<Constraint>, span: nat) -> bool {
    min_count(cs) <= 1 && total_asked(cs, span) + total_floor(cs) <= 100 * span
}

/// The size part `i` gets in a settled split, in hundredths of a cell: what
/// it asks for, or, for the `Min`, all that the others leave.
pub open spec fn planned(cs: Seq<Constraint>, span: nat, i: int) -> nat {
    if cs[i] is Min { (100 * span - total_asked(cs, span)) as nat } else { asked(cs[i], span) }
}

/// Where part `i` starts in a settled split, in hundredths of a cell from
/// the start: the parts lie back to back.
pub open spec fn planned_offset(cs: Seq<Constraint>, span: nat, i: nat) -> nat
    decreases i,
{
    if i == 0 { 0 } else { planned_offset(cs, span, (i - 1) as nat) + planned(cs, span, i - 1) }
}

/// A position given in hundredths of a cell from `start`, rounded to the
/// nearest cell (halves up).
pub open spec fn cell_edge(start: nat, hundredths: nat) -> nat {
    start + (hundredths + 50) / 100
}

/// `ratatui::layout::Layout::split` (default layout: no margin, no
/// spacing, parts packed from the start): cuts `area` along `direction`
/// into one part per constraint. Claimed:
/// - one part per constraint, each inside the area (every part takes the
///   area's cross-axis position and size, and the solver keeps every edge
///   between the area's ends, each part's end not before its start, as
///   required constraints);
/// - when the constraints can all be met at once (`settled`) and the area
///   ends within the `u16` range, each part has its asked size (the `Min`
///   part taking what the others leave) and the parts lie back to back from
///   the start, edges rounded to the nearest cell. The solver weighs the
///   sizes asked for above every growth and spacing wish, so their exact
///   solution is its unique optimum.
/// Otherwise where the parts fall is left to the solver: two calls need not
/// agree.
#[verifier::external_body]
fn split(direction: Direction, constraints: &Vec<Constraint>, area: Area) -> (parts: Vec<Area>)
    ensures
        parts@.len() == constraints@.len(),
        forall|i: int| 0 <= i < parts@.len() ==> part_within(direction, #[trigger] parts@[i], area),
        settled(constraints@, axis_span(direction, area)) && axis_start(direction, area) + axis_span(direction, area) <= u16::MAX
            ==> forall|i: int| 0 <= i < parts@.len() ==> {
                &&& axis_start(direction, #[trigger] parts@[i])
                    == cell_edge(axis_start(direction, area), planned_offset(constraints@, axis_span(direction, area), i as nat))
                &&& axis_start(direction, parts@[i]) + axis_span(direction, parts@[i])
                    == cell_edge(axis_start(direction, area), planned_offset(constraints@, axis_span(direction, area), (i + 1) as nat))
            },
{
    let d = match direction {
        Direction::Horizontal => TuiDirection::Horizontal,
        Direction::Vertical => TuiDirection::Vertical,
    };
    let cs = constraints.iter().map(|c| match *c {
        Constraint::Length(n) => TuiConstraint::Length(n),
        Constraint::Percentage(n) => TuiConstraint::Percentage(n),
        Constraint::Min(n) => TuiConstraint::Min(n),
    });
    let rect = Rect { x: area.x, y: area.y, width: area.width, height: area.height };
    let parts = Layout::default().direction(d).constraints(cs).split(rect);
    parts.iter().map(|r| Area { x: r.x, y: r.y, width: r.width, height: r.height }).collect()
}

proof fn lemma_two_parts(c0: Constraint, c1: Constraint, span: nat)
    ensures
        ({
            let cs = seq![c0, c1];
            &&& total_asked(cs, span) == asked(c0, span) + asked(c1, span)
            &&& total_floor(cs) == min_floor(c0) + min_floor(c1)
            &&& min_count(cs) == (if c0 is Min { 1nat } else { 0nat }) + (if c1 is Min { 1nat } else { 0nat })
            &&& planned_offset(cs, span, 1) == planned(cs, span, 0)
            &&& planned_offset(cs, span, 2) == planned(cs, span, 0) + planned(cs, span, 1)
        }),
{
    let cs = seq![c0, c1];
    let c1s = seq![c0];
    let e = Seq::<Constraint>::empty();
    assert(cs.drop_last() =~= c1s);
    assert(c1s.drop_last() =~= e);
    assert(cs.last() == c1 && c1s.last() == c0);
    assert(total_asked(c1s, span) == total_asked(e, span) + asked(c0, span));
    assert(total_asked(cs, span) == total_asked(c1s, span) + asked(c1, span));
    assert(total_floor(c1s) == total_floor(e) + min_floor(c0));
    assert(total_floor(cs) == total_floor(c1s) + min_floor(c1));
    assert(min_count(c1s) == min_count(e) + if c0 is Min { 1nat } else { 0nat });
    assert(min_count(cs) == min_count(c1s) + if c1 is Min { 1nat } else { 0nat });
    assert(planned_offset(cs, span, 0) == 0);
    assert(planned_offset(cs, span, 1) == planned_offset(cs, span, 0) + planned(cs, span, 0));
    assert(planned_offset(cs, span, 2) == planned_offset(cs, span, 1) + planned(cs, span, 1));
}

proof fn lemma_three_parts(c0: Constraint, c1: Constraint, c2: Constraint, span: nat)
    ensures
        ({
            let cs = seq![c0, c1, c2];
            &&& total_asked(cs, span) == asked(c0, span) + asked(c1, span) + asked(c2, span)
            &&& total_floor(cs) == min_floor(c0) + min_floor(c1) + min_floor(c2)
            &&& min_count(cs) == (if c0 is Min { 1nat } else { 0nat }) + (if c1 is Min { 1nat } else { 0nat })
                + (if c2 is Min { 1nat } else { 0nat })
            &&& planned_offset(cs, span, 1) == planned(cs, span, 0)
            &&& planned_offset(cs, span, 2) == planned(cs, span, 0) + planned(cs, span, 1)
        }),
{
    let cs = seq![c0, c1, c2];
    let c2s = seq![c0, c1];
    let c1s = seq![c0];
    let e = Seq::<Constraint>::empty();
    assert(cs.drop_last() =~= c2s);
    assert(c2s.drop_last() =~= c1s);
    assert(c1s.drop_last() =~= e);
    assert(cs.last() == c2 && c2s.last() == c1 && c1s.last() == c0);
    assert(total_asked(c1s, span) == total_asked(e, span) + asked(c0, span));
    assert(total_asked(c2s, span) == total_asked(c1s, span) + asked(c1, span));
    assert(total_asked(cs, span) == total_asked(c2s, span) + asked(c2, span));
    assert(total_floor(c1s) == total_floor(e) + min_floor(c0));
    assert(total_floor(c2s) == total_floor(c1s) + min_floor(c1));
    assert(total_floor(cs) == total_floor(c2s) + min_floor(c2));
    assert(min_count(c1s) == min_count(e) + if c0 is Min { 1nat } else { 0nat });
    assert(min_count(c2s) == min_count(c1s) + if c1 is Min { 1nat } else { 0nat });
    assert(min_count(cs) == min_count(c2s) + if c2 is Min { 1nat } else { 0nat });
    assert(planned_offset(cs, span, 0) == 0);
    assert(planned_offset(cs, span, 1) == planned_offset(cs, span, 0) + planned(cs, span, 0));
    assert(planned_offset(cs, span, 2) == planned_offset(cs, span, 1) + planned(cs, span, 1));
}

/// A box of `percent_x` by `percent_y` percent of `area`, centred in it:
/// the middle of three rows, then the middle of three columns, as ratatui's
/// layout places them. Inside the `u16` range the box starts after a margin
/// of `(100 - percent) / 2` percent on each axis and spans `percent` percent,
/// its edges rounded to the nearest cell.
pub fn centered_rect(percent_x: u16, percent_y: u16, area: Area) -> (r: Area)
    requires
        percent_x <= 100,
        percent_y <= 100,
    ensures
        inside(r, area),
        area.x + area.width <= u16::MAX && area.y + area.height <= u16::MAX ==> {
            let mx = (100 - percent_x) / 2;
            let my = (100 - percent_y) / 2;
            &&& r.y == area.y + (area.height * my + 50) / 100
            &&& r.y + r.height == area.y + (area.height * (my + percent_y) + 50) / 100
            &&& r.x == area.x + (area.width * mx + 50) / 100
            &&& r.x + r.width == area.x + (area.width * (mx + percent_x) + 50) / 100
        },
{
    let margin_y: u16 = (100 - percent_y) / 2;
    let vertical = vec![
        Constraint::Percentage(margin_y),
        Constraint::Percentage(percent_y),
        Constraint::Percentage(margin_y),
    ];
    let rows = split(Direction::Vertical, &vertical, area);
    let margin_x: u16 = (100 - percent_x) / 2;
    let horizontal = vec![
        Constraint::Percentage(margin_x),
        Constraint::Percentage(percent_x),
        Constraint::Percentage(margin_x),
    ];
    let cols = split(Direction::Horizontal, &horizontal, rows[1]);
    proof {
        let (h, w) = (area.height as nat, area.width as nat);
        assert(vertical@ =~= seq![Constraint::Percentage(margin_y), Constraint::Percentage(percent_y), Constraint::Percentage(margin_y)]);
        assert(horizontal@ =~= seq![Constraint::Percentage(margin_x), Constraint::Percentage(percent_x), Constraint::Percentage(margin_x)]);
        lemma_three_parts(Constraint::Percentage(margin_y), Constraint::Percentage(percent_y), Constraint::Percentage(margin_y), h);
        lemma_three_parts(Constraint::Percentage(margin_x), Constraint::Percentage(percent_x), Constraint::Percentage(margin_x), w);
        assert(h * margin_y + h * percent_y + h * margin_y <= 100 * h) by (nonlinear_arith)
            requires 2 * margin_y + percent_y <= 100;
        assert(w * margin_x + w * percent_x + w * margin_x <= 100 * w) by (nonlinear_arith)
            requires 2 * margin_x + percent_x <= 100;
        assert(h * margin_y + h * percent_y == h * (margin_y + percent_y)) by (nonlinear_arith);
        assert(w * margin_x + w * percent_x == w * (margin_x + percent_x)) by (nonlinear_arith);
        assert(area.height * margin_y == h * margin_y);
        assert(area.width * margin_x == w * margin_x);
        assert(part_within(Direction::Vertical, rows[1], area));
        assert(part_within(Direction::Horizontal, cols[1], rows[1]));
    }
    cols[1]
}

/// A box of `width` by `height` cells in the bottom right corner of `area`:
/// the last of two rows, then the last of two columns, as ratatui's layout
/// places them.
pub fn bottom_right_fixed_size(width: u16, height: u16, area: Area) -> (r: Area)
    requires
        width <= area.width,
        height <= area.height,
    ensures
        inside(r, area),
        area.x + area.width <= u16::MAX && area.y + area.height <= u16::MAX ==> r == (Area {
            x: (area.x + area.width - width) as u16,
            y: (area.y + area.height - height) as u16,
            width,
            height,
        }),
{
    let col = area.width - width;
    let row = area.height - height;
    let vertical = vec![Constraint::Length(row), Constraint::Length(height)];
    let rows = split(Direction::Vertical, &vertical, area);
    let horizontal = vec![Constraint::Length(col), Constraint::Length(width)];
    let cols = split(Direction::Horizontal, &horizontal, rows[1]);
    proof {
        assert(vertical@ =~= seq![Constraint::Length(row), Constraint::Length(height)]);
        assert(horizontal@ =~= seq![Constraint::Length(col), Constraint::Length(width)]);
        lemma_two_parts(Constraint::Length(row), Constraint::Length(height), area.height as nat);
        lemma_two_parts(Constraint::Length(col), Constraint::Length(width), area.width as nat);
        assert(part_within(Direction::Vertical, rows[1], area));
        assert(part_within(Direction::Horizontal, cols[1], rows[1]));
    }
    cols[1]
}

/// A box of `width` by `height` cells centred in `area`: the middle of
/// three rows, then the middle of three columns, as ratatui's layout places
/// them (an odd margin leaves its extra cell after the box).
pub fn centered_fixed_size_rect(width: u16, height: u16, area: Area) -> (r: Area)
    requires
        width <= area.width,
        height <= area.height,
    ensures
        inside(r, area),
        area.x + area.width <= u16::MAX && area.y + area.height <= u16::MAX ==> r == (Area {
            x: (area.x + (area.width - width) / 2) as u16,
            y: (area.y + (area.height - height) / 2) as u16,
            width,
            height,
        }),
{
    let col = (area.width - width) / 2;
    let row = (area.height - height) / 2;
    let vertical = vec![Constraint::Length(row), Constraint::Length(height), Constraint::Length(row)];
    let rows = split(Direction::Vertical, &vertical, area);
    let horizontal = vec![Constraint::Length(col), Constraint::Length(width), Constraint::Length(col)];
    let cols = split(Direction::Horizontal, &horizontal, rows[1]);
    proof {
        assert(vertical@ =~= seq![Constraint::Length(row), Constraint::Length(height), Constraint::Length(row)]);
        assert(horizontal@ =~= seq![Constraint::Length(col), Constraint::Length(width), Constraint::Length(col)]);
        lemma_three_parts(Constraint::Length(row), Constraint::Length(height), Constraint::Length(row), area.height as nat);
        lemma_three_parts(Constraint::Length(col), Constraint::Length(width), Constraint::Length(col), area.width as nat);
        assert(part_within(Direction::Vertical, rows[1], area));
        assert(part_within(Direction::Horizontal, cols[1], rows[1]));
    }
    cols[1]
}

/// Height of the now-playing panel under the playlist.
pub const NOW_PLAYING_HEIGHT: u16 = 9;

/// Where the playlist screen draws its parts.
#[derive(Clone, Copy, Debug, PartialEq, Eq, Structural)]
pub struct PlaylistAreas {
    pub table: Area,
    pub scrollbar: Area,
    pub now_playing: Area,
    pub status_line: Area,
}

/// The playlist screen: the table with its scrollbar on top (everything but
/// the bottom ten rows, split into the table and a one-cell scrollbar
/// column at the right edge), the now-playing panel under it, and the
/// bottom row cleared.
pub fn playlist_areas(area: Area) -> (r: PlaylistAreas)
    requires
        area.height >= NOW_PLAYING_HEIGHT + 1,
        area.y + area.height <= u16::MAX,
    ensures
        ({
            let top = Area { x: area.x, y: area.y, width: area.width, height: (area.height - 10) as u16 };
            part_within(Direction::Horizontal, r.table, top) && part_within(Direction::Horizontal, r.scrollbar, top)
        }),
        area.width >= 1 && area.x + area.width <= u16::MAX ==> {
            &&& r.table == (Area { x: area.x, y: area.y, width: (area.width - 1) as u16, height: (area.height - 10) as u16 })
            &&& r.scrollbar == (Area { x: (area.x + area.width - 1) as u16, y: area.y, width: 1, height: (area.height - 10) as u16 })
        },
        r.now_playing == (Area { x: area.x, y: (area.y + area.height - 10) as u16, width: area.width, height: 9 }),
        r.status_line == (Area { x: area.x, y: (area.y + area.height - 1) as u16, width: area.width, height: 1 }),
{
    let top = Area { x: area.x, y: area.y, width: area.width, height: area.height - (NOW_PLAYING_HEIGHT + 1) };
    let cs = vec![Constraint::Min(0), Constraint::Length(1)];
    let parts = split(Direction::Horizontal, &cs, top);
    proof {
        assert(cs@ =~= seq![Constraint::Min(0), Constraint::Length(1)]);
        lemma_two_parts(Constraint::Min(0), Constraint::Length(1), top.width as nat);
        assert(part_within(Direction::Horizontal, parts[0], top));
        assert(part_within(Direction::Horizontal, parts[1], top));
    }
    PlaylistAreas {
        table: parts[0],
        scrollbar: parts[1],
        now_playing: Area {
            x: area.x,
            y: area.y + area.height - (NOW_PLAYING_HEIGHT + 1),
            width: area.width,
            height: NOW_PLAYING_HEIGHT,
        },
        status_line: Area { x: area.x, y: area.y + area.height - 1, width: area.width, height: 1 },
    }
}

/// The width of the cover picture beside the track details: twice the
/// panel's height (terminal cells are about twice as tall as wide), at most
/// a third of its width.
pub fn cover_width(inner: Area) -> (w: u16)
    requires
        inner.height * 2 <= u16::MAX,
    ensures
        w == if inner.height * 2 < inner.width / 3 { inner.height * 2 } else { (inner.width / 3) as int },
{
    let h = inner.height * 2;
    let third = inner.width / 3;
    if h < third { h } else { third }
}

/// The now-playing panel with a cover: the picture on the left, as wide as
/// `cover_width`, and the text right after it in the rest.
pub fn cover_and_text_areas(inner: Area) -> (r: (Area, Area))
    requires
        inner.height * 2 <= u16::MAX,
    ensures
        part_within(Direction::Horizontal, r.0, inner),
        part_within(Direction::Horizontal, r.1, inner),
        inner.width >= 1 && inner.x + inner.width <= u16::MAX ==> {
            let w = if inner.height * 2 < inner.width / 3 { inner.height * 2 } else { (inner.width / 3) as int };
            &&& r.0 == (Area { x: inner.x, y: inner.y, width: w as u16, height: inner.height })
            &&& r.1 == (Area { x: (inner.x + w) as u16, y: inner.y, width: (inner.width - w) as u16, height: inner.height })
        },
{
    let w = cover_width(inner);
    let cs = vec![Constraint::Length(w), Constraint::Min(1)];
    let parts = split(Direction::Horizontal, &cs, inner);
    proof {
        assert(cs@ =~= seq![Constraint::Length(w), Constraint::Min(1)]);
        lemma_two_parts(Constraint::Length(w), Constraint::Min(1), inner.width as nat);
        assert(part_within(Direction::Horizontal, parts[0], inner));
        assert(part_within(Direction::Horizontal, parts[1], inner));
    }
    (parts[0], parts[1])
}

/// The track details over all but the last row, the progress bar on the
/// last row.
pub fn text_and_progress_areas(area: Area) -> (r: (Area, Area))
    requires
        area.y + (if area.height > 0 { area.height - 1 } else { 0 }) <= u16::MAX,
    ensures
        r.0 == (Area { x: area.x, y: area.y, width: area.width, height: if area.height > 0 { (area.height - 1) as u16 } else { 0 } }),
        r.1 == (Area { x: area.x, y: (area.y + if area.height > 0 { area.height - 1 } else { 0 }) as u16, width: area.width, height: 1 }),
{
    let h: u16 = if area.height > 0 { area.height - 1 } else { 0 };
    (
        Area { x: area.x, y: area.y, width: area.width, height: h },
        Area { x: area.x, y: area.y + h, width: area.width, height: 1 },
    )
}

} // verus!
