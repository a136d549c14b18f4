//! Rectangles of the screen and how they are divided.

use ratatui::layout::{Layout, Rect};
use vstd::prelude::*;

verus! {

/// A rectangle of character cells.
#[derive(Debug, Clone, Copy, PartialEq, Eq, Structural)]
pub struct Area {
    pub x: u16,
    pub y: u16,
    pub width: u16,
    pub height: u16,
}

/// Along which axis a rectangle is divided.
#[derive(Debug, Clone, Copy, PartialEq, Eq, Structural)]
pub enum Direction {
    Horizontal,
    Vertical,
}

/// The size that a part of a rectangle, or a column of a table, should have.
#[derive(Debug, Clone, Copy, PartialEq, Eq, Structural)]
pub enum Constraint {
    /// So many cells.
    Length(u16),
    /// At least so many cells.
    Min(u16),
    /// So many hundredths of the whole.
    Percentage(u16),
}

/// Whether `parts` is a division of `area` that `ratatui` makes under the given
/// constraints. This relates a call to what it may return: the solver behind it
/// walks hash maps, so that nothing says that two calls agree.
pub uninterp spec fn may_divide(
    direction: Direction,
    constraints: Seq<Constraint>,
    area: Area,
    parts: Seq<Area>,
) -> bool;

/// Whether a part of `area` is as wide, or as high, as the area across the axis
/// along which it was divided.
pub open spec fn spans(direction: Direction, area: Area, part: Area) -> bool {
    match direction {
        Direction::Horizontal => part.y == area.y && part.height == area.height,
        Direction::Vertical => part.x == area.x && part.width == area.width,
    }
}

/// Whether `inner` lies inside `outer`.
pub open spec fn lies_in(outer: Area, inner: Area) -> bool {
    &&& outer.x <= inner.x
    &&& inner.x + inner.width <= outer.x + outer.width
    &&& outer.y <= inner.y
    &&& inner.y + inner.height <= outer.y + outer.height
}

/// Whether one area ends, along the given axis, no later than another begins.
pub open spec fn precedes(direction: Direction, first: Area, second: Area) -> bool {
    match direction {
        Direction::Horizontal => first.x + first.width <= second.x,
        Direction::Vertical => first.y + first.height <= second.y,
    }
}

/// Where an area begins along the given axis.
pub open spec fn start(direction: Direction, area: Area) -> int {
    match direction {
        Direction::Horizontal => area.x as int,
        Direction::Vertical => area.y as int,
    }
}

/// How many cells long an area is along the given axis.
pub open spec fn size(direction: Direction, area: Area) -> int {
    match direction {
        Direction::Horizontal => area.width as int,
        Direction::Vertical => area.height as int,
    }
}

/// How many cells of an area there are to divide along the given axis: all of them,
/// but for those beyond the largest coordinate.
pub open spec fn room(direction: Direction, area: Area) -> int {
    if start(direction, area) + size(direction, area) <= u16::MAX {
        size(direction, area)
    } else {
        u16::MAX - start(direction, area)
    }
}

/// The number in a constraint.
pub open spec fn amount(constraint: Constraint) -> int {
    match constraint {
        Constraint::Length(n) => n as int,
        Constraint::Min(n) => n as int,
        Constraint::Percentage(n) => n as int,
    }
}

/// The sum of the numbers in the first `count` constraints.
pub open spec fn amounts(constraints: Seq<Constraint>, count: int) -> int
    decreases count,
{
    if count <= 0 {
        0
    } else {
        amounts(constraints, count - 1) + amount(constraints[count - 1])
    }
}

/// So many hundredths of `whole`, to the nearest cell; a half counts as a whole one.
pub open spec fn share(percent: int, whole: int) -> int {
    (percent * whole + 50) / 100
}

/// Whether the constraints are percentages of which none has to give way.
pub open spec fn percentages_fit(constraints: Seq<Constraint>) -> bool {
    &&& forall|i: int| 0 <= i < constraints.len() ==> #[trigger] constraints[i] is Percentage
    &&& amounts(constraints, constraints.len() as int) <= 100
}

/// Whether the constraints are lengths and one least length of which none has to
/// give way where there are `whole` cells.
pub open spec fn lengths_fit(constraints: Seq<Constraint>, whole: int) -> bool {
    &&& exists|m: int|
        {
            &&& 0 <= m < constraints.len()
            &&& #[trigger] constraints[m] is Min
            &&& forall|i: int|
                0 <= i < constraints.len() && i != m ==> #[trigger] constraints[i] is Length
        }
    &&& amounts(constraints, constraints.len() as int) <= whole
}

/// Whether every part lies between the cells nearest to the hundredths of `area`
/// that come before it and to those that it ends with.
pub open spec fn take_shares(
    direction: Direction,
    constraints: Seq<Constraint>,
    area: Area,
    parts: Seq<Area>,
) -> bool {
    forall|i: int|
        0 <= i < parts.len() ==> {
            &&& start(direction, #[trigger] parts[i]) == start(direction, area) + share(
                amounts(constraints, i),
                room(direction, area),
            )
            &&& start(direction, parts[i]) + size(direction, parts[i]) == start(direction, area)
                + share(amounts(constraints, i + 1), room(direction, area))
        }
}

/// Whether every part with a length has that length and the parts fill `area` without
/// a gap, so that the one with a least length takes what the others leave.
pub open spec fn take_lengths(
    direction: Direction,
    constraints: Seq<Constraint>,
    area: Area,
    parts: Seq<Area>,
) -> bool {
    &&& forall|i: int|
        0 <= i < parts.len() && constraints[i] is Length ==> size(direction, #[trigger] parts[i])
            == amount(constraints[i])
    &&& start(direction, parts[0]) == start(direction, area)
    &&& forall|i: int, j: int|
        0 <= i && j == i + 1 && j < parts.len() ==> start(direction, #[trigger] parts[j]) == start(
            direction,
            #[trigger] parts[i],
        ) + size(direction, parts[i])
    &&& start(direction, parts.last()) + size(direction, parts.last()) == start(direction, area)
        + room(direction, area)
}

/// Whether `parts` divides `area` under the given constraints: one part for each
/// constraint, inside the area and spanning it, one after the other, and of the
/// sizes asked for where none of them has to give way.
pub open spec fn divides(
    direction: Direction,
    constraints: Seq<Constraint>,
    area: Area,
    parts: Seq<Area>,
) -> bool {
    &&& may_divide(direction, constraints, area, parts)
    &&& parts.len() == constraints.len()
    &&& forall|i: int| 0 <= i < parts.len() ==> spans(direction, area, #[trigger] parts[i])
    &&& forall|i: int| 0 <= i < parts.len() ==> lies_in(area, #[trigger] parts[i])
    &&& forall|i: int, j: int|
        0 <= i < j < parts.len() ==> precedes(direction, #[trigger] parts[i], #[trigger] parts[j])
    &&& percentages_fit(constraints) ==> take_shares(direction, constraints, area, parts)
    &&& lengths_fit(constraints, room(direction, area)) ==> take_lengths(
        direction,
        constraints,
        area,
        parts,
    )
}

/// `ratatui::layout::Layout::split`, on a layout without margins or spacing and with
/// up to three constraints: one part for each constraint, each spanning the area
/// across the given axis. Along the axis `ratatui` requires of its solver that every
/// part begins and ends inside the area, and that the parts come in order.
///
/// Percentages that make up no more than the whole are all met: the solver works in
/// hundredths of a cell, puts no space before or between the parts, and every border
/// is then rounded to the nearest cell. Lengths beside one least length are all met
/// where there is room for them, and the part with the least length grows over what
/// is left. How long the parts are where constraints have to give way is not stated
/// beyond the relation that names the call: there the solver weighs them against each
/// other.
#[verifier::external_body]
fn split(direction: Direction, constraints: &Vec<Constraint>, area: Area) -> (parts: Vec<Area>)
    requires
        constraints@.len() <= 3,
    ensures
        may_divide(direction, constraints@, area, parts@),
        parts@.len() == constraints@.len(),
        forall|i: int| 0 <= i < parts@.len() ==> spans(direction, area, #[trigger] parts@[i]),
        forall|i: int| 0 <= i < parts@.len() ==> lies_in(area, #[trigger] parts@[i]),
        forall|i: int, j: int|
            0 <= i < j < parts@.len() ==> precedes(
                direction,
                #[trigger] parts@[i],
                #[trigger] parts@[j],
            ),
        percentages_fit(constraints@) ==> take_shares(direction, constraints@, area, parts@),
        lengths_fit(constraints@, room(direction, area)) ==> take_lengths(
            direction,
            constraints@,
            area,
            parts@,
        ),
{
    let along = match direction {
        Direction::Horizontal => ratatui::layout::Direction::Horizontal,
        Direction::Vertical => ratatui::layout::Direction::Vertical,
    };
    let sizes = constraints.iter().map(|size| match *size {
        Constraint::Length(n) => ratatui::layout::Constraint::Length(n),
        Constraint::Min(n) => ratatui::layout::Constraint::Min(n),
        Constraint::Percentage(n) => ratatui::layout::Constraint::Percentage(n),
    });
    let whole = Rect { x: area.x, y: area.y, width: area.width, height: area.height };
    Layout::default().direction(along).constraints(sizes).split(whole).iter().map(
        |p| Area { x: p.x, y: p.y, width: p.width, height: p.height },
    ).collect()
}

/// Three parts of which the middle one takes `percent` hundredths.
pub open spec fn middle(percent: int) -> Seq<Constraint> {
    seq![
        Constraint::Percentage(((100 - percent) / 2) as u16),
        Constraint::Percentage(percent as u16),
        Constraint::Percentage(((100 - percent) / 2) as u16),
    ]
}

/// Divides an area in two.
pub fn split_in_two(direction: Direction, first: Constraint, second: Constraint, area: Area) -> (parts:
    (Area, Area))
    ensures
        divides(direction, seq![first, second], area, seq![parts.0, parts.1]),
{
    let constraints = vec![first, second];
    let parts = split(direction, &constraints, area);
    assert(constraints@ == seq![first, second]);
    assert(parts@ == seq![parts@[0], parts@[1]]);
    (parts[0], parts[1])
}

/// Divides an area in three.
pub fn split_in_three(
    direction: Direction,
    first: Constraint,
    second: Constraint,
    third: Constraint,
    area: Area,
) -> (parts: (Area, Area, Area))
    ensures
        divides(direction, seq![first, second, third], area, seq![parts.0, parts.1, parts.2]),
{
    let constraints = vec![first, second, third];
    let parts = split(direction, &constraints, area);
    assert(constraints@ == seq![first, second, third]);
    assert(parts@ == seq![parts@[0], parts@[1], parts@[2]]);
    (parts[0], parts[1], parts[2])
}

/// Whether `inner` lies, along the given axis, between the cells nearest to the
/// hundredths of `area` that are left over before it, half of what it does not take,
/// and to those that it ends with.
pub open spec fn takes_middle(direction: Direction, percent: int, area: Area, inner: Area) -> bool {
    let before = (100 - percent) / 2;
    &&& start(direction, inner) == start(direction, area) + share(before, room(direction, area))
    &&& start(direction, inner) + size(direction, inner) == start(direction, area) + share(
        before + percent,
        room(direction, area),
    )
}

/// Whether `inner` is the middle of the middle of `area`: the middle part of a
/// row, itself the middle one of three, with the given hundredths of width and
/// height.
pub open spec fn is_centered(percent_x: int, percent_y: int, area: Area, inner: Area) -> bool {
    &&& exists|rows: Seq<Area>, columns: Seq<Area>|
        {
            &&& #[trigger] divides(Direction::Vertical, middle(percent_y), area, rows)
            &&& #[trigger] divides(Direction::Horizontal, middle(percent_x), rows[1], columns)
            &&& inner == columns[1]
        }
    &&& takes_middle(Direction::Horizontal, percent_x, area, inner)
    &&& takes_middle(Direction::Vertical, percent_y, area, inner)
}

proof fn lemma_middle(direction: Direction, percent: int, area: Area, parts: Seq<Area>)
    requires
        0 <= percent <= 100,
        divides(direction, middle(percent), area, parts),
    ensures
        takes_middle(direction, percent, area, parts[1]),
{
    reveal_with_fuel(amounts, 4);
    assert(percentages_fit(middle(percent)));
    assert(amounts(middle(percent), 1) == (100 - percent) / 2);
    assert(amounts(middle(percent), 2) == (100 - percent) / 2 + percent);
}

/// A rectangle in the middle of `area`, with the given hundredths of its width
/// and height.
pub fn centered_rect(percent_x: u16, percent_y: u16, area: Area) -> (inner: Area)
    requires
        percent_x <= 100,
        percent_y <= 100,
    ensures
        is_centered(percent_x as int, percent_y as int, area, inner),
        lies_in(area, inner),
{
    let above = Constraint::Percentage((100 - percent_y) / 2);
    let rows = split_in_three(
        Direction::Vertical,
        above,
        Constraint::Percentage(percent_y),
        above,
        area,
    );
    let beside = Constraint::Percentage((100 - percent_x) / 2);
    let columns = split_in_three(
        Direction::Horizontal,
        beside,
        Constraint::Percentage(percent_x),
        beside,
        rows.1,
    );
    proof {
        let row_areas = seq![rows.0, rows.1, rows.2];
        let column_areas = seq![columns.0, columns.1, columns.2];
        assert(divides(Direction::Vertical, middle(percent_y as int), area, row_areas));
        assert(divides(Direction::Horizontal, middle(percent_x as int), row_areas[1], column_areas));
        lemma_middle(Direction::Vertical, percent_y as int, area, row_areas);
        lemma_middle(Direction::Horizontal, percent_x as int, rows.1, column_areas);
        assert(spans(Direction::Vertical, area, row_areas[1]));
        assert(spans(Direction::Horizontal, rows.1, column_areas[1]));
    }
    columns.1
}

} // verus!
