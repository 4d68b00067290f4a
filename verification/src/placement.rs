//! Where a ship lies on a battlefield.

use crate::battlefield::grid::in_bounds;
use crate::battlefield::grid::ship_cells;
use crate::battlefield::Grid;
use crate::common::Orientation;
use crate::Dimension;
use crate::ShipTypeId;
use vstd::prelude::*;

verus! {

/// Whether a ship of `length` cells that starts at column `x` of line `y` and extends to the
/// right (horizontal) or downwards (vertical) covers column `cx` of line `cy`.
pub open spec fn covers(
    x: int,
    y: int,
    length: int,
    orientation: Orientation,
    cx: int,
    cy: int,
) -> bool {
    match orientation {
        Orientation::Horizontal => cy == y && x <= cx < x + length,
        Orientation::Vertical => cx == x && y <= cy < y + length,
    }
}

/// The cells that such a ship covers, each given by its column and line.
pub open spec fn covered(x: int, y: int, length: int, orientation: Orientation) -> Set<(int, int)> {
    Set::new(|c: (int, int)| covers(x, y, length, orientation, c.0, c.1))
}

/// A ship covers as many cells as it is long.
pub proof fn lemma_covered_len(x: int, y: int, length: int, orientation: Orientation)
    requires
        0 <= length,
    ensures
        covered(x, y, length, orientation).finite(),
        covered(x, y, length, orientation).len() == length,
    decreases length,
{
    broadcast use vstd::set::group_set_axioms;

    if length == 0 {
        assert(covered(x, y, length, orientation) =~= Set::<(int, int)>::empty());
    } else {
        lemma_covered_len(x, y, length - 1, orientation);
        let last = match orientation {
            Orientation::Horizontal => (x + length - 1, y),
            Orientation::Vertical => (x, y + length - 1),
        };
        assert(covered(x, y, length, orientation) =~= covered(
            x,
            y,
            length - 1,
            orientation,
        ).insert(last));
    }
}

/// Whether every cell that such a ship covers lies on `grid` and has no ship on it.
pub open spec fn has_room(
    grid: Grid,
    x: int,
    y: int,
    length: int,
    orientation: Orientation,
) -> bool {
    forall|cx: int, cy: int| #[trigger]
        covers(x, y, length, orientation, cx, cy) ==> in_bounds(grid, cx, cy)
            && !grid[cy][cx].occupied()
}

/// `grid` with a ship of type `id` on every cell that such a ship covers.
pub open spec fn with_ship(
    grid: Grid,
    id: ShipTypeId,
    x: int,
    y: int,
    length: int,
    orientation: Orientation,
) -> Grid {
    Seq::new(
        grid.len(),
        |cy: int|
            Seq::new(
                grid[cy].len(),
                |cx: int|
                    if covers(x, y, length, orientation, cx, cy) {
                        grid[cy][cx].occupy(id)
                    } else {
                        grid[cy][cx]
                    },
            ),
    )
}

/// The cells that such a ship covers, from its first to its last.
pub open spec fn span(
    x: Dimension,
    y: Dimension,
    length: Dimension,
    orientation: Orientation,
) -> Seq<(Dimension, Dimension)> {
    Seq::new(
        length as nat,
        |n: int|
            match orientation {
                Orientation::Horizontal => ((x + n) as Dimension, y),
                Orientation::Vertical => (x, (y + n) as Dimension),
            },
    )
}

/// Whether column `cx` of line `cy` is among `coords`.
pub open spec fn lists(coords: Seq<(Dimension, Dimension)>, cx: int, cy: int) -> bool {
    exists|n: int| 0 <= n < coords.len() && (#[trigger] coords[n]).0 == cx && coords[n].1 == cy
}

/// `grid` with a ship of type `id` on every cell among `coords`.
pub open spec fn with_ship_at(
    grid: Grid,
    id: ShipTypeId,
    coords: Seq<(Dimension, Dimension)>,
) -> Grid {
    Seq::new(
        grid.len(),
        |cy: int|
            Seq::new(
                grid[cy].len(),
                |cx: int|
                    if lists(coords, cx, cy) {
                        grid[cy][cx].occupy(id)
                    } else {
                        grid[cy][cx]
                    },
            ),
    )
}

/// The cells of the span of a ship are the cells that the ship covers.
pub proof fn lemma_span_lists_what_is_covered(
    x: Dimension,
    y: Dimension,
    length: Dimension,
    orientation: Orientation,
    cx: int,
    cy: int,
)
    requires
        match orientation {
            Orientation::Horizontal => x + length <= usize::MAX,
            Orientation::Vertical => y + length <= usize::MAX,
        },
    ensures
        lists(span(x, y, length, orientation), cx, cy) <==> covers(
            x as int,
            y as int,
            length as int,
            orientation,
            cx,
            cy,
        ),
{
    let coords = span(x, y, length, orientation);
    if covers(x as int, y as int, length as int, orientation, cx, cy) {
        let n = match orientation {
            Orientation::Horizontal => cx - x,
            Orientation::Vertical => cy - y,
        };
        assert(coords[n].0 == cx && coords[n].1 == cy);
    }
}

/// No cell occurs twice in the span of a ship.
pub proof fn lemma_span_lists_no_cell_twice(
    x: Dimension,
    y: Dimension,
    length: Dimension,
    orientation: Orientation,
)
    requires
        match orientation {
            Orientation::Horizontal => x + length <= usize::MAX,
            Orientation::Vertical => y + length <= usize::MAX,
        },
    ensures
        span(x, y, length, orientation).no_duplicates(),
{
}

/// Placing a ship cell by cell along its span places it on every cell it covers.
pub proof fn lemma_with_ship_at_span(
    grid: Grid,
    id: ShipTypeId,
    x: Dimension,
    y: Dimension,
    length: Dimension,
    orientation: Orientation,
)
    requires
        match orientation {
            Orientation::Horizontal => x + length <= usize::MAX,
            Orientation::Vertical => y + length <= usize::MAX,
        },
    ensures
        with_ship_at(grid, id, span(x, y, length, orientation)) == with_ship(
            grid,
            id,
            x as int,
            y as int,
            length as int,
            orientation,
        ),
{
    let a = with_ship_at(grid, id, span(x, y, length, orientation));
    let b = with_ship(grid, id, x as int, y as int, length as int, orientation);
    assert forall|cy: int| 0 <= cy < grid.len() implies a[cy] =~= b[cy] by {
        assert forall|cx: int| 0 <= cx < grid[cy].len() implies a[cy][cx] == b[cy][cx] by {
            lemma_span_lists_what_is_covered(x, y, length, orientation, cx, cy);
        }
    }
    assert(a =~= b);
}

/// One more of the coordinates lists one more cell.
pub proof fn lemma_lists_take_next(coords: Seq<(Dimension, Dimension)>, i: int, cx: int, cy: int)
    requires
        0 <= i < coords.len(),
    ensures
        lists(coords.take(i + 1), cx, cy) <==> lists(coords.take(i), cx, cy) || (coords[i].0 == cx
            && coords[i].1 == cy),
{
    let shorter = coords.take(i);
    let longer = coords.take(i + 1);
    if lists(longer, cx, cy) {
        let n = choose|n: int|
            0 <= n < longer.len() && (#[trigger] longer[n]).0 == cx && longer[n].1 == cy;
        if n < i {
            assert(shorter[n].0 == cx && shorter[n].1 == cy);
        }
    }
    if lists(shorter, cx, cy) {
        let n = choose|n: int|
            0 <= n < shorter.len() && (#[trigger] shorter[n]).0 == cx && shorter[n].1 == cy;
        assert(longer[n].0 == cx && longer[n].1 == cy);
    }
    if coords[i].0 == cx && coords[i].1 == cy {
        assert(longer[i].0 == cx && longer[i].1 == cy);
    }
}

/// A ship that is placed where there is room for it covers the cells of its span, in
/// addition to those that a ship of its type covered before, and takes no cell from a ship
/// of another type.
pub proof fn lemma_with_ship_cells(
    grid: Grid,
    id: ShipTypeId,
    x: int,
    y: int,
    length: int,
    orientation: Orientation,
    other: ShipTypeId,
)
    requires
        has_room(grid, x, y, length, orientation),
    ensures
        ship_cells(with_ship(grid, id, x, y, length, orientation), id) == ship_cells(
            grid,
            id,
        ).union(covered(x, y, length, orientation)),
        other != id ==> ship_cells(with_ship(grid, id, x, y, length, orientation), other)
            == ship_cells(grid, other),
{
    let after = with_ship(grid, id, x, y, length, orientation);
    assert forall|c: (int, int)|
        ship_cells(after, id).contains(c) <==> ship_cells(grid, id).union(
            covered(x, y, length, orientation),
        ).contains(c) by {
        if covers(x, y, length, orientation, c.0, c.1) {
            assert(in_bounds(grid, c.0, c.1));
        }
    }
    assert(ship_cells(after, id) =~= ship_cells(grid, id).union(
        covered(x, y, length, orientation),
    ));
    if other != id {
        assert forall|c: (int, int)|
            ship_cells(after, other).contains(c) <==> ship_cells(grid, other).contains(c) by {
            if covers(x, y, length, orientation, c.0, c.1) {
                assert(in_bounds(grid, c.0, c.1) && !grid[c.1][c.0].occupied());
            }
        }
        assert(ship_cells(after, other) =~= ship_cells(grid, other));
    }
}

} // verus!
