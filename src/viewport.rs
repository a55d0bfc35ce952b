use vstd::prelude::*;

use crate::direction::Direction;
use crate::level::{Level, Wall};
use crate::position::Position;

verus! {

/// How many cells the view reaches to each side and ahead.
pub const MAX_VANISH_DIST: isize = 6;

/// Largest value of `depth` over the cells of the view.
const MAX_DEPTH: i64 = 313;

/// The cell `(x, y)` of the party's frame (`x` to the right, `y` ahead) is
/// drawn in the view.
pub open spec fn in_view(x: int, y: int) -> bool {
    -MAX_VANISH_DIST <= x <= MAX_VANISH_DIST && 0 <= y <= MAX_VANISH_DIST
}

/// Four times the squared distance from the eye, which stands half a cell
/// behind the centre of cell `(0, 0)`, to the centre of cell `(x, y)`.
pub open spec fn depth(x: int, y: int) -> int {
    4 * x * x + (2 * y + 1) * (2 * y + 1)
}

/// Depth of the `i`-th cell of `cells`.
pub open spec fn depth_at(cells: Seq<(isize, isize)>, i: int) -> int {
    depth(cells[i].0 as int, cells[i].1 as int)
}

/// Cell `a` comes before cell `b` from left to right, and then from near to far.
pub open spec fn lex_before(a: (isize, isize), b: (isize, isize)) -> bool {
    a.0 < b.0 || (a.0 == b.0 && a.1 < b.1)
}

/// `cells` lists cells of the view, each once, from the farthest to the
/// nearest, and cells at the same distance from left to right and then from
/// near to far.
pub open spec fn far_to_near(cells: Seq<(isize, isize)>) -> bool {
    &&& forall|i: int| 0 <= i < cells.len() ==> in_view(cells[i].0 as int, cells[i].1 as int)
    &&& forall|i: int, j: int| 0 <= i < j < cells.len() ==> depth_at(cells, i) >= depth_at(cells, j)
    &&& forall|i: int, j: int|
        0 <= i < j < cells.len() && depth_at(cells, i) == depth_at(cells, j) ==> lex_before(
            cells[i],
            cells[j],
        )
    &&& forall|i: int, j: int| 0 <= i < j < cells.len() ==> cells[i] != cells[j]
}

/// `cells` holds the cell `(x, y)`.
pub open spec fn lists(cells: Seq<(isize, isize)>, x: int, y: int) -> bool {
    exists|i: int| 0 <= i < cells.len() && cells[i].0 == x && cells[i].1 == y
}

/// Every cell of the view lies at depth between 1 and `MAX_DEPTH`.
proof fn lemma_depth_bounds(x: int, y: int)
    requires
        in_view(x, y),
    ensures
        1 <= depth(x, y) <= MAX_DEPTH,
{
    assert(0 <= 4 * x * x <= 144 && 1 <= (2 * y + 1) * (2 * y + 1) <= 169) by (nonlinear_arith)
        requires
            -6 <= x <= 6,
            0 <= y <= 6,
    ;
}

fn depth_exec(x: isize, y: isize) -> (r: i64)
    requires
        in_view(x as int, y as int),
    ensures
        r == depth(x as int, y as int),
        1 <= r <= MAX_DEPTH,
{
    proof {
        lemma_depth_bounds(x as int, y as int);
    }
    let x = x as i64;
    let y = y as i64;
    assert(0 <= 4 * x * x <= 144 && 1 <= (2 * y + 1) * (2 * y + 1) <= 169) by (nonlinear_arith)
        requires
            -6 <= x <= 6,
            0 <= y <= 6,
    ;
    4 * x * x + (2 * y + 1) * (2 * y + 1)
}

/// The cells of the view in the order they are painted: every cell once,
/// farthest first, so that nearer walls cover farther ones.
pub fn render_order() -> (r: Vec<(isize, isize)>)
    ensures
        far_to_near(r@),
        forall|x: int, y: int| in_view(x, y) ==> lists(r@, x, y),
{
    let mut r: Vec<(isize, isize)> = Vec::new();
    let mut k: i64 = MAX_DEPTH;
    proof {
        assert forall|a: int, b: int| in_view(a, b) implies depth(a, b) <= k by {
            lemma_depth_bounds(a, b);
        }
    }
    while k > 0
        invariant
            0 <= k <= MAX_DEPTH,
            far_to_near(r@),
            forall|i: int| 0 <= i < r@.len() ==> depth_at(r@, i) > k,
            forall|a: int, b: int| in_view(a, b) && depth(a, b) > k ==> lists(r@, a, b),
        decreases k,
    {
        let mut x: isize = -MAX_VANISH_DIST;
        while x <= MAX_VANISH_DIST
            invariant
                1 <= k <= MAX_DEPTH,
                -MAX_VANISH_DIST <= x <= MAX_VANISH_DIST + 1,
                far_to_near(r@),
                forall|i: int| 0 <= i < r@.len() ==> depth_at(r@, i) >= k,
                forall|i: int| 0 <= i < r@.len() && depth_at(r@, i) == k ==> r@[i].0 < x,
                forall|a: int, b: int|
                    in_view(a, b) && (depth(a, b) > k || (depth(a, b) == k && a < x)) ==> lists(
                        r@,
                        a,
                        b,
                    ),
            decreases MAX_VANISH_DIST + 1 - x,
        {
            let mut y: isize = 0;
            while y <= MAX_VANISH_DIST
                invariant
                    1 <= k <= MAX_DEPTH,
                    -MAX_VANISH_DIST <= x <= MAX_VANISH_DIST,
                    0 <= y <= MAX_VANISH_DIST + 1,
                    far_to_near(r@),
                    forall|i: int| 0 <= i < r@.len() ==> depth_at(r@, i) >= k,
                    forall|i: int|
                        0 <= i < r@.len() && depth_at(r@, i) == k ==> r@[i].0 < x || (r@[i].0 == x
                            && r@[i].1 < y),
                    forall|a: int, b: int|
                        in_view(a, b) && (depth(a, b) > k || (depth(a, b) == k && (a < x || (a == x
                            && b < y)))) ==> lists(r@, a, b),
                decreases MAX_VANISH_DIST + 1 - y,
            {
                if depth_exec(x, y) == k {
                    let ghost old_r = r@;
                    r.push((x, y));
                    proof {
                        let n = old_r.len() as int;
                        assert(r@[n] == (x, y));
                        assert(depth_at(r@, n) == k);
                        assert forall|i: int| 0 <= i < n implies r@[i] == old_r[i] && r@[i] != r@[n] by {
                            assert(r@[i] == old_r[i]);
                            if depth_at(old_r, i) == k {
                                assert(old_r[i].0 < x || (old_r[i].0 == x && old_r[i].1 < y));
                            }
                        }
                        assert forall|a: int, b: int| lists(old_r, a, b) implies lists(r@, a, b) by {
                            let i = choose|i: int| 0 <= i < old_r.len() && old_r[i].0 == a && old_r[i].1 == b;
                            assert(r@[i] == old_r[i]);
                        }
                        assert(lists(r@, x as int, y as int));
                        assert forall|i: int| 0 <= i < r@.len() implies depth_at(r@, i) >= k
                            && in_view(r@[i].0 as int, r@[i].1 as int) by {
                            if i < n {
                                assert(r@[i] == old_r[i]);
                                assert(depth_at(old_r, i) >= k);
                                assert(in_view(old_r[i].0 as int, old_r[i].1 as int));
                            }
                        }
                        assert forall|i: int| 0 <= i < r@.len() && depth_at(r@, i) == k implies r@[i].0
                            < x || (r@[i].0 == x && r@[i].1 <= y) by {
                            if i < n {
                                assert(r@[i] == old_r[i]);
                                assert(depth_at(old_r, i) == k);
                            }
                        }
                        assert forall|i: int, j: int| 0 <= i < j < r@.len() implies depth_at(r@, i)
                            >= depth_at(r@, j) && r@[i] != r@[j] by {
                            assert(r@[i] == old_r[i]);
                            assert(depth_at(old_r, i) >= k);
                            if depth_at(old_r, i) == k {
                                assert(old_r[i].0 < x || (old_r[i].0 == x && old_r[i].1 < y));
                            }
                            if j < n {
                                assert(r@[j] == old_r[j]);
                                assert(depth_at(old_r, i) >= depth_at(old_r, j));
                                assert(old_r[i] != old_r[j]);
                            }
                        }
                        assert forall|i: int, j: int|
                            0 <= i < j < r@.len() && depth_at(r@, i) == depth_at(r@, j) implies lex_before(
                            r@[i],
                            r@[j],
                        ) by {
                            assert(r@[i] == old_r[i]);
                            assert(depth_at(old_r, i) >= k);
                            if j < n {
                                assert(r@[j] == old_r[j]);
                                assert(lex_before(old_r[i], old_r[j]));
                            } else {
                                assert(depth_at(old_r, i) == k);
                                assert(old_r[i].0 < x || (old_r[i].0 == x && old_r[i].1 < y));
                            }
                        }
                    }
                }
                y = y + 1;
            }
            x = x + 1;
        }
        k = k - 1;
    }
    proof {
        assert forall|x: int, y: int| in_view(x, y) implies lists(r@, x, y) by {
            assert(depth(x, y) >= 1) by (nonlinear_arith)
                requires
                    0 <= y,
            ;
        }
    }
    r
}

/// What bounds one cell of the view: the cell is `dx` cells to the right of
/// the party and `dy` cells ahead, and the walls are those ahead of it and on
/// its left and right, as the party faces.
#[derive(Clone, Copy, Debug, PartialEq, Eq, Structural)]
pub struct ViewCell {
    pub dx: isize,
    pub dy: isize,
    pub front: Wall,
    pub left: Wall,
    pub right: Wall,
}

impl ViewCell {
    /// The entry describes cell `at` of the view seen from `pos` facing `dir`.
    pub open spec fn shows(self, level: Level, pos: Position, dir: Direction, at: (isize, isize)) -> bool {
        let cell = pos.translated(dir, at.0 as int, at.1 as int);
        &&& self.dx == at.0
        &&& self.dy == at.1
        &&& self.front == level.wall_at(cell, dir)
        &&& self.left == level.wall_at(cell, dir.turned(3))
        &&& self.right == level.wall_at(cell, dir.turned(1))
    }
}

/// The walls around each cell of `order`, seen from `pos` facing `dir`.
pub fn view_cells(level: &Level, pos: Position, dir: Direction, order: &Vec<(isize, isize)>) -> (r:
    Vec<ViewCell>)
    requires
        pos.wf(),
    ensures
        r@.len() == order@.len(),
        forall|i: int| 0 <= i < r@.len() ==> #[trigger] r@[i].shows(*level, pos, dir, order@[i]),
{
    let mut r: Vec<ViewCell> = Vec::new();
    let mut i: usize = 0;
    while i < order.len()
        invariant
            pos.wf(),
            i <= order@.len(),
            r@.len() == i,
            forall|j: int| 0 <= j < i ==> #[trigger] r@[j].shows(*level, pos, dir, order@[j]),
        decreases order@.len() - i,
    {
        let (dx, dy) = order[i];
        let cell = pos.translate(dir, dx, dy);
        r.push(
            ViewCell {
                dx,
                dy,
                front: level.wall_towards(cell, dir),
                left: level.wall_towards(cell, dir.left()),
                right: level.wall_towards(cell, dir.right()),
            },
        );
        i = i + 1;
    }
    r
}

} // verus!
