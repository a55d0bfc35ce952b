use vstd::prelude::*;

use vstd::arithmetic::div_mod::{
    lemma_add_mod_noop_right,
    lemma_fundamental_div_mod,
    lemma_fundamental_div_mod_converse,
    lemma_small_mod,
};

use crate::direction::{lemma_reverse_offset, Direction};

verus! {

/// Number of cells along the x axis of a level.
pub const LEVEL_WIDTH: usize = 20;

/// Number of cells along the y axis of a level.
pub const LEVEL_HEIGHT: usize = 20;

/// A cell of the level grid.
#[derive(Clone, Copy, Debug, PartialEq, Eq, Structural)]
pub struct Position {
    pub x: usize,
    pub y: usize,
}

/// `a` reduced into `0..m`, for a positive `m`.
pub open spec fn wrap(a: int, m: int) -> int {
    a % m
}

/// Reduces `a` into `0..m` with exact integer arithmetic.
fn wrap_exec(a: i128, m: u128) -> (r: u128)
    requires
        m > 0,
        a > i128::MIN,
    ensures
        r == wrap(a as int, m as int),
{
    if a >= 0 {
        (a as u128) % m
    } else {
        let n: u128 = ((0 - a) as u128) % m;
        proof {
            let q = (-a) / (m as int);
            lemma_fundamental_div_mod(-a, m as int);
            assert(n == (-a) % (m as int));
            assert(a == (-q) * m + 0 - n) by (nonlinear_arith)
                requires
                    -a == m * q + n,
            ;
            assert((-q) * m - n == (-q - 1) * m + (m - n)) by (nonlinear_arith);
            if n == 0 {
                lemma_fundamental_div_mod_converse(a as int, m as int, -q, 0);
            } else {
                lemma_fundamental_div_mod_converse(a as int, m as int, -q - 1, m - n);
            }
        }
        if n == 0 {
            0
        } else {
            m - n
        }
    }
}

impl Position {
    /// The position lies inside the level grid.
    pub open spec fn wf(self) -> bool {
        self.x < LEVEL_WIDTH && self.y < LEVEL_HEIGHT
    }

    /// The cell reached by adding `(dx, dy)`, wrapping around on each axis.
    pub open spec fn shifted(self, dx: int, dy: int) -> Position {
        Position {
            x: wrap(self.x + dx, LEVEL_WIDTH as int) as usize,
            y: wrap(self.y + dy, LEVEL_HEIGHT as int) as usize,
        }
    }

    /// The cell `d` steps away in facing `dir` (backwards for a negative `d`).
    pub open spec fn moved(self, dir: Direction, d: int) -> Position {
        self.shifted(dir.offset_spec().0 * d, dir.offset_spec().1 * d)
    }

    pub fn move_by(&self, dir: Direction, d: isize) -> (r: Self)
        ensures
            r == self.moved(dir, d as int),
            r.wf(),
    {
        let (dx, dy) = dir.offset();
        assert(-1 <= dx <= 1 && -1 <= dy <= 1);
        assert(-0x8000_0000_0000_0000 <= dx * d <= 0x8000_0000_0000_0000) by (nonlinear_arith)
            requires
                -1 <= dx <= 1,
                -0x8000_0000_0000_0000 <= d < 0x8000_0000_0000_0000,
        ;
        assert(-0x8000_0000_0000_0000 <= dy * d <= 0x8000_0000_0000_0000) by (nonlinear_arith)
            requires
                -1 <= dy <= 1,
                -0x8000_0000_0000_0000 <= d < 0x8000_0000_0000_0000,
        ;
        let x = wrap_exec(self.x as i128 + dx as i128 * d as i128, LEVEL_WIDTH as u128);
        let y = wrap_exec(self.y as i128 + dy as i128 * d as i128, LEVEL_HEIGHT as u128);
        Position { x: x as usize, y: y as usize }
    }
}

impl Position {
    /// The cell `forward` steps ahead and `lateral` steps to the right, in the
    /// frame where `dir` is forwards.
    pub open spec fn translated(self, dir: Direction, lateral: int, forward: int) -> Position {
        self.moved(dir, forward).moved(dir.turned(1), lateral)
    }

    /// Translates the position by the vector `(dx, dy)` in the relative frame
    /// where `dir` is forwards (positive `dy`) and its right is positive `dx`.
    pub fn translate(&self, dir: Direction, dx: isize, dy: isize) -> (r: Self)
        ensures
            r == self.translated(dir, dx as int, dy as int),
            r.wf(),
    {
        self.move_by(dir, dy).move_by(dir.right(), dx)
    }
}

/// Two wrapped shifts in a row are one shift by the sum.
pub proof fn lemma_shift_compose(p: Position, a: int, b: int, c: int, d: int)
    ensures
        p.shifted(a, b).shifted(c, d) == p.shifted(a + c, b + d),
{
    let w = LEVEL_WIDTH as int;
    let h = LEVEL_HEIGHT as int;
    lemma_add_mod_noop_right(c, p.x + a, w);
    lemma_add_mod_noop_right(d, p.y + b, h);
    assert(c + (p.x + a) == p.x + (a + c));
    assert(d + (p.y + b) == p.y + (b + d));
}

/// A shift by nothing keeps a cell of the grid in place.
pub proof fn lemma_shift_zero(p: Position)
    requires
        p.wf(),
    ensures
        p.shifted(0, 0) == p,
{
    lemma_small_mod(p.x as nat, LEVEL_WIDTH as nat);
    lemma_small_mod(p.y as nat, LEVEL_HEIGHT as nat);
}

/// Moving `n` cells in a facing and then `n` cells in the opposite facing
/// returns to the starting cell.
pub proof fn lemma_move_round_trip(p: Position, dir: Direction, n: int)
    requires
        p.wf(),
    ensures
        p.moved(dir, n).moved(dir.turned(2), n) == p,
{
    let (dx, dy) = dir.offset_spec();
    lemma_reverse_offset(dir);
    lemma_shift_compose(p, dx * n, dy * n, (-dx) * n, (-dy) * n);
    assert(dx * n + (-dx) * n == 0) by (nonlinear_arith);
    assert(dy * n + (-dy) * n == 0) by (nonlinear_arith);
    lemma_shift_zero(p);
}

/// Translating by `(dx, dy)` and then by `(-dx, -dy)` in the same facing
/// returns to the starting cell.
pub proof fn lemma_translate_inverse(p: Position, dir: Direction, dx: int, dy: int)
    requires
        p.wf(),
    ensures
        p.translated(dir, dx, dy).translated(dir, -dx, -dy) == p,
{
    let (fx, fy) = dir.offset_spec();
    let (rx, ry) = dir.turned(1).offset_spec();
    let q1 = p.moved(dir, dy);
    let q2 = q1.moved(dir.turned(1), dx);
    let q3 = q2.moved(dir, -dy);
    lemma_shift_compose(p, fx * dy, fy * dy, rx * dx, ry * dx);
    lemma_shift_compose(p, fx * dy + rx * dx, fy * dy + ry * dx, fx * (-dy), fy * (-dy));
    lemma_shift_compose(
        p,
        fx * dy + rx * dx + fx * (-dy),
        fy * dy + ry * dx + fy * (-dy),
        rx * (-dx),
        ry * (-dx),
    );
    assert(fx * dy + rx * dx + fx * (-dy) + rx * (-dx) == 0) by (nonlinear_arith);
    assert(fy * dy + ry * dx + fy * (-dy) + ry * (-dx) == 0) by (nonlinear_arith);
    lemma_shift_zero(p);
}

impl From<(usize, usize)> for Position {
    fn from(value: (usize, usize)) -> (r: Position) {
        Position { x: value.0, y: value.1 }
    }
}

impl vstd::std_specs::convert::FromSpecImpl<(usize, usize)> for Position {
    open spec fn obeys_from_spec() -> bool {
        true
    }

    open spec fn from_spec(value: (usize, usize)) -> Position {
        Position { x: value.0, y: value.1 }
    }
}

} // verus!
