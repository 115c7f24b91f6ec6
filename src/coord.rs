use vstd::prelude::*;

verus! {

/// A cell of a `X` by `Y` grid, stored as its row-major linear index.
#[derive(Debug, Clone, Copy, PartialEq, Eq, Hash)]
pub struct Coord<const X: u8, const Y: u8> {
    index: u8,
}

/// Whether a `X` by `Y` grid can be addressed by `u8` indices.
pub open spec fn grid_fits(x: int, y: int) -> bool {
    x * y <= 256
}

impl<const X: u8, const Y: u8> Coord<X, Y> {
    #[verifier::type_invariant]
    spec fn inv(self) -> bool {
        &&& (self.index as int) < (X as int) * (Y as int)
        &&& grid_fits(X as int, Y as int)
    }

    /// The linear index of this cell.
    pub closed spec fn index_spec(self) -> int {
        self.index as int
    }

    pub open spec fn x_spec(self) -> int {
        self.index_spec() % (X as int)
    }

    pub open spec fn y_spec(self) -> int {
        self.index_spec() / (X as int)
    }

    proof fn lemma_valid(self)
        requires
            self.inv(),
        ensures
            0 <= self.index_spec() < (X as int) * (Y as int),
            (X as int) * (Y as int) <= 256,
            0 <= self.x_spec() < X,
            0 <= self.y_spec() < Y,
            self.index_spec() == self.x_spec() + (X as int) * self.y_spec(),
    {
        let i = self.index as int;
        let xx = X as int;
        let yy = Y as int;
        assert(xx > 0) by (nonlinear_arith)
            requires 0 <= i < xx * yy, yy >= 0;
        assert(i == i % xx + xx * (i / xx)) by (nonlinear_arith)
            requires xx > 0;
        assert(0 <= i % xx < xx) by (nonlinear_arith)
            requires xx > 0;
        assert(0 <= i / xx < yy) by (nonlinear_arith)
            requires xx > 0, 0 <= i < xx * yy;
    }

    /// The cell with linear index `index`.
    pub fn from_index(index: u8) -> (r: Self)
        requires
            (index as int) < (X as int) * (Y as int),
            grid_fits(X as int, Y as int),
        ensures
            r.index_spec() == index,
    {
        Coord { index }
    }

    /// The cell at column `x` and row `y`.
    pub fn from_xy(x: u8, y: u8) -> (r: Self)
        requires
            x < X,
            y < Y,
            grid_fits(X as int, Y as int),
        ensures
            r.index_spec() == x + (X as int) * (y as int),
            r.x_spec() == x,
            r.y_spec() == y,
    {
        let ghost xx = X as int;
        let ghost yy = Y as int;
        let ghost i = x + xx * (y as int);
        assert(0 <= i < xx * yy && i <= 255) by (nonlinear_arith)
            requires x < xx, y < yy, xx * yy <= 256, i == x + xx * (y as int), x >= 0, y >= 0;
        assert(i % xx == x && i / xx == y) by (nonlinear_arith)
            requires 0 <= x < xx, 0 <= y, i == x + xx * (y as int);
        let index: u8 = x + X * y;
        Coord { index }
    }

    /// Every cell of the grid, in increasing order of linear index.
    pub fn all() -> (r: Vec<Self>)
        requires
            grid_fits(X as int, Y as int),
        ensures
            r@.len() == (X as int) * (Y as int),
            forall|i: int| 0 <= i < r@.len() ==> #[trigger] r@[i].index_spec() == i,
    {
        let n: u16 = (X as u16) * (Y as u16);
        let mut r: Vec<Self> = Vec::new();
        let mut i: u16 = 0;
        while i < n
            invariant
                n as int == (X as int) * (Y as int),
                n <= 256,
                i <= n,
                grid_fits(X as int, Y as int),
                r@.len() == i,
                forall|j: int| 0 <= j < r@.len() ==> #[trigger] r@[j].index_spec() == j,
            decreases n - i,
        {
            r.push(Coord::from_index(i as u8));
            i = i + 1;
        }
        r
    }

    /// The linear index of this cell.
    pub fn index(self) -> (r: u8)
        ensures
            r == self.index_spec(),
    {
        self.index
    }

    /// The index of this cell in a dense row-major layout of rows of `size` cells.
    pub fn dense_index(self, size: u8) -> (r: usize)
        ensures
            r == (size as int) * self.y_spec() + self.x_spec(),
    {
        proof { use_type_invariant(&self); self.lemma_valid(); }
        let y = self.y();
        let x = self.x();
        assert((size as int) * (y as int) <= 255 * 255) by (nonlinear_arith)
            requires size <= 255, y <= 255;
        size as usize * y as usize + x as usize
    }

    /// The column of this cell.
    pub fn x(self) -> (r: u8)
        ensures
            r == self.x_spec(),
            r < X,
    {
        proof { use_type_invariant(&self); self.lemma_valid(); }
        self.index % X
    }

    /// The row of this cell.
    pub fn y(self) -> (r: u8)
        ensures
            r == self.y_spec(),
            r < Y,
    {
        proof { use_type_invariant(&self); self.lemma_valid(); }
        self.index / X
    }

    /// The sum of the column and row distances between two cells.
    pub fn manhattan_distance(self, other: Self) -> (r: u8)
        ensures
            r == abs_diff(self.x_spec(), other.x_spec()) + abs_diff(self.y_spec(), other.y_spec()),
    {
        proof {
            use_type_invariant(&self);
            use_type_invariant(&other);
            self.lemma_valid();
            other.lemma_valid();
            let xx = X as int;
            let yy = Y as int;
            assert(xx + yy <= 257) by (nonlinear_arith)
                requires xx >= 1, yy >= 1, xx * yy <= 256;
        }
        let dx = abs_diff_u8(self.x(), other.x());
        let dy = abs_diff_u8(self.y(), other.y());
        dx + dy
    }

    /// The larger of the column and row distances between two cells.
    pub fn diagonal_distance(self, other: Self) -> (r: u8)
        ensures
            r == max_int(abs_diff(self.x_spec(), other.x_spec()), abs_diff(self.y_spec(), other.y_spec())),
    {
        let dx = abs_diff_u8(self.x(), other.x());
        let dy = abs_diff_u8(self.y(), other.y());
        if dx >= dy {
            dx
        } else {
            dy
        }
    }

    /// The cell with the same column and row in a `X2` by `Y2` grid.
    pub fn cast<const X2: u8, const Y2: u8>(self) -> (r: Coord<X2, Y2>)
        requires
            self.x_spec() < X2,
            self.y_spec() < Y2,
            grid_fits(X2 as int, Y2 as int),
        ensures
            r.x_spec() == self.x_spec(),
            r.y_spec() == self.y_spec(),
    {
        Coord::<X2, Y2>::from_xy(self.x(), self.y())
    }

    /// Whether this cell lies on a square board of `size` by `size` cells.
    pub fn valid_for_size(self, size: u8) -> (r: bool)
        ensures
            r == (self.x_spec() < size && self.y_spec() < size),
    {
        self.x() < size && self.y() < size
    }
}

pub open spec fn abs_diff(a: int, b: int) -> int {
    if a >= b {
        a - b
    } else {
        b - a
    }
}

fn abs_diff_u8(a: u8, b: u8) -> (r: u8)
    ensures
        r == abs_diff(a as int, b as int),
{
    if a >= b {
        a - b
    } else {
        b - a
    }
}

pub open spec fn max_int(a: int, b: int) -> int {
    if a >= b {
        a
    } else {
        b
    }
}

} // verus!
