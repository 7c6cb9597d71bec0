//! Homogeneous tuples and fixed-size square matrices over exact `i64` entries.

use vstd::prelude::*;

verus! {

/// Failures of the value-math operations.
#[derive(Clone, Copy, Debug, PartialEq, Eq, Structural)]
pub enum MathsError {
    /// A tuple index of four or more, or a matrix row or column outside the
    /// matrix. Signals a programmer error; not meant to be retried.
    IndexOutOfRange,
    /// A scalar division by zero.
    DivisionByZero,
    /// An inverse was requested of a matrix whose determinant is zero.
    NotInvertible,
}

/// Bound on entry magnitudes under which every product-forming operation of
/// this module (dot and cross products, matrix products, determinants and
/// cofactors up to size four) fits in an `i64`.
pub const ENTRY_BOUND: i64 = 10_000;

/// `-(mx * my) <= x * y <= mx * my` whenever `|x| <= mx` and `|y| <= my`.
pub(crate) proof fn lemma_mul_bound(x: int, y: int, mx: int, my: int)
    by (nonlinear_arith)
    requires
        0 <= mx,
        0 <= my,
        -mx <= x <= mx,
        -my <= y <= my,
    ensures
        -(mx * my) <= x * y <= mx * my,
{
}

/// A square is never negative.
proof fn lemma_square_nonneg(x: int)
    by (nonlinear_arith)
    ensures
        x * x >= 0,
{
}

/// Quotient of `a` by `b` rounded toward zero, as executable integer
/// division computes it (spec-mode `/` rounds toward minus infinity
/// instead).
pub open spec fn div_trunc(a: int, b: int) -> int
    recommends
        b != 0,
{
    if a == 0 {
        0
    } else if a > 0 && b > 0 {
        a / b
    } else if a < 0 && b < 0 {
        (a * -1) / (b * -1)
    } else if a < 0 {
        ((a * -1) / b) * -1
    } else {
        (a / (b * -1)) * -1
    }
}

/// A homogeneous four-component value: a point when `w` is one, a free
/// vector when `w` is zero. Arithmetic treats `w` like any other component,
/// so subtracting two points yields a vector and adding a vector to a point
/// yields a point.
#[derive(Clone, Copy, Debug, PartialEq, Eq, Structural)]
pub struct Tuple {
    pub x: i64,
    pub y: i64,
    pub z: i64,
    pub w: i64,
}

/// Dot product of two tuples; `w` participates like the other components.
pub open spec fn dot_spec(a: Tuple, b: Tuple) -> int {
    a.x * b.x + a.y * b.y + a.z * b.z + a.w * b.w
}

/// The x component of the three-dimensional cross product (`w` is ignored).
pub open spec fn cross_x(a: Tuple, b: Tuple) -> int {
    a.y * b.z - a.z * b.y
}

/// The y component of the three-dimensional cross product.
pub open spec fn cross_y(a: Tuple, b: Tuple) -> int {
    a.z * b.x - a.x * b.z
}

/// The z component of the three-dimensional cross product.
pub open spec fn cross_z(a: Tuple, b: Tuple) -> int {
    a.x * b.y - a.y * b.x
}

impl Tuple {
    /// Component `i` of the tuple: x, y, z, w in that order.
    pub open spec fn idx(self, i: int) -> i64 {
        if i == 0 {
            self.x
        } else if i == 1 {
            self.y
        } else if i == 2 {
            self.z
        } else {
            self.w
        }
    }

    /// The tuple with component `i` replaced by `v`.
    pub open spec fn upd(self, i: int, v: i64) -> Tuple {
        if i == 0 {
            Tuple { x: v, ..self }
        } else if i == 1 {
            Tuple { y: v, ..self }
        } else if i == 2 {
            Tuple { z: v, ..self }
        } else {
            Tuple { w: v, ..self }
        }
    }

    /// Every component lies in `[-bound, bound]`.
    pub open spec fn bounded(self, bound: int) -> bool {
        &&& -bound <= self.x <= bound
        &&& -bound <= self.y <= bound
        &&& -bound <= self.z <= bound
        &&& -bound <= self.w <= bound
    }

    pub fn new(x: i64, y: i64, z: i64, w: i64) -> (r: Tuple)
        ensures
            r == (Tuple { x, y, z, w }),
    {
        Tuple { x, y, z, w }
    }

    /// A tuple is a vector exactly when `w` is zero.
    pub fn is_vector(&self) -> (r: bool)
        ensures
            r == (self.w == 0),
    {
        self.w == 0
    }

    /// A tuple is a point exactly when `w` is one.
    pub fn is_point(&self) -> (r: bool)
        ensures
            r == (self.w == 1),
    {
        self.w == 1
    }

    /// Component `i`, or `IndexOutOfRange` for any index past the fourth.
    pub fn at(&self, i: usize) -> (r: Result<i64, MathsError>)
        ensures
            i < 4 ==> r == Ok::<i64, MathsError>(self.idx(i as int)),
            i >= 4 ==> r == Err::<i64, MathsError>(MathsError::IndexOutOfRange),
    {
        match i {
            0 => Ok(self.x),
            1 => Ok(self.y),
            2 => Ok(self.z),
            3 => Ok(self.w),
            _ => Err(MathsError::IndexOutOfRange),
        }
    }

    /// Replaces component `i`, or fails with `IndexOutOfRange` leaving the
    /// tuple unchanged.
    pub fn set(&mut self, i: usize, v: i64) -> (r: Result<(), MathsError>)
        ensures
            i < 4 ==> r == Ok::<(), MathsError>(()) && *final(self) == old(self).upd(
                i as int,
                v,
            ),
            i >= 4 ==> r == Err::<(), MathsError>(MathsError::IndexOutOfRange) && *final(self)
                == *old(self),
    {
        match i {
            0 => {
                self.x = v;
                Ok(())
            },
            1 => {
                self.y = v;
                Ok(())
            },
            2 => {
                self.z = v;
                Ok(())
            },
            3 => {
                self.w = v;
                Ok(())
            },
            _ => Err(MathsError::IndexOutOfRange),
        }
    }

    /// Component-wise sum.
    pub fn add(self, other: Tuple) -> (r: Tuple)
        requires
            i64::MIN <= self.x + other.x <= i64::MAX,
            i64::MIN <= self.y + other.y <= i64::MAX,
            i64::MIN <= self.z + other.z <= i64::MAX,
            i64::MIN <= self.w + other.w <= i64::MAX,
        ensures
            r.x == self.x + other.x,
            r.y == self.y + other.y,
            r.z == self.z + other.z,
            r.w == self.w + other.w,
    {
        Tuple {
            x: self.x + other.x,
            y: self.y + other.y,
            z: self.z + other.z,
            w: self.w + other.w,
        }
    }

    /// Component-wise difference.
    pub fn sub(self, other: Tuple) -> (r: Tuple)
        requires
            i64::MIN <= self.x - other.x <= i64::MAX,
            i64::MIN <= self.y - other.y <= i64::MAX,
            i64::MIN <= self.z - other.z <= i64::MAX,
            i64::MIN <= self.w - other.w <= i64::MAX,
        ensures
            r.x == self.x - other.x,
            r.y == self.y - other.y,
            r.z == self.z - other.z,
            r.w == self.w - other.w,
    {
        Tuple {
            x: self.x - other.x,
            y: self.y - other.y,
            z: self.z - other.z,
            w: self.w - other.w,
        }
    }

    /// Component-wise negation.
    pub fn neg(self) -> (r: Tuple)
        requires
            self.x > i64::MIN,
            self.y > i64::MIN,
            self.z > i64::MIN,
            self.w > i64::MIN,
        ensures
            r.x == -self.x,
            r.y == -self.y,
            r.z == -self.z,
            r.w == -self.w,
    {
        Tuple { x: -self.x, y: -self.y, z: -self.z, w: -self.w }
    }

    /// Every component multiplied by the scalar `s`.
    pub fn scale(self, s: i64) -> (r: Tuple)
        requires
            i64::MIN <= self.x * s <= i64::MAX,
            i64::MIN <= self.y * s <= i64::MAX,
            i64::MIN <= self.z * s <= i64::MAX,
            i64::MIN <= self.w * s <= i64::MAX,
        ensures
            r.x == self.x * s,
            r.y == self.y * s,
            r.z == self.z * s,
            r.w == self.w * s,
    {
        Tuple { x: self.x * s, y: self.y * s, z: self.z * s, w: self.w * s }
    }

    /// Every component divided by the scalar `s`, rounding toward zero, or
    /// `DivisionByZero` when `s` is zero.
    pub fn div(self, s: i64) -> (r: Result<Tuple, MathsError>)
        requires
            self.x > i64::MIN,
            self.y > i64::MIN,
            self.z > i64::MIN,
            self.w > i64::MIN,
        ensures
            s == 0 ==> r == Err::<Tuple, MathsError>(MathsError::DivisionByZero),
            s != 0 ==> (r matches Ok(t) && t.x == div_trunc(self.x as int, s as int) && t.y
                == div_trunc(self.y as int, s as int) && t.z == div_trunc(self.z as int, s as int)
                && t.w == div_trunc(self.w as int, s as int)),
    {
        if s == 0 {
            return Err(MathsError::DivisionByZero);
        }
        proof {
            lemma_div_trunc_in_range(self.x as int, s as int);
            lemma_div_trunc_in_range(self.y as int, s as int);
            lemma_div_trunc_in_range(self.z as int, s as int);
            lemma_div_trunc_in_range(self.w as int, s as int);
        }
        let x = match self.x.checked_div(s) {
            Some(v) => v,
            None => {
                return Err(MathsError::DivisionByZero);
            },
        };
        let y = match self.y.checked_div(s) {
            Some(v) => v,
            None => {
                return Err(MathsError::DivisionByZero);
            },
        };
        let z = match self.z.checked_div(s) {
            Some(v) => v,
            None => {
                return Err(MathsError::DivisionByZero);
            },
        };
        let w = match self.w.checked_div(s) {
            Some(v) => v,
            None => {
                return Err(MathsError::DivisionByZero);
            },
        };
        Ok(Tuple { x, y, z, w })
    }

    /// Dot product; `w` contributes like the spatial components.
    pub fn dot(self, other: Tuple) -> (r: i64)
        requires
            self.bounded(ENTRY_BOUND as int),
            other.bounded(ENTRY_BOUND as int),
        ensures
            r == dot_spec(self, other),
    {
        proof {
            lemma_mul_bound(self.x as int, other.x as int, ENTRY_BOUND as int, ENTRY_BOUND as int);
            lemma_mul_bound(self.y as int, other.y as int, ENTRY_BOUND as int, ENTRY_BOUND as int);
            lemma_mul_bound(self.z as int, other.z as int, ENTRY_BOUND as int, ENTRY_BOUND as int);
            lemma_mul_bound(self.w as int, other.w as int, ENTRY_BOUND as int, ENTRY_BOUND as int);
        }
        self.x * other.x + self.y * other.y + self.z * other.z + self.w * other.w
    }

    /// Squared length: the dot product of the tuple with itself, never
    /// negative.
    pub fn norm2(self) -> (r: i64)
        requires
            self.bounded(ENTRY_BOUND as int),
        ensures
            r == dot_spec(self, self),
            r >= 0,
    {
        proof {
            lemma_square_nonneg(self.x as int);
            lemma_square_nonneg(self.y as int);
            lemma_square_nonneg(self.z as int);
            lemma_square_nonneg(self.w as int);
        }
        self.dot(self)
    }

    /// Three-dimensional cross product on x, y, z; the result is a vector
    /// (its `w` is zero).
    pub fn cross(self, other: Tuple) -> (r: Tuple)
        requires
            self.bounded(ENTRY_BOUND as int),
            other.bounded(ENTRY_BOUND as int),
        ensures
            r.x == cross_x(self, other),
            r.y == cross_y(self, other),
            r.z == cross_z(self, other),
            r.w == 0,
    {
        proof {
            lemma_mul_bound(self.y as int, other.z as int, ENTRY_BOUND as int, ENTRY_BOUND as int);
            lemma_mul_bound(self.z as int, other.y as int, ENTRY_BOUND as int, ENTRY_BOUND as int);
            lemma_mul_bound(self.z as int, other.x as int, ENTRY_BOUND as int, ENTRY_BOUND as int);
            lemma_mul_bound(self.x as int, other.z as int, ENTRY_BOUND as int, ENTRY_BOUND as int);
            lemma_mul_bound(self.x as int, other.y as int, ENTRY_BOUND as int, ENTRY_BOUND as int);
            lemma_mul_bound(self.y as int, other.x as int, ENTRY_BOUND as int, ENTRY_BOUND as int);
        }
        Tuple {
            x: self.y * other.z - self.z * other.y,
            y: self.z * other.x - self.x * other.z,
            z: self.x * other.y - self.y * other.x,
            w: 0,
        }
    }
}

/// `div_trunc` never exceeds the dividend in magnitude.
pub(crate) proof fn lemma_div_trunc_in_range(a: int, b: int)
    requires
        b != 0,
    ensures
        a >= 0 ==> -a <= div_trunc(a, b) <= a,
        a < 0 ==> a <= div_trunc(a, b) <= -a,
{
    if a == 0 {
    } else if a > 0 && b > 0 {
        vstd::arithmetic::div_mod::lemma_div_pos_is_pos(a, b);
        vstd::arithmetic::div_mod::lemma_div_nonincreasing(a, b);
    } else if a < 0 && b < 0 {
        vstd::arithmetic::div_mod::lemma_div_pos_is_pos(a * -1, b * -1);
        vstd::arithmetic::div_mod::lemma_div_nonincreasing(a * -1, b * -1);
    } else if a < 0 {
        vstd::arithmetic::div_mod::lemma_div_pos_is_pos(a * -1, b);
        vstd::arithmetic::div_mod::lemma_div_nonincreasing(a * -1, b);
    } else {
        vstd::arithmetic::div_mod::lemma_div_pos_is_pos(a, b * -1);
        vstd::arithmetic::div_mod::lemma_div_nonincreasing(a, b * -1);
    }
}

/// A vector: a tuple whose `w` is zero.
pub fn vector(x: i64, y: i64, z: i64) -> (r: Tuple)
    ensures
        r == (Tuple { x, y, z, w: 0 }),
{
    Tuple { x, y, z, w: 0 }
}

/// A point: a tuple whose `w` is one.
pub fn point(x: i64, y: i64, z: i64) -> (r: Tuple)
    ensures
        r == (Tuple { x, y, z, w: 1 }),
{
    Tuple { x, y, z, w: 1 }
}

/// Index into the rows (or columns) that remain after one row (or column)
/// has been removed: indices below the removed one keep their place, the
/// rest shift up by one.
pub open spec fn skip_idx(i: int, removed: int) -> int {
    if i < removed {
        i
    } else {
        i + 1
    }
}

/// A two-by-two matrix of exact integer entries; the base case of cofactor
/// expansion.
#[derive(Clone, Copy, Debug, PartialEq, Eq, Structural)]
pub struct Matrix2 {
    pub m00: i64,
    pub m01: i64,
    pub m10: i64,
    pub m11: i64,
}

impl Matrix2 {
    /// Entry at `(i, j)`, rows and columns counted from zero.
    pub open spec fn idx(self, i: int, j: int) -> i64 {
        if i == 0 {
            if j == 0 {
                self.m00
            } else {
                self.m01
            }
        } else {
            if j == 0 {
                self.m10
            } else {
                self.m11
            }
        }
    }

    /// Every entry lies in `[-bound, bound]`.
    pub open spec fn bounded(self, bound: int) -> bool {
        &&& -bound <= self.m00 <= bound
        &&& -bound <= self.m01 <= bound
        &&& -bound <= self.m10 <= bound
        &&& -bound <= self.m11 <= bound
    }

    /// Determinant of a two-by-two matrix.
    pub open spec fn det_spec(self) -> int {
        self.m00 * self.m11 - self.m01 * self.m10
    }

    pub fn new(m00: i64, m01: i64, m10: i64, m11: i64) -> (r: Matrix2)
        ensures
            r == (Matrix2 { m00, m01, m10, m11 }),
    {
        Matrix2 { m00, m01, m10, m11 }
    }

    /// Entry at `(row, col)`, or `IndexOutOfRange` outside the matrix.
    pub fn at(&self, row: usize, col: usize) -> (r: Result<i64, MathsError>)
        ensures
            row < 2 && col < 2 ==> r == Ok::<i64, MathsError>(self.idx(row as int, col as int)),
            row >= 2 || col >= 2 ==> r == Err::<i64, MathsError>(MathsError::IndexOutOfRange),
    {
        match (row, col) {
            (0, 0) => Ok(self.m00),
            (0, 1) => Ok(self.m01),
            (1, 0) => Ok(self.m10),
            (1, 1) => Ok(self.m11),
            _ => Err(MathsError::IndexOutOfRange),
        }
    }

    /// Determinant: `m00 * m11 - m01 * m10`.
    pub fn det(&self) -> (r: i64)
        requires
            self.bounded(ENTRY_BOUND as int),
        ensures
            r == self.det_spec(),
    {
        proof {
            lemma_mul_bound(self.m00 as int, self.m11 as int, 10_000, 10_000);
            lemma_mul_bound(self.m01 as int, self.m10 as int, 10_000, 10_000);
        }
        self.m00 * self.m11 - self.m01 * self.m10
    }

    /// A matrix is invertible exactly when its determinant is not zero.
    pub fn is_invertible(&self) -> (r: bool)
        requires
            self.bounded(ENTRY_BOUND as int),
        ensures
            r == (self.det_spec() != 0),
    {
        self.det() != 0
    }

    /// The matrix with entry `(i, j)` replaced by `v`.
    pub open spec fn upd(self, i: int, j: int, v: i64) -> Matrix2 {
        if i == 0 {
            if j == 0 {
                Matrix2 { m00: v, ..self }
            } else {
                Matrix2 { m01: v, ..self }
            }
        } else {
            if j == 0 {
                Matrix2 { m10: v, ..self }
            } else {
                Matrix2 { m11: v, ..self }
            }
        }
    }

    /// The matrix with every entry `(i, j)` moved to `(j, i)`.
    pub open spec fn transpose_spec(self) -> Matrix2 {
        Matrix2 { m00: self.m00, m01: self.m10, m10: self.m01, m11: self.m11 }
    }

    /// The multiplicative unit.
    pub open spec fn identity_spec() -> Matrix2 {
        Matrix2 { m00: 1, m01: 0, m10: 0, m11: 1 }
    }

    /// The all-zero matrix.
    pub open spec fn zero_spec() -> Matrix2 {
        Matrix2 { m00: 0, m01: 0, m10: 0, m11: 0 }
    }

    /// The all-zero matrix.
    pub fn zero() -> (r: Matrix2)
        ensures
            r == Matrix2::zero_spec(),
    {
        Matrix2 { m00: 0, m01: 0, m10: 0, m11: 0 }
    }

    /// The multiplicative unit.
    pub fn identity() -> (r: Matrix2)
        ensures
            r == Matrix2::identity_spec(),
    {
        Matrix2 { m00: 1, m01: 0, m10: 0, m11: 1 }
    }

    /// Replaces the entry at `(row, col)`, or fails with `IndexOutOfRange`
    /// leaving the matrix unchanged.
    pub fn set(&mut self, v: i64, row: usize, col: usize) -> (r: Result<(), MathsError>)
        ensures
            row < 2 && col < 2 ==> r == Ok::<(), MathsError>(()) && *final(self) == old(self).upd(
                row as int,
                col as int,
                v,
            ),
            row >= 2 || col >= 2 ==> r == Err::<(), MathsError>(MathsError::IndexOutOfRange)
                && *final(self) == *old(self),
    {
        match (row, col) {
            (0, 0) => {
                self.m00 = v;
                Ok(())
            },
            (0, 1) => {
                self.m01 = v;
                Ok(())
            },
            (1, 0) => {
                self.m10 = v;
                Ok(())
            },
            (1, 1) => {
                self.m11 = v;
                Ok(())
            },
            _ => Err(MathsError::IndexOutOfRange),
        }
    }

    /// Transpose: every entry `(i, j)` moves to `(j, i)`.
    pub fn transpose(&self) -> (r: Matrix2)
        ensures
            r == self.transpose_spec(),
            forall|i: int, j: int| 0 <= i < 2 && 0 <= j < 2 ==> r.idx(i, j) == self.idx(j, i),
    {
        Matrix2 { m00: self.m00, m01: self.m10, m10: self.m01, m11: self.m11 }
    }

    /// Matrix product: entry `(i, j)` is the dot product of row `i` of
    /// `self` with column `j` of `other`.
    pub fn mul(self, other: Matrix2) -> (r: Matrix2)
        requires
            self.bounded(ENTRY_BOUND as int),
            other.bounded(ENTRY_BOUND as int),
        ensures
            forall|i: int, j: int|
                0 <= i < 2 && 0 <= j < 2 ==> r.idx(i, j) == row_dot2(self, other, i, j),
    {
        proof {
            lemma_mul_bound(self.m00 as int, other.m00 as int, 10_000, 10_000);
            lemma_mul_bound(self.m01 as int, other.m10 as int, 10_000, 10_000);
            lemma_mul_bound(self.m00 as int, other.m01 as int, 10_000, 10_000);
            lemma_mul_bound(self.m01 as int, other.m11 as int, 10_000, 10_000);
            lemma_mul_bound(self.m10 as int, other.m00 as int, 10_000, 10_000);
            lemma_mul_bound(self.m11 as int, other.m10 as int, 10_000, 10_000);
            lemma_mul_bound(self.m10 as int, other.m01 as int, 10_000, 10_000);
            lemma_mul_bound(self.m11 as int, other.m11 as int, 10_000, 10_000);
        }
        Matrix2 {
            m00: self.m00 * other.m00 + self.m01 * other.m10,
            m01: self.m00 * other.m01 + self.m01 * other.m11,
            m10: self.m10 * other.m00 + self.m11 * other.m10,
            m11: self.m10 * other.m01 + self.m11 * other.m11,
        }
    }

    /// Exact inverse by the adjugate method, as a numerator matrix and a
    /// common denominator: entry `(i, j)` of the inverse is
    /// `num.idx(i, j) / den` with `den` the determinant. Fails with
    /// `NotInvertible` exactly when the determinant is zero.
    pub fn inverse(&self) -> (r: Result<(Matrix2, i64), MathsError>)
        requires
            self.bounded(ENTRY_BOUND as int),
        ensures
            self.det_spec() == 0 ==> r == Err::<(Matrix2, i64), MathsError>(
                MathsError::NotInvertible,
            ),
            self.det_spec() != 0 ==> (r matches Ok((num, den)) && den == self.det_spec() && num.m00
                == self.m11 && num.m01 == -self.m01 && num.m10 == -self.m10 && num.m11
                == self.m00),
    {
        let d = self.det();
        if d == 0 {
            return Err(MathsError::NotInvertible);
        }
        Ok((Matrix2 { m00: self.m11, m01: -self.m01, m10: -self.m10, m11: self.m00 }, d))
    }
}

/// Entry `(i, j)` of the product of two two-by-two matrices.
pub open spec fn row_dot2(a: Matrix2, b: Matrix2, i: int, j: int) -> int {
    a.idx(i, 0) * b.idx(0, j) + a.idx(i, 1) * b.idx(1, j)
}

/// The determinant of a bounded two-by-two matrix is at most twice the
/// squared entry bound in magnitude.
proof fn lemma_det2_bound(m: Matrix2)
    requires
        m.bounded(ENTRY_BOUND as int),
    ensures
        -200_000_000 <= m.det_spec() <= 200_000_000,
{
    lemma_mul_bound(m.m00 as int, m.m11 as int, 10_000, 10_000);
    lemma_mul_bound(m.m01 as int, m.m10 as int, 10_000, 10_000);
}

/// A three-by-three matrix of exact integer entries. Arises chiefly as a
/// submatrix of a four-by-four matrix during cofactor expansion.
#[derive(Clone, Copy, Debug, PartialEq, Eq, Structural)]
pub struct Matrix3 {
    pub m00: i64,
    pub m01: i64,
    pub m02: i64,
    pub m10: i64,
    pub m11: i64,
    pub m12: i64,
    pub m20: i64,
    pub m21: i64,
    pub m22: i64,
}

impl Matrix3 {
    /// Entry at `(i, j)`, rows and columns counted from zero.
    pub open spec fn idx(self, i: int, j: int) -> i64 {
        if i == 0 {
            if j == 0 {
                self.m00
            } else if j == 1 {
                self.m01
            } else {
                self.m02
            }
        } else if i == 1 {
            if j == 0 {
                self.m10
            } else if j == 1 {
                self.m11
            } else {
                self.m12
            }
        } else {
            if j == 0 {
                self.m20
            } else if j == 1 {
                self.m21
            } else {
                self.m22
            }
        }
    }

    /// Every entry lies in `[-bound, bound]`.
    pub open spec fn bounded(self, bound: int) -> bool {
        &&& -bound <= self.m00 <= bound
        &&& -bound <= self.m01 <= bound
        &&& -bound <= self.m02 <= bound
        &&& -bound <= self.m10 <= bound
        &&& -bound <= self.m11 <= bound
        &&& -bound <= self.m12 <= bound
        &&& -bound <= self.m20 <= bound
        &&& -bound <= self.m21 <= bound
        &&& -bound <= self.m22 <= bound
    }

    /// The two-by-two matrix left after removing `row` and `col`.
    pub open spec fn submatrix_spec(self, row: int, col: int) -> Matrix2 {
        Matrix2 {
            m00: self.idx(skip_idx(0, row), skip_idx(0, col)),
            m01: self.idx(skip_idx(0, row), skip_idx(1, col)),
            m10: self.idx(skip_idx(1, row), skip_idx(0, col)),
            m11: self.idx(skip_idx(1, row), skip_idx(1, col)),
        }
    }

    /// Minor: determinant of the submatrix at `(row, col)`.
    pub open spec fn minor_spec(self, row: int, col: int) -> int {
        self.submatrix_spec(row, col).det_spec()
    }

    /// Cofactor: the minor, negated when `row + col` is odd.
    pub open spec fn cofactor_spec(self, row: int, col: int) -> int {
        if (row + col) % 2 == 0 {
            self.minor_spec(row, col)
        } else {
            -self.minor_spec(row, col)
        }
    }

    /// Determinant by cofactor expansion along row zero.
    pub open spec fn det_spec(self) -> int {
        self.m00 * self.cofactor_spec(0, 0) + self.m01 * self.cofactor_spec(0, 1) + self.m02
            * self.cofactor_spec(0, 2)
    }

    pub fn new(
        m00: i64,
        m01: i64,
        m02: i64,
        m10: i64,
        m11: i64,
        m12: i64,
        m20: i64,
        m21: i64,
        m22: i64,
    ) -> (r: Matrix3)
        ensures
            r == (Matrix3 { m00, m01, m02, m10, m11, m12, m20, m21, m22 }),
    {
        Matrix3 { m00, m01, m02, m10, m11, m12, m20, m21, m22 }
    }

    /// Entry at `(row, col)`, or `IndexOutOfRange` outside the matrix.
    pub fn at(&self, row: usize, col: usize) -> (r: Result<i64, MathsError>)
        ensures
            row < 3 && col < 3 ==> r == Ok::<i64, MathsError>(self.idx(row as int, col as int)),
            row >= 3 || col >= 3 ==> r == Err::<i64, MathsError>(MathsError::IndexOutOfRange),
    {
        match (row, col) {
            (0, 0) => Ok(self.m00),
            (0, 1) => Ok(self.m01),
            (0, 2) => Ok(self.m02),
            (1, 0) => Ok(self.m10),
            (1, 1) => Ok(self.m11),
            (1, 2) => Ok(self.m12),
            (2, 0) => Ok(self.m20),
            (2, 1) => Ok(self.m21),
            (2, 2) => Ok(self.m22),
            _ => Err(MathsError::IndexOutOfRange),
        }
    }

    /// Entry at `(row, col)` for indices already known to be in range.
    fn entry(&self, row: usize, col: usize) -> (r: i64)
        requires
            row < 3,
            col < 3,
        ensures
            r == self.idx(row as int, col as int),
    {
        match (row, col) {
            (0, 0) => self.m00,
            (0, 1) => self.m01,
            (0, 2) => self.m02,
            (1, 0) => self.m10,
            (1, 1) => self.m11,
            (1, 2) => self.m12,
            (2, 0) => self.m20,
            (2, 1) => self.m21,
            _ => self.m22,
        }
    }

    /// The two-by-two matrix left after deleting `row` and `col`; an
    /// independent copy of the remaining entries.
    pub fn submatrix(&self, row: usize, col: usize) -> (r: Matrix2)
        requires
            row < 3,
            col < 3,
        ensures
            r == self.submatrix_spec(row as int, col as int),
    {
        let r0: usize = if row == 0 {
            1
        } else {
            0
        };
        let r1: usize = if row >= 2 {
            1
        } else {
            2
        };
        let c0: usize = if col == 0 {
            1
        } else {
            0
        };
        let c1: usize = if col >= 2 {
            1
        } else {
            2
        };
        Matrix2::new(
            self.entry(r0, c0),
            self.entry(r0, c1),
            self.entry(r1, c0),
            self.entry(r1, c1),
        )
    }

    /// Minor at `(row, col)`: the determinant of the submatrix there.
    pub fn minor(&self, row: usize, col: usize) -> (r: i64)
        requires
            row < 3,
            col < 3,
            self.bounded(ENTRY_BOUND as int),
        ensures
            r == self.minor_spec(row as int, col as int),
    {
        let sub = self.submatrix(row, col);
        sub.det()
    }

    /// Cofactor at `(row, col)`: the minor, negated when `row + col` is odd.
    pub fn cofactor(&self, row: usize, col: usize) -> (r: i64)
        requires
            row < 3,
            col < 3,
            self.bounded(ENTRY_BOUND as int),
        ensures
            r == self.cofactor_spec(row as int, col as int),
    {
        proof {
            lemma_det2_bound(self.submatrix_spec(row as int, col as int));
        }
        let m = self.minor(row, col);
        if (row + col) % 2 == 0 {
            m
        } else {
            -m
        }
    }

    /// Determinant by cofactor expansion along row zero.
    pub fn det(&self) -> (r: i64)
        requires
            self.bounded(ENTRY_BOUND as int),
        ensures
            r == self.det_spec(),
    {
        let c0 = self.cofactor(0, 0);
        let c1 = self.cofactor(0, 1);
        let c2 = self.cofactor(0, 2);
        proof {
            lemma_cof3_bound(*self, 0, 0);
            lemma_cof3_bound(*self, 0, 1);
            lemma_cof3_bound(*self, 0, 2);
            lemma_mul_bound(self.m00 as int, c0 as int, 10_000, 200_000_000);
            lemma_mul_bound(self.m01 as int, c1 as int, 10_000, 200_000_000);
            lemma_mul_bound(self.m02 as int, c2 as int, 10_000, 200_000_000);
        }
        self.m00 * c0 + self.m01 * c1 + self.m02 * c2
    }

    /// A matrix is invertible exactly when its determinant is not zero.
    pub fn is_invertible(&self) -> (r: bool)
        requires
            self.bounded(ENTRY_BOUND as int),
        ensures
            r == (self.det_spec() != 0),
    {
        self.det() != 0
    }

    /// The matrix with entry `(i, j)` replaced by `v`.
    pub open spec fn upd(self, i: int, j: int, v: i64) -> Matrix3 {
        if i == 0 {
            if j == 0 {
                Matrix3 { m00: v, ..self }
            } else if j == 1 {
                Matrix3 { m01: v, ..self }
            } else {
                Matrix3 { m02: v, ..self }
            }
        } else if i == 1 {
            if j == 0 {
                Matrix3 { m10: v, ..self }
            } else if j == 1 {
                Matrix3 { m11: v, ..self }
            } else {
                Matrix3 { m12: v, ..self }
            }
        } else {
            if j == 0 {
                Matrix3 { m20: v, ..self }
            } else if j == 1 {
                Matrix3 { m21: v, ..self }
            } else {
                Matrix3 { m22: v, ..self }
            }
        }
    }

    /// The matrix with every entry `(i, j)` moved to `(j, i)`.
    pub open spec fn transpose_spec(self) -> Matrix3 {
        Matrix3 {
            m00: self.m00,
            m01: self.m10,
            m02: self.m20,
            m10: self.m01,
            m11: self.m11,
            m12: self.m21,
            m20: self.m02,
            m21: self.m12,
            m22: self.m22,
        }
    }

    /// The multiplicative unit.
    pub open spec fn identity_spec() -> Matrix3 {
        Matrix3 { m00: 1, m01: 0, m02: 0, m10: 0, m11: 1, m12: 0, m20: 0, m21: 0, m22: 1 }
    }

    /// The all-zero matrix.
    pub open spec fn zero_spec() -> Matrix3 {
        Matrix3 { m00: 0, m01: 0, m02: 0, m10: 0, m11: 0, m12: 0, m20: 0, m21: 0, m22: 0 }
    }

    /// The all-zero matrix.
    pub fn zero() -> (r: Matrix3)
        ensures
            r == Matrix3::zero_spec(),
    {
        Matrix3 { m00: 0, m01: 0, m02: 0, m10: 0, m11: 0, m12: 0, m20: 0, m21: 0, m22: 0 }
    }

    /// The multiplicative unit.
    pub fn identity() -> (r: Matrix3)
        ensures
            r == Matrix3::identity_spec(),
    {
        Matrix3 { m00: 1, m01: 0, m02: 0, m10: 0, m11: 1, m12: 0, m20: 0, m21: 0, m22: 1 }
    }

    /// Replaces the entry at `(row, col)`, or fails with `IndexOutOfRange`
    /// leaving the matrix unchanged.
    pub fn set(&mut self, v: i64, row: usize, col: usize) -> (r: Result<(), MathsError>)
        ensures
            row < 3 && col < 3 ==> r == Ok::<(), MathsError>(()) && *final(self) == old(self).upd(
                row as int,
                col as int,
                v,
            ),
            row >= 3 || col >= 3 ==> r == Err::<(), MathsError>(MathsError::IndexOutOfRange)
                && *final(self) == *old(self),
    {
        match (row, col) {
            (0, 0) => {
                self.m00 = v;
                Ok(())
            },
            (0, 1) => {
                self.m01 = v;
                Ok(())
            },
            (0, 2) => {
                self.m02 = v;
                Ok(())
            },
            (1, 0) => {
                self.m10 = v;
                Ok(())
            },
            (1, 1) => {
                self.m11 = v;
                Ok(())
            },
            (1, 2) => {
                self.m12 = v;
                Ok(())
            },
            (2, 0) => {
                self.m20 = v;
                Ok(())
            },
            (2, 1) => {
                self.m21 = v;
                Ok(())
            },
            (2, 2) => {
                self.m22 = v;
                Ok(())
            },
            _ => Err(MathsError::IndexOutOfRange),
        }
    }

    /// Transpose: every entry `(i, j)` moves to `(j, i)`.
    pub fn transpose(&self) -> (r: Matrix3)
        ensures
            r == self.transpose_spec(),
            forall|i: int, j: int| 0 <= i < 3 && 0 <= j < 3 ==> r.idx(i, j) == self.idx(j, i),
    {
        Matrix3 {
            m00: self.m00,
            m01: self.m10,
            m02: self.m20,
            m10: self.m01,
            m11: self.m11,
            m12: self.m21,
            m20: self.m02,
            m21: self.m12,
            m22: self.m22,
        }
    }

    /// A three-term dot product of bounded entries.
    fn dot3(a0: i64, a1: i64, a2: i64, b0: i64, b1: i64, b2: i64) -> (r: i64)
        requires
            -ENTRY_BOUND <= a0 <= ENTRY_BOUND,
            -ENTRY_BOUND <= a1 <= ENTRY_BOUND,
            -ENTRY_BOUND <= a2 <= ENTRY_BOUND,
            -ENTRY_BOUND <= b0 <= ENTRY_BOUND,
            -ENTRY_BOUND <= b1 <= ENTRY_BOUND,
            -ENTRY_BOUND <= b2 <= ENTRY_BOUND,
        ensures
            r == a0 * b0 + a1 * b1 + a2 * b2,
    {
        proof {
            lemma_mul_bound(a0 as int, b0 as int, 10_000, 10_000);
            lemma_mul_bound(a1 as int, b1 as int, 10_000, 10_000);
            lemma_mul_bound(a2 as int, b2 as int, 10_000, 10_000);
        }
        a0 * b0 + a1 * b1 + a2 * b2
    }

    /// Matrix product: entry `(i, j)` is the dot product of row `i` of
    /// `self` with column `j` of `other`.
    pub fn mul(self, other: Matrix3) -> (r: Matrix3)
        requires
            self.bounded(ENTRY_BOUND as int),
            other.bounded(ENTRY_BOUND as int),
        ensures
            forall|i: int, j: int|
                0 <= i < 3 && 0 <= j < 3 ==> r.idx(i, j) == row_dot3(self, other, i, j),
    {
        Matrix3 {
            m00: Self::dot3(self.m00, self.m01, self.m02, other.m00, other.m10, other.m20),
            m01: Self::dot3(self.m00, self.m01, self.m02, other.m01, other.m11, other.m21),
            m02: Self::dot3(self.m00, self.m01, self.m02, other.m02, other.m12, other.m22),
            m10: Self::dot3(self.m10, self.m11, self.m12, other.m00, other.m10, other.m20),
            m11: Self::dot3(self.m10, self.m11, self.m12, other.m01, other.m11, other.m21),
            m12: Self::dot3(self.m10, self.m11, self.m12, other.m02, other.m12, other.m22),
            m20: Self::dot3(self.m20, self.m21, self.m22, other.m00, other.m10, other.m20),
            m21: Self::dot3(self.m20, self.m21, self.m22, other.m01, other.m11, other.m21),
            m22: Self::dot3(self.m20, self.m21, self.m22, other.m02, other.m12, other.m22),
        }
    }

    /// Exact inverse by the adjugate method, as a numerator matrix and a
    /// common denominator: entry `(i, j)` of the inverse is
    /// `num.idx(i, j) / den`, with `num.idx(i, j)` the cofactor at `(j, i)`
    /// and `den` the determinant. Fails with `NotInvertible` exactly when
    /// the determinant is zero.
    pub fn inverse(&self) -> (r: Result<(Matrix3, i64), MathsError>)
        requires
            self.bounded(ENTRY_BOUND as int),
        ensures
            self.det_spec() == 0 ==> r == Err::<(Matrix3, i64), MathsError>(
                MathsError::NotInvertible,
            ),
            self.det_spec() != 0 ==> (r matches Ok((num, den)) && den == self.det_spec() && forall|
                i: int,
                j: int,
            |
                0 <= i < 3 && 0 <= j < 3 ==> num.idx(i, j) == self.cofactor_spec(j, i)),
    {
        let d = self.det();
        if d == 0 {
            return Err(MathsError::NotInvertible);
        }
        let num = Matrix3::new(
            self.cofactor(0, 0),
            self.cofactor(1, 0),
            self.cofactor(2, 0),
            self.cofactor(0, 1),
            self.cofactor(1, 1),
            self.cofactor(2, 1),
            self.cofactor(0, 2),
            self.cofactor(1, 2),
            self.cofactor(2, 2),
        );
        Ok((num, d))
    }
}

/// Entry `(i, j)` of the product of two three-by-three matrices.
pub open spec fn row_dot3(a: Matrix3, b: Matrix3, i: int, j: int) -> int {
    a.idx(i, 0) * b.idx(0, j) + a.idx(i, 1) * b.idx(1, j) + a.idx(i, 2) * b.idx(2, j)
}

/// Submatrices of a bounded matrix are bounded the same way.
proof fn lemma_sub3_bounded(m: Matrix3, row: int, col: int)
    requires
        m.bounded(ENTRY_BOUND as int),
        0 <= row < 3,
        0 <= col < 3,
    ensures
        m.submatrix_spec(row, col).bounded(ENTRY_BOUND as int),
{
}

/// Cofactors of a bounded three-by-three matrix are at most twice the
/// squared entry bound in magnitude.
proof fn lemma_cof3_bound(m: Matrix3, row: int, col: int)
    requires
        m.bounded(ENTRY_BOUND as int),
        0 <= row < 3,
        0 <= col < 3,
    ensures
        -200_000_000 <= m.cofactor_spec(row, col) <= 200_000_000,
{
    lemma_sub3_bounded(m, row, col);
    lemma_det2_bound(m.submatrix_spec(row, col));
}

/// The determinant of a bounded three-by-three matrix is at most six times
/// the cubed entry bound in magnitude.
proof fn lemma_det3_bound(m: Matrix3)
    requires
        m.bounded(ENTRY_BOUND as int),
    ensures
        -6_000_000_000_000 <= m.det_spec() <= 6_000_000_000_000,
{
    lemma_cof3_bound(m, 0, 0);
    lemma_cof3_bound(m, 0, 1);
    lemma_cof3_bound(m, 0, 2);
    lemma_mul_bound(m.m00 as int, m.cofactor_spec(0, 0), 10_000, 200_000_000);
    lemma_mul_bound(m.m01 as int, m.cofactor_spec(0, 1), 10_000, 200_000_000);
    lemma_mul_bound(m.m02 as int, m.cofactor_spec(0, 2), 10_000, 200_000_000);
}

/// A four-by-four matrix of exact integer entries: the transform type of
/// the engine. Multiplies other four-by-four matrices and tuples.
#[derive(Clone, Copy, Debug, PartialEq, Eq, Structural)]
pub struct Matrix4 {
    pub m00: i64,
    pub m01: i64,
    pub m02: i64,
    pub m03: i64,
    pub m10: i64,
    pub m11: i64,
    pub m12: i64,
    pub m13: i64,
    pub m20: i64,
    pub m21: i64,
    pub m22: i64,
    pub m23: i64,
    pub m30: i64,
    pub m31: i64,
    pub m32: i64,
    pub m33: i64,
}

/// Entry `(i, j)` of the product of two four-by-four matrices.
pub open spec fn row_dot4(a: Matrix4, b: Matrix4, i: int, j: int) -> int {
    a.idx(i, 0) * b.idx(0, j) + a.idx(i, 1) * b.idx(1, j) + a.idx(i, 2) * b.idx(2, j) + a.idx(i, 3)
        * b.idx(3, j)
}

/// Component `i` of the product of a four-by-four matrix and a tuple.
pub open spec fn row_dot_tuple(m: Matrix4, t: Tuple, i: int) -> int {
    m.idx(i, 0) * t.x + m.idx(i, 1) * t.y + m.idx(i, 2) * t.z + m.idx(i, 3) * t.w
}

impl Matrix4 {
    /// Entry at `(i, j)`, rows and columns counted from zero.
    pub open spec fn idx(self, i: int, j: int) -> i64 {
        if i == 0 {
            if j == 0 {
                self.m00
            } else if j == 1 {
                self.m01
            } else if j == 2 {
                self.m02
            } else {
                self.m03
            }
        } else if i == 1 {
            if j == 0 {
                self.m10
            } else if j == 1 {
                self.m11
            } else if j == 2 {
                self.m12
            } else {
                self.m13
            }
        } else if i == 2 {
            if j == 0 {
                self.m20
            } else if j == 1 {
                self.m21
            } else if j == 2 {
                self.m22
            } else {
                self.m23
            }
        } else {
            if j == 0 {
                self.m30
            } else if j == 1 {
                self.m31
            } else if j == 2 {
                self.m32
            } else {
                self.m33
            }
        }
    }

    /// The matrix with entry `(i, j)` replaced by `v`.
    pub open spec fn upd(self, i: int, j: int, v: i64) -> Matrix4 {
        if i == 0 {
            if j == 0 {
                Matrix4 { m00: v, ..self }
            } else if j == 1 {
                Matrix4 { m01: v, ..self }
            } else if j == 2 {
                Matrix4 { m02: v, ..self }
            } else {
                Matrix4 { m03: v, ..self }
            }
        } else if i == 1 {
            if j == 0 {
                Matrix4 { m10: v, ..self }
            } else if j == 1 {
                Matrix4 { m11: v, ..self }
            } else if j == 2 {
                Matrix4 { m12: v, ..self }
            } else {
                Matrix4 { m13: v, ..self }
            }
        } else if i == 2 {
            if j == 0 {
                Matrix4 { m20: v, ..self }
            } else if j == 1 {
                Matrix4 { m21: v, ..self }
            } else if j == 2 {
                Matrix4 { m22: v, ..self }
            } else {
                Matrix4 { m23: v, ..self }
            }
        } else {
            if j == 0 {
                Matrix4 { m30: v, ..self }
            } else if j == 1 {
                Matrix4 { m31: v, ..self }
            } else if j == 2 {
                Matrix4 { m32: v, ..self }
            } else {
                Matrix4 { m33: v, ..self }
            }
        }
    }

    /// Every entry lies in `[-bound, bound]`.
    pub open spec fn bounded(self, bound: int) -> bool {
        &&& -bound <= self.m00 <= bound
        &&& -bound <= self.m01 <= bound
        &&& -bound <= self.m02 <= bound
        &&& -bound <= self.m03 <= bound
        &&& -bound <= self.m10 <= bound
        &&& -bound <= self.m11 <= bound
        &&& -bound <= self.m12 <= bound
        &&& -bound <= self.m13 <= bound
        &&& -bound <= self.m20 <= bound
        &&& -bound <= self.m21 <= bound
        &&& -bound <= self.m22 <= bound
        &&& -bound <= self.m23 <= bound
        &&& -bound <= self.m30 <= bound
        &&& -bound <= self.m31 <= bound
        &&& -bound <= self.m32 <= bound
        &&& -bound <= self.m33 <= bound
    }

    /// The matrix with every entry `(i, j)` moved to `(j, i)`.
    pub open spec fn transpose_spec(self) -> Matrix4 {
        Matrix4 {
            m00: self.m00,
            m01: self.m10,
            m02: self.m20,
            m03: self.m30,
            m10: self.m01,
            m11: self.m11,
            m12: self.m21,
            m13: self.m31,
            m20: self.m02,
            m21: self.m12,
            m22: self.m22,
            m23: self.m32,
            m30: self.m03,
            m31: self.m13,
            m32: self.m23,
            m33: self.m33,
        }
    }

    /// The multiplicative unit: ones on the diagonal, zeroes elsewhere.
    pub open spec fn identity_spec() -> Matrix4 {
        Matrix4 {
            m00: 1,
            m01: 0,
            m02: 0,
            m03: 0,
            m10: 0,
            m11: 1,
            m12: 0,
            m13: 0,
            m20: 0,
            m21: 0,
            m22: 1,
            m23: 0,
            m30: 0,
            m31: 0,
            m32: 0,
            m33: 1,
        }
    }

    /// The all-zero matrix.
    pub open spec fn zero_spec() -> Matrix4 {
        Matrix4 {
            m00: 0,
            m01: 0,
            m02: 0,
            m03: 0,
            m10: 0,
            m11: 0,
            m12: 0,
            m13: 0,
            m20: 0,
            m21: 0,
            m22: 0,
            m23: 0,
            m30: 0,
            m31: 0,
            m32: 0,
            m33: 0,
        }
    }

    /// The three-by-three matrix left after removing `row` and `col`.
    pub open spec fn submatrix_spec(self, row: int, col: int) -> Matrix3 {
        Matrix3 {
            m00: self.idx(skip_idx(0, row), skip_idx(0, col)),
            m01: self.idx(skip_idx(0, row), skip_idx(1, col)),
            m02: self.idx(skip_idx(0, row), skip_idx(2, col)),
            m10: self.idx(skip_idx(1, row), skip_idx(0, col)),
            m11: self.idx(skip_idx(1, row), skip_idx(1, col)),
            m12: self.idx(skip_idx(1, row), skip_idx(2, col)),
            m20: self.idx(skip_idx(2, row), skip_idx(0, col)),
            m21: self.idx(skip_idx(2, row), skip_idx(1, col)),
            m22: self.idx(skip_idx(2, row), skip_idx(2, col)),
        }
    }

    /// Minor: determinant of the submatrix at `(row, col)`.
    pub open spec fn minor_spec(self, row: int, col: int) -> int {
        self.submatrix_spec(row, col).det_spec()
    }

    /// Cofactor: the minor, negated when `row + col` is odd.
    pub open spec fn cofactor_spec(self, row: int, col: int) -> int {
        if (row + col) % 2 == 0 {
            self.minor_spec(row, col)
        } else {
            -self.minor_spec(row, col)
        }
    }

    /// Determinant by cofactor expansion along row zero.
    pub open spec fn det_spec(self) -> int {
        self.m00 * self.cofactor_spec(0, 0) + self.m01 * self.cofactor_spec(0, 1) + self.m02
            * self.cofactor_spec(0, 2) + self.m03 * self.cofactor_spec(0, 3)
    }

    pub fn new(
        m00: i64,
        m01: i64,
        m02: i64,
        m03: i64,
        m10: i64,
        m11: i64,
        m12: i64,
        m13: i64,
        m20: i64,
        m21: i64,
        m22: i64,
        m23: i64,
        m30: i64,
        m31: i64,
        m32: i64,
        m33: i64,
    ) -> (r: Matrix4)
        ensures
            r == (Matrix4 {
                m00,
                m01,
                m02,
                m03,
                m10,
                m11,
                m12,
                m13,
                m20,
                m21,
                m22,
                m23,
                m30,
                m31,
                m32,
                m33,
            }),
    {
        Matrix4 {
            m00,
            m01,
            m02,
            m03,
            m10,
            m11,
            m12,
            m13,
            m20,
            m21,
            m22,
            m23,
            m30,
            m31,
            m32,
            m33,
        }
    }

    /// The all-zero matrix.
    pub fn zero() -> (r: Matrix4)
        ensures
            r == Matrix4::zero_spec(),
    {
        Matrix4::new(0, 0, 0, 0, 0, 0, 0, 0, 0, 0, 0, 0, 0, 0, 0, 0)
    }

    /// The multiplicative unit.
    pub fn identity() -> (r: Matrix4)
        ensures
            r == Matrix4::identity_spec(),
    {
        Matrix4::new(1, 0, 0, 0, 0, 1, 0, 0, 0, 0, 1, 0, 0, 0, 0, 1)
    }

    /// Entry at `(row, col)`, or `IndexOutOfRange` outside the matrix.
    pub fn at(&self, row: usize, col: usize) -> (r: Result<i64, MathsError>)
        ensures
            row < 4 && col < 4 ==> r == Ok::<i64, MathsError>(self.idx(row as int, col as int)),
            row >= 4 || col >= 4 ==> r == Err::<i64, MathsError>(MathsError::IndexOutOfRange),
    {
        if row < 4 && col < 4 {
            Ok(self.entry(row, col))
        } else {
            Err(MathsError::IndexOutOfRange)
        }
    }

    /// Entry at `(row, col)` for indices already known to be in range.
    fn entry(&self, row: usize, col: usize) -> (r: i64)
        requires
            row < 4,
            col < 4,
        ensures
            r == self.idx(row as int, col as int),
    {
        match (row, col) {
            (0, 0) => self.m00,
            (0, 1) => self.m01,
            (0, 2) => self.m02,
            (0, 3) => self.m03,
            (1, 0) => self.m10,
            (1, 1) => self.m11,
            (1, 2) => self.m12,
            (1, 3) => self.m13,
            (2, 0) => self.m20,
            (2, 1) => self.m21,
            (2, 2) => self.m22,
            (2, 3) => self.m23,
            (3, 0) => self.m30,
            (3, 1) => self.m31,
            (3, 2) => self.m32,
            _ => self.m33,
        }
    }

    /// Replaces the entry at `(row, col)`, or fails with `IndexOutOfRange`
    /// leaving the matrix unchanged. The sole mutating operation.
    pub fn set(&mut self, v: i64, row: usize, col: usize) -> (r: Result<(), MathsError>)
        ensures
            row < 4 && col < 4 ==> r == Ok::<(), MathsError>(()) && *final(self) == old(self).upd(
                row as int,
                col as int,
                v,
            ),
            row >= 4 || col >= 4 ==> r == Err::<(), MathsError>(MathsError::IndexOutOfRange)
                && *final(self) == *old(self),
    {
        match (row, col) {
            (0, 0) => {
                self.m00 = v;
                Ok(())
            },
            (0, 1) => {
                self.m01 = v;
                Ok(())
            },
            (0, 2) => {
                self.m02 = v;
                Ok(())
            },
            (0, 3) => {
                self.m03 = v;
                Ok(())
            },
            (1, 0) => {
                self.m10 = v;
                Ok(())
            },
            (1, 1) => {
                self.m11 = v;
                Ok(())
            },
            (1, 2) => {
                self.m12 = v;
                Ok(())
            },
            (1, 3) => {
                self.m13 = v;
                Ok(())
            },
            (2, 0) => {
                self.m20 = v;
                Ok(())
            },
            (2, 1) => {
                self.m21 = v;
                Ok(())
            },
            (2, 2) => {
                self.m22 = v;
                Ok(())
            },
            (2, 3) => {
                self.m23 = v;
                Ok(())
            },
            (3, 0) => {
                self.m30 = v;
                Ok(())
            },
            (3, 1) => {
                self.m31 = v;
                Ok(())
            },
            (3, 2) => {
                self.m32 = v;
                Ok(())
            },
            (3, 3) => {
                self.m33 = v;
                Ok(())
            },
            _ => Err(MathsError::IndexOutOfRange),
        }
    }

    /// Transpose: every entry `(i, j)` moves to `(j, i)`.
    pub fn transpose(&self) -> (r: Matrix4)
        ensures
            r == self.transpose_spec(),
            forall|i: int, j: int|
                0 <= i < 4 && 0 <= j < 4 ==> r.idx(i, j) == self.idx(j, i),
    {
        Matrix4::new(
            self.m00,
            self.m10,
            self.m20,
            self.m30,
            self.m01,
            self.m11,
            self.m21,
            self.m31,
            self.m02,
            self.m12,
            self.m22,
            self.m32,
            self.m03,
            self.m13,
            self.m23,
            self.m33,
        )
    }

    /// A four-term dot product of bounded entries.
    fn dot4(a0: i64, a1: i64, a2: i64, a3: i64, b0: i64, b1: i64, b2: i64, b3: i64) -> (r: i64)
        requires
            -ENTRY_BOUND <= a0 <= ENTRY_BOUND,
            -ENTRY_BOUND <= a1 <= ENTRY_BOUND,
            -ENTRY_BOUND <= a2 <= ENTRY_BOUND,
            -ENTRY_BOUND <= a3 <= ENTRY_BOUND,
            -ENTRY_BOUND <= b0 <= ENTRY_BOUND,
            -ENTRY_BOUND <= b1 <= ENTRY_BOUND,
            -ENTRY_BOUND <= b2 <= ENTRY_BOUND,
            -ENTRY_BOUND <= b3 <= ENTRY_BOUND,
        ensures
            r == a0 * b0 + a1 * b1 + a2 * b2 + a3 * b3,
    {
        proof {
            lemma_mul_bound(a0 as int, b0 as int, 10_000, 10_000);
            lemma_mul_bound(a1 as int, b1 as int, 10_000, 10_000);
            lemma_mul_bound(a2 as int, b2 as int, 10_000, 10_000);
            lemma_mul_bound(a3 as int, b3 as int, 10_000, 10_000);
        }
        a0 * b0 + a1 * b1 + a2 * b2 + a3 * b3
    }

    /// Matrix product: entry `(i, j)` is the dot product of row `i` of
    /// `self` with column `j` of `other`.
    pub fn mul(self, other: Matrix4) -> (r: Matrix4)
        requires
            self.bounded(ENTRY_BOUND as int),
            other.bounded(ENTRY_BOUND as int),
        ensures
            forall|i: int, j: int|
                0 <= i < 4 && 0 <= j < 4 ==> r.idx(i, j) == row_dot4(self, other, i, j),
    {
        Matrix4::new(
            Self::dot4(
                self.m00,
                self.m01,
                self.m02,
                self.m03,
                other.m00,
                other.m10,
                other.m20,
                other.m30,
            ),
            Self::dot4(
                self.m00,
                self.m01,
                self.m02,
                self.m03,
                other.m01,
                other.m11,
                other.m21,
                other.m31,
            ),
            Self::dot4(
                self.m00,
                self.m01,
                self.m02,
                self.m03,
                other.m02,
                other.m12,
                other.m22,
                other.m32,
            ),
            Self::dot4(
                self.m00,
                self.m01,
                self.m02,
                self.m03,
                other.m03,
                other.m13,
                other.m23,
                other.m33,
            ),
            Self::dot4(
                self.m10,
                self.m11,
                self.m12,
                self.m13,
                other.m00,
                other.m10,
                other.m20,
                other.m30,
            ),
            Self::dot4(
                self.m10,
                self.m11,
                self.m12,
                self.m13,
                other.m01,
                other.m11,
                other.m21,
                other.m31,
            ),
            Self::dot4(
                self.m10,
                self.m11,
                self.m12,
                self.m13,
                other.m02,
                other.m12,
                other.m22,
                other.m32,
            ),
            Self::dot4(
                self.m10,
                self.m11,
                self.m12,
                self.m13,
                other.m03,
                other.m13,
                other.m23,
                other.m33,
            ),
            Self::dot4(
                self.m20,
                self.m21,
                self.m22,
                self.m23,
                other.m00,
                other.m10,
                other.m20,
                other.m30,
            ),
            Self::dot4(
                self.m20,
                self.m21,
                self.m22,
                self.m23,
                other.m01,
                other.m11,
                other.m21,
                other.m31,
            ),
            Self::dot4(
                self.m20,
                self.m21,
                self.m22,
                self.m23,
                other.m02,
                other.m12,
                other.m22,
                other.m32,
            ),
            Self::dot4(
                self.m20,
                self.m21,
                self.m22,
                self.m23,
                other.m03,
                other.m13,
                other.m23,
                other.m33,
            ),
            Self::dot4(
                self.m30,
                self.m31,
                self.m32,
                self.m33,
                other.m00,
                other.m10,
                other.m20,
                other.m30,
            ),
            Self::dot4(
                self.m30,
                self.m31,
                self.m32,
                self.m33,
                other.m01,
                other.m11,
                other.m21,
                other.m31,
            ),
            Self::dot4(
                self.m30,
                self.m31,
                self.m32,
                self.m33,
                other.m02,
                other.m12,
                other.m22,
                other.m32,
            ),
            Self::dot4(
                self.m30,
                self.m31,
                self.m32,
                self.m33,
                other.m03,
                other.m13,
                other.m23,
                other.m33,
            ),
        )
    }

    /// Matrix-tuple product: component `i` is the dot product of row `i`
    /// with the tuple.
    pub fn mul_tuple(self, v: Tuple) -> (r: Tuple)
        requires
            self.bounded(ENTRY_BOUND as int),
            v.bounded(ENTRY_BOUND as int),
        ensures
            r.x == row_dot_tuple(self, v, 0),
            r.y == row_dot_tuple(self, v, 1),
            r.z == row_dot_tuple(self, v, 2),
            r.w == row_dot_tuple(self, v, 3),
    {
        Tuple {
            x: Self::dot4(self.m00, self.m01, self.m02, self.m03, v.x, v.y, v.z, v.w),
            y: Self::dot4(self.m10, self.m11, self.m12, self.m13, v.x, v.y, v.z, v.w),
            z: Self::dot4(self.m20, self.m21, self.m22, self.m23, v.x, v.y, v.z, v.w),
            w: Self::dot4(self.m30, self.m31, self.m32, self.m33, v.x, v.y, v.z, v.w),
        }
    }

    /// The three-by-three matrix left after deleting `row` and `col`; an
    /// independent copy of the remaining entries.
    pub fn submatrix(&self, row: usize, col: usize) -> (r: Matrix3)
        requires
            row < 4,
            col < 4,
        ensures
            r == self.submatrix_spec(row as int, col as int),
    {
        let r0: usize = if row == 0 {
            1
        } else {
            0
        };
        let r1: usize = if row >= 2 {
            1
        } else {
            2
        };
        let r2: usize = if row >= 3 {
            2
        } else {
            3
        };
        let c0: usize = if col == 0 {
            1
        } else {
            0
        };
        let c1: usize = if col >= 2 {
            1
        } else {
            2
        };
        let c2: usize = if col >= 3 {
            2
        } else {
            3
        };
        Matrix3::new(
            self.entry(r0, c0),
            self.entry(r0, c1),
            self.entry(r0, c2),
            self.entry(r1, c0),
            self.entry(r1, c1),
            self.entry(r1, c2),
            self.entry(r2, c0),
            self.entry(r2, c1),
            self.entry(r2, c2),
        )
    }

    /// Minor at `(row, col)`: the determinant of the submatrix there.
    pub fn minor(&self, row: usize, col: usize) -> (r: i64)
        requires
            row < 4,
            col < 4,
            self.bounded(ENTRY_BOUND as int),
        ensures
            r == self.minor_spec(row as int, col as int),
    {
        proof {
            lemma_sub4_bounded(*self, row as int, col as int);
        }
        let sub = self.submatrix(row, col);
        sub.det()
    }

    /// Cofactor at `(row, col)`: the minor, negated when `row + col` is odd.
    pub fn cofactor(&self, row: usize, col: usize) -> (r: i64)
        requires
            row < 4,
            col < 4,
            self.bounded(ENTRY_BOUND as int),
        ensures
            r == self.cofactor_spec(row as int, col as int),
    {
        proof {
            lemma_cof4_bound(*self, row as int, col as int);
        }
        let m = self.minor(row, col);
        if (row + col) % 2 == 0 {
            m
        } else {
            -m
        }
    }

    /// Determinant by cofactor expansion along row zero.
    pub fn det(&self) -> (r: i64)
        requires
            self.bounded(ENTRY_BOUND as int),
        ensures
            r == self.det_spec(),
    {
        let c0 = self.cofactor(0, 0);
        let c1 = self.cofactor(0, 1);
        let c2 = self.cofactor(0, 2);
        let c3 = self.cofactor(0, 3);
        proof {
            lemma_cof4_bound(*self, 0, 0);
            lemma_cof4_bound(*self, 0, 1);
            lemma_cof4_bound(*self, 0, 2);
            lemma_cof4_bound(*self, 0, 3);
            lemma_mul_bound(self.m00 as int, c0 as int, 10_000, 6_000_000_000_000);
            lemma_mul_bound(self.m01 as int, c1 as int, 10_000, 6_000_000_000_000);
            lemma_mul_bound(self.m02 as int, c2 as int, 10_000, 6_000_000_000_000);
            lemma_mul_bound(self.m03 as int, c3 as int, 10_000, 6_000_000_000_000);
        }
        self.m00 * c0 + self.m01 * c1 + self.m02 * c2 + self.m03 * c3
    }

    /// A matrix is invertible exactly when its determinant is not zero.
    pub fn is_invertible(&self) -> (r: bool)
        requires
            self.bounded(ENTRY_BOUND as int),
        ensures
            r == (self.det_spec() != 0),
    {
        self.det() != 0
    }

    /// Exact inverse by the adjugate method, as a numerator matrix and a
    /// common denominator: entry `(i, j)` of the inverse is
    /// `num.idx(i, j) / den`, with `num.idx(i, j)` the cofactor at `(j, i)`
    /// (the transpose is built into the index swap) and `den` the
    /// determinant. Fails with `NotInvertible` exactly when the determinant
    /// is zero; it never returns a numeric stand-in for a singular matrix.
    pub fn inverse(&self) -> (r: Result<(Matrix4, i64), MathsError>)
        requires
            self.bounded(ENTRY_BOUND as int),
        ensures
            self.det_spec() == 0 ==> r == Err::<(Matrix4, i64), MathsError>(
                MathsError::NotInvertible,
            ),
            self.det_spec() != 0 ==> (r matches Ok((num, den)) && den == self.det_spec() && forall|
                i: int,
                j: int,
            |
                0 <= i < 4 && 0 <= j < 4 ==> num.idx(i, j) == self.cofactor_spec(j, i)),
    {
        let d = self.det();
        if d == 0 {
            return Err(MathsError::NotInvertible);
        }
        let num = Matrix4::new(
            self.cofactor(0, 0),
            self.cofactor(1, 0),
            self.cofactor(2, 0),
            self.cofactor(3, 0),
            self.cofactor(0, 1),
            self.cofactor(1, 1),
            self.cofactor(2, 1),
            self.cofactor(3, 1),
            self.cofactor(0, 2),
            self.cofactor(1, 2),
            self.cofactor(2, 2),
            self.cofactor(3, 2),
            self.cofactor(0, 3),
            self.cofactor(1, 3),
            self.cofactor(2, 3),
            self.cofactor(3, 3),
        );
        Ok((num, d))
    }
}

/// Submatrices of a bounded matrix are bounded the same way.
proof fn lemma_sub4_bounded(m: Matrix4, row: int, col: int)
    requires
        m.bounded(ENTRY_BOUND as int),
        0 <= row < 4,
        0 <= col < 4,
    ensures
        m.submatrix_spec(row, col).bounded(ENTRY_BOUND as int),
{
}

/// Cofactors of a bounded four-by-four matrix are at most six times the
/// cubed entry bound in magnitude.
proof fn lemma_cof4_bound(m: Matrix4, row: int, col: int)
    requires
        m.bounded(ENTRY_BOUND as int),
        0 <= row < 4,
        0 <= col < 4,
    ensures
        -6_000_000_000_000 <= m.cofactor_spec(row, col) <= 6_000_000_000_000,
{
    lemma_sub4_bounded(m, row, col);
    lemma_det3_bound(m.submatrix_spec(row, col));
}

/// Transposing twice gives the original matrix back.
pub proof fn lemma_transpose_involution(m: Matrix4)
    ensures
        m.transpose_spec().transpose_spec() == m,
{
}

/// The identity matrix is the multiplicative unit on either side.
pub proof fn lemma_identity_mul(m: Matrix4)
    ensures
        forall|i: int, j: int|
            0 <= i < 4 && 0 <= j < 4 ==> row_dot4(Matrix4::identity_spec(), m, i, j) == m.idx(i, j),
        forall|i: int, j: int|
            0 <= i < 4 && 0 <= j < 4 ==> row_dot4(m, Matrix4::identity_spec(), i, j) == m.idx(i, j),
{
    let id = Matrix4::identity_spec();
    assert forall|i: int, j: int|
        0 <= i < 4 && 0 <= j < 4 implies row_dot4(id, m, i, j) == m.idx(i, j) && row_dot4(
        m,
        id,
        i,
        j,
    ) == m.idx(i, j) by {
        if i == 0 {
            assert(id.idx(i, 0) == 1 && id.idx(i, 1) == 0 && id.idx(i, 2) == 0 && id.idx(i, 3)
                == 0);
        } else if i == 1 {
            assert(id.idx(i, 0) == 0 && id.idx(i, 1) == 1 && id.idx(i, 2) == 0 && id.idx(i, 3)
                == 0);
        } else if i == 2 {
            assert(id.idx(i, 0) == 0 && id.idx(i, 1) == 0 && id.idx(i, 2) == 1 && id.idx(i, 3)
                == 0);
        } else {
            assert(id.idx(i, 0) == 0 && id.idx(i, 1) == 0 && id.idx(i, 2) == 0 && id.idx(i, 3)
                == 1);
        }
        if j == 0 {
            assert(id.idx(0, j) == 1 && id.idx(1, j) == 0 && id.idx(2, j) == 0 && id.idx(3, j)
                == 0);
        } else if j == 1 {
            assert(id.idx(0, j) == 0 && id.idx(1, j) == 1 && id.idx(2, j) == 0 && id.idx(3, j)
                == 0);
        } else if j == 2 {
            assert(id.idx(0, j) == 0 && id.idx(1, j) == 0 && id.idx(2, j) == 1 && id.idx(3, j)
                == 0);
        } else {
            assert(id.idx(0, j) == 0 && id.idx(1, j) == 0 && id.idx(2, j) == 0 && id.idx(3, j)
                == 1);
        }
        lemma_unit_products(m.idx(0, j) as int, m.idx(1, j) as int, m.idx(2, j) as int, m.idx(3, j) as int, id.idx(i, 0) as int, id.idx(i, 1) as int, id.idx(i, 2) as int, id.idx(i, 3) as int);
        lemma_unit_products(m.idx(i, 0) as int, m.idx(i, 1) as int, m.idx(i, 2) as int, m.idx(i, 3) as int, id.idx(0, j) as int, id.idx(1, j) as int, id.idx(2, j) as int, id.idx(3, j) as int);
    }
}

/// Multiplying by entries that are each zero or one keeps or drops the
/// other factor.
proof fn lemma_unit_products(
    a0: int,
    a1: int,
    a2: int,
    a3: int,
    u0: int,
    u1: int,
    u2: int,
    u3: int,
)
    by (nonlinear_arith)
    requires
        u0 == 0 || u0 == 1,
        u1 == 0 || u1 == 1,
        u2 == 0 || u2 == 1,
        u3 == 0 || u3 == 1,
    ensures
        u0 * a0 == (if u0 == 1 { a0 } else { 0 }),
        u1 * a1 == (if u1 == 1 { a1 } else { 0 }),
        u2 * a2 == (if u2 == 1 { a2 } else { 0 }),
        u3 * a3 == (if u3 == 1 { a3 } else { 0 }),
        a0 * u0 == (if u0 == 1 { a0 } else { 0 }),
        a1 * u1 == (if u1 == 1 { a1 } else { 0 }),
        a2 * u2 == (if u2 == 1 { a2 } else { 0 }),
        a3 * u3 == (if u3 == 1 { a3 } else { 0 }),
{
}

/// The identity matrix maps every tuple to itself.
pub proof fn lemma_identity_mul_tuple(t: Tuple)
    ensures
        row_dot_tuple(Matrix4::identity_spec(), t, 0) == t.x,
        row_dot_tuple(Matrix4::identity_spec(), t, 1) == t.y,
        row_dot_tuple(Matrix4::identity_spec(), t, 2) == t.z,
        row_dot_tuple(Matrix4::identity_spec(), t, 3) == t.w,
{
    let id = Matrix4::identity_spec();
    lemma_unit_products(
        t.x as int,
        t.y as int,
        t.z as int,
        t.w as int,
        id.idx(0, 0) as int,
        id.idx(0, 1) as int,
        id.idx(0, 2) as int,
        id.idx(0, 3) as int,
    );
    lemma_unit_products(
        t.x as int,
        t.y as int,
        t.z as int,
        t.w as int,
        id.idx(1, 0) as int,
        id.idx(1, 1) as int,
        id.idx(1, 2) as int,
        id.idx(1, 3) as int,
    );
    lemma_unit_products(
        t.x as int,
        t.y as int,
        t.z as int,
        t.w as int,
        id.idx(2, 0) as int,
        id.idx(2, 1) as int,
        id.idx(2, 2) as int,
        id.idx(2, 3) as int,
    );
    lemma_unit_products(
        t.x as int,
        t.y as int,
        t.z as int,
        t.w as int,
        id.idx(3, 0) as int,
        id.idx(3, 1) as int,
        id.idx(3, 2) as int,
        id.idx(3, 3) as int,
    );
}

/// Crossing two vectors in the other order negates every component of the
/// result.
pub proof fn lemma_cross_antisymmetric(a: Tuple, b: Tuple)
    ensures
        cross_x(a, b) == -cross_x(b, a),
        cross_y(a, b) == -cross_y(b, a),
        cross_z(a, b) == -cross_z(b, a),
{
    assert(a.y * b.z - a.z * b.y == -(b.y * a.z - b.z * a.y)) by (nonlinear_arith);
    assert(a.z * b.x - a.x * b.z == -(b.z * a.x - b.x * a.z)) by (nonlinear_arith);
    assert(a.x * b.y - a.y * b.x == -(b.x * a.y - b.y * a.x)) by (nonlinear_arith);
}

} // verus!
