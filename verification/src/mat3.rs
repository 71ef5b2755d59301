//! 3-by-3 matrices over the exact fixed-point scalar: multiplication,
//! inversion and linear-system solving for the chromatic-adaptation math.

use vstd::prelude::*;
use crate::fixed::Fixed;
use crate::fixed::fixed_mul;
use crate::fixed::fixed_div;
use crate::fixed::in_mul_range;
use crate::fixed::lemma_fixed_mul_bound;
use crate::vec3::Vec3;
use crate::vec3::vec3_in_mul_range;

verus! {

/// A matrix of three row vectors.
#[derive(Copy, Clone, Debug, Eq, PartialEq, Structural, Hash)]
pub struct Mat3 {
    pub vx: Vec3,
    pub vy: Vec3,
    pub vz: Vec3,
}

/// Whether every entry is in the range products are defined on.
pub open spec fn mat3_in_mul_range(m: Mat3) -> bool {
    &&& vec3_in_mul_range(m.vx)
    &&& vec3_in_mul_range(m.vy)
    &&& vec3_in_mul_range(m.vz)
}

/// The tighter entry range inversion is defined on: magnitudes up to 128,
/// which keeps every cofactor and the determinant within the ranges the
/// scalar operations ask for.
pub open spec fn mat3_in_inverse_range(m: Mat3) -> bool {
    &&& -0x80_0000 <= m.vx.x.raw <= 0x80_0000
    &&& -0x80_0000 <= m.vx.y.raw <= 0x80_0000
    &&& -0x80_0000 <= m.vx.z.raw <= 0x80_0000
    &&& -0x80_0000 <= m.vy.x.raw <= 0x80_0000
    &&& -0x80_0000 <= m.vy.y.raw <= 0x80_0000
    &&& -0x80_0000 <= m.vy.z.raw <= 0x80_0000
    &&& -0x80_0000 <= m.vz.x.raw <= 0x80_0000
    &&& -0x80_0000 <= m.vz.y.raw <= 0x80_0000
    &&& -0x80_0000 <= m.vz.z.raw <= 0x80_0000
}

/// One entry of a matrix product: the row-by-column sum.
pub open spec fn row_col(a0: int, b0: int, a1: int, b1: int, a2: int, b2: int) -> int {
    fixed_mul(a0, b0) + fixed_mul(a1, b1) + fixed_mul(a2, b2)
}

/// Whether two values lie within one step of 1/65536 of one another, the
/// tolerance under which an entry counts as exact.
pub open spec fn near(a: int, b: int) -> bool {
    -1 <= a - b <= 1
}

/// The three cofactors along the first column, and the determinant.
pub open spec fn mat3_c0(m: Mat3) -> int {
    fixed_mul(m.vy.y.raw as int, m.vz.z.raw as int) - fixed_mul(
        m.vy.z.raw as int,
        m.vz.y.raw as int,
    )
}

pub open spec fn mat3_c1(m: Mat3) -> int {
    fixed_mul(m.vy.z.raw as int, m.vz.x.raw as int) - fixed_mul(
        m.vy.x.raw as int,
        m.vz.z.raw as int,
    )
}

pub open spec fn mat3_c2(m: Mat3) -> int {
    fixed_mul(m.vy.x.raw as int, m.vz.y.raw as int) - fixed_mul(
        m.vy.y.raw as int,
        m.vz.x.raw as int,
    )
}

/// The determinant, expanded along the first row.
pub open spec fn mat3_det(m: Mat3) -> int {
    fixed_mul(m.vx.x.raw as int, mat3_c0(m)) + fixed_mul(m.vx.y.raw as int, mat3_c1(m))
        + fixed_mul(m.vx.z.raw as int, mat3_c2(m))
}

impl Mat3 {
    /// The identity matrix.
    pub fn identity() -> (r: Mat3)
        ensures
            r.vx.x.raw == 0x1_0000 && r.vx.y.raw == 0 && r.vx.z.raw == 0,
            r.vy.x.raw == 0 && r.vy.y.raw == 0x1_0000 && r.vy.z.raw == 0,
            r.vz.x.raw == 0 && r.vz.y.raw == 0 && r.vz.z.raw == 0x1_0000,
    {
        Mat3 {
            vx: Vec3 { x: Fixed::one(), y: Fixed::zero(), z: Fixed::zero() },
            vy: Vec3 { x: Fixed::zero(), y: Fixed::one(), z: Fixed::zero() },
            vz: Vec3 { x: Fixed::zero(), y: Fixed::zero(), z: Fixed::one() },
        }
    }

    /// Whether this matrix is the identity to within one step of 1/65536
    /// per entry.
    pub fn is_identity(self) -> (r: bool)
        requires
            mat3_in_mul_range(self),
        ensures
            r == {
                &&& near(self.vx.x.raw as int, 0x1_0000)
                &&& near(self.vx.y.raw as int, 0)
                &&& near(self.vx.z.raw as int, 0)
                &&& near(self.vy.x.raw as int, 0)
                &&& near(self.vy.y.raw as int, 0x1_0000)
                &&& near(self.vy.z.raw as int, 0)
                &&& near(self.vz.x.raw as int, 0)
                &&& near(self.vz.y.raw as int, 0)
                &&& near(self.vz.z.raw as int, 0x1_0000)
            },
    {
        let one: i64 = 0x1_0000;
        close_enough(self.vx.x.raw, one) && close_enough(self.vx.y.raw, 0)
            && close_enough(self.vx.z.raw, 0) && close_enough(self.vy.x.raw, 0)
            && close_enough(self.vy.y.raw, one) && close_enough(self.vy.z.raw, 0)
            && close_enough(self.vz.x.raw, 0) && close_enough(self.vz.y.raw, 0)
            && close_enough(self.vz.z.raw, one)
    }

    /// Multiplies two matrices.
    pub fn per(self, b: Self) -> (r: Self)
        requires
            mat3_in_mul_range(self),
            mat3_in_mul_range(b),
        ensures
            r.vx.x.raw == row_col(self.vx.x.raw as int, b.vx.x.raw as int, self.vx.y.raw as int, b.vy.x.raw as int, self.vx.z.raw as int, b.vz.x.raw as int),
            r.vx.y.raw == row_col(self.vx.x.raw as int, b.vx.y.raw as int, self.vx.y.raw as int, b.vy.y.raw as int, self.vx.z.raw as int, b.vz.y.raw as int),
            r.vx.z.raw == row_col(self.vx.x.raw as int, b.vx.z.raw as int, self.vx.y.raw as int, b.vy.z.raw as int, self.vx.z.raw as int, b.vz.z.raw as int),
            r.vy.x.raw == row_col(self.vy.x.raw as int, b.vx.x.raw as int, self.vy.y.raw as int, b.vy.x.raw as int, self.vy.z.raw as int, b.vz.x.raw as int),
            r.vy.y.raw == row_col(self.vy.x.raw as int, b.vx.y.raw as int, self.vy.y.raw as int, b.vy.y.raw as int, self.vy.z.raw as int, b.vz.y.raw as int),
            r.vy.z.raw == row_col(self.vy.x.raw as int, b.vx.z.raw as int, self.vy.y.raw as int, b.vy.z.raw as int, self.vy.z.raw as int, b.vz.z.raw as int),
            r.vz.x.raw == row_col(self.vz.x.raw as int, b.vx.x.raw as int, self.vz.y.raw as int, b.vy.x.raw as int, self.vz.z.raw as int, b.vz.x.raw as int),
            r.vz.y.raw == row_col(self.vz.x.raw as int, b.vx.y.raw as int, self.vz.y.raw as int, b.vy.y.raw as int, self.vz.z.raw as int, b.vz.y.raw as int),
            r.vz.z.raw == row_col(self.vz.x.raw as int, b.vx.z.raw as int, self.vz.y.raw as int, b.vy.z.raw as int, self.vz.z.raw as int, b.vz.z.raw as int),
    {
        Mat3 {
            vx: Vec3 {
                x: entry(self.vx.x, b.vx.x, self.vx.y, b.vy.x, self.vx.z, b.vz.x),
                y: entry(self.vx.x, b.vx.y, self.vx.y, b.vy.y, self.vx.z, b.vz.y),
                z: entry(self.vx.x, b.vx.z, self.vx.y, b.vy.z, self.vx.z, b.vz.z),
            },
            vy: Vec3 {
                x: entry(self.vy.x, b.vx.x, self.vy.y, b.vy.x, self.vy.z, b.vz.x),
                y: entry(self.vy.x, b.vx.y, self.vy.y, b.vy.y, self.vy.z, b.vz.y),
                z: entry(self.vy.x, b.vx.z, self.vy.y, b.vy.z, self.vy.z, b.vz.z),
            },
            vz: Vec3 {
                x: entry(self.vz.x, b.vx.x, self.vz.y, b.vy.x, self.vz.z, b.vz.x),
                y: entry(self.vz.x, b.vx.y, self.vz.y, b.vy.y, self.vz.z, b.vz.y),
                z: entry(self.vz.x, b.vx.z, self.vz.y, b.vy.z, self.vz.z, b.vz.z),
            },
        }
    }

    /// Multiplies in place.
    pub fn mul_assign(&mut self, other: Self)
        requires
            mat3_in_mul_range(*old(self)),
            mat3_in_mul_range(other),
        ensures
            final(self).vx.x.raw == row_col(old(self).vx.x.raw as int, other.vx.x.raw as int, old(self).vx.y.raw as int, other.vy.x.raw as int, old(self).vx.z.raw as int, other.vz.x.raw as int),
            final(self).vx.y.raw == row_col(old(self).vx.x.raw as int, other.vx.y.raw as int, old(self).vx.y.raw as int, other.vy.y.raw as int, old(self).vx.z.raw as int, other.vz.y.raw as int),
            final(self).vx.z.raw == row_col(old(self).vx.x.raw as int, other.vx.z.raw as int, old(self).vx.y.raw as int, other.vy.z.raw as int, old(self).vx.z.raw as int, other.vz.z.raw as int),
            final(self).vy.x.raw == row_col(old(self).vy.x.raw as int, other.vx.x.raw as int, old(self).vy.y.raw as int, other.vy.x.raw as int, old(self).vy.z.raw as int, other.vz.x.raw as int),
            final(self).vy.y.raw == row_col(old(self).vy.x.raw as int, other.vx.y.raw as int, old(self).vy.y.raw as int, other.vy.y.raw as int, old(self).vy.z.raw as int, other.vz.y.raw as int),
            final(self).vy.z.raw == row_col(old(self).vy.x.raw as int, other.vx.z.raw as int, old(self).vy.y.raw as int, other.vy.z.raw as int, old(self).vy.z.raw as int, other.vz.z.raw as int),
            final(self).vz.x.raw == row_col(old(self).vz.x.raw as int, other.vx.x.raw as int, old(self).vz.y.raw as int, other.vy.x.raw as int, old(self).vz.z.raw as int, other.vz.x.raw as int),
            final(self).vz.y.raw == row_col(old(self).vz.x.raw as int, other.vx.y.raw as int, old(self).vz.y.raw as int, other.vy.y.raw as int, old(self).vz.z.raw as int, other.vz.y.raw as int),
            final(self).vz.z.raw == row_col(old(self).vz.x.raw as int, other.vx.z.raw as int, old(self).vz.y.raw as int, other.vy.z.raw as int, old(self).vz.z.raw as int, other.vz.z.raw as int),
    {
        let matrix = self.per(other);
        self.vx = matrix.vx;
        self.vy = matrix.vy;
        self.vz = matrix.vz;
    }

    /// Inverts the matrix, or answers nothing when the determinant is
    /// smaller in magnitude than the tolerance of one in ten thousand.
    pub fn inverse(self) -> (r: Option<Self>)
        requires
            mat3_in_inverse_range(self),
        ensures
            match r {
                None => near_zero_det(mat3_det(self)),
                Some(m) => {
                    &&& !near_zero_det(mat3_det(self))
                    &&& m.vx.x.raw == fixed_div(mat3_c0(self), mat3_det(self))
                    &&& m.vx.y.raw == fixed_div(
                        fixed_mul(self.vx.z.raw as int, self.vz.y.raw as int) - fixed_mul(
                            self.vx.y.raw as int,
                            self.vz.z.raw as int,
                        ),
                        mat3_det(self),
                    )
                    &&& m.vx.z.raw == fixed_div(
                        fixed_mul(self.vx.y.raw as int, self.vy.z.raw as int) - fixed_mul(
                            self.vx.z.raw as int,
                            self.vy.y.raw as int,
                        ),
                        mat3_det(self),
                    )
                    &&& m.vy.x.raw == fixed_div(mat3_c1(self), mat3_det(self))
                    &&& m.vy.y.raw == fixed_div(
                        fixed_mul(self.vx.x.raw as int, self.vz.z.raw as int) - fixed_mul(
                            self.vx.z.raw as int,
                            self.vz.x.raw as int,
                        ),
                        mat3_det(self),
                    )
                    &&& m.vy.z.raw == fixed_div(
                        fixed_mul(self.vx.z.raw as int, self.vy.x.raw as int) - fixed_mul(
                            self.vx.x.raw as int,
                            self.vy.z.raw as int,
                        ),
                        mat3_det(self),
                    )
                    &&& m.vz.x.raw == fixed_div(mat3_c2(self), mat3_det(self))
                    &&& m.vz.y.raw == fixed_div(
                        fixed_mul(self.vx.y.raw as int, self.vz.x.raw as int) - fixed_mul(
                            self.vx.x.raw as int,
                            self.vz.y.raw as int,
                        ),
                        mat3_det(self),
                    )
                    &&& m.vz.z.raw == fixed_div(
                        fixed_mul(self.vx.x.raw as int, self.vy.y.raw as int) - fixed_mul(
                            self.vx.y.raw as int,
                            self.vy.x.raw as int,
                        ),
                        mat3_det(self),
                    )
                },
            },
    {
        proof {
            lemma_inverse_range_bounds(self);
        }
        let c0 = self.vy.y.mul(self.vz.z).sub(self.vy.z.mul(self.vz.y));
        let c1 = self.vy.z.mul(self.vz.x).sub(self.vy.x.mul(self.vz.z));
        let c2 = self.vy.x.mul(self.vz.y).sub(self.vy.y.mul(self.vz.x));
        proof {
            lemma_fixed_mul_bound(self.vx.x.raw as int, c0.raw as int);
            lemma_fixed_mul_bound(self.vx.y.raw as int, c1.raw as int);
            lemma_fixed_mul_bound(self.vx.z.raw as int, c2.raw as int);
        }
        let det = self.vx.x.mul(c0).add(self.vx.y.mul(c1)).add(self.vx.z.mul(c2));
        let mag: i64 = if det.raw < 0 {
            -det.raw
        } else {
            det.raw
        };
        if mag <= 6 {
            return None;
        }
        proof {
            lemma_mul_small(self.vx.z.raw as int, self.vz.y.raw as int);
            lemma_mul_small(self.vx.y.raw as int, self.vz.z.raw as int);
            lemma_mul_small(self.vx.y.raw as int, self.vy.z.raw as int);
            lemma_mul_small(self.vx.z.raw as int, self.vy.y.raw as int);
            lemma_mul_small(self.vx.x.raw as int, self.vz.z.raw as int);
            lemma_mul_small(self.vx.z.raw as int, self.vz.x.raw as int);
            lemma_mul_small(self.vx.z.raw as int, self.vy.x.raw as int);
            lemma_mul_small(self.vx.x.raw as int, self.vy.z.raw as int);
            lemma_mul_small(self.vx.y.raw as int, self.vz.x.raw as int);
            lemma_mul_small(self.vx.x.raw as int, self.vz.y.raw as int);
            lemma_mul_small(self.vx.x.raw as int, self.vy.y.raw as int);
            lemma_mul_small(self.vx.y.raw as int, self.vy.x.raw as int);
        }
        let result = Mat3 {
            vx: Vec3 {
                x: c0.div(det),
                y: self.vx.z.mul(self.vz.y).sub(self.vx.y.mul(self.vz.z)).div(det),
                z: self.vx.y.mul(self.vy.z).sub(self.vx.z.mul(self.vy.y)).div(det),
            },
            vy: Vec3 {
                x: c1.div(det),
                y: self.vx.x.mul(self.vz.z).sub(self.vx.z.mul(self.vz.x)).div(det),
                z: self.vx.z.mul(self.vy.x).sub(self.vx.x.mul(self.vy.z)).div(det),
            },
            vz: Vec3 {
                x: c2.div(det),
                y: self.vx.y.mul(self.vz.x).sub(self.vx.x.mul(self.vz.y)).div(det),
                z: self.vx.x.mul(self.vy.y).sub(self.vx.y.mul(self.vy.x)).div(det),
            },
        };
        Some(result)
    }

    /// Solves the system with this coefficient matrix for the given
    /// right-hand side, or answers nothing when the matrix cannot be
    /// inverted or its inverse leaves the range evaluation is defined on.
    pub fn solve(self, x: Vec3) -> (r: Option<Vec3>)
        requires
            mat3_in_inverse_range(self),
            vec3_in_mul_range(x),
        ensures
            match r {
                None => true,
                Some(v) => exists|a1: Mat3|
                    {
                        &&& #[trigger] mat3_in_mul_range(a1)
                        &&& !near_zero_det(mat3_det(self))
                        &&& a1.vx.x.raw == fixed_div(mat3_c0(self), mat3_det(self))
                        &&& v.x.raw == row_col(a1.vx.x.raw as int, x.x.raw as int, a1.vx.y.raw as int, x.y.raw as int, a1.vx.z.raw as int, x.z.raw as int)
                        &&& v.y.raw == row_col(a1.vy.x.raw as int, x.x.raw as int, a1.vy.y.raw as int, x.y.raw as int, a1.vy.z.raw as int, x.z.raw as int)
                        &&& v.z.raw == row_col(a1.vz.x.raw as int, x.x.raw as int, a1.vz.y.raw as int, x.y.raw as int, a1.vz.z.raw as int, x.z.raw as int)
                    },
            },
    {
        let a_1 = self.inverse();
        match a_1 {
            None => None,
            Some(m) => {
                if in_range_entry(m.vx.x) && in_range_entry(m.vx.y) && in_range_entry(m.vx.z)
                    && in_range_entry(m.vy.x) && in_range_entry(m.vy.y) && in_range_entry(
                    m.vy.z,
                ) && in_range_entry(m.vz.x) && in_range_entry(m.vz.y) && in_range_entry(
                    m.vz.z,
                ) {
                    let v = m.eval(x);
                    proof {
                        assert(mat3_in_mul_range(m));
                    }
                    Some(v)
                } else {
                    None
                }
            },
        }
    }

    /// Evaluates the matrix on a vector.
    pub fn eval(self, v: Vec3) -> (r: Vec3)
        requires
            mat3_in_mul_range(self),
            vec3_in_mul_range(v),
        ensures
            r.x.raw == row_col(self.vx.x.raw as int, v.x.raw as int, self.vx.y.raw as int, v.y.raw as int, self.vx.z.raw as int, v.z.raw as int),
            r.y.raw == row_col(self.vy.x.raw as int, v.x.raw as int, self.vy.y.raw as int, v.y.raw as int, self.vy.z.raw as int, v.z.raw as int),
            r.z.raw == row_col(self.vz.x.raw as int, v.x.raw as int, self.vz.y.raw as int, v.y.raw as int, self.vz.z.raw as int, v.z.raw as int),
    {
        Vec3 {
            x: entry(self.vx.x, v.x, self.vx.y, v.y, self.vx.z, v.z),
            y: entry(self.vy.x, v.x, self.vy.y, v.y, self.vy.z, v.z),
            z: entry(self.vz.x, v.x, self.vz.y, v.y, self.vz.z, v.z),
        }
    }

    /// The rows as an array.
    pub fn as_vec3_array(&self) -> (r: [Vec3; 3])
        ensures
            r@ == seq![self.vx, self.vy, self.vz],
    {
        let r = [self.vx, self.vy, self.vz];
        proof {
            assert(r@ =~= seq![self.vx, self.vy, self.vz]);
        }
        r
    }

    /// A matrix from an array of rows.
    pub fn from_vec3_array(array: [Vec3; 3]) -> (r: Self)
        ensures
            r.vx == array[0],
            r.vy == array[1],
            r.vz == array[2],
    {
        Mat3 { vx: array[0], vy: array[1], vz: array[2] }
    }

    /// The entries as an array, row by row.
    pub fn as_array(&self) -> (r: [Fixed; 9])
        ensures
            r@ == seq![
                self.vx.x,
                self.vx.y,
                self.vx.z,
                self.vy.x,
                self.vy.y,
                self.vy.z,
                self.vz.x,
                self.vz.y,
                self.vz.z,
            ],
    {
        let r = [
            self.vx.x,
            self.vx.y,
            self.vx.z,
            self.vy.x,
            self.vy.y,
            self.vy.z,
            self.vz.x,
            self.vz.y,
            self.vz.z,
        ];
        proof {
            assert(r@ =~= seq![
                self.vx.x,
                self.vx.y,
                self.vx.z,
                self.vy.x,
                self.vy.y,
                self.vy.z,
                self.vz.x,
                self.vz.y,
                self.vz.z,
            ]);
        }
        r
    }

    /// A matrix from an array of entries, row by row.
    pub fn from_array(array: [Fixed; 9]) -> (r: Self)
        ensures
            r.vx.x == array[0] && r.vx.y == array[1] && r.vx.z == array[2],
            r.vy.x == array[3] && r.vy.y == array[4] && r.vy.z == array[5],
            r.vz.x == array[6] && r.vz.y == array[7] && r.vz.z == array[8],
    {
        Mat3 {
            vx: Vec3 { x: array[0], y: array[1], z: array[2] },
            vy: Vec3 { x: array[3], y: array[4], z: array[5] },
            vz: Vec3 { x: array[6], y: array[7], z: array[8] },
        }
    }

    /// The matrix product, under the multiplication sign.
    pub fn mul(self, other: Self) -> (r: Self)
        requires
            mat3_in_mul_range(self),
            mat3_in_mul_range(other),
        ensures
            r.vx.x.raw == row_col(self.vx.x.raw as int, other.vx.x.raw as int, self.vx.y.raw as int, other.vy.x.raw as int, self.vx.z.raw as int, other.vz.x.raw as int),
            r.vx.y.raw == row_col(self.vx.x.raw as int, other.vx.y.raw as int, self.vx.y.raw as int, other.vy.y.raw as int, self.vx.z.raw as int, other.vz.y.raw as int),
            r.vx.z.raw == row_col(self.vx.x.raw as int, other.vx.z.raw as int, self.vx.y.raw as int, other.vy.z.raw as int, self.vx.z.raw as int, other.vz.z.raw as int),
            r.vy.x.raw == row_col(self.vy.x.raw as int, other.vx.x.raw as int, self.vy.y.raw as int, other.vy.x.raw as int, self.vy.z.raw as int, other.vz.x.raw as int),
            r.vy.y.raw == row_col(self.vy.x.raw as int, other.vx.y.raw as int, self.vy.y.raw as int, other.vy.y.raw as int, self.vy.z.raw as int, other.vz.y.raw as int),
            r.vy.z.raw == row_col(self.vy.x.raw as int, other.vx.z.raw as int, self.vy.y.raw as int, other.vy.z.raw as int, self.vy.z.raw as int, other.vz.z.raw as int),
            r.vz.x.raw == row_col(self.vz.x.raw as int, other.vx.x.raw as int, self.vz.y.raw as int, other.vy.x.raw as int, self.vz.z.raw as int, other.vz.x.raw as int),
            r.vz.y.raw == row_col(self.vz.x.raw as int, other.vx.y.raw as int, self.vz.y.raw as int, other.vy.y.raw as int, self.vz.z.raw as int, other.vz.y.raw as int),
            r.vz.z.raw == row_col(self.vz.x.raw as int, other.vx.z.raw as int, self.vz.y.raw as int, other.vy.z.raw as int, self.vz.z.raw as int, other.vz.z.raw as int),
    {
        self.per(other)
    }
}

/// Whether a determinant is below the tolerance of one in ten thousand in
/// magnitude, the threshold under which inversion is refused.
pub open spec fn near_zero_det(d: int) -> bool {
    -6 <= d <= 6
}

/// Whether one entry is in the range products are defined on.
fn in_range_entry(f: Fixed) -> (r: bool)
    ensures
        r == in_mul_range(f),
{
    -0x8000_0000i64 <= f.raw && f.raw <= 0x8000_0000i64
}

/// One row-by-column entry of a product.
fn entry(a0: Fixed, b0: Fixed, a1: Fixed, b1: Fixed, a2: Fixed, b2: Fixed) -> (r: Fixed)
    requires
        in_mul_range(a0),
        in_mul_range(b0),
        in_mul_range(a1),
        in_mul_range(b1),
        in_mul_range(a2),
        in_mul_range(b2),
    ensures
        r.raw == row_col(
            a0.raw as int,
            b0.raw as int,
            a1.raw as int,
            b1.raw as int,
            a2.raw as int,
            b2.raw as int,
        ),
{
    proof {
        lemma_fixed_mul_bound(a0.raw as int, b0.raw as int);
        lemma_fixed_mul_bound(a1.raw as int, b1.raw as int);
        lemma_fixed_mul_bound(a2.raw as int, b2.raw as int);
    }
    a0.mul(b0).add(a1.mul(b1)).add(a2.mul(b2))
}

/// Whether two raw step counts agree to within one step.
fn close_enough(a: i64, b: i64) -> (r: bool)
    requires
        -0x8000_0000 <= a <= 0x8000_0000,
        -0x1_0000 <= b <= 0x1_0000,
    ensures
        r == near(a as int, b as int),
{
    let d = a - b;
    -1 <= d && d <= 1
}

proof fn lemma_inverse_range_bounds(m: Mat3)
    requires
        mat3_in_inverse_range(m),
    ensures
        mat3_in_mul_range(m),
        -0x8000_0000 <= mat3_c0(m) <= 0x8000_0000,
        -0x8000_0000 <= mat3_c1(m) <= 0x8000_0000,
        -0x8000_0000 <= mat3_c2(m) <= 0x8000_0000,
{
    lemma_mul_small(m.vy.y.raw as int, m.vz.z.raw as int);
    lemma_mul_small(m.vy.z.raw as int, m.vz.y.raw as int);
    lemma_mul_small(m.vy.z.raw as int, m.vz.x.raw as int);
    lemma_mul_small(m.vy.x.raw as int, m.vz.z.raw as int);
    lemma_mul_small(m.vy.x.raw as int, m.vz.y.raw as int);
    lemma_mul_small(m.vy.y.raw as int, m.vz.x.raw as int);
}

/// Within the inversion range, a product stays within half the scalar
/// multiplication range, so cofactors fit in it whole.
proof fn lemma_mul_small(a: int, b: int)
    requires
        -0x80_0000 <= a <= 0x80_0000,
        -0x80_0000 <= b <= 0x80_0000,
    ensures
        -0x4000_0000 <= fixed_mul(a, b) <= 0x4000_0000,
{
    assert(-0x4000_0000_0000 <= a * b <= 0x4000_0000_0000) by (nonlinear_arith)
        requires
            -0x80_0000 <= a <= 0x80_0000,
            -0x80_0000 <= b <= 0x80_0000,
    ;
    if a * b >= 0 {
        assert((a * b) / 65536 <= 0x4000_0000_0000int / 65536);
        assert((a * b) / 65536 >= 0);
    } else {
        assert((-(a * b)) / 65536 <= 0x4000_0000_0000int / 65536);
        assert((-(a * b)) / 65536 >= 0);
    }
}

} // verus!
