//! Inertia tensors: three-by-three matrices of integers, and the
//! parallel-axis shift.
use vstd::prelude::*;
use crate::arith::{lemma_product_bound, lemma_scale_bound, lemma_product_monotone};
use crate::limits::{MASS_MAX, DISPLACEMENT_MAX, INERTIA_MAX};
use crate::vector::{RealVec3, Vec3, Vector3, WideVector};

verus! {

/// A three-by-three matrix of mathematical integers: the value that a
/// [`Matrix3`] stands for in contracts. The field `xy` is the entry in the
/// row of `x` and the column of `y`.
pub struct Mat3 {
    pub xx: int,
    pub xy: int,
    pub xz: int,
    pub yx: int,
    pub yy: int,
    pub yz: int,
    pub zx: int,
    pub zy: int,
    pub zz: int,
}

impl Mat3 {
    /// The matrix of zeros.
    pub open spec fn zero() -> Mat3 {
        Mat3 { xx: 0, xy: 0, xz: 0, yx: 0, yy: 0, yz: 0, zx: 0, zy: 0, zz: 0 }
    }

    /// The entry in row `i` and column `j`, each counted from zero.
    pub open spec fn entry(self, i: int, j: int) -> int {
        if i == 0 {
            if j == 0 {
                self.xx
            } else if j == 1 {
                self.xy
            } else {
                self.xz
            }
        } else if i == 1 {
            if j == 0 {
                self.yx
            } else if j == 1 {
                self.yy
            } else {
                self.yz
            }
        } else {
            if j == 0 {
                self.zx
            } else if j == 1 {
                self.zy
            } else {
                self.zz
            }
        }
    }

    /// The sum of two matrices.
    pub open spec fn plus(self, other: Mat3) -> Mat3 {
        Mat3 {
            xx: self.xx + other.xx,
            xy: self.xy + other.xy,
            xz: self.xz + other.xz,
            yx: self.yx + other.yx,
            yy: self.yy + other.yy,
            yz: self.yz + other.yz,
            zx: self.zx + other.zx,
            zy: self.zy + other.zy,
            zz: self.zz + other.zz,
        }
    }

    /// The matrix multiplied by `k`.
    pub open spec fn scaled(self, k: int) -> Mat3 {
        Mat3 {
            xx: k * self.xx,
            xy: k * self.xy,
            xz: k * self.xz,
            yx: k * self.yx,
            yy: k * self.yy,
            yz: k * self.yz,
            zx: k * self.zx,
            zy: k * self.zy,
            zz: k * self.zz,
        }
    }

    /// The same matrix in real numbers.
    pub open spec fn to_real(self) -> RealMat3 {
        RealMat3 {
            xx: self.xx as real,
            xy: self.xy as real,
            xz: self.xz as real,
            yx: self.yx as real,
            yy: self.yy as real,
            yz: self.yz as real,
            zx: self.zx as real,
            zy: self.zy as real,
            zz: self.zz as real,
        }
    }

    /// Whether the matrix equals its transpose.
    pub open spec fn is_symmetric(self) -> bool {
        self.xy == self.yx && self.xz == self.zx && self.yz == self.zy
    }

    /// Whether no entry of the diagonal is negative.
    pub open spec fn has_nonnegative_diagonal(self) -> bool {
        0 <= self.xx && 0 <= self.yy && 0 <= self.zz
    }

    /// Whether every entry has magnitude at most `bound`.
    pub open spec fn within(self, bound: int) -> bool {
        &&& -bound <= self.xx <= bound
        &&& -bound <= self.xy <= bound
        &&& -bound <= self.xz <= bound
        &&& -bound <= self.yx <= bound
        &&& -bound <= self.yy <= bound
        &&& -bound <= self.yz <= bound
        &&& -bound <= self.zx <= bound
        &&& -bound <= self.zy <= bound
        &&& -bound <= self.zz <= bound
    }
}

/// A three-by-three matrix of real numbers: what a total inertia is.
pub struct RealMat3 {
    pub xx: real,
    pub xy: real,
    pub xz: real,
    pub yx: real,
    pub yy: real,
    pub yz: real,
    pub zx: real,
    pub zy: real,
    pub zz: real,
}

impl RealMat3 {
    /// The matrix of zeros.
    pub open spec fn zero() -> RealMat3 {
        Mat3::zero().to_real()
    }

    /// The sum of two matrices.
    pub open spec fn plus(self, other: RealMat3) -> RealMat3 {
        RealMat3 {
            xx: self.xx + other.xx,
            xy: self.xy + other.xy,
            xz: self.xz + other.xz,
            yx: self.yx + other.yx,
            yy: self.yy + other.yy,
            yz: self.yz + other.yz,
            zx: self.zx + other.zx,
            zy: self.zy + other.zy,
            zz: self.zz + other.zz,
        }
    }

    /// The difference of two matrices.
    pub open spec fn minus(self, other: RealMat3) -> RealMat3 {
        RealMat3 {
            xx: self.xx - other.xx,
            xy: self.xy - other.xy,
            xz: self.xz - other.xz,
            yx: self.yx - other.yx,
            yy: self.yy - other.yy,
            yz: self.yz - other.yz,
            zx: self.zx - other.zx,
            zy: self.zy - other.zy,
            zz: self.zz - other.zz,
        }
    }

    /// The matrix multiplied by `k`.
    pub open spec fn scaled(self, k: real) -> RealMat3 {
        RealMat3 {
            xx: k * self.xx,
            xy: k * self.xy,
            xz: k * self.xz,
            yx: k * self.yx,
            yy: k * self.yy,
            yz: k * self.yz,
            zx: k * self.zx,
            zy: k * self.zy,
            zz: k * self.zz,
        }
    }

    /// The matrix divided by `k`.
    pub open spec fn divided(self, k: real) -> RealMat3 {
        RealMat3 {
            xx: self.xx / k,
            xy: self.xy / k,
            xz: self.xz / k,
            yx: self.yx / k,
            yy: self.yy / k,
            yz: self.yz / k,
            zx: self.zx / k,
            zy: self.zy / k,
            zz: self.zz / k,
        }
    }

    /// Whether the matrix equals its transpose.
    pub open spec fn is_symmetric(self) -> bool {
        self.xy == self.yx && self.xz == self.zx && self.yz == self.zy
    }
}

/// The tensor `|d|^2 * Id - d * d^T` of a real displacement `d`.
pub open spec fn real_displacement_tensor(d: RealVec3) -> RealMat3 {
    RealMat3 {
        xx: d.y * d.y + d.z * d.z,
        xy: -(d.x * d.y),
        xz: -(d.x * d.z),
        yx: -(d.y * d.x),
        yy: d.x * d.x + d.z * d.z,
        yz: -(d.y * d.z),
        zx: -(d.z * d.x),
        zy: -(d.z * d.y),
        zz: d.x * d.x + d.y * d.y,
    }
}

/// The parallel-axis theorem in real numbers: the tensor `inertia` of a body
/// of mass `mass` about its own center of mass, taken about a point from
/// which that center is displaced by `d`, is
/// `inertia + mass * (|d|^2 * Id - d * d^T)`.
pub open spec fn real_shifted(inertia: RealMat3, mass: real, d: RealVec3) -> RealMat3 {
    inertia.plus(real_displacement_tensor(d).scaled(mass))
}

/// The tensor `|d|^2 * Id - d * d^T` of a displacement `d`: the inertia about
/// a point of a unit mass that sits at `d` from it.
pub open spec fn displacement_tensor(d: Vec3) -> Mat3 {
    Mat3 {
        xx: d.y * d.y + d.z * d.z,
        xy: -(d.x * d.y),
        xz: -(d.x * d.z),
        yx: -(d.y * d.x),
        yy: d.x * d.x + d.z * d.z,
        yz: -(d.y * d.z),
        zx: -(d.z * d.x),
        zy: -(d.z * d.y),
        zz: d.x * d.x + d.y * d.y,
    }
}

/// The parallel-axis theorem: the tensor `inertia` of a body of mass `mass`
/// about its own center of mass, taken about a point from which that center
/// is displaced by `d`, is `inertia + mass * (|d|^2 * Id - d * d^T)`.
pub open spec fn shifted(inertia: Mat3, mass: int, d: Vec3) -> Mat3 {
    inertia.plus(displacement_tensor(d).scaled(mass))
}

/// Whether `parallel_axis_shift` can hold the shifted tensor: the mass and
/// the displacement are in the supported range, and so is every entry of
/// the result.
pub open spec fn shift_representable(inertia: Mat3, mass: int, d: Vec3) -> bool {
    &&& 0 <= mass <= MASS_MAX
    &&& d.within(DISPLACEMENT_MAX as int)
    &&& shifted(inertia, mass, d).within(INERTIA_MAX as int)
}

/// Whether `rows` holds three rows of three entries each.
pub open spec fn is_three_by_three(rows: Seq<Seq<i64>>) -> bool {
    &&& rows.len() == 3
    &&& rows[0].len() == 3
    &&& rows[1].len() == 3
    &&& rows[2].len() == 3
}

/// The matrix that three rows of three entries spell out, row by row.
pub open spec fn mat3_of(rows: Seq<Seq<i64>>) -> Mat3
    recommends
        is_three_by_three(rows),
{
    Mat3 {
        xx: rows[0][0] as int,
        xy: rows[0][1] as int,
        xz: rows[0][2] as int,
        yx: rows[1][0] as int,
        yy: rows[1][1] as int,
        yz: rows[1][2] as int,
        zx: rows[2][0] as int,
        zy: rows[2][1] as int,
        zz: rows[2][2] as int,
    }
}

/// A three-by-three matrix of 64-bit integers.
#[derive(Clone, Copy, Debug, PartialEq, Eq, Structural)]
pub struct Matrix3 {
    pub xx: i64,
    pub xy: i64,
    pub xz: i64,
    pub yx: i64,
    pub yy: i64,
    pub yz: i64,
    pub zx: i64,
    pub zy: i64,
    pub zz: i64,
}

impl View for Matrix3 {
    type V = Mat3;

    open spec fn view(&self) -> Mat3 {
        Mat3 {
            xx: self.xx as int,
            xy: self.xy as int,
            xz: self.xz as int,
            yx: self.yx as int,
            yy: self.yy as int,
            yz: self.yz as int,
            zx: self.zx as int,
            zy: self.zy as int,
            zz: self.zz as int,
        }
    }
}

impl Matrix3 {
    /// The matrix of zeros.
    pub fn zero() -> (m: Matrix3)
        ensures
            m@ == Mat3::zero(),
    {
        Matrix3 { xx: 0, xy: 0, xz: 0, yx: 0, yy: 0, yz: 0, zx: 0, zy: 0, zz: 0 }
    }

    /// The matrix whose rows are the three elements of `rows`, each a list
    /// of three entries. Lists of any other shape spell no matrix.
    pub fn from_rows(rows: &Vec<Vec<i64>>) -> (r: Option<Matrix3>)
        ensures
            match r {
                Some(m) => is_three_by_three(rows.deep_view()) && m@ == mat3_of(rows.deep_view()),
                None => !is_three_by_three(rows.deep_view()),
            },
    {
        if rows.len() != 3 {
            return None;
        }
        let r0 = &rows[0];
        let r1 = &rows[1];
        let r2 = &rows[2];
        if r0.len() != 3 || r1.len() != 3 || r2.len() != 3 {
            return None;
        }
        Some(
            Matrix3 {
                xx: r0[0],
                xy: r0[1],
                xz: r0[2],
                yx: r1[0],
                yy: r1[1],
                yz: r1[2],
                zx: r2[0],
                zy: r2[1],
                zz: r2[2],
            },
        )
    }

    /// Whether the matrix equals its transpose.
    pub fn is_symmetric(&self) -> (b: bool)
        ensures
            b == self@.is_symmetric(),
    {
        self.xy == self.yx && self.xz == self.zx && self.yz == self.zy
    }

    /// Whether no entry of the diagonal is negative.
    pub fn has_nonnegative_diagonal(&self) -> (b: bool)
        ensures
            b == self@.has_nonnegative_diagonal(),
    {
        0 <= self.xx && 0 <= self.yy && 0 <= self.zz
    }

    /// Whether every entry has magnitude at most `bound`.
    pub fn within(&self, bound: i64) -> (b: bool)
        ensures
            b == self@.within(bound as int),
    {
        if bound < 0 {
            return false;
        }
        let lo: i64 = -bound;
        lo <= self.xx && self.xx <= bound && lo <= self.xy && self.xy <= bound && lo <= self.xz
            && self.xz <= bound && lo <= self.yx && self.yx <= bound && lo <= self.yy && self.yy
            <= bound && lo <= self.yz && self.yz <= bound && lo <= self.zx && self.zx <= bound
            && lo <= self.zy && self.zy <= bound && lo <= self.zz && self.zz <= bound
    }
}

/// A three-by-three matrix of 128-bit integers, for sums of products and
/// for the numerators of fractions.
#[derive(Clone, Copy, Debug, PartialEq, Eq, Structural)]
pub struct WideMatrix {
    pub xx: i128,
    pub xy: i128,
    pub xz: i128,
    pub yx: i128,
    pub yy: i128,
    pub yz: i128,
    pub zx: i128,
    pub zy: i128,
    pub zz: i128,
}

impl View for WideMatrix {
    type V = Mat3;

    open spec fn view(&self) -> Mat3 {
        Mat3 {
            xx: self.xx as int,
            xy: self.xy as int,
            xz: self.xz as int,
            yx: self.yx as int,
            yy: self.yy as int,
            yz: self.yz as int,
            zx: self.zx as int,
            zy: self.zy as int,
            zz: self.zz as int,
        }
    }
}

/// The largest magnitude of a coordinate that `WideMatrix::of_displacement`
/// accepts.
pub(crate) const REACH_MAX: i128 = 0x8_0000_0000_0000;

/// The largest magnitude of an entry of the displacement tensor of a
/// vector within `REACH_MAX`.
pub(crate) const TERM_MAX: i128 = 0x80_0000_0000_0000_0000_0000_0000;

impl WideMatrix {
    /// The same matrix in 128-bit entries.
    pub(crate) fn widen(m: &Matrix3) -> (w: WideMatrix)
        ensures
            w@ == m@,
    {
        WideMatrix {
            xx: m.xx as i128,
            xy: m.xy as i128,
            xz: m.xz as i128,
            yx: m.yx as i128,
            yy: m.yy as i128,
            yz: m.yz as i128,
            zx: m.zx as i128,
            zy: m.zy as i128,
            zz: m.zz as i128,
        }
    }

    /// The matrix in 64-bit entries, where every entry has magnitude at
    /// most `INERTIA_MAX`.
    pub(crate) fn narrow(&self) -> (r: Option<Matrix3>)
        ensures
            match r {
                Some(m) => m@ == self@ && self@.within(INERTIA_MAX as int),
                None => !self@.within(INERTIA_MAX as int),
            },
    {
        let hi: i128 = INERTIA_MAX as i128;
        let lo: i128 = -hi;
        if lo <= self.xx && self.xx <= hi && lo <= self.xy && self.xy <= hi && lo <= self.xz
            && self.xz <= hi && lo <= self.yx && self.yx <= hi && lo <= self.yy && self.yy <= hi
            && lo <= self.yz && self.yz <= hi && lo <= self.zx && self.zx <= hi && lo <= self.zy
            && self.zy <= hi && lo <= self.zz && self.zz <= hi {
            Some(
                Matrix3 {
                    xx: self.xx as i64,
                    xy: self.xy as i64,
                    xz: self.xz as i64,
                    yx: self.yx as i64,
                    yy: self.yy as i64,
                    yz: self.yz as i64,
                    zx: self.zx as i64,
                    zy: self.zy as i64,
                    zz: self.zz as i64,
                },
            )
        } else {
            None
        }
    }

    /// The sum of two matrices, where it fits in 128-bit entries.
    pub(crate) fn plus(&self, other: &WideMatrix) -> (w: WideMatrix)
        requires
            self@.plus(other@).within(i128::MAX as int),
        ensures
            w@ == self@.plus(other@),
    {
        WideMatrix {
            xx: self.xx + other.xx,
            xy: self.xy + other.xy,
            xz: self.xz + other.xz,
            yx: self.yx + other.yx,
            yy: self.yy + other.yy,
            yz: self.yz + other.yz,
            zx: self.zx + other.zx,
            zy: self.zy + other.zy,
            zz: self.zz + other.zz,
        }
    }

    /// The matrix with every entry negated.
    pub(crate) fn negated(&self) -> (w: WideMatrix)
        requires
            self@.within(TERM_MAX as int),
        ensures
            w@ == self@.scaled(-1),
            w@.within(TERM_MAX as int),
    {
        WideMatrix {
            xx: -self.xx,
            xy: -self.xy,
            xz: -self.xz,
            yx: -self.yx,
            yy: -self.yy,
            yz: -self.yz,
            zx: -self.zx,
            zy: -self.zy,
            zz: -self.zz,
        }
    }

    /// The displacement tensor of `d`.
    pub(crate) fn of_displacement(d: &WideVector) -> (w: WideMatrix)
        requires
            d@.within(REACH_MAX as int),
        ensures
            w@ == displacement_tensor(d@),
            w@.within(TERM_MAX as int),
    {
        let x: i128 = d.x;
        let y: i128 = d.y;
        let z: i128 = d.z;
        proof {
            let b: int = REACH_MAX as int;
            lemma_product_bound(x as int, x as int, b);
            lemma_product_bound(y as int, y as int, b);
            lemma_product_bound(z as int, z as int, b);
            lemma_product_bound(x as int, y as int, b);
            lemma_product_bound(x as int, z as int, b);
            lemma_product_bound(y as int, z as int, b);
            lemma_product_bound(y as int, x as int, b);
            lemma_product_bound(z as int, x as int, b);
            lemma_product_bound(z as int, y as int, b);
            assert(b * b == 0x40_0000_0000_0000_0000_0000_0000) by (nonlinear_arith)
                requires
                    b == 0x8_0000_0000_0000,
            ;
            assert(x * x >= 0 && y * y >= 0 && z * z >= 0) by (nonlinear_arith);
        }
        WideMatrix {
            xx: y * y + z * z,
            xy: -(x * y),
            xz: -(x * z),
            yx: -(y * x),
            yy: x * x + z * z,
            yz: -(y * z),
            zx: -(z * x),
            zy: -(z * y),
            zz: x * x + y * y,
        }
    }

    /// The matrix multiplied by a mass.
    pub(crate) fn scaled(&self, mass: i64) -> (w: WideMatrix)
        requires
            0 <= mass <= MASS_MAX,
            self@.within(TERM_MAX as int),
        ensures
            w@ == self@.scaled(mass as int),
            w@.within(0x800_0000_0000_0000_0000_0000_0000_0000),
    {
        let m: i128 = mass as i128;
        proof {
            let k: int = TERM_MAX as int;
            lemma_scale_bound(m as int, self.xx as int, k);
            lemma_scale_bound(m as int, self.xy as int, k);
            lemma_scale_bound(m as int, self.xz as int, k);
            lemma_scale_bound(m as int, self.yx as int, k);
            lemma_scale_bound(m as int, self.yy as int, k);
            lemma_scale_bound(m as int, self.yz as int, k);
            lemma_scale_bound(m as int, self.zx as int, k);
            lemma_scale_bound(m as int, self.zy as int, k);
            lemma_scale_bound(m as int, self.zz as int, k);
            lemma_product_monotone(m as int, k, MASS_MAX as int, k);
            assert(MASS_MAX * k == 0x800_0000_0000_0000_0000_0000_0000_0000) by (nonlinear_arith)
                requires
                    MASS_MAX == 0x10_0000,
                    k == 0x80_0000_0000_0000_0000_0000_0000,
            ;
        }
        WideMatrix {
            xx: m * self.xx,
            xy: m * self.xy,
            xz: m * self.xz,
            yx: m * self.yx,
            yy: m * self.yy,
            yz: m * self.yz,
            zx: m * self.zx,
            zy: m * self.zy,
            zz: m * self.zz,
        }
    }

    /// The tensor `inertia` of a body of mass `mass`, shifted by the
    /// displacement `d`.
    pub(crate) fn shifted(inertia: &Matrix3, mass: i64, d: &Vector3) -> (w: WideMatrix)
        requires
            0 <= mass <= MASS_MAX,
            d@.within(DISPLACEMENT_MAX as int),
        ensures
            w@ == shifted(inertia@, mass as int, d@),
            w@.within(0x1000_0000_0000_0000_0000_0000_0000_0000),
    {
        let wide = WideVector { x: d.x as i128, y: d.y as i128, z: d.z as i128 };
        let term = WideMatrix::of_displacement(&wide).scaled(mass);
        WideMatrix::widen(inertia).plus(&term)
    }
}

/// Shifts the inertia tensor of a body of mass `mass` from the body's own
/// center of mass to a point from which that center is displaced by
/// `displacement`. The result is `None` where the mass, the displacement or
/// an entry of the shifted tensor is outside the supported range.
pub fn parallel_axis_shift(inertia: &Matrix3, mass: i64, displacement: &Vector3) -> (r: Option<
    Matrix3,
>)
    ensures
        match r {
            Some(s) => shift_representable(inertia@, mass as int, displacement@) && s@ == shifted(
                inertia@,
                mass as int,
                displacement@,
            ),
            None => !shift_representable(inertia@, mass as int, displacement@),
        },
{
    if mass < 0 || mass > MASS_MAX {
        return None;
    }
    if !displacement.within(DISPLACEMENT_MAX) {
        return None;
    }
    WideMatrix::shifted(inertia, mass, displacement).narrow()
}

} // verus!
