use vstd::prelude::*;

verus! {

use crate::math::utils::Scalar;
use crate::math::vec3::Vec3;
use vstd::arithmetic::div_mod::lemma_fundamental_div_mod;

/// A 4-by-4 matrix over any `Scalar` type, stored row-major: the element at
/// (row, col) sits at index `row * 4 + col` of `data`.  A plain value type;
/// no invariant is enforced on the contents (a matrix may be singular).
#[derive(Debug, Clone, Copy, PartialEq)]
pub struct Mat4<T> {
    pub data: [T; 16],
}

/// Negation of a scalar, written as subtraction from the additive identity.
pub open spec fn neg_spec<T: Scalar>(x: T) -> T {
    T::zero_spec().sub_spec(x)
}

/// The all-zero matrix.
pub open spec fn mzero_spec<T: Scalar>() -> Seq<T> {
    Seq::new(16, |i: int| T::zero_spec())
}

/// The identity matrix: the multiplicative identity on the diagonal, the
/// additive identity everywhere else.
pub open spec fn midentity_spec<T: Scalar>() -> Seq<T> {
    Seq::new(
        16,
        |i: int|
            if i == 0 || i == 5 || i == 10 || i == 15 {
                T::one_spec()
            } else {
                T::zero_spec()
            },
    )
}

/// Component-wise sum of two matrices.
pub open spec fn madd_spec<T: Scalar>(a: Seq<T>, b: Seq<T>) -> Seq<T> {
    Seq::new(16, |i: int| a[i].add_spec(b[i]))
}

/// A scalar broadcast to every component and added.
pub open spec fn madd_scalar_spec<T: Scalar>(a: Seq<T>, s: T) -> Seq<T> {
    Seq::new(16, |i: int| a[i].add_spec(s))
}

/// Component-wise difference of two matrices.
pub open spec fn msub_spec<T: Scalar>(a: Seq<T>, b: Seq<T>) -> Seq<T> {
    Seq::new(16, |i: int| a[i].sub_spec(b[i]))
}

/// A scalar broadcast to every component and subtracted.
pub open spec fn msub_scalar_spec<T: Scalar>(a: Seq<T>, s: T) -> Seq<T> {
    Seq::new(16, |i: int| a[i].sub_spec(s))
}

/// Every component multiplied by a scalar.
pub open spec fn mmul_scalar_spec<T: Scalar>(a: Seq<T>, s: T) -> Seq<T> {
    Seq::new(16, |i: int| a[i].mul_spec(s))
}

/// One entry of a matrix product: row `row` of `a` against column `col` of
/// `b`, the four products summed left to right.
pub open spec fn mentry_spec<T: Scalar>(a: Seq<T>, b: Seq<T>, row: int, col: int) -> T {
    a[row * 4].mul_spec(b[col])
        .add_spec(a[row * 4 + 1].mul_spec(b[4 + col]))
        .add_spec(a[row * 4 + 2].mul_spec(b[8 + col]))
        .add_spec(a[row * 4 + 3].mul_spec(b[12 + col]))
}

/// Row-by-column matrix product.
pub open spec fn mmul_spec<T: Scalar>(a: Seq<T>, b: Seq<T>) -> Seq<T> {
    Seq::new(16, |i: int| mentry_spec(a, b, i / 4, i % 4))
}

/// The transpose: element (i, j) swapped with (j, i).
pub open spec fn transpose_spec<T: Scalar>(d: Seq<T>) -> Seq<T> {
    seq![
        d[0], d[4], d[8], d[12],
        d[1], d[5], d[9], d[13],
        d[2], d[6], d[10], d[14],
        d[3], d[7], d[11], d[15],
    ]
}

/// The determinant of a 3-by-3 matrix given row by row, by Laplace expansion
/// along the first row, with the exact association the executable code uses.
pub open spec fn det3_spec<T: Scalar>(
    a: T, b: T, c: T,
    d: T, e: T, f: T,
    g: T, h: T, i: T,
) -> T {
    a.mul_spec(e.mul_spec(i).sub_spec(f.mul_spec(h)))
        .sub_spec(b.mul_spec(d.mul_spec(i).sub_spec(f.mul_spec(g))))
        .add_spec(c.mul_spec(d.mul_spec(h).sub_spec(e.mul_spec(g))))
}

/// The determinant: cofactor expansion along the first row, using the four
/// 3-by-3 minors of columns 1 to 3, combined as `m00*det0 - m01*det1 +
/// m02*det2 - m03*det3`.
pub open spec fn determinant_spec<T: Scalar>(d: Seq<T>) -> T {
    let det0 = det3_spec(d[5], d[6], d[7], d[9], d[10], d[11], d[13], d[14], d[15]);
    let det1 = det3_spec(d[4], d[6], d[7], d[8], d[10], d[11], d[12], d[14], d[15]);
    let det2 = det3_spec(d[4], d[5], d[7], d[8], d[9], d[11], d[12], d[13], d[15]);
    let det3 = det3_spec(d[4], d[5], d[6], d[8], d[9], d[10], d[12], d[13], d[14]);
    d[0].mul_spec(det0).sub_spec(d[1].mul_spec(det1)).add_spec(d[2].mul_spec(det2)).sub_spec(
        d[3].mul_spec(det3),
    )
}

/// The first-row cofactor of column 0.
pub open spec fn cof00_spec<T: Scalar>(d: Seq<T>) -> T {
    det3_spec(d[5], d[6], d[7], d[9], d[10], d[11], d[13], d[14], d[15])
}

/// The first-row cofactor of column 1 (sign-adjusted).
pub open spec fn cof01_spec<T: Scalar>(d: Seq<T>) -> T {
    neg_spec(det3_spec(d[4], d[6], d[7], d[8], d[10], d[11], d[12], d[14], d[15]))
}

/// The first-row cofactor of column 2.
pub open spec fn cof02_spec<T: Scalar>(d: Seq<T>) -> T {
    det3_spec(d[4], d[5], d[7], d[8], d[9], d[11], d[12], d[13], d[15])
}

/// The first-row cofactor of column 3 (sign-adjusted).
pub open spec fn cof03_spec<T: Scalar>(d: Seq<T>) -> T {
    neg_spec(det3_spec(d[4], d[5], d[6], d[8], d[9], d[10], d[12], d[13], d[14]))
}

/// The determinant as inversion computes it: the first row against its four
/// cofactors, summed left to right.
pub open spec fn invdet_spec<T: Scalar>(d: Seq<T>) -> T {
    d[0].mul_spec(cof00_spec(d)).add_spec(d[1].mul_spec(cof01_spec(d))).add_spec(
        d[2].mul_spec(cof02_spec(d)),
    ).add_spec(d[3].mul_spec(cof03_spec(d)))
}

/// The adjugate: the transpose of the full cofactor matrix.
pub open spec fn adjugate_spec<T: Scalar>(d: Seq<T>) -> Seq<T> {
    let c00 = cof00_spec(d);
    let c01 = cof01_spec(d);
    let c02 = cof02_spec(d);
    let c03 = cof03_spec(d);
    let c10 = neg_spec(det3_spec(d[1], d[2], d[3], d[9], d[10], d[11], d[13], d[14], d[15]));
    let c11 = det3_spec(d[0], d[2], d[3], d[8], d[10], d[11], d[12], d[14], d[15]);
    let c12 = neg_spec(det3_spec(d[0], d[1], d[3], d[8], d[9], d[11], d[12], d[13], d[15]));
    let c13 = det3_spec(d[0], d[1], d[2], d[8], d[9], d[10], d[12], d[13], d[14]);
    let c20 = det3_spec(d[1], d[2], d[3], d[5], d[6], d[7], d[13], d[14], d[15]);
    let c21 = neg_spec(det3_spec(d[0], d[2], d[3], d[4], d[6], d[7], d[12], d[14], d[15]));
    let c22 = det3_spec(d[0], d[1], d[3], d[4], d[5], d[7], d[12], d[13], d[15]);
    let c23 = neg_spec(det3_spec(d[0], d[1], d[2], d[4], d[5], d[6], d[12], d[13], d[14]));
    let c30 = neg_spec(det3_spec(d[1], d[2], d[3], d[5], d[6], d[7], d[9], d[10], d[11]));
    let c31 = det3_spec(d[0], d[2], d[3], d[4], d[6], d[7], d[8], d[10], d[11]);
    let c32 = neg_spec(det3_spec(d[0], d[1], d[3], d[4], d[5], d[7], d[8], d[9], d[11]));
    let c33 = det3_spec(d[0], d[1], d[2], d[4], d[5], d[6], d[8], d[9], d[10]);
    seq![
        c00, c10, c20, c30,
        c01, c11, c21, c31,
        c02, c12, c22, c32,
        c03, c13, c23, c33,
    ]
}

/// What inversion returns when the determinant is not the additive identity:
/// the adjugate scaled by the reciprocal of the determinant.
pub open spec fn minverse_spec<T: Scalar>(d: Seq<T>) -> Seq<T> {
    mmul_scalar_spec(adjugate_spec(d), T::one_spec().div_spec(invdet_spec(d)))
}

/// A diagonal scale matrix.
pub open spec fn mscale_spec<T: Scalar>(x: T, y: T, z: T) -> Seq<T> {
    seq![
        x, T::zero_spec(), T::zero_spec(), T::zero_spec(),
        T::zero_spec(), y, T::zero_spec(), T::zero_spec(),
        T::zero_spec(), T::zero_spec(), z, T::zero_spec(),
        T::zero_spec(), T::zero_spec(), T::zero_spec(), T::one_spec(),
    ]
}

/// A translation matrix: the offsets in the last column of the first three
/// rows.
pub open spec fn mtranslation_spec<T: Scalar>(x: T, y: T, z: T) -> Seq<T> {
    seq![
        T::one_spec(), T::zero_spec(), T::zero_spec(), x,
        T::zero_spec(), T::one_spec(), T::zero_spec(), y,
        T::zero_spec(), T::zero_spec(), T::one_spec(), z,
        T::zero_spec(), T::zero_spec(), T::zero_spec(), T::one_spec(),
    ]
}

impl<T: Scalar> Mat4<T> {
    /// Builds a matrix from its 16 components, given row by row.
    pub fn new(
        m00: T,
        m01: T,
        m02: T,
        m03: T,
        m10: T,
        m11: T,
        m12: T,
        m13: T,
        m20: T,
        m21: T,
        m22: T,
        m23: T,
        m30: T,
        m31: T,
        m32: T,
        m33: T,
    ) -> (r: Self)
        ensures
            r.data@ == seq![
                m00, m01, m02, m03,
                m10, m11, m12, m13,
                m20, m21, m22, m23,
                m30, m31, m32, m33,
            ],
    {
        let r = Self {
            data: [
                m00, m01, m02, m03, m10, m11, m12, m13, m20, m21, m22, m23, m30, m31, m32, m33,
            ],
        };
        proof {
            assert(r.data@ =~= seq![
                m00, m01, m02, m03,
                m10, m11, m12, m13,
                m20, m21, m22, m23,
                m30, m31, m32, m33,
            ]);
        }
        r
    }

    /// The all-zero matrix.
    pub fn zero() -> (r: Self)
        ensures
            r.data@ == mzero_spec::<T>(),
    {
        let r = Self::new(
            T::zero(),
            T::zero(),
            T::zero(),
            T::zero(),
            T::zero(),
            T::zero(),
            T::zero(),
            T::zero(),
            T::zero(),
            T::zero(),
            T::zero(),
            T::zero(),
            T::zero(),
            T::zero(),
            T::zero(),
            T::zero(),
        );
        proof {
            assert(r.data@ =~= mzero_spec::<T>());
        }
        r
    }

    /// The identity matrix.
    pub fn identity() -> (r: Self)
        ensures
            r.data@ == midentity_spec::<T>(),
    {
        let r = Self::new(
            T::one(),
            T::zero(),
            T::zero(),
            T::zero(),
            T::zero(),
            T::one(),
            T::zero(),
            T::zero(),
            T::zero(),
            T::zero(),
            T::one(),
            T::zero(),
            T::zero(),
            T::zero(),
            T::zero(),
            T::one(),
        );
        proof {
            assert(r.data@ =~= midentity_spec::<T>());
        }
        r
    }

    /// The storage index of the element at (row, col).
    fn index(row: usize, col: usize) -> (r: usize)
        requires
            row < 4,
            col < 4,
        ensures
            r == row * 4 + col,
    {
        row * 4 + col
    }

    /// The determinant, by cofactor expansion along the first row.
    pub fn determinant(&self) -> (r: T)
        ensures
            r == determinant_spec(self.data@),
    {
        let m00 = self.data[0];
        let m01 = self.data[1];
        let m02 = self.data[2];
        let m03 = self.data[3];
        let m10 = self.data[4];
        let m11 = self.data[5];
        let m12 = self.data[6];
        let m13 = self.data[7];
        let m20 = self.data[8];
        let m21 = self.data[9];
        let m22 = self.data[10];
        let m23 = self.data[11];
        let m30 = self.data[12];
        let m31 = self.data[13];
        let m32 = self.data[14];
        let m33 = self.data[15];

        let det0 = m11.mul(m22.mul(m33).sub(m23.mul(m32))).sub(
            m12.mul(m21.mul(m33).sub(m23.mul(m31))),
        ).add(m13.mul(m21.mul(m32).sub(m22.mul(m31))));
        let det1 = m10.mul(m22.mul(m33).sub(m23.mul(m32))).sub(
            m12.mul(m20.mul(m33).sub(m23.mul(m30))),
        ).add(m13.mul(m20.mul(m32).sub(m22.mul(m30))));
        let det2 = m10.mul(m21.mul(m33).sub(m23.mul(m31))).sub(
            m11.mul(m20.mul(m33).sub(m23.mul(m30))),
        ).add(m13.mul(m20.mul(m31).sub(m21.mul(m30))));
        let det3 = m10.mul(m21.mul(m32).sub(m22.mul(m31))).sub(
            m11.mul(m20.mul(m32).sub(m22.mul(m30))),
        ).add(m12.mul(m20.mul(m31).sub(m21.mul(m30))));

        m00.mul(det0).sub(m01.mul(det1)).add(m02.mul(det2)).sub(m03.mul(det3))
    }

    /// The transpose, as a new matrix.
    pub fn transpose(self) -> (r: Self)
        ensures
            r.data@ == transpose_spec(self.data@),
    {
        let r = Self::new(
            self.data[0],
            self.data[4],
            self.data[8],
            self.data[12],
            self.data[1],
            self.data[5],
            self.data[9],
            self.data[13],
            self.data[2],
            self.data[6],
            self.data[10],
            self.data[14],
            self.data[3],
            self.data[7],
            self.data[11],
            self.data[15],
        );
        proof {
            assert(r.data@ =~= transpose_spec(self.data@));
        }
        r
    }

    /// The three column vectors of the upper-left 3-by-3 block, the
    /// orientation basis of a transform matrix.
    pub fn extract_basis(&self) -> (r: (Vec3<T>, Vec3<T>, Vec3<T>))
        ensures
            r.0 == (Vec3 { x: self.data@[0], y: self.data@[4], z: self.data@[8] }),
            r.1 == (Vec3 { x: self.data@[1], y: self.data@[5], z: self.data@[9] }),
            r.2 == (Vec3 { x: self.data@[2], y: self.data@[6], z: self.data@[10] }),
    {
        let x1 = self.data[0];
        let y1 = self.data[1];
        let z1 = self.data[2];
        let x2 = self.data[4];
        let y2 = self.data[5];
        let z2 = self.data[6];
        let x3 = self.data[8];
        let y3 = self.data[9];
        let z3 = self.data[10];
        (Vec3::new(x1, x2, x3), Vec3::new(y1, y2, y3), Vec3::new(z1, z2, z3))
    }

    /// Component-wise addition.
    pub fn add(self, other: Self) -> (r: Self)
        ensures
            r.data@ == madd_spec(self.data@, other.data@),
    {
        let r = Self::new(
            self.data[0].add(other.data[0]),
            self.data[1].add(other.data[1]),
            self.data[2].add(other.data[2]),
            self.data[3].add(other.data[3]),
            self.data[4].add(other.data[4]),
            self.data[5].add(other.data[5]),
            self.data[6].add(other.data[6]),
            self.data[7].add(other.data[7]),
            self.data[8].add(other.data[8]),
            self.data[9].add(other.data[9]),
            self.data[10].add(other.data[10]),
            self.data[11].add(other.data[11]),
            self.data[12].add(other.data[12]),
            self.data[13].add(other.data[13]),
            self.data[14].add(other.data[14]),
            self.data[15].add(other.data[15]),
        );
        proof {
            assert(r.data@ =~= madd_spec(self.data@, other.data@));
        }
        r
    }

    /// Adds a scalar to every component.
    pub fn add_scalar(self, scalar: T) -> (r: Self)
        ensures
            r.data@ == madd_scalar_spec(self.data@, scalar),
    {
        let r = Self::new(
            self.data[0].add(scalar),
            self.data[1].add(scalar),
            self.data[2].add(scalar),
            self.data[3].add(scalar),
            self.data[4].add(scalar),
            self.data[5].add(scalar),
            self.data[6].add(scalar),
            self.data[7].add(scalar),
            self.data[8].add(scalar),
            self.data[9].add(scalar),
            self.data[10].add(scalar),
            self.data[11].add(scalar),
            self.data[12].add(scalar),
            self.data[13].add(scalar),
            self.data[14].add(scalar),
            self.data[15].add(scalar),
        );
        proof {
            assert(r.data@ =~= madd_scalar_spec(self.data@, scalar));
        }
        r
    }

    /// Component-wise subtraction.
    pub fn sub(self, other: Self) -> (r: Self)
        ensures
            r.data@ == msub_spec(self.data@, other.data@),
    {
        let r = Self::new(
            self.data[0].sub(other.data[0]),
            self.data[1].sub(other.data[1]),
            self.data[2].sub(other.data[2]),
            self.data[3].sub(other.data[3]),
            self.data[4].sub(other.data[4]),
            self.data[5].sub(other.data[5]),
            self.data[6].sub(other.data[6]),
            self.data[7].sub(other.data[7]),
            self.data[8].sub(other.data[8]),
            self.data[9].sub(other.data[9]),
            self.data[10].sub(other.data[10]),
            self.data[11].sub(other.data[11]),
            self.data[12].sub(other.data[12]),
            self.data[13].sub(other.data[13]),
            self.data[14].sub(other.data[14]),
            self.data[15].sub(other.data[15]),
        );
        proof {
            assert(r.data@ =~= msub_spec(self.data@, other.data@));
        }
        r
    }

    /// Subtracts a scalar from every component.
    pub fn sub_scalar(self, scalar: T) -> (r: Self)
        ensures
            r.data@ == msub_scalar_spec(self.data@, scalar),
    {
        let r = Self::new(
            self.data[0].sub(scalar),
            self.data[1].sub(scalar),
            self.data[2].sub(scalar),
            self.data[3].sub(scalar),
            self.data[4].sub(scalar),
            self.data[5].sub(scalar),
            self.data[6].sub(scalar),
            self.data[7].sub(scalar),
            self.data[8].sub(scalar),
            self.data[9].sub(scalar),
            self.data[10].sub(scalar),
            self.data[11].sub(scalar),
            self.data[12].sub(scalar),
            self.data[13].sub(scalar),
            self.data[14].sub(scalar),
            self.data[15].sub(scalar),
        );
        proof {
            assert(r.data@ =~= msub_scalar_spec(self.data@, scalar));
        }
        r
    }

    /// Multiplies every component by a scalar.
    pub fn mul_scalar(self, scalar: T) -> (r: Self)
        ensures
            r.data@ == mmul_scalar_spec(self.data@, scalar),
    {
        let r = Self::new(
            self.data[0].mul(scalar),
            self.data[1].mul(scalar),
            self.data[2].mul(scalar),
            self.data[3].mul(scalar),
            self.data[4].mul(scalar),
            self.data[5].mul(scalar),
            self.data[6].mul(scalar),
            self.data[7].mul(scalar),
            self.data[8].mul(scalar),
            self.data[9].mul(scalar),
            self.data[10].mul(scalar),
            self.data[11].mul(scalar),
            self.data[12].mul(scalar),
            self.data[13].mul(scalar),
            self.data[14].mul(scalar),
            self.data[15].mul(scalar),
        );
        proof {
            assert(r.data@ =~= mmul_scalar_spec(self.data@, scalar));
        }
        r
    }

    /// One entry of the row-by-column product of `self` and `other`.
    fn entry(&self, other: &Self, row: usize, col: usize) -> (r: T)
        requires
            row < 4,
            col < 4,
        ensures
            r == mentry_spec(self.data@, other.data@, row as int, col as int),
    {
        self.data[Self::index(row, 0)].mul(other.data[Self::index(0, col)]).add(
            self.data[Self::index(row, 1)].mul(other.data[Self::index(1, col)]),
        ).add(self.data[Self::index(row, 2)].mul(other.data[Self::index(2, col)])).add(
            self.data[Self::index(row, 3)].mul(other.data[Self::index(3, col)]),
        )
    }

    /// Row-by-column matrix multiplication.
    pub fn mul(self, other: Self) -> (r: Self)
        ensures
            r.data@ == mmul_spec(self.data@, other.data@),
    {
        let r = Self::new(
            self.entry(&other, 0, 0),
            self.entry(&other, 0, 1),
            self.entry(&other, 0, 2),
            self.entry(&other, 0, 3),
            self.entry(&other, 1, 0),
            self.entry(&other, 1, 1),
            self.entry(&other, 1, 2),
            self.entry(&other, 1, 3),
            self.entry(&other, 2, 0),
            self.entry(&other, 2, 1),
            self.entry(&other, 2, 2),
            self.entry(&other, 2, 3),
            self.entry(&other, 3, 0),
            self.entry(&other, 3, 1),
            self.entry(&other, 3, 2),
            self.entry(&other, 3, 3),
        );
        proof {
            assert(r.data@ =~= mmul_spec(self.data@, other.data@));
        }
        r
    }

    /// A diagonal scale matrix.
    pub fn make_scale(x: T, y: T, z: T) -> (r: Self)
        ensures
            r.data@ == mscale_spec(x, y, z),
    {
        let r = Self::new(
            x,
            T::zero(),
            T::zero(),
            T::zero(),
            T::zero(),
            y,
            T::zero(),
            T::zero(),
            T::zero(),
            T::zero(),
            z,
            T::zero(),
            T::zero(),
            T::zero(),
            T::zero(),
            T::one(),
        );
        proof {
            assert(r.data@ =~= mscale_spec(x, y, z));
        }
        r
    }

    /// Post-multiplies by a scale matrix.
    pub fn scale(self, x: T, y: T, z: T) -> (r: Self)
        ensures
            r.data@ == mmul_spec(self.data@, mscale_spec(x, y, z)),
    {
        self.mul(Self::make_scale(x, y, z))
    }

    /// A translation matrix, the offsets in the last column of the first
    /// three rows.
    pub fn make_translation(x: T, y: T, z: T) -> (r: Self)
        ensures
            r.data@ == mtranslation_spec(x, y, z),
    {
        let r = Self::new(
            T::one(),
            T::zero(),
            T::zero(),
            x,
            T::zero(),
            T::one(),
            T::zero(),
            y,
            T::zero(),
            T::zero(),
            T::one(),
            z,
            T::zero(),
            T::zero(),
            T::zero(),
            T::one(),
        );
        proof {
            assert(r.data@ =~= mtranslation_spec(x, y, z));
        }
        r
    }

    /// Post-multiplies by a translation matrix.
    pub fn translate(self, x: T, y: T, z: T) -> (r: Self)
        ensures
            r.data@ == mmul_spec(self.data@, mtranslation_spec(x, y, z)),
    {
        self.mul(Self::make_translation(x, y, z))
    }

    /// Inversion by the cofactor/adjugate construction.  A singular matrix
    /// (determinant exactly the additive identity) is an anticipated,
    /// recoverable case: the result is absent, never a fatal failure.
    pub fn invert(self) -> (r: Option<Self>)
        ensures
            r is Some <==> invdet_spec(self.data@) != T::zero_spec(),
            r matches Some(m) ==> m.data@ == minverse_spec(self.data@),
    {
        let m00 = self.data[0];
        let m01 = self.data[1];
        let m02 = self.data[2];
        let m03 = self.data[3];
        let m10 = self.data[4];
        let m11 = self.data[5];
        let m12 = self.data[6];
        let m13 = self.data[7];
        let m20 = self.data[8];
        let m21 = self.data[9];
        let m22 = self.data[10];
        let m23 = self.data[11];
        let m30 = self.data[12];
        let m31 = self.data[13];
        let m32 = self.data[14];
        let m33 = self.data[15];

        let c00 = m11.mul(m22.mul(m33).sub(m23.mul(m32))).sub(
            m12.mul(m21.mul(m33).sub(m23.mul(m31))),
        ).add(m13.mul(m21.mul(m32).sub(m22.mul(m31))));
        let c01 = T::zero().sub(
            m10.mul(m22.mul(m33).sub(m23.mul(m32))).sub(
                m12.mul(m20.mul(m33).sub(m23.mul(m30))),
            ).add(m13.mul(m20.mul(m32).sub(m22.mul(m30)))),
        );
        let c02 = m10.mul(m21.mul(m33).sub(m23.mul(m31))).sub(
            m11.mul(m20.mul(m33).sub(m23.mul(m30))),
        ).add(m13.mul(m20.mul(m31).sub(m21.mul(m30))));
        let c03 = T::zero().sub(
            m10.mul(m21.mul(m32).sub(m22.mul(m31))).sub(
                m11.mul(m20.mul(m32).sub(m22.mul(m30))),
            ).add(m12.mul(m20.mul(m31).sub(m21.mul(m30)))),
        );

        let det = m00.mul(c00).add(m01.mul(c01)).add(m02.mul(c02)).add(m03.mul(c03));

        if det.is_zero() {
            return None;
        }

        let c10 = T::zero().sub(
            m01.mul(m22.mul(m33).sub(m23.mul(m32))).sub(
                m02.mul(m21.mul(m33).sub(m23.mul(m31))),
            ).add(m03.mul(m21.mul(m32).sub(m22.mul(m31)))),
        );
        let c11 = m00.mul(m22.mul(m33).sub(m23.mul(m32))).sub(
            m02.mul(m20.mul(m33).sub(m23.mul(m30))),
        ).add(m03.mul(m20.mul(m32).sub(m22.mul(m30))));
        let c12 = T::zero().sub(
            m00.mul(m21.mul(m33).sub(m23.mul(m31))).sub(
                m01.mul(m20.mul(m33).sub(m23.mul(m30))),
            ).add(m03.mul(m20.mul(m31).sub(m21.mul(m30)))),
        );
        let c13 = m00.mul(m21.mul(m32).sub(m22.mul(m31))).sub(
            m01.mul(m20.mul(m32).sub(m22.mul(m30))),
        ).add(m02.mul(m20.mul(m31).sub(m21.mul(m30))));

        let c20 = m01.mul(m12.mul(m33).sub(m13.mul(m32))).sub(
            m02.mul(m11.mul(m33).sub(m13.mul(m31))),
        ).add(m03.mul(m11.mul(m32).sub(m12.mul(m31))));
        let c21 = T::zero().sub(
            m00.mul(m12.mul(m33).sub(m13.mul(m32))).sub(
                m02.mul(m10.mul(m33).sub(m13.mul(m30))),
            ).add(m03.mul(m10.mul(m32).sub(m12.mul(m30)))),
        );
        let c22 = m00.mul(m11.mul(m33).sub(m13.mul(m31))).sub(
            m01.mul(m10.mul(m33).sub(m13.mul(m30))),
        ).add(m03.mul(m10.mul(m31).sub(m11.mul(m30))));
        let c23 = T::zero().sub(
            m00.mul(m11.mul(m32).sub(m12.mul(m31))).sub(
                m01.mul(m10.mul(m32).sub(m12.mul(m30))),
            ).add(m02.mul(m10.mul(m31).sub(m11.mul(m30)))),
        );

        let c30 = T::zero().sub(
            m01.mul(m12.mul(m23).sub(m13.mul(m22))).sub(
                m02.mul(m11.mul(m23).sub(m13.mul(m21))),
            ).add(m03.mul(m11.mul(m22).sub(m12.mul(m21)))),
        );
        let c31 = m00.mul(m12.mul(m23).sub(m13.mul(m22))).sub(
            m02.mul(m10.mul(m23).sub(m13.mul(m20))),
        ).add(m03.mul(m10.mul(m22).sub(m12.mul(m20))));
        let c32 = T::zero().sub(
            m00.mul(m11.mul(m23).sub(m13.mul(m21))).sub(
                m01.mul(m10.mul(m23).sub(m13.mul(m20))),
            ).add(m03.mul(m10.mul(m21).sub(m11.mul(m20)))),
        );
        let c33 = m00.mul(m11.mul(m22).sub(m12.mul(m21))).sub(
            m01.mul(m10.mul(m22).sub(m12.mul(m20))),
        ).add(m02.mul(m10.mul(m21).sub(m11.mul(m20))));

        let adjugate = Mat4::new(
            c00, c10, c20, c30, c01, c11, c21, c31, c02, c12, c22, c32, c03, c13, c23, c33,
        );
        proof {
            assert(adjugate.data@ =~= adjugate_spec(self.data@));
        }

        Some(adjugate.mul_scalar(T::one().div(det)))
    }
}

/// Adding the all-zero matrix changes nothing: for every 16-element contents
/// `d`, `d + zero == d`.
pub proof fn lemma_add_zero_matrix<T: Scalar>(d: Seq<T>)
    requires
        d.len() == 16,
    ensures
        madd_spec(d, mzero_spec::<T>()) == d,
{
    assert forall|i: int| 0 <= i < 16 implies madd_spec(d, mzero_spec::<T>())[i] == d[i] by {
        T::scalar_laws(d[i], d[i]);
    }
    assert(madd_spec(d, mzero_spec::<T>()) =~= d);
}

/// Multiplying by the identity matrix changes nothing: for every 16-element
/// contents `d`, `d * identity == d`.
pub proof fn lemma_mul_identity_matrix<T: Scalar>(d: Seq<T>)
    requires
        d.len() == 16,
    ensures
        mmul_spec(d, midentity_spec::<T>()) == d,
{
    let e = midentity_spec::<T>();
    assert forall|i: int| 0 <= i < 16 implies mmul_spec(d, e)[i] == d[i] by {
        lemma_fundamental_div_mod(i, 4);
        let row: int = i / 4;
        T::scalar_laws(T::zero_spec(), T::zero_spec());
        T::scalar_laws(d[4 * row], T::zero_spec());
        T::scalar_laws(d[4 * row + 1], T::zero_spec());
        T::scalar_laws(d[4 * row + 2], T::zero_spec());
        T::scalar_laws(d[4 * row + 3], T::zero_spec());
    }
    assert(mmul_spec(d, e) =~= d);
}

/// Transposition is an involution: transposing twice gives back the original
/// contents.
pub proof fn lemma_transpose_involution<T: Scalar>(d: Seq<T>)
    requires
        d.len() == 16,
    ensures
        transpose_spec(transpose_spec(d)) == d,
{
    assert(transpose_spec(transpose_spec(d)) =~= d);
}

/// The determinant of the identity matrix is the multiplicative identity.
pub proof fn lemma_identity_determinant<T: Scalar>()
    ensures
        determinant_spec(midentity_spec::<T>()) == T::one_spec(),
{
    T::scalar_laws(T::zero_spec(), T::zero_spec());
    T::scalar_laws(T::zero_spec(), T::one_spec());
    T::scalar_laws(T::one_spec(), T::zero_spec());
    T::scalar_laws(T::one_spec(), T::one_spec());
}

/// The identity matrix is invertible and is its own inverse: its
/// cofactor-expansion determinant is the multiplicative identity, and the
/// inverse contents equal the identity contents.
pub proof fn lemma_identity_inverse<T: Scalar>()
    ensures
        invdet_spec(midentity_spec::<T>()) == T::one_spec(),
        minverse_spec(midentity_spec::<T>()) == midentity_spec::<T>(),
{
    let e = midentity_spec::<T>();
    T::scalar_laws(T::zero_spec(), T::zero_spec());
    T::scalar_laws(T::zero_spec(), T::one_spec());
    T::scalar_laws(T::one_spec(), T::zero_spec());
    T::scalar_laws(T::one_spec(), T::one_spec());
    assert(adjugate_spec(e) =~= e);
    assert(minverse_spec(e) =~= e);
}

/// The all-zero matrix is singular: its cofactor-expansion determinant is the
/// additive identity, so inversion yields no result.
pub proof fn lemma_zero_matrix_singular<T: Scalar>()
    ensures
        invdet_spec(mzero_spec::<T>()) == T::zero_spec(),
{
    T::scalar_laws(T::zero_spec(), T::zero_spec());
}

} // verus!
