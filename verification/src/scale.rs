//! Scalings along the axes, and their homogeneous matrices.
use crate::matrix::Matrix;
use crate::scalar::{embeds, exact, one, total, zero, Scalar};
use crate::vector::{product_of, Vector};
use vstd::prelude::*;
use vstd::std_specs::ops::MulSpec;

pub mod scale2;
pub mod scale3;

verus! {

/// `matrix` is the homogeneous matrix of the scaling by `factors`: the
/// identity of one dimension more, with the factors on the diagonal.
pub open spec fn is_scaling<T: Scalar, const M: usize, const M1: usize>(
    matrix: Matrix<T, M1, M1>,
    factors: Vector<T, M>,
) -> bool {
    forall|m: int, n: int|
        0 <= m < M1 && 0 <= n < M1 ==> matrix.at(m, n) == if m != n {
            zero::<T>()
        } else if m < M {
            factors.nth(m)
        } else {
            one::<T>()
        }
}

/// `factors` is what the diagonal of `matrix` holds above its last row.
pub open spec fn is_diagonal_of<T, const M: usize, const M1: usize>(
    factors: Vector<T, M>,
    matrix: Matrix<T, M1, M1>,
) -> bool {
    forall|m: int| 0 <= m < M ==> factors.nth(m) == matrix.at(m, m)
}

/// The homogeneous matrix of the scaling by the components of `vector`.
pub fn to_homogeneous_matrix<T: Scalar, const M: usize, const M1: usize>(
    vector: Vector<T, M>,
) -> (r: Matrix<T, M1, M1>)
    requires
        M1 == M + 1,
    ensures
        is_diagonal_of(vector, r),
        embeds::<T>() ==> is_scaling(r, vector),
{
    let mut matrix: Matrix<T, M1, M1> = Matrix::identity();
    for m in 0..M
        invariant
            M1 == M + 1,
            forall|i: int| 0 <= i < m ==> vector.nth(i) == matrix.at(i, i),
            embeds::<T>() ==> forall|i: int, j: int|
                0 <= i < M1 && 0 <= j < M1 ==> matrix.at(i, j) == if i != j {
                    zero::<T>()
                } else if i < m {
                    vector.nth(i)
                } else {
                    one::<T>()
                },
    {
        matrix.set(m, m, vector.get(m, 0));
    }
    matrix
}

/// The scale factors that a homogeneous matrix holds on its diagonal.
pub fn from_homogeneous_matrix<T: Scalar, const M: usize, const M1: usize>(
    matrix: &Matrix<T, M1, M1>,
) -> (r: Vector<T, M>)
    requires
        M1 == M + 1,
    ensures
        is_diagonal_of(r, *matrix),
{
    let mut vector: Vector<T, M> = Matrix::zeros();
    for m in 0..M
        invariant
            M1 == M + 1,
            forall|i: int| 0 <= i < m ==> vector.at(i, 0) == matrix.at(i, i),
    {
        vector.set(m, 0, matrix.get(m, m));
    }
    assert forall|i: int| 0 <= i < M implies vector.nth(i) == matrix.at(i, i) by {
        assert(vector.at(i, 0) == matrix.at(i, i));
    }
    vector
}

/// Scale factors written to a homogeneous matrix and read back are the
/// factors themselves.
pub proof fn scale_round_trip<T, const M: usize, const M1: usize>(
    factors: Vector<T, M>,
    matrix: Matrix<T, M1, M1>,
    back: Vector<T, M>,
)
    requires
        is_diagonal_of(factors, matrix),
        is_diagonal_of(back, matrix),
    ensures
        back == factors,
{
    assert forall|m: int, n: int| 0 <= m < M && 0 <= n < 1 implies back.at(m, n) == factors.at(
        m,
        n,
    ) by {
        assert(back.nth(m) == matrix.at(m, m));
        assert(factors.nth(m) == matrix.at(m, m));
    }
    back.same_entries(factors);
}

/// The vector scaled component by component.
pub fn scale_vector<T: Scalar, const M: usize>(vector: Vector<T, M>, scale: Vector<T, M>) -> (r:
    Vector<T, M>)
    requires
        total::<T>(),
    ensures
        exact::<T>() ==> r.components() == product_of(vector.components(), scale.components()),
{
    let mut result: Vector<T, M> = Matrix::zeros();
    for m in 0..M
        invariant
            total::<T>(),
            exact::<T>() ==> forall|i: int|
                0 <= i < m ==> result.at(i, 0) == vector.at(i, 0).mul_spec(scale.at(i, 0)),
    {
        result.set(m, 0, vector.get(m, 0) * scale.get(m, 0));
    }
    proof {
        result.shape();
        vector.shape();
        if exact::<T>() {
            assert forall|i: int| 0 <= i < M implies result.components()[i] == product_of(
                vector.components(),
                scale.components(),
            )[i] by {
                assert(result.at(i, 0) == vector.at(i, 0).mul_spec(scale.at(i, 0)));
            }
            assert(result.components() =~= product_of(vector.components(), scale.components()));
        }
    }
    result
}

} // verus!
