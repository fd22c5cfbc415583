//! Translations, and their homogeneous matrices.
use crate::matrix::Matrix;
use crate::scalar::{embeds, one, zero, Scalar};
use crate::vector::Vector;
use vstd::prelude::*;

pub mod translation2;
pub mod translation3;

verus! {

/// `matrix` is the homogeneous matrix of the translation by `offset`: the
/// identity of one dimension more, with the offset in the last column.
pub open spec fn is_translation<T: Scalar, const M: usize, const M1: usize>(
    matrix: Matrix<T, M1, M1>,
    offset: Vector<T, M>,
) -> bool {
    forall|m: int, n: int|
        0 <= m < M1 && 0 <= n < M1 ==> matrix.at(m, n) == if n == M && m < M {
            offset.nth(m)
        } else if m == n {
            one::<T>()
        } else {
            zero::<T>()
        }
}

/// `offset` is what the last column of `matrix` holds above its last row.
pub open spec fn is_offset_of<T, const M: usize, const M1: usize>(
    offset: Vector<T, M>,
    matrix: Matrix<T, M1, M1>,
) -> bool {
    forall|m: int| 0 <= m < M ==> offset.nth(m) == matrix.at(m, M as int)
}

/// The homogeneous matrix of the translation by `vector`.
pub fn to_homogeneous_matrix<T: Scalar, const M: usize, const M1: usize>(
    vector: Vector<T, M>,
) -> (r: Matrix<T, M1, M1>)
    requires
        M1 == M + 1,
    ensures
        is_offset_of(vector, r),
        embeds::<T>() ==> is_translation(r, vector),
{
    let mut matrix: Matrix<T, M1, M1> = Matrix::identity();
    for m in 0..M
        invariant
            M1 == M + 1,
            forall|i: int| 0 <= i < m ==> vector.nth(i) == matrix.at(i, M as int),
            embeds::<T>() ==> forall|i: int, j: int|
                0 <= i < M1 && 0 <= j < M1 ==> matrix.at(i, j) == if j == M && i < m {
                    vector.nth(i)
                } else if i == j {
                    one::<T>()
                } else {
                    zero::<T>()
                },
    {
        matrix.set(m, M, vector.get(m, 0));
    }
    matrix
}

/// The translation that a homogeneous matrix holds in its last column.
pub fn from_homogeneous_matrix<T: Scalar, const M: usize, const M1: usize>(
    matrix: &Matrix<T, M1, M1>,
) -> (r: Vector<T, M>)
    requires
        M1 == M + 1,
    ensures
        is_offset_of(r, *matrix),
{
    let mut vector: Vector<T, M> = Matrix::zeros();
    for m in 0..M
        invariant
            M1 == M + 1,
            forall|i: int| 0 <= i < m ==> vector.at(i, 0) == matrix.at(i, M as int),
    {
        vector.set(m, 0, matrix.get(m, M));
    }
    assert forall|i: int| 0 <= i < M implies vector.nth(i) == matrix.at(i, M as int) by {
        assert(vector.at(i, 0) == matrix.at(i, M as int));
    }
    vector
}

/// A translation written to a homogeneous matrix and read back is the
/// translation itself.
pub proof fn translation_round_trip<T, const M: usize, const M1: usize>(
    offset: Vector<T, M>,
    matrix: Matrix<T, M1, M1>,
    back: Vector<T, M>,
)
    requires
        is_offset_of(offset, matrix),
        is_offset_of(back, matrix),
    ensures
        back == offset,
{
    assert forall|m: int, n: int| 0 <= m < M && 0 <= n < 1 implies back.at(m, n) == offset.at(
        m,
        n,
    ) by {
        assert(back.nth(m) == matrix.at(m, M as int));
        assert(offset.nth(m) == matrix.at(m, M as int));
    }
    back.same_entries(offset);
}

} // verus!
