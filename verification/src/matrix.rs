//! Column-major matrices of a size fixed at compile time.
use crate::scalar::{embeds, number, one, zero, Scalar};
use core::ops::{Index, IndexMut};
use vstd::prelude::*;
use vstd::std_specs::convert::FromSpecImpl;

pub mod camera;
pub mod inverse;
pub mod ops;
pub mod product;
pub mod square;

verus! {

/// A matrix of `M` rows and `N` columns, stored column by column.
#[derive(Clone, Copy, Debug)]
pub struct Matrix<T, const M: usize, const N: usize> {
    data: [[T; M]; N],
}

impl<T, const M: usize, const N: usize> Matrix<T, M, N> {
    /// The mathematical model: the columns, first to last, each from its
    /// first row to its last.
    pub closed spec fn columns(self) -> Seq<Seq<T>> {
        Seq::new(N as nat, |n: int| self.data@[n]@)
    }

    /// The entry in row `m` of column `n`.
    pub open spec fn at(self, m: int, n: int) -> T {
        self.columns()[n][m]
    }

    /// Row `m`, from its first column to its last.
    pub open spec fn row(self, m: int) -> Seq<T> {
        Seq::new(N as nat, |n: int| self.at(m, n))
    }

    /// `self` is `a` with rows and columns exchanged.
    pub open spec fn is_transpose_of(self, a: Matrix<T, N, M>) -> bool {
        forall|m: int, n: int| 0 <= m < M && 0 <= n < N ==> self.at(m, n) == a.at(n, m)
    }

    /// `flat` holds the entries of `self` column after column.
    pub open spec fn is_flattened_to(self, flat: Seq<T>) -> bool {
        &&& flat.len() == M * N
        &&& forall|m: int, n: int| 0 <= m < M && 0 <= n < N ==> flat[n * M + m] == self.at(m, n)
    }

    /// The matrix that stores `data` as its columns.
    pub closed spec fn of_columns(data: [[T; M]; N]) -> Self {
        Matrix { data }
    }

    /// The entries of the matrix that stores `data` are those of `data`.
    pub proof fn of_columns_entries(data: [[T; M]; N])
        ensures
            forall|m: int, n: int|
                0 <= m < M && 0 <= n < N ==> Self::of_columns(data).at(m, n) == data@[n]@[m],
    {
    }

    /// A matrix has `N` columns of `M` entries each.
    pub proof fn shape(self)
        ensures
            self.columns().len() == N,
            forall|n: int| 0 <= n < N ==> (#[trigger] self.columns()[n]).len() == M,
    {
    }

    /// Transposing twice gives the matrix back.
    pub proof fn transpose_twice(self, once: Matrix<T, N, M>, twice: Self)
        requires
            once.is_transpose_of(self),
            twice.is_transpose_of(once),
        ensures
            twice == self,
    {
        assert forall|m: int, n: int| 0 <= m < M && 0 <= n < N implies twice.at(m, n) == self.at(
            m,
            n,
        ) by {
            assert(twice.at(m, n) == once.at(n, m));
            assert(once.at(n, m) == self.at(m, n));
        }
        twice.same_entries(self);
    }

    /// A matrix read from a buffer and flattened again gives the buffer
    /// back: a matrix has one flattening only.
    pub proof fn flatten_round_trip(self, buffer: Seq<T>, flat: Seq<T>)
        requires
            self.is_flattened_to(buffer),
            self.is_flattened_to(flat),
        ensures
            flat == buffer,
    {
        assert forall|i: int| 0 <= i < flat.len() implies flat[i] == buffer[i] by {
            let rows = M as int;
            let n = i / rows;
            let m = i % rows;
            assert(rows > 0 && 0 <= m < rows && 0 <= n < N && n * rows + m == i)
                by (nonlinear_arith)
                requires
                    0 <= i < rows * N,
                    n == i / rows,
                    m == i % rows,
            ;
            assert(flat[n * M + m] == self.at(m, n));
            assert(buffer[n * M + m] == self.at(m, n));
        }
        assert(flat =~= buffer);
    }

    /// Two matrices with the same entries are the same matrix.
    pub proof fn same_entries(self, other: Self)
        requires
            forall|m: int, n: int| 0 <= m < M && 0 <= n < N ==> self.at(m, n) == other.at(m, n),
        ensures
            self == other,
    {
        assert forall|n: int| 0 <= n < N implies self.data[n] == other.data[n] by {
            assert forall|m: int| 0 <= m < M implies self.data[n][m] == other.data[n][m] by {
                assert(self.at(m, n) == other.at(m, n));
            }
            assert(self.data[n] =~= other.data[n]);
        }
        assert(self.data =~= other.data);
    }
}

/// `<[[V; K]]>::as_flattened` of std: the rows of a slice of arrays laid end
/// to end, so that entry `i` of the result is entry `i % K` of row `i / K`.
/// It panics when the total length overflows `usize`, which `requires` rules
/// out.
pub assume_specification<V, const K: usize>[ <[[V; K]]>::as_flattened ](rows: &[[V; K]]) -> (r:
    &[V])
    requires
        rows@.len() * K <= usize::MAX,
    ensures
        r@.len() == rows@.len() * K,
        forall|i: int| 0 <= i < r@.len() ==> r@[i] == rows@[i / (K as int)]@[i % (K as int)],
;

/// The entries that a slice holds.
pub open spec fn entries_of<T>(slice: &[T]) -> Seq<T> {
    slice@
}

/// The columns that an array of arrays holds.
pub open spec fn columns_of<T, const M: usize, const N: usize>(data: &[[T; M]; N]) -> Seq<Seq<T>> {
    Seq::new(N as nat, |n: int| data@[n]@)
}

/// The array whose every entry is `value`.
fn repeated<A: Copy, const K: usize>(value: A) -> (r: [A; K])
    ensures
        forall|i: int| 0 <= i < K ==> r@[i] == value,
{
    [value; K]
}

impl<T: Copy, const M: usize, const N: usize> Matrix<T, M, N> {
    /// The entries column after column, borrowed from the matrix.
    pub fn as_flattened(&self) -> (r: &[T])
        requires
            M * N <= usize::MAX,
        ensures
            self.is_flattened_to(r@),
    {
        assert(N * M == M * N) by (nonlinear_arith);
        let flat = self.data.as_slice().as_flattened();
        assert forall|m: int, n: int| 0 <= m < M && 0 <= n < N implies flat@[n * M + m]
            == self.at(m, n) by {
            let i = n * M + m;
            assert(0 <= i < N * M && i / (M as int) == n && i % (M as int) == m)
                by (nonlinear_arith)
                requires
                    0 <= m < M,
                    0 <= n < N,
                    i == n * M + m,
            ;
        }
        flat
    }

    /// The matrix whose every entry is `value`.
    pub fn filled(value: T) -> (r: Self)
        ensures
            forall|m: int, n: int| 0 <= m < M && 0 <= n < N ==> r.at(m, n) == value,
    {
        let column: [T; M] = repeated(value);
        let data: [[T; M]; N] = repeated(column);
        Matrix { data }
    }

    /// Reads the entry in row `m` of column `n`.
    pub fn get(&self, m: usize, n: usize) -> (r: T)
        requires
            m < M,
            n < N,
        ensures
            r == self.at(m as int, n as int),
    {
        self.data[n][m]
    }

    /// Writes `value` to row `m` of column `n` and leaves every other entry
    /// as it was.
    pub fn set(&mut self, m: usize, n: usize, value: T)
        requires
            m < M,
            n < N,
        ensures
            final(self).columns() == old(self).columns().update(
                n as int,
                old(self).columns()[n as int].update(m as int, value),
            ),
            final(self).at(m as int, n as int) == value,
            forall|i: int, j: int|
                0 <= i < M && 0 <= j < N && !(i == m && j == n) ==> final(self).at(i, j) == old(
                    self,
                ).at(i, j),
    {
        self.data[n][m] = value;
        assert(self.columns() =~= old(self).columns().update(
            n as int,
            old(self).columns()[n as int].update(m as int, value),
        ));
    }

    /// A copy of column `index`.
    pub fn column(&self, index: usize) -> (r: [T; M])
        requires
            index < N,
        ensures
            r@ == self.columns()[index as int],
    {
        self.data[index]
    }
}

impl<T: Copy, const M: usize, const N: usize> FromSpecImpl<[[T; M]; N]> for Matrix<T, M, N> {
    open spec fn obeys_from_spec() -> bool {
        true
    }

    open spec fn from_spec(data: [[T; M]; N]) -> Self {
        Self::of_columns(data)
    }
}

impl<T: Copy, const M: usize, const N: usize> From<[[T; M]; N]> for Matrix<T, M, N> {
    /// The matrix whose columns are the arrays of `data`.
    fn from(data: [[T; M]; N]) -> (r: Self)
        ensures
            forall|m: int, n: int| 0 <= m < M && 0 <= n < N ==> r.at(m, n) == data@[n]@[m],
    {
        Matrix { data }
    }
}

impl<T: Copy, const M: usize, const N: usize> vstd::std_specs::core::IndexSpecImpl<(usize, usize)> for Matrix<T, M, N> {
    open spec fn index_req(&self, index: &(usize, usize)) -> bool {
        index.0 < M && index.1 < N
    }
}

impl<T: Copy, const M: usize, const N: usize> Index<(usize, usize)> for Matrix<T, M, N> {
    type Output = T;

    /// The entry at `(row, column)`.
    fn index(&self, index: (usize, usize)) -> (r: &T)
        ensures
            *r == self.at(index.0 as int, index.1 as int),
    {
        &self.data[index.1][index.0]
    }
}

impl<T: Copy, const M: usize, const N: usize> IndexMut<(usize, usize)> for Matrix<T, M, N> {
    /// The entry at `(row, column)`, for writing.
    fn index_mut(&mut self, index: (usize, usize)) -> (r: &mut T)
        requires
            index.0 < M,
            index.1 < N,
        ensures
            *r == old(self).at(index.0 as int, index.1 as int),
            final(self).columns() == old(self).columns().update(
                index.1 as int,
                old(self).columns()[index.1 as int].update(index.0 as int, *final(r)),
            ),
    {
        &mut self.data[index.1][index.0]
    }
}

impl<T: Copy, const M: usize, const N: usize> AsRef<[T]> for Matrix<T, M, N> {
    /// The entries column after column.
    fn as_ref(&self) -> (r: &[T])
        requires
            M * N <= usize::MAX,
        ensures
            self.is_flattened_to(entries_of(r)),
    {
        self.as_flattened()
    }
}

impl<T: Copy, const M: usize, const N: usize> AsRef<[[T; M]; N]> for Matrix<T, M, N> {
    /// The columns as they are stored.
    fn as_ref(&self) -> (r: &[[T; M]; N])
        ensures
            self.columns() == columns_of(r),
    {
        proof {
            assert(self.columns() =~= columns_of(&self.data));
        }
        &self.data
    }
}

impl<T: Scalar, const M: usize, const N: usize> Matrix<T, M, N> {
    /// The matrix of zeros.
    pub fn zeros() -> (r: Self)
        ensures
            embeds::<T>() ==> forall|m: int, n: int|
                0 <= m < M && 0 <= n < N ==> r.at(m, n) == zero::<T>(),
    {
        Self::filled(number(0))
    }

    /// The matrix of ones.
    pub fn ones() -> (r: Self)
        ensures
            embeds::<T>() ==> forall|m: int, n: int|
                0 <= m < M && 0 <= n < N ==> r.at(m, n) == one::<T>(),
    {
        Self::filled(number(1))
    }

    /// Reads a matrix from its entries laid out column after column.
    pub fn from_flattened(data: &[T]) -> (r: Self)
        requires
            data@.len() == M * N,
        ensures
            r.is_flattened_to(data@),
    {
        let mut matrix = Self::zeros();
        let length = data.len();
        for n in 0..N
            invariant
                data@.len() == M * N,
                length == M * N,
                forall|i: int, j: int| 0 <= i < M && 0 <= j < n ==> matrix.at(i, j) == data@[j * M + i],
        {
            for m in 0..M
                invariant
                    n < N,
                    data@.len() == M * N,
                    length == M * N,
                    forall|i: int, j: int|
                        0 <= i < M && 0 <= j < n ==> matrix.at(i, j) == data@[j * M + i],
                    forall|i: int| 0 <= i < m ==> matrix.at(i, n as int) == data@[n * M + i],
            {
                assert(0 <= n * M <= n * M + m < M * N) by (nonlinear_arith)
                    requires
                        n < N,
                        m < M,
                ;
                matrix.set(m, n, data[n * M + m]);
            }
        }
        matrix
    }

    /// The window of `VM` rows and `VN` columns whose first entry is the one
    /// in row `start_m` of column `start_n`.
    pub fn view<const VM: usize, const VN: usize>(&self, start_m: usize, start_n: usize) -> (r:
        Matrix<T, VM, VN>)
        requires
            VM + start_m <= M,
            VN + start_n <= N,
        ensures
            forall|m: int, n: int|
                0 <= m < VM && 0 <= n < VN ==> r.at(m, n) == self.at(m + start_m, n + start_n),
    {
        let mut window: Matrix<T, VM, VN> = Matrix::zeros();
        for n in 0..VN
            invariant
                VM + start_m <= M,
                VN + start_n <= N,
                forall|i: int, j: int|
                    0 <= i < VM && 0 <= j < n ==> window.at(i, j) == self.at(
                        i + start_m,
                        j + start_n,
                    ),
        {
            for m in 0..VM
                invariant
                    n < VN,
                    VM + start_m <= M,
                    VN + start_n <= N,
                    forall|i: int, j: int|
                        0 <= i < VM && 0 <= j < n ==> window.at(i, j) == self.at(
                            i + start_m,
                            j + start_n,
                        ),
                    forall|i: int|
                        0 <= i < m ==> window.at(i, n as int) == self.at(
                            i + start_m,
                            n + start_n,
                        ),
            {
                window.set(m, n, self.get(m + start_m, n + start_n));
            }
        }
        window
    }

    /// The matrix with rows and columns exchanged.
    pub fn transpose(&self) -> (r: Matrix<T, N, M>)
        ensures
            r.is_transpose_of(*self),
    {
        let mut flipped: Matrix<T, N, M> = Matrix::zeros();
        for n in 0..M
            invariant
                forall|i: int, j: int| 0 <= i < N && 0 <= j < n ==> flipped.at(i, j) == self.at(j, i),
        {
            for m in 0..N
                invariant
                    n < M,
                    forall|i: int, j: int|
                        0 <= i < N && 0 <= j < n ==> flipped.at(i, j) == self.at(j, i),
                    forall|i: int| 0 <= i < m ==> flipped.at(i, n as int) == self.at(n as int, i),
            {
                flipped.set(m, n, self.get(n, m));
            }
        }
        flipped
    }
}

} // verus!
