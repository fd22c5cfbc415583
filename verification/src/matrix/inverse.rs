//! Inversion of a square matrix by Gauss-Jordan elimination with partial
//! pivoting.
//!
//! The elimination works on the augmented system `[A | I]`, held row by row.
//! Its specification follows the elimination step by step: over a scalar
//! type that rounds, the inverse is what these steps compute and nothing
//! shorter describes it.
use crate::elementary::{is_epsilon, Elementary};
use crate::matrix::square::entry;
use crate::matrix::Matrix;
use crate::scalar::{
    above, abs, absolute, below, exact, greater, less, number, one, total, zero, Scalar,
};
use vstd::prelude::*;
use vstd::std_specs::ops::{DivSpec, MulSpec, SubSpec};

verus! {

/// `rows` has `height` rows of `width` entries each.
pub open spec fn rect<T>(rows: Seq<Seq<T>>, height: nat, width: nat) -> bool {
    &&& rows.len() == height
    &&& forall|m: int| 0 <= m < height ==> (#[trigger] rows[m]).len() == width
}

/// The augmented system `[A | I]` of the `size`×`size` matrix with the
/// given columns, row by row.
pub open spec fn augmented<T: Scalar>(columns: Seq<Seq<T>>, size: nat) -> Seq<Seq<T>> {
    Seq::new(
        size,
        |m: int|
            Seq::new(
                2 * size,
                |n: int|
                    if n < size {
                        entry(columns, m, n)
                    } else if n == size + m {
                        one::<T>()
                    } else {
                        zero::<T>()
                    },
            ),
    )
}

/// The pivot row for column `d` among the rows `d .. end`: the first row
/// whose entry in column `d` has the largest magnitude.
pub open spec fn pivot_scan<T: Scalar>(rows: Seq<Seq<T>>, d: nat, end: nat) -> nat
    decreases end,
{
    if end <= d + 1 {
        d
    } else {
        let best = pivot_scan(rows, d, (end - 1) as nat);
        if above(absolute(rows[end - 1][d as int]), absolute(rows[best as int][d as int])) {
            (end - 1) as nat
        } else {
            best
        }
    }
}

/// `rows` with the rows `i` and `j` exchanged.
pub open spec fn swapped<T>(rows: Seq<Seq<T>>, i: int, j: int) -> Seq<Seq<T>> {
    rows.update(i, rows[j]).update(j, rows[i])
}

/// `row` with each entry from column `d` on divided by `factor`.
pub open spec fn scaled_row<T: Scalar>(row: Seq<T>, d: int, factor: T) -> Seq<T> {
    Seq::new(
        row.len(),
        |n: int|
            if n >= d {
                row[n].div_spec(factor)
            } else {
                row[n]
            },
    )
}

/// `row` with `value` times the pivot row taken off, from column `d` on.
pub open spec fn reduced_row<T: Scalar>(row: Seq<T>, pivot: Seq<T>, d: int, value: T) -> Seq<T> {
    Seq::new(
        row.len(),
        |n: int|
            if n >= d {
                row[n].sub_spec(pivot[n].mul_spec(value))
            } else {
                row[n]
            },
    )
}

/// `rows` with column `d` cleared in every row but row `d`: each other row
/// loses its entry in column `d` times the pivot row.
pub open spec fn eliminated<T: Scalar>(rows: Seq<Seq<T>>, d: int) -> Seq<Seq<T>> {
    Seq::new(
        rows.len(),
        |m: int|
            if m == d {
                rows[m]
            } else {
                reduced_row(rows[m], rows[d], d, rows[m][d])
            },
    )
}

/// One elimination step, for pivot column `d`: bring the pivot row into
/// place, give up if the pivot is below `epsilon` in magnitude, else
/// normalise the pivot row and clear the column in the other rows.
pub open spec fn step<T: Scalar>(rows: Seq<Seq<T>>, d: nat, epsilon: T) -> Option<Seq<Seq<T>>> {
    let pivot = pivot_scan(rows, d, rows.len());
    let placed = swapped(rows, pivot as int, d as int);
    let factor = placed[d as int][d as int];
    if below(absolute(factor), epsilon) {
        None
    } else {
        let normal = placed.update(d as int, scaled_row(placed[d as int], d as int, factor));
        Some(eliminated(normal, d as int))
    }
}

/// The system after the first `k` pivot columns, or `None` once a pivot was
/// found too small.
pub open spec fn reduce<T: Scalar>(rows: Seq<Seq<T>>, k: nat, epsilon: T) -> Option<Seq<Seq<T>>>
    decreases k,
{
    if k == 0 {
        Some(rows)
    } else {
        match reduce(rows, (k - 1) as nat, epsilon) {
            None => None,
            Some(before) => step(before, (k - 1) as nat, epsilon),
        }
    }
}

/// The columns of the inverse of the `size`×`size` matrix with the given
/// columns: none for a matrix smaller than 2×2 or one with a pivot below
/// `epsilon`, else the right half of the fully reduced system.
pub open spec fn inverse_of<T: Scalar>(columns: Seq<Seq<T>>, size: nat, epsilon: T) -> Option<
    Seq<Seq<T>>,
> {
    if size < 2 {
        None
    } else {
        match reduce(augmented(columns, size), size, epsilon) {
            None => None,
            Some(done) => Some(
                Seq::new(size, |n: int| Seq::new(size, |m: int| done[m][n + size])),
            ),
        }
    }
}

/// Once a pivot was too small, the elimination stays without result.
pub proof fn reduce_stays_none<T: Scalar>(rows: Seq<Seq<T>>, k: nat, later: nat, epsilon: T)
    requires
        k <= later,
        reduce(rows, k, epsilon) is None,
    ensures
        reduce(rows, later, epsilon) is None,
    decreases later,
{
    if k < later {
        reduce_stays_none(rows, k, (later - 1) as nat, epsilon);
    }
}

/// The rows that a vector of vectors holds.
pub open spec fn grid<T>(v: Vec<Vec<T>>) -> Seq<Seq<T>> {
    Seq::new(v@.len(), |m: int| v@[m]@)
}

fn augment<T: Scalar, const M: usize>(source: &Matrix<T, M, M>) -> (ext: Vec<Vec<T>>)
    requires
        2 * M <= usize::MAX,
    ensures
        rect(grid(ext), M as nat, (2 * M) as nat),
        exact::<T>() ==> grid(ext) == augmented(source.columns(), M as nat),
{
    let zero_entry: T = number(0);
    let one_entry: T = number(1);
    let width = 2 * M;
    let mut ext: Vec<Vec<T>> = Vec::new();
    for m in 0..M
        invariant
            width == 2 * M,
            exact::<T>() ==> zero_entry == zero::<T>() && one_entry == one::<T>(),
            rect(grid(ext), m as nat, width as nat),
            exact::<T>() ==> forall|i: int|
                0 <= i < m ==> (#[trigger] grid(ext)[i]) == augmented(source.columns(), M as nat)[i],
    {
        let mut row: Vec<T> = Vec::new();
        for n in 0..width
            invariant
                width == 2 * M,
                m < M,
                exact::<T>() ==> zero_entry == zero::<T>() && one_entry == one::<T>(),
                row@.len() == n,
                exact::<T>() ==> forall|j: int|
                    0 <= j < n ==> (#[trigger] row@[j]) == augmented(
                        source.columns(),
                        M as nat,
                    )[m as int][j],
        {
            let value = if n < M {
                source.get(m, n)
            } else if n == M + m {
                one_entry
            } else {
                zero_entry
            };
            row.push(value);
        }
        proof {
            if exact::<T>() {
                assert(row@ =~= augmented(source.columns(), M as nat)[m as int]);
            }
        }
        let ghost before = grid(ext);
        ext.push(row);
        proof {
            assert forall|i: int| 0 <= i < m + 1 implies (#[trigger] grid(ext)[i]).len()
                == width by {
                if i < m {
                    assert(grid(ext)[i] == before[i]);
                }
            }
            if exact::<T>() {
                assert forall|i: int| 0 <= i < m + 1 implies (#[trigger] grid(ext)[i])
                    == augmented(source.columns(), M as nat)[i] by {
                    if i < m {
                        assert(grid(ext)[i] == before[i]);
                    }
                }
            }
        }
    }
    proof {
        if exact::<T>() {
            assert(grid(ext) =~= augmented(source.columns(), M as nat));
        }
    }
    ext
}

fn find_pivot<T: Scalar>(ext: &Vec<Vec<T>>, d: usize, height: usize, width: usize) -> (pivot: usize)
    requires
        total::<T>(),
        rect(grid(*ext), height as nat, width as nat),
        d < height,
        d < width,
    ensures
        d <= pivot < height,
        exact::<T>() ==> pivot == pivot_scan(grid(*ext), d as nat, height as nat),
{
    let mut pivot = d;
    for m in (d + 1)..height
        invariant
            total::<T>(),
            rect(grid(*ext), height as nat, width as nat),
            d < height,
            d < width,
            d <= pivot < height,
            exact::<T>() ==> pivot == pivot_scan(grid(*ext), d as nat, m as nat),
    {
        assert(grid(*ext)[m as int].len() == width);
        assert(grid(*ext)[pivot as int].len() == width);
        if greater(abs(ext[m][d]), abs(ext[pivot][d])) {
            pivot = m;
        }
    }
    pivot
}

fn swap_rows<T: Scalar>(ext: &mut Vec<Vec<T>>, i: usize, j: usize, height: usize, width: usize)
    requires
        rect(grid(*old(ext)), height as nat, width as nat),
        i < height,
        j < height,
    ensures
        rect(grid(*final(ext)), height as nat, width as nat),
        grid(*final(ext)) == swapped(grid(*old(ext)), i as int, j as int),
{
    let ghost before = grid(*ext);
    for n in 0..width
        invariant
            rect(before, height as nat, width as nat),
            rect(grid(*ext), height as nat, width as nat),
            i < height,
            j < height,
            forall|m: int| 0 <= m < height && m != i && m != j ==> grid(*ext)[m] == before[m],
            forall|k: int| 0 <= k < n ==> grid(*ext)[i as int][k] == before[j as int][k],
            forall|k: int| 0 <= k < n ==> grid(*ext)[j as int][k] == before[i as int][k],
            forall|k: int| n <= k < width ==> grid(*ext)[i as int][k] == before[i as int][k],
            forall|k: int| n <= k < width ==> grid(*ext)[j as int][k] == before[j as int][k],
    {
        assert(grid(*ext)[i as int].len() == width);
        assert(grid(*ext)[j as int].len() == width);
        let upper = ext[i][n];
        let lower = ext[j][n];
        let ghost mid0 = grid(*ext);
        ext[i][n] = lower;
        let ghost mid1 = grid(*ext);
        assert(mid1 =~= mid0.update(i as int, mid0[i as int].update(n as int, lower)));
        assert(mid1[j as int].len() == width);
        ext[j][n] = upper;
        assert(grid(*ext) =~= mid1.update(j as int, mid1[j as int].update(n as int, upper)));
    }
    proof {
        let after = grid(*ext);
        let goal = swapped(before, i as int, j as int);
        assert(after[i as int] =~= before[j as int]);
        assert(after[j as int] =~= before[i as int]);
        assert(after =~= goal);
    }
}

fn scale_row<T: Scalar>(
    ext: &mut Vec<Vec<T>>,
    d: usize,
    factor: T,
    height: usize,
    width: usize,
)
    requires
        total::<T>(),
        rect(grid(*old(ext)), height as nat, width as nat),
        d < height,
        d < width,
    ensures
        rect(grid(*final(ext)), height as nat, width as nat),
        exact::<T>() ==> grid(*final(ext)) == grid(*old(ext)).update(
            d as int,
            scaled_row(grid(*old(ext))[d as int], d as int, factor),
        ),
{
    let ghost before = grid(*ext);
    for n in d..width
        invariant
            total::<T>(),
            rect(before, height as nat, width as nat),
            rect(grid(*ext), height as nat, width as nat),
            d < height,
            forall|m: int| 0 <= m < height && m != d ==> grid(*ext)[m] == before[m],
            forall|k: int| 0 <= k < d ==> grid(*ext)[d as int][k] == before[d as int][k],
            forall|k: int| n <= k < width ==> grid(*ext)[d as int][k] == before[d as int][k],
            exact::<T>() ==> forall|k: int|
                d <= k < n ==> grid(*ext)[d as int][k] == before[d as int][k].div_spec(factor),
    {
        assert(grid(*ext)[d as int].len() == width);
        let quotient = ext[d][n] / factor;
        let ghost mid = grid(*ext);
        ext[d][n] = quotient;
        assert(grid(*ext) =~= mid.update(d as int, mid[d as int].update(n as int, quotient)));
    }
    proof {
        if exact::<T>() {
            let after = grid(*ext);
            assert(after[d as int] =~= scaled_row(before[d as int], d as int, factor));
            assert(after =~= before.update(
                d as int,
                scaled_row(before[d as int], d as int, factor),
            ));
        }
    }
}

fn reduce_row<T: Scalar>(
    ext: &mut Vec<Vec<T>>,
    m: usize,
    d: usize,
    value: T,
    height: usize,
    width: usize,
)
    requires
        total::<T>(),
        rect(grid(*old(ext)), height as nat, width as nat),
        d < height,
        d < width,
        m < height,
        m != d,
    ensures
        rect(grid(*final(ext)), height as nat, width as nat),
        forall|i: int| 0 <= i < height && i != m ==> grid(*final(ext))[i] == grid(*old(ext))[i],
        exact::<T>() ==> grid(*final(ext))[m as int] == reduced_row(
            grid(*old(ext))[m as int],
            grid(*old(ext))[d as int],
            d as int,
            value,
        ),
{
    let ghost before = grid(*ext);
    for n in d..width
        invariant
            total::<T>(),
            rect(before, height as nat, width as nat),
            rect(grid(*ext), height as nat, width as nat),
            d < height,
            m < height,
            m != d,
            forall|i: int| 0 <= i < height && i != m ==> grid(*ext)[i] == before[i],
            forall|k: int| 0 <= k < d ==> grid(*ext)[m as int][k] == before[m as int][k],
            forall|k: int| n <= k < width ==> grid(*ext)[m as int][k] == before[m as int][k],
            exact::<T>() ==> forall|k: int|
                d <= k < n ==> grid(*ext)[m as int][k] == before[m as int][k].sub_spec(
                    before[d as int][k].mul_spec(value),
                ),
    {
        assert(grid(*ext)[m as int].len() == width);
        assert(grid(*ext)[d as int].len() == width);
        let lowered = ext[m][n] - ext[d][n] * value;
        let ghost mid = grid(*ext);
        ext[m][n] = lowered;
        assert(grid(*ext) =~= mid.update(m as int, mid[m as int].update(n as int, lowered)));
    }
    proof {
        if exact::<T>() {
            assert(grid(*ext)[m as int] =~= reduced_row(
                before[m as int],
                before[d as int],
                d as int,
                value,
            ));
        }
    }
}

fn eliminate<T: Scalar>(ext: &mut Vec<Vec<T>>, d: usize, height: usize, width: usize)
    requires
        total::<T>(),
        rect(grid(*old(ext)), height as nat, width as nat),
        d < height,
        d < width,
    ensures
        rect(grid(*final(ext)), height as nat, width as nat),
        exact::<T>() ==> grid(*final(ext)) == eliminated(grid(*old(ext)), d as int),
{
    let ghost before = grid(*ext);
    for m in 0..height
        invariant
            total::<T>(),
            rect(before, height as nat, width as nat),
            rect(grid(*ext), height as nat, width as nat),
            d < height,
            d < width,
            grid(*ext)[d as int] == before[d as int],
            forall|i: int| m <= i < height ==> grid(*ext)[i] == before[i],
            exact::<T>() ==> forall|i: int|
                0 <= i < m ==> (#[trigger] grid(*ext)[i]) == eliminated(before, d as int)[i],
    {
        if m != d {
            assert(grid(*ext)[m as int].len() == width);
            let value = ext[m][d];
            let ghost mid = grid(*ext);
            reduce_row(ext, m, d, value, height, width);
            proof {
                if exact::<T>() {
                    assert forall|i: int| 0 <= i < m implies (#[trigger] grid(*ext)[i])
                        == eliminated(before, d as int)[i] by {
                        assert(grid(*ext)[i] == mid[i]);
                    }
                }
            }
        }
    }
    proof {
        if exact::<T>() {
            assert(grid(*ext) =~= eliminated(before, d as int));
        }
    }
}

impl<T: Scalar, const M: usize> Matrix<T, M, M> {
    /// The inverse by Gauss-Jordan elimination with partial pivoting, where
    /// a pivot counts as zero once its magnitude is below the machine
    /// epsilon of `env`.
    pub fn try_inverse<E: Elementary<T>>(&self, env: &E) -> (r: Option<Self>)
        requires
            total::<T>(),
            2 * M <= usize::MAX,
        ensures
            M < 2 ==> r is None,
            exact::<T>() ==> exists|epsilon: T|
                is_epsilon(env, epsilon) && match inverse_of(
                    self.columns(),
                    M as nat,
                    epsilon,
                ) {
                    Some(columns) => r is Some && r->0.columns() == columns,
                    None => r is None,
                },
    {
        let epsilon = env.epsilon();
        assert(is_epsilon(env, epsilon));
        self.try_inverse_with(epsilon)
    }

    /// The inverse by Gauss-Jordan elimination with partial pivoting, where
    /// a pivot counts as zero once its magnitude is below `epsilon`. There
    /// is no result for a matrix smaller than 2×2 nor for one on which a
    /// pivot is found that small.
    pub fn try_inverse_with(&self, epsilon: T) -> (r: Option<Self>)
        requires
            total::<T>(),
            2 * M <= usize::MAX,
        ensures
            M < 2 ==> r is None,
            exact::<T>() ==> match inverse_of(self.columns(), M as nat, epsilon) {
                Some(columns) => r is Some && r->0.columns() == columns,
                None => r is None,
            },
    {
        if M < 2 {
            return None;
        }
        let width = 2 * M;
        let mut ext = augment(self);
        let ghost start = grid(ext);
        for d in 0..M
            invariant
                total::<T>(),
                width == 2 * M,
                M >= 2,
                rect(grid(ext), M as nat, width as nat),
                exact::<T>() ==> start == augmented(self.columns(), M as nat),
                exact::<T>() ==> reduce(start, d as nat, epsilon) == Some(grid(ext)),
        {
            let ghost before = grid(ext);
            let pivot = find_pivot(&ext, d, M, width);
            swap_rows(&mut ext, pivot, d, M, width);
            assert(grid(ext)[d as int].len() == width);
            let factor = ext[d][d];
            if less(abs(factor), epsilon) {
                proof {
                    if exact::<T>() {
                        assert(step(before, d as nat, epsilon) is None);
                        assert(reduce(start, (d + 1) as nat, epsilon) is None);
                        reduce_stays_none(start, (d + 1) as nat, M as nat, epsilon);
                    }
                }
                return None;
            }
            scale_row(&mut ext, d, factor, M, width);
            eliminate(&mut ext, d, M, width);
            proof {
                if exact::<T>() {
                    assert(step(before, d as nat, epsilon) == Some(grid(ext)));
                }
            }
        }
        let mut inverse = Self::zeros();
        for n in 0..M
            invariant
                width == 2 * M,
                rect(grid(ext), M as nat, width as nat),
                forall|i: int, j: int|
                    0 <= i < M && 0 <= j < n ==> inverse.at(i, j) == grid(ext)[i][j + M],
        {
            for m in 0..M
                invariant
                    n < M,
                    width == 2 * M,
                    rect(grid(ext), M as nat, width as nat),
                    forall|i: int, j: int|
                        0 <= i < M && 0 <= j < n ==> inverse.at(i, j) == grid(ext)[i][j + M],
                    forall|i: int| 0 <= i < m ==> inverse.at(i, n as int) == grid(ext)[i][n + M],
            {
                assert(grid(ext)[m as int].len() == width);
                inverse.set(m, n, ext[m][n + M]);
            }
        }
        proof {
            if exact::<T>() {
                inverse.shape();
                let done = grid(ext);
                let columns = Seq::new(
                    M as nat,
                    |n: int| Seq::new(M as nat, |m: int| done[m][n + M]),
                );
                assert(inverse.columns() =~~= columns) by {
                    assert forall|j: int| 0 <= j < M implies #[trigger] inverse.columns()[j]
                        =~= columns[j] by {
                        assert forall|i: int| 0 <= i < M implies inverse.columns()[j][i]
                            == columns[j][i] by {
                            assert(inverse.at(i, j) == done[i][j + M]);
                        }
                    }
                }
            }
        }
        Some(inverse)
    }
}

} // verus!
