//! The fifth-order upwind-biased face reconstruction stencil.
//!
//! The face value at cell `k` is `(2 f[k-2] - 13 f[k-1] + 47 f[k] + 27 f[k+1] - 3 f[k+2]) / 60`
//! for the plus face (`k + 1/2`), and the mirror image for the minus face
//! (`k - 1/2`). Each sample is fetched through the periodic indexer. This
//! module gathers the five samples of every cell in weight order; the caller
//! combines them with the weights below in its own arithmetic.
use crate::field::{is_constant, is_square, rows_view, Field};
use crate::periodic::{index_periodic, wrap};
use vstd::prelude::*;

verus! {

/// Weight of the sample two cells upwind of the face.
pub const WEIGHT_FAR_UPWIND: i64 = 2;

/// Weight of the sample one cell upwind of the face.
pub const WEIGHT_UPWIND: i64 = -13;

/// Weight of the sample of the cell itself.
pub const WEIGHT_CENTER: i64 = 47;

/// Weight of the sample one cell downwind of the face.
pub const WEIGHT_DOWNWIND: i64 = 27;

/// Weight of the sample two cells downwind of the face.
pub const WEIGHT_FAR_DOWNWIND: i64 = -3;

/// The weighted sum of the five samples is divided by this.
pub const WEIGHT_DENOMINATOR: i64 = 60;

/// The direction along which the stencil runs.
#[derive(Clone, Copy, Debug, PartialEq, Eq, Structural)]
pub enum Axis {
    /// Along a row: the column index moves, the row index stays.
    X,
    /// Along a column: the row index moves, the column index stays.
    Y,
}

/// The face of the cell at which the value is reconstructed.
#[derive(Clone, Copy, Debug, PartialEq, Eq, Structural)]
pub enum Face {
    /// The face at `k + 1/2`.
    Plus,
    /// The face at `k - 1/2`.
    Minus,
}

/// The five samples of one stencil, in the order of their weights.
#[derive(Clone, Copy, Debug, PartialEq)]
pub struct Taps<T> {
    pub far_upwind: T,
    pub upwind: T,
    pub center: T,
    pub downwind: T,
    pub far_downwind: T,
}

/// Offset from the cell of the `j`-th sample in weight order (`j` in `0..5`).
pub open spec fn face_offset(face: Face, j: int) -> int {
    match face {
        Face::Plus => j - 2,
        Face::Minus => 2 - j,
    }
}

/// The sample `d` cells away from `row`, `col` along `axis`, wrapped periodically.
pub open spec fn sample<T>(m: Seq<Seq<T>>, row: int, col: int, axis: Axis, d: int) -> T {
    let n = m.len() as int;
    match axis {
        Axis::X => m[row][wrap(col + d, n)],
        Axis::Y => m[wrap(row + d, n)][col],
    }
}

/// The stencil samples of cell `row`, `col` for the given axis and face.
pub open spec fn taps_at<T>(m: Seq<Seq<T>>, row: int, col: int, axis: Axis, face: Face) -> Taps<T> {
    Taps {
        far_upwind: sample(m, row, col, axis, face_offset(face, 0)),
        upwind: sample(m, row, col, axis, face_offset(face, 1)),
        center: sample(m, row, col, axis, face_offset(face, 2)),
        downwind: sample(m, row, col, axis, face_offset(face, 3)),
        far_downwind: sample(m, row, col, axis, face_offset(face, 4)),
    }
}

/// The stencil samples of every cell of the grid.
pub open spec fn gather<T>(m: Seq<Seq<T>>, axis: Axis, face: Face) -> Seq<Seq<Taps<T>>> {
    Seq::new(m.len(), |r: int| Seq::new(m.len(), |c: int| taps_at(m, r, c, axis, face)))
}

/// Five equal samples.
pub open spec fn uniform_taps<T>(v: T) -> Taps<T> {
    Taps { far_upwind: v, upwind: v, center: v, downwind: v, far_downwind: v }
}

/// The weighted sum of five samples, before division by the denominator.
pub open spec fn weighted_sum(t: Taps<int>) -> int {
    WEIGHT_FAR_UPWIND * t.far_upwind + WEIGHT_UPWIND * t.upwind + WEIGHT_CENTER * t.center
        + WEIGHT_DOWNWIND * t.downwind + WEIGHT_FAR_DOWNWIND * t.far_downwind
}

/// The grid with the order of the columns of every row reversed.
pub open spec fn reverse_cols<T>(m: Seq<Seq<T>>) -> Seq<Seq<T>> {
    Seq::new(m.len(), |r: int| Seq::new(m[r].len(), |c: int| m[r][m[r].len() - 1 - c]))
}

/// The grid with the order of its rows reversed.
pub open spec fn reverse_rows<T>(m: Seq<Seq<T>>) -> Seq<Seq<T>> {
    Seq::new(m.len(), |r: int| m[m.len() - 1 - r])
}

/// The sample `d` cells away from `row`, `col` along `axis`.
fn sample_at<T: Copy>(f: &Field<T>, row: usize, col: usize, axis: Axis, d: isize) -> (r: T)
    requires
        f.wf(),
        2 <= f@.len() < isize::MAX,
        row < f@.len(),
        col < f@.len(),
        -2 <= d <= 2,
    ensures
        r == sample(f@, row as int, col as int, axis, d as int),
{
    let n = f.size() as isize;
    match axis {
        Axis::X => f.get(row, index_periodic(col as isize + d, n)),
        Axis::Y => f.get(index_periodic(row as isize + d, n), col),
    }
}

/// The five stencil samples of cell `row`, `col`, in weight order.
pub fn stencil_taps<T: Copy>(f: &Field<T>, row: usize, col: usize, axis: Axis, face: Face) -> (r: Taps<T>)
    requires
        f.wf(),
        2 <= f@.len() < isize::MAX,
        row < f@.len(),
        col < f@.len(),
    ensures
        r == taps_at(f@, row as int, col as int, axis, face),
{
    let s: isize = match face {
        Face::Plus => 1,
        Face::Minus => -1,
    };
    Taps {
        far_upwind: sample_at(f, row, col, axis, -2 * s),
        upwind: sample_at(f, row, col, axis, -s),
        center: sample_at(f, row, col, axis, 0),
        downwind: sample_at(f, row, col, axis, s),
        far_downwind: sample_at(f, row, col, axis, 2 * s),
    }
}

/// The stencil samples of every cell, as a field of the same size.
pub fn gather_stencil<T: Copy>(f: &Field<T>, axis: Axis, face: Face) -> (r: Field<Taps<T>>)
    requires
        f.wf(),
        2 <= f@.len() < isize::MAX,
    ensures
        r.wf(),
        r@ == gather(f@, axis, face),
{
    let n = f.size();
    let mut rows: Vec<Vec<Taps<T>>> = Vec::new();
    let mut row: usize = 0;
    while row < n
        invariant
            f.wf(),
            n == f@.len(),
            2 <= n < isize::MAX,
            row <= n,
            rows@.len() == row,
            forall|k: int| 0 <= k < row ==> #[trigger] rows@[k]@ == gather(f@, axis, face)[k],
        decreases n - row,
    {
        let mut line: Vec<Taps<T>> = Vec::new();
        let mut col: usize = 0;
        while col < n
            invariant
                f.wf(),
                n == f@.len(),
                2 <= n < isize::MAX,
                row < n,
                col <= n,
                line@.len() == col,
                forall|c: int| 0 <= c < col ==> #[trigger] line@[c] == taps_at(f@, row as int, c, axis, face),
            decreases n - col,
        {
            line.push(stencil_taps(f, row, col, axis, face));
            col = col + 1;
        }
        assert(line@ =~= gather(f@, axis, face)[row as int]);
        rows.push(line);
        row = row + 1;
    }
    assert(rows_view(rows@) =~= gather(f@, axis, face));
    Field::from_square_rows(rows)
}

/// Weights of the stencil sum to its denominator, so on a constant field every
/// stencil gathers five copies of the constant and reconstructs that constant.
pub proof fn lemma_constant_field_reconstructs_constant<T>(m: Seq<Seq<T>>, v: T, axis: Axis, face: Face)
    requires
        is_square(m),
        m.len() >= 2,
        is_constant(m, v),
    ensures
        forall|r: int, c: int|
            0 <= r < m.len() && 0 <= c < m.len() ==> #[trigger] gather(m, axis, face)[r][c] == uniform_taps(v),
        forall|x: int| #[trigger] weighted_sum(uniform_taps(x)) == WEIGHT_DENOMINATOR * x,
{
    let n = m.len() as int;
    assert forall|r: int, c: int| 0 <= r < n && 0 <= c < n implies #[trigger] gather(m, axis, face)[r][c]
        == uniform_taps(v) by {
        assert forall|j: int| 0 <= j < 5 implies #[trigger] sample(m, r, c, axis, face_offset(face, j)) == v by {
            let d = face_offset(face, j);
            assert(m[wrap(r + d, n)].len() == n);
        }
        assert(sample(m, r, c, axis, face_offset(face, 0)) == v);
        assert(sample(m, r, c, axis, face_offset(face, 1)) == v);
        assert(sample(m, r, c, axis, face_offset(face, 2)) == v);
        assert(sample(m, r, c, axis, face_offset(face, 3)) == v);
        assert(sample(m, r, c, axis, face_offset(face, 4)) == v);
    }
}

/// The minus-face stencil along X is the mirror image of the plus-face stencil:
/// gathering minus faces equals reversing the columns, gathering plus faces, and
/// reversing the columns back.
pub proof fn lemma_minus_x_mirrors_plus_x<T>(m: Seq<Seq<T>>)
    requires
        is_square(m),
        m.len() >= 2,
    ensures
        gather(m, Axis::X, Face::Minus) == reverse_cols(gather(reverse_cols(m), Axis::X, Face::Plus)),
{
    let n = m.len() as int;
    let rm = reverse_cols(m);
    let lhs = gather(m, Axis::X, Face::Minus);
    let rhs = reverse_cols(gather(rm, Axis::X, Face::Plus));
    assert forall|r: int| 0 <= r < n implies #[trigger] lhs[r] == rhs[r] by {
        assert forall|c: int| 0 <= c < n implies #[trigger] lhs[r][c] == rhs[r][c] by {
            assert forall|j: int| 0 <= j < 5 implies #[trigger] sample(m, r, c, Axis::X, face_offset(Face::Minus, j))
                == sample(rm, r, n - 1 - c, Axis::X, face_offset(Face::Plus, j)) by {
                assert(m[r].len() == n);
            }
            assert(sample(m, r, c, Axis::X, face_offset(Face::Minus, 0)) == sample(rm, r, n - 1 - c, Axis::X, face_offset(Face::Plus, 0)));
            assert(sample(m, r, c, Axis::X, face_offset(Face::Minus, 1)) == sample(rm, r, n - 1 - c, Axis::X, face_offset(Face::Plus, 1)));
            assert(sample(m, r, c, Axis::X, face_offset(Face::Minus, 2)) == sample(rm, r, n - 1 - c, Axis::X, face_offset(Face::Plus, 2)));
            assert(sample(m, r, c, Axis::X, face_offset(Face::Minus, 3)) == sample(rm, r, n - 1 - c, Axis::X, face_offset(Face::Plus, 3)));
            assert(sample(m, r, c, Axis::X, face_offset(Face::Minus, 4)) == sample(rm, r, n - 1 - c, Axis::X, face_offset(Face::Plus, 4)));
        }
        assert(lhs[r] =~= rhs[r]);
    }
    assert(lhs =~= rhs);
}

/// The minus-face stencil along Y is the mirror image of the plus-face stencil:
/// gathering minus faces equals reversing the rows, gathering plus faces, and
/// reversing the rows back.
pub proof fn lemma_minus_y_mirrors_plus_y<T>(m: Seq<Seq<T>>)
    requires
        is_square(m),
        m.len() >= 2,
    ensures
        gather(m, Axis::Y, Face::Minus) == reverse_rows(gather(reverse_rows(m), Axis::Y, Face::Plus)),
{
    let n = m.len() as int;
    let rm = reverse_rows(m);
    let lhs = gather(m, Axis::Y, Face::Minus);
    let rhs = reverse_rows(gather(rm, Axis::Y, Face::Plus));
    assert forall|r: int| 0 <= r < n implies #[trigger] lhs[r] == rhs[r] by {
        assert forall|c: int| 0 <= c < n implies #[trigger] lhs[r][c] == rhs[r][c] by {
            assert forall|j: int| 0 <= j < 5 implies #[trigger] sample(m, r, c, Axis::Y, face_offset(Face::Minus, j))
                == sample(rm, n - 1 - r, c, Axis::Y, face_offset(Face::Plus, j)) by {}
            assert(sample(m, r, c, Axis::Y, face_offset(Face::Minus, 0)) == sample(rm, n - 1 - r, c, Axis::Y, face_offset(Face::Plus, 0)));
            assert(sample(m, r, c, Axis::Y, face_offset(Face::Minus, 1)) == sample(rm, n - 1 - r, c, Axis::Y, face_offset(Face::Plus, 1)));
            assert(sample(m, r, c, Axis::Y, face_offset(Face::Minus, 2)) == sample(rm, n - 1 - r, c, Axis::Y, face_offset(Face::Plus, 2)));
            assert(sample(m, r, c, Axis::Y, face_offset(Face::Minus, 3)) == sample(rm, n - 1 - r, c, Axis::Y, face_offset(Face::Plus, 3)));
            assert(sample(m, r, c, Axis::Y, face_offset(Face::Minus, 4)) == sample(rm, n - 1 - r, c, Axis::Y, face_offset(Face::Plus, 4)));
        }
        assert(lhs[r] =~= rhs[r]);
    }
    assert(lhs =~= rhs);
}

} // verus!
