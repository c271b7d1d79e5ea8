//! Square scalar fields: one sample per cell of an `n` by `n` grid.
use vstd::prelude::*;

verus! {

/// Why a set of arrays does not form a grid field, or does not fit the grid
/// of another field.
#[derive(Clone, Copy, Debug, PartialEq, Eq, Structural)]
pub enum ShapeError {
    /// No rows at all: a grid has at least one cell.
    EmptyGrid,
    /// Row `row` holds `len` samples where the grid has as many columns as rows.
    RaggedRow { row: usize, len: usize },
    /// A field of size `found` was combined with fields of size `expected`.
    SizeMismatch { expected: usize, found: usize },
}

/// The rows of a vector of vectors, as sequences.
pub open spec fn rows_view<T>(rows: Seq<Vec<T>>) -> Seq<Seq<T>> {
    rows.map_values(|row: Vec<T>| row@)
}

/// A non-empty grid whose every row has as many samples as there are rows.
pub open spec fn is_square<T>(m: Seq<Seq<T>>) -> bool {
    &&& m.len() > 0
    &&& forall|r: int| 0 <= r < m.len() ==> #[trigger] m[r].len() == m.len()
}

/// Every cell of the grid holds `v`.
pub open spec fn is_constant<T>(m: Seq<Seq<T>>, v: T) -> bool {
    forall|r: int, c: int| 0 <= r < m.len() && 0 <= c < m[r].len() ==> #[trigger] m[r][c] == v
}

/// A field over an `n` by `n` grid, stored row by row (`self@[row][col]`).
pub struct Field<T> {
    rows: Vec<Vec<T>>,
}

impl<T> View for Field<T> {
    type V = Seq<Seq<T>>;

    closed spec fn view(&self) -> Seq<Seq<T>> {
        rows_view(self.rows@)
    }
}

impl<T: Copy> Field<T> {
    /// The field is square and non-empty.
    pub open spec fn wf(&self) -> bool {
        is_square(self@)
    }

    /// Builds a field from its rows; fails on an empty or non-square set of rows,
    /// naming the first row whose length differs from the number of rows.
    pub fn from_rows(rows: Vec<Vec<T>>) -> (r: Result<Field<T>, ShapeError>)
        ensures
            r is Ok <==> is_square(rows_view(rows@)),
            r matches Ok(f) ==> f@ == rows_view(rows@) && f.wf(),
            r matches Err(ShapeError::EmptyGrid) ==> rows@.len() == 0,
            r matches Err(ShapeError::RaggedRow { row, len }) ==> {
                &&& row < rows@.len()
                &&& len == rows@[row as int]@.len()
                &&& len != rows@.len()
                &&& forall|k: int| 0 <= k < row ==> #[trigger] rows@[k]@.len() == rows@.len()
            },
            !(r matches Err(ShapeError::SizeMismatch { .. })),
    {
        let n = rows.len();
        if n == 0 {
            return Err(ShapeError::EmptyGrid);
        }
        let mut i: usize = 0;
        while i < n
            invariant
                n == rows@.len(),
                i <= n,
                forall|k: int| 0 <= k < i ==> #[trigger] rows@[k]@.len() == n,
            decreases n - i,
        {
            let len = rows[i].len();
            if len != n {
                assert(rows_view(rows@)[i as int] == rows@[i as int]@);
                return Err(ShapeError::RaggedRow { row: i, len });
            }
            i = i + 1;
        }
        Ok(Field { rows })
    }

    /// Wraps rows already known to form a square grid.
    pub(crate) fn from_square_rows(rows: Vec<Vec<T>>) -> (r: Field<T>)
        requires
            is_square(rows_view(rows@)),
        ensures
            r@ == rows_view(rows@),
            r.wf(),
    {
        Field { rows }
    }

    /// The field of size `n` that holds `value` in every cell.
    pub fn filled(n: usize, value: T) -> (r: Field<T>)
        requires
            n > 0,
        ensures
            r.wf(),
            r@.len() == n,
            is_constant(r@, value),
    {
        let mut rows: Vec<Vec<T>> = Vec::new();
        let mut i: usize = 0;
        while i < n
            invariant
                i <= n,
                rows@.len() == i,
                forall|k: int| 0 <= k < i ==> #[trigger] rows@[k]@.len() == n,
                forall|k: int, c: int| 0 <= k < i && 0 <= c < n ==> #[trigger] rows@[k]@[c] == value,
            decreases n - i,
        {
            let mut row: Vec<T> = Vec::new();
            let mut j: usize = 0;
            while j < n
                invariant
                    j <= n,
                    row@.len() == j,
                    forall|c: int| 0 <= c < j ==> #[trigger] row@[c] == value,
                decreases n - j,
            {
                row.push(value);
                j = j + 1;
            }
            rows.push(row);
            i = i + 1;
        }
        Field { rows }
    }

    /// The number of rows, which is also the number of columns.
    pub fn size(&self) -> (r: usize)
        ensures
            r == self@.len(),
    {
        self.rows.len()
    }

    /// The sample at `row`, `col`.
    pub fn get(&self, row: usize, col: usize) -> (r: T)
        requires
            self.wf(),
            row < self@.len(),
            col < self@.len(),
        ensures
            r == self@[row as int][col as int],
    {
        assert(self.rows@[row as int]@ == self@[row as int]);
        self.rows[row][col]
    }

    /// Gives the rows back, in order.
    pub fn into_rows(self) -> (r: Vec<Vec<T>>)
        ensures
            rows_view(r@) == self@,
    {
        self.rows
    }

    /// Fails unless the field has `expected` rows.
    pub fn check_size(&self, expected: usize) -> (r: Result<(), ShapeError>)
        ensures
            r is Ok <==> self@.len() == expected,
            r matches Err(e) ==> e == (ShapeError::SizeMismatch { expected, found: self@.len() as usize }),
    {
        let found = self.rows.len();
        if found == expected {
            Ok(())
        } else {
            Err(ShapeError::SizeMismatch { expected, found })
        }
    }
}

} // verus!
