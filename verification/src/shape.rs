//! Dimensions of dense two-dimensional arrays, and what the matrix
//! operations of a training step do to them.

use vstd::prelude::*;

verus! {

/// Rows and columns of a dense two-dimensional array.
#[derive(Clone, Copy, Debug, PartialEq, Eq, Structural)]
pub struct Shape {
    pub rows: usize,
    pub cols: usize,
}

impl Shape {
    /// The shape of a column vector with `rows` entries.
    pub open spec fn column(rows: usize) -> Shape {
        Shape { rows, cols: 1 }
    }

    /// The axis lengths in order, rows first.
    pub open spec fn spec_dims(self) -> Seq<usize> {
        seq![self.rows, self.cols]
    }

    /// A product `self · rhs` exists when the inner dimensions agree.
    pub open spec fn conforms(self, rhs: Shape) -> bool {
        self.cols == rhs.rows
    }

    /// Shape of the product `self · rhs`.
    pub open spec fn spec_dot(self, rhs: Shape) -> Shape {
        Shape { rows: self.rows, cols: rhs.cols }
    }

    /// Shape of the transpose.
    pub open spec fn spec_reversed_axes(self) -> Shape {
        Shape { rows: self.cols, cols: self.rows }
    }

    /// The shape of a matrix of `rows` rows and `cols` columns.
    pub fn new(rows: usize, cols: usize) -> (s: Shape)
        ensures
            s == (Shape { rows, cols }),
    {
        Shape { rows, cols }
    }

    /// The axis lengths as a list, rows first.
    pub fn dims(&self) -> (d: Vec<usize>)
        ensures
            d@ == self.spec_dims(),
    {
        let mut d: Vec<usize> = Vec::new();
        d.push(self.rows);
        d.push(self.cols);
        d
    }

    /// Shape of the matrix product `self · rhs`.
    pub fn dot(&self, rhs: &Shape) -> (s: Shape)
        requires
            self.conforms(*rhs),
        ensures
            s == self.spec_dot(*rhs),
    {
        Shape { rows: self.rows, cols: rhs.cols }
    }

    /// Shape of the transpose.
    pub fn reversed_axes(&self) -> (s: Shape)
        ensures
            s == self.spec_reversed_axes(),
    {
        Shape { rows: self.cols, cols: self.rows }
    }

    /// Shape of an entry-by-entry sum, difference or product of two
    /// matrices, which must have the same dimensions.
    pub fn elementwise(&self, rhs: &Shape) -> (s: Shape)
        requires
            *self == *rhs,
        ensures
            s == *self,
    {
        Shape { rows: self.rows, cols: rhs.cols }
    }
}

/// Reads a list of two axis lengths as a pair, rows first.
pub fn to_tuple(inp: &[usize]) -> (r: (usize, usize))
    requires
        inp@.len() == 2,
    ensures
        r == (inp@[0], inp@[1]),
{
    (inp[0], inp[1])
}

/// The shapes of a collection of zero matrices, one for each matrix of `arr`
/// and with its dimensions.
pub(crate) fn zero_vec_like(arr: &[Shape]) -> (zeros: Vec<Shape>)
    ensures
        zeros@ == arr@,
{
    let mut zeros: Vec<Shape> = Vec::new();
    for i in 0..arr.len()
        invariant
            zeros@ == arr@.take(i as int),
    {
        let dims = arr[i].dims();
        let (rows, cols) = to_tuple(dims.as_slice());
        zeros.push(Shape { rows, cols });
    }
    zeros
}

/// Whether two collections hold the same shapes in the same order.
pub fn same_shapes(a: &[Shape], b: &[Shape]) -> (same: bool)
    ensures
        same == (a@ == b@),
{
    if a.len() != b.len() {
        return false;
    }
    let mut i: usize = 0;
    while i < a.len()
        invariant
            a@.len() == b@.len(),
            i <= a@.len(),
            a@.take(i as int) == b@.take(i as int),
        decreases a@.len() - i,
    {
        if a[i] != b[i] {
            return false;
        }
        i += 1;
    }
    assert(a@.take(a@.len() as int) =~= a@);
    assert(b@.take(b@.len() as int) =~= b@);
    true
}

} // verus!
