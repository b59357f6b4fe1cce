//! The field buffer: one single-precision value per cell of a square grid.

use vstd::prelude::*;

verus! {

/// A square grid of field values in row-major order, each held as the word
/// of its binary32 encoding. Its length is fixed when it is made.
#[derive(Debug, PartialEq, Eq)]
pub struct FieldBuffer {
    dim: u32,
    cells: Vec<u32>,
}

/// Number of cells of a square grid with `dim` cells along each side.
pub open spec fn cells_in(dim: u32) -> nat {
    (dim * dim) as nat
}

/// `dim` squared, computed without overflow.
pub fn cell_count(dim: u32) -> (count: u64)
    ensures
        count == cells_in(dim),
{
    assert(dim * dim <= 0xFFFF_FFFE_0000_0001) by (nonlinear_arith)
        requires
            0 <= dim <= 0xFFFF_FFFF,
    ;
    (dim as u64) * (dim as u64)
}

impl FieldBuffer {
    /// The cells in row-major order.
    pub closed spec fn view(&self) -> Seq<u32> {
        self.cells@
    }

    /// Number of cells along each side.
    pub closed spec fn spec_dim(&self) -> u32 {
        self.dim
    }

    /// There is exactly one cell for each position of the grid.
    pub open spec fn wf(&self) -> bool {
        self@.len() == cells_in(self.spec_dim())
    }

    /// A grid with every cell set to `fill`, unless the host cannot address
    /// that many cells.
    pub fn new(dim: u32, fill: u32) -> (made: Option<FieldBuffer>)
        ensures
            made is Some <==> cells_in(dim) <= usize::MAX,
            made matches Some(field) ==> field.wf() && field.spec_dim() == dim && field@
                == Seq::new(cells_in(dim), |i: int| fill),
    {
        let count = cell_count(dim);
        if count > usize::MAX as u64 {
            return None;
        }
        let cells = vec![fill; count as usize];
        assert(cells@ =~= Seq::new(cells_in(dim), |i: int| fill));
        Some(FieldBuffer { dim, cells })
    }

    /// A grid over the given cells, unless their number is not `dim` squared.
    pub fn from_cells(dim: u32, cells: Vec<u32>) -> (made: Option<FieldBuffer>)
        ensures
            made is Some <==> cells@.len() == cells_in(dim),
            made matches Some(field) ==> field.wf() && field.spec_dim() == dim && field@ == cells@,
    {
        let count = cell_count(dim);
        if cells.len() as u64 == count {
            Some(FieldBuffer { dim, cells })
        } else {
            None
        }
    }

    #[verifier::when_used_as_spec(spec_dim)]
    pub fn dim(&self) -> (dim: u32)
        ensures
            dim == self.spec_dim(),
    {
        self.dim
    }

    /// Number of cells.
    pub fn len(&self) -> (len: usize)
        ensures
            len == self@.len(),
    {
        self.cells.len()
    }

    /// The cells in row-major order.
    pub fn cells(&self) -> (cells: &Vec<u32>)
        ensures
            cells@ == self@,
    {
        &self.cells
    }

    /// Replaces every cell at once. The grid keeps its shape: cells of
    /// another number are refused and the grid is left as it was.
    pub fn overwrite(&mut self, cells: Vec<u32>) -> (done: bool)
        requires
            old(self).wf(),
        ensures
            final(self).wf(),
            final(self).spec_dim() == old(self).spec_dim(),
            done <==> cells@.len() == old(self)@.len(),
            done ==> final(self)@ == cells@,
            !done ==> final(self)@ == old(self)@,
    {
        if cells.len() == self.cells.len() {
            self.cells = cells;
            true
        } else {
            false
        }
    }
}

} // verus!
