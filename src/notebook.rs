//! The notebook document: cells in order, each with its source lines, and
//! for code cells an execution counter and outputs.

use vstd::prelude::*;
use crate::text::str_views;
use nbformat::v4::{CellId, CellMetadata, Metadata, Output};

verus! {

#[verifier::external_type_specification]
#[verifier::external_body]
pub struct ExCellId(nbformat::v4::CellId);

#[verifier::external_type_specification]
#[verifier::external_body]
pub struct ExCellMetadata(nbformat::v4::CellMetadata);

#[verifier::external_type_specification]
#[verifier::external_body]
pub struct ExMetadata(nbformat::v4::Metadata);

#[verifier::external_type_specification]
#[verifier::external_body]
pub struct ExOutput(nbformat::v4::Output);

#[verifier::external_type_specification]
#[verifier::external_body]
pub struct ExValue(serde_json::Value);

/// The kinds of cell.
#[derive(Debug, Clone, Copy, PartialEq, Eq, Structural)]
pub enum CellKind {
    Code,
    Markdown,
    Raw,
}

/// One cell. Identifiers, metadata, attachments and outputs are carried
/// through unchanged; the source is a list of line-inclusive segments.
#[derive(Debug)]
pub enum Cell {
    Code {
        id: CellId,
        metadata: CellMetadata,
        execution_count: Option<i32>,
        source: Vec<String>,
        outputs: Vec<Output>,
    },
    Markdown {
        id: CellId,
        metadata: CellMetadata,
        source: Vec<String>,
        attachments: Option<serde_json::Value>,
    },
    Raw {
        id: CellId,
        metadata: CellMetadata,
        source: Vec<String>,
    },
}

/// A notebook in the current schema: format version, document metadata
/// (kept verbatim, unknown keys too) and the cells in order.
#[derive(Debug)]
pub struct Notebook {
    pub metadata: Metadata,
    pub nbformat: i32,
    pub nbformat_minor: i32,
    pub cells: Vec<Cell>,
}

impl Cell {
    pub open spec fn spec_kind(&self) -> CellKind {
        match self {
            Cell::Code { .. } => CellKind::Code,
            Cell::Markdown { .. } => CellKind::Markdown,
            Cell::Raw { .. } => CellKind::Raw,
        }
    }

    /// The source lines.
    pub open spec fn spec_source(&self) -> Seq<Seq<char>> {
        match self {
            Cell::Code { source, .. } => str_views(source@),
            Cell::Markdown { source, .. } => str_views(source@),
            Cell::Raw { source, .. } => str_views(source@),
        }
    }

    /// A code cell has no execution counter and no outputs; other cells
    /// always count as cleared.
    pub open spec fn spec_cleared(&self) -> bool {
        match self {
            Cell::Code { execution_count, outputs, .. } => execution_count is None && outputs@.len() == 0,
            _ => true,
        }
    }

    pub fn kind(&self) -> (r: CellKind)
        ensures
            r == self.spec_kind(),
    {
        match self {
            Cell::Code { .. } => CellKind::Code,
            Cell::Markdown { .. } => CellKind::Markdown,
            Cell::Raw { .. } => CellKind::Raw,
        }
    }

    pub fn source(&self) -> (r: &Vec<String>)
        ensures
            str_views(r@) == self.spec_source(),
    {
        match self {
            Cell::Code { source, .. } => source,
            Cell::Markdown { source, .. } => source,
            Cell::Raw { source, .. } => source,
        }
    }

    pub fn is_cleared(&self) -> (r: bool)
        ensures
            r == self.spec_cleared(),
    {
        match self {
            Cell::Code { execution_count, outputs, .. } => execution_count.is_none() && outputs.len() == 0,
            _ => true,
        }
    }
}

/// `after` is `before` with its execution counter and outputs cleared if it
/// is a code cell, and `before` itself otherwise.
pub open spec fn cell_cleared_from(before: Cell, after: Cell) -> bool {
    match (before, after) {
        (
            Cell::Code { id: i1, metadata: m1, source: s1, .. },
            Cell::Code { id: i2, metadata: m2, execution_count: e2, source: s2, outputs: o2 },
        ) => i1 == i2 && m1 == m2 && s1 == s2 && e2 is None && o2@.len() == 0,
        (Cell::Code { .. }, _) => false,
        _ => after == before,
    }
}

/// `after` is `before` with every code cell cleared, all else unchanged.
pub open spec fn notebook_cleared_from(before: Notebook, after: Notebook) -> bool {
    &&& after.metadata == before.metadata
    &&& after.nbformat == before.nbformat
    &&& after.nbformat_minor == before.nbformat_minor
    &&& after.cells@.len() == before.cells@.len()
    &&& forall|i: int| 0 <= i < before.cells@.len() ==> cell_cleared_from(before.cells@[i], #[trigger] after.cells@[i])
}

impl Notebook {
    /// Every code cell has no execution counter and no outputs.
    pub open spec fn spec_is_cleared(&self) -> bool {
        forall|i: int| 0 <= i < self.cells@.len() ==> (#[trigger] self.cells@[i]).spec_cleared()
    }

    /// Whether every code cell has no execution counter and no outputs.
    pub fn is_cleared(&self) -> (r: bool)
        ensures
            r == self.spec_is_cleared(),
    {
        let mut i: usize = 0;
        while i < self.cells.len()
            invariant
                i <= self.cells@.len(),
                forall|j: int| 0 <= j < i ==> (#[trigger] self.cells@[j]).spec_cleared(),
            decreases self.cells@.len() - i,
        {
            if !self.cells[i].is_cleared() {
                return false;
            }
            i = i + 1;
        }
        true
    }

    /// Drops the execution counter and the outputs of every code cell.
    pub fn clear_cells(&mut self)
        ensures
            notebook_cleared_from(*old(self), *final(self)),
            final(self).spec_is_cleared(),
    {
        let ghost orig = *self;
        let ghost before = self.cells@;
        let n = self.cells.len();
        let mut i: usize = 0;
        while i < n
            invariant
                n == before.len(),
                before == orig.cells@,
                self.metadata == orig.metadata,
                self.nbformat == orig.nbformat,
                self.nbformat_minor == orig.nbformat_minor,
                self.cells@.len() == n,
                i <= n,
                forall|j: int| 0 <= j < i ==> cell_cleared_from(before[j], #[trigger] self.cells@[j]),
                forall|j: int| i <= j < n ==> #[trigger] self.cells@[j] == before[j],
            decreases n - i,
        {
            match &mut self.cells[i] {
                Cell::Code { execution_count, outputs, .. } => {
                    *execution_count = None;
                    outputs.clear();
                },
                _ => {},
            }
            i = i + 1;
        }
        proof {
            assert forall|j: int| 0 <= j < n implies (#[trigger] self.cells@[j]).spec_cleared() by {
                assert(cell_cleared_from(before[j], self.cells@[j]));
            }
        }
    }
}

/// Clearing a notebook leaves it cleared.
pub proof fn lemma_cleared_after_clear(before: Notebook, after: Notebook)
    requires
        notebook_cleared_from(before, after),
    ensures
        after.spec_is_cleared(),
{
    assert forall|i: int| 0 <= i < after.cells@.len() implies (#[trigger] after.cells@[i]).spec_cleared() by {
        assert(cell_cleared_from(before.cells@[i], after.cells@[i]));
    }
}

/// Clearing is idempotent: clearing a cleared notebook again relates it to
/// the original exactly as clearing once did.
pub proof fn lemma_clear_idempotent(first: Notebook, once: Notebook, twice: Notebook)
    requires
        notebook_cleared_from(first, once),
        notebook_cleared_from(once, twice),
    ensures
        notebook_cleared_from(first, twice),
{
    assert forall|i: int| 0 <= i < first.cells@.len() implies cell_cleared_from(
        first.cells@[i],
        #[trigger] twice.cells@[i],
    ) by {
        assert(cell_cleared_from(first.cells@[i], once.cells@[i]));
        assert(cell_cleared_from(once.cells@[i], twice.cells@[i]));
    }
}

} // verus!
