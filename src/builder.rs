//! Building a fresh notebook out of code cells, and replacing the source of
//! a cell.

use vstd::prelude::*;
use crate::lines::{concat, join_lines, spec_lines, spec_trim, split_lines, trim};
use crate::metadata::spec_cell_metadata;
use crate::notebook::{Cell, Notebook};
use crate::text::{find, find_text, lemma_find_from, occurs_at, str_views};
use nbformat::v4::{CellId, CellMetadata, JupyterCellMetadata, Metadata};

verus! {

/// A lower-case hexadecimal digit.
pub open spec fn is_lower_hex(c: char) -> bool {
    let u = c as u32;
    (0x30 <= u <= 0x39) || (0x61 <= u <= 0x66)
}

/// The hyphenated form of a UUID: 36 characters, `-` at positions 8, 13,
/// 18 and 23 and lower-case hexadecimal digits elsewhere.
pub open spec fn is_hyphenated_uuid(s: Seq<char>) -> bool {
    &&& s.len() == 36
    &&& forall|i: int| 0 <= i < 36 ==> if i == 8 || i == 13 || i == 18 || i == 23 {
        #[trigger] s[i] == '-'
    } else {
        is_lower_hex(s[i])
    }
}

/// A character allowed in a cell identifier: an ASCII letter or digit, `-`
/// or `_`.
pub open spec fn is_cell_id_char(c: char) -> bool {
    let u = c as u32;
    (0x30 <= u <= 0x39) || (0x41 <= u <= 0x5a) || (0x61 <= u <= 0x7a) || u == 0x2d || u == 0x5f
}

/// A cell identifier: 1 to 64 allowed characters.
pub open spec fn is_valid_cell_id(s: Seq<char>) -> bool {
    0 < s.len() <= 64 && forall|i: int| 0 <= i < s.len() ==> is_cell_id_char(#[trigger] s[i])
}

/// Relies on `uuid::Uuid::new_v4` and its `Display`, which writes the
/// hyphenated lower-case form.
#[verifier::external_body]
fn random_uuid() -> (r: String)
    ensures
        is_hyphenated_uuid(r@),
{
    uuid::Uuid::new_v4().to_string()
}

/// Relies on `nbformat::v4::CellId::new`, which accepts a non-empty text of
/// at most 64 bytes made of ASCII letters, digits, `-` and `_`.
#[verifier::external_body]
fn new_cell_id(s: &str) -> (r: Result<CellId, &'static str>)
    ensures
        r is Ok <==> is_valid_cell_id(s@),
{
    CellId::new(s)
}

/// Relies on `nbformat::v4::CellMetadata`'s `Default` (every field absent)
/// with the `jupyter.source_hidden` flag set when one is given.
#[verifier::external_body]
fn code_cell_metadata(source_hidden: Option<bool>) -> (r: CellMetadata) {
    CellMetadata {
        jupyter: source_hidden.map(|h| JupyterCellMetadata {
            source_hidden: Some(h),
            outputs_hidden: None,
            additional: Default::default(),
        }),
        ..Default::default()
    }
}

/// Relies on `nbformat::v4::Metadata`'s `Default`: no kernel, language or
/// authors and no further keys.
#[verifier::external_body]
fn empty_metadata() -> (r: Metadata) {
    Metadata::default()
}

/// A code cell made from `text`: never run, no outputs, and the trimmed
/// text as its line-inclusive source.
pub open spec fn is_fresh_code_cell(cell: Cell, text: Seq<char>) -> bool {
    match cell {
        Cell::Code { execution_count, outputs, source, .. } => execution_count is None && outputs@.len() == 0
            && str_views(source@) == spec_lines(spec_trim(text)),
        _ => false,
    }
}

/// The identifier of a new cell: the first group of a random UUID.
fn fresh_cell_id() -> (r: CellId) {
    let uuid = random_uuid();
    let text = uuid.as_str();
    proof {
        reveal_strlit("-");
        lemma_find_from(text@, "-"@, 0);
        assert(occurs_at(text@, "-"@, 8)) by {
            assert(text@.subrange(8, 9) =~= "-"@);
        }
        assert(text@[8] == '-');
        if let Some(i) = find(text@, "-"@) {
            assert(text@.subrange(i, i + 1)[0] == text@[i]);
            assert(i == 8);
        }
    }
    let head = match find_text(text, "-") {
        Some(i) => text.substring_char(0, i),
        None => text,
    };
    assert(head@ =~= text@.take(8));
    match new_cell_id(head) {
        Ok(id) => id,
        Err(_) => vstd::pervasive::unreached(),
    }
}

/// A new code cell holding `source`, trimmed and split into lines.
fn new_code_cell(source: &str, source_hidden: Option<bool>) -> (r: Cell)
    ensures
        is_fresh_code_cell(r, source@),
{
    Cell::Code {
        id: fresh_cell_id(),
        metadata: code_cell_metadata(source_hidden),
        execution_count: None,
        source: split_lines(trim(source)),
        outputs: Vec::new(),
    }
}

/// Builds a notebook in schema 4.4 by appending code cells.
pub struct NotebookBuilder {
    nb: Notebook,
}

impl NotebookBuilder {
    pub closed spec fn spec_notebook(&self) -> Notebook {
        self.nb
    }

    /// An empty notebook with empty metadata.
    pub fn new() -> (r: NotebookBuilder)
        ensures
            r.spec_notebook().cells@.len() == 0,
            r.spec_notebook().nbformat == 4,
            r.spec_notebook().nbformat_minor == 4,
    {
        NotebookBuilder {
            nb: Notebook { metadata: empty_metadata(), nbformat: 4, nbformat_minor: 4, cells: Vec::new() },
        }
    }

    fn push_code_cell(self, source: &str, source_hidden: Option<bool>) -> (r: NotebookBuilder)
        ensures
            r.spec_notebook().metadata == self.spec_notebook().metadata,
            r.spec_notebook().nbformat == self.spec_notebook().nbformat,
            r.spec_notebook().nbformat_minor == self.spec_notebook().nbformat_minor,
            r.spec_notebook().cells@.len() == self.spec_notebook().cells@.len() + 1,
            r.spec_notebook().cells@.drop_last() == self.spec_notebook().cells@,
            is_fresh_code_cell(r.spec_notebook().cells@.last(), source@),
    {
        let mut nb = self.nb;
        let cell = new_code_cell(source, source_hidden);
        nb.cells.push(cell);
        proof {
            assert(nb.cells@.drop_last() =~= self.nb.cells@);
        }
        NotebookBuilder { nb }
    }

    /// Appends a code cell whose source is marked hidden.
    pub fn hidden_code_cell(self, source: &str) -> (r: NotebookBuilder)
        ensures
            r.spec_notebook().metadata == self.spec_notebook().metadata,
            r.spec_notebook().nbformat == self.spec_notebook().nbformat,
            r.spec_notebook().nbformat_minor == self.spec_notebook().nbformat_minor,
            r.spec_notebook().cells@.len() == self.spec_notebook().cells@.len() + 1,
            r.spec_notebook().cells@.drop_last() == self.spec_notebook().cells@,
            is_fresh_code_cell(r.spec_notebook().cells@.last(), source@),
    {
        self.push_code_cell(source, Some(true))
    }

    /// Appends a code cell.
    pub fn code_cell(self, source: &str) -> (r: NotebookBuilder)
        ensures
            r.spec_notebook().metadata == self.spec_notebook().metadata,
            r.spec_notebook().nbformat == self.spec_notebook().nbformat,
            r.spec_notebook().nbformat_minor == self.spec_notebook().nbformat_minor,
            r.spec_notebook().cells@.len() == self.spec_notebook().cells@.len() + 1,
            r.spec_notebook().cells@.drop_last() == self.spec_notebook().cells@,
            is_fresh_code_cell(r.spec_notebook().cells@.last(), source@),
    {
        self.push_code_cell(source, None)
    }

    /// The notebook built so far.
    pub fn build(self) -> (r: Notebook)
        ensures
            r == self.spec_notebook(),
    {
        self.nb
    }
}

/// `after` is `before` with its source lines replaced by `lines`, all else
/// unchanged.
pub open spec fn source_replaced(before: Cell, after: Cell, lines: Seq<Seq<char>>) -> bool {
    &&& after.spec_source() == lines
    &&& match (before, after) {
        (
            Cell::Code { id: i1, metadata: m1, execution_count: e1, outputs: o1, .. },
            Cell::Code { id: i2, metadata: m2, execution_count: e2, outputs: o2, .. },
        ) => i1 == i2 && m1 == m2 && e1 == e2 && o1 == o2,
        (
            Cell::Markdown { id: i1, metadata: m1, attachments: a1, .. },
            Cell::Markdown { id: i2, metadata: m2, attachments: a2, .. },
        ) => i1 == i2 && m1 == m2 && a1 == a2,
        (Cell::Raw { id: i1, metadata: m1, .. }, Cell::Raw { id: i2, metadata: m2, .. }) => i1 == i2 && m1 == m2,
        _ => false,
    }
}

impl Notebook {
    /// Replaces the source of the cell at `index` with `text`, trimmed and
    /// split into line-inclusive segments.
    pub fn set_cell_source(&mut self, index: usize, text: &str)
        requires
            index < old(self).cells@.len(),
        ensures
            final(self).metadata == old(self).metadata,
            final(self).nbformat == old(self).nbformat,
            final(self).nbformat_minor == old(self).nbformat_minor,
            final(self).cells@.len() == old(self).cells@.len(),
            forall|j: int| 0 <= j < old(self).cells@.len() && j != index ==> final(self).cells@[j] == old(self).cells@[j],
            source_replaced(old(self).cells@[index as int], final(self).cells@[index as int], spec_lines(spec_trim(text@))),
    {
        let lines = split_lines(trim(text));
        match &mut self.cells[index] {
            Cell::Code { source, .. } => {
                *source = lines;
            },
            Cell::Markdown { source, .. } => {
                *source = lines;
            },
            Cell::Raw { source, .. } => {
                *source = lines;
            },
        }
    }

    /// The first code cell with an inline metadata block, and its source
    /// joined and trimmed: the script that a dependency tool is given.
    pub fn metadata_script(&self) -> (r: Option<(usize, String)>)
        ensures
            match r {
                Some((i, s)) => i < self.cells@.len() && spec_cell_metadata(self.cells@[i as int]) is Some
                    && (forall|j: int| 0 <= j < i ==> spec_cell_metadata(#[trigger] self.cells@[j]) is None)
                    && s@ == spec_trim(concat(self.cells@[i as int].spec_source())),
                None => forall|j: int| 0 <= j < self.cells@.len() ==> spec_cell_metadata(#[trigger] self.cells@[j]) is None,
            },
    {
        match self.metadata_cell_index() {
            Some(i) => {
                let text = join_lines(self.cells[i].source());
                Some((i, String::from_str(trim(text.as_str()))))
            },
            None => None,
        }
    }
}

} // verus!
