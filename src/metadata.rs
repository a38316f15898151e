//! The inline metadata block of a notebook: a `# /// <type>` ... `# ///`
//! comment block in the source of a code cell.

use vstd::prelude::*;
use crate::lines::{concat, join_lines};
use crate::notebook::{Cell, Notebook};
use crate::runtime::opt_view;

verus! {

/// An opening `# /// <type>` line with a type of letters, digits and `-`,
/// content lines that are a bare `#` or `# ` followed by text, and a closing
/// `# ///` line, matched line by line in multi-line mode.
pub const INLINE_METADATA_PATTERN: &'static str =
    r"(?m)^# /// (?P<type>[a-zA-Z0-9-]+)$\s(?P<content>(^#(| .*)$\s)+)^# ///$";

/// The text of the leftmost-first match of a regular expression in a
/// haystack; none when there is no match or the pattern does not compile.
pub uninterp spec fn regex_first_match(pattern: Seq<char>, haystack: Seq<char>) -> Option<Seq<char>>;

/// Relies on `regex::Regex::new` and `Regex::find`: the result depends on
/// the pattern and the haystack alone, and a match is a piece of the
/// haystack.
#[verifier::external_body]
fn first_match(pattern: &str, haystack: &str) -> (r: Option<String>)
    ensures
        opt_view(r) == regex_first_match(pattern@, haystack@),
        r matches Some(m) ==> exists|i: int|
            0 <= i && i + m@.len() <= haystack@.len() && #[trigger] haystack@.subrange(i, i + m@.len()) == m@,
{
    match regex::Regex::new(pattern) {
        Ok(re) => re.find(haystack).map(|m| m.as_str().to_string()),
        Err(_) => None,
    }
}

/// The metadata block of a cell: the first match in the joined source of a
/// code cell, and none for other cells.
pub open spec fn spec_cell_metadata(cell: Cell) -> Option<Seq<char>> {
    match cell {
        Cell::Code { .. } => regex_first_match(INLINE_METADATA_PATTERN@, concat(cell.spec_source())),
        _ => None,
    }
}

/// The metadata block of the first cell that has one.
pub open spec fn spec_first_metadata(cells: Seq<Cell>) -> Option<Seq<char>>
    decreases cells.len(),
{
    if cells.len() == 0 {
        None
    } else {
        match spec_cell_metadata(cells[0]) {
            Some(m) => Some(m),
            None => spec_first_metadata(cells.skip(1)),
        }
    }
}

/// The inline metadata block of one cell, if it is a code cell with one.
pub fn cell_metadata(cell: &Cell) -> (r: Option<String>)
    ensures
        opt_view(r) == spec_cell_metadata(*cell),
{
    match cell {
        Cell::Code { source, .. } => {
            let text = join_lines(source);
            first_match(INLINE_METADATA_PATTERN, text.as_str())
        },
        _ => None,
    }
}

impl Notebook {
    /// The first inline metadata block over the code cells, in cell order.
    pub fn inline_metadata(&self) -> (r: Option<String>)
        ensures
            opt_view(r) == spec_first_metadata(self.cells@),
    {
        let mut i: usize = 0;
        assert(self.cells@.skip(0) =~= self.cells@);
        while i < self.cells.len()
            invariant
                i <= self.cells@.len(),
                spec_first_metadata(self.cells@) == spec_first_metadata(self.cells@.skip(i as int)),
            decreases self.cells@.len() - i,
        {
            let found = cell_metadata(&self.cells[i]);
            assert(self.cells@.skip(i as int)[0] == self.cells@[i as int]);
            assert(self.cells@.skip(i as int).skip(1) =~= self.cells@.skip(i + 1));
            if found.is_some() {
                return found;
            }
            i = i + 1;
        }
        None
    }

    /// The position of the first code cell that holds an inline metadata
    /// block.
    pub fn metadata_cell_index(&self) -> (r: Option<usize>)
        ensures
            match r {
                Some(i) => i < self.cells@.len() && spec_cell_metadata(self.cells@[i as int]) is Some
                    && forall|j: int| 0 <= j < i ==> spec_cell_metadata(#[trigger] self.cells@[j]) is None,
                None => forall|j: int| 0 <= j < self.cells@.len() ==> spec_cell_metadata(#[trigger] self.cells@[j]) is None,
            },
    {
        let mut i: usize = 0;
        while i < self.cells.len()
            invariant
                i <= self.cells@.len(),
                forall|j: int| 0 <= j < i ==> spec_cell_metadata(#[trigger] self.cells@[j]) is None,
            decreases self.cells@.len() - i,
        {
            if cell_metadata(&self.cells[i]).is_some() {
                return Some(i);
            }
            i = i + 1;
        }
        None
    }
}

} // verus!
