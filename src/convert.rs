//! Text projections of a notebook: a flat script with `# %%` cell markers,
//! and Markdown with code cells in fenced blocks. Both are read-only views.

use vstd::prelude::*;
use crate::lines::concat;
use crate::notebook::{Cell, Notebook};

verus! {

/// What follows a block so that exactly one blank line comes before the
/// next one: a single newline after a block that ends in a newline, two
/// otherwise.
pub open spec fn separator_after(block: Seq<char>) -> Seq<char> {
    if block.len() > 0 && block.last() == '\n' {
        "\n"@
    } else {
        "\n\n"@
    }
}

/// The blocks separated by one blank line, with nothing added before the
/// first or after the last.
pub open spec fn join_blocks(blocks: Seq<Seq<char>>) -> Seq<char>
    decreases blocks.len(),
{
    if blocks.len() == 0 {
        Seq::empty()
    } else if blocks.len() == 1 {
        blocks[0]
    } else {
        join_blocks(blocks.drop_last()) + separator_after(blocks[blocks.len() - 2]) + blocks.last()
    }
}

/// The lines joined, each after a `# ` comment prefix.
pub open spec fn commented(lines: Seq<Seq<char>>) -> Seq<char>
    decreases lines.len(),
{
    if lines.len() == 0 {
        Seq::empty()
    } else {
        commented(lines.drop_last()) + "# "@ + lines.last()
    }
}

/// A cell in the script projection: a marker line, then the source, as is
/// for code and commented out otherwise.
pub open spec fn spec_cell_script(cell: Cell) -> Seq<char> {
    match cell {
        Cell::Code { .. } => "# %%\n"@ + concat(cell.spec_source()),
        Cell::Markdown { .. } => "# %% [markdown]\n"@ + commented(cell.spec_source()),
        Cell::Raw { .. } => "# %% [raw]\n"@ + commented(cell.spec_source()),
    }
}

/// A cell in the Markdown projection: code in a `python` fenced block,
/// Markdown as is, raw text in a plain fenced block.
pub open spec fn spec_cell_markdown(cell: Cell) -> Seq<char> {
    match cell {
        Cell::Code { .. } => "```python\n"@ + concat(cell.spec_source()) + "\n```"@,
        Cell::Markdown { .. } => concat(cell.spec_source()),
        Cell::Raw { .. } => "```\n"@ + concat(cell.spec_source()) + "\n```"@,
    }
}

/// The script projection of a list of cells.
pub open spec fn spec_script(cells: Seq<Cell>) -> Seq<char> {
    join_blocks(cells.map_values(|c: Cell| spec_cell_script(c)))
}

/// The Markdown projection of a list of cells.
pub open spec fn spec_markdown(cells: Seq<Cell>) -> Seq<char> {
    join_blocks(cells.map_values(|c: Cell| spec_cell_markdown(c)))
}

/// Appends the lines, each as is or after a `# ` prefix.
fn append_lines(out: &mut String, lines: &Vec<String>, comment: bool)
    ensures
        final(out)@ == old(out)@ + if comment {
            commented(crate::text::str_views(lines@))
        } else {
            concat(crate::text::str_views(lines@))
        },
{
    let ghost start = out@;
    let mut i: usize = 0;
    while i < lines.len()
        invariant
            i <= lines@.len(),
            out@ == start + if comment {
                commented(crate::text::str_views(lines@.take(i as int)))
            } else {
                concat(crate::text::str_views(lines@.take(i as int)))
            },
        decreases lines@.len() - i,
    {
        if comment {
            out.append("# ");
        }
        out.append(lines[i].as_str());
        proof {
            let next = crate::text::str_views(lines@.take(i + 1));
            assert(next.drop_last() =~= crate::text::str_views(lines@.take(i as int)));
            assert(next.last() == lines@[i as int]@);
        }
        i = i + 1;
    }
    proof {
        assert(lines@.take(i as int) =~= lines@);
    }
}

fn append_cell_script(out: &mut String, cell: &Cell)
    ensures
        final(out)@ == old(out)@ + spec_cell_script(*cell),
{
    match cell {
        Cell::Code { source, .. } => {
            out.append("# %%\n");
            append_lines(out, source, false);
        },
        Cell::Markdown { source, .. } => {
            out.append("# %% [markdown]\n");
            append_lines(out, source, true);
        },
        Cell::Raw { source, .. } => {
            out.append("# %% [raw]\n");
            append_lines(out, source, true);
        },
    }
}

fn append_cell_markdown(out: &mut String, cell: &Cell)
    ensures
        final(out)@ == old(out)@ + spec_cell_markdown(*cell),
{
    match cell {
        Cell::Code { source, .. } => {
            out.append("```python\n");
            append_lines(out, source, false);
            out.append("\n```");
        },
        Cell::Markdown { source, .. } => {
            append_lines(out, source, false);
        },
        Cell::Raw { source, .. } => {
            out.append("```\n");
            append_lines(out, source, false);
            out.append("\n```");
        },
    }
}

proof fn lemma_join_step(blocks: Seq<Seq<char>>, i: int)
    requires
        0 < i < blocks.len(),
    ensures
        join_blocks(blocks.take(i + 1)) == join_blocks(blocks.take(i)) + separator_after(blocks[i - 1]) + blocks[i],
{
    assert(blocks.take(i + 1).drop_last() =~= blocks.take(i));
}

impl Notebook {
    /// The notebook as a flat script: one `# %%` block per cell, in order,
    /// with exactly one blank line between neighbours.
    pub fn to_script(&self) -> (r: String)
        ensures
            r@ == spec_script(self.cells@),
    {
        let ghost blocks = self.cells@.map_values(|c: Cell| spec_cell_script(c));
        let mut r = String::new();
        let mut ends_in_newline = false;
        let mut i: usize = 0;
        while i < self.cells.len()
            invariant
                i <= self.cells@.len(),
                blocks == self.cells@.map_values(|c: Cell| spec_cell_script(c)),
                r@ == join_blocks(blocks.take(i as int)),
                i > 0 ==> ends_in_newline == (blocks[i - 1].len() > 0 && blocks[i - 1].last() == '\n'),
            decreases self.cells@.len() - i,
        {
            if i > 0 {
                if ends_in_newline {
                    r.append("\n");
                } else {
                    r.append("\n\n");
                }
                proof {
                    reveal_strlit("\n");
                    reveal_strlit("\n\n");
                    lemma_join_step(blocks, i as int);
                }
            } else {
                assert(blocks.take(1) =~= seq![blocks[0]]);
                assert(blocks.take(0) =~= Seq::<Seq<char>>::empty());
                assert(r@ =~= Seq::<char>::empty());
            }
            let before = r.unicode_len();
            append_cell_script(&mut r, &self.cells[i]);
            let after = r.unicode_len();
            ends_in_newline = after > before && r.as_str().get_char(after - 1) == '\n';
            proof {
                assert(blocks[i as int] == spec_cell_script(self.cells@[i as int]));
                if after > before {
                    assert(r@.last() == blocks[i as int].last());
                }
            }
            i = i + 1;
        }
        proof {
            assert(blocks.take(i as int) =~= blocks);
        }
        r
    }

    /// The notebook as Markdown: code in `python` fenced blocks, Markdown
    /// cells as they are, raw cells in plain fenced blocks, with exactly one
    /// blank line between neighbours.
    pub fn to_markdown(&self) -> (r: String)
        ensures
            r@ == spec_markdown(self.cells@),
    {
        let ghost blocks = self.cells@.map_values(|c: Cell| spec_cell_markdown(c));
        let mut r = String::new();
        let mut ends_in_newline = false;
        let mut i: usize = 0;
        while i < self.cells.len()
            invariant
                i <= self.cells@.len(),
                blocks == self.cells@.map_values(|c: Cell| spec_cell_markdown(c)),
                r@ == join_blocks(blocks.take(i as int)),
                i > 0 ==> ends_in_newline == (blocks[i - 1].len() > 0 && blocks[i - 1].last() == '\n'),
            decreases self.cells@.len() - i,
        {
            if i > 0 {
                if ends_in_newline {
                    r.append("\n");
                } else {
                    r.append("\n\n");
                }
                proof {
                    reveal_strlit("\n");
                    reveal_strlit("\n\n");
                    lemma_join_step(blocks, i as int);
                }
            } else {
                assert(blocks.take(1) =~= seq![blocks[0]]);
                assert(blocks.take(0) =~= Seq::<Seq<char>>::empty());
                assert(r@ =~= Seq::<char>::empty());
            }
            let before = r.unicode_len();
            append_cell_markdown(&mut r, &self.cells[i]);
            let after = r.unicode_len();
            ends_in_newline = after > before && r.as_str().get_char(after - 1) == '\n';
            proof {
                assert(blocks[i as int] == spec_cell_markdown(self.cells@[i as int]));
                if after > before {
                    assert(r@.last() == blocks[i as int].last());
                }
            }
            i = i + 1;
        }
        proof {
            assert(blocks.take(i as int) =~= blocks);
        }
        r
    }
}

} // verus!
