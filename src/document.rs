//! Reading and writing the notebook JSON document. Older schemas are
//! upgraded to the current one on the way in.

use vstd::prelude::*;
use crate::notebook::{Cell, Notebook};
use nbformat::v4::Metadata;
use nbformat::v4::{Cell as V4Cell, Notebook as V4Notebook};
use nbformat::legacy::Notebook as LegacyNotebook;

verus! {

#[verifier::external_type_specification]
#[verifier::external_body]
pub struct ExV4Notebook(V4Notebook);

#[verifier::external_type_specification]
#[verifier::external_body]
pub struct ExV4Cell(V4Cell);

#[verifier::external_type_specification]
#[verifier::external_body]
pub struct ExV4Quirks(nbformat::V4Quirks);

#[verifier::external_type_specification]
#[verifier::external_body]
pub struct ExLegacyNotebook(LegacyNotebook);

#[verifier::external_type_specification]
#[verifier::external_body]
pub struct ExNotebookError(nbformat::NotebookError);

#[verifier::external_type_specification]
#[verifier::external_body]
pub struct ExAnyhowError(anyhow::Error);

#[verifier::external_type_specification]
#[verifier::external_body]
pub struct ExJsonError(serde_json::Error);

/// Why a document could not be read or written.
#[derive(Debug)]
pub enum FormatError {
    /// The text is not valid JSON, or not a notebook of a known schema.
    Parse(nbformat::NotebookError),
    /// The document is in an older schema that could not be upgraded.
    Upgrade(anyhow::Error),
    /// The document is in schema 3, which is not upgraded.
    Unsupported,
    /// The notebook could not be written as JSON.
    Serialize(serde_json::Error),
}

/// The schema version, major and minor, that nbformat's parser reads from
/// a text it accepts as a notebook document; none when it rejects the text.
pub uninterp spec fn notebook_text_version(json: Seq<char>) -> Option<(i32, i32)>;

/// A version of the current schema, 4.5.
pub open spec fn is_current_version(v: Option<(i32, i32)>) -> bool {
    v == Some((4i32, 5i32))
}

/// A version from 4.0 to 4.4, which nbformat upgrades.
pub open spec fn is_legacy_version(v: Option<(i32, i32)>) -> bool {
    v matches Some(p) && p.0 == 4 && 0 <= p.1 <= 4
}

/// A version of schema 3.
pub open spec fn is_v3_version(v: Option<(i32, i32)>) -> bool {
    v matches Some(p) && p.0 == 3
}

/// A parsed document, by the schema it was written in: the current schema
/// as its metadata, version and cells.
enum Parsed {
    Current(Metadata, i32, i32, Vec<V4Cell>),
    Legacy(LegacyNotebook),
    V3,
    Unknown,
}

/// Relies on `nbformat::parse_notebook`: whether it succeeds, and the
/// version it reads, depend on the text alone. It gives the V4 and
/// V4QuirksMode variants for version 4.5, Legacy for 4.0 to 4.4 and V3 for
/// major version 3, and nothing else; the version of a V4 notebook is
/// deserialised from the same JSON value. A V4QuirksMode notebook is
/// promoted with `V4Quirks::repair`.
#[verifier::external_body]
fn parse_document(json: &str) -> (r: Result<Parsed, nbformat::NotebookError>)
    ensures
        r is Ok <==> notebook_text_version(json@) is Some,
        r matches Ok(p) ==> !(p is Unknown),
        r matches Ok(p) ==> (p is Current <==> is_current_version(notebook_text_version(json@))),
        r matches Ok(p) ==> (p is Legacy <==> is_legacy_version(notebook_text_version(json@))),
        r matches Ok(p) ==> (p is V3 <==> is_v3_version(notebook_text_version(json@))),
        r matches Ok(Parsed::Current(_, major, minor, _)) ==> major == 4 && minor == 5,
{
    nbformat::parse_notebook(json).map(|nb| match nb {
        nbformat::Notebook::V4(n) => Parsed::Current(n.metadata, n.nbformat, n.nbformat_minor, n.cells),
        nbformat::Notebook::V4QuirksMode(q) => {
            let n = q.repair();
            Parsed::Current(n.metadata, n.nbformat, n.nbformat_minor, n.cells)
        },
        nbformat::Notebook::Legacy(nb) => Parsed::Legacy(nb),
        nbformat::Notebook::V3(_) => Parsed::V3,
        _ => Parsed::Unknown,
    })
}

/// Relies on `nbformat::upgrade_legacy_notebook` (schemas 4.0 to 4.4),
/// which returns a notebook of version 4.5 when it succeeds.
#[verifier::external_body]
fn upgrade_legacy(nb: LegacyNotebook) -> (r: Result<(Metadata, i32, i32, Vec<V4Cell>), anyhow::Error>)
    ensures
        r matches Ok(p) ==> p.1 == 4 && p.2 == 5,
{
    nbformat::upgrade_legacy_notebook(nb).map(|n| (n.metadata, n.nbformat, n.nbformat_minor, n.cells))
}

/// Relies on `serde_json::to_string_pretty` over nbformat's serialisation
/// of the notebook given, whose fields and cells are moved into
/// `nbformat::v4::Notebook` as they are.
#[verifier::external_body]
fn to_pretty_json(nb: Notebook) -> (r: Result<String, serde_json::Error>) {
    let cells = nb.cells.into_iter().map(|c| match c {
        Cell::Code { id, metadata, execution_count, source, outputs } =>
            V4Cell::Code { id, metadata, execution_count, source, outputs },
        Cell::Markdown { id, metadata, source, attachments } => V4Cell::Markdown { id, metadata, source, attachments },
        Cell::Raw { id, metadata, source } => V4Cell::Raw { id, metadata, source },
    });
    let (metadata, nbformat, nbformat_minor) = (nb.metadata, nb.nbformat, nb.nbformat_minor);
    serde_json::to_string_pretty(&V4Notebook { metadata, nbformat, nbformat_minor, cells: cells.collect() })
}

/// Relies on the variants of `nbformat::v4::Cell`: each field moves over as
/// it is.
#[verifier::external_body]
fn cell_from_v4(cell: V4Cell) -> (r: Cell) {
    match cell {
        V4Cell::Code { id, metadata, execution_count, source, outputs } =>
            Cell::Code { id, metadata, execution_count, source, outputs },
        V4Cell::Markdown { id, metadata, source, attachments } =>
            Cell::Markdown { id, metadata, source, attachments },
        V4Cell::Raw { id, metadata, source } => Cell::Raw { id, metadata, source },
    }
}

impl Notebook {
    fn from_parts(metadata: Metadata, nbformat: i32, nbformat_minor: i32, outside: Vec<V4Cell>) -> (r: Notebook)
        ensures
            r.metadata == metadata,
            r.nbformat == nbformat,
            r.nbformat_minor == nbformat_minor,
            r.cells@.len() == outside@.len(),
    {
        let mut cells: Vec<Cell> = Vec::new();
        for cell in it: outside.into_iter()
            invariant
                cells@.len() == it.index(),
        {
            cells.push(cell_from_v4(cell));
        }
        Notebook { metadata, nbformat, nbformat_minor, cells }
    }

    /// Reads a notebook document. Text that nbformat's parser rejects gives
    /// `Parse`; a schema 3 document gives `Unsupported`; a 4.0 to 4.4
    /// document is upgraded, and gives `Upgrade` if that fails; a 4.5
    /// document is always read. Every notebook returned is of version 4.5.
    pub fn from_json(json: &str) -> (r: Result<Notebook, FormatError>)
        ensures
            !(r matches Err(FormatError::Serialize(_))),
            r matches Err(FormatError::Parse(_)) <==> notebook_text_version(json@) is None,
            r matches Err(FormatError::Unsupported) <==> is_v3_version(notebook_text_version(json@)),
            r matches Err(FormatError::Upgrade(_)) ==> is_legacy_version(notebook_text_version(json@)),
            is_current_version(notebook_text_version(json@)) ==> r is Ok,
            r matches Ok(nb) ==> nb.nbformat == 4 && nb.nbformat_minor == 5,
    {
        let parsed = match parse_document(json) {
            Ok(parsed) => parsed,
            Err(e) => return Err(FormatError::Parse(e)),
        };
        let (metadata, nbformat, nbformat_minor, cells) = match parsed {
            Parsed::Current(metadata, nbformat, nbformat_minor, cells) => (metadata, nbformat, nbformat_minor, cells),
            Parsed::Legacy(nb) => match upgrade_legacy(nb) {
                Ok(parts) => parts,
                Err(e) => return Err(FormatError::Upgrade(e)),
            },
            Parsed::V3 => return Err(FormatError::Unsupported),
            Parsed::Unknown => vstd::pervasive::unreached(),
        };
        Ok(Notebook::from_parts(metadata, nbformat, nbformat_minor, cells))
    }

    /// Writes the notebook, as it is, as a pretty-printed JSON document.
    pub fn into_json(self) -> (r: Result<String, FormatError>)
        ensures
            r matches Err(e) ==> e is Serialize,
    {
        match to_pretty_json(self) {
            Ok(text) => Ok(text),
            Err(e) => Err(FormatError::Serialize(e)),
        }
    }
}

} // verus!
