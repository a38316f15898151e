use juv::builder::NotebookBuilder;
use juv::metadata::cell_metadata;
use juv::{Cell, CellKind, FormatError, Notebook};

const SAMPLE: &str = r##"{
 "nbformat": 4,
 "nbformat_minor": 5,
 "metadata": {
  "kernelspec": {"display_name": "Python 3", "name": "python3"},
  "custom_key": {"nested": [1, 2]}
 },
 "cells": [
  {
   "cell_type": "code",
   "id": "c1",
   "metadata": {},
   "execution_count": 3,
   "source": ["print(1)\n"],
   "outputs": [{"output_type": "stream", "name": "stdout", "text": ["1\n"]}]
  },
  {
   "cell_type": "markdown",
   "id": "m1",
   "metadata": {},
   "source": ["# Title\n", "text"]
  },
  {
   "cell_type": "raw",
   "id": "r1",
   "metadata": {},
   "source": ["raw\n"]
  }
 ]
}"##;

fn single_code_cell(source: &str) -> Notebook {
    let json = format!(
        r#"{{"nbformat": 4, "nbformat_minor": 5, "metadata": {{}}, "cells": [{{"cell_type": "code", "id": "a", "metadata": {{}}, "execution_count": null, "source": {}, "outputs": []}}]}}"#,
        serde_json::to_string(source).unwrap()
    );
    Notebook::from_json(&json).unwrap()
}

fn sources(nb: &Notebook) -> Vec<Vec<String>> {
    nb.cells.iter().map(|c| c.source().clone()).collect()
}

#[test]
fn loads_cells_in_order() {
    let nb = Notebook::from_json(SAMPLE).unwrap();
    let kinds: Vec<CellKind> = nb.cells.iter().map(|c| c.kind()).collect();
    assert_eq!(kinds, vec![CellKind::Code, CellKind::Markdown, CellKind::Raw]);
    assert_eq!(sources(&nb)[1], vec!["# Title\n".to_string(), "text".to_string()]);
    assert_eq!(nb.nbformat, 4);
    assert_eq!(nb.nbformat_minor, 5);
}

#[test]
fn save_then_load_round_trips() {
    let nb = Notebook::from_json(SAMPLE).unwrap();
    let first = nb.into_json().unwrap();
    let again = Notebook::from_json(&first).unwrap();
    assert_eq!(sources(&again), sources(&Notebook::from_json(SAMPLE).unwrap()));
    assert!(again.metadata.additional.contains_key("custom_key"));
    match &again.cells[0] {
        Cell::Code { id, execution_count, outputs, .. } => {
            assert_eq!(id.as_str(), "c1");
            assert_eq!(*execution_count, Some(3));
            assert_eq!(outputs.len(), 1);
        }
        _ => panic!("expected a code cell"),
    }
    let reread: serde_json::Value = serde_json::from_str(&again.into_json().unwrap()).unwrap();
    assert_eq!(reread, serde_json::from_str::<serde_json::Value>(&first).unwrap());
}

#[test]
fn cleared_after_clear() {
    let mut nb = Notebook::from_json(SAMPLE).unwrap();
    assert!(!nb.is_cleared());
    nb.clear_cells();
    assert!(nb.is_cleared());
    match &nb.cells[0] {
        Cell::Code { execution_count, outputs, source, .. } => {
            assert_eq!(*execution_count, None);
            assert!(outputs.is_empty());
            assert_eq!(source, &vec!["print(1)\n".to_string()]);
        }
        _ => panic!("expected a code cell"),
    }
    nb.clear_cells();
    assert!(nb.is_cleared());
}

#[test]
fn counter_alone_makes_a_cell_uncleared() {
    let json = SAMPLE.replace(
        r#""outputs": [{"output_type": "stream", "name": "stdout", "text": ["1\n"]}]"#,
        r#""outputs": []"#,
    );
    let nb = Notebook::from_json(&json).unwrap();
    assert!(!nb.is_cleared());
    assert!(!nb.cells[0].is_cleared());
    assert!(nb.cells[1].is_cleared());
}

#[test]
fn empty_notebook_is_cleared() {
    assert!(NotebookBuilder::new().build().is_cleared());
}

#[test]
fn script_of_single_code_cell() {
    assert_eq!(single_code_cell("print(1)\n").to_script(), "# %%\nprint(1)\n");
}

#[test]
fn markdown_of_single_code_cell() {
    assert_eq!(single_code_cell("x = 1\n").to_markdown(), "```python\nx = 1\n\n```");
}

#[test]
fn script_of_mixed_cells() {
    let nb = Notebook::from_json(SAMPLE).unwrap();
    assert_eq!(
        nb.to_script(),
        "# %%\nprint(1)\n\n# %% [markdown]\n# # Title\n# text\n\n# %% [raw]\n# raw\n"
    );
}

#[test]
fn markdown_of_mixed_cells() {
    let nb = Notebook::from_json(SAMPLE).unwrap();
    assert_eq!(
        nb.to_markdown(),
        "```python\nprint(1)\n\n```\n\n# Title\ntext\n\n```\nraw\n\n```"
    );
}

#[test]
fn one_blank_line_between_cells_ending_in_newline() {
    let nb = NotebookBuilder::new().code_cell("a").code_cell("b").build();
    assert_eq!(nb.to_script(), "# %%\na\n\n# %%\nb");
    let json = r#"{"nbformat": 4, "nbformat_minor": 5, "metadata": {}, "cells": [
        {"cell_type": "code", "id": "a", "metadata": {}, "execution_count": null, "source": ["a\n"], "outputs": []},
        {"cell_type": "code", "id": "b", "metadata": {}, "execution_count": null, "source": ["a\n"], "outputs": []}]}"#;
    let nb = Notebook::from_json(json).unwrap();
    assert_eq!(nb.to_script(), "# %%\na\n\n# %%\na\n");
    assert_eq!(nb.to_markdown(), "```python\na\n\n```\n\n```python\na\n\n```");
}

#[test]
fn projections_of_empty_notebook_are_empty() {
    let nb = NotebookBuilder::new().build();
    assert_eq!(nb.to_script(), "");
    assert_eq!(nb.to_markdown(), "");
}

const BLOCK: &str = "# /// script\n# requires-python = \">=3.11\"\n# ///";

#[test]
fn finds_inline_metadata_block() {
    let nb = single_code_cell(&format!("{}\nimport os\n", BLOCK));
    assert_eq!(nb.inline_metadata().as_deref(), Some(BLOCK));
    assert_eq!(nb.metadata_cell_index(), Some(0));
}

#[test]
fn block_without_closing_marker_is_no_match() {
    let nb = single_code_cell("# /// script\n# requires-python = \">=3.11\"\nimport os\n");
    assert_eq!(nb.inline_metadata(), None);
    assert_eq!(nb.metadata_cell_index(), None);
    assert_eq!(nb.metadata_script(), None);
}

#[test]
fn block_without_opening_marker_is_no_match() {
    let nb = single_code_cell("# requires-python = \">=3.11\"\n# ///\n");
    assert_eq!(nb.inline_metadata(), None);
}

#[test]
fn metadata_in_markdown_cell_is_ignored() {
    let json = SAMPLE.replace(r##"["# Title\n", "text"]"##, r##"["# /// script\n", "# ///\n"]"##);
    let nb = Notebook::from_json(&json).unwrap();
    assert_eq!(cell_metadata(&nb.cells[1]), None);
    assert_eq!(nb.inline_metadata(), None);
}

#[test]
fn metadata_script_is_trimmed_cell_text() {
    let nb = NotebookBuilder::new()
        .code_cell("x = 1")
        .code_cell(&format!("{}\nimport os\n", BLOCK))
        .build();
    let (index, text) = nb.metadata_script().unwrap();
    assert_eq!(index, 1);
    assert_eq!(text, format!("{}\nimport os", BLOCK));
}

#[test]
fn set_cell_source_splits_trimmed_text() {
    let mut nb = Notebook::from_json(SAMPLE).unwrap();
    nb.set_cell_source(0, "\n# /// script\n# ///\nprint(2)\n\n");
    assert_eq!(
        nb.cells[0].source(),
        &vec!["# /// script\n".to_string(), "# ///\n".to_string(), "print(2)".to_string()]
    );
    assert_eq!(nb.cells[0].kind(), CellKind::Code);
    assert_eq!(nb.cells[1].source(), &vec!["# Title\n".to_string(), "text".to_string()]);
}

#[test]
fn builder_appends_code_cells() {
    let nb = NotebookBuilder::new()
        .hidden_code_cell("  # /// script\n# ///\n\n")
        .code_cell("")
        .build();
    assert_eq!(nb.nbformat, 4);
    assert_eq!(nb.nbformat_minor, 4);
    assert_eq!(nb.cells.len(), 2);
    match &nb.cells[0] {
        Cell::Code { id, metadata, execution_count, source, outputs } => {
            assert_eq!(id.as_str().len(), 8);
            assert!(id.as_str().chars().all(|c| c.is_ascii_hexdigit()));
            assert_eq!(metadata.jupyter.as_ref().and_then(|j| j.source_hidden), Some(true));
            assert_eq!(*execution_count, None);
            assert!(outputs.is_empty());
            assert_eq!(source, &vec!["# /// script\n".to_string(), "# ///".to_string()]);
        }
        _ => panic!("expected a code cell"),
    }
    match &nb.cells[1] {
        Cell::Code { metadata, source, .. } => {
            assert!(metadata.jupyter.is_none());
            assert!(source.is_empty());
        }
        _ => panic!("expected a code cell"),
    }
    assert_ne!(nb.cells[0].source(), nb.cells[1].source());
}

#[test]
fn built_notebook_saves_and_loads() {
    let nb = NotebookBuilder::new().code_cell("a = 1\nb = 2\n").build();
    let json = nb.into_json().unwrap();
    let back = Notebook::from_json(&json).unwrap();
    assert_eq!(back.cells[0].source(), &vec!["a = 1\n".to_string(), "b = 2".to_string()]);
}

#[test]
fn legacy_schema_is_upgraded() {
    let json = r#"{"nbformat": 4, "nbformat_minor": 2, "metadata": {}, "cells": [
        {"cell_type": "code", "metadata": {}, "execution_count": null, "source": "x", "outputs": []}]}"#;
    let nb = Notebook::from_json(json).unwrap();
    assert_eq!(nb.nbformat, 4);
    assert_eq!(nb.nbformat_minor, 5);
    assert_eq!(nb.cells[0].source(), &vec!["x".to_string()]);
}

#[test]
fn invalid_json_is_a_format_error() {
    assert!(matches!(Notebook::from_json("{not json"), Err(FormatError::Parse(_))));
}

#[test]
fn unsupported_version_is_a_format_error() {
    let json = r#"{"nbformat": 9, "nbformat_minor": 0, "metadata": {}, "cells": []}"#;
    assert!(matches!(Notebook::from_json(json), Err(FormatError::Parse(_))));
}

#[test]
fn unknown_metadata_keys_and_cell_order_survive() {
    let json = SAMPLE.replace(r#""custom_key""#, r#""zeta": true, "alpha": "x", "custom_key""#);
    let nb = Notebook::from_json(&json).unwrap();
    let back = Notebook::from_json(&nb.into_json().unwrap()).unwrap();
    for key in ["zeta", "alpha", "custom_key"] {
        assert!(back.metadata.additional.contains_key(key));
    }
    assert_eq!(back.metadata.additional["alpha"], serde_json::Value::from("x"));
    let ids: Vec<String> = back
        .cells
        .iter()
        .map(|c| match c {
            Cell::Code { id, .. } | Cell::Markdown { id, .. } | Cell::Raw { id, .. } => id.as_str().to_string(),
        })
        .collect();
    assert_eq!(ids, vec!["c1", "m1", "r1"]);
}

#[test]
fn schema_three_is_unsupported() {
    let json = r#"{"nbformat": 3, "nbformat_minor": 0, "metadata": {}, "worksheets": [{"cells": [
        {"cell_type": "code", "metadata": {}, "input": ["y = 2\n"], "outputs": [], "language": "python"}]}]}"#;
    assert!(matches!(Notebook::from_json(json), Err(FormatError::Unsupported)));
}

#[test]
fn schema_three_with_negative_heading_is_rejected_without_panic() {
    let json = r#"{"nbformat": 3, "nbformat_minor": 0, "worksheets": [{"cells": [
        {"cell_type": "heading", "level": -1, "metadata": {}, "source": "t"}]}]}"#;
    assert!(matches!(Notebook::from_json(json), Err(FormatError::Unsupported)));
}

#[test]
fn cells_without_ids_are_repaired() {
    let json = r#"{"nbformat": 4, "nbformat_minor": 5, "metadata": {}, "cells": [
        {"cell_type": "markdown", "metadata": {}, "source": "hi"}]}"#;
    let nb = Notebook::from_json(json).unwrap();
    assert_eq!(nb.cells[0].kind(), CellKind::Markdown);
    assert_eq!(nb.nbformat_minor, 5);
}
