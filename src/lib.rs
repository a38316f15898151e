//! Notebook documents, their text projections, inline metadata and runtime
//! launch scripts.

mod bootstrap;
mod text;
pub mod lines;
pub mod notebook;
pub mod convert;
pub mod metadata;
pub mod builder;
pub mod document;
pub mod runtime;
pub mod naming;

pub use builder::NotebookBuilder;
pub use document::FormatError;
pub use notebook::{Cell, CellKind, Notebook};
pub use runtime::{InvalidRuntimeSpecifier, Runtime, RuntimeKind};
