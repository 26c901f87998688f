//! A static-site generator core: documents in org markup are discovered under
//! a project root, bound to templates by inline metadata, turned into
//! render-ready outlines, and mapped to mirrored output paths.
//!
//! The filesystem walking, template rendering and file writing live in the
//! surrounding binary; this crate holds the decisions: which files count as
//! templates or documents, which template a document is bound to, what an
//! outline contains, and where each output file goes.

pub mod config;
pub mod document;
pub mod index;
pub mod outline;
pub mod state;
pub mod template;
pub mod utils;
pub mod paths;
pub mod render;
pub mod text;
