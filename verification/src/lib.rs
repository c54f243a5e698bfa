//! Translation of HTTP test definitions written in KDL into Hurl files.
//!
//! The `formats::kdl` module reads a KDL document (held as the plain tree of
//! `formats::kdl::document`) and builds a Hurl file (held as the tree of
//! `writer::ast`); the `writer` module renders such a file as Hurl text.
pub mod formats;
pub mod writer;
