//! Translation of KDL documents into Hurl files.
//!
//! A document's nodes named after an HTTP method become entries: the node's
//! first argument is the URL, its children give headers, sections and body,
//! and its `expect` child the response. A `name="step"` property names the
//! step, whose captures are then prefixed with `step.`.
pub mod body;
pub mod document;
pub mod error;
pub mod json;
pub mod parse;
pub mod request;
pub mod response;
pub mod translator;

pub use error::TranslationError;
pub use parse::parse_kdl_document;
pub use translator::{translate, translate_kdl_text, translate_to_string};
