//! The Hurl syntax tree, helpers that build its nodes, and its rendering as text.
pub mod ast;
pub mod helpers;
pub mod serializer;
pub mod source;
pub mod text;

pub use helpers::{
    dummy_source_info, empty_whitespace, newline_whitespace, quoted_template_with_placeholders,
    simple_line_terminator, simple_template, space, template_with_placeholders,
};
pub use serializer::hurl_file_to_string;
