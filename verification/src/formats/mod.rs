//! Input formats that can be translated to Hurl.
pub mod kdl;
