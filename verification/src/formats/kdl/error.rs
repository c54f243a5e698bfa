//! Errors that can occur during KDL to Hurl translation.
use vstd::prelude::*;

use crate::writer::text::{concat2, concat3};

verus! {

/// The error of the KDL parser (`kdl::KdlError`), carried through unchanged.
#[verifier::external_type_specification]
#[verifier::external_body]
pub struct ExKdlError(::kdl::KdlError);

/// Errors that can occur during KDL to Hurl translation.
#[derive(Debug)]
pub enum TranslationError {
    MissingRequiredField { node: String, field: String },
    InvalidMethod(String),
    InvalidUrl(String),
    InvalidPredicate(String),
    InvalidBody { reason: String },
    InvalidHex { reason: String },
    DuplicateStepName(String),
    UnknownReference { variable: String, step: String },
    InvalidStructure(String),
    KdlError(::kdl::KdlError),
}

/// An error with its texts taken as sequences of characters.
pub enum ErrorView {
    MissingRequiredField { node: Seq<char>, field: Seq<char> },
    InvalidMethod(Seq<char>),
    InvalidUrl(Seq<char>),
    InvalidPredicate(Seq<char>),
    InvalidBody(Seq<char>),
    InvalidHex(Seq<char>),
    DuplicateStepName(Seq<char>),
    UnknownReference { variable: Seq<char>, step: Seq<char> },
    InvalidStructure(Seq<char>),
    KdlError,
}

impl View for TranslationError {
    type V = ErrorView;

    open spec fn view(&self) -> ErrorView {
        match self {
            TranslationError::MissingRequiredField { node, field } => ErrorView::MissingRequiredField {
                node: node@,
                field: field@,
            },
            TranslationError::InvalidMethod(m) => ErrorView::InvalidMethod(m@),
            TranslationError::InvalidUrl(u) => ErrorView::InvalidUrl(u@),
            TranslationError::InvalidPredicate(p) => ErrorView::InvalidPredicate(p@),
            TranslationError::InvalidBody { reason } => ErrorView::InvalidBody(reason@),
            TranslationError::InvalidHex { reason } => ErrorView::InvalidHex(reason@),
            TranslationError::DuplicateStepName(n) => ErrorView::DuplicateStepName(n@),
            TranslationError::UnknownReference { variable, step } => ErrorView::UnknownReference {
                variable: variable@,
                step: step@,
            },
            TranslationError::InvalidStructure(s) => ErrorView::InvalidStructure(s@),
            TranslationError::KdlError(_) => ErrorView::KdlError,
        }
    }
}

/// The view of a result: the value's view, or the error's.
pub open spec fn result_view<T: View>(r: Result<T, TranslationError>) -> Result<T::V, ErrorView> {
    match r {
        Ok(v) => Ok(v@),
        Err(e) => Err(e@),
    }
}

/// The message of an error, as the command line reports it.
pub open spec fn error_message(e: ErrorView) -> Seq<char> {
    match e {
        ErrorView::MissingRequiredField { node, field } => "Missing required field '"@ + field
            + "' in node '"@ + node + "'"@,
        ErrorView::InvalidMethod(m) => "Invalid HTTP method: '"@ + m + "'"@,
        ErrorView::InvalidUrl(u) => "Invalid URL: '"@ + u + "'"@,
        ErrorView::InvalidPredicate(p) => "Invalid predicate: '"@ + p + "'"@,
        ErrorView::InvalidBody(reason) => "Invalid body: "@ + reason,
        ErrorView::InvalidHex(reason) => "Invalid hex string: "@ + reason,
        ErrorView::DuplicateStepName(n) => "Duplicate step name: '"@ + n + "'"@,
        ErrorView::UnknownReference { variable, step } => "Unknown variable reference '{{variable}}' - step '"@
            + step + "' not found or has no such capture"@,
        ErrorView::InvalidStructure(s) => "Invalid KDL structure: "@ + s,
        ErrorView::KdlError => "KDL parse error: "@ + "Failed to parse KDL document"@,
    }
}

/// The text `kdl::KdlError`'s `Display` writes. Claimed, as the kdl crate's
/// source writes it: always "Failed to parse KDL document".
#[verifier::external_body]
fn kdl_error_text(e: &::kdl::KdlError) -> (r: String)
    ensures
        r@ == "Failed to parse KDL document"@,
{
    e.to_string()
}

impl TranslationError {
    /// The message of this error, as the command line reports it.
    pub fn message(&self) -> (r: String)
        ensures
            r@ == error_message(self@),
    {
        match self {
            TranslationError::MissingRequiredField { node, field } => {
                let head = concat3("Missing required field '", field.as_str(), "' in node '");
                concat3(head.as_str(), node.as_str(), "'")
            },
            TranslationError::InvalidMethod(m) => concat3("Invalid HTTP method: '", m.as_str(), "'"),
            TranslationError::InvalidUrl(u) => concat3("Invalid URL: '", u.as_str(), "'"),
            TranslationError::InvalidPredicate(p) => concat3("Invalid predicate: '", p.as_str(), "'"),
            TranslationError::InvalidBody { reason } => concat2("Invalid body: ", reason.as_str()),
            TranslationError::InvalidHex { reason } => concat2("Invalid hex string: ", reason.as_str()),
            TranslationError::DuplicateStepName(n) => concat3("Duplicate step name: '", n.as_str(), "'"),
            TranslationError::UnknownReference { variable: _, step } => concat3(
                "Unknown variable reference '{{variable}}' - step '",
                step.as_str(),
                "' not found or has no such capture",
            ),
            TranslationError::InvalidStructure(s) => concat2("Invalid KDL structure: ", s.as_str()),
            TranslationError::KdlError(e) => {
                let text = kdl_error_text(e);
                concat2("KDL parse error: ", text.as_str())
            },
        }
    }
}

/// Builds a `MissingRequiredField` error.
pub fn missing_field(node: String, field: &str) -> (e: TranslationError)
    ensures
        e@ == (ErrorView::MissingRequiredField { node: node@, field: field@ }),
{
    TranslationError::MissingRequiredField { node, field: String::from_str(field) }
}

} // verus!
