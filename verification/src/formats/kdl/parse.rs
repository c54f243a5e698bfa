//! Reading KDL text: the kdl crate parses it, and its document is taken
//! over as the plain tree of `document`.
use vstd::prelude::*;

use ::kdl::KdlValue as Parsed;

use crate::formats::kdl::document::{KdlTree, KdlEntry, KdlNode, KdlValue};
use crate::formats::kdl::error::{ErrorView, TranslationError};

verus! {

/// A document parsed by the kdl crate (`kdl::KdlDocument`).
#[verifier::external_type_specification]
#[verifier::external_body]
pub struct ExKdlDocument(::kdl::KdlDocument);

/// The nodes of KDL text as the kdl crate parses it (`str::parse` into a
/// `kdl::KdlDocument`), taken as the plain tree; `None` where it refuses the text.
pub uninterp spec fn kdl_parse(text: Seq<char>) -> Option<Seq<KdlNode>>;

/// The nodes a `kdl::KdlDocument` holds, in order, taken as the plain tree.
pub uninterp spec fn kdl_document_nodes(doc: ::kdl::KdlDocument) -> Seq<KdlNode>;

/// Parses `text` with `kdl::KdlDocument`'s `FromStr`. Claimed: the parse
/// succeeds exactly where `kdl_parse` gives nodes, and then the document
/// holds those nodes.
#[verifier::external_body]
fn parse_kdl(text: &str) -> (r: Result<::kdl::KdlDocument, ::kdl::KdlError>)
    ensures
        match r {
            Ok(d) => kdl_parse(text@) == Some(kdl_document_nodes(d)),
            Err(_) => kdl_parse(text@) is None,
        },
{
    text.parse::<::kdl::KdlDocument>()
}

/// The nodes of a `kdl::KdlDocument` (`nodes`, and of each node `name`,
/// `entries` and `children`), each carried over one for one into the plain
/// tree; a float is kept as the text `f64`'s `Display` writes. Claimed: the
/// result is what `kdl_document_nodes` names.
#[verifier::external_body]
fn kdl_nodes_of(doc: &::kdl::KdlDocument) -> (r: Vec<KdlNode>)
    ensures
        r@ == kdl_document_nodes(*doc),
{
    doc.nodes().iter().map(|n| KdlNode {
        name: n.name().value().to_string(),
        entries: n.entries().iter().map(|e| KdlEntry {
            name: e.name().map(|i| i.value().to_string()),
            value: match e.value() {
                Parsed::String(s) => KdlValue::String(s.clone()),
                Parsed::Integer(i) => KdlValue::Integer(*i),
                Parsed::Float(f) => KdlValue::Float(f.to_string()),
                Parsed::Bool(b) => KdlValue::Bool(*b),
                Parsed::Null => KdlValue::Null,
            },
        }).collect(),
        children: n.children().map(|c| KdlTree { nodes: kdl_nodes_of(c) }),
    }).collect()
}

/// Parses KDL text into a document; text the KDL parser refuses gives a
/// `KdlError`.
pub fn parse_kdl_document(text: &str) -> (r: Result<KdlTree, TranslationError>)
    ensures
        match kdl_parse(text@) {
            Some(nodes) => r matches Ok(d) && d.nodes@ == nodes,
            None => r matches Err(e) && e@ == ErrorView::KdlError,
        },
{
    match parse_kdl(text) {
        Ok(doc) => Ok(KdlTree { nodes: kdl_nodes_of(&doc) }),
        Err(e) => Err(TranslationError::KdlError(e)),
    }
}

} // verus!
