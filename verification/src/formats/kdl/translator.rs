//! Main translator module for KDL to Hurl conversion.
use vstd::prelude::*;

use crate::formats::kdl::document::{
    child_nodes, find_named, first_named, KdlTree, KdlNode,
};
use crate::formats::kdl::error::{result_view, ErrorView, TranslationError};
use crate::formats::kdl::parse::{kdl_parse, parse_kdl_document};
use crate::formats::kdl::request::{
    get_step_name, is_http_method, is_valid_http_method, request_view, step_name, translate_request,
};
use crate::formats::kdl::response::{response_view, translate_response};
use crate::writer::ast::{Entry, EntryView, HurlFile};
use crate::writer::serializer::{file_text, hurl_file_to_string};
use crate::writer::text::str_equal;

verus! {

/// The entry a request node stands for: its request, and the response its
/// first `expect` child describes, if it has one.
pub open spec fn entry_view(n: KdlNode) -> Result<EntryView, ErrorView> {
    match request_view(n) {
        Err(e) => Err(e),
        Ok(req) => match first_named(child_nodes(n), "expect"@) {
            Some(x) => match response_view(x, step_name(n)) {
                Ok(r) => Ok(EntryView { request: req, response: Some(r) }),
                Err(e) => Err(e),
            },
            None => Ok(EntryView { request: req, response: None }),
        },
    }
}

/// The request nodes among `nodes`: those named after an HTTP method.
pub open spec fn method_nodes(nodes: Seq<KdlNode>) -> Seq<KdlNode>
    decreases nodes.len(),
{
    if nodes.len() == 0 {
        Seq::empty()
    } else if is_http_method(nodes.last().name@) {
        method_nodes(nodes.drop_last()).push(nodes.last())
    } else {
        method_nodes(nodes.drop_last())
    }
}

/// The step names that the request nodes among `nodes` give, in order.
pub open spec fn step_names(nodes: Seq<KdlNode>) -> Seq<Seq<char>>
    decreases nodes.len(),
{
    if nodes.len() == 0 {
        Seq::empty()
    } else {
        let rest = step_names(nodes.drop_last());
        let n = nodes.last();
        if is_http_method(n.name@) && step_name(n) is Some {
            rest.push(step_name(n)->0)
        } else {
            rest
        }
    }
}

/// Whether the step name of a request node was already given by an earlier one.
pub open spec fn duplicate_step(seen: Seq<Seq<char>>, n: KdlNode) -> bool {
    match step_name(n) {
        Some(s) => seen.contains(s),
        None => false,
    }
}

/// The entries that `nodes` stand for, in order: nodes not named after an
/// HTTP method are left out; a step name given twice is an error; the first
/// error stops the translation.
pub open spec fn translate_view(nodes: Seq<KdlNode>) -> Result<Seq<EntryView>, ErrorView>
    decreases nodes.len(),
{
    if nodes.len() == 0 {
        Ok(Seq::empty())
    } else {
        match translate_view(nodes.drop_last()) {
            Err(e) => Err(e),
            Ok(es) => {
                let n = nodes.last();
                if !is_http_method(n.name@) {
                    Ok(es)
                } else if duplicate_step(step_names(nodes.drop_last()), n) {
                    Err(ErrorView::DuplicateStepName(step_name(n)->0))
                } else {
                    match entry_view(n) {
                        Ok(e) => Ok(es.push(e)),
                        Err(e) => Err(e),
                    }
                }
            },
        }
    }
}

pub proof fn lemma_translate_view_stops(nodes: Seq<KdlNode>, k: int)
    requires
        0 <= k <= nodes.len(),
        translate_view(nodes.take(k)) is Err,
    ensures
        translate_view(nodes) == translate_view(nodes.take(k)),
    decreases nodes.len() - k,
{
    if k < nodes.len() {
        assert(nodes.take(k + 1).drop_last() == nodes.take(k));
        lemma_translate_view_stops(nodes, k + 1);
    } else {
        assert(nodes.take(k) == nodes);
    }
}

/// The view of a list of step names.
pub open spec fn names_view(names: Seq<String>) -> Seq<Seq<char>> {
    names.map_values(|s: String| s@)
}

fn contains_name(names: &Vec<String>, name: &str) -> (r: bool)
    ensures
        r == names_view(names@).contains(name@),
{
    let mut i: usize = 0;
    while i < names.len()
        invariant
            i <= names.len(),
            forall|j: int| 0 <= j < i ==> names@[j]@ != name@,
        decreases names.len() - i,
    {
        if str_equal(names[i].as_str(), name) {
            assert(names_view(names@)[i as int] == name@);
            return true;
        }
        i += 1;
    }
    assert forall|j: int| 0 <= j < names_view(names@).len() implies names_view(names@)[j]
        != name@ by {
        assert(names_view(names@)[j] == names@[j]@);
    }
    false
}

/// Translates a KDL document to a Hurl file syntax tree.
pub fn translate(doc: &KdlTree) -> (r: Result<HurlFile, TranslationError>)
    ensures
        match r {
            Ok(f) => translate_view(doc.nodes@) == Ok::<Seq<EntryView>, ErrorView>(f@),
            Err(e) => translate_view(doc.nodes@) == Err::<Seq<EntryView>, ErrorView>(e@),
        },
{
    let nodes = &doc.nodes;
    let mut entries: Vec<Entry> = Vec::new();
    let mut names: Vec<String> = Vec::new();
    let mut i: usize = 0;
    assert(nodes@.take(0) == Seq::<KdlNode>::empty());
    assert(entries@.map_values(|e: Entry| e@) =~= Seq::<EntryView>::empty());
    assert(names_view(names@) =~= Seq::<Seq<char>>::empty());
    while i < nodes.len()
        invariant
            i <= nodes.len(),
            nodes@ == doc.nodes@,
            translate_view(nodes@.take(i as int)) == Ok::<Seq<EntryView>, ErrorView>(
                entries@.map_values(|e: Entry| e@),
            ),
            names_view(names@) == step_names(nodes@.take(i as int)),
        decreases nodes.len() - i,
    {
        let node = &nodes[i];
        assert(nodes@.take(i + 1).drop_last() == nodes@.take(i as int));
        assert(nodes@.take(i + 1).last() == nodes@[i as int]);
        if is_valid_http_method(node.name.as_str()) {
            let ghost seen = names_view(names@);
            assert(seen == step_names(nodes@.take(i + 1).drop_last()));
            match translate_entry(node, &mut names) {
                Ok(entry) => {
                    let ghost before = entries@;
                    entries.push(entry);
                    assert(entries@.map_values(|e: Entry| e@) =~= before.map_values(|e: Entry| e@).push(
                        entries@.last()@,
                    ));
                },
                Err(e) => {
                    proof {
                        if duplicate_step(seen, *node) {
                            assert(translate_view(nodes@.take(i + 1)) == Err::<
                                Seq<EntryView>,
                                ErrorView,
                            >(e@));
                        } else {
                            assert(entry_view(*node) == Err::<EntryView, ErrorView>(e@));
                            assert(translate_view(nodes@.take(i + 1)) == Err::<
                                Seq<EntryView>,
                                ErrorView,
                            >(e@));
                        }
                        lemma_translate_view_stops(nodes@, i + 1);
                    }
                    return Err(e);
                },
            }
        }
        i += 1;
    }
    assert(nodes@.take(nodes.len() as int) == nodes@);
    Ok(HurlFile { entries })
}

/// Translates a KDL document to a Hurl format string.
pub fn translate_to_string(doc: &KdlTree) -> (r: Result<String, TranslationError>)
    ensures
        match translate_view(doc.nodes@) {
            Ok(es) => r matches Ok(s) && s@ == file_text(es),
            Err(e) => r matches Err(x) && x@ == e,
        },
{
    match translate(doc) {
        Ok(hurl_file) => Ok(hurl_file_to_string(&hurl_file)),
        Err(e) => Err(e),
    }
}

/// Parses KDL text and translates it to a Hurl format string; text the KDL
/// parser refuses gives a `KdlError`.
pub fn translate_kdl_text(text: &str) -> (r: Result<String, TranslationError>)
    ensures
        match kdl_parse(text@) {
            None => r matches Err(e) && e@ == ErrorView::KdlError,
            Some(nodes) => match translate_view(nodes) {
                Ok(es) => r matches Ok(s) && s@ == file_text(es),
                Err(e) => r matches Err(x) && x@ == e,
            },
        },
{
    match parse_kdl_document(text) {
        Ok(doc) => translate_to_string(&doc),
        Err(e) => Err(e),
    }
}

/// Translates a single request node (request and optional response),
/// recording its step name among those already seen.
fn translate_entry(node: &KdlNode, step_names: &mut Vec<String>) -> (r: Result<
    Entry,
    TranslationError,
>)
    ensures
        duplicate_step(names_view(old(step_names)@), *node) ==> (r matches Err(e)
            && e@ == ErrorView::DuplicateStepName(step_name(*node)->0)
            && final(step_names)@ == old(step_names)@),
        !duplicate_step(names_view(old(step_names)@), *node) ==> {
            &&& result_view(r) == entry_view(*node)
            &&& names_view(final(step_names)@) == match step_name(*node) {
                Some(s) => names_view(old(step_names)@).push(s),
                None => names_view(old(step_names)@),
            }
        },
{
    let step = get_step_name(node);
    if let Some(name) = &step {
        if contains_name(step_names, name.as_str()) {
            return Err(TranslationError::DuplicateStepName(name.clone()));
        }
        let ghost before = step_names@;
        step_names.push(name.clone());
        assert(names_view(step_names@) =~= names_view(before).push(name@));
    }
    let request = match translate_request(node) {
        Ok(req) => req,
        Err(e) => {
            return Err(e);
        },
    };
    let mut response = None;
    if let Some(children) = &node.children {
        if let Some(k) = find_named(&children.nodes, "expect") {
            let step_str: Option<&str> = match &step {
                Some(s) => Some(s.as_str()),
                None => None,
            };
            assert(crate::formats::kdl::response::opt_str_chars(step_str) == step_name(*node));
            match translate_response(&children.nodes[k], step_str) {
                Ok(resp) => {
                    response = Some(resp);
                },
                Err(e) => {
                    return Err(e);
                },
            }
        }
    }
    Ok(Entry { request, response })
}

/// Only the nodes named after an HTTP method matter: the translation of a
/// document is that of its request nodes alone.
pub proof fn law_translation_ignores_other_nodes(nodes: Seq<KdlNode>)
    ensures
        translate_view(nodes) == translate_view(method_nodes(nodes)),
        step_names(nodes) == step_names(method_nodes(nodes)),
    decreases nodes.len(),
{
    if nodes.len() > 0 {
        let rest = nodes.drop_last();
        let n = nodes.last();
        law_translation_ignores_other_nodes(rest);
        if is_http_method(n.name@) {
            let m = method_nodes(rest).push(n);
            assert(m.drop_last() == method_nodes(rest));
            assert(m.last() == n);
        }
    }
}

/// A translated document has one entry per request node, in order, each
/// with the method its node is named after.
pub proof fn law_one_entry_per_request_node(nodes: Seq<KdlNode>, es: Seq<EntryView>)
    requires
        translate_view(nodes) == Ok::<Seq<EntryView>, ErrorView>(es),
    ensures
        es.len() == method_nodes(nodes).len(),
        forall|k: int| 0 <= k < es.len() ==> #[trigger] es[k].request.method == method_nodes(
            nodes,
        )[k].name@,
    decreases nodes.len(),
{
    if nodes.len() > 0 {
        let rest = nodes.drop_last();
        let n = nodes.last();
        match translate_view(rest) {
            Ok(prev) => {
                law_one_entry_per_request_node(rest, prev);
                if is_http_method(n.name@) {
                    let e = entry_view(n)->Ok_0;
                    assert(es == prev.push(e));
                    assert(e.request.method == n.name@);
                    assert forall|k: int| 0 <= k < es.len() implies #[trigger] es[k].request.method
                        == method_nodes(nodes)[k].name@ by {
                        if k < prev.len() {
                            assert(es[k] == prev[k]);
                        }
                    }
                }
            },
            Err(_) => {},
        }
    }
}

/// A document that translates gives each step name to one request node at most.
pub proof fn law_step_names_unique(nodes: Seq<KdlNode>)
    requires
        translate_view(nodes) is Ok,
    ensures
        forall|i: int, j: int|
            0 <= i < j < step_names(nodes).len() ==> step_names(nodes)[i] != step_names(
                nodes,
            )[j],
    decreases nodes.len(),
{
    if nodes.len() > 0 {
        let rest = nodes.drop_last();
        let n = nodes.last();
        law_step_names_unique(rest);
        let prev = step_names(rest);
        if is_http_method(n.name@) && step_name(n) is Some {
            let s = step_name(n)->0;
            assert(!prev.contains(s));
            let all = prev.push(s);
            assert forall|i: int, j: int| 0 <= i < j < all.len() implies all[i] != all[j] by {
                if j == prev.len() {
                    assert(all[i] == prev[i]);
                    assert(prev.contains(prev[i]));
                }
            }
        }
    }
}

/// A translated request whose entry is ok keeps the method it was named after.
pub proof fn law_entry_method(n: KdlNode)
    requires
        entry_view(n) is Ok,
    ensures
        entry_view(n)->Ok_0.request.method == n.name@,
        is_http_method(n.name@),
{
}

} // verus!
