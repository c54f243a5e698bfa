//! Requests: what a KDL request node stands for in a Hurl file.
use vstd::prelude::*;

use crate::formats::kdl::body::{body_view, translate_body};
use crate::formats::kdl::document::{
    argument_string, child_nodes, entry_string, entry_text, find_property, first_argument_string,
    first_argument, first_entry_string, first_entry_text, first_property, opt_chars,
    value_as_string, as_string, KdlEntry, KdlNode,
};
use crate::formats::kdl::error::{missing_field, ErrorView, TranslationError};
use crate::writer::ast::{
    Body, BytesView, Cookie, KeyValue, KeyValueView, Request, RequestView, Section, SectionValue,
    SectionView, key_values_view,
};
use crate::writer::source::template_source;
use crate::writer::helpers::{
    law_placeholder_template_round_trip, placeholder_template_view, simple_template, simple_template_view, template_with_placeholders,
};
use crate::writer::text::{concat2, str_equal};

verus! {

/// The HTTP methods a request node may be named after.
pub open spec fn is_http_method(name: Seq<char>) -> bool {
    ||| name == "GET"@
    ||| name == "POST"@
    ||| name == "PUT"@
    ||| name == "DELETE"@
    ||| name == "PATCH"@
    ||| name == "HEAD"@
    ||| name == "OPTIONS"@
    ||| name == "CONNECT"@
    ||| name == "TRACE"@
}

/// Whether `name` is one of the HTTP methods supported for request nodes.
pub fn is_valid_http_method(name: &str) -> (r: bool)
    ensures
        r == is_http_method(name@),
{
    str_equal(name, "GET") || str_equal(name, "POST") || str_equal(name, "PUT") || str_equal(
        name,
        "DELETE",
    ) || str_equal(name, "PATCH") || str_equal(name, "HEAD") || str_equal(name, "OPTIONS")
        || str_equal(name, "CONNECT") || str_equal(name, "TRACE")
}

/// The line `name: text of the first entry` for a child node.
pub open spec fn key_value_view(child: KdlNode) -> KeyValueView {
    KeyValueView {
        key: simple_template_view(child.name@),
        value: placeholder_template_view(first_entry_text(child)),
    }
}

/// One `name: text` line per child node.
pub open spec fn key_value_children_view(nodes: Seq<KdlNode>) -> Seq<KeyValueView> {
    nodes.map_values(|c: KdlNode| key_value_view(c))
}

/// One line per child node, leaving out the children named `file`.
pub open spec fn multipart_view(nodes: Seq<KdlNode>) -> Seq<KeyValueView>
    decreases nodes.len(),
{
    if nodes.len() == 0 {
        Seq::empty()
    } else if nodes.last().name@ == "file"@ {
        multipart_view(nodes.drop_last())
    } else {
        multipart_view(nodes.drop_last()).push(key_value_view(nodes.last()))
    }
}

/// A header line: the name of the child and its first entry, which must be a string.
pub open spec fn header_view(child: KdlNode) -> Result<KeyValueView, ErrorView> {
    match first_entry_string(child) {
        Some(v) => Ok(
            KeyValueView {
                key: simple_template_view(child.name@),
                value: placeholder_template_view(v),
            },
        ),
        None => Err(
            ErrorView::MissingRequiredField { node: "headers."@ + child.name@, field: "value"@ },
        ),
    }
}

/// The header lines of the children, or the error on the first that has no string.
pub open spec fn headers_view(nodes: Seq<KdlNode>) -> Result<Seq<KeyValueView>, ErrorView>
    decreases nodes.len(),
{
    if nodes.len() == 0 {
        Ok(Seq::empty())
    } else {
        match headers_view(nodes.drop_last()) {
            Err(e) => Err(e),
            Ok(hs) => match header_view(nodes.last()) {
                Ok(h) => Ok(hs.push(h)),
                Err(e) => Err(e),
            },
        }
    }
}

/// The `[BasicAuth]` line: made from the first child, if there is one.
pub open spec fn basic_auth_view(n: KdlNode) -> Option<KeyValueView> {
    if child_nodes(n).len() > 0 {
        Some(key_value_view(child_nodes(n)[0]))
    } else {
        None
    }
}

/// The headers, sections and body gathered from the children of a request node.
pub struct RequestParts {
    pub headers: Seq<KeyValueView>,
    pub sections: Seq<SectionView>,
    pub body: Option<BytesView>,
}

/// What one child of a request node adds: headers, a section or the body
/// (a later body replaces an earlier one); `expect` adds nothing.
pub open spec fn add_request_child(p: RequestParts, c: KdlNode) -> Result<RequestParts, ErrorView> {
    let name = c.name@;
    if name == "headers"@ {
        match headers_view(child_nodes(c)) {
            Ok(hs) => Ok(RequestParts { headers: p.headers + hs, ..p }),
            Err(e) => Err(e),
        }
    } else if name == "query"@ {
        Ok(
            RequestParts {
                sections: p.sections.push(
                    SectionView::QueryParams(key_value_children_view(child_nodes(c)), true),
                ),
                ..p
            },
        )
    } else if name == "form"@ {
        Ok(
            RequestParts {
                sections: p.sections.push(
                    SectionView::FormParams(key_value_children_view(child_nodes(c)), true),
                ),
                ..p
            },
        )
    } else if name == "multipart"@ {
        Ok(
            RequestParts {
                sections: p.sections.push(
                    SectionView::MultipartFormData(multipart_view(child_nodes(c)), true),
                ),
                ..p
            },
        )
    } else if name == "cookies"@ {
        Ok(
            RequestParts {
                sections: p.sections.push(
                    SectionView::Cookies(key_value_children_view(child_nodes(c))),
                ),
                ..p
            },
        )
    } else if name == "basic-auth"@ {
        Ok(RequestParts { sections: p.sections.push(SectionView::BasicAuth(basic_auth_view(c))), ..p })
    } else if name == "options"@ {
        Ok(RequestParts { sections: p.sections.push(SectionView::Options), ..p })
    } else if name == "body"@ {
        match body_view(c) {
            Ok(b) => Ok(RequestParts { body: Some(b), ..p }),
            Err(e) => Err(e),
        }
    } else if name == "expect"@ {
        Ok(p)
    } else {
        Err(ErrorView::InvalidStructure("unknown request section: "@ + name))
    }
}

/// The parts gathered from `children`, in order, or the first error.
pub open spec fn request_parts(children: Seq<KdlNode>) -> Result<RequestParts, ErrorView>
    decreases children.len(),
{
    if children.len() == 0 {
        Ok(RequestParts { headers: Seq::empty(), sections: Seq::empty(), body: None })
    } else {
        match request_parts(children.drop_last()) {
            Err(e) => Err(e),
            Ok(p) => add_request_child(p, children.last()),
        }
    }
}

/// The request a request node stands for: its name is the method, its first
/// argument the URL, and its children give headers, sections and body.
pub open spec fn request_view(n: KdlNode) -> Result<RequestView, ErrorView> {
    if !is_http_method(n.name@) {
        Err(ErrorView::InvalidMethod(n.name@))
    } else {
        match first_argument_string(n) {
            None => Err(ErrorView::MissingRequiredField { node: n.name@, field: "url"@ }),
            Some(url) => match request_parts(child_nodes(n)) {
                Err(e) => Err(e),
                Ok(p) => Ok(
                    RequestView {
                        method: n.name@,
                        url: placeholder_template_view(url),
                        headers: p.headers,
                        sections: p.sections,
                        body: p.body,
                    },
                ),
            },
        }
    }
}

/// Once a prefix of the children fails, all the children fail with the same error.
pub proof fn lemma_headers_view_stops(nodes: Seq<KdlNode>, k: int)
    requires
        0 <= k <= nodes.len(),
        headers_view(nodes.take(k)) is Err,
    ensures
        headers_view(nodes) == headers_view(nodes.take(k)),
    decreases nodes.len() - k,
{
    if k < nodes.len() {
        assert(nodes.take(k + 1).drop_last() == nodes.take(k));
        lemma_headers_view_stops(nodes, k + 1);
    } else {
        assert(nodes.take(k) == nodes);
    }
}

/// Once a prefix of the children fails, all the children fail with the same error.
pub proof fn lemma_request_parts_stops(nodes: Seq<KdlNode>, k: int)
    requires
        0 <= k <= nodes.len(),
        request_parts(nodes.take(k)) is Err,
    ensures
        request_parts(nodes) == request_parts(nodes.take(k)),
    decreases nodes.len() - k,
{
    if k < nodes.len() {
        assert(nodes.take(k + 1).drop_last() == nodes.take(k));
        lemma_request_parts_stops(nodes, k + 1);
    } else {
        assert(nodes.take(k) == nodes);
    }
}

/// The name of a step: the string of its first `name` property.
pub open spec fn step_name(n: KdlNode) -> Option<Seq<char>> {
    match first_property(n.entries@, "name"@) {
        Some(e) => value_as_string(e.value),
        None => None,
    }
}

/// The view of a result holding key-value lines.
pub open spec fn key_values_result_view(r: Result<Vec<KeyValue>, TranslationError>) -> Result<
    Seq<KeyValueView>,
    ErrorView,
> {
    match r {
        Ok(v) => Ok(key_values_view(v@)),
        Err(e) => Err(e@),
    }
}

/// Translates a KDL request node to a hurl Request.
///
/// Expected KDL structure:
/// ```kdl
/// GET "https://example.com" name="step" {
///     headers { ... }
///     query { ... }
///     form { ... }
///     cookies { ... }
///     basic-auth { ... }
///     options { ... }
///     body json { ... }
/// }
/// ```
///
/// # Errors
///
/// Returns an error if the request structure is invalid.
pub fn translate_request(node: &KdlNode) -> (r: Result<Request, TranslationError>)
    ensures
        match r {
            Ok(req) => request_view(*node) == Ok::<RequestView, ErrorView>(req@),
            Err(e) => request_view(*node) == Err::<RequestView, ErrorView>(e@),
        },
{
    if !is_valid_http_method(node.name.as_str()) {
        return Err(TranslationError::InvalidMethod(node.name.clone()));
    }
    let url = match argument_string(node) {
        Some(u) => u,
        None => {
            proof {
                reveal_strlit("url");
            }
            return Err(missing_field(node.name.clone(), "url"));
        },
    };
    let mut headers: Vec<KeyValue> = Vec::new();
    let mut sections: Vec<Section> = Vec::new();
    let mut body: Option<Body> = None;
    assert(key_values_view(headers@) =~= Seq::<KeyValueView>::empty());
    assert(sections@.map_values(|s: Section| s@) =~= Seq::<SectionView>::empty());
    if let Some(children) = &node.children {
        let nodes = &children.nodes;
        let mut i: usize = 0;
        assert(nodes@.take(0) == Seq::<KdlNode>::empty());
        while i < nodes.len()
            invariant
                i <= nodes.len(),
                nodes@ == child_nodes(*node),
                is_http_method(node.name@),
                first_argument_string(*node) == Some(url@),
                request_parts(nodes@.take(i as int)) == Ok::<RequestParts, ErrorView>(
                    RequestParts {
                        headers: key_values_view(headers@),
                        sections: sections@.map_values(|s: Section| s@),
                        body: match body {
                            Some(b) => Some(b@),
                            None => None,
                        },
                    },
                ),
            decreases nodes.len() - i,
        {
            let child = &nodes[i];
            assert(nodes@.take(i + 1).drop_last() == nodes@.take(i as int));
            assert(nodes@.take(i + 1).last() == nodes@[i as int]);
            let ghost old_sections = sections@;
            let name = child.name.as_str();
            if str_equal(name, "headers") {
                match translate_headers(child) {
                    Ok(mut hs) => {
                        let ghost old_headers = headers@;
                        let ghost added = hs@;
                        headers.append(&mut hs);
                        assert(key_values_view(headers@) =~= key_values_view(old_headers)
                            + key_values_view(added));
                    },
                    Err(e) => {
                        proof {
                            lemma_request_parts_stops(nodes@, i + 1);
                        }
                        return Err(e);
                    },
                }
            } else if str_equal(name, "query") {
                sections.push(translate_query_section(child));
            } else if str_equal(name, "form") {
                sections.push(translate_form_section(child));
            } else if str_equal(name, "multipart") {
                sections.push(translate_multipart_section(child));
            } else if str_equal(name, "cookies") {
                sections.push(translate_cookies_section(child));
            } else if str_equal(name, "basic-auth") {
                sections.push(translate_basic_auth_section(child));
            } else if str_equal(name, "options") {
                sections.push(translate_options_section(child));
            } else if str_equal(name, "body") {
                match translate_body(child) {
                    Ok(b) => {
                        body = Some(b);
                    },
                    Err(e) => {
                        proof {
                            lemma_request_parts_stops(nodes@, i + 1);
                        }
                        return Err(e);
                    },
                }
            } else if str_equal(name, "expect") {
            } else {
                proof {
                    lemma_request_parts_stops(nodes@, i + 1);
                }
                return Err(
                    TranslationError::InvalidStructure(concat2("unknown request section: ", name)),
                );
            }
            assert(sections@.map_values(|s: Section| s@) =~= if sections@.len() == old_sections.len() {
                old_sections.map_values(|s: Section| s@)
            } else {
                old_sections.map_values(|s: Section| s@).push(sections@.last()@)
            });
            i += 1;
        }
        assert(nodes@.take(nodes.len() as int) == nodes@);
    }
    Ok(
        Request {
            method: node.name.clone(),
            url: template_with_placeholders(url.as_str()),
            headers,
            sections,
            body,
        },
    )
}

/// Translates headers from a KDL node.
fn translate_headers(node: &KdlNode) -> (r: Result<Vec<KeyValue>, TranslationError>)
    ensures
        key_values_result_view(r) == headers_view(child_nodes(*node)),
{
    let mut headers: Vec<KeyValue> = Vec::new();
    assert(key_values_view(headers@) =~= Seq::<KeyValueView>::empty());
    if let Some(children) = &node.children {
        let nodes = &children.nodes;
        let mut i: usize = 0;
        assert(nodes@.take(0) == Seq::<KdlNode>::empty());
        while i < nodes.len()
            invariant
                i <= nodes.len(),
                nodes@ == child_nodes(*node),
                headers_view(nodes@.take(i as int)) == Ok::<Seq<KeyValueView>, ErrorView>(
                    key_values_view(headers@),
                ),
            decreases nodes.len() - i,
        {
            let child = &nodes[i];
            assert(nodes@.take(i + 1).drop_last() == nodes@.take(i as int));
            assert(nodes@.take(i + 1).last() == nodes@[i as int]);
            let key = child.name.as_str();
            let value = match entry_string(child) {
                Some(v) => v,
                None => {
                    proof {
                        reveal_strlit("value");
                        lemma_headers_view_stops(nodes@, i + 1);
                    }
                    return Err(missing_field(concat2("headers.", key), "value"));
                },
            };
            let ghost before = headers@;
            let kv = KeyValue {
                key: simple_template(key),
                value: template_with_placeholders(value.as_str()),
            };
            assert(header_view(nodes@[i as int]) == Ok::<KeyValueView, ErrorView>(kv@));
            headers.push(kv);
            assert(key_values_view(headers@) =~= key_values_view(before).push(kv@));
            i += 1;
        }
        assert(nodes@.take(nodes.len() as int) == nodes@);
    }
    Ok(headers)
}

fn key_value_of(child: &KdlNode) -> (r: KeyValue)
    ensures
        r@ == key_value_view(*child),
{
    let value = entry_text(child);
    KeyValue {
        key: simple_template(child.name.as_str()),
        value: template_with_placeholders(value.as_str()),
    }
}

/// Translates children nodes to key-value pairs.
fn translate_key_value_children(node: &KdlNode) -> (r: Vec<KeyValue>)
    ensures
        key_values_view(r@) == key_value_children_view(child_nodes(*node)),
{
    let mut params: Vec<KeyValue> = Vec::new();
    if let Some(children) = &node.children {
        let nodes = &children.nodes;
        let mut i: usize = 0;
        while i < nodes.len()
            invariant
                i <= nodes.len(),
                key_values_view(params@) =~= key_value_children_view(nodes@.take(i as int)),
            decreases nodes.len() - i,
        {
            let ghost before = params@;
            params.push(key_value_of(&nodes[i]));
            assert(nodes@.take(i + 1) == nodes@.take(i as int).push(nodes@[i as int]));
            assert(key_value_children_view(nodes@.take(i + 1)) =~= key_value_children_view(
                nodes@.take(i as int),
            ).push(key_value_view(nodes@[i as int])));
            assert(key_values_view(params@) =~= key_values_view(before).push(params@.last()@));
            i += 1;
        }
        assert(nodes@.take(nodes.len() as int) == nodes@);
    } else {
        assert(key_value_children_view(child_nodes(*node)) =~= Seq::<KeyValueView>::empty());
        assert(key_values_view(params@) =~= Seq::<KeyValueView>::empty());
    }
    params
}

/// Translates a query section.
fn translate_query_section(node: &KdlNode) -> (r: Section)
    ensures
        r@ == SectionView::QueryParams(key_value_children_view(child_nodes(*node)), true),
{
    Section { value: SectionValue::QueryParams(translate_key_value_children(node), true) }
}

/// Translates a form section.
fn translate_form_section(node: &KdlNode) -> (r: Section)
    ensures
        r@ == SectionView::FormParams(key_value_children_view(child_nodes(*node)), true),
{
    Section { value: SectionValue::FormParams(translate_key_value_children(node), true) }
}

/// Translates a multipart section; file parameters are left out.
fn translate_multipart_section(node: &KdlNode) -> (r: Section)
    ensures
        r@ == SectionView::MultipartFormData(multipart_view(child_nodes(*node)), true),
{
    let mut params: Vec<KeyValue> = Vec::new();
    if let Some(children) = &node.children {
        let nodes = &children.nodes;
        let mut i: usize = 0;
        while i < nodes.len()
            invariant
                i <= nodes.len(),
                key_values_view(params@) =~= multipart_view(nodes@.take(i as int)),
            decreases nodes.len() - i,
        {
            let child = &nodes[i];
            assert(nodes@.take(i + 1).drop_last() == nodes@.take(i as int));
            assert(nodes@.take(i + 1).last() == nodes@[i as int]);
            let ghost before = params@;
            if !str_equal(child.name.as_str(), "file") {
                params.push(key_value_of(child));
                assert(key_values_view(params@) =~= key_values_view(before).push(
                    params@.last()@,
                ));
            }
            i += 1;
        }
        assert(nodes@.take(nodes.len() as int) == nodes@);
    } else {
        assert(multipart_view(child_nodes(*node)) =~= Seq::<KeyValueView>::empty());
        assert(key_values_view(params@) =~= Seq::<KeyValueView>::empty());
    }
    Section { value: SectionValue::MultipartFormData(params, true) }
}

/// Translates a cookies section.
fn translate_cookies_section(node: &KdlNode) -> (r: Section)
    ensures
        r@ == SectionView::Cookies(key_value_children_view(child_nodes(*node))),
{
    let mut cookies: Vec<Cookie> = Vec::new();
    if let Some(children) = &node.children {
        let nodes = &children.nodes;
        let mut i: usize = 0;
        while i < nodes.len()
            invariant
                i <= nodes.len(),
                cookies@.map_values(|c: Cookie| c@) =~= key_value_children_view(
                    nodes@.take(i as int),
                ),
            decreases nodes.len() - i,
        {
            let kv = key_value_of(&nodes[i]);
            let ghost before = cookies@;
            cookies.push(Cookie { name: kv.key, value: kv.value });
            assert(nodes@.take(i + 1) == nodes@.take(i as int).push(nodes@[i as int]));
            assert(key_value_children_view(nodes@.take(i + 1)) =~= key_value_children_view(
                nodes@.take(i as int),
            ).push(key_value_view(nodes@[i as int])));
            assert(cookies@.map_values(|c: Cookie| c@) =~= before.map_values(|c: Cookie| c@).push(
                cookies@.last()@,
            ));
            i += 1;
        }
        assert(nodes@.take(nodes.len() as int) == nodes@);
    } else {
        assert(key_value_children_view(child_nodes(*node)) =~= Seq::<KeyValueView>::empty());
        assert(cookies@.map_values(|c: Cookie| c@) =~= Seq::<KeyValueView>::empty());
    }
    Section { value: SectionValue::Cookies(cookies) }
}

/// Translates a basic-auth section.
fn translate_basic_auth_section(node: &KdlNode) -> (r: Section)
    ensures
        r@ == SectionView::BasicAuth(basic_auth_view(*node)),
{
    let kv = match &node.children {
        Some(children) => if children.nodes.len() > 0 {
            Some(key_value_of(&children.nodes[0]))
        } else {
            None
        },
        None => None,
    };
    Section { value: SectionValue::BasicAuth(kv) }
}

/// Translates an options section; options are not translated, so the section is empty.
fn translate_options_section(_node: &KdlNode) -> (r: Section)
    ensures
        r@ == SectionView::Options,
{
    Section { value: SectionValue::Options }
}

/// Extracts the step name from a request node (from the `name="..."` property).
pub fn get_step_name(node: &KdlNode) -> (r: Option<String>)
    ensures
        opt_chars(r) == step_name(*node),
{
    proof {
        reveal_strlit("name");
    }
    match find_property(&node.entries, "name") {
        Some(i) => as_string(&node.entries[i].value),
        None => None,
    }
}

/// The first argument of a request node, wherever it stands among the
/// properties, is its URL: when it is a string `u`, the request is built
/// with URL `u` (which reads back as `u`), or fails only for what its
/// children say.
pub proof fn law_url_is_first_argument(n: KdlNode, i: int, u: Seq<char>)
    requires
        is_http_method(n.name@),
        0 <= i < n.entries.len(),
        n.entries@[i].name is None,
        forall|j: int| 0 <= j < i ==> #[trigger] n.entries@[j].name is Some,
        value_as_string(n.entries@[i].value) == Some(u),
    ensures
        request_view(n) == match request_parts(child_nodes(n)) {
            Err(e) => Err::<RequestView, ErrorView>(e),
            Ok(p) => Ok(
                RequestView {
                    method: n.name@,
                    url: placeholder_template_view(u),
                    headers: p.headers,
                    sections: p.sections,
                    body: p.body,
                },
            ),
        },
        template_source(placeholder_template_view(u)) == u,
{
    lemma_first_argument_at(n.entries@, i);
    law_placeholder_template_round_trip(u);
}

/// The first argument among `es` is the entry at `i` when it is the first
/// entry without a name.
pub proof fn lemma_first_argument_at(es: Seq<KdlEntry>, i: int)
    requires
        0 <= i < es.len(),
        es[i].name is None,
        forall|j: int| 0 <= j < i ==> #[trigger] es[j].name is Some,
    ensures
        first_argument(es) == Some(es[i]),
    decreases i,
{
    if i > 0 {
        assert(es[0].name is Some);
        assert forall|j: int| 0 <= j < i - 1 implies #[trigger] es.drop_first()[j].name is Some by {
            assert(es.drop_first()[j] == es[j + 1]);
        }
        lemma_first_argument_at(es.drop_first(), i - 1);
    }
}

} // verus!
