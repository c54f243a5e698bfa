//! Responses: what an `expect` node stands for in a Hurl file.
use vstd::prelude::*;

use crate::formats::kdl::document::{
    as_string, child_nodes, entry_string, first_entry_string, value_as_string, KdlEntry, KdlNode,
    KdlValue,
};
use crate::formats::kdl::error::{missing_field, ErrorView, TranslationError};
use crate::formats::kdl::request::{key_value_children_view, key_value_view};
use crate::writer::ast::{
    Assert, AssertView, Capture, CaptureView, Check, Comparison, KeyValue, KeyValueView, Number,
    Predicate, PredicateFuncValue, PredicateFuncView, PredicateView, PredicateValue, PredicateValueView, Query,
    QueryValue, QueryView, Response, ResponseView, Section, SectionValue, SectionView, Status,
    StatusValue, Version, VersionValue, key_values_view,
};
use crate::writer::helpers::{
    law_simple_template_round_trip, placeholder_template_view, simple_template,
    simple_template_view, template_with_placeholders,
};
use crate::writer::serializer::{predicate_text, predicate_value_text, version_text};
use crate::writer::source::template_source;
use crate::writer::text::{
    concat2, concat3, contains_open_braces, decimal_int, decimal_nat, has_open_braces,
    i128_to_decimal, owned, str_equal, u128_to_decimal,
};

verus! {

/// The words that stand for an operator in an assert.
pub open spec fn operator_word(s: Seq<char>) -> bool {
    ||| s == "=="@
    ||| s == "!="@
    ||| s == ">"@
    ||| s == ">="@
    ||| s == "<"@
    ||| s == "<="@
    ||| s == "startsWith"@
    ||| s == "endsWith"@
    ||| s == "contains"@
    ||| s == "matches"@
}

/// The words that name a predicate without a value.
pub open spec fn predicate_word(s: Seq<char>) -> bool {
    ||| s == "exists"@
    ||| s == "isBoolean"@
    ||| s == "isEmpty"@
    ||| s == "isFloat"@
    ||| s == "isInteger"@
    ||| s == "isNumber"@
    ||| s == "isString"@
    ||| s == "isCollection"@
    ||| s == "isDate"@
    ||| s == "isIsoDate"@
}

/// Whether `s` is an operator word.
pub fn is_operator(s: &str) -> (r: bool)
    ensures
        r == operator_word(s@),
{
    str_equal(s, "==") || str_equal(s, "!=") || str_equal(s, ">") || str_equal(s, ">=")
        || str_equal(s, "<") || str_equal(s, "<=") || str_equal(s, "startsWith") || str_equal(
        s,
        "endsWith",
    ) || str_equal(s, "contains") || str_equal(s, "matches")
}

/// Whether `s` names a predicate that takes no value.
pub fn is_predicate_name(s: &str) -> (r: bool)
    ensures
        r == predicate_word(s@),
{
    str_equal(s, "exists") || str_equal(s, "isBoolean") || str_equal(s, "isEmpty") || str_equal(
        s,
        "isFloat",
    ) || str_equal(s, "isInteger") || str_equal(s, "isNumber") || str_equal(s, "isString")
        || str_equal(s, "isCollection") || str_equal(s, "isDate") || str_equal(s, "isIsoDate")
}

/// The status a `status` node requires: its first entry, an integer that
/// fits a `u64`; anything but an integer means any status.
pub open spec fn status_view(n: KdlNode) -> Result<StatusValue, ErrorView> {
    if n.entries.len() == 0 {
        Err(ErrorView::MissingRequiredField { node: "status"@, field: "value"@ })
    } else {
        match n.entries@[0].value {
            KdlValue::Integer(i) => if 0 <= i <= u64::MAX {
                Ok(StatusValue::Specific(i as u64))
            } else {
                Err(
                    ErrorView::InvalidStructure(
                        "status code must be a non-negative integer between 0 and "@
                            + decimal_nat(u64::MAX as nat) + ", got: "@ + decimal_int(i as int),
                    ),
                )
            },
            _ => Ok(StatusValue::Any),
        }
    }
}

/// The version a `version` node requires; anything unknown means any version.
pub open spec fn version_view(n: KdlNode) -> VersionValue {
    match first_entry_string(n) {
        Some(v) => if v == "HTTP/1.0"@ {
            VersionValue::Version1
        } else if v == "HTTP/1.1"@ {
            VersionValue::Version11
        } else if v == "HTTP/2"@ {
            VersionValue::Version2
        } else if v == "HTTP/3"@ {
            VersionValue::Version3
        } else {
            VersionValue::VersionAny
        },
        None => VersionValue::VersionAny,
    }
}

/// The query a query type names, with `arg` its argument when it takes one.
pub open spec fn query_view(query_type: Seq<char>, arg: Option<Seq<char>>) -> Result<
    QueryView,
    ErrorView,
> {
    if query_type == "jsonpath"@ {
        match arg {
            Some(e) => Ok(QueryView::Jsonpath(simple_template_view(e))),
            None => Err(
                ErrorView::MissingRequiredField { node: "capture"@, field: "jsonpath expression"@ },
            ),
        }
    } else if query_type == "xpath"@ {
        match arg {
            Some(e) => Ok(QueryView::Xpath(simple_template_view(e))),
            None => Err(
                ErrorView::MissingRequiredField { node: "capture"@, field: "xpath expression"@ },
            ),
        }
    } else if query_type == "header"@ {
        match arg {
            Some(e) => Ok(QueryView::Header(simple_template_view(e))),
            None => Err(ErrorView::MissingRequiredField { node: "capture"@, field: "header name"@ }),
        }
    } else if query_type == "cookie"@ {
        match arg {
            Some(e) => Ok(QueryView::Cookie(simple_template_view(e))),
            None => Err(ErrorView::MissingRequiredField { node: "capture"@, field: "cookie name"@ }),
        }
    } else if query_type == "regex"@ {
        match arg {
            Some(e) => Ok(QueryView::Regex(simple_template_view(e))),
            None => Err(
                ErrorView::MissingRequiredField { node: "capture"@, field: "regex pattern"@ },
            ),
        }
    } else if query_type == "body"@ {
        Ok(QueryView::Body)
    } else if query_type == "status"@ {
        Ok(QueryView::Status)
    } else if query_type == "url"@ {
        Ok(QueryView::Url)
    } else if query_type == "duration"@ {
        Ok(QueryView::Duration)
    } else if query_type == "version"@ {
        Ok(QueryView::Version)
    } else {
        Err(ErrorView::InvalidStructure("unknown query type: "@ + query_type))
    }
}

/// The string of the second entry of a node, if it is one.
pub open spec fn second_entry_string(n: KdlNode) -> Option<Seq<char>> {
    if n.entries.len() > 1 {
        value_as_string(n.entries@[1].value)
    } else {
        None
    }
}

/// The name a capture gets: prefixed by the step name and a dot in a named step.
pub open spec fn capture_name(step: Option<Seq<char>>, var: Seq<char>) -> Seq<char> {
    match step {
        Some(s) => s + seq!['.'] + var,
        None => var,
    }
}

/// The capture a child of `captures` stands for: its name is the variable,
/// its first entry the query type and its second the query's argument.
pub open spec fn capture_view(c: KdlNode, step: Option<Seq<char>>) -> Result<CaptureView, ErrorView> {
    match first_entry_string(c) {
        None => Err(
            ErrorView::MissingRequiredField { node: "capture."@ + c.name@, field: "query_type"@ },
        ),
        Some(qt) => match query_view(qt, second_entry_string(c)) {
            Ok(q) => Ok(
                CaptureView { name: simple_template_view(capture_name(step, c.name@)), query: q },
            ),
            Err(e) => Err(e),
        },
    }
}

/// The captures of the children, or the first error.
pub open spec fn captures_view(nodes: Seq<KdlNode>, step: Option<Seq<char>>) -> Result<
    Seq<CaptureView>,
    ErrorView,
>
    decreases nodes.len(),
{
    if nodes.len() == 0 {
        Ok(Seq::empty())
    } else {
        match captures_view(nodes.drop_last(), step) {
            Err(e) => Err(e),
            Ok(cs) => match capture_view(nodes.last(), step) {
                Ok(c) => Ok(cs.push(c)),
                Err(e) => Err(e),
            },
        }
    }
}

/// The comparison an operator names, with the message for a missing value.
pub open spec fn comparison_of(op: Seq<char>) -> Option<(Comparison, Seq<char>)> {
    if op == "=="@ || op == "equals"@ {
        Some((Comparison::Equal, "equals requires a value"@))
    } else if op == "!="@ || op == "notEquals"@ {
        Some((Comparison::NotEqual, "notEquals requires a value"@))
    } else if op == ">"@ || op == "greaterThan"@ {
        Some((Comparison::GreaterThan, "greaterThan requires a value"@))
    } else if op == ">="@ || op == "greaterThanOrEquals"@ {
        Some((Comparison::GreaterThanOrEqual, "greaterThanOrEquals requires a value"@))
    } else if op == "<"@ || op == "lessThan"@ {
        Some((Comparison::LessThan, "lessThan requires a value"@))
    } else if op == "<="@ || op == "lessThanOrEquals"@ {
        Some((Comparison::LessThanOrEqual, "lessThanOrEquals requires a value"@))
    } else if op == "startsWith"@ {
        Some((Comparison::StartWith, "startsWith requires a value"@))
    } else if op == "endsWith"@ {
        Some((Comparison::EndWith, "endsWith requires a value"@))
    } else if op == "contains"@ {
        Some((Comparison::Contain, "contains requires a value"@))
    } else if op == "matches"@ {
        Some((Comparison::Match, "matches requires a value"@))
    } else {
        None
    }
}

/// The test a predicate word names.
pub open spec fn check_of(op: Seq<char>) -> Option<Check> {
    if op == "exists"@ {
        Some(Check::Exist)
    } else if op == "isBoolean"@ {
        Some(Check::IsBoolean)
    } else if op == "isEmpty"@ {
        Some(Check::IsEmpty)
    } else if op == "isFloat"@ {
        Some(Check::IsFloat)
    } else if op == "isInteger"@ {
        Some(Check::IsInteger)
    } else if op == "isNumber"@ {
        Some(Check::IsNumber)
    } else if op == "isString"@ {
        Some(Check::IsString)
    } else if op == "isCollection"@ {
        Some(Check::IsCollection)
    } else if op == "isDate"@ {
        Some(Check::IsDate)
    } else if op == "isIsoDate"@ {
        Some(Check::IsIsoDate)
    } else {
        None
    }
}

/// The value a predicate compares with: strings become templates (with
/// placeholders when they hold `{{`), integers must fit an `i64`.
pub open spec fn predicate_value_view(v: KdlValue) -> Result<PredicateValueView, ErrorView> {
    match v {
        KdlValue::String(s) => Ok(
            PredicateValueView::String(
                if has_open_braces(s@) {
                    placeholder_template_view(s@)
                } else {
                    simple_template_view(s@)
                },
            ),
        ),
        KdlValue::Integer(i) => if i64::MIN <= i <= i64::MAX {
            Ok(PredicateValueView::Integer(i as i64))
        } else {
            Err(
                ErrorView::InvalidPredicate(
                    "integer value "@ + decimal_int(i as int)
                        + " is outside the valid range for i64 ("@ + decimal_int(i64::MIN as int)
                        + " to "@ + decimal_int(i64::MAX as int) + ")"@,
                ),
            )
        },
        KdlValue::Float(f) => Ok(PredicateValueView::Float(f@)),
        KdlValue::Bool(b) => Ok(PredicateValueView::Bool(b)),
        KdlValue::Null => Ok(PredicateValueView::Null),
    }
}

/// The predicate an operator names, applied to `value`.
pub open spec fn predicate_func_view(op: Seq<char>, value: Option<KdlValue>) -> Result<
    PredicateFuncView,
    ErrorView,
> {
    match comparison_of(op) {
        Some((kind, missing)) => match value {
            None => Err(ErrorView::InvalidPredicate(missing)),
            Some(v) => match predicate_value_view(v) {
                Ok(pv) => Ok(PredicateFuncView::Compare(kind, pv)),
                Err(e) => Err(e),
            },
        },
        None => match check_of(op) {
            Some(c) => Ok(PredicateFuncView::Test(c)),
            None => Err(ErrorView::InvalidPredicate("unknown predicate: "@ + op)),
        },
    }
}

/// What the entries of an assert say so far: negated, the operator, the value.
pub struct PredicateParts {
    pub not: bool,
    pub op: Option<Seq<char>>,
    pub value: Option<KdlValue>,
}

/// What one entry adds: a `not` property negates; another property gives
/// the operator and the value; an operator or predicate word gives the
/// operator; anything else gives the value. Later entries win.
pub open spec fn add_predicate_entry(p: PredicateParts, e: KdlEntry) -> PredicateParts {
    match e.name {
        Some(n) => if n@ == "not"@ {
            PredicateParts { not: true, ..p }
        } else {
            PredicateParts { op: Some(n@), value: Some(e.value), ..p }
        },
        None => match value_as_string(e.value) {
            Some(s) => if operator_word(s) || predicate_word(s) {
                PredicateParts { op: Some(s), ..p }
            } else {
                PredicateParts { value: Some(e.value), ..p }
            },
            None => PredicateParts { value: Some(e.value), ..p },
        },
    }
}

/// What the entries say, read in order.
pub open spec fn predicate_parts(es: Seq<KdlEntry>) -> PredicateParts
    decreases es.len(),
{
    if es.len() == 0 {
        PredicateParts { not: false, op: None, value: None }
    } else {
        add_predicate_entry(predicate_parts(es.drop_last()), es.last())
    }
}

/// The predicate of an assert's entries; without an operator it checks existence.
pub open spec fn predicate_view(es: Seq<KdlEntry>) -> Result<
    crate::writer::ast::PredicateView,
    ErrorView,
> {
    let p = predicate_parts(es);
    match p.op {
        Some(op) => match predicate_func_view(op, p.value) {
            Ok(f) => Ok(crate::writer::ast::PredicateView { not: p.not, func: f }),
            Err(e) => Err(e),
        },
        None => Ok(crate::writer::ast::PredicateView { not: p.not, func: PredicateFuncView::Test(Check::Exist) }),
    }
}

/// Whether an assert on this query type takes no argument.
pub open spec fn argumentless_query(query_type: Seq<char>) -> bool {
    query_type == "status"@ || query_type == "duration"@ || query_type == "version"@
}

/// The assert a child of `asserts` stands for: its name is the query type;
/// unless the query takes no argument, the first entry is that argument and
/// the rest describe the predicate.
pub open spec fn assert_view(c: KdlNode) -> Result<AssertView, ErrorView> {
    let qt = c.name@;
    let es = c.entries@;
    let (query, pred_entries) = if argumentless_query(qt) {
        (query_view(qt, None), es)
    } else {
        (query_view(qt, first_entry_string(c)), if es.len() > 1 {
            es.subrange(1, es.len() as int)
        } else {
            Seq::empty()
        })
    };
    match query {
        Err(e) => Err(e),
        Ok(q) => match predicate_view(pred_entries) {
            Ok(p) => Ok(AssertView { query: q, predicate: p }),
            Err(e) => Err(e),
        },
    }
}

/// The asserts of the children, or the first error.
pub open spec fn asserts_view(nodes: Seq<KdlNode>) -> Result<Seq<AssertView>, ErrorView>
    decreases nodes.len(),
{
    if nodes.len() == 0 {
        Ok(Seq::empty())
    } else {
        match asserts_view(nodes.drop_last()) {
            Err(e) => Err(e),
            Ok(asserts) => match assert_view(nodes.last()) {
                Ok(a) => Ok(asserts.push(a)),
                Err(e) => Err(e),
            },
        }
    }
}

/// What one child of an `expect` node sets or adds.
pub open spec fn add_expect_child(r: ResponseView, c: KdlNode, step: Option<Seq<char>>) -> Result<
    ResponseView,
    ErrorView,
> {
    let name = c.name@;
    if name == "status"@ {
        match status_view(c) {
            Ok(s) => Ok(ResponseView { status: s, ..r }),
            Err(e) => Err(e),
        }
    } else if name == "version"@ {
        Ok(ResponseView { version: version_view(c), ..r })
    } else if name == "headers"@ {
        Ok(ResponseView { headers: r.headers + key_value_children_view(child_nodes(c)), ..r })
    } else if name == "captures"@ {
        match captures_view(child_nodes(c), step) {
            Ok(cs) => Ok(ResponseView { sections: r.sections.push(SectionView::Captures(cs)), ..r }),
            Err(e) => Err(e),
        }
    } else if name == "asserts"@ {
        match asserts_view(child_nodes(c)) {
            Ok(asserts) => Ok(
                ResponseView { sections: r.sections.push(SectionView::Asserts(asserts)), ..r },
            ),
            Err(e) => Err(e),
        }
    } else {
        Err(ErrorView::InvalidStructure("unknown expect section: "@ + name))
    }
}

/// The response the children describe, read in order, or the first error.
pub open spec fn expect_children(nodes: Seq<KdlNode>, step: Option<Seq<char>>) -> Result<
    ResponseView,
    ErrorView,
>
    decreases nodes.len(),
{
    if nodes.len() == 0 {
        Ok(
            ResponseView {
                version: VersionValue::VersionAny,
                status: StatusValue::Any,
                headers: Seq::empty(),
                sections: Seq::empty(),
            },
        )
    } else {
        match expect_children(nodes.drop_last(), step) {
            Err(e) => Err(e),
            Ok(r) => add_expect_child(r, nodes.last(), step),
        }
    }
}

/// The response an `expect` node describes, within a step named `step` if any.
pub open spec fn response_view(n: KdlNode, step: Option<Seq<char>>) -> Result<ResponseView, ErrorView> {
    expect_children(child_nodes(n), step)
}

/// The characters of an optional string slice.
pub open spec fn opt_str_chars(o: Option<&str>) -> Option<Seq<char>> {
    match o {
        Some(s) => Some(s@),
        None => None,
    }
}

pub proof fn lemma_captures_view_stops(nodes: Seq<KdlNode>, step: Option<Seq<char>>, k: int)
    requires
        0 <= k <= nodes.len(),
        captures_view(nodes.take(k), step) is Err,
    ensures
        captures_view(nodes, step) == captures_view(nodes.take(k), step),
    decreases nodes.len() - k,
{
    if k < nodes.len() {
        assert(nodes.take(k + 1).drop_last() == nodes.take(k));
        lemma_captures_view_stops(nodes, step, k + 1);
    } else {
        assert(nodes.take(k) == nodes);
    }
}

pub proof fn lemma_asserts_view_stops(nodes: Seq<KdlNode>, k: int)
    requires
        0 <= k <= nodes.len(),
        asserts_view(nodes.take(k)) is Err,
    ensures
        asserts_view(nodes) == asserts_view(nodes.take(k)),
    decreases nodes.len() - k,
{
    if k < nodes.len() {
        assert(nodes.take(k + 1).drop_last() == nodes.take(k));
        lemma_asserts_view_stops(nodes, k + 1);
    } else {
        assert(nodes.take(k) == nodes);
    }
}

pub proof fn lemma_expect_children_stops(nodes: Seq<KdlNode>, step: Option<Seq<char>>, k: int)
    requires
        0 <= k <= nodes.len(),
        expect_children(nodes.take(k), step) is Err,
    ensures
        expect_children(nodes, step) == expect_children(nodes.take(k), step),
    decreases nodes.len() - k,
{
    if k < nodes.len() {
        assert(nodes.take(k + 1).drop_last() == nodes.take(k));
        lemma_expect_children_stops(nodes, step, k + 1);
    } else {
        assert(nodes.take(k) == nodes);
    }
}

/// Translates an expect node to a hurl Response.
pub fn translate_response(node: &KdlNode, step_name: Option<&str>) -> (r: Result<
    Response,
    TranslationError,
>)
    ensures
        match r {
            Ok(resp) => response_view(*node, opt_str_chars(step_name)) == Ok::<
                ResponseView,
                ErrorView,
            >(resp@),
            Err(e) => response_view(*node, opt_str_chars(step_name)) == Err::<ResponseView, ErrorView>(
                e@,
            ),
        },
{
    let ghost step = opt_str_chars(step_name);
    let mut status = Status { value: StatusValue::Any };
    let mut version = Version { value: VersionValue::VersionAny };
    let mut headers: Vec<KeyValue> = Vec::new();
    let mut sections: Vec<Section> = Vec::new();
    assert(key_values_view(headers@) =~= Seq::<KeyValueView>::empty());
    assert(sections@.map_values(|s: Section| s@) =~= Seq::<SectionView>::empty());
    if let Some(children) = &node.children {
        let nodes = &children.nodes;
        let mut i: usize = 0;
        assert(nodes@.take(0) == Seq::<KdlNode>::empty());
        while i < nodes.len()
            invariant
                i <= nodes.len(),
                nodes@ == child_nodes(*node),
                step == opt_str_chars(step_name),
                expect_children(nodes@.take(i as int), step) == Ok::<ResponseView, ErrorView>(
                    ResponseView {
                        version: version.value,
                        status: status.value,
                        headers: key_values_view(headers@),
                        sections: sections@.map_values(|s: Section| s@),
                    },
                ),
            decreases nodes.len() - i,
        {
            let child = &nodes[i];
            assert(nodes@.take(i + 1).drop_last() == nodes@.take(i as int));
            assert(nodes@.take(i + 1).last() == nodes@[i as int]);
            let ghost old_sections = sections@;
            let name = child.name.as_str();
            if str_equal(name, "status") {
                match translate_status(child) {
                    Ok(s) => {
                        status = s;
                    },
                    Err(e) => {
                        proof {
                            lemma_expect_children_stops(nodes@, step, i + 1);
                        }
                        return Err(e);
                    },
                }
            } else if str_equal(name, "version") {
                version = translate_version(child);
            } else if str_equal(name, "headers") {
                let mut hs = translate_response_headers(child);
                let ghost old_headers = headers@;
                let ghost added = hs@;
                headers.append(&mut hs);
                assert(key_values_view(headers@) =~= key_values_view(old_headers)
                    + key_values_view(added));
            } else if str_equal(name, "captures") {
                match translate_captures_section(child, step_name) {
                    Ok(s) => {
                        sections.push(s);
                    },
                    Err(e) => {
                        proof {
                            lemma_expect_children_stops(nodes@, step, i + 1);
                        }
                        return Err(e);
                    },
                }
            } else if str_equal(name, "asserts") {
                match translate_asserts_section(child) {
                    Ok(s) => {
                        sections.push(s);
                    },
                    Err(e) => {
                        proof {
                            lemma_expect_children_stops(nodes@, step, i + 1);
                        }
                        return Err(e);
                    },
                }
            } else {
                proof {
                    lemma_expect_children_stops(nodes@, step, i + 1);
                }
                return Err(
                    TranslationError::InvalidStructure(concat2("unknown expect section: ", name)),
                );
            }
            assert(sections@.map_values(|s: Section| s@) =~= if sections@.len()
                == old_sections.len() {
                old_sections.map_values(|s: Section| s@)
            } else {
                old_sections.map_values(|s: Section| s@).push(sections@.last()@)
            });
            i += 1;
        }
        assert(nodes@.take(nodes.len() as int) == nodes@);
    }
    Ok(Response { version, status, headers, sections })
}

/// Translates a status node.
fn translate_status(node: &KdlNode) -> (r: Result<Status, TranslationError>)
    ensures
        match r {
            Ok(s) => status_view(*node) == Ok::<StatusValue, ErrorView>(s.value),
            Err(e) => status_view(*node) == Err::<StatusValue, ErrorView>(e@),
        },
{
    if node.entries.len() == 0 {
        proof {
            reveal_strlit("status");
            reveal_strlit("value");
        }
        return Err(missing_field(owned("status"), "value"));
    }
    let value = &node.entries[0].value;
    let status_value = match value {
        KdlValue::Integer(i) => {
            if 0 <= *i && *i <= u64::MAX as i128 {
                StatusValue::Specific(*i as u64)
            } else {
                let max = u128_to_decimal(u64::MAX as u128);
                let got = i128_to_decimal(*i);
                let mut m = String::from_str(
                    "status code must be a non-negative integer between 0 and ",
                );
                m.append(max.as_str());
                m.append(", got: ");
                m.append(got.as_str());
                return Err(TranslationError::InvalidStructure(m));
            }
        },
        _ => StatusValue::Any,
    };
    Ok(Status { value: status_value })
}

/// Translates a version node.
fn translate_version(node: &KdlNode) -> (r: Version)
    ensures
        r.value == version_view(*node),
{
    let value = entry_string(node);
    let version_value = match value {
        Some(v) => {
            if str_equal(v.as_str(), "HTTP/1.0") {
                VersionValue::Version1
            } else if str_equal(v.as_str(), "HTTP/1.1") {
                VersionValue::Version11
            } else if str_equal(v.as_str(), "HTTP/2") {
                VersionValue::Version2
            } else if str_equal(v.as_str(), "HTTP/3") {
                VersionValue::Version3
            } else {
                VersionValue::VersionAny
            }
        },
        None => VersionValue::VersionAny,
    };
    Version { value: version_value }
}

/// Translates response headers: one line per child, with the text of its first entry.
fn translate_response_headers(node: &KdlNode) -> (r: Vec<KeyValue>)
    ensures
        key_values_view(r@) == key_value_children_view(child_nodes(*node)),
{
    let mut headers: Vec<KeyValue> = Vec::new();
    if let Some(children) = &node.children {
        let nodes = &children.nodes;
        let mut i: usize = 0;
        while i < nodes.len()
            invariant
                i <= nodes.len(),
                key_values_view(headers@) =~= key_value_children_view(nodes@.take(i as int)),
            decreases nodes.len() - i,
        {
            let child = &nodes[i];
            let value = crate::formats::kdl::document::entry_text(child);
            let kv = KeyValue {
                key: simple_template(child.name.as_str()),
                value: template_with_placeholders(value.as_str()),
            };
            assert(kv@ == key_value_view(nodes@[i as int]));
            let ghost before = headers@;
            headers.push(kv);
            assert(nodes@.take(i + 1) == nodes@.take(i as int).push(nodes@[i as int]));
            assert(key_value_children_view(nodes@.take(i + 1)) =~= key_value_children_view(
                nodes@.take(i as int),
            ).push(key_value_view(nodes@[i as int])));
            assert(key_values_view(headers@) =~= key_values_view(before).push(headers@.last()@));
            i += 1;
        }
        assert(nodes@.take(nodes.len() as int) == nodes@);
    } else {
        assert(key_value_children_view(child_nodes(*node)) =~= Seq::<KeyValueView>::empty());
        assert(key_values_view(headers@) =~= Seq::<KeyValueView>::empty());
    }
    headers
}

/// Translates a captures section.
fn translate_captures_section(node: &KdlNode, step_name: Option<&str>) -> (r: Result<
    Section,
    TranslationError,
>)
    ensures
        match r {
            Ok(s) => match captures_view(child_nodes(*node), opt_str_chars(step_name)) {
                Ok(cs) => s@ == SectionView::Captures(cs),
                Err(_) => false,
            },
            Err(e) => captures_view(child_nodes(*node), opt_str_chars(step_name)) == Err::<
                Seq<CaptureView>,
                ErrorView,
            >(e@),
        },
{
    let ghost step = opt_str_chars(step_name);
    let mut captures: Vec<Capture> = Vec::new();
    assert(captures@.map_values(|c: Capture| c@) =~= Seq::<CaptureView>::empty());
    if let Some(children) = &node.children {
        let nodes = &children.nodes;
        let mut i: usize = 0;
        assert(nodes@.take(0) == Seq::<KdlNode>::empty());
        while i < nodes.len()
            invariant
                i <= nodes.len(),
                nodes@ == child_nodes(*node),
                step == opt_str_chars(step_name),
                captures_view(nodes@.take(i as int), step) == Ok::<Seq<CaptureView>, ErrorView>(
                    captures@.map_values(|c: Capture| c@),
                ),
            decreases nodes.len() - i,
        {
            assert(nodes@.take(i + 1).drop_last() == nodes@.take(i as int));
            assert(nodes@.take(i + 1).last() == nodes@[i as int]);
            match translate_capture(&nodes[i], step_name) {
                Ok(c) => {
                    let ghost before = captures@;
                    captures.push(c);
                    assert(captures@.map_values(|c: Capture| c@) =~= before.map_values(
                        |c: Capture| c@,
                    ).push(c@));
                },
                Err(e) => {
                    proof {
                        lemma_captures_view_stops(nodes@, step, i + 1);
                    }
                    return Err(e);
                },
            }
            i += 1;
        }
        assert(nodes@.take(nodes.len() as int) == nodes@);
    }
    Ok(Section { value: SectionValue::Captures(captures) })
}

/// Translates a single capture.
fn translate_capture(node: &KdlNode, step_name: Option<&str>) -> (r: Result<
    Capture,
    TranslationError,
>)
    ensures
        match r {
            Ok(c) => capture_view(*node, opt_str_chars(step_name)) == Ok::<CaptureView, ErrorView>(
                c@,
            ),
            Err(e) => capture_view(*node, opt_str_chars(step_name)) == Err::<CaptureView, ErrorView>(
                e@,
            ),
        },
{
    let var_name = node.name.as_str();
    let full_name = match step_name {
        Some(step) => concat3(step, ".", var_name),
        None => owned(var_name),
    };
    proof {
        reveal_strlit(".");
    }
    assert(full_name@ == capture_name(opt_str_chars(step_name), node.name@));
    let query_type = match entry_string(node) {
        Some(q) => q,
        None => {
            proof {
                reveal_strlit("query_type");
            }
            return Err(missing_field(concat2("capture.", var_name), "query_type"));
        },
    };
    let arg = if node.entries.len() > 1 {
        as_string(&node.entries[1].value)
    } else {
        None
    };
    let query = match translate_query(query_type.as_str(), arg) {
        Ok(q) => q,
        Err(e) => {
            return Err(e);
        },
    };
    Ok(Capture { name: simple_template(full_name.as_str()), query })
}

fn missing_capture_field(field: &str) -> (e: TranslationError)
    ensures
        e@ == (ErrorView::MissingRequiredField { node: "capture"@, field: field@ }),
{
    missing_field(owned("capture"), field)
}

/// Translates a query type with its argument.
fn translate_query(query_type: &str, arg: Option<String>) -> (r: Result<Query, TranslationError>)
    ensures
        match r {
            Ok(q) => query_view(query_type@, crate::formats::kdl::document::opt_chars(arg))
                == Ok::<QueryView, ErrorView>(q@),
            Err(e) => query_view(query_type@, crate::formats::kdl::document::opt_chars(arg))
                == Err::<QueryView, ErrorView>(e@),
        },
{
    proof {
        reveal_strlit("jsonpath expression");
        reveal_strlit("xpath expression");
        reveal_strlit("header name");
        reveal_strlit("cookie name");
        reveal_strlit("regex pattern");
    }
    let value = if str_equal(query_type, "jsonpath") {
        match arg {
            Some(e) => QueryValue::Jsonpath { expr: simple_template(e.as_str()) },
            None => {
                return Err(missing_capture_field("jsonpath expression"));
            },
        }
    } else if str_equal(query_type, "xpath") {
        match arg {
            Some(e) => QueryValue::Xpath { expr: simple_template(e.as_str()) },
            None => {
                return Err(missing_capture_field("xpath expression"));
            },
        }
    } else if str_equal(query_type, "header") {
        match arg {
            Some(e) => QueryValue::Header { name: simple_template(e.as_str()) },
            None => {
                return Err(missing_capture_field("header name"));
            },
        }
    } else if str_equal(query_type, "cookie") {
        match arg {
            Some(e) => QueryValue::Cookie { name: simple_template(e.as_str()) },
            None => {
                return Err(missing_capture_field("cookie name"));
            },
        }
    } else if str_equal(query_type, "regex") {
        match arg {
            Some(e) => QueryValue::Regex { value: simple_template(e.as_str()) },
            None => {
                return Err(missing_capture_field("regex pattern"));
            },
        }
    } else if str_equal(query_type, "body") {
        QueryValue::Body
    } else if str_equal(query_type, "status") {
        QueryValue::Status
    } else if str_equal(query_type, "url") {
        QueryValue::Url
    } else if str_equal(query_type, "duration") {
        QueryValue::Duration
    } else if str_equal(query_type, "version") {
        QueryValue::Version
    } else {
        return Err(TranslationError::InvalidStructure(concat2("unknown query type: ", query_type)));
    };
    Ok(Query { value })
}

/// Translates an asserts section.
fn translate_asserts_section(node: &KdlNode) -> (r: Result<Section, TranslationError>)
    ensures
        match r {
            Ok(s) => match asserts_view(child_nodes(*node)) {
                Ok(asserts) => s@ == SectionView::Asserts(asserts),
                Err(_) => false,
            },
            Err(e) => asserts_view(child_nodes(*node)) == Err::<Seq<AssertView>, ErrorView>(e@),
        },
{
    let mut asserts: Vec<Assert> = Vec::new();
    assert(asserts@.map_values(|a: Assert| a@) =~= Seq::<AssertView>::empty());
    if let Some(children) = &node.children {
        let nodes = &children.nodes;
        let mut i: usize = 0;
        assert(nodes@.take(0) == Seq::<KdlNode>::empty());
        while i < nodes.len()
            invariant
                i <= nodes.len(),
                nodes@ == child_nodes(*node),
                asserts_view(nodes@.take(i as int)) == Ok::<Seq<AssertView>, ErrorView>(
                    asserts@.map_values(|a: Assert| a@),
                ),
            decreases nodes.len() - i,
        {
            assert(nodes@.take(i + 1).drop_last() == nodes@.take(i as int));
            assert(nodes@.take(i + 1).last() == nodes@[i as int]);
            match translate_assert(&nodes[i]) {
                Ok(a) => {
                    let ghost before = asserts@;
                    asserts.push(a);
                    assert(asserts@.map_values(|a: Assert| a@) =~= before.map_values(
                        |a: Assert| a@,
                    ).push(a@));
                },
                Err(e) => {
                    proof {
                        lemma_asserts_view_stops(nodes@, i + 1);
                    }
                    return Err(e);
                },
            }
            i += 1;
        }
        assert(nodes@.take(nodes.len() as int) == nodes@);
    }
    Ok(Section { value: SectionValue::Asserts(asserts) })
}

/// Translates a single assert.
fn translate_assert(node: &KdlNode) -> (r: Result<Assert, TranslationError>)
    ensures
        match r {
            Ok(a) => assert_view(*node) == Ok::<AssertView, ErrorView>(a@),
            Err(e) => assert_view(*node) == Err::<AssertView, ErrorView>(e@),
        },
{
    let query_type = node.name.as_str();
    let es = &node.entries;
    let argumentless = str_equal(query_type, "status") || str_equal(query_type, "duration")
        || str_equal(query_type, "version");
    let (query, first) = if argumentless {
        (translate_query(query_type, None), 0)
    } else {
        (translate_query(query_type, entry_string(node)), if es.len() > 1 {
            1
        } else {
            es.len()
        })
    };
    let query = match query {
        Ok(q) => q,
        Err(e) => {
            return Err(e);
        },
    };
    assert(es@.subrange(first as int, es.len() as int) == if argumentless {
        es@
    } else if es.len() > 1 {
        es@.subrange(1, es.len() as int)
    } else {
        Seq::<KdlEntry>::empty()
    });
    let predicate = match translate_predicate_from_entries(es, first) {
        Ok(p) => p,
        Err(e) => {
            return Err(e);
        },
    };
    Ok(Assert { query, predicate })
}

/// Translates the predicate described by the entries `es[first..]`.
fn translate_predicate_from_entries(es: &Vec<KdlEntry>, first: usize) -> (r: Result<
    Predicate,
    TranslationError,
>)
    requires
        first <= es.len(),
    ensures
        match r {
            Ok(p) => predicate_view(es@.subrange(first as int, es.len() as int)) == Ok::<
                crate::writer::ast::PredicateView,
                ErrorView,
            >(p@),
            Err(e) => predicate_view(es@.subrange(first as int, es.len() as int)) == Err::<
                crate::writer::ast::PredicateView,
                ErrorView,
            >(e@),
        },
{
    let ghost entries = es@.subrange(first as int, es.len() as int);
    let mut not = false;
    let mut op: Option<String> = None;
    let mut value: Option<&KdlValue> = None;
    let mut i = first;
    assert(entries.take(0) == Seq::<KdlEntry>::empty());
    while i < es.len()
        invariant
            first <= i <= es.len(),
            entries == es@.subrange(first as int, es.len() as int),
            predicate_parts(entries.take(i - first)) == (PredicateParts {
                not,
                op: crate::formats::kdl::document::opt_chars(op),
                value: match value {
                    Some(v) => Some(*v),
                    None => None,
                },
            }),
        decreases es.len() - i,
    {
        let e = &es[i];
        assert(entries.take(i - first + 1).drop_last() == entries.take(i - first));
        assert(entries.take(i - first + 1).last() == es@[i as int]);
        match &e.name {
            Some(name) => {
                if str_equal(name.as_str(), "not") {
                    not = true;
                } else {
                    op = Some(name.clone());
                    value = Some(&e.value);
                }
            },
            None => {
                match &e.value {
                    KdlValue::String(s) => {
                        if is_operator(s.as_str()) || is_predicate_name(s.as_str()) {
                            op = Some(s.clone());
                        } else {
                            value = Some(&e.value);
                        }
                    },
                    _ => {
                        value = Some(&e.value);
                    },
                }
            },
        }
        i += 1;
    }
    assert(entries.take(es.len() - first) == entries);
    let predicate_func = match op {
        Some(operator) => match translate_predicate_func(operator.as_str(), value) {
            Ok(f) => f,
            Err(e) => {
                return Err(e);
            },
        },
        None => PredicateFuncValue::Exist,
    };
    Ok(Predicate { not, predicate_func })
}

fn invalid_predicate(message: &str) -> (e: TranslationError)
    ensures
        e@ == ErrorView::InvalidPredicate(message@),
{
    TranslationError::InvalidPredicate(owned(message))
}

/// The value of a comparison, or the error when there is none.
fn comparison_value(value: Option<&KdlValue>, missing: &str) -> (r: Result<
    PredicateValue,
    TranslationError,
>)
    ensures
        match value {
            None => r matches Err(e) && e@ == ErrorView::InvalidPredicate(missing@),
            Some(v) => match r {
                Ok(pv) => predicate_value_view(*v) == Ok::<PredicateValueView, ErrorView>(pv@),
                Err(e) => predicate_value_view(*v) == Err::<PredicateValueView, ErrorView>(e@),
            },
        },
{
    match value {
        None => Err(invalid_predicate(missing)),
        Some(v) => kdl_to_predicate_value(v),
    }
}

/// Translates an operator and its value to a predicate.
fn translate_predicate_func(op: &str, value: Option<&KdlValue>) -> (r: Result<
    PredicateFuncValue,
    TranslationError,
>)
    ensures
        match r {
            Ok(f) => predicate_func_view(
                op@,
                match value {
                    Some(v) => Some(*v),
                    None => None,
                },
            ) == Ok::<PredicateFuncView, ErrorView>(f@),
            Err(e) => predicate_func_view(
                op@,
                match value {
                    Some(v) => Some(*v),
                    None => None,
                },
            ) == Err::<PredicateFuncView, ErrorView>(e@),
        },
{
    if str_equal(op, "==") || str_equal(op, "equals") {
        match comparison_value(value, "equals requires a value") {
            Ok(v) => Ok(PredicateFuncValue::Equal { value: v }),
            Err(e) => Err(e),
        }
    } else if str_equal(op, "!=") || str_equal(op, "notEquals") {
        match comparison_value(value, "notEquals requires a value") {
            Ok(v) => Ok(PredicateFuncValue::NotEqual { value: v }),
            Err(e) => Err(e),
        }
    } else if str_equal(op, ">") || str_equal(op, "greaterThan") {
        match comparison_value(value, "greaterThan requires a value") {
            Ok(v) => Ok(PredicateFuncValue::GreaterThan { value: v }),
            Err(e) => Err(e),
        }
    } else if str_equal(op, ">=") || str_equal(op, "greaterThanOrEquals") {
        match comparison_value(value, "greaterThanOrEquals requires a value") {
            Ok(v) => Ok(PredicateFuncValue::GreaterThanOrEqual { value: v }),
            Err(e) => Err(e),
        }
    } else if str_equal(op, "<") || str_equal(op, "lessThan") {
        match comparison_value(value, "lessThan requires a value") {
            Ok(v) => Ok(PredicateFuncValue::LessThan { value: v }),
            Err(e) => Err(e),
        }
    } else if str_equal(op, "<=") || str_equal(op, "lessThanOrEquals") {
        match comparison_value(value, "lessThanOrEquals requires a value") {
            Ok(v) => Ok(PredicateFuncValue::LessThanOrEqual { value: v }),
            Err(e) => Err(e),
        }
    } else if str_equal(op, "startsWith") {
        match comparison_value(value, "startsWith requires a value") {
            Ok(v) => Ok(PredicateFuncValue::StartWith { value: v }),
            Err(e) => Err(e),
        }
    } else if str_equal(op, "endsWith") {
        match comparison_value(value, "endsWith requires a value") {
            Ok(v) => Ok(PredicateFuncValue::EndWith { value: v }),
            Err(e) => Err(e),
        }
    } else if str_equal(op, "contains") {
        match comparison_value(value, "contains requires a value") {
            Ok(v) => Ok(PredicateFuncValue::Contain { value: v }),
            Err(e) => Err(e),
        }
    } else if str_equal(op, "matches") {
        match comparison_value(value, "matches requires a value") {
            Ok(v) => Ok(PredicateFuncValue::Match { value: v }),
            Err(e) => Err(e),
        }
    } else if str_equal(op, "exists") {
        Ok(PredicateFuncValue::Exist)
    } else if str_equal(op, "isBoolean") {
        Ok(PredicateFuncValue::IsBoolean)
    } else if str_equal(op, "isEmpty") {
        Ok(PredicateFuncValue::IsEmpty)
    } else if str_equal(op, "isFloat") {
        Ok(PredicateFuncValue::IsFloat)
    } else if str_equal(op, "isInteger") {
        Ok(PredicateFuncValue::IsInteger)
    } else if str_equal(op, "isNumber") {
        Ok(PredicateFuncValue::IsNumber)
    } else if str_equal(op, "isString") {
        Ok(PredicateFuncValue::IsString)
    } else if str_equal(op, "isCollection") {
        Ok(PredicateFuncValue::IsCollection)
    } else if str_equal(op, "isDate") {
        Ok(PredicateFuncValue::IsDate)
    } else if str_equal(op, "isIsoDate") {
        Ok(PredicateFuncValue::IsIsoDate)
    } else {
        Err(TranslationError::InvalidPredicate(concat2("unknown predicate: ", op)))
    }
}

/// Converts a KDL value to the value a predicate compares with.
fn kdl_to_predicate_value(value: &KdlValue) -> (r: Result<PredicateValue, TranslationError>)
    ensures
        match r {
            Ok(pv) => predicate_value_view(*value) == Ok::<PredicateValueView, ErrorView>(pv@),
            Err(e) => predicate_value_view(*value) == Err::<PredicateValueView, ErrorView>(e@),
        },
{
    match value {
        KdlValue::String(s) => {
            if contains_open_braces(s.as_str()) {
                Ok(PredicateValue::String(template_with_placeholders(s.as_str())))
            } else {
                Ok(PredicateValue::String(simple_template(s.as_str())))
            }
        },
        KdlValue::Integer(i) => {
            if i64::MIN as i128 <= *i && *i <= i64::MAX as i128 {
                Ok(PredicateValue::Number(Number::Integer(*i as i64)))
            } else {
                let mut m = String::from_str("integer value ");
                let text = i128_to_decimal(*i);
                m.append(text.as_str());
                m.append(" is outside the valid range for i64 (");
                let low = i128_to_decimal(i64::MIN as i128);
                m.append(low.as_str());
                m.append(" to ");
                let high = i128_to_decimal(i64::MAX as i128);
                m.append(high.as_str());
                m.append(")");
                Err(TranslationError::InvalidPredicate(m))
            }
        },
        KdlValue::Float(f) => Ok(PredicateValue::Number(Number::Float(f.clone()))),
        KdlValue::Bool(b) => Ok(PredicateValue::Bool(*b)),
        KdlValue::Null => Ok(PredicateValue::Null),
    }
}

/// Inside a step named `step`, a capture of variable `var` is named
/// `step.var`; outside any named step it is named `var`.
pub proof fn law_capture_names(c: KdlNode, step: Option<Seq<char>>)
    requires
        capture_view(c, step) is Ok,
    ensures
        template_source(capture_view(c, step)->Ok_0.name) == match step {
            Some(s) => s + seq!['.'] + c.name@,
            None => c.name@,
        },
{
    law_simple_template_round_trip(capture_name(step, c.name@));
}

/// Each comparison operator and its word name the same predicate: `==` and
/// `equals`, `!=` and `notEquals`, `>` and `greaterThan`, `>=` and
/// `greaterThanOrEquals`, `<` and `lessThan`, `<=` and `lessThanOrEquals`
/// give the same comparison with the same value, or the same error.
pub proof fn law_operator_symbols_match_words(value: Option<KdlValue>)
    ensures
        predicate_func_view("=="@, value) == predicate_func_view("equals"@, value),
        predicate_func_view("!="@, value) == predicate_func_view("notEquals"@, value),
        predicate_func_view(">"@, value) == predicate_func_view("greaterThan"@, value),
        predicate_func_view(">="@, value) == predicate_func_view("greaterThanOrEquals"@, value),
        predicate_func_view("<"@, value) == predicate_func_view("lessThan"@, value),
        predicate_func_view("<="@, value) == predicate_func_view("lessThanOrEquals"@, value),
{
    reveal_strlit("==");
    reveal_strlit("equals");
    reveal_strlit("!=");
    reveal_strlit("notEquals");
    reveal_strlit(">");
    reveal_strlit("greaterThan");
    reveal_strlit(">=");
    reveal_strlit("greaterThanOrEquals");
    reveal_strlit("<");
    reveal_strlit("lessThan");
    reveal_strlit("<=");
    reveal_strlit("lessThanOrEquals");
    assert("=="@.len() == 2 && "!="@.len() == 2 && ">="@.len() == 2 && "<="@.len() == 2);
    assert(">"@.len() == 1 && "<"@.len() == 1);
    assert("=="@[0] != "!="@[0] && "=="@[0] != ">="@[0] && "=="@[0] != "<="@[0]);
    assert("!="@[0] != ">="@[0] && "!="@[0] != "<="@[0] && ">="@[0] != "<="@[0]);
    assert(">"@[0] != "<"@[0]);
    assert("equals"@.len() == 6 && "notEquals"@.len() == 9 && "greaterThan"@.len() == 11);
    assert("greaterThanOrEquals"@.len() == 19 && "lessThan"@.len() == 8);
    assert("lessThanOrEquals"@.len() == 16);
    assert("greaterThan"@[0] != "lessThan"@[0]);
}

/// A predicate written back reads as the word it came from: a test word
/// alone, an operator followed by a space and the text of its value.
pub proof fn law_predicate_text_round_trip(op: Seq<char>, value: Option<KdlValue>)
    requires
        predicate_func_view(op, value) is Ok,
    ensures
        predicate_word(op) ==> predicate_text(
            PredicateView { not: false, func: predicate_func_view(op, value)->Ok_0 },
        ) == op,
        operator_word(op) ==> predicate_text(
            PredicateView { not: false, func: predicate_func_view(op, value)->Ok_0 },
        ) == op + " "@ + predicate_value_text(predicate_value_view(value->0)->Ok_0),
{
    if op == "=="@ {
        assert(comparison_of("=="@) matches Some((k, _)) && k == Comparison::Equal) by {
            reveal_strlit("==");
        }
        reveal_strlit("==");
    }
    if op == "!="@ {
        assert(comparison_of("!="@) matches Some((k, _)) && k == Comparison::NotEqual) by {
            reveal_strlit("!=");
            reveal_strlit("==");
            reveal_strlit("equals");
            assert("!="@[0] != "=="@[0]);
            assert("!="@.len() != "equals"@.len());
        }
        reveal_strlit("!=");
    }
    if op == ">"@ {
        assert(comparison_of(">"@) matches Some((k, _)) && k == Comparison::GreaterThan) by {
            reveal_strlit(">");
            reveal_strlit("==");
            reveal_strlit("equals");
            reveal_strlit("!=");
            reveal_strlit("notEquals");
            assert(">"@.len() != "=="@.len());
            assert(">"@.len() != "equals"@.len());
            assert(">"@.len() != "!="@.len());
            assert(">"@.len() != "notEquals"@.len());
        }
        reveal_strlit(">");
    }
    if op == ">="@ {
        assert(comparison_of(">="@) matches Some((k, _)) && k == Comparison::GreaterThanOrEqual) by {
            reveal_strlit(">=");
            reveal_strlit("==");
            reveal_strlit("equals");
            reveal_strlit("!=");
            reveal_strlit("notEquals");
            reveal_strlit(">");
            reveal_strlit("greaterThan");
            assert(">="@[0] != "=="@[0]);
            assert(">="@.len() != "equals"@.len());
            assert(">="@[0] != "!="@[0]);
            assert(">="@.len() != "notEquals"@.len());
            assert(">="@.len() != ">"@.len());
            assert(">="@.len() != "greaterThan"@.len());
        }
        reveal_strlit(">=");
    }
    if op == "<"@ {
        assert(comparison_of("<"@) matches Some((k, _)) && k == Comparison::LessThan) by {
            reveal_strlit("<");
            reveal_strlit("==");
            reveal_strlit("equals");
            reveal_strlit("!=");
            reveal_strlit("notEquals");
            reveal_strlit(">");
            reveal_strlit("greaterThan");
            reveal_strlit(">=");
            reveal_strlit("greaterThanOrEquals");
            assert("<"@.len() != "=="@.len());
            assert("<"@.len() != "equals"@.len());
            assert("<"@.len() != "!="@.len());
            assert("<"@.len() != "notEquals"@.len());
            assert("<"@[0] != ">"@[0]);
            assert("<"@.len() != "greaterThan"@.len());
            assert("<"@.len() != ">="@.len());
            assert("<"@.len() != "greaterThanOrEquals"@.len());
        }
        reveal_strlit("<");
    }
    if op == "<="@ {
        assert(comparison_of("<="@) matches Some((k, _)) && k == Comparison::LessThanOrEqual) by {
            reveal_strlit("<=");
            reveal_strlit("==");
            reveal_strlit("equals");
            reveal_strlit("!=");
            reveal_strlit("notEquals");
            reveal_strlit(">");
            reveal_strlit("greaterThan");
            reveal_strlit(">=");
            reveal_strlit("greaterThanOrEquals");
            reveal_strlit("<");
            reveal_strlit("lessThan");
            assert("<="@[0] != "=="@[0]);
            assert("<="@.len() != "equals"@.len());
            assert("<="@[0] != "!="@[0]);
            assert("<="@.len() != "notEquals"@.len());
            assert("<="@.len() != ">"@.len());
            assert("<="@.len() != "greaterThan"@.len());
            assert("<="@[0] != ">="@[0]);
            assert("<="@.len() != "greaterThanOrEquals"@.len());
            assert("<="@.len() != "<"@.len());
            assert("<="@.len() != "lessThan"@.len());
        }
        reveal_strlit("<=");
    }
    if op == "startsWith"@ {
        assert(comparison_of("startsWith"@) matches Some((k, _)) && k == Comparison::StartWith) by {
            reveal_strlit("startsWith");
            reveal_strlit("==");
            reveal_strlit("equals");
            reveal_strlit("!=");
            reveal_strlit("notEquals");
            reveal_strlit(">");
            reveal_strlit("greaterThan");
            reveal_strlit(">=");
            reveal_strlit("greaterThanOrEquals");
            reveal_strlit("<");
            reveal_strlit("lessThan");
            reveal_strlit("<=");
            reveal_strlit("lessThanOrEquals");
            assert("startsWith"@.len() != "=="@.len());
            assert("startsWith"@.len() != "equals"@.len());
            assert("startsWith"@.len() != "!="@.len());
            assert("startsWith"@.len() != "notEquals"@.len());
            assert("startsWith"@.len() != ">"@.len());
            assert("startsWith"@.len() != "greaterThan"@.len());
            assert("startsWith"@.len() != ">="@.len());
            assert("startsWith"@.len() != "greaterThanOrEquals"@.len());
            assert("startsWith"@.len() != "<"@.len());
            assert("startsWith"@.len() != "lessThan"@.len());
            assert("startsWith"@.len() != "<="@.len());
            assert("startsWith"@.len() != "lessThanOrEquals"@.len());
        }
        reveal_strlit("startsWith");
    }
    if op == "endsWith"@ {
        assert(comparison_of("endsWith"@) matches Some((k, _)) && k == Comparison::EndWith) by {
            reveal_strlit("endsWith");
            reveal_strlit("==");
            reveal_strlit("equals");
            reveal_strlit("!=");
            reveal_strlit("notEquals");
            reveal_strlit(">");
            reveal_strlit("greaterThan");
            reveal_strlit(">=");
            reveal_strlit("greaterThanOrEquals");
            reveal_strlit("<");
            reveal_strlit("lessThan");
            reveal_strlit("<=");
            reveal_strlit("lessThanOrEquals");
            reveal_strlit("startsWith");
            assert("endsWith"@.len() != "=="@.len());
            assert("endsWith"@.len() != "equals"@.len());
            assert("endsWith"@.len() != "!="@.len());
            assert("endsWith"@.len() != "notEquals"@.len());
            assert("endsWith"@.len() != ">"@.len());
            assert("endsWith"@.len() != "greaterThan"@.len());
            assert("endsWith"@.len() != ">="@.len());
            assert("endsWith"@.len() != "greaterThanOrEquals"@.len());
            assert("endsWith"@.len() != "<"@.len());
            assert("endsWith"@[0] != "lessThan"@[0]);
            assert("endsWith"@.len() != "<="@.len());
            assert("endsWith"@.len() != "lessThanOrEquals"@.len());
            assert("endsWith"@.len() != "startsWith"@.len());
        }
        reveal_strlit("endsWith");
    }
    if op == "contains"@ {
        assert(comparison_of("contains"@) matches Some((k, _)) && k == Comparison::Contain) by {
            reveal_strlit("contains");
            reveal_strlit("==");
            reveal_strlit("equals");
            reveal_strlit("!=");
            reveal_strlit("notEquals");
            reveal_strlit(">");
            reveal_strlit("greaterThan");
            reveal_strlit(">=");
            reveal_strlit("greaterThanOrEquals");
            reveal_strlit("<");
            reveal_strlit("lessThan");
            reveal_strlit("<=");
            reveal_strlit("lessThanOrEquals");
            reveal_strlit("startsWith");
            reveal_strlit("endsWith");
            assert("contains"@.len() != "=="@.len());
            assert("contains"@.len() != "equals"@.len());
            assert("contains"@.len() != "!="@.len());
            assert("contains"@.len() != "notEquals"@.len());
            assert("contains"@.len() != ">"@.len());
            assert("contains"@.len() != "greaterThan"@.len());
            assert("contains"@.len() != ">="@.len());
            assert("contains"@.len() != "greaterThanOrEquals"@.len());
            assert("contains"@.len() != "<"@.len());
            assert("contains"@[0] != "lessThan"@[0]);
            assert("contains"@.len() != "<="@.len());
            assert("contains"@.len() != "lessThanOrEquals"@.len());
            assert("contains"@.len() != "startsWith"@.len());
            assert("contains"@[0] != "endsWith"@[0]);
        }
        reveal_strlit("contains");
    }
    if op == "matches"@ {
        assert(comparison_of("matches"@) matches Some((k, _)) && k == Comparison::Match) by {
            reveal_strlit("matches");
            reveal_strlit("==");
            reveal_strlit("equals");
            reveal_strlit("!=");
            reveal_strlit("notEquals");
            reveal_strlit(">");
            reveal_strlit("greaterThan");
            reveal_strlit(">=");
            reveal_strlit("greaterThanOrEquals");
            reveal_strlit("<");
            reveal_strlit("lessThan");
            reveal_strlit("<=");
            reveal_strlit("lessThanOrEquals");
            reveal_strlit("startsWith");
            reveal_strlit("endsWith");
            reveal_strlit("contains");
            assert("matches"@.len() != "=="@.len());
            assert("matches"@.len() != "equals"@.len());
            assert("matches"@.len() != "!="@.len());
            assert("matches"@.len() != "notEquals"@.len());
            assert("matches"@.len() != ">"@.len());
            assert("matches"@.len() != "greaterThan"@.len());
            assert("matches"@.len() != ">="@.len());
            assert("matches"@.len() != "greaterThanOrEquals"@.len());
            assert("matches"@.len() != "<"@.len());
            assert("matches"@.len() != "lessThan"@.len());
            assert("matches"@.len() != "<="@.len());
            assert("matches"@.len() != "lessThanOrEquals"@.len());
            assert("matches"@.len() != "startsWith"@.len());
            assert("matches"@.len() != "endsWith"@.len());
            assert("matches"@.len() != "contains"@.len());
        }
        reveal_strlit("matches");
    }
    if op == "exists"@ {
        assert(comparison_of("exists"@) is None && check_of("exists"@) == Some(Check::Exist)) by {
            reveal_strlit("exists");
            reveal_strlit("==");
            reveal_strlit("equals");
            reveal_strlit("!=");
            reveal_strlit("notEquals");
            reveal_strlit(">");
            reveal_strlit("greaterThan");
            reveal_strlit(">=");
            reveal_strlit("greaterThanOrEquals");
            reveal_strlit("<");
            reveal_strlit("lessThan");
            reveal_strlit("<=");
            reveal_strlit("lessThanOrEquals");
            reveal_strlit("startsWith");
            reveal_strlit("endsWith");
            reveal_strlit("contains");
            reveal_strlit("matches");
            assert("exists"@.len() != "=="@.len());
            assert("exists"@[1] != "equals"@[1]);
            assert("exists"@.len() != "!="@.len());
            assert("exists"@.len() != "notEquals"@.len());
            assert("exists"@.len() != ">"@.len());
            assert("exists"@.len() != "greaterThan"@.len());
            assert("exists"@.len() != ">="@.len());
            assert("exists"@.len() != "greaterThanOrEquals"@.len());
            assert("exists"@.len() != "<"@.len());
            assert("exists"@.len() != "lessThan"@.len());
            assert("exists"@.len() != "<="@.len());
            assert("exists"@.len() != "lessThanOrEquals"@.len());
            assert("exists"@.len() != "startsWith"@.len());
            assert("exists"@.len() != "endsWith"@.len());
            assert("exists"@.len() != "contains"@.len());
            assert("exists"@.len() != "matches"@.len());
        }
    }
    if op == "isBoolean"@ {
        assert(comparison_of("isBoolean"@) is None && check_of("isBoolean"@) == Some(Check::IsBoolean)) by {
            reveal_strlit("isBoolean");
            reveal_strlit("==");
            reveal_strlit("equals");
            reveal_strlit("!=");
            reveal_strlit("notEquals");
            reveal_strlit(">");
            reveal_strlit("greaterThan");
            reveal_strlit(">=");
            reveal_strlit("greaterThanOrEquals");
            reveal_strlit("<");
            reveal_strlit("lessThan");
            reveal_strlit("<=");
            reveal_strlit("lessThanOrEquals");
            reveal_strlit("startsWith");
            reveal_strlit("endsWith");
            reveal_strlit("contains");
            reveal_strlit("matches");
            reveal_strlit("exists");
            assert("isBoolean"@.len() != "=="@.len());
            assert("isBoolean"@.len() != "equals"@.len());
            assert("isBoolean"@.len() != "!="@.len());
            assert("isBoolean"@[0] != "notEquals"@[0]);
            assert("isBoolean"@.len() != ">"@.len());
            assert("isBoolean"@.len() != "greaterThan"@.len());
            assert("isBoolean"@.len() != ">="@.len());
            assert("isBoolean"@.len() != "greaterThanOrEquals"@.len());
            assert("isBoolean"@.len() != "<"@.len());
            assert("isBoolean"@.len() != "lessThan"@.len());
            assert("isBoolean"@.len() != "<="@.len());
            assert("isBoolean"@.len() != "lessThanOrEquals"@.len());
            assert("isBoolean"@.len() != "startsWith"@.len());
            assert("isBoolean"@.len() != "endsWith"@.len());
            assert("isBoolean"@.len() != "contains"@.len());
            assert("isBoolean"@.len() != "matches"@.len());
            assert("isBoolean"@.len() != "exists"@.len());
        }
    }
    if op == "isEmpty"@ {
        assert(comparison_of("isEmpty"@) is None && check_of("isEmpty"@) == Some(Check::IsEmpty)) by {
            reveal_strlit("isEmpty");
            reveal_strlit("==");
            reveal_strlit("equals");
            reveal_strlit("!=");
            reveal_strlit("notEquals");
            reveal_strlit(">");
            reveal_strlit("greaterThan");
            reveal_strlit(">=");
            reveal_strlit("greaterThanOrEquals");
            reveal_strlit("<");
            reveal_strlit("lessThan");
            reveal_strlit("<=");
            reveal_strlit("lessThanOrEquals");
            reveal_strlit("startsWith");
            reveal_strlit("endsWith");
            reveal_strlit("contains");
            reveal_strlit("matches");
            reveal_strlit("exists");
            reveal_strlit("isBoolean");
            assert("isEmpty"@.len() != "=="@.len());
            assert("isEmpty"@.len() != "equals"@.len());
            assert("isEmpty"@.len() != "!="@.len());
            assert("isEmpty"@.len() != "notEquals"@.len());
            assert("isEmpty"@.len() != ">"@.len());
            assert("isEmpty"@.len() != "greaterThan"@.len());
            assert("isEmpty"@.len() != ">="@.len());
            assert("isEmpty"@.len() != "greaterThanOrEquals"@.len());
            assert("isEmpty"@.len() != "<"@.len());
            assert("isEmpty"@.len() != "lessThan"@.len());
            assert("isEmpty"@.len() != "<="@.len());
            assert("isEmpty"@.len() != "lessThanOrEquals"@.len());
            assert("isEmpty"@.len() != "startsWith"@.len());
            assert("isEmpty"@.len() != "endsWith"@.len());
            assert("isEmpty"@.len() != "contains"@.len());
            assert("isEmpty"@[0] != "matches"@[0]);
            assert("isEmpty"@.len() != "exists"@.len());
            assert("isEmpty"@.len() != "isBoolean"@.len());
        }
    }
    if op == "isFloat"@ {
        assert(comparison_of("isFloat"@) is None && check_of("isFloat"@) == Some(Check::IsFloat)) by {
            reveal_strlit("isFloat");
            reveal_strlit("==");
            reveal_strlit("equals");
            reveal_strlit("!=");
            reveal_strlit("notEquals");
            reveal_strlit(">");
            reveal_strlit("greaterThan");
            reveal_strlit(">=");
            reveal_strlit("greaterThanOrEquals");
            reveal_strlit("<");
            reveal_strlit("lessThan");
            reveal_strlit("<=");
            reveal_strlit("lessThanOrEquals");
            reveal_strlit("startsWith");
            reveal_strlit("endsWith");
            reveal_strlit("contains");
            reveal_strlit("matches");
            reveal_strlit("exists");
            reveal_strlit("isBoolean");
            reveal_strlit("isEmpty");
            assert("isFloat"@.len() != "=="@.len());
            assert("isFloat"@.len() != "equals"@.len());
            assert("isFloat"@.len() != "!="@.len());
            assert("isFloat"@.len() != "notEquals"@.len());
            assert("isFloat"@.len() != ">"@.len());
            assert("isFloat"@.len() != "greaterThan"@.len());
            assert("isFloat"@.len() != ">="@.len());
            assert("isFloat"@.len() != "greaterThanOrEquals"@.len());
            assert("isFloat"@.len() != "<"@.len());
            assert("isFloat"@.len() != "lessThan"@.len());
            assert("isFloat"@.len() != "<="@.len());
            assert("isFloat"@.len() != "lessThanOrEquals"@.len());
            assert("isFloat"@.len() != "startsWith"@.len());
            assert("isFloat"@.len() != "endsWith"@.len());
            assert("isFloat"@.len() != "contains"@.len());
            assert("isFloat"@[0] != "matches"@[0]);
            assert("isFloat"@.len() != "exists"@.len());
            assert("isFloat"@.len() != "isBoolean"@.len());
            assert("isFloat"@[2] != "isEmpty"@[2]);
        }
    }
    if op == "isInteger"@ {
        assert(comparison_of("isInteger"@) is None && check_of("isInteger"@) == Some(Check::IsInteger)) by {
            reveal_strlit("isInteger");
            reveal_strlit("==");
            reveal_strlit("equals");
            reveal_strlit("!=");
            reveal_strlit("notEquals");
            reveal_strlit(">");
            reveal_strlit("greaterThan");
            reveal_strlit(">=");
            reveal_strlit("greaterThanOrEquals");
            reveal_strlit("<");
            reveal_strlit("lessThan");
            reveal_strlit("<=");
            reveal_strlit("lessThanOrEquals");
            reveal_strlit("startsWith");
            reveal_strlit("endsWith");
            reveal_strlit("contains");
            reveal_strlit("matches");
            reveal_strlit("exists");
            reveal_strlit("isBoolean");
            reveal_strlit("isEmpty");
            reveal_strlit("isFloat");
            assert("isInteger"@.len() != "=="@.len());
            assert("isInteger"@.len() != "equals"@.len());
            assert("isInteger"@.len() != "!="@.len());
            assert("isInteger"@[0] != "notEquals"@[0]);
            assert("isInteger"@.len() != ">"@.len());
            assert("isInteger"@.len() != "greaterThan"@.len());
            assert("isInteger"@.len() != ">="@.len());
            assert("isInteger"@.len() != "greaterThanOrEquals"@.len());
            assert("isInteger"@.len() != "<"@.len());
            assert("isInteger"@.len() != "lessThan"@.len());
            assert("isInteger"@.len() != "<="@.len());
            assert("isInteger"@.len() != "lessThanOrEquals"@.len());
            assert("isInteger"@.len() != "startsWith"@.len());
            assert("isInteger"@.len() != "endsWith"@.len());
            assert("isInteger"@.len() != "contains"@.len());
            assert("isInteger"@.len() != "matches"@.len());
            assert("isInteger"@.len() != "exists"@.len());
            assert("isInteger"@[2] != "isBoolean"@[2]);
            assert("isInteger"@.len() != "isEmpty"@.len());
            assert("isInteger"@.len() != "isFloat"@.len());
        }
    }
    if op == "isNumber"@ {
        assert(comparison_of("isNumber"@) is None && check_of("isNumber"@) == Some(Check::IsNumber)) by {
            reveal_strlit("isNumber");
            reveal_strlit("==");
            reveal_strlit("equals");
            reveal_strlit("!=");
            reveal_strlit("notEquals");
            reveal_strlit(">");
            reveal_strlit("greaterThan");
            reveal_strlit(">=");
            reveal_strlit("greaterThanOrEquals");
            reveal_strlit("<");
            reveal_strlit("lessThan");
            reveal_strlit("<=");
            reveal_strlit("lessThanOrEquals");
            reveal_strlit("startsWith");
            reveal_strlit("endsWith");
            reveal_strlit("contains");
            reveal_strlit("matches");
            reveal_strlit("exists");
            reveal_strlit("isBoolean");
            reveal_strlit("isEmpty");
            reveal_strlit("isFloat");
            reveal_strlit("isInteger");
            assert("isNumber"@.len() != "=="@.len());
            assert("isNumber"@.len() != "equals"@.len());
            assert("isNumber"@.len() != "!="@.len());
            assert("isNumber"@.len() != "notEquals"@.len());
            assert("isNumber"@.len() != ">"@.len());
            assert("isNumber"@.len() != "greaterThan"@.len());
            assert("isNumber"@.len() != ">="@.len());
            assert("isNumber"@.len() != "greaterThanOrEquals"@.len());
            assert("isNumber"@.len() != "<"@.len());
            assert("isNumber"@[0] != "lessThan"@[0]);
            assert("isNumber"@.len() != "<="@.len());
            assert("isNumber"@.len() != "lessThanOrEquals"@.len());
            assert("isNumber"@.len() != "startsWith"@.len());
            assert("isNumber"@[0] != "endsWith"@[0]);
            assert("isNumber"@[0] != "contains"@[0]);
            assert("isNumber"@.len() != "matches"@.len());
            assert("isNumber"@.len() != "exists"@.len());
            assert("isNumber"@.len() != "isBoolean"@.len());
            assert("isNumber"@.len() != "isEmpty"@.len());
            assert("isNumber"@.len() != "isFloat"@.len());
            assert("isNumber"@.len() != "isInteger"@.len());
        }
    }
    if op == "isString"@ {
        assert(comparison_of("isString"@) is None && check_of("isString"@) == Some(Check::IsString)) by {
            reveal_strlit("isString");
            reveal_strlit("==");
            reveal_strlit("equals");
            reveal_strlit("!=");
            reveal_strlit("notEquals");
            reveal_strlit(">");
            reveal_strlit("greaterThan");
            reveal_strlit(">=");
            reveal_strlit("greaterThanOrEquals");
            reveal_strlit("<");
            reveal_strlit("lessThan");
            reveal_strlit("<=");
            reveal_strlit("lessThanOrEquals");
            reveal_strlit("startsWith");
            reveal_strlit("endsWith");
            reveal_strlit("contains");
            reveal_strlit("matches");
            reveal_strlit("exists");
            reveal_strlit("isBoolean");
            reveal_strlit("isEmpty");
            reveal_strlit("isFloat");
            reveal_strlit("isInteger");
            reveal_strlit("isNumber");
            assert("isString"@.len() != "=="@.len());
            assert("isString"@.len() != "equals"@.len());
            assert("isString"@.len() != "!="@.len());
            assert("isString"@.len() != "notEquals"@.len());
            assert("isString"@.len() != ">"@.len());
            assert("isString"@.len() != "greaterThan"@.len());
            assert("isString"@.len() != ">="@.len());
            assert("isString"@.len() != "greaterThanOrEquals"@.len());
            assert("isString"@.len() != "<"@.len());
            assert("isString"@[0] != "lessThan"@[0]);
            assert("isString"@.len() != "<="@.len());
            assert("isString"@.len() != "lessThanOrEquals"@.len());
            assert("isString"@.len() != "startsWith"@.len());
            assert("isString"@[0] != "endsWith"@[0]);
            assert("isString"@[0] != "contains"@[0]);
            assert("isString"@.len() != "matches"@.len());
            assert("isString"@.len() != "exists"@.len());
            assert("isString"@.len() != "isBoolean"@.len());
            assert("isString"@.len() != "isEmpty"@.len());
            assert("isString"@.len() != "isFloat"@.len());
            assert("isString"@.len() != "isInteger"@.len());
            assert("isString"@[2] != "isNumber"@[2]);
        }
    }
    if op == "isCollection"@ {
        assert(comparison_of("isCollection"@) is None && check_of("isCollection"@) == Some(Check::IsCollection)) by {
            reveal_strlit("isCollection");
            reveal_strlit("==");
            reveal_strlit("equals");
            reveal_strlit("!=");
            reveal_strlit("notEquals");
            reveal_strlit(">");
            reveal_strlit("greaterThan");
            reveal_strlit(">=");
            reveal_strlit("greaterThanOrEquals");
            reveal_strlit("<");
            reveal_strlit("lessThan");
            reveal_strlit("<=");
            reveal_strlit("lessThanOrEquals");
            reveal_strlit("startsWith");
            reveal_strlit("endsWith");
            reveal_strlit("contains");
            reveal_strlit("matches");
            reveal_strlit("exists");
            reveal_strlit("isBoolean");
            reveal_strlit("isEmpty");
            reveal_strlit("isFloat");
            reveal_strlit("isInteger");
            reveal_strlit("isNumber");
            reveal_strlit("isString");
            assert("isCollection"@.len() != "=="@.len());
            assert("isCollection"@.len() != "equals"@.len());
            assert("isCollection"@.len() != "!="@.len());
            assert("isCollection"@.len() != "notEquals"@.len());
            assert("isCollection"@.len() != ">"@.len());
            assert("isCollection"@.len() != "greaterThan"@.len());
            assert("isCollection"@.len() != ">="@.len());
            assert("isCollection"@.len() != "greaterThanOrEquals"@.len());
            assert("isCollection"@.len() != "<"@.len());
            assert("isCollection"@.len() != "lessThan"@.len());
            assert("isCollection"@.len() != "<="@.len());
            assert("isCollection"@.len() != "lessThanOrEquals"@.len());
            assert("isCollection"@.len() != "startsWith"@.len());
            assert("isCollection"@.len() != "endsWith"@.len());
            assert("isCollection"@.len() != "contains"@.len());
            assert("isCollection"@.len() != "matches"@.len());
            assert("isCollection"@.len() != "exists"@.len());
            assert("isCollection"@.len() != "isBoolean"@.len());
            assert("isCollection"@.len() != "isEmpty"@.len());
            assert("isCollection"@.len() != "isFloat"@.len());
            assert("isCollection"@.len() != "isInteger"@.len());
            assert("isCollection"@.len() != "isNumber"@.len());
            assert("isCollection"@.len() != "isString"@.len());
        }
    }
    if op == "isDate"@ {
        assert(comparison_of("isDate"@) is None && check_of("isDate"@) == Some(Check::IsDate)) by {
            reveal_strlit("isDate");
            reveal_strlit("==");
            reveal_strlit("equals");
            reveal_strlit("!=");
            reveal_strlit("notEquals");
            reveal_strlit(">");
            reveal_strlit("greaterThan");
            reveal_strlit(">=");
            reveal_strlit("greaterThanOrEquals");
            reveal_strlit("<");
            reveal_strlit("lessThan");
            reveal_strlit("<=");
            reveal_strlit("lessThanOrEquals");
            reveal_strlit("startsWith");
            reveal_strlit("endsWith");
            reveal_strlit("contains");
            reveal_strlit("matches");
            reveal_strlit("exists");
            reveal_strlit("isBoolean");
            reveal_strlit("isEmpty");
            reveal_strlit("isFloat");
            reveal_strlit("isInteger");
            reveal_strlit("isNumber");
            reveal_strlit("isString");
            reveal_strlit("isCollection");
            assert("isDate"@.len() != "=="@.len());
            assert("isDate"@[0] != "equals"@[0]);
            assert("isDate"@.len() != "!="@.len());
            assert("isDate"@.len() != "notEquals"@.len());
            assert("isDate"@.len() != ">"@.len());
            assert("isDate"@.len() != "greaterThan"@.len());
            assert("isDate"@.len() != ">="@.len());
            assert("isDate"@.len() != "greaterThanOrEquals"@.len());
            assert("isDate"@.len() != "<"@.len());
            assert("isDate"@.len() != "lessThan"@.len());
            assert("isDate"@.len() != "<="@.len());
            assert("isDate"@.len() != "lessThanOrEquals"@.len());
            assert("isDate"@.len() != "startsWith"@.len());
            assert("isDate"@.len() != "endsWith"@.len());
            assert("isDate"@.len() != "contains"@.len());
            assert("isDate"@.len() != "matches"@.len());
            assert("isDate"@[0] != "exists"@[0]);
            assert("isDate"@.len() != "isBoolean"@.len());
            assert("isDate"@.len() != "isEmpty"@.len());
            assert("isDate"@.len() != "isFloat"@.len());
            assert("isDate"@.len() != "isInteger"@.len());
            assert("isDate"@.len() != "isNumber"@.len());
            assert("isDate"@.len() != "isString"@.len());
            assert("isDate"@.len() != "isCollection"@.len());
        }
    }
    if op == "isIsoDate"@ {
        assert(comparison_of("isIsoDate"@) is None && check_of("isIsoDate"@) == Some(Check::IsIsoDate)) by {
            reveal_strlit("isIsoDate");
            reveal_strlit("==");
            reveal_strlit("equals");
            reveal_strlit("!=");
            reveal_strlit("notEquals");
            reveal_strlit(">");
            reveal_strlit("greaterThan");
            reveal_strlit(">=");
            reveal_strlit("greaterThanOrEquals");
            reveal_strlit("<");
            reveal_strlit("lessThan");
            reveal_strlit("<=");
            reveal_strlit("lessThanOrEquals");
            reveal_strlit("startsWith");
            reveal_strlit("endsWith");
            reveal_strlit("contains");
            reveal_strlit("matches");
            reveal_strlit("exists");
            reveal_strlit("isBoolean");
            reveal_strlit("isEmpty");
            reveal_strlit("isFloat");
            reveal_strlit("isInteger");
            reveal_strlit("isNumber");
            reveal_strlit("isString");
            reveal_strlit("isCollection");
            reveal_strlit("isDate");
            assert("isIsoDate"@.len() != "=="@.len());
            assert("isIsoDate"@.len() != "equals"@.len());
            assert("isIsoDate"@.len() != "!="@.len());
            assert("isIsoDate"@[0] != "notEquals"@[0]);
            assert("isIsoDate"@.len() != ">"@.len());
            assert("isIsoDate"@.len() != "greaterThan"@.len());
            assert("isIsoDate"@.len() != ">="@.len());
            assert("isIsoDate"@.len() != "greaterThanOrEquals"@.len());
            assert("isIsoDate"@.len() != "<"@.len());
            assert("isIsoDate"@.len() != "lessThan"@.len());
            assert("isIsoDate"@.len() != "<="@.len());
            assert("isIsoDate"@.len() != "lessThanOrEquals"@.len());
            assert("isIsoDate"@.len() != "startsWith"@.len());
            assert("isIsoDate"@.len() != "endsWith"@.len());
            assert("isIsoDate"@.len() != "contains"@.len());
            assert("isIsoDate"@.len() != "matches"@.len());
            assert("isIsoDate"@.len() != "exists"@.len());
            assert("isIsoDate"@[2] != "isBoolean"@[2]);
            assert("isIsoDate"@.len() != "isEmpty"@.len());
            assert("isIsoDate"@.len() != "isFloat"@.len());
            assert("isIsoDate"@[3] != "isInteger"@[3]);
            assert("isIsoDate"@.len() != "isNumber"@.len());
            assert("isIsoDate"@.len() != "isString"@.len());
            assert("isIsoDate"@.len() != "isCollection"@.len());
            assert("isIsoDate"@.len() != "isDate"@.len());
        }
    }
}

/// An assert on `status`, `duration` or `version` takes no query argument:
/// its query is that of its name, and all of its entries describe the
/// predicate (so `version "==" "2"` compares the version with `"2"`).
pub proof fn law_argumentless_asserts_read_all_entries(c: KdlNode)
    requires
        c.name@ == "status"@ || c.name@ == "duration"@ || c.name@ == "version"@,
    ensures
        assert_view(c) == match predicate_view(c.entries@) {
            Ok(p) => Ok(
                AssertView {
                    query: if c.name@ == "status"@ {
                        QueryView::Status
                    } else if c.name@ == "duration"@ {
                        QueryView::Duration
                    } else {
                        QueryView::Version
                    },
                    predicate: p,
                },
            ),
            Err(e) => Err::<AssertView, ErrorView>(e),
        },
{
    reveal_strlit("status");
    reveal_strlit("duration");
    reveal_strlit("version");
    reveal_strlit("jsonpath");
    reveal_strlit("xpath");
    reveal_strlit("header");
    reveal_strlit("cookie");
    reveal_strlit("regex");
    reveal_strlit("body");
    reveal_strlit("url");
    assert("status"@[0] != "duration"@[0] && "status"@[0] != "version"@[0]);
    assert("duration"@[0] != "version"@[0]);
    assert(c.name@ != "jsonpath"@ && c.name@ != "xpath"@ && c.name@ != "header"@);
    assert(c.name@ != "cookie"@ && c.name@ != "regex"@ && c.name@ != "body"@);
    assert(c.name@ != "url"@);
}

/// A `version` node naming a known HTTP version gives a response whose
/// version reads back as that very string.
pub proof fn law_version_reads_back(n: KdlNode, v: Seq<char>)
    requires
        first_entry_string(n) == Some(v),
        v == "HTTP/1.0"@ || v == "HTTP/1.1"@ || v == "HTTP/2"@ || v == "HTTP/3"@,
    ensures
        version_text(version_view(n)) == v,
{
    reveal_strlit("HTTP/1.0");
    reveal_strlit("HTTP/1.1");
    reveal_strlit("HTTP/2");
    reveal_strlit("HTTP/3");
    assert("HTTP/1.0"@[7] != "HTTP/1.1"@[7]);
    assert("HTTP/1.0"@.len() != "HTTP/2"@.len() && "HTTP/1.0"@.len() != "HTTP/3"@.len());
    assert("HTTP/1.1"@.len() != "HTTP/2"@.len() && "HTTP/1.1"@.len() != "HTTP/3"@.len());
    assert("HTTP/2"@[5] != "HTTP/3"@[5]);
}

} // verus!
