//! The Hurl source text of syntax-tree nodes: what Hurl writes for a
//! template, a JSON value and a multiline string.
use vstd::prelude::*;

use crate::writer::ast::{
    GraphQlView, JsonListElementView, JsonObjectElementView, JsonValue, JsonValueView,
    MultilineString, MultilineStringKindView, MultilineStringView, Template, TemplateElement,
    TemplateElementView, TemplateView,
};
use crate::writer::text::push_char;

verus! {

/// The text of a delimiter: the character itself, or nothing.
pub open spec fn delimiter_text(d: Option<char>) -> Seq<char> {
    match d {
        Some(c) => seq![c],
        None => Seq::empty(),
    }
}

/// The source of one template element: literal text as written, or
/// `{{name}}` for a placeholder.
pub open spec fn element_source(e: TemplateElementView) -> Seq<char> {
    match e {
        TemplateElementView::Text { value, source } => source,
        TemplateElementView::Placeholder(name) => seq!['{', '{'] + name + seq!['}', '}'],
    }
}

/// The sources of the elements, one after the other.
pub open spec fn elements_source(es: Seq<TemplateElementView>) -> Seq<char>
    decreases es.len(),
{
    if es.len() == 0 {
        Seq::empty()
    } else {
        element_source(es[0]) + elements_source(es.drop_first())
    }
}

/// The source of a template: its elements between its delimiters.
pub open spec fn template_source(t: TemplateView) -> Seq<char> {
    delimiter_text(t.delimiter) + elements_source(t.elements) + delimiter_text(t.delimiter)
}

/// The source of a concatenation is the concatenation of the sources.
pub proof fn lemma_elements_source_concat(a: Seq<TemplateElementView>, b: Seq<TemplateElementView>)
    ensures
        elements_source(a + b) == elements_source(a) + elements_source(b),
    decreases a.len(),
{
    if a.len() == 0 {
        assert(a + b == b);
    } else {
        assert((a + b).drop_first() == a.drop_first() + b);
        lemma_elements_source_concat(a.drop_first(), b);
    }
}

/// The source of a single element.
pub proof fn lemma_elements_source_single(x: TemplateElementView)
    ensures
        elements_source(seq![x]) == element_source(x),
{
    let one = seq![x];
    assert(one.drop_first() == Seq::<TemplateElementView>::empty());
    assert(elements_source(one.drop_first()) == Seq::<char>::empty());
    assert(elements_source(one) == element_source(x) + Seq::<char>::empty());
    assert(element_source(x) + Seq::<char>::empty() == element_source(x));
}

/// The source of a prefix one element longer.
pub proof fn lemma_elements_source_take(es: Seq<TemplateElementView>, i: int)
    requires
        0 <= i < es.len(),
    ensures
        elements_source(es.take(i + 1)) == elements_source(es.take(i)) + element_source(es[i]),
{
    assert(es.take(i + 1) == es.take(i) + seq![es[i]]);
    lemma_elements_source_concat(es.take(i), seq![es[i]]);
    lemma_elements_source_single(es[i]);
}

fn append_element_source(out: &mut String, e: &TemplateElement)
    ensures
        final(out)@ == old(out)@ + element_source(e@),
{
    match e {
        TemplateElement::String { value, source } => {
            out.append(source.as_str());
        },
        TemplateElement::Placeholder(p) => {
            push_char(out, '{');
            push_char(out, '{');
            out.append(p.variable.as_str());
            push_char(out, '}');
            push_char(out, '}');
            assert(final(out)@ == old(out)@ + element_source(e@));
        },
    }
}

/// Appends the source of a template.
pub fn append_template_source(out: &mut String, t: &Template)
    ensures
        final(out)@ == old(out)@ + template_source(t@),
{
    let ghost start = out@;
    let ghost es = t@.elements;
    if let Some(d) = t.delimiter {
        push_char(out, d);
    }
    assert(out@ == start + delimiter_text(t.delimiter));
    let mut i: usize = 0;
    while i < t.elements.len()
        invariant
            i <= t.elements.len(),
            es == t@.elements,
            es.len() == t.elements.len(),
            out@ == start + delimiter_text(t.delimiter) + elements_source(es.take(i as int)),
        decreases t.elements.len() - i,
    {
        proof {
            lemma_elements_source_take(es, i as int);
        }
        append_element_source(out, &t.elements[i]);
        i += 1;
    }
    assert(es.take(i as int) == es);
    if let Some(d) = t.delimiter {
        push_char(out, d);
    }
}

/// The source of a template (hurl's `to_source`).
pub fn template_to_source(t: &Template) -> (r: String)
    ensures
        r@ == template_source(t@),
{
    let mut r = String::new();
    append_template_source(&mut r, t);
    r
}

/// The source of a JSON value: numbers as written, strings as templates,
/// lists and objects with their elements separated by commas and their
/// blanks kept where they stand.
pub open spec fn json_text(v: JsonValueView) -> Seq<char>
    decreases v, 0int,
{
    match v {
        JsonValueView::Number(n) => n,
        JsonValueView::String(t) => template_source(t),
        JsonValueView::Boolean(b) => if b {
            "true"@
        } else {
            "false"@
        },
        JsonValueView::List { space0, elements } => "["@ + space0 + json_list_text(
            elements,
            elements.len() as int,
        ) + "]"@,
        JsonValueView::Object { space0, elements } => "{"@ + space0 + json_object_text(
            elements,
            elements.len() as int,
        ) + "}"@,
        JsonValueView::Null => "null"@,
    }
}

/// The first `k` list elements, separated by commas.
pub open spec fn json_list_text(es: Seq<JsonListElementView>, k: int) -> Seq<char>
    decreases es, k,
{
    if k <= 0 || k > es.len() {
        Seq::empty()
    } else {
        proof {
            assert(decreases_to!(es => es[k - 1]));
        }
        let e = es[k - 1];
        let text = e.space0 + json_text(e.value) + e.space1;
        if k == 1 {
            text
        } else {
            json_list_text(es, k - 1) + ","@ + text
        }
    }
}

/// The first `k` object members, separated by commas.
pub open spec fn json_object_text(es: Seq<JsonObjectElementView>, k: int) -> Seq<char>
    decreases es, k,
{
    if k <= 0 || k > es.len() {
        Seq::empty()
    } else {
        proof {
            assert(decreases_to!(es => es[k - 1]));
        }
        let e = es[k - 1];
        let text = e.space0 + template_source(e.name) + e.space1 + ":"@ + e.space2 + json_text(
            e.value,
        ) + e.space3;
        if k == 1 {
            text
        } else {
            json_object_text(es, k - 1) + ","@ + text
        }
    }
}

/// Appends the source of a JSON value.
pub fn append_json_source(out: &mut String, v: &JsonValue)
    ensures
        final(out)@ == old(out)@ + json_text(v@),
    decreases v, 0int,
{
    proof {
        reveal_with_fuel(<JsonValue as View>::view, 2);
    }
    match v {
        JsonValue::Number(n) => {
            out.append(n.as_str());
        },
        JsonValue::String(t) => {
            append_template_source(out, t);
        },
        JsonValue::Boolean(b) => {
            if *b {
                out.append("true");
            } else {
                out.append("false");
            }
        },
        JsonValue::List { space0, elements } => {
            let ghost start = out@;
            let ghost es = v@->List_elements;
            assert(*elements == v->List_elements);
            assert(es.len() == elements@.len());
            assert(forall|j: int|
                0 <= j < es.len() ==> #[trigger] es[j] == (JsonListElementView {
                    space0: elements@[j].space0@,
                    value: elements@[j].value@,
                    space1: elements@[j].space1@,
                }));
            out.append("[");
            out.append(space0.as_str());
            let mut i: usize = 0;
            while i < elements.len()
                invariant
                    i <= elements.len(),
                    es == v@->List_elements,
                    v@ == (JsonValueView::List { space0: space0@, elements: es }),
                    *elements == v->List_elements,
                    forall|j: int|
                        0 <= j < es.len() ==> #[trigger] es[j] == (JsonListElementView {
                            space0: elements@[j].space0@,
                            value: elements@[j].value@,
                            space1: elements@[j].space1@,
                        }),
                    es.len() == elements.len(),
                    out@ == start + "["@ + space0@ + json_list_text(es, i as int),
                decreases elements.len() - i,
            {
                if i > 0 {
                    out.append(",");
                }
                out.append(elements[i].space0.as_str());
                proof {
                    assert(decreases_to!(*v => v->List_elements));
                    assert(decreases_to!(*elements => elements@));
                    assert(decreases_to!(elements@ => elements@[i as int]));
                }
                append_json_source(out, &elements[i].value);
                out.append(elements[i].space1.as_str());
                i += 1;
            }
            out.append("]");
        },
        JsonValue::Object { space0, elements } => {
            let ghost start = out@;
            let ghost es = v@->Object_elements;
            assert(*elements == v->Object_elements);
            assert(es.len() == elements@.len());
            assert(forall|j: int|
                0 <= j < es.len() ==> #[trigger] es[j] == (JsonObjectElementView {
                    space0: elements@[j].space0@,
                    name: elements@[j].name@,
                    space1: elements@[j].space1@,
                    space2: elements@[j].space2@,
                    value: elements@[j].value@,
                    space3: elements@[j].space3@,
                }));
            out.append("{");
            out.append(space0.as_str());
            let mut i: usize = 0;
            while i < elements.len()
                invariant
                    i <= elements.len(),
                    es == v@->Object_elements,
                    v@ == (JsonValueView::Object { space0: space0@, elements: es }),
                    *elements == v->Object_elements,
                    forall|j: int|
                        0 <= j < es.len() ==> #[trigger] es[j] == (JsonObjectElementView {
                            space0: elements@[j].space0@,
                            name: elements@[j].name@,
                            space1: elements@[j].space1@,
                            space2: elements@[j].space2@,
                            value: elements@[j].value@,
                            space3: elements@[j].space3@,
                        }),
                    es.len() == elements.len(),
                    out@ == start + "{"@ + space0@ + json_object_text(es, i as int),
                decreases elements.len() - i,
            {
                if i > 0 {
                    out.append(",");
                }
                out.append(elements[i].space0.as_str());
                append_template_source(out, &elements[i].name);
                out.append(elements[i].space1.as_str());
                out.append(":");
                out.append(elements[i].space2.as_str());
                proof {
                    assert(decreases_to!(*v => v->Object_elements));
                    assert(decreases_to!(*elements => elements@));
                    assert(decreases_to!(elements@ => elements@[i as int]));
                }
                append_json_source(out, &elements[i].value);
                out.append(elements[i].space3.as_str());
                i += 1;
            }
            out.append("}");
        },
        JsonValue::Null => {
            out.append("null");
        },
    }
}

/// The source of a JSON value (hurl's `to_source`).
pub fn json_to_source(v: &JsonValue) -> (r: String)
    ensures
        r@ == json_text(v@),
{
    let mut r = String::new();
    append_json_source(&mut r, v);
    r
}

/// The language word of a multiline string.
pub open spec fn multiline_lang(kind: MultilineStringKindView) -> Seq<char> {
    match kind {
        MultilineStringKindView::Text(_) => Seq::empty(),
        MultilineStringKindView::Xml(_) => "xml"@,
        MultilineStringKindView::GraphQl(_) => "graphql"@,
    }
}

/// The source of a GraphQL query with its optional variables.
pub open spec fn graphql_text(g: GraphQlView) -> Seq<char> {
    template_source(g.value) + match g.variables {
        Some(vars) => "variables"@ + vars.space.value + json_text(vars.value) + vars.whitespace.value,
        None => Seq::empty(),
    }
}

/// The source of what a multiline string holds.
pub open spec fn multiline_kind_text(kind: MultilineStringKindView) -> Seq<char> {
    match kind {
        MultilineStringKindView::Text(t) => template_source(t),
        MultilineStringKindView::Xml(t) => template_source(t),
        MultilineStringKindView::GraphQl(g) => graphql_text(g),
    }
}

/// The source of a multiline string: between triple backquotes, the
/// language word, the blanks, then the content.
pub open spec fn multiline_text(m: MultilineStringView) -> Seq<char> {
    "```"@ + multiline_lang(m.kind) + m.space.value + m.newline.value + multiline_kind_text(m.kind)
        + "```"@
}

/// Appends the source of a multiline string.
pub fn append_multiline_source(out: &mut String, m: &MultilineString)
    ensures
        final(out)@ == old(out)@ + multiline_text(m@),
{
    out.append("```");
    match &m.kind {
        crate::writer::ast::MultilineStringKind::Text(_) => {
            proof {
                reveal_strlit("");
            }
            out.append("");
        },
        crate::writer::ast::MultilineStringKind::Xml(_) => {
            out.append("xml");
        },
        crate::writer::ast::MultilineStringKind::GraphQl(_) => {
            out.append("graphql");
        },
    }
    out.append(m.space.value.as_str());
    out.append(m.newline.value.as_str());
    match &m.kind {
        crate::writer::ast::MultilineStringKind::Text(t) => {
            append_template_source(out, t);
        },
        crate::writer::ast::MultilineStringKind::Xml(t) => {
            append_template_source(out, t);
        },
        crate::writer::ast::MultilineStringKind::GraphQl(g) => {
            append_template_source(out, &g.value);
            match &g.variables {
                Some(vars) => {
                    out.append("variables");
                    out.append(vars.space.value.as_str());
                    append_json_source(out, &vars.value);
                    out.append(vars.whitespace.value.as_str());
                },
                None => {},
            }
        },
    }
    out.append("```");
}

} // verus!
