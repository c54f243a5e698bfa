//! The JSON body that KDL nodes stand for: each node is a member named after
//! the node; children make an object, several arguments a list, one argument
//! a scalar, and nothing `null`.
use vstd::prelude::*;

use crate::formats::kdl::document::{KdlNode, KdlValue};
use crate::writer::ast::{
    JsonListElement, JsonListElementView, JsonObjectElement, JsonObjectElementView, JsonValue,
    JsonValueView, Template, TemplateElement, TemplateView,
};
use crate::writer::helpers::{
    dummy_info, dummy_source_info, quoted_placeholder_template_view,
    quoted_template_with_placeholders, text_element,
};
use crate::writer::helpers::law_quoted_template_round_trip;
use crate::writer::source::{json_text, lemma_elements_source_single};
use crate::writer::text::{contains_open_braces, decimal_int, has_open_braces, i128_to_decimal, owned};

verus! {

/// The JSON string template for `value`: the text as it is, between double quotes.
pub open spec fn quoted_json_template_view(value: Seq<char>) -> TemplateView {
    TemplateView {
        delimiter: Some('"'),
        elements: seq![text_element(value)],
        source_info: dummy_info(),
    }
}

/// The blank text before each member of an object: a newline and four spaces.
pub open spec fn member_indent() -> Seq<char> {
    seq!['\n', ' ', ' ', ' ', ' ']
}

/// The JSON value of a KDL value: strings become quoted templates (with
/// placeholders when they hold `{{`), numbers keep their decimal text.
pub open spec fn json_scalar_view(v: KdlValue) -> JsonValueView {
    match v {
        KdlValue::String(s) => if has_open_braces(s@) {
            JsonValueView::String(quoted_placeholder_template_view(s@))
        } else {
            JsonValueView::String(quoted_json_template_view(s@))
        },
        KdlValue::Integer(i) => JsonValueView::Number(decimal_int(i as int)),
        KdlValue::Float(f) => JsonValueView::Number(f@),
        KdlValue::Bool(b) => JsonValueView::Boolean(b),
        KdlValue::Null => JsonValueView::Null,
    }
}

/// Whether every entry of a node is an argument.
pub open spec fn all_arguments(n: KdlNode) -> bool {
    forall|i: int| 0 <= i < n.entries.len() ==> #[trigger] n.entries@[i].name is None
}

/// The member of the object for `nodes[i]`; the last member ends with a newline.
pub open spec fn json_member_view(nodes: Seq<KdlNode>, i: int) -> JsonObjectElementView
    decreases nodes, 0int,
{
    if 0 <= i < nodes.len() {
        proof {
            assert(decreases_to!(nodes => nodes[i]));
        }
        JsonObjectElementView {
            space0: member_indent(),
            name: quoted_json_template_view(nodes[i].name@),
            space1: Seq::empty(),
            space2: seq![' '],
            value: json_node_view(nodes[i]),
            space3: if i == nodes.len() - 1 {
                seq!['\n']
            } else {
                Seq::empty()
            },
        }
    } else {
        JsonObjectElementView {
            space0: Seq::empty(),
            name: quoted_json_template_view(Seq::empty()),
            space1: Seq::empty(),
            space2: Seq::empty(),
            value: JsonValueView::Null,
            space3: Seq::empty(),
        }
    }
}

/// The JSON object whose members are `nodes`.
pub open spec fn json_object_view(nodes: Seq<KdlNode>) -> JsonValueView
    decreases nodes, 1int,
{
    JsonValueView::Object {
        space0: Seq::empty(),
        elements: Seq::new(nodes.len(), |i: int| json_member_view(nodes, i)),
    }
}

/// The JSON value of one node.
pub open spec fn json_node_view(n: KdlNode) -> JsonValueView
    decreases n, 2int,
{
    match n.children {
        Some(d) => {
            proof {
                assert(decreases_to!(n => n.children));
                assert(decreases_to!(n.children => d));
                assert(decreases_to!(d => d.nodes));
                assert(decreases_to!(d.nodes => d.nodes@));
            }
            json_object_view(d.nodes@)
        },
        None => if n.entries.len() > 1 && all_arguments(n) {
            JsonValueView::List {
                space0: Seq::empty(),
                elements: Seq::new(
                    n.entries.len() as nat,
                    |i: int|
                        JsonListElementView {
                            space0: Seq::empty(),
                            value: json_scalar_view(n.entries@[i].value),
                            space1: Seq::empty(),
                        },
                ),
            }
        } else if n.entries.len() > 0 {
            json_scalar_view(n.entries@[0].value)
        } else {
            JsonValueView::Null
        },
    }
}

/// Creates a quoted template for JSON string values.
pub fn quoted_json_template(value: &str) -> (r: Template)
    ensures
        r@ == quoted_json_template_view(value@),
{
    let mut elements: Vec<TemplateElement> = Vec::new();
    elements.push(TemplateElement::String { value: owned(value), source: owned(value) });
    let r = Template { delimiter: Some('"'), elements, source_info: dummy_source_info() };
    assert(r@.elements == seq![text_element(value@)]);
    r
}

/// Converts a KDL value to a JSON value.
pub fn kdl_value_to_json(value: &KdlValue) -> (r: JsonValue)
    ensures
        r@ == json_scalar_view(*value),
{
    match value {
        KdlValue::String(s) => {
            if contains_open_braces(s.as_str()) {
                JsonValue::String(quoted_template_with_placeholders(s.as_str()))
            } else {
                JsonValue::String(quoted_json_template(s.as_str()))
            }
        },
        KdlValue::Integer(i) => JsonValue::Number(i128_to_decimal(*i)),
        KdlValue::Float(f) => JsonValue::Number(f.clone()),
        KdlValue::Bool(b) => JsonValue::Boolean(*b),
        KdlValue::Null => JsonValue::Null,
    }
}

/// Converts KDL nodes to a JSON object.
pub fn kdl_to_json_object(nodes: &Vec<KdlNode>) -> (r: JsonValue)
    ensures
        r@ == json_object_view(nodes@),
    decreases nodes@, 1int,
{
    let mut elements: Vec<JsonObjectElement> = Vec::new();
    let count = nodes.len();
    let mut i: usize = 0;
    while i < count
        invariant
            count == nodes.len(),
            i <= count,
            elements.len() == i,
            forall|j: int|
                0 <= j < i ==> {
                    &&& (#[trigger] elements@[j]).space0@ == json_member_view(nodes@, j).space0
                    &&& elements@[j].name@ == json_member_view(nodes@, j).name
                    &&& elements@[j].space1@ == json_member_view(nodes@, j).space1
                    &&& elements@[j].space2@ == json_member_view(nodes@, j).space2
                    &&& elements@[j].value@ == json_member_view(nodes@, j).value
                    &&& elements@[j].space3@ == json_member_view(nodes@, j).space3
                },
        decreases count - i,
    {
        let node = &nodes[i];
        proof {
            assert(decreases_to!(nodes@ => nodes@[i as int]));
        }
        let value = kdl_node_to_json_value(node);
        let is_last = i == count - 1;
        proof {
            reveal_strlit("\n    ");
            reveal_strlit(" ");
            reveal_strlit("\n");
        }
        let element = JsonObjectElement {
            space0: owned("\n    "),
            name: quoted_json_template(node.name.as_str()),
            space1: String::new(),
            space2: owned(" "),
            value,
            space3: if is_last {
                owned("\n")
            } else {
                String::new()
            },
        };
        assert(element.space0@ == member_indent());
        elements.push(element);
        i += 1;
    }
    let ghost built = elements@;
    let r = JsonValue::Object { space0: String::new(), elements };
    proof {
        match r@ {
            JsonValueView::Object { space0, elements: es } => {
                assert forall|j: int| 0 <= j < es.len() implies es[j] == json_member_view(
                    nodes@,
                    j,
                ) by {
                    assert(built[j].space0@ == json_member_view(nodes@, j).space0);
                }
                let target = json_object_view(nodes@);
                let tes = target->Object_elements;
                assert(es =~= tes);
                assert(space0 =~= target->Object_space0);
                assert(r@ == target);
            },
            _ => {},
        }
    }
    r
}

/// Converts a single KDL node to a JSON value.
pub fn kdl_node_to_json_value(node: &KdlNode) -> (r: JsonValue)
    ensures
        r@ == json_node_view(*node),
    decreases *node, 2int,
{
    if let Some(children) = &node.children {
        proof {
            assert(decreases_to!(*node => node.children));
            assert(decreases_to!(node.children => *children));
            assert(decreases_to!(*children => children.nodes));
            assert(decreases_to!(children.nodes => children.nodes@));
        }
        return kdl_to_json_object(&children.nodes);
    }
    let n = node.entries.len();
    let mut all_args = true;
    let mut k: usize = 0;
    while k < n
        invariant
            n == node.entries.len(),
            k <= n,
            all_args == forall|j: int| 0 <= j < k ==> #[trigger] node.entries@[j].name is None,
        decreases n - k,
    {
        if node.entries[k].name.is_some() {
            all_args = false;
        }
        k += 1;
    }
    if n > 1 && all_args {
        let mut elements: Vec<JsonListElement> = Vec::new();
        let mut i: usize = 0;
        while i < n
            invariant
                n == node.entries.len(),
                i <= n,
                elements.len() == i,
                forall|j: int|
                    0 <= j < i ==> {
                        &&& (#[trigger] elements@[j]).space0@ == Seq::<char>::empty()
                        &&& elements@[j].value@ == json_scalar_view(node.entries@[j].value)
                        &&& elements@[j].space1@ == Seq::<char>::empty()
                    },
            decreases n - i,
        {
            elements.push(
                JsonListElement {
                    space0: String::new(),
                    value: kdl_value_to_json(&node.entries[i].value),
                    space1: String::new(),
                },
            );
            i += 1;
        }
        let r = JsonValue::List { space0: String::new(), elements };
        assert(r@ == json_node_view(*node)) by {
            if let JsonValueView::List { space0, elements: es } = r@ {
                assert(es =~= Seq::new(
                    n as nat,
                    |i: int|
                        JsonListElementView {
                            space0: Seq::empty(),
                            value: json_scalar_view(node.entries@[i].value),
                            space1: Seq::empty(),
                        },
                ));
            }
        }
        return r;
    }
    if n > 0 {
        return kdl_value_to_json(&node.entries[0].value);
    }
    JsonValue::Null
}

/// A KDL string becomes, in the JSON body, that same text between double
/// quotes, whether or not it holds placeholders.
pub proof fn law_json_strings_are_quoted(v: KdlValue)
    requires
        v is String,
    ensures
        json_text(json_scalar_view(v)) == seq!['"'] + v->String_0@ + seq!['"'],
{
    let s = v->String_0@;
    if has_open_braces(s) {
        law_quoted_template_round_trip(s);
    } else {
        lemma_elements_source_single(crate::writer::helpers::text_element(s));
    }
}

/// A member without children whose entries are several arguments is a JSON
/// list with one element per entry, in order: the k-th element is the JSON
/// scalar of the k-th entry.
pub proof fn law_several_arguments_make_a_list(n: KdlNode)
    requires
        n.children is None,
        n.entries.len() > 1,
        forall|i: int| 0 <= i < n.entries.len() ==> #[trigger] n.entries@[i].name is None,
    ensures
        json_node_view(n) matches JsonValueView::List { elements, .. } && elements.len()
            == n.entries.len() && forall|k: int|
            0 <= k < n.entries.len() ==> #[trigger] elements[k].value == json_scalar_view(
                n.entries@[k].value,
            ),
{
}

} // verus!
