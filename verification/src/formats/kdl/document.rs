//! A KDL document as a plain tree of nodes, and the readings of a node that
//! the translation makes (its arguments, properties and children).
use vstd::prelude::*;

use crate::writer::text::{decimal_int, i128_to_decimal, owned, str_equal};

verus! {

/// A KDL value. A float is held as the text Rust writes for it (`f64`'s
/// `Display`), which is all the translation uses of it.
#[derive(Debug, PartialEq, Eq)]
pub enum KdlValue {
    String(String),
    Integer(i128),
    Float(String),
    Bool(bool),
    Null,
}

/// An entry of a node: an argument (no name) or a property (`name=value`).
#[derive(Debug, PartialEq, Eq)]
pub struct KdlEntry {
    pub name: Option<String>,
    pub value: KdlValue,
}

/// A node: its name, its entries in order, and its children block if it has one.
#[derive(Debug, PartialEq, Eq)]
pub struct KdlNode {
    pub name: String,
    pub entries: Vec<KdlEntry>,
    pub children: Option<KdlTree>,
}

/// A document: a sequence of nodes.
#[derive(Debug, PartialEq, Eq)]
pub struct KdlTree {
    pub nodes: Vec<KdlNode>,
}

/// The characters of an optional string.
pub open spec fn opt_chars(o: Option<String>) -> Option<Seq<char>> {
    match o {
        Some(s) => Some(s@),
        None => None,
    }
}

/// The string a value holds, if it is a string.
pub open spec fn value_as_string(v: KdlValue) -> Option<Seq<char>> {
    match v {
        KdlValue::String(s) => Some(s@),
        _ => None,
    }
}

/// The text of a value: a string as it is, a number in decimal, `true`,
/// `false` or `null`.
pub open spec fn value_text(v: KdlValue) -> Seq<char> {
    match v {
        KdlValue::String(s) => s@,
        KdlValue::Integer(i) => decimal_int(i as int),
        KdlValue::Float(f) => f@,
        KdlValue::Bool(b) => if b {
            seq!['t', 'r', 'u', 'e']
        } else {
            seq!['f', 'a', 'l', 's', 'e']
        },
        KdlValue::Null => seq!['n', 'u', 'l', 'l'],
    }
}

/// The child nodes of a node; none when it has no children block.
pub open spec fn child_nodes(n: KdlNode) -> Seq<KdlNode> {
    match n.children {
        Some(d) => d.nodes@,
        None => Seq::empty(),
    }
}

/// The first argument (entry without a name) among `es`.
pub open spec fn first_argument(es: Seq<KdlEntry>) -> Option<KdlEntry>
    decreases es.len(),
{
    if es.len() == 0 {
        None
    } else if es[0].name is None {
        Some(es[0])
    } else {
        first_argument(es.drop_first())
    }
}

/// The string of the first argument of a node, if that argument is a string.
pub open spec fn first_argument_string(n: KdlNode) -> Option<Seq<char>> {
    match first_argument(n.entries@) {
        Some(e) => value_as_string(e.value),
        None => None,
    }
}

/// The string of the first entry of a node, if that entry is a string.
pub open spec fn first_entry_string(n: KdlNode) -> Option<Seq<char>> {
    if n.entries.len() > 0 {
        value_as_string(n.entries@[0].value)
    } else {
        None
    }
}

/// The text of the first entry of a node, or the empty text when it has none.
pub open spec fn first_entry_text(n: KdlNode) -> Seq<char> {
    if n.entries.len() > 0 {
        value_text(n.entries@[0].value)
    } else {
        Seq::empty()
    }
}

/// The name of the first property (entry with a name) among `es`.
pub open spec fn first_property_name(es: Seq<KdlEntry>) -> Option<Seq<char>>
    decreases es.len(),
{
    if es.len() == 0 {
        None
    } else if es[0].name is Some {
        Some(es[0].name->0@)
    } else {
        first_property_name(es.drop_first())
    }
}

/// The first property named `key` among `es`.
pub open spec fn first_property(es: Seq<KdlEntry>, key: Seq<char>) -> Option<KdlEntry>
    decreases es.len(),
{
    if es.len() == 0 {
        None
    } else if opt_chars(es[0].name) == Some(key) {
        Some(es[0])
    } else {
        first_property(es.drop_first(), key)
    }
}

/// The first node named `name` among `nodes`.
pub open spec fn first_named(nodes: Seq<KdlNode>, name: Seq<char>) -> Option<KdlNode>
    decreases nodes.len(),
{
    if nodes.len() == 0 {
        None
    } else if nodes[0].name@ == name {
        Some(nodes[0])
    } else {
        first_named(nodes.drop_first(), name)
    }
}

/// A copy of the string a value holds, if it is a string.
pub fn as_string(v: &KdlValue) -> (r: Option<String>)
    ensures
        opt_chars(r) == value_as_string(*v),
{
    match v {
        KdlValue::String(s) => Some(s.clone()),
        _ => None,
    }
}

/// Converts a KDL value to a string representation.
pub fn kdl_value_to_string(value: &KdlValue) -> (r: String)
    ensures
        r@ == value_text(*value),
{
    match value {
        KdlValue::String(s) => s.clone(),
        KdlValue::Integer(i) => i128_to_decimal(*i),
        KdlValue::Float(f) => f.clone(),
        KdlValue::Bool(b) => {
            proof {
                reveal_strlit("true");
                reveal_strlit("false");
            }
            if *b {
                owned("true")
            } else {
                owned("false")
            }
        },
        KdlValue::Null => {
            proof {
                reveal_strlit("null");
            }
            owned("null")
        },
    }
}

/// The position of the first argument among `es`, if there is one.
pub fn find_first_argument(es: &Vec<KdlEntry>) -> (r: Option<usize>)
    ensures
        match r {
            Some(i) => i < es.len() && first_argument(es@) == Some(es@[i as int]),
            None => first_argument(es@) is None,
        },
{
    let mut i: usize = 0;
    assert(es@.skip(0) == es@);
    while i < es.len()
        invariant
            i <= es.len(),
            first_argument(es@) == first_argument(es@.skip(i as int)),
        decreases es.len() - i,
    {
        assert(es@.skip(i as int).drop_first() == es@.skip(i + 1));
        if es[i].name.is_none() {
            return Some(i);
        }
        i += 1;
    }
    None
}

/// The string of the first argument of a node, if that argument is a string.
pub fn argument_string(node: &KdlNode) -> (r: Option<String>)
    ensures
        opt_chars(r) == first_argument_string(*node),
{
    match find_first_argument(&node.entries) {
        Some(i) => as_string(&node.entries[i].value),
        None => None,
    }
}

/// The string of the first entry of a node, if that entry is a string.
pub fn entry_string(node: &KdlNode) -> (r: Option<String>)
    ensures
        opt_chars(r) == first_entry_string(*node),
{
    if node.entries.len() > 0 {
        as_string(&node.entries[0].value)
    } else {
        None
    }
}

/// The text of the first entry of a node, or the empty string.
pub fn entry_text(node: &KdlNode) -> (r: String)
    ensures
        r@ == first_entry_text(*node),
{
    if node.entries.len() > 0 {
        kdl_value_to_string(&node.entries[0].value)
    } else {
        String::new()
    }
}

/// The name of the first property of a node, if it has one.
pub fn property_name(es: &Vec<KdlEntry>) -> (r: Option<String>)
    ensures
        opt_chars(r) == first_property_name(es@),
{
    let mut i: usize = 0;
    assert(es@.skip(0) == es@);
    while i < es.len()
        invariant
            i <= es.len(),
            first_property_name(es@) == first_property_name(es@.skip(i as int)),
        decreases es.len() - i,
    {
        assert(es@.skip(i as int).drop_first() == es@.skip(i + 1));
        match &es[i].name {
            Some(n) => {
                return Some(n.clone());
            },
            None => {},
        }
        i += 1;
    }
    None
}

/// The position of the first property named `key` among `es`, if there is one.
pub fn find_property(es: &Vec<KdlEntry>, key: &str) -> (r: Option<usize>)
    ensures
        match r {
            Some(i) => i < es.len() && first_property(es@, key@) == Some(es@[i as int]),
            None => first_property(es@, key@) is None,
        },
{
    let mut i: usize = 0;
    assert(es@.skip(0) == es@);
    while i < es.len()
        invariant
            i <= es.len(),
            first_property(es@, key@) == first_property(es@.skip(i as int), key@),
        decreases es.len() - i,
    {
        assert(es@.skip(i as int).drop_first() == es@.skip(i + 1));
        match &es[i].name {
            Some(n) => {
                if str_equal(n.as_str(), key) {
                    return Some(i);
                }
            },
            None => {},
        }
        i += 1;
    }
    None
}

/// The position of the first node named `name` among `nodes`, if there is one.
pub fn find_named(nodes: &Vec<KdlNode>, name: &str) -> (r: Option<usize>)
    ensures
        match r {
            Some(i) => i < nodes.len() && first_named(nodes@, name@) == Some(nodes@[i as int]),
            None => first_named(nodes@, name@) is None,
        },
{
    let mut i: usize = 0;
    assert(nodes@.skip(0) == nodes@);
    while i < nodes.len()
        invariant
            i <= nodes.len(),
            first_named(nodes@, name@) == first_named(nodes@.skip(i as int), name@),
        decreases nodes.len() - i,
    {
        assert(nodes@.skip(i as int).drop_first() == nodes@.skip(i + 1));
        if str_equal(nodes[i].name.as_str(), name) {
            return Some(i);
        }
        i += 1;
    }
    None
}

} // verus!
