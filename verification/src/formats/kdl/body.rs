//! Body handling for KDL to Hurl translation.
use vstd::prelude::*;
use vstd::utf8::{decode_utf8, encode_utf8, valid_utf8};

use crate::formats::kdl::document::{
    argument_string, as_string, value_as_string, find_named, first_argument_string, first_entry_string, first_named,
    first_property_name, opt_chars, property_name, entry_string, KdlNode,
};
use crate::formats::kdl::error::{result_view, ErrorView, TranslationError};
use crate::formats::kdl::json::{json_object_view, kdl_to_json_object};
use crate::writer::ast::{
    Base64, Body, Bytes, BytesView, File, GraphQl, GraphQlVariables, GraphQlVariablesView,
    GraphQlView, Hex, MultilineString, MultilineStringKind, MultilineStringKindView,
    MultilineStringView,
};
use crate::writer::helpers::{
    empty_whitespace, newline_whitespace, placeholder_template_view, simple_template,
    simple_template_view, space, template_with_placeholders, whitespace_view,
};
use crate::writer::text::{concat2, decimal_nat, str_equal, u128_to_decimal};

verus! {

/// What `std::str::from_utf8` writes for the error on `bytes`.
pub uninterp spec fn utf8_error_text(bytes: Seq<u8>) -> Seq<char>;

/// What `u8::from_str_radix` writes for the error on `text`.
pub uninterp spec fn parse_int_error_text(text: Seq<char>) -> Seq<char>;

/// `std::str::from_utf8`: the bytes read as UTF-8 text when they are valid
/// UTF-8, else the text of the error. Nothing is said of that error text but
/// that it depends on the bytes alone.
#[verifier::external_body]
fn utf8_to_string(bytes: &[u8]) -> (r: Result<String, String>)
    ensures
        r is Ok <==> valid_utf8(bytes@),
        r matches Ok(s) ==> s@ == decode_utf8(bytes@),
        r matches Err(m) ==> m@ == utf8_error_text(bytes@),
{
    match std::str::from_utf8(bytes) {
        Ok(s) => Ok(s.to_string()),
        Err(e) => Err(e.to_string()),
    }
}

/// The value of a hexadecimal digit (`0-9`, `a-f`, `A-F`), if `c` is one.
pub open spec fn hex_digit_value(c: char) -> Option<int> {
    if '0' <= c <= '9' {
        Some(c as int - '0' as int)
    } else if 'a' <= c <= 'f' {
        Some(c as int - 'a' as int + 10)
    } else if 'A' <= c <= 'F' {
        Some(c as int - 'A' as int + 10)
    } else {
        None
    }
}

/// The value of a sequence of hexadecimal digits, most significant first.
pub open spec fn hex_digits_value(s: Seq<char>) -> Option<int>
    decreases s.len(),
{
    if s.len() == 0 {
        Some(0)
    } else {
        match (hex_digits_value(s.drop_last()), hex_digit_value(s.last())) {
            (Some(high), Some(low)) => Some(high * 16 + low),
            _ => None,
        }
    }
}

/// What `u8::from_str_radix(text, 16)` accepts, as its documentation gives
/// it: an optional `+` then one or more hexadecimal digits, whose value fits
/// in a `u8`.
pub open spec fn u8_from_hex_text(text: Seq<char>) -> Option<u8> {
    let digits = if text.len() > 0 && text[0] == '+' {
        text.drop_first()
    } else {
        text
    };
    if digits.len() == 0 {
        None
    } else {
        match hex_digits_value(digits) {
            Some(v) => if v < 256 {
                Some(v as u8)
            } else {
                None
            },
            None => None,
        }
    }
}

/// `u8::from_str_radix(text, 16)`: the value of the text when its
/// documentation accepts it, else the text of the error. Nothing is said of
/// that error text but that it depends on the input text alone.
#[verifier::external_body]
fn u8_from_hex(text: &str) -> (r: Result<u8, String>)
    ensures
        match r {
            Ok(v) => u8_from_hex_text(text@) == Some(v),
            Err(m) => u8_from_hex_text(text@) is None && m@ == parse_int_error_text(text@),
        },
{
    match u8::from_str_radix(text, 16) {
        Ok(v) => Ok(v),
        Err(e) => Err(e.to_string()),
    }
}

/// The error message for a two-byte group that is not UTF-8.
pub open spec fn invalid_utf8_message(position: nat, error: Seq<char>) -> Seq<char> {
    "invalid UTF-8 in hex string at position "@ + decimal_nat(position) + ": "@ + error
}

/// The error message for a two-character group that is not a hexadecimal byte.
pub open spec fn invalid_hex_message(text: Seq<char>, position: nat, error: Seq<char>) -> Seq<
    char,
> {
    "invalid hex character(s) '"@ + text + "' at position "@ + decimal_nat(position) + ": "@
        + error
}

/// The reason given for a group of bytes at `position` that is not UTF-8,
/// where `error` is what the UTF-8 reader wrote about it.
pub fn invalid_utf8_reason(position: usize, error: &str) -> (r: String)
    ensures
        r@ == invalid_utf8_message(position as nat, error@),
{
    let digits = u128_to_decimal(position as u128);
    let mut m = String::from_str("invalid UTF-8 in hex string at position ");
    m.append(digits.as_str());
    m.append(": ");
    m.append(error);
    m
}

/// The reason given for a group `text` at `position` that is not a
/// hexadecimal byte, where `error` is what the number reader wrote about it.
pub fn invalid_hex_reason(text: &str, position: usize, error: &str) -> (r: String)
    ensures
        r@ == invalid_hex_message(text@, position as nat, error@),
{
    let digits = u128_to_decimal(position as u128);
    let mut m = String::from_str("invalid hex character(s) '");
    m.append(text);
    m.append("' at position ");
    m.append(digits.as_str());
    m.append(": ");
    m.append(error);
    m
}

/// The bytes that the groups of two bytes from group `k` on stand for, or
/// the error on the first group that is not a hexadecimal byte.
pub open spec fn decode_hex_groups(bytes: Seq<u8>, k: nat) -> Result<Seq<u8>, Seq<char>>
    decreases bytes.len() - 2 * k,
{
    if bytes.len() <= 2 * k + 1 {
        Ok(Seq::empty())
    } else {
        let group = bytes.subrange(2 * k as int, 2 * k as int + 2);
        if !valid_utf8(group) {
            Err(invalid_utf8_message(2 * k, utf8_error_text(group)))
        } else {
            let text = decode_utf8(group);
            match u8_from_hex_text(text) {
                None => Err(invalid_hex_message(text, 2 * k, parse_int_error_text(text))),
                Some(v) => match decode_hex_groups(bytes, k + 1) {
                    Ok(rest) => Ok(seq![v] + rest),
                    Err(e) => Err(e),
                },
            }
        }
    }
}

/// The bytes written in hexadecimal by `text` (read as its UTF-8 bytes), or
/// the error message when they are not.
pub open spec fn decode_hex(text: Seq<char>) -> Result<Seq<u8>, Seq<char>> {
    let bytes = encode_utf8(text);
    if bytes.len() % 2 != 0 {
        Err("hex string has odd length ("@ + decimal_nat(bytes.len()) + "), must be even"@)
    } else {
        decode_hex_groups(bytes, 0)
    }
}

/// The type a body node names: the name of its first property, else its
/// first entry when that is a string.
pub open spec fn body_type(n: KdlNode) -> Option<Seq<char>> {
    match first_property_name(n.entries@) {
        Some(t) => Some(t),
        None => first_entry_string(n),
    }
}

/// A multiline string with no space before its newline.
pub open spec fn multiline_view(kind: MultilineStringKindView) -> BytesView {
    BytesView::MultilineString(
        MultilineStringView {
            space: whitespace_view(Seq::empty()),
            newline: whitespace_view(seq!['\n']),
            kind,
        },
    )
}

/// The variables of a GraphQL body: the children of its first `variables`
/// child, as a JSON object.
pub open spec fn graphql_variables_view(n: KdlNode) -> Option<GraphQlVariablesView> {
    match n.children {
        None => None,
        Some(d) => match first_named(d.nodes@, "variables"@) {
            None => None,
            Some(v) => match v.children {
                None => None,
                Some(vd) => Some(
                    GraphQlVariablesView {
                        space: whitespace_view(seq![' ']),
                        value: json_object_view(vd.nodes@),
                        whitespace: whitespace_view(seq!['\n']),
                    },
                ),
            },
        },
    }
}

/// The content a body node gives after its type: the string of its first
/// argument when the type is a property's name, else the string of its
/// second entry (the first being the type).
pub open spec fn body_content(n: KdlNode) -> Option<Seq<char>> {
    if first_property_name(n.entries@) is Some {
        first_argument_string(n)
    } else if n.entries.len() > 1 {
        value_as_string(n.entries@[1].value)
    } else {
        None
    }
}

/// The content of a body node, or the error naming what is missing.
pub open spec fn body_argument(n: KdlNode, missing: Seq<char>) -> Result<Seq<char>, ErrorView> {
    match body_content(n) {
        Some(s) => Ok(s),
        None => Err(ErrorView::InvalidBody(missing)),
    }
}

/// The body a `body` node stands for, by the type it names.
pub open spec fn body_view(n: KdlNode) -> Result<BytesView, ErrorView> {
    match body_type(n) {
        None => Err(
            ErrorView::InvalidBody(
                "body node must specify type (json, xml, text, file, base64, hex)"@,
            ),
        ),
        Some(t) => if t == "json"@ {
            match n.children {
                None => Err(ErrorView::InvalidBody("json body requires children nodes"@)),
                Some(d) => Ok(BytesView::Json(json_object_view(d.nodes@))),
            }
        } else if t == "xml"@ {
            match body_argument(n, "xml body requires string content"@) {
                Ok(x) => Ok(multiline_view(MultilineStringKindView::Xml(placeholder_template_view(x)))),
                Err(e) => Err(e),
            }
        } else if t == "graphql"@ {
            match body_argument(n, "graphql body requires query string"@) {
                Ok(q) => Ok(
                    multiline_view(
                        MultilineStringKindView::GraphQl(
                            GraphQlView {
                                value: placeholder_template_view(q),
                                variables: graphql_variables_view(n),
                            },
                        ),
                    ),
                ),
                Err(e) => Err(e),
            }
        } else if t == "text"@ {
            match body_argument(n, "text body requires string content"@) {
                Ok(x) => Ok(multiline_view(MultilineStringKindView::Text(placeholder_template_view(x)))),
                Err(e) => Err(e),
            }
        } else if t == "file"@ {
            match body_argument(n, "file body requires filename"@) {
                Ok(f) => Ok(BytesView::File(simple_template_view(f))),
                Err(e) => Err(e),
            }
        } else if t == "base64"@ {
            match body_argument(n, "base64 body requires encoded string"@) {
                Ok(b) => Ok(BytesView::Base64 { value: encode_utf8(b), source: b }),
                Err(e) => Err(e),
            }
        } else if t == "hex"@ {
            match body_argument(n, "hex body requires hex string"@) {
                Ok(h) => match decode_hex(h) {
                    Ok(bytes) => Ok(BytesView::Hex { value: bytes, source: h }),
                    Err(m) => Err(ErrorView::InvalidHex(m)),
                },
                Err(e) => Err(e),
            }
        } else {
            Err(ErrorView::InvalidBody("unknown body type: "@ + t))
        },
    }
}

fn body_argument_exec(node: &KdlNode, missing: &str) -> (r: Result<String, TranslationError>)
    ensures
        result_str_view(r) == body_argument(*node, missing@),
{
    let content = match property_name(&node.entries) {
        Some(_) => argument_string(node),
        None => if node.entries.len() > 1 {
            as_string(&node.entries[1].value)
        } else {
            None
        },
    };
    match content {
        Some(s) => Ok(s),
        None => Err(TranslationError::InvalidBody { reason: String::from_str(missing) }),
    }
}

/// The view of a result holding a string.
pub open spec fn result_str_view(r: Result<String, TranslationError>) -> Result<Seq<char>, ErrorView> {
    match r {
        Ok(s) => Ok(s@),
        Err(e) => Err(e@),
    }
}

/// Translates a KDL body node to a hurl Body.
///
/// # Errors
///
/// Returns an error if the body type is invalid or missing.
pub fn translate_body(node: &KdlNode) -> (r: Result<Body, TranslationError>)
    ensures
        result_view(r) == body_view(*node),
{
    let named = match property_name(&node.entries) {
        Some(t) => Some(t),
        None => entry_string(node),
    };
    assert(opt_chars(named) == body_type(*node));
    let t = match named {
        Some(t) => t,
        None => {
            return Err(
                TranslationError::InvalidBody {
                    reason: String::from_str(
                        "body node must specify type (json, xml, text, file, base64, hex)",
                    ),
                },
            );
        },
    };
    let bytes = if str_equal(t.as_str(), "json") {
        translate_json_body(node)
    } else if str_equal(t.as_str(), "xml") {
        translate_xml_body(node)
    } else if str_equal(t.as_str(), "graphql") {
        translate_graphql_body(node)
    } else if str_equal(t.as_str(), "text") {
        translate_text_body(node)
    } else if str_equal(t.as_str(), "file") {
        translate_file_body(node)
    } else if str_equal(t.as_str(), "base64") {
        translate_base64_body(node)
    } else if str_equal(t.as_str(), "hex") {
        translate_hex_body(node)
    } else {
        return Err(TranslationError::InvalidBody { reason: concat2("unknown body type: ", t.as_str()) });
    };
    match bytes {
        Ok(value) => Ok(Body { value }),
        Err(e) => Err(e),
    }
}

/// Translates a JSON body from KDL children to a hurl JSON value.
fn translate_json_body(node: &KdlNode) -> (r: Result<Bytes, TranslationError>)
    ensures
        result_view(r) == (match node.children {
            None => Err(ErrorView::InvalidBody("json body requires children nodes"@)),
            Some(d) => Ok(BytesView::Json(json_object_view(d.nodes@))),
        }),
{
    match &node.children {
        None => Err(
            TranslationError::InvalidBody {
                reason: String::from_str("json body requires children nodes"),
            },
        ),
        Some(children) => Ok(Bytes::Json(kdl_to_json_object(&children.nodes))),
    }
}

fn multiline(kind: MultilineStringKind) -> (r: Bytes)
    ensures
        r@ == multiline_view(kind@),
{
    Bytes::MultilineString(
        MultilineString { space: empty_whitespace(), newline: newline_whitespace(), kind },
    )
}

/// Translates an XML body.
fn translate_xml_body(node: &KdlNode) -> (r: Result<Bytes, TranslationError>)
    ensures
        result_view(r) == (match body_argument(*node, "xml body requires string content"@) {
            Ok(x) => Ok(multiline_view(MultilineStringKindView::Xml(placeholder_template_view(x)))),
            Err(e) => Err(e),
        }),
{
    let xml = body_argument_exec(node, "xml body requires string content");
    match xml {
        Ok(x) => Ok(multiline(MultilineStringKind::Xml(template_with_placeholders(x.as_str())))),
        Err(e) => Err(e),
    }
}

/// Translates a GraphQL body.
fn translate_graphql_body(node: &KdlNode) -> (r: Result<Bytes, TranslationError>)
    ensures
        result_view(r) == (match body_argument(*node, "graphql body requires query string"@) {
            Ok(q) => Ok(
                multiline_view(
                    MultilineStringKindView::GraphQl(
                        GraphQlView {
                            value: placeholder_template_view(q),
                            variables: graphql_variables_view(*node),
                        },
                    ),
                ),
            ),
            Err(e) => Err(e),
        }),
{
    let query = match body_argument_exec(node, "graphql body requires query string") {
        Ok(q) => q,
        Err(e) => {
            return Err(e);
        },
    };
    let mut variables: Option<GraphQlVariables> = None;
    if let Some(children) = &node.children {
        if let Some(i) = find_named(&children.nodes, "variables") {
            if let Some(vars_children) = &children.nodes[i].children {
                variables = Some(
                    GraphQlVariables {
                        space: space(),
                        value: kdl_to_json_object(&vars_children.nodes),
                        whitespace: newline_whitespace(),
                    },
                );
            }
        }
    }
    let gql = GraphQl { value: template_with_placeholders(query.as_str()), variables };
    assert(gql@.variables == graphql_variables_view(*node));
    Ok(multiline(MultilineStringKind::GraphQl(gql)))
}

/// Translates a text body.
fn translate_text_body(node: &KdlNode) -> (r: Result<Bytes, TranslationError>)
    ensures
        result_view(r) == (match body_argument(*node, "text body requires string content"@) {
            Ok(x) => Ok(multiline_view(MultilineStringKindView::Text(placeholder_template_view(x)))),
            Err(e) => Err(e),
        }),
{
    match body_argument_exec(node, "text body requires string content") {
        Ok(x) => Ok(multiline(MultilineStringKind::Text(template_with_placeholders(x.as_str())))),
        Err(e) => Err(e),
    }
}

/// Translates a file body.
fn translate_file_body(node: &KdlNode) -> (r: Result<Bytes, TranslationError>)
    ensures
        result_view(r) == (match body_argument(*node, "file body requires filename"@) {
            Ok(f) => Ok(BytesView::File(simple_template_view(f))),
            Err(e) => Err(e),
        }),
{
    match body_argument_exec(node, "file body requires filename") {
        Ok(f) => Ok(Bytes::File(File { filename: simple_template(f.as_str()) })),
        Err(e) => Err(e),
    }
}

/// Translates a base64 body.
fn translate_base64_body(node: &KdlNode) -> (r: Result<Bytes, TranslationError>)
    ensures
        result_view(r) == (match body_argument(*node, "base64 body requires encoded string"@) {
            Ok(b) => Ok(BytesView::Base64 { value: encode_utf8(b), source: b }),
            Err(e) => Err(e),
        }),
{
    match body_argument_exec(node, "base64 body requires encoded string") {
        Ok(encoded) => {
            let value = encoded.as_str().as_bytes_vec();
            Ok(Bytes::Base64(Base64 { value, source: encoded }))
        },
        Err(e) => Err(e),
    }
}

/// Decodes text written in hexadecimal, two UTF-8 bytes per output byte.
pub fn decode_hex_string(text: &str) -> (r: Result<Vec<u8>, String>)
    ensures
        match r {
            Ok(v) => decode_hex(text@) == Ok::<Seq<u8>, Seq<char>>(v@),
            Err(m) => decode_hex(text@) == Err::<Seq<u8>, Seq<char>>(m@),
        },
{
    let bytes = text.as_bytes();
    let ghost b = encode_utf8(text@);
    assert(bytes@ == b);
    let len = bytes.len();
    if len % 2 != 0 {
        let digits = u128_to_decimal(len as u128);
        let mut m = String::from_str("hex string has odd length (");
        m.append(digits.as_str());
        m.append("), must be even");
        return Err(m);
    }
    let mut out: Vec<u8> = Vec::new();
    let mut k: usize = 0;
    while 2 * k + 1 < len
        invariant
            bytes@ == b,
            b == encode_utf8(text@),
            len == b.len(),
            len % 2 == 0,
            2 * k <= len,
            decode_hex_groups(b, 0) == (match decode_hex_groups(b, k as nat) {
                Ok(rest) => Ok(out@ + rest),
                Err(e) => Err(e),
            }),
        decreases len - 2 * k,
    {
        let mut group: Vec<u8> = Vec::new();
        group.push(bytes[2 * k]);
        group.push(bytes[2 * k + 1]);
        assert(group@ == b.subrange(2 * k as int, 2 * k + 2));
        let position = 2 * k;
        match utf8_to_string(group.as_slice()) {
            Err(e) => {
                let m = invalid_utf8_reason(position, e.as_str());
                assert(m@ == invalid_utf8_message(2 * k as nat, utf8_error_text(group@)));
                assert(decode_hex_groups(b, k as nat) == Err::<Seq<u8>, Seq<char>>(m@));
                return Err(m);
            },
            Ok(s) => match u8_from_hex(s.as_str()) {
                Err(e) => {
                    let m = invalid_hex_reason(s.as_str(), position, e.as_str());
                    assert(m@ == invalid_hex_message(s@, 2 * k as nat, parse_int_error_text(s@)));
                    assert(decode_hex_groups(b, k as nat) == Err::<Seq<u8>, Seq<char>>(m@));
                    return Err(m);
                },
                Ok(v) => {
                    let ghost before = out@;
                    out.push(v);
                    proof {
                        match decode_hex_groups(b, (k + 1) as nat) {
                            Ok(rest) => {
                                assert(before + (seq![v] + rest) == out@ + rest);
                            },
                            Err(_) => {},
                        }
                    }
                },
            },
        }
        k += 1;
    }
    assert(out@ + Seq::<u8>::empty() == out@);
    Ok(out)
}

/// Translates a hex body.
fn translate_hex_body(node: &KdlNode) -> (r: Result<Bytes, TranslationError>)
    ensures
        result_view(r) == (match body_argument(*node, "hex body requires hex string"@) {
            Ok(h) => match decode_hex(h) {
                Ok(bytes) => Ok(BytesView::Hex { value: bytes, source: h }),
                Err(m) => Err(ErrorView::InvalidHex(m)),
            },
            Err(e) => Err(e),
        }),
{
    let hex_string = match body_argument_exec(node, "hex body requires hex string") {
        Ok(h) => h,
        Err(e) => {
            return Err(e);
        },
    };
    match decode_hex_string(hex_string.as_str()) {
        Ok(value) => Ok(Bytes::Hex(Hex { value, source: hex_string })),
        Err(reason) => Err(TranslationError::InvalidHex { reason }),
    }
}

/// Groups of two bytes from group `k` on decode to one byte each.
pub proof fn lemma_decode_hex_groups_len(bytes: Seq<u8>, k: nat)
    requires
        bytes.len() % 2 == 0,
        2 * k <= bytes.len(),
        decode_hex_groups(bytes, k) is Ok,
    ensures
        2 * decode_hex_groups(bytes, k)->Ok_0.len() == bytes.len() - 2 * k,
    decreases bytes.len() - 2 * k,
{
    if bytes.len() > 2 * k + 1 {
        lemma_decode_hex_groups_len(bytes, k + 1);
    }
}

/// Hexadecimal text that decodes gives one byte per two bytes of text.
pub proof fn law_hex_decodes_two_bytes_per_byte(text: Seq<char>)
    requires
        decode_hex(text) is Ok,
    ensures
        2 * decode_hex(text)->Ok_0.len() == encode_utf8(text).len(),
{
    lemma_decode_hex_groups_len(encode_utf8(text), 0);
}

} // verus!
