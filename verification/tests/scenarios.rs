use hurl_adapters_lib::formats::kdl::body::{
    decode_hex_string, invalid_hex_reason, invalid_utf8_reason, translate_body,
};
use hurl_adapters_lib::formats::kdl::document::{
    kdl_value_to_string, KdlTree, KdlEntry, KdlNode, KdlValue,
};
use hurl_adapters_lib::formats::kdl::request::{is_valid_http_method, translate_request};
use hurl_adapters_lib::formats::kdl::response::{
    is_operator, is_predicate_name, translate_response,
};
use hurl_adapters_lib::formats::kdl::{translate, translate_to_string, TranslationError};
use hurl_adapters_lib::writer::ast::Bytes;
use hurl_adapters_lib::writer::serializer::{
    format_bytes, format_predicate, format_response, format_section, hurl_file_to_string,
};

fn text(s: &str) -> KdlValue {
    KdlValue::String(s.to_string())
}

fn integer(i: i128) -> KdlValue {
    KdlValue::Integer(i)
}

fn arg(v: KdlValue) -> KdlEntry {
    KdlEntry { name: None, value: v }
}

fn prop(name: &str, v: KdlValue) -> KdlEntry {
    KdlEntry { name: Some(name.to_string()), value: v }
}

fn leaf(name: &str, entries: Vec<KdlEntry>) -> KdlNode {
    KdlNode { name: name.to_string(), entries, children: None }
}

fn parent(name: &str, entries: Vec<KdlEntry>, children: Vec<KdlNode>) -> KdlNode {
    KdlNode {
        name: name.to_string(),
        entries,
        children: Some(KdlTree { nodes: children }),
    }
}

fn expect(children: Vec<KdlNode>) -> KdlNode {
    parent("expect", vec![], children)
}

fn status(code: i128) -> KdlNode {
    leaf("status", vec![arg(integer(code))])
}

fn body_text(node: KdlNode) -> String {
    format_bytes(&translate_body(&node).unwrap().value)
}

fn assert_line(entries: Vec<KdlEntry>, name: &str) -> String {
    let node = expect(vec![parent("asserts", vec![], vec![leaf(name, entries)])]);
    let response = translate_response(&node, None).unwrap();
    format_section(&response.sections[0])
}

fn assert_error(entries: Vec<KdlEntry>, name: &str) -> TranslationError {
    let node = expect(vec![parent("asserts", vec![], vec![leaf(name, entries)])]);
    translate_response(&node, None).unwrap_err()
}

fn invalid_body_reason(node: KdlNode) -> String {
    match translate_body(&node) {
        Err(TranslationError::InvalidBody { reason }) => reason,
        other => panic!("expected an invalid body, got {other:?}"),
    }
}

fn hex_error_reason(hex: &str) -> String {
    match translate_body(&leaf("body", vec![arg(text("hex")), arg(text(hex))])) {
        Err(TranslationError::InvalidHex { reason }) => reason,
        other => panic!("expected invalid hex, got {other:?}"),
    }
}

#[test]
fn readme_example_renders_exactly() {
    let kdl = KdlTree {
        nodes: vec![
            parent(
                "POST",
                vec![arg(text("https://api.example.com/users")), prop("name", text("create_user"))],
                vec![
                    parent(
                        "headers",
                        vec![],
                        vec![leaf("Content-Type", vec![arg(text("application/json"))])],
                    ),
                    parent(
                        "body",
                        vec![arg(text("json"))],
                        vec![
                            leaf("name", vec![arg(text("Alice"))]),
                            leaf("email", vec![arg(text("alice@example.com"))]),
                        ],
                    ),
                    expect(vec![
                        status(201),
                        parent(
                            "captures",
                            vec![],
                            vec![leaf("user_id", vec![arg(text("jsonpath")), arg(text("$.id"))])],
                        ),
                    ]),
                ],
            ),
            parent(
                "GET",
                vec![arg(text("https://api.example.com/users/{{create_user.user_id}}"))],
                vec![expect(vec![
                    status(200),
                    parent(
                        "asserts",
                        vec![],
                        vec![leaf(
                            "jsonpath",
                            vec![arg(text("$.name")), arg(text("==")), arg(text("Alice"))],
                        )],
                    ),
                ])],
            ),
        ],
    };
    let expected = "POST https://api.example.com/users\n\
Content-Type: application/json\n\
{\n    \"name\": \"Alice\",\n    \"email\": \"alice@example.com\"\n}\n\
HTTP 201\n\
[Captures]\n\
create_user.user_id: jsonpath \"$.id\"\n\
\n\
GET https://api.example.com/users/{{create_user.user_id}}\n\
HTTP 200\n\
[Asserts]\n\
jsonpath \"$.name\" == \"Alice\"\n\
\n";
    assert_eq!(translate_to_string(&kdl).unwrap(), expected);
    let file = translate(&kdl).unwrap();
    assert_eq!(hurl_file_to_string(&file), expected);
}

#[test]
fn other_nodes_are_ignored() {
    let kdl = KdlTree {
        nodes: vec![
            leaf("comment", vec![arg(text("not a request"))]),
            leaf("GET", vec![arg(text("https://a.example"))]),
            leaf("get", vec![arg(text("https://lowercase.example"))]),
            leaf("DELETE", vec![arg(text("https://b.example"))]),
        ],
    };
    let file = translate(&kdl).unwrap();
    assert_eq!(file.entries.len(), 2);
    assert_eq!(file.entries[0].request.method, "GET");
    assert_eq!(file.entries[1].request.method, "DELETE");
    assert_eq!(
        translate_to_string(&kdl).unwrap(),
        "GET https://a.example\n\nDELETE https://b.example\n\n"
    );
}

#[test]
fn empty_document_gives_empty_text() {
    let kdl = KdlTree { nodes: vec![] };
    assert_eq!(translate_to_string(&kdl).unwrap(), "");
}

#[test]
fn duplicate_step_name_is_named() {
    let step = |url: &str| leaf("GET", vec![arg(text(url)), prop("name", text("s"))]);
    let kdl = KdlTree { nodes: vec![step("https://a"), step("https://b")] };
    match translate(&kdl) {
        Err(TranslationError::DuplicateStepName(n)) => assert_eq!(n, "s"),
        other => panic!("unexpected {other:?}"),
    }
    let distinct = KdlTree {
        nodes: vec![
            leaf("GET", vec![arg(text("https://a")), prop("name", text("one"))]),
            leaf("GET", vec![arg(text("https://b")), prop("name", text("two"))]),
            leaf("GET", vec![arg(text("https://c"))]),
            leaf("GET", vec![arg(text("https://d"))]),
        ],
    };
    assert_eq!(translate(&distinct).unwrap().entries.len(), 4);
}

#[test]
fn capture_names_follow_the_step() {
    let node = expect(vec![parent(
        "captures",
        vec![],
        vec![leaf("token", vec![arg(text("jsonpath")), arg(text("$.token"))])],
    )]);
    let named = translate_response(&node, Some("login")).unwrap();
    assert_eq!(format_response(&named), "HTTP *\n[Captures]\nlogin.token: jsonpath \"$.token\"\n");
    let unnamed = translate_response(&node, None).unwrap();
    assert_eq!(format_response(&unnamed), "HTTP *\n[Captures]\ntoken: jsonpath \"$.token\"\n");
}

#[test]
fn request_errors() {
    let no_url = leaf("GET", vec![prop("name", text("x"))]);
    match translate_request(&no_url) {
        Err(TranslationError::MissingRequiredField { node, field }) => {
            assert_eq!(node, "GET");
            assert_eq!(field, "url");
        },
        other => panic!("unexpected {other:?}"),
    }
    let url_not_string = leaf("GET", vec![arg(integer(3)), arg(text("https://later"))]);
    assert!(matches!(
        translate_request(&url_not_string),
        Err(TranslationError::MissingRequiredField { .. })
    ));
    match translate_request(&leaf("FETCH", vec![arg(text("https://x"))])) {
        Err(TranslationError::InvalidMethod(m)) => assert_eq!(m, "FETCH"),
        other => panic!("unexpected {other:?}"),
    }
    let unknown = parent("GET", vec![arg(text("https://x"))], vec![leaf("bogus", vec![])]);
    match translate_request(&unknown) {
        Err(TranslationError::InvalidStructure(m)) => assert_eq!(m, "unknown request section: bogus"),
        other => panic!("unexpected {other:?}"),
    }
    let bad_header = parent(
        "GET",
        vec![arg(text("https://x"))],
        vec![parent("headers", vec![], vec![leaf("X-Count", vec![arg(integer(1))])])],
    );
    match translate_request(&bad_header) {
        Err(TranslationError::MissingRequiredField { node, field }) => {
            assert_eq!(node, "headers.X-Count");
            assert_eq!(field, "value");
        },
        other => panic!("unexpected {other:?}"),
    }
}

#[test]
fn request_sections_render() {
    let node = parent(
        "POST",
        vec![arg(text("https://x/{{id}}"))],
        vec![
            parent("query", vec![], vec![leaf("q", vec![arg(text("rust"))]), leaf("limit", vec![arg(integer(10))])]),
            parent("form", vec![], vec![leaf("user", vec![arg(text("{{USER}}"))]), leaf("empty", vec![])]),
            parent(
                "multipart",
                vec![],
                vec![
                    leaf("a", vec![arg(text("1"))]),
                    leaf("file", vec![arg(text("x.bin"))]),
                    leaf("b", vec![arg(KdlValue::Bool(true))]),
                ],
            ),
            parent("cookies", vec![], vec![leaf("session_id", vec![arg(text("abc"))])]),
            parent(
                "basic-auth",
                vec![],
                vec![leaf("user", vec![arg(text("pass"))]), leaf("ignored", vec![])],
            ),
            parent("options", vec![], vec![leaf("retry", vec![arg(integer(3))])]),
            expect(vec![status(204)]),
        ],
    );
    let kdl = KdlTree { nodes: vec![node] };
    let expected = "POST https://x/{{id}}\n\
[Query]\nq: rust\nlimit: 10\n\
[Form]\nuser: {{USER}}\nempty: \n\
[Multipart]\na: 1\nb: true\n\
[Cookies]\nsession_id: abc\n\
[BasicAuth]\nuser: pass\n\
[Options]\n\
HTTP 204\n\n";
    assert_eq!(translate_to_string(&kdl).unwrap(), expected);
}

#[test]
fn later_body_replaces_earlier_one() {
    let node = parent(
        "POST",
        vec![arg(text("https://x"))],
        vec![
            leaf("body", vec![arg(text("text")), arg(text("first"))]),
            leaf("body", vec![arg(text("text")), arg(text("second"))]),
        ],
    );
    let kdl = KdlTree { nodes: vec![node] };
    assert_eq!(translate_to_string(&kdl).unwrap(), "POST https://x\n```\nsecond```\n\n");
}

#[test]
fn json_bodies_render() {
    let node = parent(
        "body",
        vec![arg(text("json"))],
        vec![
            leaf("tags", vec![arg(text("a")), arg(text("b"))]),
            parent("address", vec![], vec![leaf("city", vec![arg(text("NY"))])]),
            leaf("flag", vec![arg(KdlValue::Bool(true))]),
            leaf("nothing", vec![]),
            leaf("n", vec![arg(KdlValue::Null)]),
            leaf("f", vec![arg(KdlValue::Float("1.5".to_string()))]),
            leaf("mixed", vec![arg(integer(-1)), prop("k", integer(2))]),
            leaf("who", vec![arg(text("{{USER}}"))]),
        ],
    );
    let expected = "{\n    \"tags\": [\"a\",\"b\"],\n    \"address\": {\n    \"city\": \"NY\"\n},\n    \
\"flag\": true,\n    \"nothing\": null,\n    \"n\": null,\n    \"f\": 1.5,\n    \"mixed\": -1,\n    \
\"who\": \"{{USER}}\"\n}";
    assert_eq!(body_text(node), expected);
    let empty = parent("body", vec![arg(text("json"))], vec![]);
    assert_eq!(body_text(empty), "{}");
}

#[test]
fn other_bodies_render() {
    assert_eq!(body_text(leaf("body", vec![arg(text("xml")), arg(text("<a/>"))])), "```xml\n<a/>```");
    assert_eq!(body_text(leaf("body", vec![arg(text("text")), arg(text("hello"))])), "```\nhello```");
    assert_eq!(
        body_text(leaf("body", vec![arg(text("file")), arg(text("path/to/file.bin"))])),
        "file,path/to/file.bin;"
    );
    let graphql = parent(
        "body",
        vec![arg(text("graphql")), arg(text("query { user }"))],
        vec![parent("variables", vec![], vec![leaf("id", vec![arg(text("1"))])])],
    );
    assert_eq!(
        body_text(graphql),
        "```graphql\nquery { user }variables {\n    \"id\": \"1\"\n}\n```"
    );
    let graphql_plain = leaf("body", vec![arg(text("graphql")), arg(text("{ me }"))]);
    assert_eq!(body_text(graphql_plain), "```graphql\n{ me }```");
    let base64 = translate_body(&leaf("body", vec![arg(text("base64")), arg(text("SGVsbG8="))]))
        .unwrap();
    match &base64.value {
        Bytes::Base64(b) => assert_eq!(b.value, b"SGVsbG8=".to_vec()),
        other => panic!("unexpected {other:?}"),
    }
    assert_eq!(format_bytes(&base64.value), "base64,SGVsbG8=;");
}

#[test]
fn body_type_errors() {
    assert_eq!(
        invalid_body_reason(leaf("body", vec![])),
        "body node must specify type (json, xml, text, file, base64, hex)"
    );
    assert_eq!(
        invalid_body_reason(leaf("body", vec![arg(text("yaml"))])),
        "unknown body type: yaml"
    );
    assert_eq!(
        invalid_body_reason(leaf("body", vec![arg(text("json")), prop("style", text("x"))])),
        "unknown body type: style"
    );
    assert_eq!(
        invalid_body_reason(leaf("body", vec![arg(text("json"))])),
        "json body requires children nodes"
    );
    assert_eq!(
        invalid_body_reason(leaf("body", vec![arg(text("xml"))])),
        "xml body requires string content"
    );
    assert_eq!(
        invalid_body_reason(leaf("body", vec![arg(text("hex"))])),
        "hex body requires hex string"
    );
}

#[test]
fn hex_bodies() {
    let body = translate_body(&leaf("body", vec![arg(text("hex")), arg(text("48656c6C6f"))])).unwrap();
    match &body.value {
        Bytes::Hex(h) => assert_eq!(h.value, b"Hello".to_vec()),
        other => panic!("unexpected {other:?}"),
    }
    assert_eq!(format_bytes(&body.value), "hex,48656c6C6f;");
    assert_eq!(decode_hex_string("+f00").unwrap(), vec![15, 0]);
    assert_eq!(decode_hex_string("").unwrap(), Vec::<u8>::new());
    assert_eq!(hex_error_reason("abc"), "hex string has odd length (3), must be even");
    assert_eq!(
        hex_error_reason("00zz"),
        "invalid hex character(s) 'zz' at position 2: invalid digit found in string"
    );
    assert_eq!(
        hex_error_reason("éé"),
        "invalid hex character(s) 'é' at position 0: invalid digit found in string"
    );
    assert_eq!(
        hex_error_reason("aéb"),
        "invalid UTF-8 in hex string at position 0: incomplete utf-8 byte sequence from index 1"
    );
    assert_eq!(hex_error_reason("é"), "invalid hex character(s) 'é' at position 0: invalid digit found in string");
}

#[test]
fn hex_decodes_two_characters_per_byte() {
    for s in ["", "00", "0a0B", "ffffffff"] {
        assert_eq!(decode_hex_string(s).unwrap().len() * 2, s.len());
    }
}

#[test]
fn asserts_render() {
    assert_eq!(
        assert_line(vec![arg(text("$.count")), arg(text("==")), arg(integer(42))], "jsonpath"),
        "[Asserts]\njsonpath \"$.count\" == 42\n"
    );
    assert_eq!(
        assert_line(vec![arg(text("==")), arg(integer(200))], "status"),
        "[Asserts]\nstatus == 200\n"
    );
    assert_eq!(assert_line(vec![arg(text("<")), arg(integer(1000))], "duration"), "[Asserts]\nduration < 1000\n");
    assert_eq!(
        assert_line(vec![arg(text("$.id")), arg(text("exists"))], "jsonpath"),
        "[Asserts]\njsonpath \"$.id\" exists\n"
    );
    assert_eq!(assert_line(vec![arg(text("$.id"))], "jsonpath"), "[Asserts]\njsonpath \"$.id\" exists\n");
    assert_eq!(
        assert_line(vec![arg(text("$.x")), prop("not", KdlValue::Bool(true)), arg(text("isEmpty"))], "jsonpath"),
        "[Asserts]\njsonpath \"$.x\" not isEmpty\n"
    );
    assert_eq!(
        assert_line(vec![arg(text("$.x")), arg(text("not")), arg(text("exists"))], "jsonpath"),
        "[Asserts]\njsonpath \"$.x\" exists\n"
    );
    assert_eq!(
        assert_line(vec![arg(text("$.name")), prop("startsWith", text("John"))], "jsonpath"),
        "[Asserts]\njsonpath \"$.name\" startsWith \"John\"\n"
    );
    assert_eq!(
        assert_line(vec![arg(text("$.id")), arg(text("==")), arg(text("{{create.id}}"))], "jsonpath"),
        "[Asserts]\njsonpath \"$.id\" == {{create.id}}\n"
    );
    assert_eq!(
        assert_line(vec![arg(text("$.p")), arg(text("<=")), arg(KdlValue::Float("99.99".to_string()))], "jsonpath"),
        "[Asserts]\njsonpath \"$.p\" <= 99.99\n"
    );
    assert_eq!(
        assert_line(vec![arg(text("$.a")), arg(text("!=")), arg(KdlValue::Null)], "jsonpath"),
        "[Asserts]\njsonpath \"$.a\" != null\n"
    );
    assert_eq!(
        assert_line(vec![arg(text("Location")), prop("matches", text("^/x"))], "header"),
        "[Asserts]\nheader \"Location\" matches \"^/x\"\n"
    );
    assert_eq!(
        assert_line(vec![arg(text("$.b")), prop("equals", KdlValue::Bool(false))], "jsonpath"),
        "[Asserts]\njsonpath \"$.b\" == false\n"
    );
}

#[test]
fn assert_errors() {
    match assert_error(vec![arg(text("$.x")), arg(text("=="))], "jsonpath") {
        TranslationError::InvalidPredicate(m) => assert_eq!(m, "equals requires a value"),
        other => panic!("unexpected {other:?}"),
    }
    match assert_error(vec![arg(text("$.x")), prop("bogus", integer(1))], "jsonpath") {
        TranslationError::InvalidPredicate(m) => assert_eq!(m, "unknown predicate: bogus"),
        other => panic!("unexpected {other:?}"),
    }
    match assert_error(vec![arg(text("$.x")), arg(text("==")), arg(integer(1i128 << 63))], "jsonpath") {
        TranslationError::InvalidPredicate(m) => assert_eq!(
            m,
            "integer value 9223372036854775808 is outside the valid range for i64 \
(-9223372036854775808 to 9223372036854775807)"
        ),
        other => panic!("unexpected {other:?}"),
    }
    match assert_error(vec![], "jsonpath") {
        TranslationError::MissingRequiredField { node, field } => {
            assert_eq!(node, "capture");
            assert_eq!(field, "jsonpath expression");
        },
        other => panic!("unexpected {other:?}"),
    }
}

#[test]
fn capture_errors_and_queries() {
    let captures = |c: KdlNode| {
        translate_response(&expect(vec![parent("captures", vec![], vec![c])]), None)
    };
    match captures(leaf("token", vec![])).unwrap_err() {
        TranslationError::MissingRequiredField { node, field } => {
            assert_eq!(node, "capture.token");
            assert_eq!(field, "query_type");
        },
        other => panic!("unexpected {other:?}"),
    }
    match captures(leaf("token", vec![arg(text("foo"))])).unwrap_err() {
        TranslationError::InvalidStructure(m) => assert_eq!(m, "unknown query type: foo"),
        other => panic!("unexpected {other:?}"),
    }
    match captures(leaf("token", vec![arg(text("regex"))])).unwrap_err() {
        TranslationError::MissingRequiredField { field, .. } => assert_eq!(field, "regex pattern"),
        other => panic!("unexpected {other:?}"),
    }
    let node = expect(vec![parent(
        "captures",
        vec![],
        vec![
            leaf("t", vec![arg(text("xpath")), arg(text("//title"))]),
            leaf("l", vec![arg(text("header")), arg(text("Location"))]),
            leaf("s", vec![arg(text("cookie")), arg(text("sid"))]),
            leaf("c", vec![arg(text("regex")), arg(text("a(b)"))]),
            leaf("b", vec![arg(text("body"))]),
            leaf("u", vec![arg(text("url"))]),
            leaf("d", vec![arg(text("duration"))]),
            leaf("v", vec![arg(text("version"))]),
            leaf("st", vec![arg(text("status"))]),
        ],
    )]);
    let response = translate_response(&node, None).unwrap();
    assert_eq!(
        format_response(&response),
        "HTTP *\n[Captures]\nt: xpath \"//title\"\nl: header \"Location\"\ns: cookie \"sid\"\n\
c: regex \"a(b)\"\nb: body\nu: url\nd: duration\nv: version\nst: status\n"
    );
}

#[test]
fn response_status_and_version() {
    let response = translate_response(
        &expect(vec![leaf("version", vec![arg(text("HTTP/2"))]), leaf("status", vec![arg(text("*"))])]),
        None,
    )
    .unwrap();
    assert_eq!(format_response(&response), "HTTP/2 *\n");
    let response = translate_response(
        &expect(vec![
            leaf("version", vec![arg(text("HTTP/1.1"))]),
            status(404),
            parent("headers", vec![], vec![leaf("X-Id", vec![arg(integer(7))])]),
        ]),
        None,
    )
    .unwrap();
    assert_eq!(format_response(&response), "HTTP/1.1 404\nX-Id: 7\n");
    match translate_response(&expect(vec![leaf("status", vec![])]), None).unwrap_err() {
        TranslationError::MissingRequiredField { node, field } => {
            assert_eq!(node, "status");
            assert_eq!(field, "value");
        },
        other => panic!("unexpected {other:?}"),
    }
    match translate_response(&expect(vec![status(-1)]), None).unwrap_err() {
        TranslationError::InvalidStructure(m) => assert_eq!(
            m,
            "status code must be a non-negative integer between 0 and 18446744073709551615, got: -1"
        ),
        other => panic!("unexpected {other:?}"),
    }
    match translate_response(&expect(vec![leaf("timeout", vec![])]), None).unwrap_err() {
        TranslationError::InvalidStructure(m) => assert_eq!(m, "unknown expect section: timeout"),
        other => panic!("unexpected {other:?}"),
    }
}

#[test]
fn word_lists() {
    for op in ["==", "!=", ">", ">=", "<", "<=", "startsWith", "endsWith", "contains", "matches"] {
        assert!(is_operator(op));
        assert!(!is_predicate_name(op));
    }
    for p in ["exists", "isBoolean", "isEmpty", "isFloat", "isInteger", "isNumber", "isString", "isCollection", "isDate", "isIsoDate"] {
        assert!(is_predicate_name(p));
        assert!(!is_operator(p));
    }
    assert!(!is_operator("equals"));
    assert!(!is_predicate_name("isIpv4"));
    for m in ["GET", "POST", "PUT", "DELETE", "PATCH", "HEAD", "OPTIONS", "CONNECT", "TRACE"] {
        assert!(is_valid_http_method(m));
    }
    assert!(!is_valid_http_method("get"));
}

#[test]
fn value_texts() {
    assert_eq!(kdl_value_to_string(&integer(-42)), "-42");
    assert_eq!(kdl_value_to_string(&integer(i128::MIN)), i128::MIN.to_string());
    assert_eq!(kdl_value_to_string(&integer(i128::MAX)), i128::MAX.to_string());
    assert_eq!(kdl_value_to_string(&integer(0)), "0");
    assert_eq!(kdl_value_to_string(&KdlValue::Bool(false)), "false");
    assert_eq!(kdl_value_to_string(&KdlValue::Null), "null");
    assert_eq!(kdl_value_to_string(&KdlValue::Float("2.5".to_string())), "2.5");
}

#[test]
fn predicate_text_with_negation() {
    let node = expect(vec![parent(
        "asserts",
        vec![],
        vec![leaf("jsonpath", vec![arg(text("$.v")), prop("not", KdlValue::Bool(true)), arg(text("contains")), arg(text("x"))])],
    )]);
    let response = translate_response(&node, None).unwrap();
    match &response.sections[0].value {
        hurl_adapters_lib::writer::ast::SectionValue::Asserts(asserts) => {
            assert_eq!(format_predicate(&asserts[0].predicate), "not contains \"x\"");
        },
        other => panic!("unexpected {other:?}"),
    }
}

#[test]
fn hex_error_reasons_are_built_from_the_reader_texts() {
    assert_eq!(
        invalid_utf8_reason(12, "some reader text"),
        "invalid UTF-8 in hex string at position 12: some reader text"
    );
    assert_eq!(
        invalid_hex_reason("g0", 0, "bad"),
        "invalid hex character(s) 'g0' at position 0: bad"
    );
}
