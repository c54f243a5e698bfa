use hurl_adapters_lib::formats::kdl::document::{KdlEntry, KdlNode, KdlTree, KdlValue};
use hurl_adapters_lib::formats::kdl::{
    parse_kdl_document, translate_kdl_text, translate_to_string, TranslationError,
};

fn text(s: &str) -> KdlValue {
    KdlValue::String(s.to_string())
}

#[test]
fn parsed_text_gives_the_plain_tree() {
    let tree = parse_kdl_document(
        r#"GET "https://example.com" name="login" { expect { status 200; flag #true; gone #null; ratio 1.5 } }"#,
    )
    .unwrap();
    let expected = KdlTree {
        nodes: vec![KdlNode {
            name: "GET".to_string(),
            entries: vec![
                KdlEntry { name: None, value: text("https://example.com") },
                KdlEntry { name: Some("name".to_string()), value: text("login") },
            ],
            children: Some(KdlTree {
                nodes: vec![KdlNode {
                    name: "expect".to_string(),
                    entries: vec![],
                    children: Some(KdlTree {
                        nodes: vec![
                            KdlNode {
                                name: "status".to_string(),
                                entries: vec![KdlEntry { name: None, value: KdlValue::Integer(200) }],
                                children: None,
                            },
                            KdlNode {
                                name: "flag".to_string(),
                                entries: vec![KdlEntry { name: None, value: KdlValue::Bool(true) }],
                                children: None,
                            },
                            KdlNode {
                                name: "gone".to_string(),
                                entries: vec![KdlEntry { name: None, value: KdlValue::Null }],
                                children: None,
                            },
                            KdlNode {
                                name: "ratio".to_string(),
                                entries: vec![KdlEntry {
                                    name: None,
                                    value: KdlValue::Float("1.5".to_string()),
                                }],
                                children: None,
                            },
                        ],
                    }),
                }],
            }),
        }],
    };
    assert_eq!(tree, expected);
}

#[test]
fn refused_text_is_a_kdl_error() {
    let err = parse_kdl_document("GET \"unterminated").unwrap_err();
    assert!(matches!(err, TranslationError::KdlError(_)));
    assert_eq!(err.message(), "KDL parse error: Failed to parse KDL document");
    assert!(matches!(translate_kdl_text("node {"), Err(TranslationError::KdlError(_))));
}

#[test]
fn text_translation_matches_tree_translation() {
    let source = r#"
        POST "https://api.example.com/users" name="create" {
            headers {
                Content-Type "application/json"
            }
            body json {
                name "Alice"
            }
            expect {
                status 201
                captures {
                    id jsonpath "$.id"
                }
            }
        }
    "#;
    let from_text = translate_kdl_text(source).unwrap();
    let from_tree = translate_to_string(&parse_kdl_document(source).unwrap()).unwrap();
    assert_eq!(from_text, from_tree);
    assert_eq!(
        from_text,
        "POST https://api.example.com/users\nContent-Type: application/json\n{\n    \"name\": \"Alice\"\n}\nHTTP 201\n[Captures]\ncreate.id: jsonpath \"$.id\"\n\n"
    );
}

#[test]
fn text_translation_errors_come_through() {
    let err = translate_kdl_text(r#"GET "https://a" name="s"; GET "https://b" name="s""#).unwrap_err();
    assert_eq!(err.message(), "Duplicate step name: 's'");
}

#[test]
fn error_messages() {
    let cases = vec![
        (
            TranslationError::MissingRequiredField { node: "GET".to_string(), field: "url".to_string() },
            "Missing required field 'url' in node 'GET'",
        ),
        (TranslationError::InvalidMethod("FETCH".to_string()), "Invalid HTTP method: 'FETCH'"),
        (TranslationError::InvalidUrl("x".to_string()), "Invalid URL: 'x'"),
        (TranslationError::InvalidPredicate("p".to_string()), "Invalid predicate: 'p'"),
        (TranslationError::InvalidBody { reason: "r".to_string() }, "Invalid body: r"),
        (TranslationError::InvalidHex { reason: "odd".to_string() }, "Invalid hex string: odd"),
        (TranslationError::DuplicateStepName("login".to_string()), "Duplicate step name: 'login'"),
        (
            TranslationError::UnknownReference { variable: "v".to_string(), step: "s".to_string() },
            "Unknown variable reference '{{variable}}' - step 's' not found or has no such capture",
        ),
        (TranslationError::InvalidStructure("bad".to_string()), "Invalid KDL structure: bad"),
    ];
    for (err, message) in cases {
        assert_eq!(err.message(), message);
    }
}

fn assert_section(predicate: &str) -> String {
    translate_kdl_text(&format!(
        "GET \"https://a\" {{ expect {{ asserts {{ jsonpath \"$.n\" {predicate} }} }} }}"
    ))
    .unwrap()
}

#[test]
fn operator_symbols_and_words_agree() {
    for (symbol, word) in [
        ("==", "equals"),
        ("!=", "notEquals"),
        (">", "greaterThan"),
        (">=", "greaterThanOrEquals"),
        ("<", "lessThan"),
        ("<=", "lessThanOrEquals"),
    ] {
        let by_symbol = assert_section(&format!("\"{symbol}\" 3"));
        assert_eq!(by_symbol, assert_section(&format!("{word}=3")));
        assert!(by_symbol.contains(&format!("jsonpath \"$.n\" {symbol} 3\n")));
    }
}

#[test]
fn predicate_words_read_back() {
    for word in ["exists", "isBoolean", "isEmpty", "isString", "isIsoDate"] {
        let out = translate_kdl_text(&format!(
            "GET \"https://a\" {{ expect {{ asserts {{ jsonpath \"$.n\" {word} }} }} }}"
        ))
        .unwrap();
        assert!(out.contains(&format!("jsonpath \"$.n\" {word}\n")), "{out}");
    }
}
