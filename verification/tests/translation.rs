use hurl_adapters_lib::formats::kdl::body::translate_body;
use hurl_adapters_lib::formats::kdl::document::KdlTree;
use hurl_adapters_lib::formats::kdl::request::{get_step_name, translate_request};
use hurl_adapters_lib::formats::kdl::response::translate_response;
use hurl_adapters_lib::formats::kdl::{
    parse_kdl_document, translate, translate_to_string, TranslationError,
};
use hurl_adapters_lib::writer::ast::{Bytes, SectionValue, StatusValue};
use hurl_adapters_lib::writer::source::{json_to_source, template_to_source};

fn parse(text: &str) -> KdlTree {
    parse_kdl_document(text).unwrap()
}

#[test]
fn test_simple_get() {
    let kdl = parse(r#"GET "https://example.com""#);
    let hurl = translate_to_string(&kdl).unwrap();
    assert!(hurl.contains("GET https://example.com"));
}

#[test]
fn test_get_with_expect() {
    let kdl = parse(
        r#"
            GET "https://example.com" {
                expect {
                    status 200
                }
            }
        "#,
    );

    let hurl = translate_to_string(&kdl).unwrap();
    assert!(hurl.contains("GET https://example.com"));
    assert!(hurl.contains("HTTP 200"));
}

#[test]
fn test_post_with_headers_and_body() {
    let kdl = parse(
        r#"
            POST "https://api.example.com/users" {
                headers {
                    Content-Type "application/json"
                }
                body json {
                    name "John"
                }
                expect {
                    status 201
                }
            }
        "#,
    );

    let hurl = translate_to_string(&kdl).unwrap();
    assert!(hurl.contains("POST https://api.example.com/users"));
    assert!(hurl.contains("Content-Type: application/json"));
    assert!(hurl.contains("HTTP 201"));
}

#[test]
fn test_chained_requests() {
    let kdl = parse(
        r#"
            POST "https://api.example.com/login" name="login" {
                body json {
                    username "test"
                    password "secret"
                }
                expect {
                    status 200
                    captures {
                        token jsonpath "$.token"
                    }
                }
            }

            GET "https://api.example.com/profile" {
                headers {
                    Authorization "Bearer {{login.token}}"
                }
                expect {
                    status 200
                }
            }
        "#,
    );

    let hurl = translate_to_string(&kdl).unwrap();
    assert!(hurl.contains("POST https://api.example.com/login"));
    assert!(hurl.contains("login.token"));
    assert!(hurl.contains("Bearer {{login.token}}"));
}

#[test]
fn test_duplicate_step_name_error() {
    let kdl = parse(
        r#"
            GET "https://example.com/1" name="step1" {
                expect { status 200 }
            }
            GET "https://example.com/2" name="step1" {
                expect { status 200 }
            }
        "#,
    );

    let result = translate(&kdl);
    assert!(matches!(result, Err(TranslationError::DuplicateStepName(_))));
}

#[test]
fn test_json_body() {
    let kdl = parse(r#"body json { username "test"; count 42 }"#);
    let node = kdl.nodes.first().unwrap();
    let body = translate_body(node).unwrap();

    // Check that we got a JSON body
    if let Bytes::Json(json) = body.value {
        let source = json_to_source(&json);
        assert!(source.as_str().contains("username"));
        assert!(source.as_str().contains("test"));
    } else {
        panic!("Expected JSON body");
    }
}

#[test]
fn test_json_body_with_placeholder() {
    let kdl = parse(r#"body json { password "{{PASSWORD}}" }"#);
    let node = kdl.nodes.first().unwrap();
    let body = translate_body(node).unwrap();

    if let Bytes::Json(json) = body.value {
        let source = json_to_source(&json);
        // Placeholder values must be quoted in JSON output
        assert!(
            source.as_str().contains(r#""{{PASSWORD}}""#),
            "Expected quoted placeholder, got: {}",
            source.as_str()
        );
    } else {
        panic!("Expected JSON body");
    }
}

#[test]
fn test_simple_get_request() {
    let kdl = parse(r#"GET "https://example.com""#);
    let node = kdl.nodes.first().unwrap();
    let request = translate_request(node).unwrap();

    assert_eq!(request.method.to_string(), "GET");
    assert!(template_to_source(&request.url).as_str().contains("example.com"));
}

#[test]
fn test_post_with_headers() {
    let kdl = parse(
        r#"
            POST "https://api.example.com" {
                headers {
                    Content-Type "application/json"
                    Authorization "Bearer {{token}}"
                }
            }
        "#,
    );

    let node = kdl.nodes.first().unwrap();
    let request = translate_request(node).unwrap();

    assert_eq!(request.method.to_string(), "POST");
    assert_eq!(request.headers.len(), 2);
}

#[test]
fn test_get_step_name() {
    let kdl = parse(r#"GET "https://example.com" name="login""#);
    let node = kdl.nodes.first().unwrap();
    let name = get_step_name(node);

    assert_eq!(name, Some("login".to_string()));
}

#[test]
fn test_simple_expect() {
    let kdl = parse(
        r#"
            expect {
                status 200
            }
        "#,
    );

    let node = kdl.nodes.first().unwrap();
    let response = translate_response(node, None).unwrap();

    assert!(matches!(response.status.value, StatusValue::Specific(200)));
}

#[test]
fn test_captures_with_step_name() {
    let kdl = parse(
        r#"
            expect {
                status 200
                captures {
                    token jsonpath "$.token"
                }
            }
        "#,
    );

    let node = kdl.nodes.first().unwrap();
    let response = translate_response(node, Some("login")).unwrap();

    let captures_section = response
        .sections
        .iter()
        .find(|s| matches!(s.value, SectionValue::Captures(_)));
    assert!(captures_section.is_some());
}
