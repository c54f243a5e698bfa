use hurl_adapters_lib::writer::ast::{Pos, TemplateElement};
use hurl_adapters_lib::writer::helpers::{
    dummy_source_info, empty_whitespace, newline_whitespace, quoted_template_with_placeholders,
    simple_line_terminator, simple_template, space, template_with_placeholders,
};
use hurl_adapters_lib::writer::source::template_to_source;

#[test]
fn test_simple_template() {
    let t = simple_template("hello");
    assert_eq!(template_to_source(&t).as_str(), "hello");
}

#[test]
fn test_template_with_placeholder() {
    let t = template_with_placeholders("Bearer {{token}}");
    assert_eq!(template_to_source(&t).as_str(), "Bearer {{token}}");
}

#[test]
fn test_template_with_multiple_placeholders() {
    let t = template_with_placeholders("{{a}} and {{b}}");
    assert_eq!(template_to_source(&t).as_str(), "{{a}} and {{b}}");
}

#[test]
fn test_quoted_template_with_placeholders() {
    let t = quoted_template_with_placeholders("Hello {{name}}");
    assert_eq!(template_to_source(&t).as_str(), r#""Hello {{name}}""#);
    assert_eq!(t.delimiter, Some('"'));
}

fn placeholder(name: &str) -> TemplateElement {
    TemplateElement::Placeholder(hurl_adapters_lib::writer::ast::Placeholder {
        variable: name.to_string(),
    })
}

fn literal(s: &str) -> TemplateElement {
    TemplateElement::String { value: s.to_string(), source: s.to_string() }
}

#[test]
fn template_splits_text_and_placeholders() {
    let t = template_with_placeholders("Bearer {{token}}!");
    assert_eq!(t.elements, vec![literal("Bearer "), placeholder("token"), literal("!")]);
    assert_eq!(t.delimiter, None);
}

#[test]
fn template_unclosed_braces_stay_literal() {
    let t = template_with_placeholders("a{{b");
    assert_eq!(t.elements, vec![literal("a"), literal("{"), literal("{b")]);
    assert_eq!(template_to_source(&t).as_str(), "a{{b");
}

#[test]
fn template_empty_placeholder_and_empty_text() {
    let t = template_with_placeholders("{{}}");
    assert_eq!(t.elements, vec![placeholder("")]);
    let e = template_with_placeholders("");
    assert!(e.elements.is_empty());
    assert_eq!(template_to_source(&e).as_str(), "");
}

#[test]
fn template_placeholder_runs_to_first_closing_braces() {
    let t = template_with_placeholders("{{a{{b}}c}}");
    assert_eq!(t.elements, vec![placeholder("a{{b"), literal("c}}")]);
    assert_eq!(template_to_source(&t).as_str(), "{{a{{b}}c}}");
}

#[test]
fn template_round_trip_on_varied_text() {
    for s in ["", "x", "{", "{{", "}}", "{{{x}}}", "é {{ü}} ß", "{{a}}{{b}}", "x}}y{{"] {
        let t = template_with_placeholders(s);
        assert_eq!(template_to_source(&t), s);
        let q = quoted_template_with_placeholders(s);
        assert_eq!(template_to_source(&q), format!("\"{s}\""));
        let simple = simple_template(s);
        assert_eq!(template_to_source(&simple), s);
    }
}

#[test]
fn whitespace_helpers() {
    let info = dummy_source_info();
    assert_eq!(info.start, Pos { line: 1, column: 1 });
    assert_eq!(info.end, Pos { line: 1, column: 1 });
    assert_eq!(space().value, " ");
    assert_eq!(empty_whitespace().value, "");
    assert_eq!(newline_whitespace().value, "\n");
    let lt = simple_line_terminator();
    assert_eq!(lt.space0.value, "");
    assert_eq!(lt.newline.value, "\n");
}
