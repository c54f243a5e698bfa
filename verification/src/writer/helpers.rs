//! Builders of Hurl syntax-tree nodes with minimal whitespace, and the
//! splitting of text into literal pieces and `{{variable}}` placeholders.
use vstd::prelude::*;

use crate::writer::ast::{
    LineTerminator, LineTerminatorView, Placeholder, Pos, SourceInfo, Template, TemplateElement,
    TemplateElementView, TemplateView, Whitespace, WhitespaceView,
};
use crate::writer::source::{
    element_source, elements_source, lemma_elements_source_concat, lemma_elements_source_single,
    template_source,
};
use crate::writer::text::{chars_of, close_at, open_at, owned, string_of_chars};

verus! {

/// The source span given to every node built here: line 1, column 1.
pub open spec fn dummy_info() -> SourceInfo {
    SourceInfo { start: Pos { line: 1, column: 1 }, end: Pos { line: 1, column: 1 } }
}

/// Whitespace holding `text`, at the dummy span.
pub open spec fn whitespace_view(text: Seq<char>) -> WhitespaceView {
    WhitespaceView { value: text, source_info: dummy_info() }
}

/// Creates a source info pointing to line 1, column 1.
pub fn dummy_source_info() -> (r: SourceInfo)
    ensures
        r == dummy_info(),
{
    SourceInfo { start: Pos { line: 1, column: 1 }, end: Pos { line: 1, column: 1 } }
}

/// Creates whitespace with a single space.
pub fn space() -> (r: Whitespace)
    ensures
        r@ == whitespace_view(seq![' ']),
{
    let r = Whitespace { value: owned(" "), source_info: dummy_source_info() };
    proof {
        reveal_strlit(" ");
        assert(r.value@ == seq![' ']);
    }
    r
}

/// Creates empty whitespace.
pub fn empty_whitespace() -> (r: Whitespace)
    ensures
        r@ == whitespace_view(Seq::empty()),
{
    Whitespace { value: String::new(), source_info: dummy_source_info() }
}

/// Creates a newline whitespace.
pub fn newline_whitespace() -> (r: Whitespace)
    ensures
        r@ == whitespace_view(seq!['\n']),
{
    let r = Whitespace { value: owned("\n"), source_info: dummy_source_info() };
    proof {
        reveal_strlit("\n");
        assert(r.value@ == seq!['\n']);
    }
    r
}

/// Creates a simple line terminator (newline without comment).
pub fn simple_line_terminator() -> (r: LineTerminator)
    ensures
        r@ == (LineTerminatorView {
            space0: whitespace_view(Seq::empty()),
            newline: whitespace_view(seq!['\n']),
        }),
{
    LineTerminator { space0: empty_whitespace(), newline: newline_whitespace() }
}

/// A literal text element, written as it reads.
pub open spec fn text_element(t: Seq<char>) -> TemplateElementView {
    TemplateElementView::Text { value: t, source: t }
}

/// The template made of the single literal `value`, without delimiters.
pub open spec fn simple_template_view(value: Seq<char>) -> TemplateView {
    TemplateView { delimiter: None, elements: seq![text_element(value)], source_info: dummy_info() }
}

/// Creates a template from a simple string (no placeholders).
pub fn simple_template(value: &str) -> (r: Template)
    ensures
        r@ == simple_template_view(value@),
{
    let mut elements: Vec<TemplateElement> = Vec::new();
    elements.push(TemplateElement::String { value: owned(value), source: owned(value) });
    let r = Template { delimiter: None, elements, source_info: dummy_source_info() };
    assert(r@.elements == seq![text_element(value@)]);
    r
}

/// The first position `e >= q` where `}}` starts, if there is one.
pub open spec fn close_from(s: Seq<char>, q: int) -> Option<int>
    decreases s.len() - q,
{
    if q < 0 || q + 1 >= s.len() {
        None
    } else if close_at(s, q) {
        Some(q)
    } else {
        close_from(s, q + 1)
    }
}

/// The first position `r >= q` where `{{` starts, or the length of `s`.
pub open spec fn open_from(s: Seq<char>, q: int) -> int
    decreases s.len() - q,
{
    if q < 0 || q >= s.len() {
        s.len() as int
    } else if open_at(s, q) {
        q
    } else {
        open_from(s, q + 1)
    }
}

pub proof fn lemma_close_from(s: Seq<char>, q: int)
    requires
        0 <= q,
    ensures
        close_from(s, q) matches Some(e) ==> q <= e && close_at(s, e) && forall|j: int|
            q <= j < e ==> !#[trigger] close_at(s, j),
        close_from(s, q) is None ==> forall|j: int| q <= j ==> !#[trigger] close_at(s, j),
    decreases s.len() - q,
{
    if q + 1 < s.len() && !close_at(s, q) {
        lemma_close_from(s, q + 1);
    }
}

pub proof fn lemma_open_from(s: Seq<char>, q: int)
    requires
        0 <= q <= s.len(),
    ensures
        q <= open_from(s, q) <= s.len(),
        open_from(s, q) < s.len() ==> open_at(s, open_from(s, q)),
        forall|j: int| q <= j < open_from(s, q) ==> !#[trigger] open_at(s, j),
    decreases s.len() - q,
{
    if q < s.len() && !open_at(s, q) {
        lemma_open_from(s, q + 1);
    }
}

/// How text at position `p` onwards splits into template elements: a `{{`
/// with a later `}}` makes a placeholder of what lies between; a `{{`
/// without one makes the literal `{`; other text runs up to the next `{{`.
pub open spec fn placeholder_elements(s: Seq<char>, p: int) -> Seq<TemplateElementView>
    decreases s.len() - p,
{
    if p < 0 || p >= s.len() {
        Seq::empty()
    } else if open_at(s, p) {
        match close_from(s, p + 2) {
            Some(e) => {
                proof {
                    lemma_close_from(s, p + 2);
                }
                seq![TemplateElementView::Placeholder(s.subrange(p + 2, e))]
                    + placeholder_elements(s, e + 2)
            },
            None => seq![text_element(seq!['{'])] + placeholder_elements(s, p + 1),
        }
    } else {
        let r = open_from(s, p + 1);
        proof {
            lemma_open_from(s, p + 1);
        }
        seq![text_element(s.subrange(p, r))] + placeholder_elements(s, r)
    }
}

/// The template that `template_with_placeholders` builds from `value`.
pub open spec fn placeholder_template_view(value: Seq<char>) -> TemplateView {
    TemplateView {
        delimiter: None,
        elements: placeholder_elements(value, 0),
        source_info: dummy_info(),
    }
}

/// The same template between double quotes.
pub open spec fn quoted_placeholder_template_view(value: Seq<char>) -> TemplateView {
    TemplateView {
        delimiter: Some('"'),
        elements: placeholder_elements(value, 0),
        source_info: dummy_info(),
    }
}

/// Creates a template that may contain placeholders like `{{variable}}`.
/// This splits the string and turns each `{{...}}` into a placeholder element.
pub fn template_with_placeholders(value: &str) -> (r: Template)
    ensures
        r@ == placeholder_template_view(value@),
{
    let chars = chars_of(value);
    let len = chars.len();
    let ghost s = value@;
    let mut elements: Vec<TemplateElement> = Vec::new();
    let mut pos: usize = 0;
    while pos < len
        invariant
            chars@ == s,
            len == s.len(),
            pos <= len,
            placeholder_elements(s, 0) == elements@.map_values(|e: TemplateElement| e@)
                + placeholder_elements(s, pos as int),
        decreases len - pos,
    {
        let ghost before = elements@.map_values(|e: TemplateElement| e@);
        let ghost rest = placeholder_elements(s, pos as int);
        let element;
        let next: usize;
        if pos + 1 < len && chars[pos] == '{' && chars[pos + 1] == '{' {
            assert(open_at(s, pos as int));
            let start = pos + 2;
            let mut end = start;
            while end < len && end + 1 < len && !(chars[end] == '}' && chars[end + 1] == '}')
                invariant
                    chars@ == s,
                    len == s.len(),
                    start <= end <= len,
                    forall|j: int| start <= j < end ==> !#[trigger] close_at(s, j),
                decreases len - end,
            {
                end += 1;
            }
            proof {
                lemma_close_from(s, start as int);
            }
            if end < len && end + 1 < len {
                assert(close_at(s, end as int));
                assert(close_from(s, start as int) == Some(end as int));
                element = TemplateElement::Placeholder(
                    Placeholder { variable: string_of_chars(&chars, start, end) },
                );
                next = end + 2;
            } else {
                assert(close_from(s, start as int) is None);
                element = TemplateElement::String {
                    value: string_of_chars(&chars, pos, pos + 1),
                    source: string_of_chars(&chars, pos, pos + 1),
                };
                assert(s.subrange(pos as int, pos + 1) == seq!['{']);
                next = pos + 1;
            }
        } else {
            assert(!open_at(s, pos as int));
            let mut cur = pos + 1;
            while cur < len && !(cur + 1 < len && chars[cur] == '{' && chars[cur + 1] == '{')
                invariant
                    chars@ == s,
                    len == s.len(),
                    pos < cur <= len,
                    forall|j: int| pos < j < cur ==> !#[trigger] open_at(s, j),
                decreases len - cur,
            {
                cur += 1;
            }
            proof {
                lemma_open_from(s, pos + 1);
                if cur < len {
                    assert(open_at(s, cur as int));
                }
            }
            assert(open_from(s, pos + 1) == cur);
            element = TemplateElement::String {
                value: string_of_chars(&chars, pos, cur),
                source: string_of_chars(&chars, pos, cur),
            };
            next = cur;
        }
        assert(rest == seq![element@] + placeholder_elements(s, next as int));
        elements.push(element);
        assert(elements@.map_values(|e: TemplateElement| e@) == before.push(element@));
        assert(before + rest == before.push(element@) + placeholder_elements(s, next as int));
        pos = next;
    }
    assert(elements@.map_values(|e: TemplateElement| e@) + Seq::empty()
        == elements@.map_values(|e: TemplateElement| e@));
    Template { delimiter: None, elements, source_info: dummy_source_info() }
}

/// Creates a template from a string that may contain `{{placeholder}}` syntax,
/// wrapped in quotes for use in JSON string values.
pub fn quoted_template_with_placeholders(value: &str) -> (r: Template)
    ensures
        r@ == quoted_placeholder_template_view(value@),
{
    let mut template = template_with_placeholders(value);
    template.delimiter = Some('"');
    template
}

/// The elements of text from position `p` onwards give back that text.
pub proof fn lemma_placeholder_elements_source(s: Seq<char>, p: int)
    requires
        0 <= p <= s.len(),
    ensures
        elements_source(placeholder_elements(s, p)) == s.subrange(p, s.len() as int),
    decreases s.len() - p,
{
    if p < s.len() {
        let es = placeholder_elements(s, p);
        if open_at(s, p) {
            lemma_close_from(s, p + 2);
            match close_from(s, p + 2) {
                Some(e) => {
                    let first = TemplateElementView::Placeholder(s.subrange(p + 2, e));
                    lemma_placeholder_elements_source(s, e + 2);
                    lemma_elements_source_concat(seq![first], placeholder_elements(s, e + 2));
                    lemma_elements_source_single(first);
                    assert(element_source(first) == s.subrange(p, e + 2));
                    assert(s.subrange(p, e + 2) + s.subrange(e + 2, s.len() as int)
                        == s.subrange(p, s.len() as int));
                },
                None => {
                    let first = text_element(seq!['{']);
                    lemma_placeholder_elements_source(s, p + 1);
                    lemma_elements_source_concat(seq![first], placeholder_elements(s, p + 1));
                    lemma_elements_source_single(first);
                    assert(s.subrange(p, p + 1) == seq!['{']);
                    assert(s.subrange(p, p + 1) + s.subrange(p + 1, s.len() as int) == s.subrange(
                        p,
                        s.len() as int,
                    ));
                },
            }
        } else {
            let r = open_from(s, p + 1);
            lemma_open_from(s, p + 1);
            let first = text_element(s.subrange(p, r));
            lemma_placeholder_elements_source(s, r);
            lemma_elements_source_concat(seq![first], placeholder_elements(s, r));
            lemma_elements_source_single(first);
            assert(s.subrange(p, r) + s.subrange(r, s.len() as int) == s.subrange(
                p,
                s.len() as int,
            ));
        }
    } else {
        assert(s.subrange(p, s.len() as int) == Seq::<char>::empty());
    }
}

/// A template built by `template_with_placeholders` reads back, as source,
/// exactly the text it was built from.
pub proof fn law_placeholder_template_round_trip(value: Seq<char>)
    ensures
        template_source(placeholder_template_view(value)) == value,
{
    lemma_placeholder_elements_source(value, 0);
    assert(value.subrange(0, value.len() as int) == value);
    assert(Seq::<char>::empty() + value + Seq::<char>::empty() == value);
}

/// The quoted template reads back as the text between double quotes.
pub proof fn law_quoted_template_round_trip(value: Seq<char>)
    ensures
        template_source(quoted_placeholder_template_view(value)) == seq!['"'] + value + seq!['"'],
{
    lemma_placeholder_elements_source(value, 0);
    assert(value.subrange(0, value.len() as int) == value);
}

/// A simple template reads back as its text.
pub proof fn law_simple_template_round_trip(value: Seq<char>)
    ensures
        template_source(simple_template_view(value)) == value,
{
    lemma_elements_source_single(text_element(value));
    assert(Seq::<char>::empty() + value + Seq::<char>::empty() == value);
}

} // verus!
