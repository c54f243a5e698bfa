//! Hurl syntax tree to text.
use vstd::prelude::*;

use crate::writer::ast::{
    Assert, AssertView, Bytes, BytesView, Capture, CaptureView, Check, Comparison, Cookie,
    EntryView, HurlFile, KeyValue, KeyValueView, Number, Predicate, PredicateFuncValue,
    PredicateFuncView, PredicateValue, PredicateValueView, PredicateView, Query, QueryValue,
    QueryView, Response, ResponseView, Section, SectionValue, SectionView, StatusValue,
    VersionValue, key_values_view,
};
use crate::writer::source::{
    append_json_source, append_multiline_source, append_template_source, json_text,
    multiline_text, template_source, template_to_source,
};
use crate::writer::text::{decimal_int, decimal_nat, i128_to_decimal, open_at, u128_to_decimal};

verus! {

/// The texts of the items of `s`, one after the other.
pub open spec fn concat_map<T>(s: Seq<T>, f: spec_fn(T) -> Seq<char>) -> Seq<char>
    decreases s.len(),
{
    if s.len() == 0 {
        Seq::empty()
    } else {
        concat_map(s.drop_last(), f) + f(s.last())
    }
}

pub proof fn lemma_concat_map_take<T>(s: Seq<T>, f: spec_fn(T) -> Seq<char>, i: int)
    requires
        0 <= i < s.len(),
    ensures
        concat_map(s.take(i + 1), f) == concat_map(s.take(i), f) + f(s[i]),
{
    assert(s.take(i + 1).drop_last() == s.take(i));
}

pub proof fn lemma_concat_map_all<T>(s: Seq<T>, f: spec_fn(T) -> Seq<char>)
    ensures
        concat_map(s.take(s.len() as int), f) == concat_map(s, f),
        concat_map(s.take(0), f) == Seq::<char>::empty(),
{
    assert(s.take(s.len() as int) == s);
    assert(s.take(0).len() == 0);
}

/// A `key: value` line.
pub open spec fn key_value_line(kv: KeyValueView) -> Seq<char> {
    template_source(kv.key) + ": "@ + template_source(kv.value) + "\n"@
}

/// One `key: value` line per item.
pub open spec fn key_value_lines(kvs: Seq<KeyValueView>) -> Seq<char> {
    concat_map(kvs, |kv: KeyValueView| key_value_line(kv))
}

/// The text of a query.
pub open spec fn query_text(q: QueryView) -> Seq<char> {
    match q {
        QueryView::Status => "status"@,
        QueryView::Version => "version"@,
        QueryView::Url => "url"@,
        QueryView::Header(n) => "header \""@ + template_source(n) + "\""@,
        QueryView::Cookie(n) => "cookie \""@ + template_source(n) + "\""@,
        QueryView::Body => "body"@,
        QueryView::Xpath(e) => "xpath \""@ + template_source(e) + "\""@,
        QueryView::Jsonpath(e) => "jsonpath \""@ + template_source(e) + "\""@,
        QueryView::Regex(t) => "regex \""@ + template_source(t) + "\""@,
        QueryView::Duration => "duration"@,
    }
}

/// The text of a predicate's value: a string between double quotes unless
/// it starts with a placeholder, numbers in decimal.
pub open spec fn predicate_value_text(v: PredicateValueView) -> Seq<char> {
    match v {
        PredicateValueView::String(t) => {
            let s = template_source(t);
            if open_at(s, 0) {
                s
            } else {
                "\""@ + s + "\""@
            }
        },
        PredicateValueView::Integer(i) => decimal_int(i as int),
        PredicateValueView::Float(f) => f,
        PredicateValueView::Bool(b) => if b {
            "true"@
        } else {
            "false"@
        },
        PredicateValueView::Null => "null"@,
    }
}

/// The operator of a comparison.
pub open spec fn comparison_word(c: Comparison) -> Seq<char> {
    match c {
        Comparison::Equal => "=="@,
        Comparison::NotEqual => "!="@,
        Comparison::GreaterThan => ">"@,
        Comparison::GreaterThanOrEqual => ">="@,
        Comparison::LessThan => "<"@,
        Comparison::LessThanOrEqual => "<="@,
        Comparison::StartWith => "startsWith"@,
        Comparison::EndWith => "endsWith"@,
        Comparison::Contain => "contains"@,
        Comparison::Match => "matches"@,
    }
}

/// The word of a test without a value.
pub open spec fn check_word(c: Check) -> Seq<char> {
    match c {
        Check::Exist => "exists"@,
        Check::IsBoolean => "isBoolean"@,
        Check::IsEmpty => "isEmpty"@,
        Check::IsFloat => "isFloat"@,
        Check::IsInteger => "isInteger"@,
        Check::IsNumber => "isNumber"@,
        Check::IsString => "isString"@,
        Check::IsCollection => "isCollection"@,
        Check::IsDate => "isDate"@,
        Check::IsIsoDate => "isIsoDate"@,
    }
}

/// The text of a predicate, with `not ` in front when it is negated.
pub open spec fn predicate_text(p: PredicateView) -> Seq<char> {
    (if p.not {
        "not "@
    } else {
        Seq::empty()
    }) + match p.func {
        PredicateFuncView::Compare(c, v) => comparison_word(c) + " "@ + predicate_value_text(v),
        PredicateFuncView::Test(c) => check_word(c),
    }
}

/// A `name: query` capture line.
pub open spec fn capture_line(c: CaptureView) -> Seq<char> {
    template_source(c.name) + ": "@ + query_text(c.query) + "\n"@
}

/// A `query predicate` assert line.
pub open spec fn assert_line(a: AssertView) -> Seq<char> {
    query_text(a.query) + " "@ + predicate_text(a.predicate) + "\n"@
}

/// The name of a section between its brackets.
pub open spec fn section_identifier(s: SectionView) -> Seq<char> {
    match s {
        SectionView::Asserts(_) => "Asserts"@,
        SectionView::QueryParams(_, short) => if short {
            "Query"@
        } else {
            "QueryStringParams"@
        },
        SectionView::BasicAuth(_) => "BasicAuth"@,
        SectionView::FormParams(_, short) => if short {
            "Form"@
        } else {
            "FormParams"@
        },
        SectionView::Cookies(_) => "Cookies"@,
        SectionView::Captures(_) => "Captures"@,
        SectionView::MultipartFormData(_, short) => if short {
            "Multipart"@
        } else {
            "MultipartFormData"@
        },
        SectionView::Options => "Options"@,
    }
}

/// The text of a section: its `[Name]` line, then one line per item
/// (options are not written).
pub open spec fn section_text(s: SectionView) -> Seq<char> {
    "["@ + section_identifier(s) + "]\n"@ + match s {
        SectionView::QueryParams(kvs, _) => key_value_lines(kvs),
        SectionView::FormParams(kvs, _) => key_value_lines(kvs),
        SectionView::MultipartFormData(kvs, _) => key_value_lines(kvs),
        SectionView::Cookies(kvs) => key_value_lines(kvs),
        SectionView::Captures(cs) => concat_map(cs, |c: CaptureView| capture_line(c)),
        SectionView::Asserts(asserts) => concat_map(asserts, |a: AssertView| assert_line(a)),
        SectionView::BasicAuth(kv) => match kv {
            Some(kv) => key_value_line(kv),
            None => Seq::empty(),
        },
        SectionView::Options => Seq::empty(),
    }
}

/// The texts of the sections, one after the other.
pub open spec fn sections_text(ss: Seq<SectionView>) -> Seq<char> {
    concat_map(ss, |s: SectionView| section_text(s))
}

/// The text of a body.
pub open spec fn bytes_text(b: BytesView) -> Seq<char> {
    match b {
        BytesView::Json(j) => json_text(j),
        BytesView::MultilineString(m) => multiline_text(m),
        BytesView::Base64 { value, source } => "base64,"@ + source + ";"@,
        BytesView::Hex { value, source } => "hex,"@ + source + ";"@,
        BytesView::File(t) => "file,"@ + template_source(t) + ";"@,
    }
}

/// The text of an HTTP version.
pub open spec fn version_text(v: VersionValue) -> Seq<char> {
    match v {
        VersionValue::Version1 => "HTTP/1.0"@,
        VersionValue::Version11 => "HTTP/1.1"@,
        VersionValue::Version2 => "HTTP/2"@,
        VersionValue::Version3 => "HTTP/3"@,
        VersionValue::VersionAny => "HTTP"@,
    }
}

/// The text of a status: a number, or `*` for any.
pub open spec fn status_text(s: StatusValue) -> Seq<char> {
    match s {
        StatusValue::Any => "*"@,
        StatusValue::Specific(code) => decimal_nat(code as nat),
    }
}

/// The text of a response: its `version status` line, headers, sections.
pub open spec fn response_text(r: ResponseView) -> Seq<char> {
    version_text(r.version) + " "@ + status_text(r.status) + "\n"@ + key_value_lines(r.headers)
        + sections_text(r.sections)
}

/// The text of an entry: the `METHOD url` line, headers, sections, body,
/// response, then an empty line.
pub open spec fn entry_text(e: EntryView) -> Seq<char> {
    e.request.method + " "@ + template_source(e.request.url) + "\n"@ + key_value_lines(
        e.request.headers,
    ) + sections_text(e.request.sections) + match e.request.body {
        Some(b) => bytes_text(b) + "\n"@,
        None => Seq::empty(),
    } + match e.response {
        Some(r) => response_text(r),
        None => Seq::empty(),
    } + "\n"@
}

/// The text of a Hurl file: its entries one after the other.
pub open spec fn file_text(es: Seq<EntryView>) -> Seq<char> {
    concat_map(es, |e: EntryView| entry_text(e))
}

fn append_key_value(out: &mut String, key: &crate::writer::ast::Template, value: &crate::writer::ast::Template)
    ensures
        final(out)@ == old(out)@ + template_source(key@) + ": "@ + template_source(value@) + "\n"@,
{
    append_template_source(out, key);
    out.append(": ");
    append_template_source(out, value);
    out.append("\n");
}

fn append_key_values(out: &mut String, kvs: &Vec<KeyValue>)
    ensures
        final(out)@ == old(out)@ + key_value_lines(key_values_view(kvs@)),
{
    let ghost start = out@;
    let ghost views = key_values_view(kvs@);
    let ghost f = |kv: KeyValueView| key_value_line(kv);
    proof {
        lemma_concat_map_all(views, f);
    }
    let mut i: usize = 0;
    while i < kvs.len()
        invariant
            i <= kvs.len(),
            views == key_values_view(kvs@),
            f == (|kv: KeyValueView| key_value_line(kv)),
            out@ == start + concat_map(views.take(i as int), f),
        decreases kvs.len() - i,
    {
        proof {
            lemma_concat_map_take(views, f, i as int);
        }
        append_key_value(out, &kvs[i].key, &kvs[i].value);
        i += 1;
    }
    proof {
        lemma_concat_map_all(views, f);
    }
}

fn append_cookies(out: &mut String, cookies: &Vec<Cookie>)
    ensures
        final(out)@ == old(out)@ + key_value_lines(cookies@.map_values(|c: Cookie| c@)),
{
    let ghost start = out@;
    let ghost views = cookies@.map_values(|c: Cookie| c@);
    let ghost f = |kv: KeyValueView| key_value_line(kv);
    proof {
        lemma_concat_map_all(views, f);
    }
    let mut i: usize = 0;
    while i < cookies.len()
        invariant
            i <= cookies.len(),
            views == cookies@.map_values(|c: Cookie| c@),
            f == (|kv: KeyValueView| key_value_line(kv)),
            out@ == start + concat_map(views.take(i as int), f),
        decreases cookies.len() - i,
    {
        proof {
            lemma_concat_map_take(views, f, i as int);
        }
        append_key_value(out, &cookies[i].name, &cookies[i].value);
        i += 1;
    }
    proof {
        lemma_concat_map_all(views, f);
    }
}

fn append_query(out: &mut String, query: &Query)
    ensures
        final(out)@ == old(out)@ + query_text(query@),
{
    match &query.value {
        QueryValue::Status => out.append("status"),
        QueryValue::Version => out.append("version"),
        QueryValue::Url => out.append("url"),
        QueryValue::Header { name } => {
            out.append("header \"");
            append_template_source(out, name);
            out.append("\"");
        },
        QueryValue::Cookie { name } => {
            out.append("cookie \"");
            append_template_source(out, name);
            out.append("\"");
        },
        QueryValue::Body => out.append("body"),
        QueryValue::Xpath { expr } => {
            out.append("xpath \"");
            append_template_source(out, expr);
            out.append("\"");
        },
        QueryValue::Jsonpath { expr } => {
            out.append("jsonpath \"");
            append_template_source(out, expr);
            out.append("\"");
        },
        QueryValue::Regex { value } => {
            out.append("regex \"");
            append_template_source(out, value);
            out.append("\"");
        },
        QueryValue::Duration => out.append("duration"),
    }
}

/// Formats a query to hurl string.
pub fn format_query(query: &Query) -> (r: String)
    ensures
        r@ == query_text(query@),
{
    let mut r = String::new();
    append_query(&mut r, query);
    r
}

/// Formats a predicate value to hurl string.
pub fn format_predicate_value(value: &PredicateValue) -> (r: String)
    ensures
        r@ == predicate_value_text(value@),
{
    match value {
        PredicateValue::String(t) => {
            let s = template_to_source(t);
            let v = crate::writer::text::chars_of(s.as_str());
            if v.len() >= 2 && v[0] == '{' && v[1] == '{' {
                assert(open_at(s@, 0));
                s
            } else {
                let mut r = String::from_str("\"");
                r.append(s.as_str());
                r.append("\"");
                r
            }
        },
        PredicateValue::Number(Number::Integer(i)) => i128_to_decimal(*i as i128),
        PredicateValue::Number(Number::Float(f)) => f.clone(),
        PredicateValue::Bool(b) => {
            if *b {
                String::from_str("true")
            } else {
                String::from_str("false")
            }
        },
        PredicateValue::Null => String::from_str("null"),
    }
}

fn comparison_of_func(f: &PredicateFuncValue) -> (r: Option<(&'static str, &PredicateValue)>)
    ensures
        match f@ {
            PredicateFuncView::Compare(c, v) => r matches Some((w, pv)) && w@ == comparison_word(c)
                && pv@ == v,
            PredicateFuncView::Test(_) => r is None,
        },
{
    match f {
        PredicateFuncValue::Equal { value } => Some(("==", value)),
        PredicateFuncValue::NotEqual { value } => Some(("!=", value)),
        PredicateFuncValue::GreaterThan { value } => Some((">", value)),
        PredicateFuncValue::GreaterThanOrEqual { value } => Some((">=", value)),
        PredicateFuncValue::LessThan { value } => Some(("<", value)),
        PredicateFuncValue::LessThanOrEqual { value } => Some(("<=", value)),
        PredicateFuncValue::StartWith { value } => Some(("startsWith", value)),
        PredicateFuncValue::EndWith { value } => Some(("endsWith", value)),
        PredicateFuncValue::Contain { value } => Some(("contains", value)),
        PredicateFuncValue::Match { value } => Some(("matches", value)),
        _ => None,
    }
}

fn check_text(f: &PredicateFuncValue) -> (r: &'static str)
    requires
        f@ is Test,
    ensures
        r@ == check_word(f@->Test_0),
{
    match f {
        PredicateFuncValue::Exist => "exists",
        PredicateFuncValue::IsBoolean => "isBoolean",
        PredicateFuncValue::IsEmpty => "isEmpty",
        PredicateFuncValue::IsFloat => "isFloat",
        PredicateFuncValue::IsInteger => "isInteger",
        PredicateFuncValue::IsNumber => "isNumber",
        PredicateFuncValue::IsString => "isString",
        PredicateFuncValue::IsCollection => "isCollection",
        PredicateFuncValue::IsDate => "isDate",
        _ => "isIsoDate",
    }
}

/// Formats a predicate to hurl string.
pub fn format_predicate(predicate: &Predicate) -> (r: String)
    ensures
        r@ == predicate_text(predicate@),
{
    let mut output = String::new();
    if predicate.not {
        output.append("not ");
    }
    match comparison_of_func(&predicate.predicate_func) {
        Some((word, value)) => {
            output.append(word);
            output.append(" ");
            let v = format_predicate_value(value);
            output.append(v.as_str());
        },
        None => {
            output.append(check_text(&predicate.predicate_func));
        },
    }
    output
}

fn append_captures(out: &mut String, captures: &Vec<Capture>)
    ensures
        final(out)@ == old(out)@ + concat_map(
            captures@.map_values(|c: Capture| c@),
            |c: CaptureView| capture_line(c),
        ),
{
    let ghost start = out@;
    let ghost views = captures@.map_values(|c: Capture| c@);
    let ghost f = |c: CaptureView| capture_line(c);
    proof {
        lemma_concat_map_all(views, f);
    }
    let mut i: usize = 0;
    while i < captures.len()
        invariant
            i <= captures.len(),
            views == captures@.map_values(|c: Capture| c@),
            f == (|c: CaptureView| capture_line(c)),
            out@ == start + concat_map(views.take(i as int), f),
        decreases captures.len() - i,
    {
        proof {
            lemma_concat_map_take(views, f, i as int);
        }
        append_template_source(out, &captures[i].name);
        out.append(": ");
        append_query(out, &captures[i].query);
        out.append("\n");
        i += 1;
    }
    proof {
        lemma_concat_map_all(views, f);
    }
}

fn append_asserts(out: &mut String, asserts: &Vec<Assert>)
    ensures
        final(out)@ == old(out)@ + concat_map(
            asserts@.map_values(|a: Assert| a@),
            |a: AssertView| assert_line(a),
        ),
{
    let ghost start = out@;
    let ghost views = asserts@.map_values(|a: Assert| a@);
    let ghost f = |a: AssertView| assert_line(a);
    proof {
        lemma_concat_map_all(views, f);
    }
    let mut i: usize = 0;
    while i < asserts.len()
        invariant
            i <= asserts.len(),
            views == asserts@.map_values(|a: Assert| a@),
            f == (|a: AssertView| assert_line(a)),
            out@ == start + concat_map(views.take(i as int), f),
        decreases asserts.len() - i,
    {
        proof {
            lemma_concat_map_take(views, f, i as int);
        }
        append_query(out, &asserts[i].query);
        out.append(" ");
        let p = format_predicate(&asserts[i].predicate);
        out.append(p.as_str());
        out.append("\n");
        i += 1;
    }
    proof {
        lemma_concat_map_all(views, f);
    }
}

fn section_name(section: &Section) -> (r: &'static str)
    ensures
        r@ == section_identifier(section@),
{
    match &section.value {
        SectionValue::Asserts(_) => "Asserts",
        SectionValue::QueryParams(_, true) => "Query",
        SectionValue::QueryParams(_, false) => "QueryStringParams",
        SectionValue::BasicAuth(_) => "BasicAuth",
        SectionValue::FormParams(_, true) => "Form",
        SectionValue::FormParams(_, false) => "FormParams",
        SectionValue::Cookies(_) => "Cookies",
        SectionValue::Captures(_) => "Captures",
        SectionValue::MultipartFormData(_, true) => "Multipart",
        SectionValue::MultipartFormData(_, false) => "MultipartFormData",
        SectionValue::Options => "Options",
    }
}

fn append_section(out: &mut String, section: &Section)
    ensures
        final(out)@ == old(out)@ + section_text(section@),
{
    out.append("[");
    out.append(section_name(section));
    out.append("]\n");
    match &section.value {
        SectionValue::QueryParams(params, _) => append_key_values(out, params),
        SectionValue::FormParams(params, _) => append_key_values(out, params),
        SectionValue::MultipartFormData(params, _) => append_key_values(out, params),
        SectionValue::Cookies(cookies) => append_cookies(out, cookies),
        SectionValue::Captures(captures) => append_captures(out, captures),
        SectionValue::Asserts(asserts) => append_asserts(out, asserts),
        SectionValue::BasicAuth(kv) => {
            if let Some(kv) = kv {
                append_key_value(out, &kv.key, &kv.value);
            }
        },
        SectionValue::Options => {},
    }
}

/// Formats a section to hurl string. An options section is written as its
/// header alone: options are not serialized.
pub fn format_section(section: &Section) -> (r: String)
    ensures
        r@ == section_text(section@),
{
    let mut r = String::new();
    append_section(&mut r, section);
    r
}

fn append_sections(out: &mut String, sections: &Vec<Section>)
    ensures
        final(out)@ == old(out)@ + sections_text(sections@.map_values(|s: Section| s@)),
{
    let ghost start = out@;
    let ghost views = sections@.map_values(|s: Section| s@);
    let ghost f = |s: SectionView| section_text(s);
    proof {
        lemma_concat_map_all(views, f);
    }
    let mut i: usize = 0;
    while i < sections.len()
        invariant
            i <= sections.len(),
            views == sections@.map_values(|s: Section| s@),
            f == (|s: SectionView| section_text(s)),
            out@ == start + concat_map(views.take(i as int), f),
        decreases sections.len() - i,
    {
        proof {
            lemma_concat_map_take(views, f, i as int);
        }
        append_section(out, &sections[i]);
        i += 1;
    }
    proof {
        lemma_concat_map_all(views, f);
    }
}

fn append_bytes(out: &mut String, bytes: &Bytes)
    ensures
        final(out)@ == old(out)@ + bytes_text(bytes@),
{
    match bytes {
        Bytes::Json(json) => append_json_source(out, json),
        Bytes::MultilineString(m) => append_multiline_source(out, m),
        Bytes::Base64(b) => {
            out.append("base64,");
            out.append(b.source.as_str());
            out.append(";");
        },
        Bytes::Hex(h) => {
            out.append("hex,");
            out.append(h.source.as_str());
            out.append(";");
        },
        Bytes::File(f) => {
            out.append("file,");
            append_template_source(out, &f.filename);
            out.append(";");
        },
    }
}

/// Formats a body bytes to hurl string.
pub fn format_bytes(bytes: &Bytes) -> (r: String)
    ensures
        r@ == bytes_text(bytes@),
{
    let mut r = String::new();
    append_bytes(&mut r, bytes);
    r
}

fn append_response(out: &mut String, response: &Response)
    ensures
        final(out)@ == old(out)@ + response_text(response@),
{
    let version = match response.version.value {
        VersionValue::Version1 => "HTTP/1.0",
        VersionValue::Version11 => "HTTP/1.1",
        VersionValue::Version2 => "HTTP/2",
        VersionValue::Version3 => "HTTP/3",
        VersionValue::VersionAny => "HTTP",
    };
    out.append(version);
    out.append(" ");
    match response.status.value {
        StatusValue::Any => out.append("*"),
        StatusValue::Specific(code) => {
            let c = u128_to_decimal(code as u128);
            out.append(c.as_str());
        },
    }
    out.append("\n");
    append_key_values(out, &response.headers);
    append_sections(out, &response.sections);
}

/// Formats a response to hurl string.
pub fn format_response(response: &Response) -> (r: String)
    ensures
        r@ == response_text(response@),
{
    let mut r = String::new();
    append_response(&mut r, response);
    r
}

#[verifier::spinoff_prover]
#[verifier::rlimit(30)]
fn append_entry(out: &mut String, entry: &crate::writer::ast::Entry)
    ensures
        final(out)@ == old(out)@ + entry_text(entry@),
{
    let ghost before = out@;
    out.append(entry.request.method.as_str());
    out.append(" ");
    append_template_source(out, &entry.request.url);
    out.append("\n");
    append_key_values(out, &entry.request.headers);
    append_sections(out, &entry.request.sections);
    let ghost head = out@;
    assert(head == before + entry.request.method@ + " "@ + template_source(entry.request.url@)
        + "\n"@ + key_value_lines(entry@.request.headers) + sections_text(entry@.request.sections));
    if let Some(body) = &entry.request.body {
        append_bytes(out, &body.value);
        out.append("\n");
    }
    let ghost with_body = out@;
    assert(with_body == head + match entry@.request.body {
        Some(b) => bytes_text(b) + "\n"@,
        None => Seq::empty(),
    });
    if let Some(response) = &entry.response {
        append_response(out, response);
    }
    let ghost with_response = out@;
    assert(with_response == with_body + match entry@.response {
        Some(r) => response_text(r),
        None => Seq::empty(),
    });
    out.append("\n");
}

/// Converts a `HurlFile` syntax tree to a string.
pub fn hurl_file_to_string(hurl_file: &HurlFile) -> (r: String)
    ensures
        r@ == file_text(hurl_file@),
{
    let mut output = String::new();
    let ghost views = hurl_file@;
    let ghost f = |e: EntryView| entry_text(e);
    proof {
        lemma_concat_map_all(views, f);
    }
    let mut i: usize = 0;
    while i < hurl_file.entries.len()
        invariant
            i <= hurl_file.entries.len(),
            views == hurl_file@,
            f == (|e: EntryView| entry_text(e)),
            output@ == concat_map(views.take(i as int), f),
        decreases hurl_file.entries.len() - i,
    {
        proof {
            lemma_concat_map_take(views, f, i as int);
        }
        append_entry(&mut output, &hurl_file.entries[i]);
        i += 1;
    }
    proof {
        lemma_concat_map_all(views, f);
    }
    output
}

/// A string predicate value is written as its template source, between
/// double quotes unless that source begins with `{{`: a string with a
/// placeholder further on is still quoted.
pub proof fn law_string_predicate_value_quoting(t: crate::writer::ast::TemplateView)
    ensures
        predicate_value_text(PredicateValueView::String(t)) == if template_source(t).len() >= 2
            && template_source(t)[0] == '{' && template_source(t)[1] == '{' {
            template_source(t)
        } else {
            seq!['"'] + template_source(t) + seq!['"']
        },
{
    reveal_strlit("\"");
}

} // verus!
