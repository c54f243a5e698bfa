//! The part of the Hurl syntax tree that the translation builds, and its
//! mathematical view (each string taken as its sequence of characters).
use vstd::prelude::*;

verus! {

/// A position in a Hurl source.
#[derive(Clone, Copy, Debug, PartialEq, Eq)]
pub struct Pos {
    pub line: usize,
    pub column: usize,
}

/// The span of a node in a Hurl source.
#[derive(Clone, Copy, Debug, PartialEq, Eq)]
pub struct SourceInfo {
    pub start: Pos,
    pub end: Pos,
}

/// Blank characters of the source, kept as written.
#[derive(Debug, PartialEq, Eq)]
pub struct Whitespace {
    pub value: String,
    pub source_info: SourceInfo,
}

/// The view of a `Whitespace`: its strings as sequences of characters.
pub struct WhitespaceView {
    pub value: Seq<char>,
    pub source_info: SourceInfo,
}

impl View for Whitespace {
    type V = WhitespaceView;

    open spec fn view(&self) -> WhitespaceView {
        WhitespaceView { value: self.value@, source_info: self.source_info }
    }
}

/// The end of a line: optional blanks then a newline.
#[derive(Debug, PartialEq, Eq)]
pub struct LineTerminator {
    pub space0: Whitespace,
    pub newline: Whitespace,
}

/// The view of a `LineTerminator`: its strings as sequences of characters.
pub struct LineTerminatorView {
    pub space0: WhitespaceView,
    pub newline: WhitespaceView,
}

impl View for LineTerminator {
    type V = LineTerminatorView;

    open spec fn view(&self) -> LineTerminatorView {
        LineTerminatorView { space0: self.space0@, newline: self.newline@ }
    }
}

/// A `{{variable}}` placeholder.
#[derive(Debug, PartialEq, Eq)]
pub struct Placeholder {
    pub variable: String,
}

/// A piece of a template: literal text or a placeholder.
#[derive(Debug, PartialEq, Eq)]
pub enum TemplateElement {
    String { value: String, source: String },
    Placeholder(Placeholder),
}

/// The view of a `TemplateElement`: its strings as sequences of characters.
pub enum TemplateElementView {
    Text { value: Seq<char>, source: Seq<char> },
    Placeholder(Seq<char>),
}

impl View for TemplateElement {
    type V = TemplateElementView;

    open spec fn view(&self) -> TemplateElementView {
        match self {
            TemplateElement::String { value, source } => TemplateElementView::Text {
                value: value@,
                source: source@,
            },
            TemplateElement::Placeholder(p) => TemplateElementView::Placeholder(p.variable@),
        }
    }
}

/// Text that may hold placeholders, optionally between delimiters.
#[derive(Debug, PartialEq, Eq)]
pub struct Template {
    pub delimiter: Option<char>,
    pub elements: Vec<TemplateElement>,
    pub source_info: SourceInfo,
}

/// The view of a `Template`: its strings as sequences of characters.
pub struct TemplateView {
    pub delimiter: Option<char>,
    pub elements: Seq<TemplateElementView>,
    pub source_info: SourceInfo,
}

impl View for Template {
    type V = TemplateView;

    open spec fn view(&self) -> TemplateView {
        TemplateView {
            delimiter: self.delimiter,
            elements: self.elements@.map_values(|e: TemplateElement| e@),
            source_info: self.source_info,
        }
    }
}

/// A JSON value of a request body; strings are templates.
#[derive(Debug, PartialEq, Eq)]
pub enum JsonValue {
    Number(String),
    String(Template),
    Boolean(bool),
    List { space0: String, elements: Vec<JsonListElement> },
    Object { space0: String, elements: Vec<JsonObjectElement> },
    Null,
}

/// An element of a JSON list, with the blanks around it.
#[derive(Debug, PartialEq, Eq)]
pub struct JsonListElement {
    pub space0: String,
    pub value: JsonValue,
    pub space1: String,
}

/// A member of a JSON object, with the blanks around its name and value.
#[derive(Debug, PartialEq, Eq)]
pub struct JsonObjectElement {
    pub space0: String,
    pub name: Template,
    pub space1: String,
    pub space2: String,
    pub value: JsonValue,
    pub space3: String,
}

/// The view of a `JsonValue`: its strings as sequences of characters.
pub enum JsonValueView {
    Number(Seq<char>),
    String(TemplateView),
    Boolean(bool),
    List { space0: Seq<char>, elements: Seq<JsonListElementView> },
    Object { space0: Seq<char>, elements: Seq<JsonObjectElementView> },
    Null,
}

/// The view of a `JsonListElement`: its strings as sequences of characters.
pub struct JsonListElementView {
    pub space0: Seq<char>,
    pub value: JsonValueView,
    pub space1: Seq<char>,
}

/// The view of a `JsonObjectElement`: its strings as sequences of characters.
pub struct JsonObjectElementView {
    pub space0: Seq<char>,
    pub name: TemplateView,
    pub space1: Seq<char>,
    pub space2: Seq<char>,
    pub value: JsonValueView,
    pub space3: Seq<char>,
}

impl View for JsonValue {
    type V = JsonValueView;

    open spec fn view(&self) -> JsonValueView
        decreases self,
    {
        match self {
            JsonValue::Number(n) => JsonValueView::Number(n@),
            JsonValue::String(t) => JsonValueView::String(t@),
            JsonValue::Boolean(b) => JsonValueView::Boolean(*b),
            JsonValue::List { space0, elements } => JsonValueView::List {
                space0: space0@,
                elements: Seq::new(
                    elements.len() as nat,
                    |i: int|
                        if 0 <= i < elements.len() {
                            proof {
                                assert(decreases_to!(elements@ => elements@[i]));
                            }
                            JsonListElementView {
                                space0: elements@[i].space0@,
                                value: elements@[i].value.view(),
                                space1: elements@[i].space1@,
                            }
                        } else {
                            JsonListElementView {
                                space0: Seq::empty(),
                                value: JsonValueView::Null,
                                space1: Seq::empty(),
                            }
                        },
                ),
            },
            JsonValue::Object { space0, elements } => JsonValueView::Object {
                space0: space0@,
                elements: Seq::new(
                    elements.len() as nat,
                    |i: int|
                        if 0 <= i < elements.len() {
                            proof {
                                assert(decreases_to!(elements@ => elements@[i]));
                            }
                            JsonObjectElementView {
                                space0: elements@[i].space0@,
                                name: elements@[i].name@,
                                space1: elements@[i].space1@,
                                space2: elements@[i].space2@,
                                value: elements@[i].value.view(),
                                space3: elements@[i].space3@,
                            }
                        } else {
                            JsonObjectElementView {
                                space0: Seq::empty(),
                                name: TemplateView {
                                    delimiter: None,
                                    elements: Seq::empty(),
                                    source_info: SourceInfo {
                                        start: Pos { line: 0, column: 0 },
                                        end: Pos { line: 0, column: 0 },
                                    },
                                },
                                space1: Seq::empty(),
                                space2: Seq::empty(),
                                value: JsonValueView::Null,
                                space3: Seq::empty(),
                            }
                        },
                ),
            },
            JsonValue::Null => JsonValueView::Null,
        }
    }
}

/// The `variables` block of a GraphQL body.
#[derive(Debug, PartialEq, Eq)]
pub struct GraphQlVariables {
    pub space: Whitespace,
    pub value: JsonValue,
    pub whitespace: Whitespace,
}

/// The view of a `GraphQlVariables`: its strings as sequences of characters.
pub struct GraphQlVariablesView {
    pub space: WhitespaceView,
    pub value: JsonValueView,
    pub whitespace: WhitespaceView,
}

impl View for GraphQlVariables {
    type V = GraphQlVariablesView;

    open spec fn view(&self) -> GraphQlVariablesView {
        GraphQlVariablesView { space: self.space@, value: self.value@, whitespace: self.whitespace@ }
    }
}

/// A GraphQL query with its optional variables.
#[derive(Debug, PartialEq, Eq)]
pub struct GraphQl {
    pub value: Template,
    pub variables: Option<GraphQlVariables>,
}

/// The view of a `GraphQl`: its strings as sequences of characters.
pub struct GraphQlView {
    pub value: TemplateView,
    pub variables: Option<GraphQlVariablesView>,
}

impl View for GraphQl {
    type V = GraphQlView;

    open spec fn view(&self) -> GraphQlView {
        GraphQlView {
            value: self.value@,
            variables: match self.variables {
                Some(v) => Some(v@),
                None => None,
            },
        }
    }
}

/// What a multiline string holds, by kind.
#[derive(Debug, PartialEq, Eq)]
pub enum MultilineStringKind {
    Text(Template),
    Xml(Template),
    GraphQl(GraphQl),
}

/// The view of a `MultilineStringKind`: its strings as sequences of characters.
pub enum MultilineStringKindView {
    Text(TemplateView),
    Xml(TemplateView),
    GraphQl(GraphQlView),
}

impl View for MultilineStringKind {
    type V = MultilineStringKindView;

    open spec fn view(&self) -> MultilineStringKindView {
        match self {
            MultilineStringKind::Text(t) => MultilineStringKindView::Text(t@),
            MultilineStringKind::Xml(t) => MultilineStringKindView::Xml(t@),
            MultilineStringKind::GraphQl(g) => MultilineStringKindView::GraphQl(g@),
        }
    }
}

/// A string between triple backquotes.
#[derive(Debug, PartialEq, Eq)]
pub struct MultilineString {
    pub space: Whitespace,
    pub newline: Whitespace,
    pub kind: MultilineStringKind,
}

/// The view of a `MultilineString`: its strings as sequences of characters.
pub struct MultilineStringView {
    pub space: WhitespaceView,
    pub newline: WhitespaceView,
    pub kind: MultilineStringKindView,
}

impl View for MultilineString {
    type V = MultilineStringView;

    open spec fn view(&self) -> MultilineStringView {
        MultilineStringView { space: self.space@, newline: self.newline@, kind: self.kind@ }
    }
}

/// Bytes given in base64; `source` is the text as written.
#[derive(Debug, PartialEq, Eq)]
pub struct Base64 {
    pub value: Vec<u8>,
    pub source: String,
}

/// Bytes given in hexadecimal; `source` is the text as written.
#[derive(Debug, PartialEq, Eq)]
pub struct Hex {
    pub value: Vec<u8>,
    pub source: String,
}

/// A body read from a file.
#[derive(Debug, PartialEq, Eq)]
pub struct File {
    pub filename: Template,
}

/// The kinds of request body.
#[derive(Debug, PartialEq, Eq)]
pub enum Bytes {
    Json(JsonValue),
    MultilineString(MultilineString),
    Base64(Base64),
    File(File),
    Hex(Hex),
}

/// The view of a `Bytes`: its strings as sequences of characters.
pub enum BytesView {
    Json(JsonValueView),
    MultilineString(MultilineStringView),
    Base64 { value: Seq<u8>, source: Seq<char> },
    File(TemplateView),
    Hex { value: Seq<u8>, source: Seq<char> },
}

impl View for Bytes {
    type V = BytesView;

    open spec fn view(&self) -> BytesView {
        match self {
            Bytes::Json(j) => BytesView::Json(j@),
            Bytes::MultilineString(m) => BytesView::MultilineString(m@),
            Bytes::Base64(b) => BytesView::Base64 { value: b.value@, source: b.source@ },
            Bytes::File(f) => BytesView::File(f.filename@),
            Bytes::Hex(h) => BytesView::Hex { value: h.value@, source: h.source@ },
        }
    }
}

/// A request body.
#[derive(Debug, PartialEq, Eq)]
pub struct Body {
    pub value: Bytes,
}

impl View for Body {
    type V = BytesView;

    open spec fn view(&self) -> BytesView {
        self.value@
    }
}

/// A `key: value` line.
#[derive(Debug, PartialEq, Eq)]
pub struct KeyValue {
    pub key: Template,
    pub value: Template,
}

/// The view of a `KeyValue`: its strings as sequences of characters.
pub struct KeyValueView {
    pub key: TemplateView,
    pub value: TemplateView,
}

impl View for KeyValue {
    type V = KeyValueView;

    open spec fn view(&self) -> KeyValueView {
        KeyValueView { key: self.key@, value: self.value@ }
    }
}

/// A `name: value` cookie line.
#[derive(Debug, PartialEq, Eq)]
pub struct Cookie {
    pub name: Template,
    pub value: Template,
}

impl View for Cookie {
    type V = KeyValueView;

    open spec fn view(&self) -> KeyValueView {
        KeyValueView { key: self.name@, value: self.value@ }
    }
}

/// What a query reads from a response.
#[derive(Debug, PartialEq, Eq)]
pub enum QueryValue {
    Status,
    Version,
    Url,
    Header { name: Template },
    Cookie { name: Template },
    Body,
    Xpath { expr: Template },
    Jsonpath { expr: Template },
    Regex { value: Template },
    Duration,
}

/// The view of a `Query`: its strings as sequences of characters.
pub enum QueryView {
    Status,
    Version,
    Url,
    Header(TemplateView),
    Cookie(TemplateView),
    Body,
    Xpath(TemplateView),
    Jsonpath(TemplateView),
    Regex(TemplateView),
    Duration,
}

/// A query on a response.
#[derive(Debug, PartialEq, Eq)]
pub struct Query {
    pub value: QueryValue,
}

impl View for Query {
    type V = QueryView;

    open spec fn view(&self) -> QueryView {
        match &self.value {
            QueryValue::Status => QueryView::Status,
            QueryValue::Version => QueryView::Version,
            QueryValue::Url => QueryView::Url,
            QueryValue::Header { name } => QueryView::Header(name@),
            QueryValue::Cookie { name } => QueryView::Cookie(name@),
            QueryValue::Body => QueryView::Body,
            QueryValue::Xpath { expr } => QueryView::Xpath(expr@),
            QueryValue::Jsonpath { expr } => QueryView::Jsonpath(expr@),
            QueryValue::Regex { value } => QueryView::Regex(value@),
            QueryValue::Duration => QueryView::Duration,
        }
    }
}

/// A number of a predicate: an integer, or a float kept as its decimal text.
#[derive(Debug, PartialEq, Eq)]
pub enum Number {
    Integer(i64),
    Float(String),
}

/// The value a predicate compares with.
#[derive(Debug, PartialEq, Eq)]
pub enum PredicateValue {
    String(Template),
    Number(Number),
    Bool(bool),
    Null,
}

/// The view of a `PredicateValue`: its strings as sequences of characters.
pub enum PredicateValueView {
    String(TemplateView),
    Integer(i64),
    Float(Seq<char>),
    Bool(bool),
    Null,
}

impl View for PredicateValue {
    type V = PredicateValueView;

    open spec fn view(&self) -> PredicateValueView {
        match self {
            PredicateValue::String(t) => PredicateValueView::String(t@),
            PredicateValue::Number(Number::Integer(i)) => PredicateValueView::Integer(*i),
            PredicateValue::Number(Number::Float(f)) => PredicateValueView::Float(f@),
            PredicateValue::Bool(b) => PredicateValueView::Bool(*b),
            PredicateValue::Null => PredicateValueView::Null,
        }
    }
}

/// The test a predicate makes.
#[derive(Debug, PartialEq, Eq)]
pub enum PredicateFuncValue {
    Equal { value: PredicateValue },
    NotEqual { value: PredicateValue },
    GreaterThan { value: PredicateValue },
    GreaterThanOrEqual { value: PredicateValue },
    LessThan { value: PredicateValue },
    LessThanOrEqual { value: PredicateValue },
    StartWith { value: PredicateValue },
    EndWith { value: PredicateValue },
    Contain { value: PredicateValue },
    Match { value: PredicateValue },
    Exist,
    IsBoolean,
    IsEmpty,
    IsFloat,
    IsInteger,
    IsNumber,
    IsString,
    IsCollection,
    IsDate,
    IsIsoDate,
}

/// The comparisons a predicate can make with a value.
pub enum Comparison {
    Equal,
    NotEqual,
    GreaterThan,
    GreaterThanOrEqual,
    LessThan,
    LessThanOrEqual,
    StartWith,
    EndWith,
    Contain,
    Match,
}

/// The tests of a predicate that take no value.
pub enum Check {
    Exist,
    IsBoolean,
    IsEmpty,
    IsFloat,
    IsInteger,
    IsNumber,
    IsString,
    IsCollection,
    IsDate,
    IsIsoDate,
}

/// The view of a predicate's test: a comparison with a value, or a test without one.
pub enum PredicateFuncView {
    Compare(Comparison, PredicateValueView),
    Test(Check),
}

impl View for PredicateFuncValue {
    type V = PredicateFuncView;

    open spec fn view(&self) -> PredicateFuncView {
        match self {
            PredicateFuncValue::Equal { value } => PredicateFuncView::Compare(Comparison::Equal, value@),
            PredicateFuncValue::NotEqual { value } => PredicateFuncView::Compare(
                Comparison::NotEqual,
                value@,
            ),
            PredicateFuncValue::GreaterThan { value } => PredicateFuncView::Compare(
                Comparison::GreaterThan,
                value@,
            ),
            PredicateFuncValue::GreaterThanOrEqual { value } => PredicateFuncView::Compare(
                Comparison::GreaterThanOrEqual,
                value@,
            ),
            PredicateFuncValue::LessThan { value } => PredicateFuncView::Compare(
                Comparison::LessThan,
                value@,
            ),
            PredicateFuncValue::LessThanOrEqual { value } => PredicateFuncView::Compare(
                Comparison::LessThanOrEqual,
                value@,
            ),
            PredicateFuncValue::StartWith { value } => PredicateFuncView::Compare(
                Comparison::StartWith,
                value@,
            ),
            PredicateFuncValue::EndWith { value } => PredicateFuncView::Compare(
                Comparison::EndWith,
                value@,
            ),
            PredicateFuncValue::Contain { value } => PredicateFuncView::Compare(
                Comparison::Contain,
                value@,
            ),
            PredicateFuncValue::Match { value } => PredicateFuncView::Compare(Comparison::Match, value@),
            PredicateFuncValue::Exist => PredicateFuncView::Test(Check::Exist),
            PredicateFuncValue::IsBoolean => PredicateFuncView::Test(Check::IsBoolean),
            PredicateFuncValue::IsEmpty => PredicateFuncView::Test(Check::IsEmpty),
            PredicateFuncValue::IsFloat => PredicateFuncView::Test(Check::IsFloat),
            PredicateFuncValue::IsInteger => PredicateFuncView::Test(Check::IsInteger),
            PredicateFuncValue::IsNumber => PredicateFuncView::Test(Check::IsNumber),
            PredicateFuncValue::IsString => PredicateFuncView::Test(Check::IsString),
            PredicateFuncValue::IsCollection => PredicateFuncView::Test(Check::IsCollection),
            PredicateFuncValue::IsDate => PredicateFuncView::Test(Check::IsDate),
            PredicateFuncValue::IsIsoDate => PredicateFuncView::Test(Check::IsIsoDate),
        }
    }
}

/// A predicate, possibly negated.
#[derive(Debug, PartialEq, Eq)]
pub struct Predicate {
    pub not: bool,
    pub predicate_func: PredicateFuncValue,
}

/// The view of a `Predicate`: its strings as sequences of characters.
pub struct PredicateView {
    pub not: bool,
    pub func: PredicateFuncView,
}

impl View for Predicate {
    type V = PredicateView;

    open spec fn view(&self) -> PredicateView {
        PredicateView { not: self.not, func: self.predicate_func@ }
    }
}

/// A capture: a variable name and the query whose result it holds.
#[derive(Debug, PartialEq, Eq)]
pub struct Capture {
    pub name: Template,
    pub query: Query,
}

/// The view of a `Capture`: its strings as sequences of characters.
pub struct CaptureView {
    pub name: TemplateView,
    pub query: QueryView,
}

impl View for Capture {
    type V = CaptureView;

    open spec fn view(&self) -> CaptureView {
        CaptureView { name: self.name@, query: self.query@ }
    }
}

/// An assert: a query and the predicate its result must meet.
#[derive(Debug, PartialEq, Eq)]
pub struct Assert {
    pub query: Query,
    pub predicate: Predicate,
}

/// The view of a `Assert`: its strings as sequences of characters.
pub struct AssertView {
    pub query: QueryView,
    pub predicate: PredicateView,
}

impl View for Assert {
    type V = AssertView;

    open spec fn view(&self) -> AssertView {
        AssertView { query: self.query@, predicate: self.predicate@ }
    }
}

/// What a section holds; the flag tells the short name of the section.
#[derive(Debug, PartialEq, Eq)]
pub enum SectionValue {
    QueryParams(Vec<KeyValue>, bool),
    BasicAuth(Option<KeyValue>),
    FormParams(Vec<KeyValue>, bool),
    MultipartFormData(Vec<KeyValue>, bool),
    Cookies(Vec<Cookie>),
    Captures(Vec<Capture>),
    Asserts(Vec<Assert>),
    Options,
}

/// The view of a `Section`: its strings as sequences of characters.
pub enum SectionView {
    QueryParams(Seq<KeyValueView>, bool),
    BasicAuth(Option<KeyValueView>),
    FormParams(Seq<KeyValueView>, bool),
    MultipartFormData(Seq<KeyValueView>, bool),
    Cookies(Seq<KeyValueView>),
    Captures(Seq<CaptureView>),
    Asserts(Seq<AssertView>),
    Options,
}

/// A `[Name]` section of a request or a response.
#[derive(Debug, PartialEq, Eq)]
pub struct Section {
    pub value: SectionValue,
}

/// The views of key-value lines.
pub open spec fn key_values_view(kvs: Seq<KeyValue>) -> Seq<KeyValueView> {
    kvs.map_values(|kv: KeyValue| kv@)
}

impl View for Section {
    type V = SectionView;

    open spec fn view(&self) -> SectionView {
        match &self.value {
            SectionValue::QueryParams(kvs, short) => SectionView::QueryParams(
                key_values_view(kvs@),
                *short,
            ),
            SectionValue::BasicAuth(kv) => SectionView::BasicAuth(
                match kv {
                    Some(kv) => Some(kv@),
                    None => None,
                },
            ),
            SectionValue::FormParams(kvs, short) => SectionView::FormParams(
                key_values_view(kvs@),
                *short,
            ),
            SectionValue::MultipartFormData(kvs, short) => SectionView::MultipartFormData(
                key_values_view(kvs@),
                *short,
            ),
            SectionValue::Cookies(cs) => SectionView::Cookies(cs@.map_values(|c: Cookie| c@)),
            SectionValue::Captures(cs) => SectionView::Captures(cs@.map_values(|c: Capture| c@)),
            SectionValue::Asserts(asserts) => SectionView::Asserts(
                asserts@.map_values(|a: Assert| a@),
            ),
            SectionValue::Options => SectionView::Options,
        }
    }
}

/// The HTTP status a response must have.
#[derive(Clone, Copy, Debug, PartialEq, Eq)]
pub enum StatusValue {
    Any,
    Specific(u64),
}

/// The status line of a response.
#[derive(Clone, Copy, Debug, PartialEq, Eq)]
pub struct Status {
    pub value: StatusValue,
}

/// The HTTP version a response must have.
#[derive(Clone, Copy, Debug, PartialEq, Eq)]
pub enum VersionValue {
    Version1,
    Version11,
    Version2,
    Version3,
    VersionAny,
}

/// The version of a response.
#[derive(Clone, Copy, Debug, PartialEq, Eq)]
pub struct Version {
    pub value: VersionValue,
}

/// An HTTP request.
#[derive(Debug, PartialEq, Eq)]
pub struct Request {
    pub method: String,
    pub url: Template,
    pub headers: Vec<KeyValue>,
    pub sections: Vec<Section>,
    pub body: Option<Body>,
}

/// The view of a `Request`: its strings as sequences of characters.
pub struct RequestView {
    pub method: Seq<char>,
    pub url: TemplateView,
    pub headers: Seq<KeyValueView>,
    pub sections: Seq<SectionView>,
    pub body: Option<BytesView>,
}

impl View for Request {
    type V = RequestView;

    open spec fn view(&self) -> RequestView {
        RequestView {
            method: self.method@,
            url: self.url@,
            headers: key_values_view(self.headers@),
            sections: self.sections@.map_values(|s: Section| s@),
            body: match self.body {
                Some(b) => Some(b@),
                None => None,
            },
        }
    }
}

/// What the response to a request must be.
#[derive(Debug, PartialEq, Eq)]
pub struct Response {
    pub version: Version,
    pub status: Status,
    pub headers: Vec<KeyValue>,
    pub sections: Vec<Section>,
}

/// The view of a `Response`: its strings as sequences of characters.
pub struct ResponseView {
    pub version: VersionValue,
    pub status: StatusValue,
    pub headers: Seq<KeyValueView>,
    pub sections: Seq<SectionView>,
}

impl View for Response {
    type V = ResponseView;

    open spec fn view(&self) -> ResponseView {
        ResponseView {
            version: self.version.value,
            status: self.status.value,
            headers: key_values_view(self.headers@),
            sections: self.sections@.map_values(|s: Section| s@),
        }
    }
}

/// A request with its optional expected response.
#[derive(Debug, PartialEq, Eq)]
pub struct Entry {
    pub request: Request,
    pub response: Option<Response>,
}

/// The view of a `Entry`: its strings as sequences of characters.
pub struct EntryView {
    pub request: RequestView,
    pub response: Option<ResponseView>,
}

impl View for Entry {
    type V = EntryView;

    open spec fn view(&self) -> EntryView {
        EntryView {
            request: self.request@,
            response: match self.response {
                Some(r) => Some(r@),
                None => None,
            },
        }
    }
}

/// A Hurl file: a sequence of entries.
#[derive(Debug, PartialEq, Eq)]
pub struct HurlFile {
    pub entries: Vec<Entry>,
}

impl View for HurlFile {
    type V = Seq<EntryView>;

    open spec fn view(&self) -> Seq<EntryView> {
        self.entries@.map_values(|e: Entry| e@)
    }
}

} // verus!
