//! Requests: from the bytes that came to a request that can be answered.

use crate::error::{HandlerError, HandlerErrorView, ParseError};
use crate::headers::{get_header, header_name, header_value, insert_header, new_headers, MAX_ENTRIES};
use httparse::Error as Fault;
use vstd::prelude::*;

verus! {

/// The number of headers that a request may have.
pub const MAX_HEADERS: usize = 16;

/// The version of every request.
pub const VERSION: &'static str = "HTTP/1.1";

/// What stood in the head of a request, as far as it was there.
#[derive(Debug)]
pub struct ParsedRequest {
    pub method: Option<String>,
    pub path: Option<String>,
    /// The minor version of HTTP.
    pub version: Option<u8>,
    pub headers: Vec<(String, Vec<u8>)>,
}

/// What a [`ParsedRequest`] holds.
pub struct ParsedView {
    pub method: Option<Seq<char>>,
    pub path: Option<Seq<char>>,
    pub version: Option<u8>,
    pub headers: Seq<(Seq<char>, Seq<u8>)>,
}

impl View for ParsedRequest {
    type V = ParsedView;

    open spec fn view(&self) -> ParsedView {
        ParsedView {
            method: crate::text::optional_text(self.method),
            path: crate::text::optional_text(self.path),
            version: self.version,
            headers: crate::headers::fields_view(self.headers@),
        }
    }
}

/// A request target.
#[derive(Debug)]
pub struct Uri {
    /// The whole target.
    pub text: String,
    /// Its path.
    pub path: String,
    /// What stands behind the question mark, where there is one.
    pub query: Option<String>,
}

/// What a [`Uri`] holds.
pub struct UriView {
    pub text: Seq<char>,
    pub path: Seq<char>,
    pub query: Option<Seq<char>>,
}

impl View for Uri {
    type V = UriView;

    open spec fn view(&self) -> UriView {
        UriView { text: self.text@, path: self.path@, query: crate::text::optional_text(self.query) }
    }
}

/// A request. Its version is [`VERSION`], whatever the other side said.
#[derive(Debug)]
pub struct Request {
    method: String,
    uri: Uri,
    headers: http::HeaderMap<http::HeaderValue>,
}

/// What a [`Request`] holds: its headers are the entries of its header map.
pub struct RequestView {
    pub version: Seq<char>,
    pub method: Seq<char>,
    pub uri: UriView,
    pub headers: Seq<(Seq<char>, Seq<Seq<u8>>)>,
}

impl View for Request {
    type V = RequestView;

    closed spec fn view(&self) -> RequestView {
        RequestView {
            version: VERSION@,
            method: self.method@,
            uri: self.uri@,
            headers: crate::headers::header_entries(self.headers),
        }
    }
}

impl Request {
    /// The version of the request.
    pub fn version(&self) -> (r: &'static str)
        ensures
            r@ == self@.version,
            r@ == "HTTP/1.1"@,
    {
        VERSION
    }

    /// The method of the request.
    pub fn method(&self) -> (r: &str)
        ensures
            r@ == self@.method,
    {
        self.method.as_str()
    }

    /// The target of the request.
    pub fn uri(&self) -> (r: &Uri)
        ensures
            r@ == self@.uri,
    {
        &self.uri
    }

    /// The headers of the request.
    pub fn headers(&self) -> (r: &http::HeaderMap<http::HeaderValue>)
        ensures
            crate::headers::header_entries(*r) == self@.headers,
    {
        &self.headers
    }
}

/// The outcome of a parse, as text and bytes.
pub open spec fn parsed_view(r: Result<ParsedRequest, ParseError>) -> Result<
    ParsedView,
    ParseError,
> {
    match r {
        Ok(parsed) => Ok(parsed@),
        Err(e) => Err(e),
    }
}

/// What `httparse` makes of the head of a request, given room for `max_headers`
/// headers.
pub uninterp spec fn httparse_request(buf: Seq<u8>, max_headers: nat) -> Result<
    ParsedView,
    ParseError,
>;

/// Calls `httparse::Request::parse`. Whether the head was complete is not told: a
/// method, a path or a version that it did not come to is absent, and the headers that it
/// did not come to have an empty name. There are never more headers than there
/// was room for.
#[verifier::external_body]
pub(crate) fn parse_request(buf: &[u8], max_headers: usize) -> (r: Result<
    ParsedRequest,
    ParseError,
>)
    ensures
        parsed_view(r) == httparse_request(buf@, max_headers as nat),
        r matches Ok(parsed) ==> parsed.headers@.len() <= max_headers,
{
    let mut headers = vec![httparse::EMPTY_HEADER; max_headers];
    let mut parsed = httparse::Request::new(&mut headers);
    match parsed.parse(buf) {
        Ok(_) => Ok(ParsedRequest {
            method: parsed.method.map(str::to_string), path: parsed.path.map(str::to_string),
            version: parsed.version,
            headers: parsed.headers.iter().map(|h| (h.name.to_string(), h.value.to_vec())).collect(),
        }),
        Err(e) => Err(match e {
            Fault::HeaderName => ParseError::HeaderName, Fault::HeaderValue => ParseError::HeaderValue,
            Fault::NewLine => ParseError::NewLine, Fault::Status => ParseError::Status,
            Fault::Token => ParseError::Token, Fault::TooManyHeaders => ParseError::TooManyHeaders,
            Fault::Version => ParseError::Version,
        }),
    }
}

/// A character that a method may hold.
pub open spec fn method_char(c: char) -> bool {
    ||| '0' <= c <= '9'
    ||| 'a' <= c <= 'z'
    ||| 'A' <= c <= 'Z'
    ||| c == '!' || c == '*' || c == '+' || c == '-' || c == '.' || c == '^' || c == '_' || c == '`'
        || c == '|' || c == '~'
}

/// A text that can be a method.
pub open spec fn valid_method(text: Seq<char>) -> bool {
    &&& text.len() > 0
    &&& forall|i: int| 0 <= i < text.len() ==> method_char(#[trigger] text[i])
}

/// The outcome of reading a method.
pub open spec fn method_result(text: Seq<char>) -> Result<Seq<char>, Seq<char>> {
    if valid_method(text) {
        Ok(text)
    } else {
        Err("invalid HTTP method"@)
    }
}

/// Two texts for the outcome of reading a text.
pub open spec fn text_result(r: Result<String, String>) -> Result<Seq<char>, Seq<char>> {
    match r {
        Ok(text) => Ok(text@),
        Err(e) => Err(e@),
    }
}

/// Calls `http::Method::from_str`, which takes exactly the valid methods and
/// keeps their text; its error is always the same.
#[verifier::external_body]
pub(crate) fn parse_method(text: &str) -> (r: Result<String, String>)
    ensures
        text_result(r) == method_result(text@),
{
    match text.parse::<http::Method>() {
        Ok(method) => Ok(method.as_str().to_string()),
        Err(e) => Err(e.to_string()),
    }
}

/// The part of `text` before the first `c`, or all of it.
pub open spec fn before(text: Seq<char>, c: char) -> Seq<char>
    decreases text.len(),
{
    if text.len() == 0 || text[0] == c {
        seq![]
    } else {
        seq![text[0]] + before(text.drop_first(), c)
    }
}

/// A target that starts with a slash, cut into its path and its query: the part
/// before the first number sign, cut at its first question mark.
pub open spec fn slash_target(text: Seq<char>) -> UriView {
    let whole = before(text, '#');
    let path = before(whole, '?');
    UriView {
        text: whole,
        path: path,
        query: if path.len() < whole.len() {
            Some(whole.skip(path.len() as int + 1))
        } else {
            None
        },
    }
}

/// The outcome of reading a target, as text.
pub open spec fn uri_view(r: Result<Uri, String>) -> Result<UriView, Seq<char>> {
    match r {
        Ok(uri) => Ok(uri@),
        Err(e) => Err(e@),
    }
}

/// What the `http` crate makes of a request target: its parts, or the message of
/// the error.
pub uninterp spec fn http_uri(text: Seq<char>) -> Result<UriView, Seq<char>>;

/// Calls `http::Uri::from_str` and, on what it gives, `path`, `query` and
/// `to_string`. A target that starts with a slash is cut at the first number
/// sign and the first question mark.
#[verifier::external_body]
pub(crate) fn parse_uri(text: &str) -> (r: Result<Uri, String>)
    ensures
        uri_view(r) == http_uri(text@),
        r matches Ok(uri) ==> text@.len() > 0 && text@[0] == '/' ==> uri@ == slash_target(text@),
{
    match text.parse::<http::Uri>() {
        Ok(uri) => Ok(Uri {
            text: uri.to_string(),
            path: uri.path().to_string(),
            query: uri.query().map(str::to_string),
        }),
        Err(e) => Err(e.to_string()),
    }
}

/// What the headers of a request put into a header map: each in its turn, the
/// last of a name in the place of those before it; or the first fault, a name's
/// before its value's.
pub open spec fn collected(headers: Seq<(Seq<char>, Seq<u8>)>) -> Result<
    Seq<(Seq<char>, Seq<Seq<u8>>)>,
    ParseError,
>
    decreases headers.len(),
{
    if headers.len() == 0 {
        Ok(seq![])
    } else {
        let (name, value) = headers.last();
        match collected(headers.drop_last()) {
            Err(e) => Err(e),
            Ok(entries) => if !crate::headers::valid_name(name) {
                Err(ParseError::HeaderName)
            } else if !crate::headers::valid_value(value) {
                Err(ParseError::HeaderValue)
            } else {
                Ok(crate::headers::inserted(entries, crate::headers::lower(name), value))
            },
        }
    }
}

/// The request that a method, a target and headers make, or the first error
/// among them.
pub open spec fn assembled(
    method: Result<Seq<char>, Seq<char>>,
    uri: Result<UriView, Seq<char>>,
    headers: Seq<(Seq<char>, Seq<u8>)>,
) -> Result<RequestView, HandlerErrorView> {
    match (method, uri, collected(headers)) {
        (Err(e), _, _) => Err(HandlerErrorView::ResponseError(e)),
        (_, Err(e), _) => Err(HandlerErrorView::ResponseError(e)),
        (_, _, Err(e)) => Err(HandlerErrorView::RequestError(e)),
        (Ok(method), Ok(uri), Ok(entries)) => Ok(
            RequestView { version: VERSION@, method, uri, headers: entries },
        ),
    }
}

/// Whether the headers of a request can be kept: there are none, or there is a
/// request line that a request can be made of, or part of that line is missing.
pub open spec fn buildable(parsed: ParsedView) -> bool {
    match (parsed.method, parsed.path) {
        (Some(method), Some(path)) => {
            parsed.headers.len() == 0 || valid_method(method) && http_uri(path) is Ok
        },
        _ => true,
    }
}

/// The request that a parsed head makes, or the first error in it.
pub open spec fn converted(parsed: ParsedView) -> Result<RequestView, HandlerErrorView> {
    match (parsed.method, parsed.path) {
        (Some(method), Some(path)) => assembled(
            method_result(method),
            http_uri(path),
            parsed.headers,
        ),
        _ => Err(HandlerErrorView::InvalidHttp),
    }
}

/// The outcome of making a request, by its parts.
pub open spec fn request_view(r: Result<Request, HandlerError>) -> Result<
    RequestView,
    HandlerErrorView,
> {
    match r {
        Ok(req) => Ok(req@),
        Err(e) => Err(e@),
    }
}

impl ParsedRequest {
    /// Whether the headers can be kept.
    pub fn is_buildable(&self) -> (r: bool)
        ensures
            r == buildable(self@),
    {
        match (&self.method, &self.path) {
            (Some(method), Some(path)) => {
                self.headers.len() == 0 || (parse_method(method.as_str()).is_ok() && parse_uri(
                    path.as_str(),
                ).is_ok())
            },
            _ => true,
        }
    }
}

impl Request {
    /// Makes a request of what was read of its method, its target and its
    /// headers. Of several headers of one name the last one counts.
    pub fn assemble(
        method: Result<String, String>,
        uri: Result<Uri, String>,
        headers: &Vec<(String, Vec<u8>)>,
    ) -> (r: Result<Request, HandlerError>)
        requires
            headers@.len() <= MAX_ENTRIES,
        ensures
            request_view(r) == assembled(
                text_result(method),
                uri_view(uri),
                crate::headers::fields_view(headers@),
            ),
    {
        let method = match method {
            Ok(method) => method,
            Err(e) => return Err(HandlerError::ResponseError(e)),
        };
        let uri = match uri {
            Ok(uri) => uri,
            Err(e) => return Err(HandlerError::ResponseError(e)),
        };
        match collect_headers(headers) {
            Ok(map) => Ok(Request { method, uri, headers: map }),
            Err(e) => Err(HandlerError::RequestError(e)),
        }
    }
}

/// Puts the headers of a request into a header map.
fn collect_headers(headers: &Vec<(String, Vec<u8>)>) -> (r: Result<
    http::HeaderMap<http::HeaderValue>,
    ParseError,
>)
    requires
        headers@.len() <= MAX_ENTRIES,
    ensures
        (match r {
            Ok(map) => Ok(crate::headers::header_entries(map)),
            Err(e) => Err(e),
        }) == collected(crate::headers::fields_view(headers@)),
{
    let mut map = new_headers();
    let ghost fields = crate::headers::fields_view(headers@);
    let mut i: usize = 0;
    while i < headers.len()
        invariant
            i <= headers@.len() <= MAX_ENTRIES,
            fields == crate::headers::fields_view(headers@),
            crate::headers::header_entries(map).len() <= i,
            collected(fields.take(i as int)) == Ok::<_, ParseError>(
                crate::headers::header_entries(map),
            ),
        decreases headers@.len() - i,
    {
        let (name, value) = (headers[i].0.as_str(), headers[i].1.as_slice());
        proof {
            assert(fields.take(i + 1).drop_last() =~= fields.take(i as int));
            assert(fields.take(i + 1).last() == (name@, value@));
        }
        if header_name(name).is_none() {
            proof {
                lemma_first_fault(fields, i + 1);
            }
            return Err(ParseError::HeaderName);
        }
        if header_value(value).is_none() {
            proof {
                lemma_first_fault(fields, i + 1);
            }
            return Err(ParseError::HeaderValue);
        }
        proof {
            crate::headers::lemma_place(
                crate::headers::header_entries(map),
                crate::headers::lower(name@),
            );
        }
        insert_header(&mut map, name, value);
        i = i + 1;
    }
    assert(fields.take(i as int) =~= fields);
    Ok(map)
}

impl Request {
    /// Makes a request of a parsed head. A head without a method or a path is no
    /// request.
    pub fn try_from(parsed: ParsedRequest) -> (r: Result<Request, HandlerError>)
        requires
            parsed@.method is Some && parsed@.path is Some ==> parsed.headers@.len()
                <= MAX_ENTRIES,
            buildable(parsed@),
        ensures
            request_view(r) == converted(parsed@),
            r matches Err(HandlerError::InvalidHttp) <==> parsed@.method is None
                || parsed@.path is None,
            r matches Ok(req) ==> parsed@.path matches Some(path) && (path.len() > 0 && path[0]
                == '/' ==> req@.uri == slash_target(path)),
    {
        match (&parsed.method, &parsed.path) {
            (Some(method), Some(path)) => Request::assemble(
                parse_method(method.as_str()),
                parse_uri(path.as_str()),
                &parsed.headers,
            ),
            _ => Err(HandlerError::InvalidHttp),
        }
    }
}

/// What the bytes of a request head come to: a request or an error; nothing
/// where headers follow a request line that no request can be made of.
pub open spec fn request_read(buf: Seq<u8>) -> Option<Result<RequestView, HandlerErrorView>> {
    match httparse_request(buf, MAX_HEADERS as nat) {
        Err(e) => Some(Err(HandlerErrorView::RequestError(e))),
        Ok(parsed) => if buildable(parsed) {
            Some(converted(parsed))
        } else {
            None
        },
    }
}

/// The target of the request is that of the head: one that starts with a slash
/// is cut into its path and its query.
pub open spec fn targets(buf: Seq<u8>, req: RequestView) -> bool {
    &&& httparse_request(buf, MAX_HEADERS as nat) matches Ok(parsed)
    &&& parsed.path matches Some(path)
    &&& (path.len() > 0 && path[0] == '/' ==> req.uri == slash_target(path))
}

/// Reads the head of a request. There is no answer where headers follow a
/// request line that no request can be made of.
pub fn read_request(buf: &[u8]) -> (r: Option<Result<Request, HandlerError>>)
    ensures
        (match r {
            Some(outcome) => Some(request_view(outcome)),
            None => None,
        }) == request_read(buf@),
        r matches Some(Ok(req)) ==> targets(buf@, req@),
{
    match parse_request(buf, MAX_HEADERS) {
        Err(e) => Some(Err(HandlerError::RequestError(e))),
        Ok(parsed) => if parsed.is_buildable() {
            Some(Request::try_from(parsed))
        } else {
            None
        },
    }
}

/// The first value of a header, empty where there is none.
pub open spec fn header_or_empty(
    entries: Seq<(Seq<char>, Seq<Seq<u8>>)>,
    header: Seq<char>,
) -> Seq<u8> {
    if !crate::headers::valid_name(header) {
        seq![]
    } else {
        match crate::headers::first_value(entries, crate::headers::lower(header)) {
            Some(value) => value,
            None => seq![],
        }
    }
}

/// The first value of a header, empty where there is none.
pub fn header_bytes_or_empty<'a>(req: &'a Request, header: &str) -> (r: &'a [u8])
    ensures
        r@ == header_or_empty(req@.headers, header@),
{
    match get_header(&req.headers, header) {
        Some(value) => value,
        None => {
            let none: &'a [u8] = &[];
            assert(none@ =~= seq![]);
            none
        },
    }
}

/// A fault among the first headers is the fault of all of them.
proof fn lemma_first_fault(headers: Seq<(Seq<char>, Seq<u8>)>, n: int)
    requires
        0 <= n <= headers.len(),
        collected(headers.take(n)) is Err,
    ensures
        collected(headers) == collected(headers.take(n)),
    decreases headers.len() - n,
{
    if n == headers.len() {
        assert(headers.take(n) =~= headers);
    } else {
        assert(headers.take(n + 1).drop_last() =~= headers.take(n));
        lemma_first_fault(headers, n + 1);
    }
}

} // verus!
