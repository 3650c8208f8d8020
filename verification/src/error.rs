//! What can go wrong while a connection is served, and how it is reported.

use crate::request::{Request, RequestView};
use crate::text::join;
use vstd::prelude::*;

verus! {

/// Why the head of a request could not be read.
#[derive(Clone, Copy, Debug, PartialEq, Eq, Structural)]
pub enum ParseError {
    /// Invalid byte in a header name.
    HeaderName,
    /// Invalid byte in a header value.
    HeaderValue,
    /// Invalid byte in a new line.
    NewLine,
    /// Invalid byte in a response status.
    Status,
    /// Invalid byte where a token is required.
    Token,
    /// More headers than there is room for.
    TooManyHeaders,
    /// Invalid byte in the HTTP version.
    Version,
}

impl ParseError {
    /// The error in words.
    pub open spec fn words(self) -> Seq<char> {
        match self {
            ParseError::HeaderName => "invalid header name"@,
            ParseError::HeaderValue => "invalid header value"@,
            ParseError::NewLine => "invalid new line"@,
            ParseError::Status => "invalid response status"@,
            ParseError::Token => "invalid token"@,
            ParseError::TooManyHeaders => "too many headers"@,
            ParseError::Version => "invalid HTTP version"@,
        }
    }

    /// The error in words.
    pub fn message(self) -> (r: &'static str)
        ensures
            r@ == self.words(),
    {
        match self {
            ParseError::HeaderName => "invalid header name",
            ParseError::HeaderValue => "invalid header value",
            ParseError::NewLine => "invalid new line",
            ParseError::Status => "invalid response status",
            ParseError::Token => "invalid token",
            ParseError::TooManyHeaders => "too many headers",
            ParseError::Version => "invalid HTTP version",
        }
    }
}

/// Why a connection ended with an error. A text in a variant is the message of
/// the failure underneath.
#[derive(Debug)]
pub enum HandlerError {
    /// The request could not be parsed.
    RequestError(ParseError),
    /// A request or a response could not be put together.
    ResponseError(String),
    /// The other side did not send a whole request line.
    InvalidHttp,
    /// The metadata could not be written as JSON.
    JsonWriteError(String),
    /// Reading from or writing to the connection failed.
    IoError(String),
    /// A source sent data, but the stream no longer takes any.
    StreamDisconnected(String),
    /// Another source is connected.
    StreamAlreadyConnected,
    /// The source's content type is not that of the stream.
    UnsupportedContentType { actual: String, expected: String },
    /// Nothing is served under the path of the request.
    EndpointNotFound(Request),
}

/// What a [`HandlerError`] holds.
pub enum HandlerErrorView {
    RequestError(ParseError),
    ResponseError(Seq<char>),
    InvalidHttp,
    JsonWriteError(Seq<char>),
    IoError(Seq<char>),
    StreamDisconnected(Seq<char>),
    StreamAlreadyConnected,
    UnsupportedContentType { actual: Seq<char>, expected: Seq<char> },
    EndpointNotFound(RequestView),
}

impl View for HandlerError {
    type V = HandlerErrorView;

    open spec fn view(&self) -> HandlerErrorView {
        match self {
            HandlerError::RequestError(e) => HandlerErrorView::RequestError(*e),
            HandlerError::ResponseError(e) => HandlerErrorView::ResponseError(e@),
            HandlerError::InvalidHttp => HandlerErrorView::InvalidHttp,
            HandlerError::JsonWriteError(e) => HandlerErrorView::JsonWriteError(e@),
            HandlerError::IoError(e) => HandlerErrorView::IoError(e@),
            HandlerError::StreamDisconnected(e) => HandlerErrorView::StreamDisconnected(e@),
            HandlerError::StreamAlreadyConnected => HandlerErrorView::StreamAlreadyConnected,
            HandlerError::UnsupportedContentType { actual, expected } => {
                HandlerErrorView::UnsupportedContentType { actual: actual@, expected: expected@ }
            },
            HandlerError::EndpointNotFound(req) => HandlerErrorView::EndpointNotFound(req@),
        }
    }
}

impl HandlerErrorView {
    /// The report of the error.
    pub open spec fn words(self) -> Seq<char> {
        match self {
            HandlerErrorView::RequestError(e) => {
                "failed to parse request from client: `"@ + e.words() + "`"@
            },
            HandlerErrorView::ResponseError(e) => {
                "failed to create response for client: `"@ + e + "`"@
            },
            HandlerErrorView::InvalidHttp => {
                "other side didn't send valid a valid http request"@
            },
            HandlerErrorView::JsonWriteError(e) => {
                "failed to create JSON blob response for client: `"@ + e + "`"@
            },
            HandlerErrorView::IoError(e) => "i/o failed for client: `"@ + e + "`"@,
            HandlerErrorView::StreamDisconnected(e) => {
                "source attempted to stream data, but the stream no longer exists: `"@ + e + "`"@
            },
            HandlerErrorView::StreamAlreadyConnected => {
                "source is already connected to the requested mountpoint"@
            },
            HandlerErrorView::UnsupportedContentType { actual, expected } => {
                "source attempted to stream mime-type "@ + actual
                    + " whereas the stream is defined as "@ + expected
            },
            HandlerErrorView::EndpointNotFound(req) => {
                "endpoint not found: `"@ + req.method + " "@ + req.uri.text + "`"@
            },
        }
    }
}

impl HandlerError {
    /// The report of the error.
    pub fn message(&self) -> (r: String)
        ensures
            r@ == self@.words(),
    {
        match self {
            HandlerError::RequestError(e) => {
                join("failed to parse request from client: `", e.message(), "`")
            },
            HandlerError::ResponseError(e) => {
                join("failed to create response for client: `", e.as_str(), "`")
            },
            HandlerError::InvalidHttp => "other side didn't send valid a valid http request".to_owned(),
            HandlerError::JsonWriteError(e) => {
                join("failed to create JSON blob response for client: `", e.as_str(), "`")
            },
            HandlerError::IoError(e) => join("i/o failed for client: `", e.as_str(), "`"),
            HandlerError::StreamDisconnected(e) => {
                join(
                    "source attempted to stream data, but the stream no longer exists: `",
                    e.as_str(),
                    "`",
                )
            },
            HandlerError::StreamAlreadyConnected => {
                "source is already connected to the requested mountpoint".to_owned()
            },
            HandlerError::UnsupportedContentType { actual, expected } => {
                let start = join(
                    "source attempted to stream mime-type ",
                    actual.as_str(),
                    " whereas the stream is defined as ",
                );
                let r = join(start.as_str(), expected.as_str(), "");
                proof {
                    reveal_strlit("");
                    assert(r@ =~= start@ + expected@);
                }
                r
            },
            HandlerError::EndpointNotFound(req) => {
                let start = join("endpoint not found: `", req.method(), " ");
                join(start.as_str(), req.uri().text.as_str(), "`")
            },
        }
    }
}

} // verus!
