//! Media types, and what a stream of each is served under.

use crate::text::same_text;
use vstd::prelude::*;

verus! {

/// A media type.
#[derive(Debug)]
pub struct Mime {
    type_: String,
    subtype: String,
    source: String,
}

/// What a [`Mime`] holds.
pub struct MimeView {
    /// The type, in lower case.
    pub type_: Seq<char>,
    /// The subtype, in lower case and without a suffix.
    pub subtype: Seq<char>,
    /// The whole media type, with its parameters.
    pub source: Seq<char>,
}

impl View for Mime {
    type V = MimeView;

    closed spec fn view(&self) -> MimeView {
        MimeView { type_: self.type_@, subtype: self.subtype@, source: self.source@ }
    }
}

/// The media type that is there, if any is.
pub open spec fn mime_view(mime: Option<Mime>) -> Option<MimeView> {
    match mime {
        Some(mime) => Some(mime@),
        None => None,
    }
}

/// What the `mime` crate makes of a text: a media type, or nothing.
pub uninterp spec fn mime_parse(text: Seq<char>) -> Option<MimeView>;

/// Calls `mime::Mime::from_str` and, on what it gives, `type_`, `subtype` and
/// `as_ref`. A media type holds no control character.
#[verifier::external_body]
pub(crate) fn parse_mime(text: &str) -> (r: Option<Mime>)
    ensures
        mime_view(r) == mime_parse(text@),
        r matches Some(mime) ==> crate::headers::valid_text(mime@.source),
{
    match text.parse::<mime::Mime>() {
        Ok(mime) => Some(Mime {
            type_: mime.type_().as_str().to_string(),
            subtype: mime.subtype().as_str().to_string(),
            source: mime.as_ref().to_string(),
        }),
        Err(_) => None,
    }
}

/// Calls `ustr::ustr` and `as_str` on what it gives: the same text, kept for the
/// whole run.
#[verifier::external_body]
pub(crate) fn intern(text: &str) -> (r: &'static str)
    ensures
        r@ == text@,
{
    ustr::ustr(text).as_str()
}

/// The path under which a stream of a type and a subtype is served, for the
/// types that can be served.
pub open spec fn listen_path(type_: Seq<char>, subtype: Seq<char>) -> Option<Seq<char>> {
    if type_ == "audio"@ && subtype == "mpeg"@ {
        Some("/listen.mp3"@)
    } else if type_ == "audio"@ && subtype == "ogg"@ {
        Some("/listen.ogg"@)
    } else {
        None
    }
}

/// The path under which a stream of a type and a subtype is served, for the
/// types that can be served.
pub fn listen_uri(type_: &str, subtype: &str) -> (r: Option<&'static str>)
    ensures
        crate::text::optional_str(r) == listen_path(type_@, subtype@),
{
    if !same_text(type_, "audio") {
        None
    } else if same_text(subtype, "mpeg") {
        Some(intern("/listen.mp3"))
    } else if same_text(subtype, "ogg") {
        Some(intern("/listen.ogg"))
    } else {
        None
    }
}

impl Mime {
    /// The type, in lower case.
    pub fn type_(&self) -> (r: &str)
        ensures
            r@ == self@.type_,
    {
        self.type_.as_str()
    }

    /// The subtype, in lower case and without a suffix.
    pub fn subtype(&self) -> (r: &str)
        ensures
            r@ == self@.subtype,
    {
        self.subtype.as_str()
    }

    /// The whole media type, with its parameters.
    pub fn as_str(&self) -> (r: &str)
        ensures
            r@ == self@.source,
    {
        self.source.as_str()
    }
}

} // verus!
