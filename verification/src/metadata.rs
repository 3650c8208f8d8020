//! What is known of the stream and of the track that is playing.

use crate::headers::get_header;
use crate::text::same_text;
use vstd::prelude::*;

verus! {

/// What a text says once every ill-formed part of its UTF-8 encoding is replaced.
pub uninterp spec fn utf8_lossy(bytes: Seq<u8>) -> Seq<char>;

/// Calls `String::from_utf8_lossy`. Bytes that are UTF-8 give the text that they
/// encode.
#[verifier::external_body]
pub(crate) fn from_utf8_lossy(bytes: &[u8]) -> (r: String)
    ensures
        r@ == utf8_lossy(bytes@),
        vstd::utf8::valid_utf8(bytes@) ==> r@ == vstd::utf8::decode_utf8(bytes@),
{
    String::from_utf8_lossy(bytes).into_owned()
}

/// The names and values of a query, in their order.
pub open spec fn pairs_view(pairs: Seq<(String, String)>) -> Seq<(Seq<char>, Seq<char>)> {
    Seq::new(pairs.len(), |i: int| (pairs[i].0@, pairs[i].1@))
}

/// The decoded names and values of an `application/x-www-form-urlencoded` text.
pub uninterp spec fn form_pairs(query: Seq<u8>) -> Seq<(Seq<char>, Seq<char>)>;

/// Calls `url::form_urlencoded::parse` and walks what it gives.
#[verifier::external_body]
pub(crate) fn parse_form(query: &[u8]) -> (r: Vec<(String, String)>)
    ensures
        pairs_view(r@) == form_pairs(query@),
{
    url::form_urlencoded::parse(query).into_owned().collect()
}

/// What a source says of its stream.
#[derive(Debug)]
pub struct StreamMetadata {
    pub user_agent: String,
    pub content_type: String,
    pub name: String,
}

/// What a [`StreamMetadata`] holds.
pub struct StreamMetadataView {
    pub user_agent: Seq<char>,
    pub content_type: Seq<char>,
    pub name: Seq<char>,
}

impl View for StreamMetadata {
    type V = StreamMetadataView;

    open spec fn view(&self) -> StreamMetadataView {
        StreamMetadataView {
            user_agent: self.user_agent@,
            content_type: self.content_type@,
            name: self.name@,
        }
    }
}

impl Default for StreamMetadata {
    fn default() -> (r: StreamMetadata)
        ensures
            r@ == (StreamMetadataView { user_agent: seq![], content_type: seq![], name: seq![] }),
    {
        StreamMetadata {
            user_agent: String::new(),
            content_type: String::new(),
            name: String::new(),
        }
    }
}

/// The text of a header, given its name in lower case; empty where there is none.
pub open spec fn header_text(
    entries: Seq<(Seq<char>, Seq<Seq<u8>>)>,
    name: Seq<char>,
) -> Seq<char> {
    match crate::headers::first_value(entries, name) {
        Some(value) => utf8_lossy(value),
        None => seq![],
    }
}

/// A header that is encoded in UTF-8 says the text that it encodes.
pub open spec fn says(
    entries: Seq<(Seq<char>, Seq<Seq<u8>>)>,
    name: Seq<char>,
    text: Seq<char>,
) -> bool {
    crate::headers::first_value(entries, name) matches Some(value) ==> (
    vstd::utf8::valid_utf8(value) ==> text == vstd::utf8::decode_utf8(value))
}

/// What the headers of a request say of a stream.
pub open spec fn described(entries: Seq<(Seq<char>, Seq<Seq<u8>>)>) -> StreamMetadataView {
    StreamMetadataView {
        user_agent: header_text(entries, "user-agent"@),
        content_type: header_text(entries, "content-type"@),
        name: header_text(entries, "ice-name"@),
    }
}

impl StreamMetadata {
    /// What the headers of a request say of a stream.
    pub fn from(map: &http::HeaderMap<http::HeaderValue>) -> (r: StreamMetadata)
        ensures
            r@ == described(crate::headers::header_entries(*map)),
            says(crate::headers::header_entries(*map), "user-agent"@, r@.user_agent),
            says(crate::headers::header_entries(*map), "content-type"@, r@.content_type),
            says(crate::headers::header_entries(*map), "ice-name"@, r@.name),
    {
        proof {
            lemma_names();
        }
        StreamMetadata {
            user_agent: string_from_header(map, "user-agent"),
            content_type: string_from_header(map, "content-type"),
            name: string_from_header(map, "ice-name"),
        }
    }
}

/// The names of the headers that describe a stream are names in lower case.
proof fn lemma_names()
    ensures
        crate::headers::valid_name("user-agent"@),
        crate::headers::lower("user-agent"@) == "user-agent"@,
        crate::headers::valid_name("content-type"@),
        crate::headers::lower("content-type"@) == "content-type"@,
        crate::headers::valid_name("ice-name"@),
        crate::headers::lower("ice-name"@) == "ice-name"@,
{
    reveal_strlit("user-agent");
    reveal_strlit("content-type");
    reveal_strlit("ice-name");
    assert(crate::headers::lower("user-agent"@) =~= "user-agent"@);
    assert(crate::headers::lower("content-type"@) =~= "content-type"@);
    assert(crate::headers::lower("ice-name"@) =~= "ice-name"@);
}

/// The text of a header, empty where there is none.
fn string_from_header(map: &http::HeaderMap<http::HeaderValue>, name: &str) -> (r: String)
    requires
        crate::headers::valid_name(name@),
        crate::headers::lower(name@) == name@,
    ensures
        r@ == header_text(crate::headers::header_entries(*map), name@),
        says(crate::headers::header_entries(*map), name@, r@),
{
    match get_header(map, name) {
        Some(value) => from_utf8_lossy(value),
        None => String::new(),
    }
}

/// What is known of a track.
#[derive(Debug)]
pub struct TrackMetadata {
    pub artist: Option<String>,
    pub title: Option<String>,
    pub album: Option<String>,
}

/// What a [`TrackMetadata`] holds.
pub struct TrackMetadataView {
    pub artist: Option<Seq<char>>,
    pub title: Option<Seq<char>>,
    pub album: Option<Seq<char>>,
}

impl View for TrackMetadata {
    type V = TrackMetadataView;

    open spec fn view(&self) -> TrackMetadataView {
        TrackMetadataView {
            artist: crate::text::optional_text(self.artist),
            title: crate::text::optional_text(self.title),
            album: crate::text::optional_text(self.album),
        }
    }
}

impl Default for TrackMetadata {
    fn default() -> (r: TrackMetadata)
        ensures
            r@ == (TrackMetadataView { artist: None, title: None, album: None }),
    {
        TrackMetadata { artist: None, title: None, album: None }
    }
}

/// The last value of `key`, where it occurs.
pub open spec fn last_value(pairs: Seq<(Seq<char>, Seq<char>)>, key: Seq<char>) -> Option<Seq<char>>
    decreases pairs.len(),
{
    if pairs.len() == 0 {
        None
    } else if pairs.last().0 == key {
        Some(pairs.last().1)
    } else {
        last_value(pairs.drop_last(), key)
    }
}

/// What names and values say of a track.
pub open spec fn track_of(pairs: Seq<(Seq<char>, Seq<char>)>) -> TrackMetadataView {
    TrackMetadataView {
        artist: last_value(pairs, "artist"@),
        title: last_value(pairs, "title"@),
        album: last_value(pairs, "album"@),
    }
}

impl TrackMetadata {
    /// What a query says of a track.
    pub fn from(query: &[u8]) -> (r: TrackMetadata)
        ensures
            r@ == track_of(form_pairs(query@)),
    {
        TrackMetadata::from_pairs(parse_form(query))
    }

    /// What names and values say of a track. Of several values of one name the
    /// last one counts, and other names do not count.
    pub fn from_pairs(pairs: Vec<(String, String)>) -> (r: TrackMetadata)
        ensures
            r@ == track_of(pairs_view(pairs@)),
    {
        let mut meta = TrackMetadata::default();
        let ghost all = pairs_view(pairs@);
        let mut i: usize = 0;
        while i < pairs.len()
            invariant
                i <= pairs@.len(),
                all == pairs_view(pairs@),
                meta@ == track_of(all.take(i as int)),
            decreases pairs@.len() - i,
        {
            proof {
                assert(all.take(i + 1).drop_last() =~= all.take(i as int));
                lemma_keys();
            }
            let key = pairs[i].0.as_str();
            if same_text(key, "artist") {
                meta.artist = Some(pairs[i].1.clone());
            } else if same_text(key, "title") {
                meta.title = Some(pairs[i].1.clone());
            } else if same_text(key, "album") {
                meta.album = Some(pairs[i].1.clone());
            }
            i = i + 1;
        }
        assert(all.take(i as int) =~= all);
        meta
    }
}

/// The names that count are different names.
proof fn lemma_keys()
    ensures
        "artist"@ != "title"@,
        "artist"@ != "album"@,
        "title"@ != "album"@,
{
    reveal_strlit("artist");
    reveal_strlit("title");
    reveal_strlit("album");
    assert("artist"@.len() == 6 && "title"@.len() == 5 && "album"@.len() == 5);
    assert("title"@[0] == 't' && "album"@[0] == 'a');
}

/// What is known of a stream: what its source says of it, what is playing, and
/// how many listen.
#[derive(Debug)]
pub struct MetadataContainer {
    pub stream: Option<StreamMetadata>,
    pub track: Option<TrackMetadata>,
    pub listeners: u64,
}

/// What a [`MetadataContainer`] holds.
pub struct MetadataContainerView {
    pub stream: Option<StreamMetadataView>,
    pub track: Option<TrackMetadataView>,
    pub listeners: u64,
}

impl View for MetadataContainer {
    type V = MetadataContainerView;

    open spec fn view(&self) -> MetadataContainerView {
        MetadataContainerView {
            stream: match self.stream {
                Some(stream) => Some(stream@),
                None => None,
            },
            track: match self.track {
                Some(track) => Some(track@),
                None => None,
            },
            listeners: self.listeners,
        }
    }
}

/// What is known of a stream that nobody sends to and nobody listens to.
pub open spec fn nothing_known() -> MetadataContainerView {
    MetadataContainerView { stream: None, track: None, listeners: 0 }
}

impl Default for MetadataContainer {
    fn default() -> (r: MetadataContainer)
        ensures
            r@ == nothing_known(),
    {
        MetadataContainer { stream: None, track: None, listeners: 0 }
    }
}

impl MetadataContainer {
    /// A copy of what is known now.
    pub fn snapshot(&self) -> (r: MetadataContainer)
        ensures
            r@ == self@,
    {
        MetadataContainer {
            stream: match &self.stream {
                Some(stream) => Some(StreamMetadata {
                    user_agent: stream.user_agent.clone(),
                    content_type: stream.content_type.clone(),
                    name: stream.name.clone(),
                }),
                None => None,
            },
            track: match &self.track {
                Some(track) => Some(TrackMetadata {
                    artist: copy_text(&track.artist),
                    title: copy_text(&track.title),
                    album: copy_text(&track.album),
                }),
                None => None,
            },
            listeners: self.listeners,
        }
    }
}

/// A copy of the text that is there, if any is.
fn copy_text(text: &Option<String>) -> (r: Option<String>)
    ensures
        crate::text::optional_text(r) == crate::text::optional_text(*text),
{
    match text {
        Some(text) => Some(text.clone()),
        None => None,
    }
}

} // verus!
