use scrs_serve::metadata::{MetadataContainer, StreamMetadata, TrackMetadata};
use scrs_serve::request::read_request;

fn described(head: &[u8]) -> StreamMetadata {
    match read_request(head) {
        Some(Ok(req)) => StreamMetadata::from(req.headers()),
        other => panic!("{:?}", other),
    }
}

#[test]
fn source_describes_itself() {
    let meta = described(
        b"PUT /stream HTTP/1.1\r\nUser-Agent: butt\r\nContent-Type: audio/mpeg\r\nIce-Name: caf\xc3\xa9\r\n\r\n",
    );
    assert_eq!(meta.user_agent, "butt");
    assert_eq!(meta.content_type, "audio/mpeg");
    assert_eq!(meta.name, "caf\u{e9}");
}

#[test]
fn source_says_nothing() {
    let meta = described(b"PUT /stream HTTP/1.1\r\n\r\n");
    assert_eq!(meta.user_agent, "");
    assert_eq!(meta.content_type, "");
    assert_eq!(meta.name, "");
    let empty = StreamMetadata::default();
    assert_eq!((empty.user_agent, empty.content_type, empty.name), Default::default());
}

#[test]
fn ill_formed_text_is_replaced() {
    let meta = described(b"PUT /stream HTTP/1.1\r\nIce-Name: a\xffb\r\n\r\n");
    assert_eq!(meta.name, "a\u{fffd}b");
}

#[test]
fn track_from_a_query() {
    let track = TrackMetadata::from(b"artist=A+B&title=caf%C3%A9&album=%26&mode=updinfo");
    assert_eq!(track.artist.as_deref(), Some("A B"));
    assert_eq!(track.title.as_deref(), Some("caf\u{e9}"));
    assert_eq!(track.album.as_deref(), Some("&"));
}

#[test]
fn last_value_of_a_name_counts() {
    let track = TrackMetadata::from(b"title=one&artist=a&title=two");
    assert_eq!(track.title.as_deref(), Some("two"));
    assert_eq!(track.artist.as_deref(), Some("a"));
    assert_eq!(track.album, None);
}

#[test]
fn other_names_do_not_count() {
    let track = TrackMetadata::from(b"Title=one&song=two");
    assert_eq!((track.artist, track.title, track.album), (None, None, None));
    let track = TrackMetadata::from(b"");
    assert_eq!((track.artist, track.title, track.album), (None, None, None));
    let track = TrackMetadata::default();
    assert_eq!((track.artist, track.title, track.album), (None, None, None));
}

#[test]
fn track_from_pairs() {
    let pairs = [("album", "x"), ("title", "y"), ("album", "z"), ("b", "c")];
    let pairs = pairs.iter().map(|(k, v)| (k.to_string(), v.to_string())).collect();
    let track = TrackMetadata::from_pairs(pairs);
    assert_eq!(track.album.as_deref(), Some("z"));
    assert_eq!(track.title.as_deref(), Some("y"));
    assert_eq!(track.artist, None);
}

#[test]
fn snapshot_is_a_copy() {
    let mut known = MetadataContainer::default();
    assert!(known.stream.is_none() && known.track.is_none() && known.listeners == 0);
    known.stream = Some(StreamMetadata {
        user_agent: "a".to_string(),
        content_type: "b".to_string(),
        name: "c".to_string(),
    });
    known.track = Some(TrackMetadata { artist: Some("d".to_string()), title: None, album: None });
    known.listeners = 7;
    let copy = known.snapshot();
    known.stream = None;
    known.track = None;
    let stream = copy.stream.unwrap();
    assert_eq!((stream.user_agent, stream.content_type, stream.name), ("a".to_string(), "b".to_string(), "c".to_string()));
    let track = copy.track.unwrap();
    assert_eq!((track.artist.as_deref(), track.title, track.album), (Some("d"), None, None));
    assert_eq!(copy.listeners, 7);
}
