use scrs_serve::config::StreamConfig;
use scrs_serve::media::listen_uri;
use scrs_serve::metadata::{StreamMetadata, TrackMetadata};
use scrs_serve::stream::{Stream, TryLockError};

use futures::{FutureExt, StreamExt};

fn config(content_type: &str) -> StreamConfig {
    StreamConfig {
        content_type: content_type.to_string(),
        bitrate: 128,
        max_conns: 10,
        password: "hackme".to_string(),
        buffer_size: 5,
    }
}

#[test]
fn set_up_for_mp3() {
    let stream = Stream::from(config("audio/mpeg"));
    assert_eq!(stream.listen_uri, "/listen.mp3");
    assert_eq!(stream.listen_uri(), "/listen.mp3");
    assert_eq!(stream.content_type(), "audio/mpeg");
    assert_eq!(stream.content_type.type_(), "audio");
    assert_eq!(stream.content_type.subtype(), "mpeg");
    assert_eq!(stream.metadata().listeners, 0);
    assert!(stream.metadata().stream.is_none());
    assert!(stream.metadata().track.is_none());
}

#[test]
fn set_up_for_ogg() {
    let stream = Stream::try_from(config("Audio/OGG; codecs=opus")).unwrap();
    assert_eq!(stream.listen_uri, "/listen.ogg");
    assert_eq!(stream.content_type(), "audio/ogg; codecs=opus");
}

#[test]
fn suffix_is_not_part_of_the_subtype() {
    let stream = Stream::try_from(config("audio/ogg+x")).unwrap();
    assert_eq!(stream.listen_uri, "/listen.ogg");
    assert_eq!(stream.content_type(), "audio/ogg+x");
}

#[test]
fn other_media_types_are_not_served() {
    for content_type in ["", "audio", "audio/flac", "video/mpeg", "audio/mp3", "audio/mpeg;a", "audio /mpeg"] {
        assert!(Stream::try_from(config(content_type)).is_none(), "{}", content_type);
    }
}

#[test]
fn listen_paths() {
    assert_eq!(listen_uri("audio", "mpeg"), Some("/listen.mp3"));
    assert_eq!(listen_uri("audio", "ogg"), Some("/listen.ogg"));
    assert_eq!(listen_uri("audio", "aac"), None);
    assert_eq!(listen_uri("video", "ogg"), None);
    assert_eq!(listen_uri("AUDIO", "ogg"), None);
}

#[test]
fn one_source_at_a_time() {
    let mut stream = Stream::from(config("audio/mpeg"));
    let handle = stream.try_broadcast().unwrap();
    assert_eq!(stream.try_broadcast().unwrap_err(), TryLockError);
    handle.release(&mut stream);
    let handle = stream.try_broadcast().unwrap();
    assert!(stream.try_broadcast().is_err());
    handle.release(&mut stream);
    assert!(stream.try_broadcast().is_ok());
}

#[test]
fn listeners_are_counted() {
    let mut stream = Stream::from(config("audio/mpeg"));
    let one = stream.listen();
    let two = stream.listen();
    assert_eq!(stream.metadata().listeners, 2);
    one.close(&mut stream);
    assert_eq!(stream.metadata().listeners, 1);
    two.close(&mut stream);
    assert_eq!(stream.metadata().listeners, 0);
}

#[test]
fn count_wraps_around() {
    let mut stream = Stream::from(config("audio/mpeg"));
    let mut other = Stream::from(config("audio/mpeg"));
    other.listen().close(&mut stream);
    assert_eq!(stream.metadata().listeners, u64::MAX);
    stream.listen();
    assert_eq!(stream.metadata().listeners, 0);
}

#[test]
fn metadata_are_kept_and_forgotten() {
    let mut stream = Stream::from(config("audio/mpeg"));
    stream.store_stream(Some(StreamMetadata {
        user_agent: "a".to_string(),
        content_type: "b".to_string(),
        name: "c".to_string(),
    }));
    stream.store_track(Some(TrackMetadata::from(b"title=x")));
    assert_eq!(stream.metadata().stream.as_ref().unwrap().name, "c");
    assert_eq!(stream.metadata().track.as_ref().unwrap().title.as_deref(), Some("x"));
    stream.store_stream(None);
    assert!(stream.metadata().stream.is_none());
    assert!(stream.metadata().track.is_some());
    stream.store_track(None);
    assert!(stream.metadata().track.is_none());
}

#[test]
fn oversized_buffers_are_not_set_up() {
    for buffer_size in [usize::MAX, isize::MAX as usize, isize::MAX as usize / 8] {
        let mut config = config("audio/mpeg");
        config.buffer_size = buffer_size;
        assert!(Stream::try_from(config).is_none());
    }
}

#[test]
fn chunks_go_through_the_queue() {
    let mut stream = Stream::from(config("audio/mpeg"));
    let mut early = stream.listen();
    assert!(early.subscriber.queue.next().now_or_never().is_none());
    let handle = stream.try_broadcast().unwrap();
    assert_eq!(handle.send(&mut stream, b"one".to_vec()), Ok(()));
    assert_eq!(handle.send(&mut stream, b"two".to_vec()), Ok(()));
    let mut late = stream.listen();
    for listener in [&mut early, &mut late] {
        for expected in [&b"one"[..], &b"two"[..]] {
            let chunk = listener.subscriber.queue.next().now_or_never().unwrap().unwrap();
            assert_eq!(&chunk[..], expected);
        }
        assert!(listener.subscriber.queue.next().now_or_never().is_none());
    }
    handle.release(&mut stream);
}

#[test]
fn stream_without_a_buffer_holds_the_last_chunk() {
    let mut config = config("audio/mpeg");
    config.buffer_size = 0;
    let mut stream = Stream::try_from(config).unwrap();
    let mut early = stream.listen();
    assert!(early.subscriber.queue.next().now_or_never().is_none());
    let handle = stream.try_broadcast().unwrap();
    assert_eq!(handle.send(&mut stream, b"one".to_vec()), Ok(()));
    assert_eq!(handle.send(&mut stream, b"two".to_vec()), Ok(()));
    let mut late = stream.listen();
    for listener in [&mut early, &mut late] {
        let chunk = listener.subscriber.queue.next().now_or_never().unwrap().unwrap();
        assert_eq!(&chunk[..], b"two");
    }
    handle.release(&mut stream);
}

#[test]
fn what_is_sent_later_comes_to_all_who_listen() {
    let mut stream = Stream::from(config("audio/mpeg"));
    let mut other = Stream::from(config("audio/mpeg"));
    let handle = stream.try_broadcast().unwrap();
    assert_eq!(handle.send(&mut stream, b"one".to_vec()), Ok(()));
    let mut first = stream.listen();
    let mut second = stream.listen();
    let mut elsewhere = other.listen();
    assert_eq!(handle.send(&mut stream, b"two".to_vec()), Ok(()));
    for listener in [&mut first, &mut second] {
        for expected in [&b"one"[..], &b"two"[..]] {
            let chunk = listener.subscriber.queue.next().now_or_never().unwrap().unwrap();
            assert_eq!(&chunk[..], expected);
        }
    }
    assert!(elsewhere.subscriber.queue.next().now_or_never().is_none());
    handle.release(&mut stream);
}
