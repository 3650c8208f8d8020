//! The stream: who sends to it, how many listen, and what is known of it.

use crate::config::StreamConfig;
use crate::media::{listen_uri, parse_mime, Mime, MimeView};
use crate::metadata::{MetadataContainer, MetadataContainerView, StreamMetadata, TrackMetadata};
use crate::queue::{bounded, send, subscribe, Queue, Subscriber};
use vstd::prelude::*;

verus! {

/// A stream.
pub struct Stream {
    queue: Queue,
    broadcasting: bool,
    metadata: MetadataContainer,
    #[allow(dead_code)]
    bitrate: usize,
    #[allow(dead_code)]
    max_conns: usize,
    #[allow(dead_code)]
    password: String,
    /// The media type that the source has to send.
    pub content_type: Mime,
    /// The path under which listeners find the stream.
    pub listen_uri: &'static str,
}

/// What a [`Stream`] holds.
pub struct StreamView {
    /// Every chunk that was ever sent to the stream, in its order.
    pub sent: Seq<Seq<u8>>,
    /// Whether a source holds the stream.
    pub broadcasting: bool,
    pub metadata: MetadataContainerView,
    pub bitrate: usize,
    pub max_conns: usize,
    pub password: Seq<char>,
    /// The number of chunks that wait for slow listeners.
    pub buffer_size: usize,
    pub content_type: MimeView,
    pub listen_uri: Seq<char>,
}

impl View for Stream {
    type V = StreamView;

    closed spec fn view(&self) -> StreamView {
        StreamView {
            sent: crate::queue::chunks_sent(self.queue),
            broadcasting: self.broadcasting,
            metadata: self.metadata@,
            bitrate: self.bitrate,
            max_conns: self.max_conns,
            password: self.password@,
            buffer_size: crate::queue::queue_limit(self.queue),
            content_type: self.content_type@,
            listen_uri: self.listen_uri@,
        }
    }
}

/// The path under which a stream is served that is set up for the given media
/// type, where there can be such a stream.
pub open spec fn served_under(content_type: Seq<char>) -> Option<Seq<char>> {
    match crate::media::mime_parse(content_type) {
        Some(mime) => crate::media::listen_path(mime.type_, mime.subtype),
        None => None,
    }
}

/// A stream as it is when it has just been set up.
pub open spec fn set_up(
    content_type: Seq<char>,
    bitrate: usize,
    max_conns: usize,
    password: Seq<char>,
    buffer_size: usize,
) -> StreamView {
    StreamView {
        sent: seq![],
        broadcasting: false,
        metadata: crate::metadata::nothing_known(),
        bitrate: bitrate,
        max_conns: max_conns,
        password: password,
        buffer_size: buffer_size,
        content_type: crate::media::mime_parse(content_type)->0,
        listen_uri: served_under(content_type)->0,
    }
}

impl StreamView {
    /// The media type can be sent in a header, and the path of the listeners is
    /// that of the media type.
    pub open spec fn wf(self) -> bool {
        &&& crate::headers::valid_text(self.content_type.source)
        &&& crate::media::listen_path(self.content_type.type_, self.content_type.subtype) == Some(
            self.listen_uri,
        )
    }

    /// The stream with other metadata.
    pub open spec fn with_metadata(self, metadata: MetadataContainerView) -> StreamView {
        StreamView {
            sent: self.sent,
            broadcasting: self.broadcasting,
            metadata: metadata,
            bitrate: self.bitrate,
            max_conns: self.max_conns,
            password: self.password,
            buffer_size: self.buffer_size,
            content_type: self.content_type,
            listen_uri: self.listen_uri,
        }
    }

    /// The stream once another source holds it, or none does.
    pub open spec fn with_broadcasting(self, broadcasting: bool) -> StreamView {
        StreamView {
            sent: self.sent,
            broadcasting: broadcasting,
            metadata: self.metadata,
            bitrate: self.bitrate,
            max_conns: self.max_conns,
            password: self.password,
            buffer_size: self.buffer_size,
            content_type: self.content_type,
            listen_uri: self.listen_uri,
        }
    }

    /// The stream once these chunks have been sent.
    pub open spec fn with_sent(self, sent: Seq<Seq<u8>>) -> StreamView {
        StreamView {
            sent: sent,
            broadcasting: self.broadcasting,
            metadata: self.metadata,
            bitrate: self.bitrate,
            max_conns: self.max_conns,
            password: self.password,
            buffer_size: self.buffer_size,
            content_type: self.content_type,
            listen_uri: self.listen_uri,
        }
    }

    /// The stream with another number of listeners.
    pub open spec fn with_listeners(self, listeners: u64) -> StreamView {
        self.with_metadata(
            MetadataContainerView {
                stream: self.metadata.stream,
                track: self.metadata.track,
                listeners: listeners,
            },
        )
    }

    /// The stream with another description by its source.
    pub open spec fn with_stream(
        self,
        stream: Option<crate::metadata::StreamMetadataView>,
    ) -> StreamView {
        self.with_metadata(
            MetadataContainerView {
                stream: stream,
                track: self.metadata.track,
                listeners: self.metadata.listeners,
            },
        )
    }

    /// The stream with another track.
    pub open spec fn with_track(
        self,
        track: Option<crate::metadata::TrackMetadataView>,
    ) -> StreamView {
        self.with_metadata(
            MetadataContainerView {
                stream: self.metadata.stream,
                track: track,
                listeners: self.metadata.listeners,
            },
        )
    }
}

/// The count of the listeners once one more listens. It starts again at zero
/// behind the largest number.
pub open spec fn one_more(listeners: u64) -> u64 {
    if listeners == u64::MAX {
        0
    } else {
        (listeners + 1) as u64
    }
}

/// The count of the listeners once one has left, the inverse of [`one_more`].
pub open spec fn one_less(listeners: u64) -> u64 {
    if listeners == 0 {
        u64::MAX
    } else {
        (listeners - 1) as u64
    }
}

/// Whether an end of the queue is one that a listener gets who is taken on now: it
/// hears first what the queue holds for one who joins.
pub open spec fn joined(subscriber: Subscriber, stream: StreamView) -> bool {
    crate::queue::backlog(subscriber) == crate::queue::held(stream.sent, stream.buffer_size)
}

/// Whether what is sent to a stream still comes to all to whom it came before.
pub open spec fn feeds_on(before: Stream, after: Stream) -> bool {
    forall|s: Subscriber| before.feeds(s) ==> #[trigger] after.feeds(s)
}

/// A source holds the stream already.
#[derive(Clone, Copy, Debug, PartialEq, Eq, Structural)]
pub struct TryLockError;

/// The right to send to the stream.
#[derive(Debug)]
pub struct BroadcastHandle {
    _held: (),
}

/// One who listens to the stream.
#[derive(Debug)]
pub struct Listener {
    /// Where the chunks for the listener come.
    pub subscriber: Subscriber,
    _counted: (),
}

impl Stream {
    /// Whether what is sent to the stream comes to this end of a queue.
    pub closed spec fn feeds(self, subscriber: Subscriber) -> bool {
        crate::queue::attached(self.queue, subscriber)
    }

    /// Sets up a stream. Its media type has to be one that can be served, and there
    /// has to be room for the chunks that wait.
    pub fn from(config: StreamConfig) -> (r: Stream)
        requires
            served_under(config.content_type@) is Some,
            crate::queue::fits(config.buffer_size),
        ensures
            r@ == set_up(
                config.content_type@,
                config.bitrate,
                config.max_conns,
                config.password@,
                config.buffer_size,
            ),
            r@.wf(),
            r@.buffer_size == config.buffer_size,
            r@.bitrate == config.bitrate,
            r@.max_conns == config.max_conns,
            r@.password == config.password@,
            crate::media::mime_parse(config.content_type@) == Some(r@.content_type),
    {
        let queue = bounded(config.buffer_size);
        let content_type = parse_mime(config.content_type.as_str()).unwrap();
        let uri = listen_uri(content_type.type_(), content_type.subtype()).unwrap();
        Stream {
            queue: queue,
            broadcasting: false,
            metadata: MetadataContainer::default(),
            bitrate: config.bitrate,
            max_conns: config.max_conns,
            password: config.password,
            content_type: content_type,
            listen_uri: uri,
        }
    }

    /// Sets up a stream if its media type is one that can be served and there is
    /// room for the chunks that wait.
    pub fn try_from(config: StreamConfig) -> (r: Option<Stream>)
        ensures
            r is Some <==> served_under(config.content_type@) is Some && crate::queue::fits(
                config.buffer_size,
            ),
            r matches Some(stream) ==> stream@.buffer_size == config.buffer_size && stream@.bitrate
                == config.bitrate && stream@.max_conns == config.max_conns && stream@.password
                == config.password@ && crate::media::mime_parse(config.content_type@) == Some(
                stream@.content_type,
            ),
            r matches Some(stream) ==> stream@.wf() && stream@ == set_up(
                config.content_type@,
                config.bitrate,
                config.max_conns,
                config.password@,
                config.buffer_size,
            ),
    {
        let servable = match parse_mime(config.content_type.as_str()) {
            Some(mime) => listen_uri(mime.type_(), mime.subtype()).is_some(),
            None => false,
        };
        if servable && config.buffer_size < isize::MAX as usize / 8 {
            Some(Stream::from(config))
        } else {
            None
        }
    }

    /// Takes on a listener.
    pub fn listen(&mut self) -> (r: Listener)
        ensures
            final(self)@ == old(self)@.with_listeners(one_more(old(self)@.metadata.listeners)),
            joined(r.subscribed(), old(self)@),
            crate::queue::backlog(r.subscribed()) == crate::queue::held(
                old(self)@.sent,
                old(self)@.buffer_size,
            ),
            final(self).feeds(r.subscribed()),
            feeds_on(*old(self), *final(self)),
    {
        Listener::new(self)
    }

    /// Gives the right to send to the stream, unless a source has it.
    pub fn try_broadcast(&mut self) -> (r: Result<BroadcastHandle, TryLockError>)
        ensures
            r is Ok <==> !old(self)@.broadcasting,
            final(self)@ == old(self)@.with_broadcasting(true),
            feeds_on(*old(self), *final(self)),
    {
        if self.broadcasting {
            Err(TryLockError)
        } else {
            self.broadcasting = true;
            Ok(BroadcastHandle { _held: () })
        }
    }

    /// What is known of the stream.
    pub fn metadata(&self) -> (r: &MetadataContainer)
        ensures
            r@ == self@.metadata,
    {
        &self.metadata
    }

    /// Keeps what a source says of the stream, or forgets it.
    pub fn store_stream(&mut self, stream: Option<StreamMetadata>)
        ensures
            final(self)@ == old(self)@.with_stream(
                match stream {
                    Some(stream) => Some(stream@),
                    None => None,
                },
            ),
            stream matches Some(stream) ==> final(self)@.metadata.stream == Some(stream@),
            stream is None ==> final(self)@.metadata.stream is None,
            feeds_on(*old(self), *final(self)),
    {
        self.metadata.stream = stream;
    }

    /// Keeps what is playing, or forgets it.
    pub fn store_track(&mut self, track: Option<TrackMetadata>)
        ensures
            final(self)@ == old(self)@.with_track(
                match track {
                    Some(track) => Some(track@),
                    None => None,
                },
            ),
            track matches Some(track) ==> final(self)@.metadata.track == Some(track@),
            track is None ==> final(self)@.metadata.track is None,
            feeds_on(*old(self), *final(self)),
    {
        self.metadata.track = track;
    }

    /// The media type that the source has to send, as text.
    pub fn content_type(&self) -> (r: &str)
        ensures
            r@ == self@.content_type.source,
    {
        self.content_type.as_str()
    }

    /// The path under which listeners find the stream.
    pub fn listen_uri(&self) -> (r: &str)
        ensures
            r@ == self@.listen_uri,
    {
        self.listen_uri
    }
}

impl BroadcastHandle {
    /// Sends a chunk to all who listen.
    pub fn send(&self, stream: &mut Stream, chunk: Vec<u8>) -> (r: Result<(), String>)
        ensures
            r is Ok,
            final(stream)@ == old(stream)@.with_sent(old(stream)@.sent.push(chunk@)),
            feeds_on(*old(stream), *final(stream)),
    {
        send(&mut stream.queue, chunk)
    }

    /// Gives the right to send back.
    pub fn release(self, stream: &mut Stream)
        ensures
            final(stream)@ == old(stream)@.with_broadcasting(false),
            feeds_on(*old(stream), *final(stream)),
    {
        stream.broadcasting = false;
    }
}

impl Listener {
    /// The end of the queue at which the listener waits.
    pub closed spec fn subscribed(self) -> Subscriber {
        self.subscriber
    }

    /// Counts one who listens.
    pub fn new(stream: &mut Stream) -> (r: Listener)
        ensures
            final(stream)@ == old(stream)@.with_listeners(
                one_more(old(stream)@.metadata.listeners),
            ),
            joined(r.subscribed(), old(stream)@),
            crate::queue::backlog(r.subscribed()) == crate::queue::held(
                old(stream)@.sent,
                old(stream)@.buffer_size,
            ),
            final(stream).feeds(r.subscribed()),
            feeds_on(*old(stream), *final(stream)),
    {
        stream.metadata.listeners = stream.metadata.listeners.wrapping_add(1);
        Listener { subscriber: subscribe(&stream.queue), _counted: () }
    }

    /// Counts one who listened no more.
    pub fn close(self, stream: &mut Stream)
        ensures
            final(stream)@ == old(stream)@.with_listeners(
                one_less(old(stream)@.metadata.listeners),
            ),
            feeds_on(*old(stream), *final(stream)),
    {
        stream.metadata.listeners = stream.metadata.listeners.wrapping_sub(1);
    }
}

} // verus!
