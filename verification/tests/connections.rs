use futures::{FutureExt, StreamExt};
use scrs_serve::config::StreamConfig;
use scrs_serve::error::{HandlerError, ParseError};
use scrs_serve::handler::{process, route, Action, Event, Session};
use scrs_serve::request::read_request;
use scrs_serve::stream::Stream;

const FIRST: &str = "server: scrs-serve/0.1.0\r\naccept-encoding: identity\r\nconnection: keep-alive\r\n";
const ORIGIN: &str = "access-control-allow-origin: *\r\n";

fn stream() -> Stream {
    Stream::from(StreamConfig {
        content_type: "audio/mpeg".to_string(),
        bitrate: 128,
        max_conns: 10,
        password: "hackme".to_string(),
        buffer_size: 5,
    })
}

fn open(head: &str, stream: &mut Stream) -> (Session, Action) {
    let event = Event::opening(head.as_bytes().to_vec()).unwrap();
    assert!(Session::Opened.expects(&event));
    process(Session::Opened, event, stream)
}

fn next(session: Session, event: Event, stream: &mut Stream) -> (Session, Action) {
    assert!(session.expects(&event), "{:?} {:?}", session, event);
    process(session, event, stream)
}

fn bytes(action: Action) -> String {
    match action {
        Action::Write(bytes) => String::from_utf8(bytes).unwrap(),
        other => panic!("{:?}", other),
    }
}

fn outcome(step: (Session, Action)) -> Result<(), HandlerError> {
    assert!(matches!(step.0, Session::Closed));
    match step.1 {
        Action::Finish(outcome) => outcome,
        other => panic!("{:?}", other),
    }
}

fn queued(session: &mut Session) -> Option<Vec<u8>> {
    match session {
        Session::Listening(listener) => {
            let next = listener.subscriber.queue.next().now_or_never();
            next.map(|chunk| chunk.unwrap().to_vec())
        }
        other => panic!("{:?}", other),
    }
}

fn listener(stream: &mut Stream) -> Session {
    let (session, _) = open("GET /listen.mp3 HTTP/1.1\r\n\r\n", stream);
    next(session, Event::Written, stream).0
}

fn send(session: Session, chunk: &str, stream: &mut Stream) -> Session {
    let (session, action) = next(session, Event::Received(chunk.as_bytes().to_vec()), stream);
    assert!(matches!(action, Action::Read));
    session
}

fn hear(mut session: Session, stream: &mut Stream) -> (Session, String) {
    let mut heard = String::new();
    while let Some(chunk) = queued(&mut session) {
        let (relaying, action) = next(session, Event::Chunk(Some(chunk)), stream);
        heard.push_str(&bytes(action));
        let (listening, action) = next(relaying, Event::Written, stream);
        assert!(matches!(action, Action::Await));
        session = listening;
    }
    (session, heard)
}

const SOURCE: &str = "PUT /stream HTTP/1.1\r\nContent-Type: audio/mpeg\r\nUser-Agent: butt\r\nIce-Name: radio\r\n\r\n";

fn source(stream: &mut Stream) -> Session {
    let (session, _) = open(SOURCE, stream);
    next(session, Event::Written, stream).0
}

#[test]
fn nothing_came() {
    let mut stream = stream();
    assert!(outcome(open("", &mut stream)).is_ok());
}

#[test]
fn nonsense_came() {
    let mut stream = stream();
    assert!(matches!(
        outcome(open("\u{1}", &mut stream)),
        Err(HandlerError::RequestError(ParseError::Token))
    ));
    assert!(matches!(outcome(open("GET", &mut stream)), Err(HandlerError::InvalidHttp)));
    assert!(Event::opening(b"(GET) / HTTP/1.1\r\nA: b\r\n\r\n".to_vec()).is_none());
}

#[test]
fn listener_is_greeted_and_fed() {
    let mut stream = stream();
    let (session, action) = open("GET /listen.mp3 HTTP/1.1\r\n\r\n", &mut stream);
    assert_eq!(
        bytes(action),
        format!("HTTP/1.1 200 OK\r\n{}{}content-type: audio/mpeg\r\n\r\n", FIRST, ORIGIN)
    );
    assert_eq!(stream.metadata().listeners, 0);
    let (session, action) = next(session, Event::Written, &mut stream);
    assert!(matches!(action, Action::Await));
    assert_eq!(stream.metadata().listeners, 1);
    let (session, action) = next(session, Event::Chunk(Some(b"one".to_vec())), &mut stream);
    assert_eq!(bytes(action), "one");
    let (session, action) = next(session, Event::Written, &mut stream);
    assert!(matches!(action, Action::Await));
    let (session, action) = next(session, Event::Chunk(None), &mut stream);
    assert!(matches!(action, Action::Await));
    let (session, action) = next(session, Event::Chunk(Some(b"two".to_vec())), &mut stream);
    assert_eq!(bytes(action), "two");
    let end = outcome(next(session, Event::Failed("broken pipe".to_string()), &mut stream));
    assert!(matches!(end, Err(HandlerError::IoError(e)) if e == "broken pipe"));
    assert_eq!(stream.metadata().listeners, 0);
}

#[test]
fn greeting_that_fails_is_not_counted() {
    let mut stream = stream();
    let (session, _) = open("GET /listen.mp3 HTTP/1.1\r\n\r\n", &mut stream);
    assert!(outcome(next(session, Event::Failed(String::new()), &mut stream)).is_err());
    assert_eq!(stream.metadata().listeners, 0);
}

#[test]
fn source_is_accepted_and_relayed() {
    let mut stream = stream();
    let (session, action) = open(SOURCE, &mut stream);
    assert_eq!(
        bytes(action),
        format!(
            "HTTP/1.1 200 OK\r\n{}connection: Close\r\n{}allow: PUT, SOURCE\r\n\r\n",
            FIRST, ORIGIN
        )
    );
    assert!(stream.metadata().stream.is_none());
    let (session, action) = next(session, Event::Written, &mut stream);
    assert!(matches!(action, Action::Read));
    let known = stream.metadata().stream.as_ref().unwrap();
    assert_eq!(known.user_agent, "butt");
    assert_eq!(known.content_type, "audio/mpeg");
    assert_eq!(known.name, "radio");
    let session = send(session, "one", &mut stream);
    let session = send(session, "two", &mut stream);
    let listening = listener(&mut stream);
    assert_eq!(hear(listening, &mut stream).1, "onetwo");
    stream.store_track(Some(Default::default()));
    assert!(outcome(next(session, Event::Received(vec![]), &mut stream)).is_ok());
    assert!(stream.metadata().stream.is_none());
    assert!(stream.metadata().track.is_none());
    assert!(stream.try_broadcast().is_ok());
}

#[test]
fn source_that_expects_to_continue() {
    let mut stream = stream();
    let (_, action) = open(
        "PUT /stream HTTP/1.1\r\nContent-Type: audio/mpeg\r\nExpect: 100-continue\r\n\r\n",
        &mut stream,
    );
    assert_eq!(
        bytes(action),
        format!(
            "HTTP/1.1 100 Continue\r\n{}connection: Close\r\n{}allow: PUT, SOURCE\r\n\r\n",
            FIRST, ORIGIN
        )
    );
}

#[test]
fn second_source_is_refused() {
    let mut stream = stream();
    let first = source(&mut stream);
    let (session, action) = open(SOURCE, &mut stream);
    assert_eq!(
        bytes(action),
        format!("HTTP/1.1 403 Mountpoint in use\r\n{}{}\r\n", FIRST, ORIGIN)
    );
    let end = outcome(next(session, Event::Written, &mut stream));
    assert!(matches!(end, Err(HandlerError::StreamAlreadyConnected)));
    assert!(stream.metadata().stream.is_some());
    let first = send(first, "x", &mut stream);
    assert!(outcome(next(first, Event::Received(vec![]), &mut stream)).is_ok());
    assert!(matches!(open(SOURCE, &mut stream).0, Session::Accepting(_, _)));
}

#[test]
fn wrong_content_type_is_refused() {
    let mut stream = stream();
    let (session, action) =
        open("PUT /stream HTTP/1.1\r\nContent-Type: audio/MPEG\r\n\r\n", &mut stream);
    assert_eq!(
        bytes(action),
        format!(
            "HTTP/1.1 403 Content-Type must be audio/mpeg\r\n{}connection: Close\r\n{}allow: PUT, SOURCE\r\n\r\n",
            FIRST, ORIGIN
        )
    );
    // the stream is taken until the refusal has been written
    assert!(matches!(
        open(SOURCE, &mut stream).0,
        Session::Replying(Err(HandlerError::StreamAlreadyConnected))
    ));
    match outcome(next(session, Event::Written, &mut stream)) {
        Err(HandlerError::UnsupportedContentType { actual, expected }) => {
            assert_eq!(actual, "audio/MPEG");
            assert_eq!(expected, "audio/mpeg");
        }
        other => panic!("{:?}", other),
    }
    assert!(stream.try_broadcast().is_ok());
}

#[test]
fn missing_content_type_is_refused() {
    let mut stream = stream();
    let (session, _) = open("PUT /stream HTTP/1.1\r\n\r\n", &mut stream);
    match session {
        Session::Refusing(_, HandlerError::UnsupportedContentType { actual, .. }) => {
            assert_eq!(actual, "")
        }
        other => panic!("{:?}", other),
    }
}

#[test]
fn source_that_is_cut_off_frees_the_stream() {
    let mut stream = stream();
    let session = source(&mut stream);
    let end = outcome(next(session, Event::Failed("reset".to_string()), &mut stream));
    assert!(matches!(end, Err(HandlerError::IoError(_))));
    assert!(stream.metadata().stream.is_some());
    assert!(matches!(open(SOURCE, &mut stream).0, Session::Accepting(_, _)));
}

#[test]
fn metadata_are_reported() {
    let mut stream = stream();
    let (listener, _) = open("GET /listen.mp3 HTTP/1.1\r\n\r\n", &mut stream);
    let _listener = next(listener, Event::Written, &mut stream);
    let _source = source(&mut stream);
    let (session, action) = open("GET /metadata HTTP/1.1\r\n\r\n", &mut stream);
    assert_eq!(
        bytes(action),
        format!(
            "HTTP/1.1 200 OK\r\n{}connection: Close\r\n{}content-type: application/json\r\n\r\n",
            FIRST, ORIGIN
        )
    );
    let (session, action) = next(session, Event::Written, &mut stream);
    match action {
        Action::Describe(known) => {
            assert_eq!(known.listeners, 1);
            assert_eq!(known.stream.unwrap().name, "radio");
            assert!(known.track.is_none());
        }
        other => panic!("{:?}", other),
    }
    assert!(outcome(next(session, Event::Written, &mut stream)).is_ok());
}

#[test]
fn metadata_that_cannot_be_written() {
    let mut stream = stream();
    let (session, _) = open("GET /metadata HTTP/1.1\r\n\r\n", &mut stream);
    let (session, _) = next(session, Event::Written, &mut stream);
    let end = outcome(next(session, Event::Unwritable("x".to_string()), &mut stream));
    assert!(matches!(end, Err(HandlerError::JsonWriteError(e)) if e == "x"));
}

#[test]
fn track_is_updated_and_reported() {
    let mut stream = stream();
    let (session, action) =
        open("GET /admin/metadata?title=a%20b&artist=c&title=d HTTP/1.1\r\n\r\n", &mut stream);
    assert_eq!(bytes(action), format!("HTTP/1.1 200 OK\r\n{}{}\r\n", FIRST, ORIGIN));
    assert!(outcome(next(session, Event::Written, &mut stream)).is_ok());
    let (session, _) = open("GET /metadata HTTP/1.1\r\n\r\n", &mut stream);
    match next(session, Event::Written, &mut stream).1 {
        Action::Describe(known) => {
            let track = known.track.unwrap();
            assert_eq!(track.title.as_deref(), Some("d"));
            assert_eq!(track.artist.as_deref(), Some("c"));
            assert_eq!(track.album, None);
        }
        other => panic!("{:?}", other),
    }
}

#[test]
fn update_without_a_query_is_ignored() {
    let mut stream = stream();
    assert!(outcome(open("GET /admin/metadata HTTP/1.1\r\n\r\n", &mut stream)).is_ok());
    assert!(stream.metadata().track.is_none());
    open("GET /admin/metadata? HTTP/1.1\r\n\r\n", &mut stream);
    assert!(stream.metadata().track.is_some());
}

#[test]
fn unknown_path_is_not_found() {
    let mut stream = stream();
    for path in ["/", "/listen.ogg", "/stream/", "/Stream", "/metadata/x"] {
        let (session, action) = open(&format!("GET {} HTTP/1.1\r\n\r\n", path), &mut stream);
        assert_eq!(
            bytes(action),
            format!("HTTP/1.1 404 Not Found\r\n{}connection: Close\r\n{}\r\n", FIRST, ORIGIN)
        );
        match outcome(next(session, Event::Written, &mut stream)) {
            Err(HandlerError::EndpointNotFound(req)) => assert_eq!(req.uri().path, path),
            other => panic!("{:?}", other),
        }
    }
}

#[test]
fn settings_stay() {
    let mut stream = stream();
    let session = source(&mut stream);
    open("GET /listen.mp3 HTTP/1.1\r\n\r\n", &mut stream);
    outcome(next(session, Event::Received(vec![]), &mut stream)).unwrap();
    assert_eq!(stream.content_type(), "audio/mpeg");
    assert_eq!(stream.listen_uri(), "/listen.mp3");
}

#[test]
fn requests_can_be_routed_directly() {
    let mut stream = stream();
    let req = read_request(b"DELETE /metadata?x HTTP/1.0\r\n\r\n").unwrap().unwrap();
    assert!(matches!(route(req, &mut stream).0, Session::Reporting));
}

#[test]
fn expected_events() {
    assert!(Session::Opened.expects(&Event::Received(vec![])));
    assert!(!Session::Opened.expects(&Event::Received(vec![1])));
    assert!(!Session::Opened.expects(&Event::Written));
    assert!(Session::Opened.expects(&Event::Failed(String::new())));
    assert!(!Session::Closed.expects(&Event::Failed(String::new())));
    assert!(Session::Greeting.expects(&Event::Written));
    assert!(!Session::Greeting.expects(&Event::Chunk(None)));
    assert!(!Session::Reporting.expects(&Event::Unwritable(String::new())));
    assert!(Session::Describing.expects(&Event::Unwritable(String::new())));
    assert!(!Session::Describing.expects(&Event::Chunk(None)));
    assert!(Session::Replying(Ok(())).expects(&Event::Written));
}

#[test]
fn listeners_hear_what_the_source_sends() {
    let mut stream = stream();
    let first = listener(&mut stream);
    let second = listener(&mut stream);
    let mut sending = source(&mut stream);
    for chunk in ["one", "two", "three"] {
        sending = send(sending, chunk, &mut stream);
    }
    let (first, heard) = hear(first, &mut stream);
    assert_eq!(heard, "onetwothree");
    sending = send(sending, "four", &mut stream);
    assert!(outcome(next(sending, Event::Received(vec![]), &mut stream)).is_ok());
    assert_eq!(hear(first, &mut stream).1, "four");
    assert_eq!(hear(second, &mut stream).1, "onetwothreefour");
}

#[test]
fn newcomer_hears_the_newest_chunks() {
    let mut stream = stream();
    let mut sending = source(&mut stream);
    let listening = listener(&mut stream);
    assert_eq!(hear(listening, &mut stream).1, "");
    for chunk in ["a", "b", "c", "d", "e", "f", "g"] {
        sending = send(sending, chunk, &mut stream);
    }
    let listening = listener(&mut stream);
    assert_eq!(hear(listening, &mut stream).1, "cdefg");
    send(sending, "h", &mut stream);
    let listening = listener(&mut stream);
    assert_eq!(hear(listening, &mut stream).1, "defgh");
}

#[test]
fn listener_that_falls_behind_misses_chunks() {
    let mut stream = stream();
    let listening = listener(&mut stream);
    let mut sending = source(&mut stream);
    sending = send(sending, "a", &mut stream);
    let (listening, heard) = hear(listening, &mut stream);
    assert_eq!(heard, "a");
    for chunk in ["b", "c", "d", "e", "f", "g", "h"] {
        sending = send(sending, chunk, &mut stream);
    }
    assert_eq!(hear(listening, &mut stream).1, "defgh");
}

#[test]
fn connections_are_counted_together() {
    let mut stream = stream();
    let sending = source(&mut stream);
    let mut listening = Vec::new();
    for expected in 1..4 {
        let (session, _) = open("GET /listen.mp3 HTTP/1.1\r\n\r\n", &mut stream);
        listening.push(next(session, Event::Written, &mut stream).0);
        assert_eq!(stream.metadata().listeners, expected);
    }
    assert!(stream.try_broadcast().is_err());
    assert!(outcome(next(sending, Event::Received(vec![]), &mut stream)).is_ok());
    assert_eq!(stream.metadata().listeners, 3);
    for session in listening {
        assert!(outcome(next(session, Event::Failed(String::new()), &mut stream)).is_err());
    }
    assert_eq!(stream.metadata().listeners, 0);
    assert!(stream.try_broadcast().is_ok());
}

#[test]
fn listeners_hear_alike() {
    let mut stream = stream();
    let mut sending = source(&mut stream);
    for chunk in ["a", "b", "c", "d", "e", "f"] {
        sending = send(sending, chunk, &mut stream);
    }
    let (first, heard) = hear(listener(&mut stream), &mut stream);
    assert_eq!(heard, "bcdef");
    let (second, heard) = hear(listener(&mut stream), &mut stream);
    assert_eq!(heard, "bcdef");
    let third = listener(&mut stream);
    for chunk in ["g", "h"] {
        sending = send(sending, chunk, &mut stream);
    }
    assert_eq!(hear(first, &mut stream).1, "gh");
    assert_eq!(hear(second, &mut stream).1, "gh");
    assert_eq!(hear(third, &mut stream).1, "defgh");
}

#[test]
fn refused_content_type_is_kept_as_it_came() {
    let mut stream = stream();
    let head = "PUT /stream HTTP/1.1\r\nContent-Type: audio/m\u{fc}sic\r\n\r\n";
    let (session, _) = open(head, &mut stream);
    match outcome(next(session, Event::Written, &mut stream)) {
        Err(HandlerError::UnsupportedContentType { actual, expected }) => {
            assert_eq!(actual, "audio/m\u{fc}sic");
            assert_eq!(expected, "audio/mpeg");
        }
        other => panic!("{:?}", other),
    }
}

#[test]
fn accepted_description_is_kept_as_it_came() {
    let mut stream = stream();
    let head = "PUT /stream HTTP/1.1\r\nContent-Type: audio/mpeg\r\nIce-Name: M\u{fc}sic\r\n\r\n";
    let (session, _) = open(head, &mut stream);
    next(session, Event::Written, &mut stream);
    let known = stream.metadata().stream.as_ref().unwrap();
    assert_eq!(known.name, "M\u{fc}sic");
    assert_eq!(known.content_type, "audio/mpeg");
    assert_eq!(known.user_agent, "");
}
