use libtailscale::{
    AsyncListener, Call, Error, LogRelay, Network, OsError, Poll, Record, Relayed, Reply,
    ServerBuilder, Step, Stream, LOG_CHUNK_LEN,
};

fn reply(status: i32, out: i32) -> Reply {
    Reply { status, out, text: Vec::new() }
}

fn adapter(node: i32, listener: i32) -> AsyncListener {
    let mut run = ServerBuilder::new().build().unwrap();
    let mut next = reply(node, 0);
    let ts = loop {
        match run.resolve(&next) {
            Step::Next(more) => run = more,
            Step::Done(done) => break done.unwrap(),
        }
        next = reply(0, 0);
    };
    match ts.listen_async(Network::Tcp, ":8080").unwrap().resolve(&reply(0, listener)) {
        Step::Done(Ok(adapter)) => adapter,
        _ => panic!("expected an adapter"),
    }
}

fn stream(listener: i32, fd: i32) -> Stream {
    let mut lone = adapter(1, listener);
    match lone.offload().unwrap().resolve(&reply(0, fd)) {
        Step::Done(Ok(stream)) => stream,
        _ => panic!("expected a stream"),
    }
}

fn records(reads: Vec<Result<&[u8], OsError>>) -> (Vec<Record>, Option<i32>, usize) {
    let mut relay = LogRelay::new(5);
    let mut out = Vec::new();
    let mut taken = 0;
    for read in reads {
        assert_eq!(relay.fd(), 5);
        taken += 1;
        match relay.relay(read) {
            Relayed::Record(record, more) => {
                out.push(record);
                relay = more;
            },
            Relayed::End { record, close } => {
                out.extend(record);
                return (out, Some(close), taken);
            },
        }
    }
    (out, None, taken)
}

#[test]
fn relay_emits_one_record_per_chunk() {
    let (out, closed, taken) = records(vec![
        Ok(b"first line\n"),
        Ok(b"two\nlines\n"),
        Ok(b"half a li"),
        Ok(b"ne\n"),
        Ok(b""),
        Ok(b"never read"),
    ]);
    assert_eq!(
        out,
        vec![
            Record::Info("first line\n".to_string()),
            Record::Info("two\nlines\n".to_string()),
            Record::Info("half a li".to_string()),
            Record::Info("ne\n".to_string()),
        ]
    );
    assert_eq!(closed, Some(5));
    assert_eq!(taken, 5);
}

#[test]
fn relay_stops_at_once_on_an_empty_stream() {
    let (out, closed, taken) = records(vec![Ok(b"")]);
    assert_eq!(out, vec![]);
    assert_eq!(closed, Some(5));
    assert_eq!(taken, 1);
}

#[test]
fn relay_goes_on_while_chunks_come() {
    let (out, closed, taken) = records(vec![Ok(b"a"), Ok(b"b")]);
    assert_eq!(out.len(), 2);
    assert_eq!(closed, None);
    assert_eq!(taken, 2);
}

#[test]
fn relay_decodes_each_chunk_leniently() {
    let (out, _, _) = records(vec![Ok(b"caf\xc3"), Ok(b"\xa9 ok"), Ok(b"\xe2\x82\xac")]);
    assert_eq!(
        out,
        vec![
            Record::Info("caf\u{fffd}".to_string()),
            Record::Info("\u{fffd} ok".to_string()),
            Record::Info("\u{20ac}".to_string()),
        ]
    );
}

#[test]
fn relay_ends_with_an_error_record_on_a_failed_read() {
    let (out, closed, taken) =
        records(vec![Ok(b"line"), Err(OsError { code: 9 }), Ok(b"never read")]);
    assert_eq!(
        out,
        vec![Record::Info("line".to_string()), Record::Error(OsError { code: 9 })]
    );
    assert_eq!(closed, Some(5));
    assert_eq!(taken, 2);
}

#[test]
fn relay_reads_bounded_chunks() {
    assert_eq!(LOG_CHUNK_LEN, 2048);
    let chunk = vec![b'z'; LOG_CHUNK_LEN];
    let (out, _, _) = records(vec![Ok(&chunk)]);
    assert_eq!(out, vec![Record::Info("z".repeat(2048))]);
}

#[test]
fn listen_async_makes_an_idle_adapter() {
    let accepting = adapter(1, 4);
    assert!(!accepting.in_flight());
    assert_eq!(accepting.into_listener().handle(), 4);
}

#[test]
fn adapter_offloads_one_accept_at_a_time() {
    let mut accepting = adapter(1, 4);
    let accept = accepting.offload().expect("an idle adapter offloads");
    assert_eq!(*accept.call(), Call::Accept { listener: 4 });
    assert!(accepting.in_flight());
    assert!(accepting.offload().is_none());
    assert!(accepting.in_flight());
}

#[test]
fn adapter_stays_in_flight_while_pending() {
    let mut accepting = adapter(1, 4);
    accepting.offload();
    for _ in 0..3 {
        assert!(matches!(accepting.poll_accept(Poll::Pending), Poll::Pending));
        assert!(accepting.in_flight());
        assert!(accepting.offload().is_none());
    }
}

#[test]
fn adapter_yields_a_nonblocking_stream_and_is_idle_again() {
    let mut accepting = adapter(1, 4);
    accepting.offload();
    match accepting.poll_accept(Poll::Ready(Ok(stream(4, 30)))) {
        Poll::Ready(Some(Ok(yielded))) => {
            assert_eq!(yielded.fd(), 30);
            assert!(yielded.is_nonblocking());
        },
        _ => panic!("expected a connection"),
    }
    assert!(!accepting.in_flight());
    assert!(accepting.offload().is_some());
}

#[test]
fn adapter_yields_an_error_as_it_is() {
    let mut accepting = adapter(1, 4);
    accepting.offload();
    match accepting.poll_accept(Poll::Ready(Err(Error::TSNet("closed".to_string())))) {
        Poll::Ready(Some(Err(error))) => assert_eq!(error, Error::TSNet("closed".to_string())),
        _ => panic!("expected an error"),
    }
    assert!(!accepting.in_flight());
}

#[test]
fn two_accepts_in_sequence_yield_two_connections_in_order() {
    let mut accepting = adapter(1, 4);
    let mut yielded = Vec::new();
    let polls = vec![
        Poll::Pending,
        Poll::Ready(Ok(stream(4, 30))),
        Poll::Pending,
        Poll::Pending,
        Poll::Ready(Ok(stream(4, 31))),
    ];
    let mut offloaded = 0;
    for polled in polls {
        if accepting.offload().is_some() {
            offloaded += 1;
        }
        if let Poll::Ready(Some(Ok(stream))) = accepting.poll_accept(polled) {
            yielded.push(stream.into_fd());
        }
    }
    assert_eq!(yielded, vec![30, 31]);
    assert_eq!(offloaded, 2);
}

#[test]
fn stream_keeps_its_handle_when_marked_nonblocking() {
    let blocking = stream(4, 77);
    assert!(!blocking.is_nonblocking());
    let nonblocking = blocking.into_nonblocking();
    assert!(nonblocking.is_nonblocking());
    assert_eq!(nonblocking.fd(), 77);
}
