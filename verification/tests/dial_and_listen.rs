use libtailscale::{
    Call, CText, Error, Listener, Network, Pending, Reply, Server, ServerBuilder, Step, Stream,
};

fn reply(status: i32, out: i32) -> Reply {
    Reply { status, out, text: Vec::new() }
}

fn message(text: &[u8]) -> Reply {
    let mut buf = vec![0u8; 256];
    buf[..text.len()].copy_from_slice(text);
    Reply { status: 0, out: 0, text: buf }
}

fn server(handle: i32) -> Server {
    let mut run = ServerBuilder::new().build().unwrap();
    let mut next = reply(handle, 0);
    loop {
        match run.resolve(&next) {
            Step::Next(more) => run = more,
            Step::Done(done) => return done.unwrap(),
        }
        next = reply(0, 0);
    }
}

fn c(text: &str) -> CText {
    CText::from_text(text).unwrap()
}

fn done<M, T>(step: Step<M, T>) -> Result<T, Error> {
    match step {
        Step::Done(result) => result,
        Step::Next(_) => panic!("the operation asks for one more call"),
    }
}

fn next<M, T>(step: Step<M, T>) -> M {
    match step {
        Step::Next(more) => more,
        Step::Done(_) => panic!("the operation is over"),
    }
}

#[test]
fn connect_dials_with_token_and_address() {
    let ts = server(7);
    let dial = ts.connect(Network::Tcp, "echo-server:1999").unwrap();
    assert!(!dial.fetching());
    assert_eq!(
        *dial.call(),
        Call::Dial { node: 7, network: c("tcp"), addr: c("echo-server:1999") }
    );
    let stream: Stream = done(dial.resolve(&reply(0, 42))).unwrap();
    assert_eq!(stream.fd(), 42);
    assert!(!stream.is_nonblocking());
    assert_eq!(stream.into_fd(), 42);
}

#[test]
fn connect_over_udp_uses_the_udp_token() {
    let ts = server(7);
    let dial = ts.connect(Network::Udp, "peer:53").unwrap();
    assert_eq!(*dial.call(), Call::Dial { node: 7, network: c("udp"), addr: c("peer:53") });
}

#[test]
fn connect_refuses_an_address_with_a_zero_byte() {
    let ts = server(7);
    match ts.connect(Network::Tcp, "peer\0host:80") {
        Err(Error::NullInString(refused)) => {
            assert_eq!(refused.nul_position(), 4);
            assert_eq!(refused.into_vec(), b"peer\0host:80".to_vec());
        },
        other => panic!("expected an encoding error, got {:?}", other.map(|_| ())),
    }
}

#[test]
fn failed_dial_yields_the_engine_message() {
    let ts = server(7);
    let dial = ts.connect(Network::Tcp, "nowhere:1").unwrap();
    let fetch = next(dial.resolve(&reply(-1, 0)));
    assert!(fetch.fetching());
    assert_eq!(*fetch.call(), Call::ErrMsg { handle: 7, buflen: 256 });
    let failed = done(fetch.resolve(&message(b"boom"))).unwrap_err();
    assert_eq!(failed, Error::TSNet("boom".to_string()));
}

#[test]
fn failed_dial_with_a_long_message_is_truncated() {
    let ts = server(7);
    let dial = ts.connect(Network::Tcp, "nowhere:1").unwrap();
    let fetch = next(dial.resolve(&reply(i32::MIN, 0)));
    let mut buf = vec![b'e'; 255];
    buf.push(0);
    let failed = done(fetch.resolve(&Reply { status: 0, out: 0, text: buf })).unwrap_err();
    assert_eq!(failed, Error::TSNet("e".repeat(255)));
}

#[test]
fn listen_binds_and_wraps_the_listener() {
    let ts = server(9);
    let bind: Pending<Listener> = ts.listen(Network::Tcp, ":1999").unwrap();
    assert_eq!(*bind.call(), Call::Listen { node: 9, network: c("tcp"), addr: c(":1999") });
    let listener = done(bind.resolve(&reply(0, 12))).unwrap();
    assert_eq!(listener.handle(), 12);
    assert_eq!(listener.close(), Call::CloseListener { listener: 12 });
}

#[test]
fn listen_refuses_an_address_with_a_zero_byte() {
    let ts = server(9);
    match ts.listen(Network::Tcp, "\0:1999") {
        Err(Error::NullInString(refused)) => assert_eq!(refused.nul_position(), 0),
        other => panic!("expected an encoding error, got {:?}", other.map(|_| ())),
    }
    match ts.listen_async(Network::Udp, ":19\099") {
        Err(Error::NullInString(refused)) => assert_eq!(refused.nul_position(), 3),
        other => panic!("expected an encoding error, got {:?}", other.map(|_| ())),
    }
}

#[test]
fn failed_listen_fetches_from_the_node() {
    let ts = server(9);
    let bind = ts.listen(Network::Tcp, ":1999").unwrap();
    let fetch = next(bind.resolve(&reply(-1, 0)));
    assert_eq!(*fetch.call(), Call::ErrMsg { handle: 9, buflen: 256 });
    let failed = done(fetch.resolve(&message(b"address in use"))).unwrap_err();
    assert_eq!(failed, Error::TSNet("address in use".to_string()));
}

#[test]
fn accept_waits_for_the_engine_and_wraps_the_connection() {
    let ts = server(9);
    let listener = done(ts.listen(Network::Tcp, ":0").unwrap().resolve(&reply(0, 12))).unwrap();
    let accept = listener.accept();
    assert!(!accept.fetching());
    assert_eq!(*accept.call(), Call::Accept { listener: 12 });
    let stream = done(accept.resolve(&reply(0, 33))).unwrap();
    assert_eq!(stream.fd(), 33);
}

#[test]
fn failed_accept_fetches_from_the_node_not_the_listener() {
    let ts = server(9);
    let listener = done(ts.listen(Network::Tcp, ":0").unwrap().resolve(&reply(0, 12))).unwrap();
    let fetch = next(listener.accept().resolve(&reply(-1, 0)));
    assert_eq!(*fetch.call(), Call::ErrMsg { handle: 9, buflen: 256 });
    let failed = done(fetch.resolve(&message(b"listener closed"))).unwrap_err();
    assert_eq!(failed, Error::TSNet("listener closed".to_string()));
}

#[test]
fn incoming_never_ends() {
    let ts = server(9);
    let mut listener =
        done(ts.listen(Network::Tcp, ":0").unwrap().resolve(&reply(0, 12))).unwrap();
    assert_eq!(listener.incoming().handle(), 12);
    for fd in 100..110 {
        let accept = listener.next().expect("a listener always has a next accept");
        assert_eq!(*accept.call(), Call::Accept { listener: 12 });
        assert_eq!(done(accept.resolve(&reply(0, fd))).unwrap().fd(), fd);
    }
}

#[test]
fn closing_a_node_releases_its_handle() {
    let ts = server(21);
    assert_eq!(ts.handle(), 21);
    assert_eq!(ts.close(), Call::Close { node: 21 });
}
