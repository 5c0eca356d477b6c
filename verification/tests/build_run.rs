use libtailscale::{
    Build, Call, CText, Error, Network, OsError, Reply, Server, ServerBuilder, Stage, Step,
    NO_LOG_FD,
};

fn ok() -> Reply {
    Reply { status: 0, out: 0, text: Vec::new() }
}

fn reply(status: i32, out: i32) -> Reply {
    Reply { status, out, text: Vec::new() }
}

fn message(text: &[u8]) -> Reply {
    let mut buf = vec![0u8; 256];
    buf[..text.len()].copy_from_slice(text);
    Reply { status: 0, out: 0, text: buf }
}

fn c(text: &str) -> CText {
    CText::from_text(text).unwrap()
}

/// Runs a build against the replies given, in order, and returns the calls
/// that were answered and the result.
fn drive(mut run: Build, replies: Vec<Reply>) -> (Vec<Call>, Result<Server, Error>) {
    let mut calls = Vec::new();
    for reply in replies {
        let call = match run.call() {
            Call::NewNode => Call::NewNode,
            Call::OpenLogPipe => Call::OpenLogPipe,
            Call::SetLogFd { node, fd } => Call::SetLogFd { node: *node, fd: *fd },
            Call::SetDir { node, dir } => {
                Call::SetDir { node: *node, dir: CText::new(dir.as_bytes().to_vec()).unwrap() }
            },
            Call::SetHostname { node, hostname } => Call::SetHostname {
                node: *node,
                hostname: CText::new(hostname.as_bytes().to_vec()).unwrap(),
            },
            Call::SetAuthKey { node, authkey } => Call::SetAuthKey {
                node: *node,
                authkey: CText::new(authkey.as_bytes().to_vec()).unwrap(),
            },
            Call::SetControlUrl { node, control_url } => Call::SetControlUrl {
                node: *node,
                control_url: CText::new(control_url.as_bytes().to_vec()).unwrap(),
            },
            Call::SetEphemeral { node, ephemeral } => {
                Call::SetEphemeral { node: *node, ephemeral: *ephemeral }
            },
            Call::Start { node } => Call::Start { node: *node },
            Call::ErrMsg { handle, buflen } => Call::ErrMsg { handle: *handle, buflen: *buflen },
            other => panic!("a build does not make the call {:?}", other),
        };
        calls.push(call);
        match run.resolve(&reply) {
            Step::Next(more) => run = more,
            Step::Done(result) => return (calls, result),
        }
    }
    panic!("the run asks for more replies than were given");
}

#[test]
fn new_and_default_builders_make_the_same_shortest_run() {
    for builder in [ServerBuilder::new(), ServerBuilder::default()] {
        let (calls, result) = drive(builder.build().unwrap(), vec![reply(5, 0), ok(), ok()]);
        assert_eq!(
            calls,
            vec![
                Call::NewNode,
                Call::SetEphemeral { node: 5, ephemeral: 0 },
                Call::Start { node: 5 },
            ]
        );
        assert_eq!(result.unwrap().handle(), 5);
    }
}

#[test]
fn build_begins_with_the_creation_of_the_node() {
    let run = ServerBuilder::new().hostname("a").build().unwrap();
    assert_eq!(run.stage(), Stage::Node);
    assert!(!run.fetching());
    assert_eq!(*run.call(), Call::NewNode);
}

#[test]
fn full_configuration_is_applied_in_order() {
    let run = ServerBuilder::new()
        .control_url("https://control.example".to_string())
        .authkey("tskey-123".to_string())
        .hostname("test-node")
        .dir(b"/var/lib/node".to_vec())
        .redirect_log()
        .ephemeral()
        .build()
        .unwrap();
    let replies = vec![reply(3, 0), reply(0, 17), ok(), ok(), ok(), ok(), ok(), ok(), ok()];
    let (calls, result) = drive(run, replies);
    assert_eq!(
        calls,
        vec![
            Call::NewNode,
            Call::OpenLogPipe,
            Call::SetLogFd { node: 3, fd: 17 },
            Call::SetDir { node: 3, dir: c("/var/lib/node") },
            Call::SetHostname { node: 3, hostname: c("test-node") },
            Call::SetAuthKey { node: 3, authkey: c("tskey-123") },
            Call::SetControlUrl { node: 3, control_url: c("https://control.example") },
            Call::SetEphemeral { node: 3, ephemeral: 1 },
            Call::Start { node: 3 },
        ]
    );
    assert_eq!(result.unwrap().handle(), 3);
}

#[test]
fn ephemeral_node_with_redirected_log_listens_and_accepts() {
    let run =
        ServerBuilder::new().ephemeral().hostname("test-node").redirect_log().build().unwrap();
    let (calls, result) = drive(run, vec![reply(1, 0), reply(0, 8), ok(), ok(), ok(), ok()]);
    assert_eq!(
        calls,
        vec![
            Call::NewNode,
            Call::OpenLogPipe,
            Call::SetLogFd { node: 1, fd: 8 },
            Call::SetHostname { node: 1, hostname: c("test-node") },
            Call::SetEphemeral { node: 1, ephemeral: 1 },
            Call::Start { node: 1 },
        ]
    );
    let ts = result.unwrap();
    let bind = ts.listen(Network::Tcp, ":0").unwrap();
    assert_eq!(*bind.call(), Call::Listen { node: 1, network: c("tcp"), addr: c(":0") });
    let listener = match bind.resolve(&reply(0, 2)) {
        Step::Done(Ok(listener)) => listener,
        _ => panic!("expected a listener with no error"),
    };
    // With no connection pending the accept is a call to make and wait for,
    // not a result.
    let accept = listener.accept();
    assert!(!accept.fetching());
    assert_eq!(*accept.call(), Call::Accept { listener: 2 });
}

#[test]
fn disabled_log_registers_the_sentinel() {
    let run = ServerBuilder::new().disable_log().build().unwrap();
    let (calls, result) = drive(run, vec![reply(4, 0), ok(), ok(), ok()]);
    assert_eq!(NO_LOG_FD, -1);
    assert_eq!(
        calls,
        vec![
            Call::NewNode,
            Call::SetLogFd { node: 4, fd: -1 },
            Call::SetEphemeral { node: 4, ephemeral: 0 },
            Call::Start { node: 4 },
        ]
    );
    assert!(result.is_ok());
}

#[test]
fn last_log_mode_set_wins() {
    let run = ServerBuilder::new().redirect_log().disable_log().build().unwrap();
    let (calls, _) = drive(run, vec![reply(4, 0), ok(), ok(), ok()]);
    assert_eq!(calls[1], Call::SetLogFd { node: 4, fd: -1 });
    let run = ServerBuilder::new().disable_log().redirect_log().build().unwrap();
    let (calls, _) = drive(run, vec![reply(4, 0), reply(0, 6), ok(), ok(), ok()]);
    assert_eq!(calls[1], Call::OpenLogPipe);
    assert_eq!(calls[2], Call::SetLogFd { node: 4, fd: 6 });
}

#[test]
fn failed_configuration_call_ends_the_run_with_the_message() {
    let run = ServerBuilder::new()
        .hostname("test-node")
        .authkey("key".to_string())
        .build()
        .unwrap();
    let (calls, result) = drive(run, vec![reply(2, 0), reply(-1, 0), message(b"boom")]);
    assert_eq!(
        calls,
        vec![
            Call::NewNode,
            Call::SetHostname { node: 2, hostname: c("test-node") },
            Call::ErrMsg { handle: 2, buflen: 256 },
        ]
    );
    assert_eq!(result.unwrap_err(), Error::TSNet("boom".to_string()));
}

#[test]
fn failed_start_ends_the_run_with_the_message() {
    let run = ServerBuilder::new().build().unwrap();
    let (calls, result) =
        drive(run, vec![reply(2, 0), ok(), reply(-5, 0), message(b"no auth key")]);
    assert_eq!(calls.len(), 4);
    assert_eq!(calls[2], Call::Start { node: 2 });
    assert_eq!(calls[3], Call::ErrMsg { handle: 2, buflen: 256 });
    assert_eq!(result.unwrap_err(), Error::TSNet("no auth key".to_string()));
}

#[test]
fn failed_log_registration_ends_the_run_before_other_configuration() {
    let run = ServerBuilder::new().hostname("test-node").disable_log().build().unwrap();
    let (calls, result) = drive(run, vec![reply(2, 0), reply(-1, 0), message(b"bad fd")]);
    assert_eq!(
        calls,
        vec![
            Call::NewNode,
            Call::SetLogFd { node: 2, fd: -1 },
            Call::ErrMsg { handle: 2, buflen: 256 },
        ]
    );
    assert_eq!(result.unwrap_err(), Error::TSNet("bad fd".to_string()));
}

#[test]
fn failed_log_pipe_ends_the_run_with_the_os_error() {
    let run = ServerBuilder::new().redirect_log().hostname("test-node").build().unwrap();
    let (calls, result) = drive(run, vec![reply(2, 0), reply(-1, 24)]);
    assert_eq!(calls, vec![Call::NewNode, Call::OpenLogPipe]);
    assert_eq!(result.unwrap_err(), Error::IO(OsError { code: 24 }));
}

#[test]
fn fetch_stage_is_reported() {
    let run = ServerBuilder::new().build().unwrap();
    let run = match run.resolve(&reply(2, 0)) {
        Step::Next(run) => run,
        Step::Done(_) => panic!("the run is not over"),
    };
    assert_eq!(run.stage(), Stage::Ephemeral);
    let run = match run.resolve(&reply(-1, 0)) {
        Step::Next(run) => run,
        Step::Done(_) => panic!("the run is not over"),
    };
    assert_eq!(run.stage(), Stage::Fetch);
    assert!(run.fetching());
}

#[test]
fn hostname_with_a_zero_byte_is_refused_before_any_call() {
    let refused = ServerBuilder::new().hostname("test\0node").ephemeral().build().unwrap_err();
    match refused {
        Error::NullInString(refused) => {
            assert_eq!(refused.nul_position(), 4);
            assert_eq!(refused.into_vec(), b"test\0node".to_vec());
        },
        other => panic!("expected an encoding error, got {:?}", other),
    }
}

#[test]
fn authkey_and_control_url_with_a_zero_byte_are_refused() {
    let refused = ServerBuilder::new().authkey("\0key".to_string()).build().unwrap_err();
    match refused {
        Error::NullInString(refused) => assert_eq!(refused.nul_position(), 0),
        other => panic!("expected an encoding error, got {:?}", other),
    }
    let refused =
        ServerBuilder::new().control_url("https://c\0".to_string()).build().unwrap_err();
    match refused {
        Error::NullInString(refused) => assert_eq!(refused.nul_position(), 9),
        other => panic!("expected an encoding error, got {:?}", other),
    }
}

#[test]
fn directory_that_is_not_text_is_refused() {
    let refused = ServerBuilder::new().dir(vec![b'/', 0xff, b'x']).build().unwrap_err();
    assert_eq!(refused, Error::CantConvertToString);
    // Not being text comes before the zero byte.
    let refused = ServerBuilder::new().dir(vec![0xff, 0]).build().unwrap_err();
    assert_eq!(refused, Error::CantConvertToString);
}

#[test]
fn directory_with_a_zero_byte_is_refused() {
    let refused = ServerBuilder::new().dir(b"/var\0/lib".to_vec()).build().unwrap_err();
    match refused {
        Error::NullInString(refused) => assert_eq!(refused.nul_position(), 4),
        other => panic!("expected an encoding error, got {:?}", other),
    }
}

#[test]
fn directory_in_utf8_is_handed_over_as_it_is() {
    let path = "/home/andr\u{e9}/n\u{153}ud".as_bytes().to_vec();
    let run = ServerBuilder::new().dir(path.clone()).build().unwrap();
    let (calls, _) = drive(run, vec![reply(6, 0), ok(), ok(), ok()]);
    assert_eq!(calls[1], Call::SetDir { node: 6, dir: CText::new(path).unwrap() });
}

#[test]
fn first_unencodable_field_decides_the_error() {
    let refused = ServerBuilder::new()
        .control_url("u\0".to_string())
        .authkey("ab\0".to_string())
        .hostname("abc\0")
        .build()
        .unwrap_err();
    match refused {
        Error::NullInString(refused) => assert_eq!(refused.into_vec(), b"abc\0".to_vec()),
        other => panic!("expected an encoding error, got {:?}", other),
    }
    let refused = ServerBuilder::new()
        .hostname("abc\0")
        .dir(vec![0xc0])
        .build()
        .unwrap_err();
    assert_eq!(refused, Error::CantConvertToString);
}

#[test]
fn setting_a_field_twice_keeps_the_last_value() {
    let run = ServerBuilder::new().hostname("first").hostname("second").build().unwrap();
    let (calls, _) = drive(run, vec![reply(6, 0), ok(), ok(), ok()]);
    assert_eq!(calls[1], Call::SetHostname { node: 6, hostname: c("second") });
}

#[test]
fn negative_node_handle_is_passed_on_as_it_is() {
    let run = ServerBuilder::new().build().unwrap();
    let (calls, result) = drive(run, vec![reply(-3, 0), ok(), ok()]);
    assert_eq!(calls[1], Call::SetEphemeral { node: -3, ephemeral: 0 });
    assert_eq!(result.unwrap().handle(), -3);
}
