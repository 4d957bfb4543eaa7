use spawner::net::{Ipv4Address, SocketAddress};
use spawner::server::{
    EchoAction, EchoReply, EchoServer, EchoStage, EchoStep, MessageKind, ReadyError, ReadyStep,
    Server, SocketAction, SocketCheck, SocketReply, SocketStage, SocketStartup,
    SocketStartupAction, SocketStartupReply, SocketStartupStage, SocketStartupStep, SocketStep,
    Startup, StartupAction, StartupReply, StartupStage, StartupStep, READY_DEADLINE_SECONDS,
};

type Probe = Result<Result<u8, String>, ()>;

fn ip() -> Ipv4Address {
    Ipv4Address {
        a: 127,
        b: 3,
        c: 20,
        d: 1,
    }
}

fn server() -> Server {
    Server {
        address: SocketAddress {
            ip: ip(),
            port: 8080,
        },
    }
}

fn startup_reply(startup: &mut Startup, reply: StartupReply<u8, String, ()>) -> Option<StartupStep> {
    startup.step(reply)
}

/// Starts a server whose probes come out as given, and tells how many probes were made, how many
/// milliseconds were waited, and how the start ended.
fn start(probes: Vec<Probe>) -> (usize, u64, Result<Server, ReadyError>) {
    let (mut startup, action) = Server::new(ip());
    assert!(matches!(action, StartupAction::Serve { address } if address == server().address));
    let mut probes = probes.into_iter();
    let mut made = 0;
    let mut waited = 0;
    let mut step = startup_reply(&mut startup, StartupReply::Serving);
    loop {
        let reply = match step {
            Some(StartupStep::Perform(StartupAction::Probe {
                url,
                deadline_seconds,
            })) => {
                assert_eq!(url, "http://127.3.20.1:8080/");
                assert_eq!(deadline_seconds, 10_000);
                made += 1;
                StartupReply::Probed(probes.next().unwrap())
            }
            Some(StartupStep::Perform(StartupAction::Wait { millis })) => {
                waited += millis;
                StartupReply::Waited
            }
            Some(StartupStep::Finish(result)) => {
                assert_eq!(startup.stage, StartupStage::Finished);
                assert!(startup_reply(&mut startup, StartupReply::Waited).is_none());
                return (made, waited, result);
            }
            _ => panic!("expected a probe, a wait or the end"),
        };
        step = startup_reply(&mut startup, reply);
    }
}

#[test]
fn servers_listen_on_the_server_port() {
    let (startup, _) = Server::new(ip());
    assert_eq!(startup.server.address.port, 8080);
    assert_eq!(startup.server.address.ip, ip());
    assert_eq!(server().url(), "http://127.3.20.1:8080");
    assert_eq!(server().ready_url(), "http://127.3.20.1:8080/");
}

#[test]
fn a_server_is_handed_out_when_it_is_ready() {
    let refused = || Ok(Err("refused".to_string()));
    let (made, waited, result) = start(vec![Ok(Ok(1))]);
    assert_eq!((made, waited), (1, 0));
    assert_eq!(result.unwrap().address, server().address);
    let (made, waited, result) = start(vec![refused(), refused(), Ok(Ok(1)), Err(())]);
    assert_eq!((made, waited), (3, 200));
    assert_eq!(result.unwrap().address, server().address);
    let (made, waited, result) = start(vec![refused(), Err(()), Ok(Ok(1))]);
    assert_eq!((made, waited), (2, 100));
    assert_eq!(result.err(), Some(ReadyError::TimedOut));
}

#[test]
fn a_start_ignores_replies_out_of_turn() {
    let (mut startup, _) = Server::new(ip());
    assert!(startup_reply(&mut startup, StartupReply::Probed(Ok(Ok(1)))).is_none());
    assert!(startup_reply(&mut startup, StartupReply::Waited).is_none());
    assert_eq!(startup.stage, StartupStage::BeginningToServe);
}

#[test]
fn probing_ends_with_the_first_answer() {
    let probes: Vec<Result<Result<u8, &str>, ()>> = vec![Ok(Err("refused")), Ok(Err("refused")), Ok(Ok(1)), Err(())];
    let steps: Vec<ReadyStep> = probes.iter().map(|p| server().wait_ready(p)).collect();
    assert_eq!(
        steps,
        vec![
            ReadyStep::ProbeAgain { after_millis: 100 },
            ReadyStep::ProbeAgain { after_millis: 100 },
            ReadyStep::Ready,
            ReadyStep::Fail(ReadyError::TimedOut),
        ]
    );
    assert_eq!(ReadyError::TimedOut.message(), "Timed out before ready.");
    assert_eq!(READY_DEADLINE_SECONDS, 10_000);
}

fn check_at(stage: SocketStage) -> SocketCheck {
    SocketCheck {
        url: "ws://host/".to_string(),
        stage,
    }
}

fn aborted(stage: SocketStage, reply: SocketReply<&str>) -> String {
    let mut check = check_at(stage);
    match check.step(reply) {
        Some(SocketStep::Abort { message, error: "e" }) => {
            assert_eq!(check.stage, SocketStage::Finished);
            message
        }
        _ => panic!("expected the check to be given up"),
    }
}

#[test]
fn web_sockets_are_checked_with_numbers() {
    let (mut check, action) = server().wait_ready_socket();
    assert!(matches!(action, SocketAction::Connect { address } if address == server().address));
    let step = check.step::<String>(SocketReply::Connected(Ok(())));
    assert!(
        matches!(step, Some(SocketStep::Perform(SocketAction::Open { url })) if url == "ws://127.3.20.1:8080/")
    );
    let mut step = check.step::<String>(SocketReply::Opened(Ok(())));
    for number in ["1", "2", "3", "4", "5"] {
        assert!(
            matches!(step, Some(SocketStep::Perform(SocketAction::Send { message })) if message == number)
        );
        step = check.step::<String>(SocketReply::Sent(Ok(())));
    }
    assert!(matches!(
        step,
        Some(SocketStep::Perform(SocketAction::Receive { messages: 5 }))
    ));
    let step = check.step::<String>(SocketReply::Received);
    assert!(matches!(step, Some(SocketStep::Perform(SocketAction::Close))));
    let step = check.step::<String>(SocketReply::Closed(Ok(())));
    assert!(matches!(step, Some(SocketStep::Finish)));
    assert!(check.step::<String>(SocketReply::Closed(Ok(()))).is_none());
}

#[test]
fn failures_end_the_check_of_web_sockets() {
    assert_eq!(
        aborted(SocketStage::Connecting, SocketReply::Connected(Err("e"))),
        "failed to connect"
    );
    assert_eq!(
        aborted(SocketStage::Opening, SocketReply::Opened(Err("e"))),
        "client failed to connect"
    );
    assert_eq!(
        aborted(SocketStage::Sending { sent: 3 }, SocketReply::Sent(Err("e"))),
        "Failed to send message"
    );
    assert_eq!(
        aborted(SocketStage::Closing, SocketReply::Closed(Err("e"))),
        "Failed to close"
    );
}

#[test]
fn the_check_ignores_replies_out_of_turn() {
    let mut check = check_at(SocketStage::Opening);
    assert!(check.step::<String>(SocketReply::Received).is_none());
    assert!(check.step::<String>(SocketReply::Sent(Err("e".to_string()))).is_none());
    assert_eq!(check.stage, SocketStage::Opening);
    let mut check = check_at(SocketStage::Sending { sent: usize::MAX });
    let step = check.step::<String>(SocketReply::Sent(Ok(())));
    assert!(matches!(step, Some(SocketStep::Perform(SocketAction::Receive { messages: 5 }))));
}

#[test]
fn addresses_of_web_sockets_get_an_empty_path() {
    for n in 0..=255u8 {
        for port in [0u16, 1, 79, 81, 443, 8080, 65535] {
            let server = Server {
                address: SocketAddress {
                    ip: Ipv4Address {
                        a: n,
                        b: 255 - n,
                        c: n / 2,
                        d: n,
                    },
                    port,
                },
            };
            let (check, _) = server.wait_ready_socket();
            assert_eq!(check.url, format!("ws://{}/", server.address.to_text()));
        }
    }
}

#[test]
fn the_usual_port_of_web_sockets_is_left_out() {
    for n in 0..=255u8 {
        let mut usual = server();
        usual.address.ip.d = n;
        usual.address.port = 80;
        let (check, action) = usual.wait_ready_socket();
        assert_eq!(check.url, format!("ws://127.3.20.{}/", n));
        assert!(matches!(action, SocketAction::Connect { address } if address == usual.address));
    }
}

fn startup_of(
    startup: SocketStartup,
    reply: SocketStartupReply<&'static str>,
) -> (SocketStartup, Option<SocketStartupStep<&'static str>>) {
    startup.step(reply)
}

#[test]
fn a_server_of_web_sockets_is_handed_out_when_it_is_ready() {
    let (startup, action) = Server::serve_web_sockets(ip());
    assert!(matches!(action, SocketStartupAction::Bind { address } if address == server().address));
    let (startup, step) = startup_of(startup, SocketStartupReply::Bound(Ok(())));
    match step {
        Some(SocketStartupStep::Perform(SocketStartupAction::Serve { echo, action })) => {
            assert_eq!(echo.stage, EchoStage::Accepting);
            assert!(matches!(action, EchoAction::Accept));
        }
        _ => panic!("expected web sockets to be served"),
    }
    let (mut startup, step) = startup_of(startup, SocketStartupReply::Serving);
    assert!(matches!(
        step,
        Some(SocketStartupStep::Perform(SocketStartupAction::Check(SocketAction::Connect { .. })))
    ));
    let mut replies = vec![
        SocketReply::Connected(Ok(())),
        SocketReply::Opened(Ok(())),
    ];
    for _ in 0..5 {
        replies.push(SocketReply::Sent(Ok(())));
    }
    replies.push(SocketReply::Received);
    for reply in replies {
        let (next, step) = startup_of(startup, SocketStartupReply::Checked(reply));
        assert!(matches!(
            step,
            Some(SocketStartupStep::Perform(SocketStartupAction::Check(_)))
        ));
        startup = next;
    }
    let closed = SocketStartupReply::Checked(SocketReply::Closed(Ok(())));
    let (startup, step) = startup_of(startup, closed);
    match step {
        Some(SocketStartupStep::Finish(ready)) => assert_eq!(ready.address, server().address),
        _ => panic!("expected the server"),
    }
    let closed = SocketStartupReply::Checked(SocketReply::Closed(Ok(())));
    assert!(startup_of(startup, closed).1.is_none());
}

#[test]
fn failures_end_the_start_of_web_sockets() {
    let (startup, _) = Server::serve_web_sockets(ip());
    let (startup, step) = startup_of(startup, SocketStartupReply::Bound(Err("e")));
    assert!(
        matches!(step, Some(SocketStartupStep::Abort { message, error: "e" }) if message == "failed to bind")
    );
    assert!(matches!(startup.stage, SocketStartupStage::Finished));
    assert!(startup_of(startup, SocketStartupReply::Serving).1.is_none());
    let startup = SocketStartup {
        server: server(),
        stage: SocketStartupStage::Checking(check_at(SocketStage::Opening)),
    };
    let failed = SocketStartupReply::Checked(SocketReply::Opened(Err("e")));
    let (startup, step) = startup_of(startup, failed);
    assert!(
        matches!(step, Some(SocketStartupStep::Abort { message, error: "e" }) if message == "client failed to connect")
    );
    let closed = SocketStartupReply::Checked(SocketReply::Closed(Ok(())));
    assert!(startup_of(startup, closed).1.is_none());
}

#[test]
fn web_sockets_are_served_one_after_the_other() {
    let mut echo = EchoServer {
        stage: EchoStage::Accepting,
    };
    for _ in 0..3 {
        let step = echo.step::<String>(EchoReply::Accepted(Ok(())));
        assert!(matches!(step, Some(EchoStep::Perform(EchoAction::Open))));
        let step = echo.step::<String>(EchoReply::Opened(Ok(())));
        assert!(matches!(step, Some(EchoStep::Perform(EchoAction::Echo))));
        let step = echo.step::<String>(EchoReply::Echoed(Ok(())));
        assert!(matches!(step, Some(EchoStep::Perform(EchoAction::Accept))));
    }
    let step = echo.step::<String>(EchoReply::Accepted(Err("closed".to_string())));
    assert!(matches!(step, Some(EchoStep::Stop)));
    assert!(echo.step::<String>(EchoReply::Accepted(Ok(()))).is_none());
}

#[test]
fn failures_end_the_serving_of_web_sockets() {
    let cases: Vec<(EchoStage, EchoReply<&str>, &str)> = vec![
        (
            EchoStage::Opening,
            EchoReply::Opened(Err("e")),
            "Error during the websocket handshake occurred",
        ),
        (
            EchoStage::Echoing,
            EchoReply::Echoed(Err("e")),
            "Failed to forward messages",
        ),
    ];
    for (stage, reply, expected) in cases {
        let mut echo = EchoServer { stage };
        match echo.step(reply) {
            Some(EchoStep::Abort { message, error: "e" }) => assert_eq!(message, expected),
            _ => panic!("expected the serving to be given up"),
        }
        assert_eq!(echo.stage, EchoStage::Stopped);
    }
}

#[test]
fn messages_with_data_are_echoed() {
    let echoed: Vec<bool> = [
        MessageKind::Text,
        MessageKind::Binary,
        MessageKind::Ping,
        MessageKind::Pong,
        MessageKind::Close,
        MessageKind::Frame,
    ]
    .iter()
    .map(|kind| kind.is_echoed())
    .collect();
    assert_eq!(echoed, vec![true, true, false, false, false, false]);
}
