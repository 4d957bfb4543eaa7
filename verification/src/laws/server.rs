//! Laws on servers at a loopback address.
use crate::net::Ipv4Address;
use crate::server::{
    EchoReply, EchoServer, EchoStage, EchoStep, MessageKind, ReadyError, ReadyStep,
    Server, SocketAction, SocketCheck, SocketReply, SocketStage, SocketStartup,
    SocketStartupAction, SocketStartupReply, SocketStartupStage, SocketStartupStep, SocketStep,
    Startup, StartupAction, StartupReply, StartupStage, StartupStep,
};
use crate::text;
use vstd::prelude::*;

verus! {

/// A server is reached over HTTP at its address, and probed at the root.
pub proof fn law_server_is_reached_at_its_address(server: Server, url: String, ready_url: String)
    requires
        call_ensures(Server::url, (&server,), url),
        call_ensures(Server::ready_url, (&server,), ready_url),
    ensures
        url@ == "http://"@ + server.address.ip.dotted() + ":"@ + text::decimal(
            server.address.port as nat,
        ),
        ready_url@ == url@ + "/"@,
{
    assert(url@ =~= "http://"@ + server.address.ip.dotted() + ":"@ + text::decimal(
        server.address.port as nat,
    ));
}

/// A probe that was answered finds the server ready, one that failed leads to another after a tenth
/// of a second, and one that the deadline overtook is an error.
pub proof fn law_probe_decides<T, E, D>(
    server: Server,
    probe: Result<Result<T, E>, D>,
    step: ReadyStep,
)
    requires
        call_ensures(Server::wait_ready::<T, E, D>, (&server, &probe), step),
    ensures
        step is Ready <==> probe is Ok && probe->Ok_0 is Ok,
        step is ProbeAgain <==> probe is Ok && probe->Ok_0 is Err,
        step is ProbeAgain ==> step->after_millis == 100,
        step is Fail <==> probe is Err,
{
}

/// A server is started at port 8080 of its address: it serves there first.
pub proof fn law_server_starts_at_its_port(
    ip: Ipv4Address,
    started: (Startup, StartupAction),
    sockets: (SocketStartup, SocketStartupAction),
)
    requires
        call_ensures(Server::new, (ip,), started),
        call_ensures(Server::serve_web_sockets, (ip,), sockets),
    ensures
        started.0.server.address.ip == ip,
        started.0.server.address.port == 8080,
        started.0.stage is BeginningToServe,
        started.1 is Serve,
        started.1->Serve_address == started.0.server.address,
        sockets.0.server.address.ip == ip,
        sockets.0.server.address.port == 8080,
        sockets.0.stage is Binding,
        sockets.1 is Bind,
        sockets.1->Bind_address == sockets.0.server.address,
{
}

/// A server that serves is probed at its root until the deadline; it is handed out when a probe was
/// answered; it is probed again, a tenth of a second later, when one failed; and its start fails when
/// the deadline has passed. What the start does not wait for changes nothing.
pub proof fn law_start_follows_the_replies<T, E, D>(
    startup: &mut Startup,
    reply: StartupReply<T, E, D>,
    step: Option<StartupStep>,
)
    requires
        call_ensures(Startup::step::<T, E, D>, (startup, reply), step),
    ensures
        final(startup).server == old(startup).server,
        match (old(startup).stage, reply) {
            (StartupStage::BeginningToServe, StartupReply::Serving)
            | (StartupStage::Waiting, StartupReply::Waited) => {
                &&& final(startup).stage is Probing
                &&& step is Some && step->0 is Perform && step->0->Perform_0 is Probe
                &&& step->0->Perform_0->url@ == "http://"@ + old(
                    startup,
                ).server.address.ip.dotted() + ":"@ + text::decimal(
                    old(startup).server.address.port as nat,
                ) + "/"@
                &&& step->0->Perform_0->deadline_seconds == 10_000
            },
            (StartupStage::Probing, StartupReply::Probed(Ok(Ok(_)))) => {
                &&& final(startup).stage is Finished
                &&& step == Some(StartupStep::Finish(Ok(old(startup).server)))
            },
            (StartupStage::Probing, StartupReply::Probed(Ok(Err(_)))) => {
                &&& final(startup).stage is Waiting
                &&& step is Some && step->0 is Perform && step->0->Perform_0 is Wait
                &&& step->0->Perform_0->millis == 100
            },
            (StartupStage::Probing, StartupReply::Probed(Err(_))) => {
                &&& final(startup).stage is Finished
                &&& step == Some(StartupStep::Finish(Err(ReadyError::TimedOut)))
            },
            _ => final(startup).stage == old(startup).stage && step is None,
        },
{
    let address = old(startup).server.address;
    assert("http://"@ + address.text() + "/"@ =~= "http://"@ + address.ip.dotted() + ":"@
        + text::decimal(address.port as nat) + "/"@);
}

/// The check of a server of web sockets connects to the address of the server, for a URL that names
/// the address, and the port unless it is 80.
pub proof fn law_check_connects_to_the_server(server: Server, r: (SocketCheck, SocketAction))
    requires
        call_ensures(Server::wait_ready_socket, (&server,), r),
    ensures
        r.0.stage is Connecting,
        r.1 is Connect,
        r.1->address == server.address,
        server.address.port == 80 ==> r.0.url@ == "ws://"@ + server.address.ip.dotted() + "/"@,
        server.address.port != 80 ==> r.0.url@ == "ws://"@ + server.address.ip.dotted() + ":"@
            + text::decimal(server.address.port as nat) + "/"@,
{
    let address = server.address;
    assert("ws://"@ + address.text() + "/"@ =~= "ws://"@ + address.ip.dotted() + ":"@
        + text::decimal(address.port as nat) + "/"@);
}

/// The check opens a web socket at its URL, sends the numbers from one to five, one after the other,
/// awaits five messages, closes the socket, and then finds the server to be ready. A failure gives it
/// up with what could not be done and the failure; what it does not wait for changes nothing.
pub proof fn law_check_follows_the_replies<E>(
    check: &mut SocketCheck,
    reply: SocketReply<E>,
    step: Option<SocketStep<E>>,
)
    requires
        call_ensures(SocketCheck::step::<E>, (check, reply), step),
    ensures
        final(check).url@ == old(check).url@,
        match (old(check).stage, reply) {
            (SocketStage::Connecting, SocketReply::Connected(Ok(_))) => {
                &&& final(check).stage is Opening
                &&& step is Some && step->0 is Perform && step->0->Perform_0 is Open
                &&& step->0->Perform_0->url@ == old(check).url@
            },
            (SocketStage::Opening, SocketReply::Opened(Ok(_))) => {
                &&& final(check).stage == SocketStage::Sending { sent: 0 }
                &&& step is Some && step->0 is Perform && step->0->Perform_0 is Send
                &&& step->0->Perform_0->Send_message@ == seq!['1']
            },
            (SocketStage::Sending { sent }, SocketReply::Sent(Ok(_))) => {
                &&& sent < 4 ==> {
                    &&& final(check).stage is Sending && final(check).stage->sent == sent + 1
                    &&& step is Some && step->0 is Perform && step->0->Perform_0 is Send
                    &&& step->0->Perform_0->Send_message@ == seq![('2' as nat + sent) as char]
                }
                &&& sent >= 4 ==> {
                    &&& final(check).stage is Receiving
                    &&& step is Some && step->0 is Perform && step->0->Perform_0 is Receive
                    &&& step->0->Perform_0->messages == 5
                }
            },
            (SocketStage::Receiving, SocketReply::Received) => {
                &&& final(check).stage is Closing
                &&& step is Some && step->0 is Perform && step->0->Perform_0 is Close
            },
            (SocketStage::Closing, SocketReply::Closed(Ok(_))) => {
                final(check).stage is Finished && step is Some && step->0 is Finish
            },
            (SocketStage::Connecting, SocketReply::Connected(Err(error))) => {
                &&& final(check).stage is Finished
                &&& step is Some && step->0 is Abort && step->0->error == error
                &&& step->0->Abort_message@ == "failed to connect"@
            },
            (SocketStage::Opening, SocketReply::Opened(Err(error))) => {
                &&& final(check).stage is Finished
                &&& step is Some && step->0 is Abort && step->0->error == error
                &&& step->0->Abort_message@ == "client failed to connect"@
            },
            (SocketStage::Sending { .. }, SocketReply::Sent(Err(error))) => {
                &&& final(check).stage is Finished
                &&& step is Some && step->0 is Abort && step->0->error == error
                &&& step->0->Abort_message@ == "Failed to send message"@
            },
            (SocketStage::Closing, SocketReply::Closed(Err(error))) => {
                &&& final(check).stage is Finished
                &&& step is Some && step->0 is Abort && step->0->error == error
                &&& step->0->Abort_message@ == "Failed to close"@
            },
            _ => final(check).stage == old(check).stage && step is None,
        },
{
}

/// A server of web sockets sends back texts and binary messages, and nothing else.
pub proof fn law_messages_with_data_are_echoed(kind: MessageKind, r: bool)
    requires
        call_ensures(MessageKind::is_echoed, (&kind,), r),
    ensures
        kind is Text || kind is Binary ==> r,
        kind is Ping || kind is Pong || kind is Close || kind is Frame ==> !r,
{
}

/// A server of web sockets accepts a connection, opens a web socket over it, echoes until it ends, and
/// accepts the next connection. It stops when it can accept none. A failure gives it up with what
/// could not be done and the failure; what it does not wait for changes nothing.
pub proof fn law_echo_follows_the_replies<E>(
    echo: &mut EchoServer,
    reply: EchoReply<E>,
    step: Option<EchoStep<E>>,
)
    requires
        call_ensures(EchoServer::step::<E>, (echo, reply), step),
    ensures
        match (old(echo).stage, reply) {
            (EchoStage::Accepting, EchoReply::Accepted(Ok(_))) => {
                &&& final(echo).stage is Opening
                &&& step is Some && step->0 is Perform && step->0->Perform_0 is Open
            },
            (EchoStage::Accepting, EchoReply::Accepted(Err(_))) => {
                final(echo).stage is Stopped && step is Some && step->0 is Stop
            },
            (EchoStage::Opening, EchoReply::Opened(Ok(_))) => {
                &&& final(echo).stage is Echoing
                &&& step is Some && step->0 is Perform && step->0->Perform_0 is Echo
            },
            (EchoStage::Echoing, EchoReply::Echoed(Ok(_))) => {
                &&& final(echo).stage is Accepting
                &&& step is Some && step->0 is Perform && step->0->Perform_0 is Accept
            },
            (EchoStage::Opening, EchoReply::Opened(Err(error))) => {
                &&& final(echo).stage is Stopped
                &&& step is Some && step->0 is Abort && step->0->error == error
                &&& step->0->message@ == "Error during the websocket handshake occurred"@
            },
            (EchoStage::Echoing, EchoReply::Echoed(Err(error))) => {
                &&& final(echo).stage is Stopped
                &&& step is Some && step->0 is Abort && step->0->error == error
                &&& step->0->message@ == "Failed to forward messages"@
            },
            _ => final(echo).stage == old(echo).stage && step is None,
        },
{
}

/// A server of web sockets serves once its address is bound, and is checked once it serves. It is
/// handed out when its check finds it to be ready, and given up when the address cannot be bound or
/// when its check gives up.
pub proof fn law_socket_start_follows_the_replies<E>(
    startup: SocketStartup,
    reply: SocketStartupReply<E>,
    r: (SocketStartup, Option<SocketStartupStep<E>>),
)
    requires
        call_ensures(SocketStartup::step::<E>, (startup, reply), r),
    ensures
        r.0.server == startup.server,
        match (startup.stage, reply) {
            (SocketStartupStage::Binding, SocketStartupReply::Bound(Ok(_))) => {
                &&& r.0.stage is BeginningToServe
                &&& r.1 is Some && r.1->0 is Perform && r.1->0->Perform_0 is Serve
                &&& r.1->0->Perform_0->echo.stage is Accepting
                &&& r.1->0->Perform_0->action is Accept
            },
            (SocketStartupStage::Binding, SocketStartupReply::Bound(Err(error))) => {
                &&& r.0.stage is Finished
                &&& r.1 is Some && r.1->0 is Abort && r.1->0->error == error
                &&& r.1->0->message@ == "failed to bind"@
            },
            (SocketStartupStage::BeginningToServe, SocketStartupReply::Serving) => {
                &&& r.0.stage is Checking
                &&& r.0.stage->Checking_0.stage is Connecting
                &&& r.1 is Some && r.1->0 is Perform && r.1->0->Perform_0 is Check
                &&& r.1->0->Perform_0->Check_0 is Connect
                &&& r.1->0->Perform_0->Check_0->address == startup.server.address
                &&& startup.server.address.port == 80 ==> r.0.stage->Checking_0.url@ == "ws://"@
                    + startup.server.address.ip.dotted() + "/"@
                &&& startup.server.address.port != 80 ==> r.0.stage->Checking_0.url@ == "ws://"@
                    + startup.server.address.ip.dotted() + ":"@ + text::decimal(
                    startup.server.address.port as nat,
                ) + "/"@
            },
            (SocketStartupStage::Checking(check), SocketStartupReply::Checked(checked)) => {
                &&& r.0.stage is Checking
                &&& r.1 is Some && r.1->0 is Finish <==> check.stage is Closing && checked is Closed
                    && checked->Closed_0 is Ok
                &&& r.1 is Some && r.1->0 is Finish ==> r.1->0->Finish_0 == startup.server
                &&& r.1 is Some && r.1->0 is Perform ==> r.1->0->Perform_0 is Check
                &&& r.1 is Some && r.1->0 is Abort <==> match (
                    check.stage,
                    checked,
                ) {
                    (SocketStage::Connecting, SocketReply::Connected(Err(_)))
                    | (SocketStage::Opening, SocketReply::Opened(Err(_)))
                    | (SocketStage::Sending { .. }, SocketReply::Sent(Err(_)))
                    | (SocketStage::Closing, SocketReply::Closed(Err(_))) => true,
                    _ => false,
                }
            },
            _ => r.0.stage == startup.stage && r.1 is None,
        },
{
    let address = startup.server.address;
    assert("ws://"@ + address.text() + "/"@ =~= "ws://"@ + address.ip.dotted() + ":"@
        + text::decimal(address.port as nat) + "/"@);
}

/// The start of a server of web sockets asks, while it checks, for what the check by itself asks for.
pub proof fn law_socket_start_asks_for_what_its_check_asks_for<E>(
    startup: SocketStartup,
    checked: SocketReply<E>,
    r: (SocketStartup, Option<SocketStartupStep<E>>),
    check: &mut SocketCheck,
    step: Option<SocketStep<E>>,
)
    requires
        startup.stage == SocketStartupStage::Checking(*old(check)),
        call_ensures(
            SocketStartup::step::<E>,
            (startup, SocketStartupReply::Checked(checked)),
            r,
        ),
        call_ensures(SocketCheck::step::<E>, (check, checked), step),
    ensures
        r.0.stage is Checking,
        r.0.stage->Checking_0.url@ == final(check).url@,
        r.0.stage->Checking_0.stage == final(check).stage,
        match (r.1, step) {
            (
                Some(SocketStartupStep::Perform(SocketStartupAction::Check(asked))),
                Some(SocketStep::Perform(action)),
            ) => match (asked, action) {
                (SocketAction::Connect { address: x }, SocketAction::Connect { address: y }) => x
                    == y,
                (SocketAction::Open { url: x }, SocketAction::Open { url: y }) => x@ == y@,
                (SocketAction::Send { message: x }, SocketAction::Send { message: y }) => x@ == y@,
                (SocketAction::Receive { messages: x }, SocketAction::Receive { messages: y }) => x
                    == y,
                (SocketAction::Close, SocketAction::Close) => true,
                _ => false,
            },
            (Some(SocketStartupStep::Finish(_)), Some(SocketStep::Finish)) => true,
            (
                Some(SocketStartupStep::Abort { message: x, error: e }),
                Some(SocketStep::Abort { message: y, error: f }),
            ) => x@ == y@ && e == f,
            (None, None) => true,
            _ => false,
        },
{
}

} // verus!
