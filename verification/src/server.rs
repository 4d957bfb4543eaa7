//! Servers on a loopback address: where they are reached, how it is found out that they are ready,
//! and which messages they echo.
use crate::net::{Ipv4Address, SocketAddress};
use crate::text;
use vstd::prelude::*;
use vstd::string::*;

verus! {

/// The port on which servers listen.
pub const SERVER_PORT: u16 = 8080;

/// How long a server is given to become ready.
pub const READY_DEADLINE_SECONDS: u64 = 10_000;

/// How long to wait between two probes of a server that is not ready.
pub const READY_POLL_MILLIS: u64 = 100;

/// How many messages are sent to a server of web sockets to find out whether it is ready, and how
/// many are awaited.
pub const MAX_MESSAGES: usize = 5;

/// A server.
#[derive(Debug, Clone, Copy)]
pub struct Server {
    pub address: SocketAddress,
}

/// Why a server is not ready.
#[derive(Debug, Clone, Copy, PartialEq, Eq, Structural)]
pub enum ReadyError {
    /// The deadline has passed.
    TimedOut,
}

impl ReadyError {
    /// What the error says.
    pub fn message(&self) -> (message: String)
        ensures
            message@ == "Timed out before ready."@,
    {
        "Timed out before ready.".to_owned()
    }
}

/// What to do after a probe of a server.
#[derive(Debug, Clone, Copy, PartialEq, Eq, Structural)]
pub enum ReadyStep {
    Ready,
    ProbeAgain { after_millis: u64 },
    Fail(ReadyError),
}

/// What follows a probe: an answer makes the server ready, a failure leads to the next probe, and
/// the passing of the deadline to an error.
pub open spec fn ready_next<T, E, D>(probe: Result<Result<T, E>, D>) -> ReadyStep {
    match probe {
        Ok(Ok(_)) => ReadyStep::Ready,
        Ok(Err(_)) => ReadyStep::ProbeAgain { after_millis: READY_POLL_MILLIS },
        Err(_) => ReadyStep::Fail(ReadyError::TimedOut),
    }
}

/// What starting a server asks for.
#[derive(Debug)]
pub enum StartupAction {
    /// Serve at an address, in the background.
    Serve { address: SocketAddress },
    /// Probe the server, until the deadline: so many seconds after the first probe began.
    Probe { url: String, deadline_seconds: u64 },
    Wait { millis: u64 },
}

/// What came of something that was asked for.
pub enum StartupReply<T, E, D> {
    Serving,
    /// The probe was answered, or failed, or was overtaken by the deadline.
    Probed(Result<Result<T, E>, D>),
    Waited,
}

/// What to do next while a server is being started.
#[derive(Debug)]
pub enum StartupStep {
    Perform(StartupAction),
    /// Hand out the server, which is ready, or say why it is not.
    Finish(Result<Server, ReadyError>),
}

/// What the start of a server waits for.
#[derive(Debug, Clone, Copy, PartialEq, Eq, Structural)]
pub enum StartupStage {
    BeginningToServe,
    Probing,
    Waiting,
    Finished,
}

/// A server that is being started.
#[derive(Debug)]
pub struct Startup {
    pub server: Server,
    pub stage: StartupStage,
}

/// Whether a step probes a server.
pub open spec fn probes_server(step: Option<StartupStep>, server: Server) -> bool {
    step matches Some(StartupStep::Perform(StartupAction::Probe { url, deadline_seconds })) && url@
        == "http://"@ + server.address.text() + "/"@ && deadline_seconds == READY_DEADLINE_SECONDS
}

/// How the start of a server goes on with a reply: the server is probed until it is found to be
/// ready, and handed out only then. A reply for which the start does not wait changes nothing.
pub open spec fn startup_step<T, E, D>(
    before: Startup,
    reply: StartupReply<T, E, D>,
    after: Startup,
    step: Option<StartupStep>,
) -> bool {
    &&& after.server == before.server
    &&& match (before.stage, reply) {
        (StartupStage::BeginningToServe, StartupReply::Serving) | (
            StartupStage::Waiting,
            StartupReply::Waited,
        ) => {
            &&& after.stage is Probing
            &&& probes_server(step, before.server)
        },
        (StartupStage::Probing, StartupReply::Probed(probe)) => match ready_next(probe) {
            ReadyStep::Ready => {
                &&& after.stage is Finished
                &&& step == Some(StartupStep::Finish(Ok(before.server)))
            },
            ReadyStep::ProbeAgain { after_millis } => {
                &&& after.stage is Waiting
                &&& step == Some(StartupStep::Perform(StartupAction::Wait { millis: after_millis }))
            },
            ReadyStep::Fail(error) => {
                &&& after.stage is Finished
                &&& step == Some(StartupStep::Finish(Err(error)))
            },
        },
        _ => after.stage == before.stage && step is None,
    }
}

impl Startup {
    /// Goes on to probe the server.
    fn probe(&mut self) -> (step: Option<StartupStep>)
        ensures
            final(self).server == old(self).server,
            final(self).stage is Probing,
            probes_server(step, old(self).server),
    {
        self.stage = StartupStage::Probing;
        let url = self.server.ready_url();
        Some(
            StartupStep::Perform(
                StartupAction::Probe { url, deadline_seconds: READY_DEADLINE_SECONDS },
            ),
        )
    }

    /// Takes a reply, and says what to do next. There is nothing to do for a reply that is not
    /// waited for.
    pub fn step<T, E, D>(&mut self, reply: StartupReply<T, E, D>) -> (step: Option<StartupStep>)
        ensures
            startup_step(*old(self), reply, *final(self), step),
    {
        match (self.stage, reply) {
            (StartupStage::BeginningToServe, StartupReply::Serving) => self.probe(),
            (StartupStage::Waiting, StartupReply::Waited) => self.probe(),
            (StartupStage::Probing, StartupReply::Probed(probe)) => {
                match self.server.wait_ready(&probe) {
                    ReadyStep::Ready => {
                        self.stage = StartupStage::Finished;
                        Some(StartupStep::Finish(Ok(self.server)))
                    },
                    ReadyStep::ProbeAgain { after_millis } => {
                        self.stage = StartupStage::Waiting;
                        Some(StartupStep::Perform(StartupAction::Wait { millis: after_millis }))
                    },
                    ReadyStep::Fail(error) => {
                        self.stage = StartupStage::Finished;
                        Some(StartupStep::Finish(Err(error)))
                    },
                }
            },
            _ => None,
        }
    }
}

/// What finding out whether a server of web sockets is ready asks for.
#[derive(Debug)]
pub enum SocketAction {
    Connect { address: SocketAddress },
    /// Open a web socket over the connection.
    Open { url: String },
    Send { message: String },
    /// Await messages, whatever they hold.
    Receive { messages: usize },
    Close,
}

/// What came of something that was asked for.
pub enum SocketReply<E> {
    Connected(Result<(), E>),
    Opened(Result<(), E>),
    Sent(Result<(), E>),
    Received,
    Closed(Result<(), E>),
}

/// What to do next while a server of web sockets is being checked.
pub enum SocketStep<E> {
    Perform(SocketAction),
    /// The server is ready.
    Finish,
    /// Give up with a message: a server that cannot be talked to is a fault.
    Abort { message: String, error: E },
}

/// What the check of a server of web sockets waits for.
#[derive(Debug, Clone, Copy, PartialEq, Eq, Structural)]
pub enum SocketStage {
    Connecting,
    Opening,
    /// A message is being sent, after as many as `sent`.
    Sending { sent: usize },
    Receiving,
    Closing,
    Finished,
}

/// A server of web sockets that is being checked.
#[derive(Debug)]
pub struct SocketCheck {
    pub url: String,
    pub stage: SocketStage,
}

/// The URL of the web sockets at an address. The port that goes without saying is left out.
pub open spec fn socket_url(address: SocketAddress) -> Seq<char> {
    if address.port == 80 {
        "ws://"@ + address.ip.dotted() + "/"@
    } else {
        "ws://"@ + address.text() + "/"@
    }
}

/// How the check of a server of web sockets begins.
pub open spec fn socket_check_started(
    address: SocketAddress,
    check: SocketCheck,
    action: SocketAction,
) -> bool {
    &&& check.url@ == socket_url(address)
    &&& check.stage is Connecting
    &&& action == SocketAction::Connect { address }
}

/// Whether a step sends the given message.
pub open spec fn sends_message<E>(step: Option<SocketStep<E>>, message: Seq<char>) -> bool {
    step matches Some(SocketStep::Perform(SocketAction::Send { message: sent })) && sent@ == message
}

/// Whether a step gives up with the given message and error.
pub open spec fn aborts_check<E>(step: Option<SocketStep<E>>, message: Seq<char>, error: E) -> bool {
    step matches Some(SocketStep::Abort { message: m, error: e }) && m@ == message && e == error
}

/// How the check of a server of web sockets goes on with a reply: the numbers from one on are sent,
/// as many messages are awaited, and the socket is closed. A reply for which the check does not wait
/// changes nothing.
pub open spec fn socket_step<E>(
    before: SocketCheck,
    reply: SocketReply<E>,
    after: SocketCheck,
    step: Option<SocketStep<E>>,
) -> bool {
    &&& after.url == before.url
    &&& match (before.stage, reply) {
        (SocketStage::Connecting, SocketReply::Connected(Ok(_))) => {
            &&& after.stage is Opening
            &&& step matches Some(SocketStep::Perform(SocketAction::Open { url })) && url@
                == before.url@
        },
        (SocketStage::Opening, SocketReply::Opened(Ok(_))) => {
            &&& after.stage == SocketStage::Sending { sent: 0 }
            &&& sends_message(step, text::decimal(1))
        },
        (SocketStage::Sending { sent }, SocketReply::Sent(Ok(_))) => if sent + 1 < MAX_MESSAGES {
            &&& after.stage == SocketStage::Sending { sent: (sent + 1) as usize }
            &&& sends_message(step, text::decimal((sent + 2) as nat))
        } else {
            &&& after.stage is Receiving
            &&& step == Some(
                SocketStep::Perform::<E>(SocketAction::Receive { messages: MAX_MESSAGES }),
            )
        },
        (SocketStage::Receiving, SocketReply::Received) => {
            &&& after.stage is Closing
            &&& step == Some(SocketStep::Perform::<E>(SocketAction::Close))
        },
        (SocketStage::Closing, SocketReply::Closed(Ok(_))) => {
            &&& after.stage is Finished
            &&& step == Some(SocketStep::Finish::<E>)
        },
        (SocketStage::Connecting, SocketReply::Connected(Err(error))) => {
            &&& after.stage is Finished
            &&& aborts_check(step, "failed to connect"@, error)
        },
        (SocketStage::Opening, SocketReply::Opened(Err(error))) => {
            &&& after.stage is Finished
            &&& aborts_check(step, "client failed to connect"@, error)
        },
        (SocketStage::Sending { .. }, SocketReply::Sent(Err(error))) => {
            &&& after.stage is Finished
            &&& aborts_check(step, "Failed to send message"@, error)
        },
        (SocketStage::Closing, SocketReply::Closed(Err(error))) => {
            &&& after.stage is Finished
            &&& aborts_check(step, "Failed to close"@, error)
        },
        _ => after.stage == before.stage && step is None,
    }
}

impl SocketCheck {
    /// Ends the check with a message and an error.
    fn abort<E>(&mut self, message: &str, error: E) -> (step: Option<SocketStep<E>>)
        ensures
            final(self).url == old(self).url,
            final(self).stage is Finished,
            aborts_check(step, message@, error),
    {
        self.stage = SocketStage::Finished;
        Some(SocketStep::Abort { message: message.to_owned(), error })
    }

    /// Takes a reply, and says what to do next. There is nothing to do for a reply that is not
    /// waited for.
    pub fn step<E>(&mut self, reply: SocketReply<E>) -> (step: Option<SocketStep<E>>)
        ensures
            socket_step(*old(self), reply, *final(self), step),
    {
        match (self.stage, reply) {
            (SocketStage::Connecting, SocketReply::Connected(result)) => match result {
                Ok(_) => {
                    self.stage = SocketStage::Opening;
                    Some(SocketStep::Perform(SocketAction::Open { url: self.url.clone() }))
                },
                Err(error) => self.abort("failed to connect", error),
            },
            (SocketStage::Opening, SocketReply::Opened(result)) => match result {
                Ok(_) => {
                    self.stage = SocketStage::Sending { sent: 0 };
                    Some(SocketStep::Perform(SocketAction::Send { message: text::decimal_text(1) }))
                },
                Err(error) => self.abort("client failed to connect", error),
            },
            (SocketStage::Sending { sent }, SocketReply::Sent(result)) => match result {
                Ok(_) => if sent < MAX_MESSAGES - 1 {
                    self.stage = SocketStage::Sending { sent: sent + 1 };
                    let message = text::decimal_text(sent as u64 + 2);
                    Some(SocketStep::Perform(SocketAction::Send { message }))
                } else {
                    self.stage = SocketStage::Receiving;
                    Some(SocketStep::Perform(SocketAction::Receive { messages: MAX_MESSAGES }))
                },
                Err(error) => self.abort("Failed to send message", error),
            },
            (SocketStage::Receiving, SocketReply::Received) => {
                self.stage = SocketStage::Closing;
                Some(SocketStep::Perform(SocketAction::Close))
            },
            (SocketStage::Closing, SocketReply::Closed(result)) => match result {
                Ok(_) => {
                    self.stage = SocketStage::Finished;
                    Some(SocketStep::Finish)
                },
                Err(error) => self.abort("Failed to close", error),
            },
            _ => None,
        }
    }
}

/// What serving web sockets asks for.
#[derive(Debug, Clone, Copy)]
pub enum EchoAction {
    /// Accept the next connection.
    Accept,
    /// Open a web socket over the connection.
    Open,
    /// Send back what comes over the web socket and is echoed, until the web socket ends.
    Echo,
}

/// What came of something that was asked for.
pub enum EchoReply<E> {
    Accepted(Result<(), E>),
    Opened(Result<(), E>),
    Echoed(Result<(), E>),
}

/// What to do next while web sockets are served.
pub enum EchoStep<E> {
    Perform(EchoAction),
    /// No connection can be accepted any more.
    Stop,
    /// Give up with a message.
    Abort { message: String, error: E },
}

/// What a server of web sockets waits for.
#[derive(Debug, Clone, Copy, PartialEq, Eq, Structural)]
pub enum EchoStage {
    Accepting,
    Opening,
    Echoing,
    Stopped,
}

/// A server that sends back what comes over web sockets, one connection after the other.
#[derive(Debug)]
pub struct EchoServer {
    pub stage: EchoStage,
}

/// Whether a step gives up with the given message and error.
pub open spec fn aborts_echo<E>(step: Option<EchoStep<E>>, message: Seq<char>, error: E) -> bool {
    step matches Some(EchoStep::Abort { message: m, error: e }) && m@ == message && e == error
}

/// How a server of web sockets goes on with a reply. A reply for which it does not wait changes
/// nothing.
pub open spec fn echo_step<E>(
    before: EchoServer,
    reply: EchoReply<E>,
    after: EchoServer,
    step: Option<EchoStep<E>>,
) -> bool {
    match (before.stage, reply) {
        (EchoStage::Echoing, EchoReply::Echoed(Ok(_))) => {
            &&& after.stage is Accepting
            &&& step == Some(EchoStep::Perform::<E>(EchoAction::Accept))
        },
        (EchoStage::Accepting, EchoReply::Accepted(Ok(_))) => {
            &&& after.stage is Opening
            &&& step == Some(EchoStep::Perform::<E>(EchoAction::Open))
        },
        (EchoStage::Accepting, EchoReply::Accepted(Err(_))) => {
            &&& after.stage is Stopped
            &&& step == Some(EchoStep::Stop::<E>)
        },
        (EchoStage::Opening, EchoReply::Opened(Ok(_))) => {
            &&& after.stage is Echoing
            &&& step == Some(EchoStep::Perform::<E>(EchoAction::Echo))
        },
        (EchoStage::Opening, EchoReply::Opened(Err(error))) => {
            &&& after.stage is Stopped
            &&& aborts_echo(step, "Error during the websocket handshake occurred"@, error)
        },
        (EchoStage::Echoing, EchoReply::Echoed(Err(error))) => {
            &&& after.stage is Stopped
            &&& aborts_echo(step, "Failed to forward messages"@, error)
        },
        _ => after.stage == before.stage && step is None,
    }
}

impl EchoServer {
    /// Ends the serving with a message and an error.
    fn abort<E>(&mut self, message: &str, error: E) -> (step: Option<EchoStep<E>>)
        ensures
            final(self).stage is Stopped,
            aborts_echo(step, message@, error),
    {
        self.stage = EchoStage::Stopped;
        Some(EchoStep::Abort { message: message.to_owned(), error })
    }

    /// Takes a reply, and says what to do next. There is nothing to do for a reply that is not
    /// waited for.
    pub fn step<E>(&mut self, reply: EchoReply<E>) -> (step: Option<EchoStep<E>>)
        ensures
            echo_step(*old(self), reply, *final(self), step),
    {
        match (self.stage, reply) {
            (EchoStage::Accepting, EchoReply::Accepted(result)) => match result {
                Ok(_) => {
                    self.stage = EchoStage::Opening;
                    Some(EchoStep::Perform(EchoAction::Open))
                },
                Err(_) => {
                    self.stage = EchoStage::Stopped;
                    Some(EchoStep::Stop)
                },
            },
            (EchoStage::Opening, EchoReply::Opened(result)) => match result {
                Ok(_) => {
                    self.stage = EchoStage::Echoing;
                    Some(EchoStep::Perform(EchoAction::Echo))
                },
                Err(error) => self.abort("Error during the websocket handshake occurred", error),
            },
            (EchoStage::Echoing, EchoReply::Echoed(result)) => match result {
                Ok(_) => {
                    self.stage = EchoStage::Accepting;
                    Some(EchoStep::Perform(EchoAction::Accept))
                },
                Err(error) => self.abort("Failed to forward messages", error),
            },
            _ => None,
        }
    }
}

/// What a message of a web socket is.
#[derive(Debug, Clone, Copy, PartialEq, Eq, Structural)]
pub enum MessageKind {
    Text,
    Binary,
    Ping,
    Pong,
    Close,
    Frame,
}

impl MessageKind {
    /// Whether a server of web sockets sends the message back: it does with those that hold data.
    pub fn is_echoed(&self) -> (r: bool)
        ensures
            r == (self is Text || self is Binary),
    {
        match self {
            MessageKind::Text => true,
            MessageKind::Binary => true,
            _ => false,
        }
    }
}

/// The error of `url::Url::parse`, of which nothing is known.
#[verifier::external_type_specification]
#[verifier::external_body]
pub struct ExUrlParseError(url::ParseError);

/// Whether a text is the URL, without a path, of the web sockets at an address.
pub open spec fn is_bare_socket_url(input: Seq<char>) -> bool {
    exists|address: SocketAddress| input == "ws://"@ + #[trigger] address.text()
}

/// Calls `url::Url::parse` on a URL of web sockets that is made of an IPv4 address in dotted decimal
/// and a port. It accepts that URL, adds the empty path, and leaves out the port if it is 80, which
/// is the one that stands for web sockets.
#[verifier::external_body]
fn parse_url(input: &str) -> (r: Result<String, url::ParseError>)
    requires
        is_bare_socket_url(input@),
    ensures
        forall|address: SocketAddress|
            input@ == "ws://"@ + #[trigger] address.text() ==> r is Ok && r->Ok_0@ == socket_url(
                address,
            ),
{
    match url::Url::parse(input) {
        Ok(url) => Ok(String::from(url)),
        Err(error) => Err(error),
    }
}

/// What starting a server of web sockets asks for.
pub enum SocketStartupAction {
    Bind { address: SocketAddress },
    /// Serve web sockets at the bound address, in the background, beginning with an action.
    Serve { echo: EchoServer, action: EchoAction },
    /// Go on with the check that finds out whether the server is ready.
    Check(SocketAction),
}

/// What came of something that was asked for.
pub enum SocketStartupReply<E> {
    Bound(Result<(), E>),
    Serving,
    Checked(SocketReply<E>),
}

/// What to do next while a server of web sockets is being started.
pub enum SocketStartupStep<E> {
    Perform(SocketStartupAction),
    /// Hand out the server, which is ready.
    Finish(Server),
    /// Give up with a message.
    Abort { message: String, error: E },
}

/// What the start of a server of web sockets waits for.
pub enum SocketStartupStage {
    Binding,
    BeginningToServe,
    Checking(SocketCheck),
    Finished,
}

/// A server of web sockets that is being started.
pub struct SocketStartup {
    pub server: Server,
    pub stage: SocketStartupStage,
}

/// The step of the check that a step of the start carries on.
pub open spec fn check_part<E>(step: Option<SocketStartupStep<E>>) -> Option<SocketStep<E>> {
    match step {
        Some(SocketStartupStep::Perform(SocketStartupAction::Check(action))) => Some(
            SocketStep::Perform(action),
        ),
        Some(SocketStartupStep::Finish(_)) => Some(SocketStep::Finish),
        Some(SocketStartupStep::Abort { message, error }) => Some(
            SocketStep::Abort { message, error },
        ),
        _ => None,
    }
}

/// How the start of a server of web sockets goes on with a reply: the address is bound, web sockets
/// are served, and the server is checked; it is handed out once the check finds it to be ready. A
/// reply for which the start does not wait changes nothing.
pub open spec fn socket_startup_step<E>(
    before: SocketStartup,
    reply: SocketStartupReply<E>,
    after: SocketStartup,
    step: Option<SocketStartupStep<E>>,
) -> bool {
    &&& after.server == before.server
    &&& match (before.stage, reply) {
        (SocketStartupStage::Binding, SocketStartupReply::Bound(Ok(_))) => {
            &&& after.stage is BeginningToServe
            &&& step == Some(
                SocketStartupStep::Perform::<E>(
                    SocketStartupAction::Serve {
                        echo: EchoServer { stage: EchoStage::Accepting },
                        action: EchoAction::Accept,
                    },
                ),
            )
        },
        (SocketStartupStage::Binding, SocketStartupReply::Bound(Err(e))) => {
            &&& after.stage is Finished
            &&& step matches Some(SocketStartupStep::Abort { message, error }) && message@
                == "failed to bind"@ && error == e
        },
        (SocketStartupStage::BeginningToServe, SocketStartupReply::Serving) => {
            &&& after.stage matches SocketStartupStage::Checking(check)
            &&& step matches Some(SocketStartupStep::Perform(SocketStartupAction::Check(action)))
            &&& socket_check_started(before.server.address, check, action)
        },
        (SocketStartupStage::Checking(check), SocketStartupReply::Checked(checked)) => {
            &&& after.stage matches SocketStartupStage::Checking(next) && socket_step(
                check,
                checked,
                next,
                check_part(step),
            )
            &&& step is Some <==> check_part(step) is Some
            &&& step matches Some(SocketStartupStep::Finish(server)) ==> server == before.server
        },
        _ => after.stage == before.stage && step is None,
    }
}

impl SocketStartup {
    /// Takes a reply, and says what to do next. There is nothing to do for a reply that is not
    /// waited for.
    pub fn step<E>(self, reply: SocketStartupReply<E>) -> (r: (Self, Option<SocketStartupStep<E>>))
        ensures
            socket_startup_step(self, reply, r.0, r.1),
    {
        let server = self.server;
        let (stage, step) = match (self.stage, reply) {
            (SocketStartupStage::Binding, SocketStartupReply::Bound(result)) => match result {
                Ok(_) => {
                    let echo = EchoServer { stage: EchoStage::Accepting };
                    let action = SocketStartupAction::Serve { echo, action: EchoAction::Accept };
                    (
                        SocketStartupStage::BeginningToServe,
                        Some(SocketStartupStep::Perform(action)),
                    )
                },
                Err(error) => (
                    SocketStartupStage::Finished,
                    Some(
                        SocketStartupStep::Abort { message: "failed to bind".to_owned(), error },
                    ),
                ),
            },
            (SocketStartupStage::BeginningToServe, SocketStartupReply::Serving) => {
                let (check, action) = server.wait_ready_socket();
                (
                    SocketStartupStage::Checking(check),
                    Some(SocketStartupStep::Perform(SocketStartupAction::Check(action))),
                )
            },
            (SocketStartupStage::Checking(check), SocketStartupReply::Checked(checked)) => {
                let mut check = check;
                let step = match check.step(checked) {
                    Some(SocketStep::Perform(action)) => Some(
                        SocketStartupStep::Perform(SocketStartupAction::Check(action)),
                    ),
                    Some(SocketStep::Finish) => Some(SocketStartupStep::Finish(server)),
                    Some(SocketStep::Abort { message, error }) => Some(
                        SocketStartupStep::Abort { message, error },
                    ),
                    None => None,
                };
                (SocketStartupStage::Checking(check), step)
            },
            (stage, _) => (stage, None),
        };
        (SocketStartup { server, stage }, step)
    }
}

impl Server {
    /// The server at a loopback address.
    fn at(ip: Ipv4Address) -> (server: Self)
        ensures
            server.address == (SocketAddress { ip, port: SERVER_PORT }),
    {
        Server { address: SocketAddress { ip, port: SERVER_PORT } }
    }

    /// Begins to start a server at a loopback address: it serves first, and is probed then.
    pub fn new(ip: Ipv4Address) -> (r: (Startup, StartupAction))
        ensures
            r.0.server.address == (SocketAddress { ip, port: SERVER_PORT }),
            r.0.stage is BeginningToServe,
            r.1 == (StartupAction::Serve { address: r.0.server.address }),
    {
        let server = Server::at(ip);
        let action = StartupAction::Serve { address: server.address };
        (Startup { server, stage: StartupStage::BeginningToServe }, action)
    }

    /// Begins to start a server of web sockets at a loopback address: the address is bound first.
    pub fn serve_web_sockets(ip: Ipv4Address) -> (r: (SocketStartup, SocketStartupAction))
        ensures
            r.0.server.address == (SocketAddress { ip, port: SERVER_PORT }),
            r.0.stage is Binding,
            r.1 == (SocketStartupAction::Bind { address: r.0.server.address }),
    {
        let server = Server::at(ip);
        let action = SocketStartupAction::Bind { address: server.address };
        (SocketStartup { server, stage: SocketStartupStage::Binding }, action)
    }

    /// Where the server is reached.
    pub fn url(&self) -> (url: String)
        ensures
            url@ == "http://"@ + self.address.text(),
    {
        let mut url = "http://".to_owned();
        url.append(self.address.to_text().as_str());
        url
    }

    /// Where the server is probed.
    pub fn ready_url(&self) -> (url: String)
        ensures
            url@ == "http://"@ + self.address.text() + "/"@,
    {
        let mut url = self.url();
        url.append("/");
        url
    }

    /// Takes what came of a probe, within the deadline or not, and says what to do next.
    pub fn wait_ready<T, E, D>(&self, probe: &Result<Result<T, E>, D>) -> (step: ReadyStep)
        ensures
            step == ready_next(*probe),
    {
        match probe {
            Ok(Ok(_)) => ReadyStep::Ready,
            Ok(Err(_)) => ReadyStep::ProbeAgain { after_millis: READY_POLL_MILLIS },
            Err(_) => ReadyStep::Fail(ReadyError::TimedOut),
        }
    }

    /// Begins to check whether the server is ready, if it serves web sockets: a connection is made
    /// first.
    pub fn wait_ready_socket(&self) -> (r: (SocketCheck, SocketAction))
        ensures
            socket_check_started(self.address, r.0, r.1),
    {
        let mut url = "ws://".to_owned();
        url.append(self.address.to_text().as_str());
        assert(url@ == "ws://"@ + self.address.text());
        let url = parse_url(url.as_str()).unwrap();
        let check = SocketCheck { url, stage: SocketStage::Connecting };
        (check, SocketAction::Connect { address: self.address })
    }
}

/// How the probing of a server ends, if it does: with the first step after which there is no other
/// probe.
pub open spec fn ready_outcome<T, E, D>(
    probes: Seq<Result<Result<T, E>, D>>,
    i: nat,
) -> Option<ReadyStep>
    decreases probes.len() - i,
{
    if i >= probes.len() {
        None
    } else {
        match ready_next(probes[i as int]) {
            ReadyStep::ProbeAgain { .. } => ready_outcome(probes, i + 1),
            step => Some(step),
        }
    }
}

/// The probing of a server goes on as long as probes fail before the deadline, and ends with the
/// first one that does not: the server is ready exactly if that probe was answered.
pub proof fn law_probing_ends_with_first_answer<T, E, D>(
    probes: Seq<Result<Result<T, E>, D>>,
    i: nat,
    k: nat,
)
    requires
        i <= k < probes.len(),
        forall|j: int| i <= j < k ==> (#[trigger] probes[j]) matches Ok(Err(_)),
        !(probes[k as int] matches Ok(Err(_))),
    ensures
        ready_outcome(probes, i) == Some(
            if probes[k as int] is Ok {
                ReadyStep::Ready
            } else {
                ReadyStep::Fail(ReadyError::TimedOut)
            },
        ),
    decreases k - i,
{
    if i < k {
        assert(probes[i as int] matches Ok(Err(_)));
        law_probing_ends_with_first_answer(probes, i + 1, k);
    }
}

/// A server is handed out exactly when a probe of it was answered, and it is the one that was probed;
/// its start fails exactly when the deadline overtakes a probe.
pub proof fn law_server_is_handed_out_when_ready<T, E, D>(
    before: Startup,
    reply: StartupReply<T, E, D>,
    after: Startup,
    step: Option<StartupStep>,
)
    requires
        startup_step(before, reply, after, step),
    ensures
        step matches Some(StartupStep::Finish(Ok(_))) <==> before.stage is Probing && (
        reply matches StartupReply::Probed(Ok(Ok(_)))),
        step matches Some(StartupStep::Finish(Ok(server))) ==> server == before.server,
        step matches Some(StartupStep::Finish(Err(_))) <==> before.stage is Probing && (
        reply matches StartupReply::Probed(Err(_))),
{
}

/// Whether `states`, `replies` and `steps` are the course of one start of a server: reply `i` leads
/// from state `i` to state `i + 1`, with step `i`.
pub open spec fn is_startup_course<T, E, D>(
    states: Seq<Startup>,
    replies: Seq<StartupReply<T, E, D>>,
    steps: Seq<Option<StartupStep>>,
) -> bool {
    &&& states.len() == replies.len() + 1
    &&& steps.len() == replies.len()
    &&& states[0].stage is BeginningToServe
    &&& forall|i: int|
        0 <= i < replies.len() ==> startup_step(
            states[i],
            #[trigger] replies[i],
            states[i + 1],
            steps[i],
        )
}

/// The replies during the start of a server up to probe `k`, if probe `j` comes out as `probes[j]`:
/// there is a wait between every two probes.
pub open spec fn startup_replies<T, E, D>(
    probes: Seq<Result<Result<T, E>, D>>,
    k: nat,
) -> Seq<StartupReply<T, E, D>> {
    Seq::new(
        2 * k + 2,
        |i: int|
            if i == 0 {
                StartupReply::Serving
            } else if i % 2 == 1 {
                StartupReply::Probed(probes[i / 2])
            } else {
                StartupReply::Waited
            },
    )
}

/// As long as probes fail before the deadline, the server goes on being probed.
proof fn lemma_startup_probes<T, E, D>(
    states: Seq<Startup>,
    probes: Seq<Result<Result<T, E>, D>>,
    steps: Seq<Option<StartupStep>>,
    k: nat,
    j: nat,
)
    requires
        is_startup_course(states, startup_replies(probes, k), steps),
        j <= k < probes.len(),
        forall|i: int| 0 <= i < k ==> (#[trigger] probes[i]) matches Ok(Err(_)),
    ensures
        states[2 * j as int + 1].stage is Probing,
        states[2 * j as int + 1].server == states[0].server,
    decreases j,
{
    let replies = startup_replies(probes, k);
    if j == 0 {
        assert(startup_step(states[0], replies[0], states[1], steps[0]));
    } else {
        lemma_startup_probes(states, probes, steps, k, (j - 1) as nat);
        let i = 2 * j as int - 1;
        assert(probes[j - 1] matches Ok(Err(_)));
        assert(replies[i] == StartupReply::<T, E, D>::Probed(probes[j - 1]));
        assert(startup_step(states[i], replies[i], states[i + 1], steps[i]));
        assert(replies[i + 1] == StartupReply::<T, E, D>::Waited);
        assert(startup_step(states[i + 1], replies[i + 1], states[i + 1 + 1], steps[i + 1]));
    }
}

/// The start of a server succeeds exactly when its probing does, and then hands out the server that
/// was started; else it fails as its probing does.
pub proof fn law_startup_ends_like_its_probing<T, E, D>(
    states: Seq<Startup>,
    probes: Seq<Result<Result<T, E>, D>>,
    steps: Seq<Option<StartupStep>>,
    k: nat,
)
    requires
        is_startup_course(states, startup_replies(probes, k), steps),
        k < probes.len(),
        forall|i: int| 0 <= i < k ==> (#[trigger] probes[i]) matches Ok(Err(_)),
        !(probes[k as int] matches Ok(Err(_))),
    ensures
        match ready_outcome(probes, 0) {
            Some(ReadyStep::Ready) => steps[2 * k as int + 1] == Some(
                StartupStep::Finish(Ok(states[0].server)),
            ),
            Some(ReadyStep::Fail(error)) => steps[2 * k as int + 1] == Some(
                StartupStep::Finish(Err(error)),
            ),
            _ => false,
        },
{
    let replies = startup_replies(probes, k);
    let i = 2 * k as int + 1;
    lemma_startup_probes(states, probes, steps, k, k);
    law_probing_ends_with_first_answer(probes, 0, k);
    assert(replies[i] == StartupReply::<T, E, D>::Probed(probes[k as int]));
    assert(startup_step(states[i], replies[i], states[i + 1], steps[i]));
}

/// Whether `states`, `replies` and `steps` are the course of one check from its start: reply `i`
/// leads from state `i` to state `i + 1`, with step `i`.
pub open spec fn is_check_course<E>(
    states: Seq<SocketCheck>,
    replies: Seq<SocketReply<E>>,
    steps: Seq<Option<SocketStep<E>>>,
) -> bool {
    &&& states.len() == replies.len() + 1
    &&& steps.len() == replies.len()
    &&& states[0].stage is Connecting
    &&& forall|i: int|
        0 <= i < replies.len() ==> socket_step(
            states[i],
            #[trigger] replies[i],
            states[i + 1],
            steps[i],
        )
}

/// How many of the first `n` replies say that a message was sent.
pub open spec fn messages_sent<E>(replies: Seq<SocketReply<E>>, n: nat) -> nat
    decreases n,
{
    if n == 0 {
        0
    } else {
        messages_sent(replies, (n - 1) as nat) + if replies[n - 1] matches SocketReply::Sent(Ok(_)) {
            1nat
        } else {
            0nat
        }
    }
}

/// How many messages have been sent at least, by the stage that a check has reached.
proof fn lemma_check_stage<E>(
    states: Seq<SocketCheck>,
    replies: Seq<SocketReply<E>>,
    steps: Seq<Option<SocketStep<E>>>,
    i: nat,
)
    requires
        is_check_course(states, replies, steps),
        i <= replies.len(),
    ensures
        match states[i as int].stage {
            SocketStage::Sending { sent } => sent < 5 && messages_sent(replies, i) >= sent,
            SocketStage::Receiving | SocketStage::Closing => messages_sent(replies, i) >= 5,
            _ => true,
        },
    decreases i,
{
    if i > 0 {
        lemma_check_stage(states, replies, steps, (i - 1) as nat);
        assert(socket_step(states[i - 1], replies[i - 1], states[i - 1 + 1], steps[i - 1]));
    }
}

/// A server of web sockets is found to be ready only after five messages were sent to it and the
/// socket was closed.
pub proof fn law_ready_socket_took_all_messages<E>(
    states: Seq<SocketCheck>,
    replies: Seq<SocketReply<E>>,
    steps: Seq<Option<SocketStep<E>>>,
    i: nat,
)
    requires
        is_check_course(states, replies, steps),
        i < replies.len(),
        steps[i as int] matches Some(SocketStep::Finish),
    ensures
        messages_sent(replies, i) >= 5,
        replies[i as int] matches SocketReply::Closed(Ok(_)),
{
    assert(socket_step(states[i as int], replies[i as int], states[i as int + 1], steps[i as int]));
    lemma_check_stage(states, replies, steps, i);
}

/// A check in which everything succeeds sends the numbers from one to five, in this order, awaits as
/// many messages, closes the socket, and finds the server to be ready.
pub proof fn law_socket_check_with_good_replies<E>(
    states: Seq<SocketCheck>,
    replies: Seq<SocketReply<E>>,
    steps: Seq<Option<SocketStep<E>>>,
)
    requires
        is_check_course(states, replies, steps),
        replies == seq![
            SocketReply::<E>::Connected(Ok(())),
            SocketReply::Opened(Ok(())),
            SocketReply::Sent(Ok(())),
            SocketReply::Sent(Ok(())),
            SocketReply::Sent(Ok(())),
            SocketReply::Sent(Ok(())),
            SocketReply::Sent(Ok(())),
            SocketReply::Received,
            SocketReply::Closed(Ok(())),
        ],
    ensures
        steps[0] matches Some(SocketStep::Perform(SocketAction::Open { url })) && url@
            == states[0].url@,
        forall|i: int|
            1 <= i <= 5 ==> sends_message(#[trigger] steps[i], text::decimal(i as nat)),
        steps[6] == Some(SocketStep::Perform::<E>(SocketAction::Receive { messages: 5 })),
        steps[7] == Some(SocketStep::Perform::<E>(SocketAction::Close)),
        steps[8] == Some(SocketStep::Finish::<E>),
{
    assert(socket_step(states[0], replies[0], states[1], steps[0]));
    assert(socket_step(states[1], replies[1], states[2], steps[1]));
    assert(socket_step(states[2], replies[2], states[3], steps[2]));
    assert(socket_step(states[3], replies[3], states[4], steps[3]));
    assert(socket_step(states[4], replies[4], states[5], steps[4]));
    assert(socket_step(states[5], replies[5], states[6], steps[5]));
    assert(socket_step(states[6], replies[6], states[7], steps[6]));
    assert(socket_step(states[7], replies[7], states[8], steps[7]));
    assert(socket_step(states[8], replies[8], states[9], steps[8]));
    assert(sends_message(steps[1], text::decimal(1)));
    assert(sends_message(steps[2], text::decimal(2)));
    assert(sends_message(steps[3], text::decimal(3)));
    assert(sends_message(steps[4], text::decimal(4)));
    assert(sends_message(steps[5], text::decimal(5)));
}

/// Once a check has found a server to be ready, or has given up, no reply leads to anything more.
pub proof fn law_socket_check_finishes_once<E>(
    before: SocketCheck,
    reply: SocketReply<E>,
    after: SocketCheck,
    step: Option<SocketStep<E>>,
    next_reply: SocketReply<E>,
    next: SocketCheck,
    next_step: Option<SocketStep<E>>,
)
    requires
        socket_step(before, reply, after, step),
        step matches Some(SocketStep::Finish) || step matches Some(SocketStep::Abort { .. }),
        socket_step(after, next_reply, next, next_step),
    ensures
        next_step is None,
        next == after,
{
}

/// Whether `states`, `replies` and `steps` are the course of one start of a server of web sockets:
/// reply `i` leads from state `i` to state `i + 1`, with step `i`.
pub open spec fn is_socket_startup_course<E>(
    states: Seq<SocketStartup>,
    replies: Seq<SocketStartupReply<E>>,
    steps: Seq<Option<SocketStartupStep<E>>>,
) -> bool {
    &&& states.len() == replies.len() + 1
    &&& steps.len() == replies.len()
    &&& states[0].stage is Binding
    &&& forall|i: int|
        0 <= i < replies.len() ==> socket_startup_step(
            states[i],
            #[trigger] replies[i],
            states[i + 1],
            steps[i],
        )
}

/// How many of the first `n` replies say that a message was sent.
pub open spec fn startup_messages_sent<E>(replies: Seq<SocketStartupReply<E>>, n: nat) -> nat
    decreases n,
{
    if n == 0 {
        0
    } else {
        startup_messages_sent(replies, (n - 1) as nat) + if replies[n
            - 1] matches SocketStartupReply::Checked(SocketReply::Sent(Ok(_))) {
            1nat
        } else {
            0nat
        }
    }
}

/// How many messages have been sent at least, by the stage that a start has reached, and that the
/// server stays the same.
proof fn lemma_socket_startup_stage<E>(
    states: Seq<SocketStartup>,
    replies: Seq<SocketStartupReply<E>>,
    steps: Seq<Option<SocketStartupStep<E>>>,
    i: nat,
)
    requires
        is_socket_startup_course(states, replies, steps),
        i <= replies.len(),
    ensures
        states[i as int].server == states[0].server,
        states[i as int].stage matches SocketStartupStage::Checking(check) ==> match check.stage {
            SocketStage::Sending { sent } => sent < 5 && startup_messages_sent(replies, i) >= sent,
            SocketStage::Receiving | SocketStage::Closing => startup_messages_sent(replies, i) >= 5,
            _ => true,
        },
    decreases i,
{
    if i > 0 {
        lemma_socket_startup_stage(states, replies, steps, (i - 1) as nat);
        assert(socket_startup_step(
            states[i - 1],
            replies[i - 1],
            states[i - 1 + 1],
            steps[i - 1],
        ));
    }
}

/// A server of web sockets is handed out only when its check ends well, that is, after five messages
/// were sent to it and the socket was closed; and it is the server that was started.
pub proof fn law_socket_server_is_handed_out_when_ready<E>(
    states: Seq<SocketStartup>,
    replies: Seq<SocketStartupReply<E>>,
    steps: Seq<Option<SocketStartupStep<E>>>,
    i: nat,
)
    requires
        is_socket_startup_course(states, replies, steps),
        i < replies.len(),
        steps[i as int] matches Some(SocketStartupStep::Finish(_)),
    ensures
        steps[i as int] == Some(SocketStartupStep::Finish::<E>(states[0].server)),
        replies[i as int] matches SocketStartupReply::Checked(SocketReply::Closed(Ok(_))),
        startup_messages_sent(replies, i) >= 5,
{
    assert(socket_startup_step(
        states[i as int],
        replies[i as int],
        states[i as int + 1],
        steps[i as int],
    ));
    lemma_socket_startup_stage(states, replies, steps, i);
}

/// Whenever its check finds a server of web sockets to be ready, the server is handed out; whenever
/// its check gives up, so does its start, with the same message and error.
pub proof fn law_socket_startup_ends_like_its_check<E>(
    before: SocketStartup,
    check: SocketCheck,
    checked: SocketReply<E>,
    after: SocketStartup,
    step: Option<SocketStartupStep<E>>,
)
    requires
        before.stage == SocketStartupStage::Checking(check),
        socket_startup_step(before, SocketStartupReply::Checked(checked), after, step),
    ensures
        after.stage matches SocketStartupStage::Checking(next) && socket_step(
            check,
            checked,
            next,
            check_part(step),
        ),
        check_part(step) matches Some(SocketStep::Finish) <==> step == Some(
            SocketStartupStep::Finish::<E>(before.server),
        ),
        check_part(step) matches Some(SocketStep::Abort { message, error }) ==> step == Some(
            SocketStartupStep::Abort { message, error },
        ),
{
}

/// A server of web sockets that has served a connection to its end accepts the next one.
pub proof fn law_echo_server_serves_the_next_connection<E>(
    s0: EchoServer,
    s1: EchoServer,
    s2: EchoServer,
    s3: EchoServer,
    step1: Option<EchoStep<E>>,
    step2: Option<EchoStep<E>>,
    step3: Option<EchoStep<E>>,
)
    requires
        s0.stage is Accepting,
        echo_step(s0, EchoReply::Accepted(Ok(())), s1, step1),
        echo_step(s1, EchoReply::Opened(Ok(())), s2, step2),
        echo_step(s2, EchoReply::Echoed(Ok(())), s3, step3),
    ensures
        step1 == Some(EchoStep::Perform::<E>(EchoAction::Open)),
        step2 == Some(EchoStep::Perform::<E>(EchoAction::Echo)),
        step3 == Some(EchoStep::Perform::<E>(EchoAction::Accept)),
        s3 == s0,
{
}

/// A server of web sockets stops, without giving up, only when no connection can be accepted.
pub proof fn law_echo_server_stops_without_connections<E>(
    before: EchoServer,
    reply: EchoReply<E>,
    after: EchoServer,
    step: Option<EchoStep<E>>,
)
    requires
        echo_step(before, reply, after, step),
    ensures
        step matches Some(EchoStep::Stop) <==> before.stage is Accepting && (
        reply matches EchoReply::Accepted(Err(_))),
{
}

} // verus!
