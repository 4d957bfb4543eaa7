//! Backends run as Docker containers: their names, their settings, and what is asked of the
//! Docker engine to run, watch, find and stop them.
use crate::config::{ContainerConfig, ContainerInspect, EmptyObject, HostConfig, PortBinding};
use crate::string_map::StringMap;
use crate::{config, text};
use vstd::prelude::*;
use vstd::string::*;

verus! {

/// The port in the container which is exposed.
pub const CONTAINER_PORT: u16 = 8080;

/// How long a call of the Docker engine may take.
pub const DEFAULT_DOCKER_TIMEOUT_SECONDS: u64 = 30;

/// How long a container is given to stop before it is killed.
pub const STOP_TIMEOUT_SECONDS: i64 = 10;

/// Where the Docker engine listens.
#[derive(Debug)]
pub enum DockerApiTransport {
    Socket(String),
    Http(String),
}

/// How to reach the Docker engine, and the runtime under which it is to run containers.
#[derive(Debug)]
pub struct DockerOptions {
    pub transport: DockerApiTransport,
    pub runtime: Option<String>,
}

/// A connection that is to be made to the Docker engine.
#[derive(Debug)]
pub struct DockerConnection {
    pub transport: DockerApiTransport,
    pub timeout_seconds: u64,
}

impl DockerOptions {
    /// The connection that the options ask for.
    pub fn connection(&self) -> (connection: DockerConnection)
        ensures
            connection.transport == self.transport,
            connection.timeout_seconds == DEFAULT_DOCKER_TIMEOUT_SECONDS,
    {
        let transport = match &self.transport {
            DockerApiTransport::Socket(path) => DockerApiTransport::Socket(path.clone()),
            DockerApiTransport::Http(address) => DockerApiTransport::Http(address.clone()),
        };
        DockerConnection { transport, timeout_seconds: DEFAULT_DOCKER_TIMEOUT_SECONDS }
    }
}

/// The name of a backend's container.
pub open spec fn backend_name_text(backend: Seq<char>) -> Seq<char> {
    "backend-"@ + backend
}

/// The name of a backend's network.
pub open spec fn network_name_text(backend: Seq<char>) -> Seq<char> {
    "network-"@ + backend
}

/// The key under which the engine lists a TCP port of a container.
pub open spec fn tcp_port_key(port: u16) -> Seq<char> {
    text::decimal(port as nat) + "/tcp"@
}

/// The name of a backend's container.
pub fn backend_name(backend: &str) -> (name: String)
    ensures
        name@ == backend_name_text(backend@),
{
    let mut name = "backend-".to_owned();
    name.append(backend);
    name
}

/// The name of a backend's network.
pub fn network_name(backend: &str) -> (name: String)
    ensures
        name@ == network_name_text(backend@),
{
    let mut name = "network-".to_owned();
    name.append(backend);
    name
}

/// The key under which the engine lists a TCP port of a container.
fn port_key(port: u16) -> (key: String)
    ensures
        key@ == tcp_port_key(port),
{
    let mut key = text::decimal_text(port as u64);
    key.append("/tcp");
    key
}

/// The set of exposed ports that holds one TCP port.
pub fn make_exposed_ports(port: u16) -> (ports: Option<StringMap<EmptyObject>>)
    ensures
        ports matches Some(map) && map.keys() == seq![tcp_port_key(port)] && map@
            == map![tcp_port_key(port) => EmptyObject {  }],
{
    let mut map = StringMap::new();
    map.insert(port_key(port), EmptyObject {  });
    assert(map.keys() =~= seq![tcp_port_key(port)]);
    assert(map@ =~= map![tcp_port_key(port) => EmptyObject {  }]);
    Some(map)
}

/// What happened to a container.
#[derive(Debug, Clone, Copy, PartialEq, Eq, Structural)]
pub enum ContainerEventType {
    Start,
    Create,
    Die { error_status: bool },
    Stop,
    Kill,
}

/// Something that happened to a container.
#[derive(Debug)]
pub struct ContainerEvent {
    pub event: ContainerEventType,
    pub container: String,
}

/// The object that an event of the Docker engine is about.
pub struct EventActor {
    pub id: Option<String>,
    pub attributes: Option<StringMap<String>>,
}

/// An event of the Docker engine.
pub struct EventMessage {
    pub action: Option<String>,
    pub actor: Option<EventActor>,
}

/// Whether an exit code, as the engine reports it, tells of an error. One that is no number does.
pub open spec fn is_error_status(exit_code: Seq<char>) -> bool {
    text::parse_unsigned(exit_code, u32::MAX as nat) != Some(0nat)
}

/// What the event of a container says with a given action and given attributes.
pub open spec fn event_type_of(
    action: Seq<char>,
    attributes: Option<StringMap<String>>,
) -> Option<ContainerEventType> {
    if action == "die"@ {
        match attributes {
            Some(map) => if map@.contains_key("exitCode"@) {
                Some(
                    ContainerEventType::Die {
                        error_status: is_error_status(map@["exitCode"@]@),
                    },
                )
            } else {
                None
            },
            None => None,
        }
    } else if action == "stop"@ {
        Some(ContainerEventType::Stop)
    } else if action == "start"@ {
        Some(ContainerEventType::Start)
    } else if action == "kill"@ {
        Some(ContainerEventType::Kill)
    } else if action == "create"@ {
        Some(ContainerEventType::Create)
    } else {
        None
    }
}

/// The event and the container that a message tells of.
pub open spec fn event_of(message: EventMessage) -> Option<(ContainerEventType, Seq<char>)> {
    match (message.action, message.actor) {
        (Some(action), Some(actor)) => match (actor.id, event_type_of(action@, actor.attributes)) {
            (Some(id), Some(event)) => Some((event, id@)),
            _ => None,
        },
        _ => None,
    }
}

impl ContainerEvent {
    /// The container event that a message of the Docker engine tells of. There is none if the
    /// action is not one of those that are tracked, or if what it takes is missing.
    pub fn from_event_message(event: &EventMessage) -> (r: Option<Self>)
        ensures
            match r {
                Some(e) => event_of(*event) == Some((e.event, e.container@)),
                None => event_of(*event) is None,
            },
    {
        let action = match &event.action {
            Some(action) => action.as_str(),
            None => return None,
        };
        let actor = match &event.actor {
            Some(actor) => actor,
            None => return None,
        };
        let container = match &actor.id {
            Some(id) => id.clone(),
            None => return None,
        };
        let event = if text::same_text(action, "die") {
            let attributes = match &actor.attributes {
                Some(attributes) => attributes,
                None => return None,
            };
            let exit_code = match attributes.get("exitCode") {
                Some(exit_code) => exit_code,
                None => return None,
            };
            let exit_code = match text::parse_unsigned_text(exit_code.as_str(), u32::MAX as u64) {
                Some(exit_code) => exit_code,
                None => 1,
            };
            ContainerEventType::Die { error_status: exit_code != 0 }
        } else if text::same_text(action, "stop") {
            ContainerEventType::Stop
        } else if text::same_text(action, "start") {
            ContainerEventType::Start
        } else if text::same_text(action, "kill") {
            ContainerEventType::Kill
        } else if text::same_text(action, "create") {
            ContainerEventType::Create
        } else {
            return None;
        };
        Some(ContainerEvent { event, container })
    }
}

/// Whether an action is one of those that are tracked.
pub open spec fn is_tracked_action(action: Seq<char>) -> bool {
    ||| action == "die"@
    ||| action == "stop"@
    ||| action == "start"@
    ||| action == "kill"@
    ||| action == "create"@
}

impl EventMessage {
    /// The action of a message that names an object, if it is not one of those that are tracked.
    pub fn unhandled_action(&self) -> (r: Option<&str>)
        ensures
            match r {
                Some(a) => {
                    &&& text::optional_text(self.action) == Some(a@)
                    &&& self.actor is Some && self.actor->0.id is Some
                    &&& !is_tracked_action(a@)
                },
                None => self.action is Some && self.actor is Some && self.actor->0.id is Some
                    ==> is_tracked_action(self.action->0@),
            },
    {
        let action = match &self.action {
            Some(action) => action.as_str(),
            None => return None,
        };
        match &self.actor {
            Some(actor) => if actor.id.is_none() {
                return None;
            },
            None => return None,
        }
        if text::same_text(action, "die") || text::same_text(action, "stop") || text::same_text(
            action,
            "start",
        ) || text::same_text(action, "kill") || text::same_text(action, "create") {
            None
        } else {
            Some(action)
        }
    }
}

/// An image that is being pulled.
#[derive(Debug)]
pub struct ImagePull {
    /// The image that the engine is asked for.
    pub from_image: String,
}

/// What to do after an item of the stream in which the engine reports a pull.
pub enum PullStep<E> {
    Continue,
    Finish(Result<(), E>),
}

/// What follows an item of a pull: an error ends it, and so does the end of the stream.
pub open spec fn pull_next<T, E>(next: Option<Result<T, E>>) -> PullStep<E> {
    match next {
        Some(Ok(_)) => PullStep::Continue,
        Some(Err(error)) => PullStep::Finish(Err(error)),
        None => PullStep::Finish(Ok(())),
    }
}

impl ImagePull {
    /// Takes the next item of the stream in which the engine reports the pull, or its end, and says
    /// what to do next.
    pub fn step<T, E>(&self, next: Option<Result<T, E>>) -> (step: PullStep<E>)
        ensures
            step == pull_next(next),
    {
        match next {
            Some(Ok(_)) => PullStep::Continue,
            Some(Err(error)) => PullStep::Finish(Err(error)),
            None => PullStep::Finish(Ok(())),
        }
    }
}

/// The events of containers, as the engine is asked for them.
pub struct ContainerEvents {
    /// From when on they are asked for: from now on, if there is no time.
    pub since: Option<String>,
    /// Until when they are asked for: without an end, if there is no time.
    pub until: Option<String>,
    /// The filters that select them among all events.
    pub filters: StringMap<Vec<String>>,
}

impl ContainerEvents {
    /// The container event that an item of the engine's event stream tells of. An error tells of
    /// none.
    pub fn event<E>(&self, item: Result<EventMessage, E>) -> (r: Option<ContainerEvent>)
        ensures
            match (item, r) {
                (Ok(message), Some(e)) => event_of(message) == Some((e.event, e.container@)),
                (Ok(message), None) => event_of(message) is None,
                (Err(_), r) => r is None,
            },
    {
        match item {
            Ok(message) => ContainerEvent::from_event_message(&message),
            Err(_) => None,
        }
    }
}

/// What running a backend asks of the Docker engine.
pub enum RunAction {
    CreateNetwork { name: String },
    CreateContainer { name: String, config: ContainerConfig },
    StartContainer { id: String },
}

/// Why a backend could not be run.
#[derive(Debug, PartialEq, Eq)]
pub enum RunError<E> {
    /// The engine failed.
    Docker(E),
    /// The engine created a network and did not tell its id.
    NoNetworkId,
}

impl<E> RunError<E> {
    /// The message of an error that did not come from the engine.
    pub fn message(&self) -> (r: Option<String>)
        ensures
            match r {
                Some(message) => self is NoNetworkId && message@
                    == "Network response contained no network id."@,
                None => self is Docker,
            },
    {
        match self {
            RunError::Docker(_) => None,
            RunError::NoNetworkId => Some("Network response contained no network id.".to_owned()),
        }
    }
}

/// What the Docker engine replied.
pub enum RunReply<E> {
    /// The id of the network, if the reply held one.
    NetworkCreated(Result<Option<String>, E>),
    /// The id of the container.
    ContainerCreated(Result<String, E>),
    ContainerStarted(Result<(), E>),
}

/// What to do next while a backend is being run.
pub enum RunStep<E> {
    Perform(RunAction),
    /// The backend's container runs under this name, or could not be run.
    Finish(Result<String, RunError<E>>),
}

/// The reply for which the running of a backend waits.
#[derive(Debug, Clone, Copy, PartialEq, Eq, Structural)]
pub enum RunStage {
    CreatingNetwork,
    CreatingContainer,
    StartingContainer,
    Finished,
}

/// A backend that is being run.
pub struct RunContainer {
    pub name: String,
    pub image: String,
    pub env: Vec<String>,
    pub runtime: Option<String>,
    pub stage: RunStage,
}

/// The binding under which the host picks a free port.
pub open spec fn is_free_port_binding(binding: PortBinding) -> bool {
    &&& binding.host_ip is None
    &&& binding.host_port matches Some(port) && port@ == "0"@
}

/// Whether `bindings` binds the container's exposed port, and no other, to a free port of the host.
pub open spec fn binds_container_port(
    bindings: Map<Seq<char>, Option<Vec<PortBinding>>>,
) -> bool {
    let key = tcp_port_key(CONTAINER_PORT);
    &&& bindings.dom() == set![key]
    &&& bindings[key] matches Some(ports) && ports@.len() == 1 && is_free_port_binding(ports@[0])
}

/// Whether `labels` marks a container as that of a backend.
pub open spec fn marks_backend(labels: StringMap<String>, backend: Seq<char>) -> bool {
    &&& labels@.dom() == set!["dev.spawner.managed"@, "dev.spawner.backend"@]
    &&& labels@["dev.spawner.managed"@]@ == "true"@
    &&& labels@["dev.spawner.backend"@]@ == backend
}

/// Whether `host` puts a container into the given network, under the given runtime, with its port
/// bound to a free port of the host.
pub open spec fn is_backend_host_config(
    host: HostConfig,
    runtime: Option<Seq<char>>,
    network_id: Seq<char>,
) -> bool {
    &&& host.binds is None
    &&& text::optional_text(host.network_mode) == Some(network_id)
    &&& host.port_bindings matches Some(bindings) && binds_container_port(bindings@)
    &&& text::optional_text(host.runtime) == runtime
}

/// Whether `config` is what a backend's container is created from.
pub open spec fn is_backend_config(
    config: ContainerConfig,
    backend: Seq<char>,
    image: Seq<char>,
    env: Seq<Seq<char>>,
    runtime: Option<Seq<char>>,
    network_id: Seq<char>,
) -> bool {
    &&& config.hostname is None
    &&& config.env matches Some(lines) && text::texts(lines@) == env
    &&& config.cmd is None
    &&& text::optional_text(config.image) == Some(image)
    &&& config.exposed_ports matches Some(ports) && ports@.dom() == set![
        tcp_port_key(CONTAINER_PORT),
    ]
    &&& config.labels matches Some(labels) && marks_backend(labels, backend)
    &&& config.host_config matches Some(host) && is_backend_host_config(host, runtime, network_id)
}

/// How the running of a backend begins.
pub open spec fn run_started(
    runtime: Option<String>,
    name: Seq<char>,
    image: Seq<char>,
    env: &StringMap<String>,
    run: RunContainer,
    action: RunAction,
) -> bool {
    &&& run.name@ == name
    &&& run.image@ == image
    &&& text::texts(run.env@) == config::env_lines(env)
    &&& run.runtime == runtime
    &&& run.stage is CreatingNetwork
    &&& action matches RunAction::CreateNetwork { name: network } && network@ == network_name_text(
        name,
    )
}

/// How the running of a backend goes on with a reply. A reply for which it does not wait changes
/// nothing.
pub open spec fn run_step<E>(
    before: RunContainer,
    reply: RunReply<E>,
    after: RunContainer,
    step: Option<RunStep<E>>,
) -> bool {
    &&& after.name == before.name
    &&& after.image == before.image
    &&& after.env == before.env
    &&& after.runtime == before.runtime
    &&& match (before.stage, reply) {
        (RunStage::CreatingNetwork, RunReply::NetworkCreated(Ok(Some(network_id)))) => {
            &&& after.stage is CreatingContainer
            &&& step matches Some(RunStep::Perform(RunAction::CreateContainer { name, config }))
                && name@ == backend_name_text(before.name@) && is_backend_config(
                config,
                before.name@,
                before.image@,
                text::texts(before.env@),
                text::optional_text(before.runtime),
                network_id@,
            )
        },
        (RunStage::CreatingNetwork, RunReply::NetworkCreated(Ok(None))) => {
            &&& after.stage is Finished
            &&& step == Some(RunStep::Finish::<E>(Err(RunError::NoNetworkId)))
        },
        (RunStage::CreatingNetwork, RunReply::NetworkCreated(Err(error))) => {
            &&& after.stage is Finished
            &&& step == Some(RunStep::Finish(Err(RunError::Docker(error))))
        },
        (RunStage::CreatingContainer, RunReply::ContainerCreated(Ok(container_id))) => {
            &&& after.stage is StartingContainer
            &&& step == Some(
                RunStep::Perform::<E>(RunAction::StartContainer { id: container_id }),
            )
        },
        (RunStage::CreatingContainer, RunReply::ContainerCreated(Err(error))) => {
            &&& after.stage is Finished
            &&& step == Some(RunStep::Finish(Err(RunError::Docker(error))))
        },
        (RunStage::StartingContainer, RunReply::ContainerStarted(Ok(_))) => {
            &&& after.stage is Finished
            &&& step matches Some(RunStep::Finish(Ok(name))) && name@ == backend_name_text(
                before.name@,
            )
        },
        (RunStage::StartingContainer, RunReply::ContainerStarted(Err(error))) => {
            &&& after.stage is Finished
            &&& step == Some(RunStep::Finish(Err(RunError::Docker(error))))
        },
        _ => after.stage == before.stage && step is None,
    }
}

impl RunContainer {
    /// The settings from which the backend's container is created, once its network is there.
    fn config(&self, network_id: String) -> (config: ContainerConfig)
        ensures
            is_backend_config(
                config,
                self.name@,
                self.image@,
                text::texts(self.env@),
                text::optional_text(self.runtime),
                network_id@,
            ),
    {
        let mut labels: StringMap<String> = StringMap::new();
        labels.insert("dev.spawner.managed".to_owned(), "true".to_owned());
        labels.insert("dev.spawner.backend".to_owned(), self.name.clone());
        proof {
            reveal_strlit("dev.spawner.managed");
            reveal_strlit("dev.spawner.backend");
            assert("dev.spawner.managed"@[12] == 'm');
            assert("dev.spawner.backend"@[12] == 'b');
            assert(labels@.dom() =~= set!["dev.spawner.managed"@, "dev.spawner.backend"@]);
        }
        let mut bindings: Vec<PortBinding> = Vec::new();
        bindings.push(PortBinding { host_ip: None, host_port: Some("0".to_owned()) });
        let mut port_bindings: StringMap<Option<Vec<PortBinding>>> = StringMap::new();
        port_bindings.insert(port_key(CONTAINER_PORT), Some(bindings));
        assert(port_bindings@.dom() =~= set![tcp_port_key(CONTAINER_PORT)]);
        let exposed_ports = make_exposed_ports(CONTAINER_PORT);
        assert(exposed_ports->0@.dom() =~= set![tcp_port_key(CONTAINER_PORT)]);
        let env = self.env.clone();
        assert(text::texts(env@) =~= text::texts(self.env@));
        ContainerConfig {
            image: Some(self.image.clone()),
            env: Some(env),
            exposed_ports,
            labels: Some(labels),
            host_config: Some(
                HostConfig {
                    network_mode: Some(network_id),
                    port_bindings: Some(port_bindings),
                    runtime: self.runtime.clone(),
                    ..HostConfig::default()
                },
            ),
            ..ContainerConfig::default()
        }
    }

    /// Takes a reply of the engine, and says what to do next. There is nothing to do for a reply
    /// that is not waited for.
    pub fn step<E>(&mut self, reply: RunReply<E>) -> (step: Option<RunStep<E>>)
        ensures
            run_step(*old(self), reply, *final(self), step),
    {
        match (self.stage, reply) {
            (RunStage::CreatingNetwork, RunReply::NetworkCreated(result)) => match result {
                Ok(Some(network_id)) => {
                    let config = self.config(network_id);
                    self.stage = RunStage::CreatingContainer;
                    let name = backend_name(self.name.as_str());
                    Some(RunStep::Perform(RunAction::CreateContainer { name, config }))
                },
                Ok(None) => {
                    self.stage = RunStage::Finished;
                    Some(RunStep::Finish(Err(RunError::NoNetworkId)))
                },
                Err(error) => {
                    self.stage = RunStage::Finished;
                    Some(RunStep::Finish(Err(RunError::Docker(error))))
                },
            },
            (RunStage::CreatingContainer, RunReply::ContainerCreated(result)) => match result {
                Ok(id) => {
                    self.stage = RunStage::StartingContainer;
                    Some(RunStep::Perform(RunAction::StartContainer { id }))
                },
                Err(error) => {
                    self.stage = RunStage::Finished;
                    Some(RunStep::Finish(Err(RunError::Docker(error))))
                },
            },
            (RunStage::StartingContainer, RunReply::ContainerStarted(result)) => {
                self.stage = RunStage::Finished;
                match result {
                    Ok(_) => Some(RunStep::Finish(Ok(backend_name(self.name.as_str())))),
                    Err(error) => Some(RunStep::Finish(Err(RunError::Docker(error)))),
                }
            },
            _ => None,
        }
    }
}

/// What stopping a backend asks of the Docker engine.
#[derive(Debug)]
pub enum StopAction {
    StopContainer { name: String, timeout_seconds: i64 },
    RemoveNetwork { name: String },
}

/// What to do next while a backend is being stopped.
pub enum StopStep<E> {
    Perform(StopAction),
    Finish(Result<(), E>),
}

/// The reply for which the stopping of a backend waits.
#[derive(Debug, Clone, Copy, PartialEq, Eq, Structural)]
pub enum StopStage {
    StoppingContainer,
    RemovingNetwork,
    Finished,
}

/// A backend that is being stopped.
pub struct StopContainer {
    pub name: String,
    pub stage: StopStage,
}

/// How the stopping of a backend begins.
pub open spec fn stop_started(name: Seq<char>, stop: StopContainer, action: StopAction) -> bool {
    &&& stop.name@ == name
    &&& stop.stage is StoppingContainer
    &&& action matches StopAction::StopContainer { name: container, timeout_seconds } && container@
        == backend_name_text(name) && timeout_seconds == STOP_TIMEOUT_SECONDS
}

/// How the stopping of a backend goes on with a reply. Once it has finished, a reply changes
/// nothing.
pub open spec fn stop_step<E>(
    before: StopContainer,
    reply: Result<(), E>,
    after: StopContainer,
    step: Option<StopStep<E>>,
) -> bool {
    &&& after.name == before.name
    &&& match (before.stage, reply) {
        (StopStage::StoppingContainer, Ok(_)) => {
            &&& after.stage is RemovingNetwork
            &&& step matches Some(StopStep::Perform(StopAction::RemoveNetwork { name })) && name@
                == network_name_text(before.name@)
        },
        (StopStage::Finished, _) => after.stage is Finished && step is None,
        (_, reply) => after.stage is Finished && step == Some(StopStep::Finish(reply)),
    }
}

impl StopContainer {
    /// Takes a reply of the engine, and says what to do next. There is nothing to do once the
    /// stopping has finished.
    pub fn step<E>(&mut self, reply: Result<(), E>) -> (step: Option<StopStep<E>>)
        ensures
            stop_step(*old(self), reply, *final(self), step),
    {
        match (self.stage, reply) {
            (StopStage::StoppingContainer, Ok(_)) => {
                self.stage = StopStage::RemovingNetwork;
                let name = network_name(self.name.as_str());
                Some(StopStep::Perform(StopAction::RemoveNetwork { name }))
            },
            (StopStage::Finished, _) => None,
            (_, reply) => {
                self.stage = StopStage::Finished;
                Some(StopStep::Finish(reply))
            },
        }
    }
}

/// The port of the host, as the engine reports it, at which a container's exposed port is
/// reached: that of the first binding.
pub open spec fn reported_host_port(inspect: ContainerInspect) -> Option<String> {
    match inspect.network_settings {
        Some(settings) => match settings.ports {
            Some(ports) => if ports@.contains_key(tcp_port_key(CONTAINER_PORT)) {
                match ports@[tcp_port_key(CONTAINER_PORT)] {
                    Some(bindings) => if bindings@.len() > 0 {
                        bindings@[0].host_port
                    } else {
                        None
                    },
                    None => None,
                }
            } else {
                None
            },
            None => None,
        },
        None => None,
    }
}

/// The port of the host at which a container's exposed port is reached.
pub open spec fn host_port<E>(inspected: Result<ContainerInspect, E>) -> Option<nat> {
    match inspected {
        Ok(inspect) => match reported_host_port(inspect) {
            Some(port) => text::parse_unsigned(port@, u16::MAX as nat),
            None => None,
        },
        Err(_) => None,
    }
}

/// A look-up of the port at which a backend is reached.
#[derive(Debug)]
pub struct PortLookup {
    /// The container of which the engine is asked for a report.
    pub container: String,
}

impl PortLookup {
    /// The port of the host at which the container's exposed port is reached, by what the engine
    /// reports of the container.
    pub fn port<E>(&self, inspected: &Result<ContainerInspect, E>) -> (r: Option<u16>)
        ensures
            match r {
                Some(port) => host_port(*inspected) == Some(port as nat),
                None => host_port(*inspected) is None,
            },
    {
        let inspect = match inspected {
            Ok(inspect) => inspect,
            Err(_) => return None,
        };
        let settings = match &inspect.network_settings {
            Some(settings) => settings,
            None => return None,
        };
        let ports = match &settings.ports {
            Some(ports) => ports,
            None => return None,
        };
        let bindings = match ports.get(port_key(CONTAINER_PORT).as_str()) {
            Some(Some(bindings)) => bindings,
            _ => return None,
        };
        if bindings.len() == 0 {
            return None;
        }
        let port = match &bindings[0].host_port {
            Some(port) => port,
            None => return None,
        };
        match text::parse_unsigned_text(port.as_str(), u16::MAX as u64) {
            Some(port) => Some(port as u16),
            None => None,
        }
    }
}

/// A connection to the Docker engine, and the runtime under which containers are run.
pub struct DockerInterface<D> {
    pub docker: D,
    pub runtime: Option<String>,
}

impl<D> DockerInterface<D> {
    /// The interface over a connection, if it could be made.
    pub fn try_new<E>(config: &DockerOptions, connected: Result<D, E>) -> (r: Result<Self, E>)
        ensures
            match connected {
                Ok(docker) => r == Ok::<_, E>(DockerInterface { docker, runtime: config.runtime }),
                Err(error) => r == Err::<Self, _>(error),
            },
    {
        match connected {
            Ok(docker) => Ok(DockerInterface { docker, runtime: config.runtime.clone() }),
            Err(error) => Err(error),
        }
    }

    /// The events of containers: what the engine is asked for.
    pub fn container_events(&self) -> (events: ContainerEvents)
        ensures
            events.since is None,
            events.until is None,
            events.filters.keys() == seq!["type"@],
            events.filters@.dom() == set!["type"@],
            text::texts(events.filters@["type"@]@) == seq!["container"@],
    {
        let mut types: Vec<String> = Vec::new();
        types.push("container".to_owned());
        assert(text::texts(types@) =~= seq!["container"@]);
        let mut filters: StringMap<Vec<String>> = StringMap::new();
        filters.insert("type".to_owned(), types);
        assert(filters.keys() =~= seq!["type"@]);
        assert(filters@.dom() =~= set!["type"@]);
        ContainerEvents { since: None, until: None, filters }
    }

    /// Begins to pull an image.
    pub fn pull_image(&self, image: &str) -> (pull: ImagePull)
        ensures
            pull.from_image@ == image@,
    {
        ImagePull { from_image: image.to_owned() }
    }

    /// Begins to stop a backend: its container is stopped first.
    pub fn stop_container(&self, name: &str) -> (r: (StopContainer, StopAction))
        ensures
            stop_started(name@, r.0, r.1),
    {
        let stop = StopContainer { name: name.to_owned(), stage: StopStage::StoppingContainer };
        let action = StopAction::StopContainer {
            name: backend_name(name),
            timeout_seconds: STOP_TIMEOUT_SECONDS,
        };
        (stop, action)
    }

    /// Begins to look up the port at which a backend is reached: the engine is asked for a report
    /// of the backend's container.
    pub fn get_port(&self, container_name: &str) -> (lookup: PortLookup)
        ensures
            lookup.container@ == backend_name_text(container_name@),
    {
        PortLookup { container: backend_name(container_name) }
    }

    /// Begins to run an image as a backend: its network is created first.
    pub fn run_container(&self, name: &str, image: &str, env: &StringMap<String>) -> (r: (
        RunContainer,
        RunAction,
    ))
        ensures
            run_started(self.runtime, name@, image@, env, r.0, r.1),
    {
        let run = RunContainer {
            name: name.to_owned(),
            image: image.to_owned(),
            env: config::environment_lines(env),
            runtime: self.runtime.clone(),
            stage: RunStage::CreatingNetwork,
        };
        (run, RunAction::CreateNetwork { name: network_name(name) })
    }
}

impl<D: Clone> Clone for DockerInterface<D> {
    fn clone(&self) -> (copy: Self)
        ensures
            cloned(self.docker, copy.docker),
            copy.runtime == self.runtime,
    {
        DockerInterface { docker: self.docker.clone(), runtime: self.runtime.clone() }
    }
}

/// Different backends have different containers and different networks, and no container is
/// named like a network.
pub proof fn law_names_are_distinct(a: Seq<char>, b: Seq<char>)
    ensures
        backend_name_text(a) == backend_name_text(b) ==> a == b,
        network_name_text(a) == network_name_text(b) ==> a == b,
        backend_name_text(a) != network_name_text(b),
{
    reveal_strlit("backend-");
    reveal_strlit("network-");
    assert(backend_name_text(a).skip(8) =~= a);
    assert(backend_name_text(b).skip(8) =~= b);
    assert(network_name_text(a).skip(8) =~= a);
    assert(network_name_text(b).skip(8) =~= b);
    assert(backend_name_text(a)[0] == 'b');
    assert(network_name_text(b)[0] == 'n');
}

/// A died container is reported with an error status exactly if its exit code is not zero.
pub proof fn law_error_status_is_nonzero_exit_code(exit_code: u32)
    ensures
        is_error_status(text::decimal(exit_code as nat)) <==> exit_code != 0,
{
    text::law_decimal_round_trip(exit_code as nat, u32::MAX as nat);
}

/// A container event names the container of the message, and comes of the five tracked actions
/// only; with each of them it does come, if the message names the container and, for a death, the
/// exit code.
pub proof fn law_tracked_events(message: EventMessage)
    ensures
        event_of(message) matches Some((_, container)) ==> message.actor matches Some(actor)
            && text::optional_text(actor.id) == Some(container),
        event_of(message) is Some <==> {
            &&& message.action matches Some(action)
            &&& message.actor matches Some(actor)
            &&& actor.id is Some
            &&& {
                ||| action@ == "stop"@
                ||| action@ == "start"@
                ||| action@ == "kill"@
                ||| action@ == "create"@
                ||| action@ == "die"@ && (actor.attributes matches Some(map) && map@.contains_key(
                    "exitCode"@,
                ))
            }
        },
{
    reveal_strlit("die");
    reveal_strlit("stop");
    reveal_strlit("start");
    reveal_strlit("kill");
    reveal_strlit("create");
    assert("die"@.len() == 3 && "stop"@.len() == 4 && "start"@.len() == 5 && "kill"@.len() == 4
        && "create"@.len() == 6);
}

/// How the engine's report of a pull, from item `i` on, is judged.
pub open spec fn pull_outcome<T, E>(items: Seq<Result<T, E>>, i: nat) -> Result<(), E>
    decreases items.len() - i,
{
    let next = if i < items.len() {
        Some(items[i as int])
    } else {
        None
    };
    match pull_next(next) {
        PullStep::Continue => if i < items.len() {
            pull_outcome(items, i + 1)
        } else {
            Ok(())
        },
        PullStep::Finish(result) => result,
    }
}

/// A pull succeeds if no item of its report is an error; else it fails with the first error.
pub proof fn law_pull_fails_with_first_error<T, E>(items: Seq<Result<T, E>>, i: nat)
    requires
        i <= items.len(),
    ensures
        (forall|k: int| i <= k < items.len() ==> (#[trigger] items[k]) is Ok) ==> pull_outcome(
            items,
            i,
        ) == Ok::<(), E>(()),
        forall|k: int|
            i <= k < items.len() && (#[trigger] items[k]) is Err && (forall|j: int|
                i <= j < k ==> (#[trigger] items[j]) is Ok) ==> pull_outcome(items, i) == Err::<
                (),
                E,
            >(items[k]->Err_0),
    decreases items.len() - i,
{
    if i < items.len() {
        assert(items[i as int] is Ok || items[i as int] is Err);
        if items[i as int] is Ok {
            law_pull_fails_with_first_error(items, i + 1);
        }
    }
}

/// Whether `states`, `replies` and `steps` are the course of one run from its start: reply `i`
/// leads from state `i` to state `i + 1`, with step `i`.
pub open spec fn is_run_course<E>(
    states: Seq<RunContainer>,
    replies: Seq<RunReply<E>>,
    steps: Seq<Option<RunStep<E>>>,
) -> bool {
    &&& states.len() == replies.len() + 1
    &&& steps.len() == replies.len()
    &&& states[0].stage is CreatingNetwork
    &&& forall|i: int|
        0 <= i < replies.len() ==> run_step(
            states[i],
            #[trigger] replies[i],
            states[i + 1],
            steps[i],
        )
}

/// Whether reply `i` says that a network was created and gives its id.
pub open spec fn tells_network<E>(replies: Seq<RunReply<E>>, i: int) -> bool {
    0 <= i < replies.len() && replies[i] matches RunReply::NetworkCreated(Ok(Some(_)))
}

/// Whether reply `i` says that a container was created.
pub open spec fn tells_container<E>(replies: Seq<RunReply<E>>, i: int) -> bool {
    0 <= i < replies.len() && replies[i] matches RunReply::ContainerCreated(Ok(_))
}

/// What the replies before reply `i` have told, by the stage that a run has reached.
proof fn lemma_run_stage<E>(
    states: Seq<RunContainer>,
    replies: Seq<RunReply<E>>,
    steps: Seq<Option<RunStep<E>>>,
    i: int,
)
    requires
        is_run_course(states, replies, steps),
        0 <= i <= replies.len(),
    ensures
        states[i].stage is CreatingContainer ==> exists|j: int|
            j < i && #[trigger] tells_network(replies, j),
        states[i].stage is StartingContainer ==> exists|j: int, k: int|
            j < k < i && #[trigger] tells_network(replies, j) && #[trigger] tells_container(
                replies,
                k,
            ),
    decreases i,
{
    if i > 0 {
        lemma_run_stage(states, replies, steps, i - 1);
        assert(run_step(states[i - 1], replies[i - 1], states[i - 1 + 1], steps[i - 1]));
        if states[i - 1].stage is CreatingNetwork && states[i].stage is CreatingContainer {
            assert(tells_network(replies, i - 1));
        }
        if states[i - 1].stage is CreatingContainer && states[i].stage is StartingContainer {
            let j = choose|j: int| j < i - 1 && #[trigger] tells_network(replies, j);
            assert(tells_network(replies, j) && tells_container(replies, i - 1));
        }
    }
}

/// A run reports success only after its network was created and told its id, then its container
/// was created, then its container was started.
pub proof fn law_run_success_follows_all_replies<E>(
    states: Seq<RunContainer>,
    replies: Seq<RunReply<E>>,
    steps: Seq<Option<RunStep<E>>>,
    i: int,
)
    requires
        is_run_course(states, replies, steps),
        0 <= i < replies.len(),
        steps[i] matches Some(RunStep::Finish(Ok(_))),
    ensures
        replies[i] matches RunReply::ContainerStarted(Ok(_)),
        exists|j: int, k: int|
            j < k < i && #[trigger] tells_network(replies, j) && #[trigger] tells_container(
                replies,
                k,
            ),
{
    assert(run_step(states[i], replies[i], states[i + 1], steps[i]));
    lemma_run_stage(states, replies, steps, i);
}

/// Once a run has finished, with success or not, no reply leads to anything more.
pub proof fn law_run_finishes_once<E>(
    states: Seq<RunContainer>,
    replies: Seq<RunReply<E>>,
    steps: Seq<Option<RunStep<E>>>,
    i: int,
    j: int,
)
    requires
        is_run_course(states, replies, steps),
        0 <= i < j < replies.len(),
        steps[i] matches Some(RunStep::Finish(_)),
    ensures
        steps[j] is None,
        states[j + 1] == states[i + 1],
    decreases j,
{
    assert(run_step(states[i], replies[i], states[i + 1], steps[i]));
    assert(run_step(states[j], replies[j], states[j + 1], steps[j]));
    if i + 1 < j {
        law_run_finishes_once(states, replies, steps, i, j - 1);
    }
}

/// A run whose calls all succeed creates the backend's container in its network, starts the
/// container that was created, and then reports the name under which it was created.
pub proof fn law_run_with_good_replies<E>(
    s0: RunContainer,
    s1: RunContainer,
    s2: RunContainer,
    s3: RunContainer,
    network_id: String,
    container_id: String,
    step1: Option<RunStep<E>>,
    step2: Option<RunStep<E>>,
    step3: Option<RunStep<E>>,
)
    requires
        s0.stage is CreatingNetwork,
        run_step(s0, RunReply::NetworkCreated(Ok(Some(network_id))), s1, step1),
        run_step(s1, RunReply::ContainerCreated(Ok(container_id)), s2, step2),
        run_step(s2, RunReply::ContainerStarted(Ok(())), s3, step3),
    ensures
        step1 matches Some(RunStep::Perform(RunAction::CreateContainer { name, config })) && name@
            == backend_name_text(s0.name@) && is_backend_config(
            config,
            s0.name@,
            s0.image@,
            text::texts(s0.env@),
            text::optional_text(s0.runtime),
            network_id@,
        ),
        step2 == Some(RunStep::Perform::<E>(RunAction::StartContainer { id: container_id })),
        step3 matches Some(RunStep::Finish(Ok(name))) && name@ == backend_name_text(s0.name@),
{
}

/// Stopping a backend stops the container and removes the network that running it created.
pub proof fn law_stop_undoes_run<E, F>(
    runtime: Option<String>,
    name: Seq<char>,
    image: Seq<char>,
    env: &StringMap<String>,
    run: RunContainer,
    create_network: RunAction,
    network_id: String,
    run_next: RunContainer,
    create_container: Option<RunStep<E>>,
    stop: StopContainer,
    stop_container: StopAction,
    stop_next: StopContainer,
    remove_network: Option<StopStep<F>>,
)
    requires
        run_started(runtime, name, image, env, run, create_network),
        run_step(
            run,
            RunReply::NetworkCreated(Ok(Some(network_id))),
            run_next,
            create_container,
        ),
        stop_started(name, stop, stop_container),
        stop_step(stop, Ok(()), stop_next, remove_network),
    ensures
        stop_container matches StopAction::StopContainer { name: stopped, .. }
            && create_container matches Some(
            RunStep::Perform(RunAction::CreateContainer { name: created, .. }),
        ) && stopped@ == created@,
        remove_network matches Some(StopStep::Perform(StopAction::RemoveNetwork { name: removed }))
            && create_network matches RunAction::CreateNetwork { name: created } && removed@
            == created@,
{
}

/// A backend's port is looked up in the container that running the backend created, whose name the
/// run reports.
pub proof fn law_port_is_looked_up_in_the_run_container<E>(
    runtime: Option<String>,
    name: Seq<char>,
    image: Seq<char>,
    env: &StringMap<String>,
    run: RunContainer,
    create_network: RunAction,
    network_id: String,
    run_next: RunContainer,
    create_container: Option<RunStep<E>>,
    lookup: PortLookup,
)
    requires
        run_started(runtime, name, image, env, run, create_network),
        run_step(
            run,
            RunReply::NetworkCreated(Ok(Some(network_id))),
            run_next,
            create_container,
        ),
        lookup.container@ == backend_name_text(name),
    ensures
        create_container matches Some(
            RunStep::Perform(RunAction::CreateContainer { name: created, .. }),
        ) && lookup.container@ == created@,
{
}

/// The port that is looked up for a backend is the one that its container was created with: if the
/// engine reports, for the port that the container binds, bindings of which the first is to a port of
/// the host, then that port of the host is found, whatever the other bindings are.
pub proof fn law_get_port_finds_the_bound_port<E>(
    config: ContainerConfig,
    backend: Seq<char>,
    image: Seq<char>,
    env: Seq<Seq<char>>,
    runtime: Option<Seq<char>>,
    network_id: Seq<char>,
    inspect: ContainerInspect,
    port: u16,
)
    requires
        is_backend_config(config, backend, image, env, runtime, network_id),
        inspect.network_settings matches Some(settings) && settings.ports matches Some(ports)
            && forall|key: Seq<char>|
            config.host_config->0.port_bindings->0@.contains_key(key) ==> {
                &&& #[trigger] ports@.contains_key(key)
                &&& ports@[key] matches Some(bindings) && bindings@.len() >= 1
                    && text::optional_text(bindings@[0].host_port) == Some(
                    text::decimal(port as nat),
                )
            },
    ensures
        host_port(Ok::<_, E>(inspect)) == Some(port as nat),
{
    let key = tcp_port_key(CONTAINER_PORT);
    assert(config.host_config->0.port_bindings->0@.dom().contains(key));
    assert(inspect.network_settings->0.ports->0@.contains_key(key));
    text::law_decimal_round_trip(port as nat, u16::MAX as nat);
}

} // verus!
