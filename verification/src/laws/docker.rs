//! Laws on backends: what is asked of the Docker engine for them, and what is made of its reports.
use crate::config::{ContainerInspect, EmptyObject};
use crate::docker::{
    backend_name, make_exposed_ports, network_name, ContainerEvent, ContainerEventType,
    ContainerEvents, DockerConnection, DockerInterface, DockerOptions, EventMessage, ImagePull,
    PortLookup, PullStep, RunAction, RunContainer, RunError, RunReply, RunStage, RunStep,
    StopAction, StopContainer, StopStage, StopStep,
};
use crate::laws;
use crate::string_map::StringMap;
use crate::{docker, text};
use vstd::prelude::*;

verus! {

/// The key of the exposed port, as the engine writes it.
proof fn lemma_container_port_key()
    ensures
        docker::tcp_port_key(docker::CONTAINER_PORT) == "8080/tcp"@,
{
    reveal_strlit("/tcp");
    reveal_strlit("8080/tcp");
    laws::text::law_one_digit(8);
    laws::text::law_next_digit(8, 0);
    laws::text::law_next_digit(80, 8);
    laws::text::law_next_digit(808, 0);
    assert(docker::tcp_port_key(docker::CONTAINER_PORT) =~= "8080/tcp"@);
}

/// A connection is made to where the options say, with a limit of thirty seconds.
pub proof fn law_connection_goes_where_the_options_say(
    options: DockerOptions,
    connection: DockerConnection,
)
    requires
        call_ensures(DockerOptions::connection, (&options,), connection),
    ensures
        connection.transport == options.transport,
        connection.timeout_seconds == 30,
{
}

/// The names of a backend's container and network end with the name of the backend, after eight
/// signs that are the same for every backend.
pub proof fn law_names_end_with_the_backend(
    backend: &str,
    other: &str,
    container: String,
    other_container: String,
    network: String,
    other_network: String,
)
    requires
        call_ensures(backend_name, (backend,), container),
        call_ensures(backend_name, (other,), other_container),
        call_ensures(network_name, (backend,), network),
        call_ensures(network_name, (other,), other_network),
    ensures
        container@ == "backend-"@ + backend@,
        network@ == "network-"@ + backend@,
        container@.len() == 8 + backend@.len(),
        network@.len() == 8 + backend@.len(),
        container@.skip(8) == backend@,
        network@.skip(8) == backend@,
        container@.take(8) == other_container@.take(8),
        network@.take(8) == other_network@.take(8),
{
    reveal_strlit("backend-");
    reveal_strlit("network-");
    assert(container@.skip(8) =~= backend@);
    assert(network@.skip(8) =~= backend@);
    assert(container@.take(8) =~= other_container@.take(8));
    assert(network@.take(8) =~= other_network@.take(8));
}

/// Of the exposed ports there is one, and the number before its protocol is the port.
pub proof fn law_one_port_is_exposed(port: u16, ports: Option<StringMap<EmptyObject>>)
    requires
        call_ensures(make_exposed_ports, (port,), ports),
    ensures
        ports is Some,
        ports->0.keys().len() == 1,
        forall|key: Seq<char>| #[trigger]
            ports->0@.contains_key(key) <==> key == text::decimal(port as nat) + "/tcp"@,
{
    let key = text::decimal(port as nat) + "/tcp"@;
    assert(ports->0@.dom() =~= set![key]);
}

/// A message without an action, without an actor, or whose actor has no id tells of no event.
pub proof fn law_incomplete_message_tells_nothing(message: EventMessage, r: Option<ContainerEvent>)
    requires
        call_ensures(ContainerEvent::from_event_message, (&message,), r),
        message.action is None || message.actor is None || message.actor->0.id is None,
    ensures
        r is None,
{
}

/// Each of the actions `stop`, `start`, `kill` and `create` gives the event of that name, of the
/// container that the message names, whatever else the message holds.
pub proof fn law_actions_give_the_events_of_their_names(
    message: EventMessage,
    r: Option<ContainerEvent>,
)
    requires
        call_ensures(ContainerEvent::from_event_message, (&message,), r),
        message.action is Some,
        message.actor is Some,
        message.actor->0.id is Some,
    ensures
        message.action->0@ == "stop"@ ==> r is Some && r->0.event is Stop,
        message.action->0@ == "start"@ ==> r is Some && r->0.event is Start,
        message.action->0@ == "kill"@ ==> r is Some && r->0.event is Kill,
        message.action->0@ == "create"@ ==> r is Some && r->0.event is Create,
        r is Some && r->0.event is Stop ==> message.action->0@ == "stop"@,
        r is Some && r->0.event is Start ==> message.action->0@ == "start"@,
        r is Some && r->0.event is Kill ==> message.action->0@ == "kill"@,
        r is Some && r->0.event is Create ==> message.action->0@ == "create"@,
        r is Some && r->0.event is Die ==> message.action->0@ == "die"@,
        r is Some ==> r->0.container@ == message.actor->0.id->0@,
{
    reveal_strlit("die");
    reveal_strlit("stop");
    reveal_strlit("start");
    reveal_strlit("kill");
    reveal_strlit("create");
    assert("die"@.len() == 3 && "start"@.len() == 5 && "create"@.len() == 6);
    assert("stop"@.len() == 4 && "kill"@.len() == 4 && "stop"@[0] == 's' && "kill"@[0] == 'k');
}

/// A message that a container died gives an event exactly if it tells an exit code. The event has an
/// error status unless the exit code is made of zeros.
pub proof fn law_death_without_error_has_exit_code_zero(
    message: EventMessage,
    r: Option<ContainerEvent>,
)
    requires
        call_ensures(ContainerEvent::from_event_message, (&message,), r),
        message.action is Some && message.action->0@ == "die"@,
        message.actor is Some,
        message.actor->0.id is Some,
    ensures
        r is Some <==> message.actor->0.attributes is Some
            && message.actor->0.attributes->0@.contains_key("exitCode"@),
        r is Some ==> r->0.container@ == message.actor->0.id->0@,
        r is Some ==> r->0.event == (ContainerEventType::Die {
            error_status: !laws::text::is_made_of_zeros(
                message.actor->0.attributes->0@["exitCode"@]@,
            ),
        }),
{
    if r is Some {
        laws::text::law_zero_is_made_of_zeros(
            message.actor->0.attributes->0@["exitCode"@]@,
            u32::MAX as nat,
        );
    }
}

/// A container that died with exit code `n` is reported with an error status exactly if `n` is not
/// zero.
pub proof fn law_exit_code_decides_the_error_status(
    message: EventMessage,
    n: u32,
    r: Option<ContainerEvent>,
)
    requires
        call_ensures(ContainerEvent::from_event_message, (&message,), r),
        message.action is Some && message.action->0@ == "die"@,
        message.actor is Some,
        message.actor->0.id is Some,
        message.actor->0.attributes is Some,
        message.actor->0.attributes->0@.contains_key("exitCode"@),
        message.actor->0.attributes->0@["exitCode"@]@ == text::decimal(n as nat),
    ensures
        r is Some,
        r->0.event == (ContainerEventType::Die { error_status: n != 0 }),
{
    text::law_decimal_round_trip(n as nat, u32::MAX as nat);
}

/// An item of the event stream gives the event that its message gives by itself, and an error gives
/// none.
pub proof fn law_stream_gives_the_events_of_its_messages<E>(
    events: ContainerEvents,
    message: EventMessage,
    error: E,
    alone: Option<ContainerEvent>,
    in_stream: Option<ContainerEvent>,
    of_error: Option<ContainerEvent>,
)
    requires
        call_ensures(ContainerEvent::from_event_message, (&message,), alone),
        call_ensures(ContainerEvents::event::<E>, (&events, Ok(message)), in_stream),
        call_ensures(ContainerEvents::event::<E>, (&events, Err(error)), of_error),
    ensures
        in_stream is Some <==> alone is Some,
        in_stream is Some ==> in_stream->0.event == alone->0.event && in_stream->0.container@
            == alone->0.container@,
        of_error is None,
{
}

/// A message that names an object tells of an unhandled action exactly if the action is none of the
/// five that are tracked.
pub proof fn law_unhandled_actions_are_the_others(message: EventMessage, r: Option<&str>)
    requires
        call_ensures(EventMessage::unhandled_action, (&message,), r),
    ensures
        r is Some <==> {
            &&& message.action is Some
            &&& message.actor is Some
            &&& message.actor->0.id is Some
            &&& message.action->0@ != "die"@
            &&& message.action->0@ != "stop"@
            &&& message.action->0@ != "start"@
            &&& message.action->0@ != "kill"@
            &&& message.action->0@ != "create"@
        },
        r is Some ==> r->0@ == message.action->0@,
{
}

/// The engine is asked for the events of containers, from now on and without an end.
pub proof fn law_events_of_containers_are_asked_for<D>(
    interface: DockerInterface<D>,
    events: ContainerEvents,
)
    requires
        call_ensures(DockerInterface::<D>::container_events, (&interface,), events),
    ensures
        events.since is None,
        events.until is None,
        forall|key: Seq<char>| #[trigger] events.filters@.contains_key(key) <==> key == "type"@,
        events.filters@["type"@]@.len() == 1,
        events.filters@["type"@]@[0]@ == "container"@,
{
    let types = events.filters@["type"@]@;
    assert(events.filters@.dom().contains("type"@));
    assert(text::texts(types).len() == 1);
    assert(text::texts(types)[0] == "container"@);
    assert(forall|key: Seq<char>| #[trigger]
        events.filters@.contains_key(key) <==> events.filters@.dom().contains(key));
}

/// The engine is asked for the image that is to be pulled; the pull goes on with every item that is
/// no error, and ends with the first that is one, or else at the end of the stream.
pub proof fn law_pull_goes_on_until_an_error<D, T, E>(
    interface: DockerInterface<D>,
    image: &str,
    pull: ImagePull,
    item: T,
    error: E,
    of_item: PullStep<E>,
    of_error: PullStep<E>,
    of_end: PullStep<E>,
)
    requires
        call_ensures(DockerInterface::<D>::pull_image, (&interface, image), pull),
        call_ensures(ImagePull::step::<T, E>, (&pull, Some(Ok(item))), of_item),
        call_ensures(ImagePull::step::<T, E>, (&pull, Some(Err(error))), of_error),
        call_ensures(ImagePull::step::<T, E>, (&pull, None), of_end),
    ensures
        pull.from_image@ == image@,
        of_item is Continue,
        of_error == PullStep::Finish(Err(error)),
        of_end == PullStep::Finish(Ok::<(), E>(())),
{
}

/// The interface has the connection that was made and the runtime of the options; without a
/// connection there is no interface.
pub proof fn law_interface_keeps_the_runtime<D, E>(
    options: DockerOptions,
    connected: Result<D, E>,
    r: Result<DockerInterface<D>, E>,
)
    requires
        call_ensures(DockerInterface::<D>::try_new::<E>, (&options, connected), r),
    ensures
        connected is Ok ==> r is Ok && r->Ok_0.docker == connected->Ok_0 && r->Ok_0.runtime
            == options.runtime,
        connected is Err ==> r is Err && r->Err_0 == connected->Err_0,
{
}

/// A backend's container is created under the backend's name, from the given image, with a line for
/// each variable, in the network that was created for the backend, under the runtime of the options,
/// with the labels of the backend, and with its port bound to one free port of the host. Nothing else
/// is set.
pub proof fn law_backend_is_created_as_asked<D, E, F>(
    options: DockerOptions,
    connection: D,
    interface: DockerInterface<D>,
    name: &str,
    image: &str,
    env: &StringMap<String>,
    started: (RunContainer, RunAction),
    run: &mut RunContainer,
    network_id: String,
    step: Option<RunStep<F>>,
)
    requires
        call_ensures(DockerInterface::<D>::try_new::<E>, (&options, Ok(connection)), Ok(interface)),
        call_ensures(DockerInterface::<D>::run_container, (&interface, name, image, env), started),
        *old(run) == started.0,
        call_ensures(
            RunContainer::step::<F>,
            (run, RunReply::NetworkCreated(Ok(Some(network_id)))),
            step,
        ),
    ensures
        started.1 is CreateNetwork,
        started.1->CreateNetwork_name@ == "network-"@ + name@,
        final(run).stage is CreatingContainer,
        match step {
            Some(RunStep::Perform(RunAction::CreateContainer { name: container, config })) => {
                &&& container@ == "backend-"@ + name@
                &&& config.hostname is None
                &&& config.cmd is None
                &&& config.image is Some && config.image->0@ == image@
                &&& config.env is Some && config.env->0@.len() == env.keys().len()
                &&& forall|i: int|
                    0 <= i < env.keys().len() ==> (#[trigger] config.env->0@[i])@ == env.keys()[i]
                        + "="@ + env@[env.keys()[i]]@
                &&& config.exposed_ports is Some
                &&& forall|key: Seq<char>| #[trigger]
                    config.exposed_ports->0@.contains_key(key) <==> key == "8080/tcp"@
                &&& config.labels is Some
                &&& forall|key: Seq<char>| #[trigger]
                    config.labels->0@.contains_key(key) <==> key == "dev.spawner.managed"@ || key
                        == "dev.spawner.backend"@
                &&& config.labels->0@["dev.spawner.managed"@]@ == "true"@
                &&& config.labels->0@["dev.spawner.backend"@]@ == name@
                &&& config.host_config is Some
                &&& config.host_config->0.binds is None
                &&& config.host_config->0.network_mode is Some
                &&& config.host_config->0.network_mode->0@ == network_id@
                &&& config.host_config->0.runtime is Some <==> options.runtime is Some
                &&& options.runtime is Some ==> config.host_config->0.runtime->0@
                    == options.runtime->0@
                &&& config.host_config->0.port_bindings is Some
                &&& forall|key: Seq<char>| #[trigger]
                    config.host_config->0.port_bindings->0@.contains_key(key) <==> key
                        == "8080/tcp"@
                &&& config.host_config->0.port_bindings->0@["8080/tcp"@] is Some
                &&& config.host_config->0.port_bindings->0@["8080/tcp"@]->0@.len() == 1
                &&& config.host_config->0.port_bindings->0@["8080/tcp"@]->0@[0].host_ip is None
                &&& config.host_config->0.port_bindings->0@["8080/tcp"@]->0@[0].host_port is Some
                &&& config.host_config->0.port_bindings->0@["8080/tcp"@]->0@[0].host_port->0@
                    == "0"@
            },
            _ => false,
        },
{
    lemma_container_port_key();
    let config = step->0->Perform_0->CreateContainer_config;
    let lines = config.env->0@;
    let keys = env.keys();
    assert(text::texts(lines).len() == keys.len());
    assert forall|i: int| 0 <= i < keys.len() implies (#[trigger] lines[i])@ == keys[i] + "="@
        + env@[keys[i]]@ by {
        assert(text::texts(lines)[i] == lines[i]@);
    }
    assert forall|key: Seq<char>| #[trigger]
        config.exposed_ports->0@.contains_key(key) <==> key == "8080/tcp"@ by {
        assert(config.exposed_ports->0@.dom().contains(key) <==> key == "8080/tcp"@);
    }
    assert forall|key: Seq<char>| #[trigger]
        config.labels->0@.contains_key(key) <==> key == "dev.spawner.managed"@ || key
            == "dev.spawner.backend"@ by {
        assert(config.labels->0@.dom().contains(key) <==> key == "dev.spawner.managed"@ || key
            == "dev.spawner.backend"@);
    }
    let bindings = config.host_config->0.port_bindings->0@;
    assert forall|key: Seq<char>| #[trigger] bindings.contains_key(key) <==> key == "8080/tcp"@ by {
        assert(bindings.dom().contains(key) <==> key == "8080/tcp"@);
    }
}

/// What a run does with every reply but the one that tells its network: a failure ends it with that
/// failure, a network without an id ends it with an error of its own, the container that was created
/// is started, and a container that was started is reported under the backend's name. What the run
/// does not wait for changes nothing.
pub proof fn law_run_follows_the_replies<E>(
    run: &mut RunContainer,
    reply: RunReply<E>,
    step: Option<RunStep<E>>,
)
    requires
        call_ensures(RunContainer::step::<E>, (run, reply), step),
    ensures
        final(run).name == old(run).name,
        final(run).image == old(run).image,
        final(run).env == old(run).env,
        final(run).runtime == old(run).runtime,
        match (old(run).stage, reply) {
            (RunStage::CreatingNetwork, RunReply::NetworkCreated(Ok(id))) => {
                id is None ==> final(run).stage is Finished && step == Some(
                    RunStep::Finish::<E>(Err(RunError::NoNetworkId)),
                )
            },
            (RunStage::CreatingContainer, RunReply::ContainerCreated(Ok(id))) => {
                &&& final(run).stage is StartingContainer
                &&& step is Some && step->0 is Perform && step->0->Perform_0 is StartContainer
                &&& step->0->Perform_0->StartContainer_id@ == id@
            },
            (RunStage::StartingContainer, RunReply::ContainerStarted(Ok(_))) => {
                &&& final(run).stage is Finished
                &&& step is Some && step->0 is Finish && step->0->Finish_0 is Ok
                &&& step->0->Finish_0->Ok_0@ == "backend-"@ + old(run).name@
            },
            (RunStage::CreatingNetwork, RunReply::NetworkCreated(Err(error)))
            | (RunStage::CreatingContainer, RunReply::ContainerCreated(Err(error)))
            | (RunStage::StartingContainer, RunReply::ContainerStarted(Err(error))) => {
                &&& final(run).stage is Finished
                &&& step == Some(RunStep::Finish::<E>(Err(RunError::Docker(error))))
            },
            _ => final(run).stage == old(run).stage && step is None,
        },
{
}

/// To stop a backend, its container is given ten seconds to stop, and then its network is removed; a
/// failure ends the stopping with that failure, and so does the removal.
pub proof fn law_stop_takes_container_and_network<D, E>(
    interface: DockerInterface<D>,
    name: &str,
    started: (StopContainer, StopAction),
    first: &mut StopContainer,
    stopped: Result<(), E>,
    first_step: Option<StopStep<E>>,
    second: &mut StopContainer,
    removed: Result<(), E>,
    second_step: Option<StopStep<E>>,
)
    requires
        call_ensures(DockerInterface::<D>::stop_container, (&interface, name), started),
        *old(first) == started.0,
        call_ensures(StopContainer::step::<E>, (first, stopped), first_step),
        *old(second) == *final(first),
        call_ensures(StopContainer::step::<E>, (second, removed), second_step),
    ensures
        started.1 is StopContainer,
        started.1->StopContainer_name@ == "backend-"@ + name@,
        started.1->timeout_seconds == 10,
        stopped is Ok ==> {
            &&& first_step is Some && first_step->0 is Perform
            &&& first_step->0->Perform_0 is RemoveNetwork
            &&& first_step->0->Perform_0->RemoveNetwork_name@ == "network-"@ + name@
            &&& second_step == Some(StopStep::Finish(removed))
        },
        stopped is Err ==> first_step == Some(StopStep::Finish(stopped)) && second_step is None,
        final(second).stage == StopStage::Finished,
{
}

/// A backend's port is looked up in the backend's container. If the engine reports bindings for the
/// exposed port, the port of the first of them is found, whatever follows it and whatever address it
/// is bound to; and it may be written with a plus sign and zeros before it.
pub proof fn law_port_of_the_first_binding_is_found<D, E>(
    interface: DockerInterface<D>,
    name: &str,
    lookup: PortLookup,
    inspect: ContainerInspect,
    port: u16,
    plus: bool,
    zeros: nat,
    r: Option<u16>,
)
    requires
        call_ensures(DockerInterface::<D>::get_port, (&interface, name), lookup),
        call_ensures(PortLookup::port::<E>, (&lookup, &Ok(inspect)), r),
        inspect.network_settings is Some,
        inspect.network_settings->0.ports is Some,
        inspect.network_settings->0.ports->0@.contains_key("8080/tcp"@),
        inspect.network_settings->0.ports->0@["8080/tcp"@] is Some,
        inspect.network_settings->0.ports->0@["8080/tcp"@]->0@.len() >= 1,
        inspect.network_settings->0.ports->0@["8080/tcp"@]->0@[0].host_port is Some,
        laws::text::reads_as(
            inspect.network_settings->0.ports->0@["8080/tcp"@]->0@[0].host_port->0@,
            port as nat,
            plus,
            zeros,
        ),
    ensures
        lookup.container@ == "backend-"@ + name@,
        r == Some(port),
{
    lemma_container_port_key();
    laws::text::law_numbers_are_read(port as nat, u16::MAX as nat, plus, zeros);
}

/// A port is found only if the engine reports a first binding of the exposed port to that port.
pub proof fn law_only_the_first_binding_is_found<E>(
    lookup: PortLookup,
    inspected: Result<ContainerInspect, E>,
    r: Option<u16>,
)
    requires
        call_ensures(PortLookup::port::<E>, (&lookup, &inspected), r),
        r is Some,
    ensures
        inspected is Ok,
        inspected->Ok_0.network_settings is Some,
        inspected->Ok_0.network_settings->0.ports is Some,
        inspected->Ok_0.network_settings->0.ports->0@.contains_key("8080/tcp"@),
        inspected->Ok_0.network_settings->0.ports->0@["8080/tcp"@] is Some,
        inspected->Ok_0.network_settings->0.ports->0@["8080/tcp"@]->0@.len() >= 1,
        inspected->Ok_0.network_settings->0.ports->0@["8080/tcp"@]->0@[0].host_port is Some,
        exists|plus: bool, zeros: nat| #[trigger]
            laws::text::reads_as(
                inspected->Ok_0.network_settings->0.ports->0@["8080/tcp"@]->0@[0].host_port->0@,
                r->0 as nat,
                plus,
                zeros,
            ),
{
    lemma_container_port_key();
    laws::text::law_only_numbers_are_read(
        docker::reported_host_port(inspected->Ok_0)->0@,
        u16::MAX as nat,
    );
}

/// A copy of an interface has a copy of the connection, and the same runtime.
pub proof fn law_copy_of_an_interface<D: Clone>(
    interface: DockerInterface<D>,
    copy: DockerInterface<D>,
)
    requires
        call_ensures(<DockerInterface<D> as Clone>::clone, (&interface,), copy),
    ensures
        cloned(interface.docker, copy.docker),
        copy.runtime == interface.runtime,
{
}

} // verus!
