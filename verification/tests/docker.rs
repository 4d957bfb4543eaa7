use spawner::config::{ContainerConfig, ContainerInspect, NetworkSettings, PortBinding};
use spawner::docker::{
    backend_name, make_exposed_ports, network_name, ContainerEvent,
    ContainerEventType, DockerApiTransport, DockerInterface, DockerOptions, EventActor,
    EventMessage, PullStep, RunAction, RunContainer, RunError, RunReply, RunStage, RunStep,
    StopAction, StopStep,
};
use spawner::string_map::StringMap;

fn interface(runtime: Option<&str>) -> DockerInterface<u8> {
    DockerInterface {
        docker: 7,
        runtime: runtime.map(|r| r.to_string()),
    }
}

fn message(action: Option<&str>, id: Option<&str>, exit_code: Option<&str>) -> EventMessage {
    let mut attributes = StringMap::new();
    attributes.insert("image".to_string(), "nginx".to_string());
    if let Some(code) = exit_code {
        attributes.insert("exitCode".to_string(), code.to_string());
    }
    EventMessage {
        action: action.map(|a| a.to_string()),
        actor: Some(EventActor {
            id: id.map(|i| i.to_string()),
            attributes: Some(attributes),
        }),
    }
}

fn event_of(message: &EventMessage) -> Option<(ContainerEventType, String)> {
    ContainerEvent::from_event_message(message).map(|e| (e.event, e.container))
}

fn inspect_with(ports: Option<StringMap<Option<Vec<PortBinding>>>>) -> ContainerInspect {
    ContainerInspect {
        network_settings: Some(NetworkSettings {
            ip_address: None,
            ports,
        }),
    }
}

fn one_port(key: &str, bindings: Option<Vec<PortBinding>>) -> ContainerInspect {
    let mut ports = StringMap::new();
    ports.insert(key.to_string(), bindings);
    inspect_with(Some(ports))
}

fn binding(port: Option<&str>) -> PortBinding {
    PortBinding {
        host_ip: Some("0.0.0.0".to_string()),
        host_port: port.map(|p| p.to_string()),
    }
}

fn port_of(inspect: ContainerInspect) -> Option<u16> {
    let inspected: Result<ContainerInspect, String> = Ok(inspect);
    interface(None).get_port("abc").port(&inspected)
}

fn start_run() -> (RunContainer, RunAction) {
    let mut env = StringMap::new();
    env.insert("PORT".to_string(), "8080".to_string());
    env.insert("MODE".to_string(), "a=b".to_string());
    interface(Some("runsc")).run_container("abc", "my/image:1", &env)
}

fn created(step: Option<RunStep<String>>) -> (String, ContainerConfig) {
    match step {
        Some(RunStep::Perform(RunAction::CreateContainer { name, config })) => (name, config),
        _ => panic!("expected the container to be created"),
    }
}

#[test]
fn names_carry_the_backend() {
    assert_eq!(backend_name("abc"), "backend-abc");
    assert_eq!(network_name("abc"), "network-abc");
    assert_eq!(backend_name(""), "backend-");
    assert_eq!(network_name("\u{e9}"), "network-\u{e9}");
}

#[test]
fn names_are_distinct() {
    assert_ne!(backend_name("a"), backend_name("b"));
    assert_ne!(network_name("a"), network_name("b"));
    assert_ne!(backend_name("a"), network_name("a"));
}

#[test]
fn exposed_ports_hold_one_tcp_port() {
    let ports = make_exposed_ports(8080).unwrap();
    assert_eq!(ports.len(), 1);
    assert_eq!(ports.key_at(0), "8080/tcp");
    assert_eq!(make_exposed_ports(0).unwrap().key_at(0), "0/tcp");
    assert_eq!(make_exposed_ports(65535).unwrap().key_at(0), "65535/tcp");
}

#[test]
fn tracked_actions_become_events() {
    let cases = [
        ("start", ContainerEventType::Start),
        ("create", ContainerEventType::Create),
        ("stop", ContainerEventType::Stop),
        ("kill", ContainerEventType::Kill),
    ];
    for (action, expected) in cases {
        assert_eq!(
            event_of(&message(Some(action), Some("id1"), None)),
            Some((expected, "id1".to_string()))
        );
    }
}

#[test]
fn other_actions_are_ignored() {
    for action in ["", "died", "Die", "pause", "destroy", "exec_start"] {
        assert_eq!(event_of(&message(Some(action), Some("id1"), Some("0"))), None);
    }
}

#[test]
fn unhandled_actions_are_told() {
    assert_eq!(
        message(Some("pause"), Some("id1"), None).unhandled_action(),
        Some("pause")
    );
    for action in ["die", "stop", "start", "kill", "create"] {
        assert_eq!(message(Some(action), Some("id1"), None).unhandled_action(), None);
    }
    assert_eq!(message(Some("pause"), None, None).unhandled_action(), None);
    assert_eq!(message(None, Some("id1"), None).unhandled_action(), None);
    let no_actor = EventMessage {
        action: Some("pause".to_string()),
        actor: None,
    };
    assert_eq!(no_actor.unhandled_action(), None);
}

#[test]
fn incomplete_messages_are_ignored() {
    assert_eq!(event_of(&message(None, Some("id1"), Some("0"))), None);
    assert_eq!(event_of(&message(Some("start"), None, Some("0"))), None);
    assert_eq!(event_of(&message(Some("die"), Some("id1"), None)), None);
    let no_actor = EventMessage {
        action: Some("start".to_string()),
        actor: None,
    };
    assert_eq!(event_of(&no_actor), None);
    let no_attributes = EventMessage {
        action: Some("die".to_string()),
        actor: Some(EventActor {
            id: Some("id1".to_string()),
            attributes: None,
        }),
    };
    assert_eq!(event_of(&no_attributes), None);
}

#[test]
fn exit_codes_are_read_like_unsigned_integers() {
    let codes = [
        "0", "1", "137", "00", "+0", "+", "-0", "-1", "", " 0", "0 ", "0x0", "4294967295",
        "4294967296", "99999999999999999999999", "000000000000000000000000000000", "+00001",
        "++0", "\u{0660}", "1_0", "a",
    ];
    for code in codes {
        let expected = code.parse::<u32>().unwrap_or(1) != 0;
        assert_eq!(
            event_of(&message(Some("die"), Some("id1"), Some(code))),
            Some((
                ContainerEventType::Die {
                    error_status: expected
                },
                "id1".to_string()
            )),
            "{:?}",
            code
        );
    }
}

#[test]
fn a_nonzero_exit_code_is_an_error_status() {
    let zero = event_of(&message(Some("die"), Some("x"), Some("0"))).unwrap();
    assert_eq!(zero.0, ContainerEventType::Die { error_status: false });
    let one = event_of(&message(Some("die"), Some("x"), Some("1"))).unwrap();
    assert_eq!(one.0, ContainerEventType::Die { error_status: true });
    let text = event_of(&message(Some("die"), Some("x"), Some("none"))).unwrap();
    assert_eq!(text.0, ContainerEventType::Die { error_status: true });
}

#[test]
fn event_stream_errors_are_skipped() {
    let docker = interface(None);
    let events = docker.container_events();
    assert!(events.event::<String>(Err("lost".to_string())).is_none());
    let event = events.event::<String>(Ok(message(Some("kill"), Some("c"), None)));
    assert_eq!(event.unwrap().container, "c");
    assert_eq!(events.since, None);
    assert_eq!(events.until, None);
    let filters = events.filters;
    assert_eq!(filters.len(), 1);
    assert_eq!(filters.get("type"), Some(&vec!["container".to_string()]));
}

#[test]
fn connections_follow_the_options() {
    let options = DockerOptions {
        transport: DockerApiTransport::Socket("/var/run/docker.sock".to_string()),
        runtime: Some("runsc".to_string()),
    };
    let connection = options.connection();
    assert!(matches!(connection.transport, DockerApiTransport::Socket(p) if p == "/var/run/docker.sock"));
    assert_eq!(connection.timeout_seconds, 30);
    let docker = DockerInterface::try_new::<String>(&options, Ok(3u32)).ok().unwrap();
    assert_eq!(docker.docker, 3);
    assert_eq!(docker.runtime, Some("runsc".to_string()));
    let failed = DockerInterface::<u32>::try_new(&options, Err("refused".to_string()));
    assert_eq!(failed.err(), Some("refused".to_string()));
    let http = DockerOptions {
        transport: DockerApiTransport::Http("http://docker:2375".to_string()),
        runtime: None,
    };
    assert!(matches!(http.connection().transport, DockerApiTransport::Http(a) if a == "http://docker:2375"));
}

#[test]
fn a_pull_fails_with_its_first_error() {
    let pull = interface(None).pull_image("nginx:1");
    assert_eq!(pull.from_image, "nginx:1");
    let items: Vec<Result<u8, &str>> = vec![Ok(1), Err("first"), Err("second")];
    let mut outcome = None;
    for item in items {
        match pull.step(Some(item)) {
            PullStep::Continue => (),
            PullStep::Finish(result) => {
                outcome = Some(result);
                break;
            }
        }
    }
    assert_eq!(outcome, Some(Err("first")));
    assert!(matches!(
        pull.step::<u8, String>(None),
        PullStep::Finish(Ok(()))
    ));
}

#[test]
fn a_run_creates_the_network_first() {
    let (run, action) = start_run();
    assert!(matches!(action, RunAction::CreateNetwork { name } if name == "network-abc"));
    assert_eq!(run.stage, RunStage::CreatingNetwork);
    assert_eq!(run.env, vec!["PORT=8080".to_string(), "MODE=a=b".to_string()]);
}

#[test]
fn a_run_with_good_replies_succeeds() {
    let (mut run, _) = start_run();
    let step = run.step::<String>(RunReply::NetworkCreated(Ok(Some("net1".to_string()))));
    let (name, config) = created(step);
    assert_eq!(name, "backend-abc");
    assert_eq!(config.image, Some("my/image:1".to_string()));
    assert_eq!(
        config.env,
        Some(vec!["PORT=8080".to_string(), "MODE=a=b".to_string()])
    );
    assert_eq!(config.hostname, None);
    assert_eq!(config.cmd, None);
    assert_eq!(config.exposed_ports.unwrap().key_at(0), "8080/tcp");
    let labels = config.labels.unwrap();
    assert_eq!(labels.len(), 2);
    assert_eq!(labels.get("dev.spawner.managed"), Some(&"true".to_string()));
    assert_eq!(labels.get("dev.spawner.backend"), Some(&"abc".to_string()));
    let host = config.host_config.unwrap();
    assert_eq!(host.network_mode, Some("net1".to_string()));
    assert_eq!(host.runtime, Some("runsc".to_string()));
    assert_eq!(host.binds, None);
    let bindings = host.port_bindings.unwrap();
    assert_eq!(bindings.len(), 1);
    let bound = bindings.get("8080/tcp").unwrap().as_ref().unwrap();
    assert_eq!(bound.len(), 1);
    assert_eq!(bound[0].host_ip, None);
    assert_eq!(bound[0].host_port, Some("0".to_string()));

    let step = run.step::<String>(RunReply::ContainerCreated(Ok("c1".to_string())));
    assert!(matches!(step, Some(RunStep::Perform(RunAction::StartContainer { id })) if id == "c1"));
    let step = run.step::<String>(RunReply::ContainerStarted(Ok(())));
    assert!(matches!(step, Some(RunStep::Finish(Ok(name))) if name == "backend-abc"));
    assert_eq!(run.stage, RunStage::Finished);
}

#[test]
fn a_run_without_a_network_id_fails() {
    let (mut run, _) = start_run();
    match run.step::<String>(RunReply::NetworkCreated(Ok(None))) {
        Some(RunStep::Finish(Err(error))) => {
            assert_eq!(error, RunError::NoNetworkId);
            assert_eq!(
                error.message(),
                Some("Network response contained no network id.".to_string())
            );
        }
        _ => panic!("expected a failure"),
    }
    assert!(run
        .step::<String>(RunReply::ContainerCreated(Ok("c1".to_string())))
        .is_none());
}

#[test]
fn a_run_ends_with_the_first_failure() {
    let (mut run, _) = start_run();
    let step = run.step(RunReply::NetworkCreated(Err("no network".to_string())));
    assert!(matches!(step, Some(RunStep::Finish(Err(RunError::Docker(e)))) if e == "no network"));

    let (mut run, _) = start_run();
    run.step::<String>(RunReply::NetworkCreated(Ok(Some("n".to_string()))));
    let step = run.step(RunReply::ContainerCreated(Err("no container".to_string())));
    assert!(matches!(step, Some(RunStep::Finish(Err(RunError::Docker(e)))) if e == "no container"));

    let (mut run, _) = start_run();
    run.step::<String>(RunReply::NetworkCreated(Ok(Some("n".to_string()))));
    run.step::<String>(RunReply::ContainerCreated(Ok("c".to_string())));
    let step = run.step(RunReply::ContainerStarted(Err("no start".to_string())));
    match step {
        Some(RunStep::Finish(Err(error))) => {
            assert_eq!(error.message(), None);
            assert_eq!(error, RunError::Docker("no start".to_string()));
        }
        _ => panic!("expected a failure"),
    }
    assert!(run.step::<String>(RunReply::ContainerStarted(Ok(()))).is_none());
}

#[test]
fn a_run_ignores_replies_out_of_turn() {
    let (mut run, _) = start_run();
    assert!(run.step::<String>(RunReply::ContainerStarted(Ok(()))).is_none());
    assert!(run
        .step::<String>(RunReply::ContainerCreated(Err("x".to_string())))
        .is_none());
    assert_eq!(run.stage, RunStage::CreatingNetwork);
}

#[test]
fn stopping_undoes_running() {
    let docker = interface(None);
    let (mut run, network) = docker.run_container("abc", "img", &StringMap::new());
    let (container, _) =
        created(run.step::<String>(RunReply::NetworkCreated(Ok(Some("n".to_string())))));
    let (mut stop, action) = docker.stop_container("abc");
    match action {
        StopAction::StopContainer {
            name,
            timeout_seconds,
        } => {
            assert_eq!(name, container);
            assert_eq!(timeout_seconds, 10);
        }
        _ => panic!("expected the container to be stopped"),
    }
    match (stop.step::<String>(Ok(())), network) {
        (
            Some(StopStep::Perform(StopAction::RemoveNetwork { name })),
            RunAction::CreateNetwork { name: created },
        ) => assert_eq!(name, created),
        _ => panic!("expected the network to be removed"),
    }
    assert!(matches!(stop.step::<String>(Ok(())), Some(StopStep::Finish(Ok(())))));
    assert!(stop.step::<String>(Ok(())).is_none());
}

#[test]
fn stopping_ends_with_the_first_failure() {
    let docker = interface(None);
    let (mut stop, _) = docker.stop_container("abc");
    assert!(matches!(stop.step(Err("gone")), Some(StopStep::Finish(Err("gone")))));
    assert!(stop.step::<&str>(Ok(())).is_none());
    let (mut stop, _) = docker.stop_container("abc");
    stop.step::<&str>(Ok(()));
    assert!(matches!(stop.step(Err("in use")), Some(StopStep::Finish(Err("in use")))));
}

#[test]
fn the_port_is_that_of_the_first_binding() {
    let bindings = vec![binding(Some("49153")), binding(Some("49154"))];
    assert_eq!(port_of(one_port("8080/tcp", Some(bindings))), Some(49153));
}

#[test]
fn a_missing_port_is_not_found() {
    let lookup = interface(None).get_port("abc");
    assert_eq!(lookup.port::<String>(&Err("no such container".to_string())), None);
    assert_eq!(port_of(ContainerInspect { network_settings: None }), None);
    assert_eq!(port_of(inspect_with(None)), None);
    assert_eq!(port_of(inspect_with(Some(StringMap::new()))), None);
    assert_eq!(port_of(one_port("80/tcp", Some(vec![binding(Some("1"))]))), None);
    assert_eq!(port_of(one_port("8080/tcp", None)), None);
    assert_eq!(port_of(one_port("8080/tcp", Some(vec![]))), None);
    assert_eq!(port_of(one_port("8080/tcp", Some(vec![binding(None)]))), None);
}

#[test]
fn ports_are_read_like_unsigned_integers() {
    for text in ["0", "65535", "65536", "+80", "-1", "", "080", "8080 ", "x"] {
        assert_eq!(
            port_of(one_port("8080/tcp", Some(vec![binding(Some(text))]))),
            text.parse::<u16>().ok(),
            "{:?}",
            text
        );
    }
}

#[test]
fn interfaces_can_be_copied() {
    let copy = interface(Some("runsc")).clone();
    assert_eq!(copy.docker, 7);
    assert_eq!(copy.runtime, Some("runsc".to_string()));
}

#[test]
fn the_bound_port_is_the_one_that_is_looked_up() {
    let (mut run, _) = start_run();
    let (container, config) =
        created(run.step::<String>(RunReply::NetworkCreated(Ok(Some("n".to_string())))));
    assert_eq!(interface(None).get_port("abc").container, container);
    let bindings = config.host_config.unwrap().port_bindings.unwrap();
    let mut ports = StringMap::new();
    for i in 0..bindings.len() {
        ports.insert(bindings.key_at(i).to_string(), Some(vec![binding(Some("32768"))]));
    }
    assert_eq!(port_of(inspect_with(Some(ports))), Some(32768));
}
