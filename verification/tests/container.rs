use spawner::config::{ContainerInspect, NetworkSettings};
use spawner::container::{
    container_ip, pull_image, ContainerId, ContainerResource, ContainerSpec, LaunchAction,
    LaunchReply, LaunchStep, LogsOptions, PullProgress, TeardownAction, TeardownStage,
    TeardownStep, CLEAR_LINE,
};
use spawner::docker::{DockerInterface, PullStep};
use spawner::net::Ipv4Address;
use spawner::string_map::StringMap;

fn sample() -> ContainerSpec {
    let mut environment = StringMap::new();
    environment.insert("A".to_string(), "1".to_string());
    environment.insert("B".to_string(), "x=y".to_string());
    ContainerSpec {
        name: "nats".to_string(),
        image: "docker.io/nats:2.8".to_string(),
        environment,
        command: vec!["--jetstream".to_string(), "-D".to_string()],
        volumes: vec![("/tmp/a".to_string(), "/data".to_string())],
    }
}

fn ip() -> Ipv4Address {
    Ipv4Address {
        a: 172,
        b: 17,
        c: 0,
        d: 2,
    }
}

fn inspected(address: Option<&str>) -> ContainerInspect {
    ContainerInspect {
        network_settings: Some(NetworkSettings {
            ip_address: address.map(|a| a.to_string()),
            ports: None,
        }),
    }
}

fn shown(status: &str) -> String {
    match pull_image("nats").step::<String>(Some(Ok(Some(status.to_string())))) {
        PullProgress::Show(text) => text,
        _ => panic!("expected a text"),
    }
}

#[test]
fn config_follows_the_specification() {
    let config = sample().as_config();
    assert_eq!(config.hostname, Some("nats".to_string()));
    assert_eq!(config.image, Some("docker.io/nats:2.8".to_string()));
    assert_eq!(config.env, Some(vec!["A=1".to_string(), "B=x=y".to_string()]));
    assert_eq!(
        config.cmd,
        Some(vec!["--jetstream".to_string(), "-D".to_string()])
    );
    assert!(config.exposed_ports.is_none());
    assert!(config.labels.is_none());
    let host = config.host_config.unwrap();
    assert_eq!(host.binds, Some(vec!["/tmp/a:/data".to_string()]));
    assert_eq!(host.network_mode, None);
    assert_eq!(host.runtime, None);
    assert!(host.port_bindings.is_none());
}

#[test]
fn config_of_an_empty_specification_is_not_left_out() {
    let empty = ContainerSpec {
        name: String::new(),
        image: String::new(),
        environment: StringMap::new(),
        command: vec![],
        volumes: vec![],
    };
    let config = empty.clone().as_config();
    assert_eq!(config.hostname, Some(String::new()));
    assert_eq!(config.env, Some(vec![]));
    assert_eq!(config.cmd, Some(vec![]));
    assert_eq!(config.host_config.unwrap().binds, Some(vec![]));
}

#[test]
fn a_copied_specification_gives_the_same_config() {
    let config = sample().clone().as_config();
    assert_eq!(config.env, sample().as_config().env);
    assert_eq!(config.cmd, sample().as_config().cmd);
}

#[test]
fn short_names_have_twelve_characters() {
    let id = ContainerId::new("0123456789abcdef".to_string(), "web".to_string());
    assert_eq!(id.short_name(), "0123456789ab");
    assert_eq!(id.to_string(), "0123456789ab (web)");
    assert_eq!(&*id, "0123456789abcdef");
    assert_eq!(&*id.clone(), "0123456789abcdef");
    let accents = ContainerId::new("\u{e9}".repeat(20), String::new());
    assert_eq!(accents.short_name(), "\u{e9}".repeat(12));
}

#[test]
fn short_ids_are_shown_whole() {
    let id = ContainerId::new("abc".to_string(), "db".to_string());
    assert_eq!(id.short_name(), "abc");
    assert_eq!(id.to_string(), "abc (db)");
    let twelve = ContainerId::new("0123456789ab".to_string(), String::new());
    assert_eq!(twelve.short_name(), "0123456789ab");
    assert_eq!(ContainerId::new(String::new(), String::new()).to_string(), " ()");
}

#[test]
fn the_reported_address_is_read() {
    assert_eq!(container_ip(&inspected(Some("172.17.0.2"))), Some(ip()));
    assert_eq!(container_ip(&inspected(Some(""))), None);
    assert_eq!(container_ip(&inspected(None)), None);
    assert_eq!(
        container_ip(&ContainerInspect {
            network_settings: None
        }),
        None
    );
}

#[test]
fn a_launch_with_good_replies_yields_the_container() {
    let container = sample();
    let (launch, action) = ContainerResource::new(&container);
    assert!(matches!(action, LaunchAction::Connect));
    let (launch, step) = launch.step::<String>(LaunchReply::Connected(Ok(())));
    assert!(
        matches!(step, Some(LaunchStep::Perform(LaunchAction::PullImage { image })) if image == "docker.io/nats:2.8")
    );
    let (launch, step) = launch.step::<String>(LaunchReply::ImagePulled(Ok(())));
    match step {
        Some(LaunchStep::Perform(LaunchAction::CreateContainer { config })) => {
            assert_eq!(config.hostname, Some("nats".to_string()))
        }
        _ => panic!("expected the container to be created"),
    }
    let id = "0123456789abcdef".to_string();
    let (launch, step) = launch.step::<String>(LaunchReply::ContainerCreated(Ok(id.clone())));
    assert!(
        matches!(step, Some(LaunchStep::Perform(LaunchAction::StartContainer { id: i })) if i == id)
    );
    let (launch, step) = launch.step::<String>(LaunchReply::ContainerStarted(Ok(())));
    assert!(
        matches!(step, Some(LaunchStep::Perform(LaunchAction::InspectContainer { id: i })) if i == id)
    );
    let (launch, step) = launch.step::<String>(LaunchReply::ContainerInspected(Ok(inspected(Some("172.17.0.2")))));
    match step {
        Some(LaunchStep::Perform(LaunchAction::FollowLogs {
            id: i,
            options,
            file_name,
        })) => {
            assert_eq!(i, id);
            assert_eq!(
                options,
                LogsOptions {
                    follow: true,
                    stdout: true,
                    stderr: true,
                    timestamps: true
                }
            );
            assert_eq!(file_name, "nats.txt");
        }
        _ => panic!("expected the logs to be followed"),
    }
    let (launch, step) = launch.step::<String>(LaunchReply::LogFileCreated(Ok(())));
    match step {
        Some(LaunchStep::Finish(Ok(resource))) => {
            assert_eq!(resource.container_id.to_string(), "0123456789ab (nats)");
            assert_eq!(resource.ip, ip());
        }
        _ => panic!("expected the container"),
    }
    let (_, step) = launch.step::<String>(LaunchReply::LogFileCreated(Ok(())));
    assert!(step.is_none());
}

#[test]
fn a_launch_ends_with_the_first_failure() {
    let container = sample();
    let good = |part: usize| -> LaunchReply<String> {
        match part {
            0 => LaunchReply::Connected(Ok(())),
            1 => LaunchReply::ImagePulled(Ok(())),
            2 => LaunchReply::ContainerCreated(Ok("c".to_string())),
            3 => LaunchReply::ContainerStarted(Ok(())),
            4 => LaunchReply::ContainerInspected(Ok(inspected(Some("172.17.0.2")))),
            _ => LaunchReply::LogFileCreated(Ok(())),
        }
    };
    let bad = |part: usize| -> LaunchReply<String> {
        let error = format!("part {}", part);
        match part {
            0 => LaunchReply::Connected(Err(error)),
            1 => LaunchReply::ImagePulled(Err(error)),
            2 => LaunchReply::ContainerCreated(Err(error)),
            3 => LaunchReply::ContainerStarted(Err(error)),
            4 => LaunchReply::ContainerInspected(Err(error)),
            _ => LaunchReply::LogFileCreated(Err(error)),
        }
    };
    for failing in 0..6 {
        let (mut launch, _) = ContainerResource::new(&container);
        for part in 0..failing {
            launch = launch.step(good(part)).0;
        }
        let (launch, step) = launch.step(bad(failing));
        match step {
            Some(LaunchStep::Finish(Err(error))) => assert_eq!(error, format!("part {}", failing)),
            _ => panic!("expected a failure"),
        }
        assert!(launch.step(good(failing)).1.is_none());
    }
}

#[test]
fn a_launch_without_an_address_is_given_up() {
    let container = sample();
    let (launch, _) = ContainerResource::new(&container);
    let launch = launch.step::<String>(LaunchReply::Connected(Ok(()))).0;
    let launch = launch.step::<String>(LaunchReply::ImagePulled(Ok(()))).0;
    let launch = launch.step::<String>(LaunchReply::ContainerCreated(Ok("c".to_string()))).0;
    let launch = launch.step::<String>(LaunchReply::ContainerStarted(Ok(()))).0;
    let (launch, step) = launch.step::<String>(LaunchReply::ContainerInspected(Ok(inspected(None))));
    assert!(matches!(step, Some(LaunchStep::NoAddress)));
    assert!(launch.step::<String>(LaunchReply::LogFileCreated(Ok(()))).1.is_none());
}

#[test]
fn a_launch_ignores_replies_out_of_turn() {
    let container = sample();
    let (launch, _) = ContainerResource::new(&container);
    let (launch, step) = launch.step::<String>(LaunchReply::ContainerStarted(Ok(())));
    assert!(step.is_none());
    let (_, step) = launch.step::<String>(LaunchReply::Connected(Ok(())));
    assert!(step.is_some());
}

#[test]
fn a_teardown_stops_and_removes() {
    let resource = ContainerResource {
        container_id: ContainerId::new("cid".to_string(), "web".to_string()),
        ip: ip(),
    };
    let (mut teardown, action) = resource.teardown();
    assert!(matches!(action, TeardownAction::StopContainer { id } if id == "cid"));
    let step = teardown.step::<String>(Ok(()));
    assert!(
        matches!(step, Some(TeardownStep::Perform(TeardownAction::RemoveContainer { id })) if id == "cid")
    );
    assert!(matches!(teardown.step::<String>(Ok(())), Some(TeardownStep::Finish)));
    assert_eq!(teardown.stage, TeardownStage::Finished);
    assert!(teardown.step::<String>(Ok(())).is_none());
}

#[test]
fn a_teardown_that_fails_is_aborted() {
    let resource = ContainerResource {
        container_id: ContainerId::new("cid".to_string(), "web".to_string()),
        ip: ip(),
    };
    let (mut teardown, _) = resource.teardown();
    assert!(
        matches!(teardown.step(Err("x")), Some(TeardownStep::Abort { message, error: "x" }) if message == "Error stopping container.")
    );
    let (mut teardown, _) = resource.teardown();
    teardown.step::<&str>(Ok(()));
    assert!(
        matches!(teardown.step(Err("x")), Some(TeardownStep::Abort { message, error: "x" }) if message == "Error removing container.")
    );
}

#[test]
fn pull_progress_replaces_the_line() {
    assert_eq!(CLEAR_LINE.len(), 89);
    assert!(CLEAR_LINE.ends_with(" \r"));
    assert_eq!(shown(" Downloading \n"), format!("{}Downloading", CLEAR_LINE));
    assert_eq!(shown("\t\r\n "), CLEAR_LINE);
    assert_eq!(shown("a b"), format!("{}a b", CLEAR_LINE));
    let pull = pull_image("nats:2");
    assert_eq!(pull.from_image, "nats:2");
    assert!(matches!(
        pull.step::<String>(Some(Ok(None))),
        PullProgress::Continue
    ));
    assert!(matches!(
        pull.step(Some(Err("no such image"))),
        PullProgress::Failed("no such image")
    ));
    assert!(matches!(pull.step::<String>(None), PullProgress::Done));
}

#[test]
fn white_space_is_what_is_trimmed() {
    let white = |n: u32| {
        (0x9..=0xd).contains(&n)
            || n == 0x20
            || n == 0x85
            || n == 0xa0
            || n == 0x1680
            || (0x2000..=0x200a).contains(&n)
            || n == 0x2028
            || n == 0x2029
            || n == 0x202f
            || n == 0x205f
            || n == 0x3000
    };
    for n in 0..0x11_0000u32 {
        if let Some(c) = char::from_u32(n) {
            assert_eq!(c.is_whitespace(), white(n), "{:x}", n);
            if white(n) || n < 0x3100 {
                let status = format!("{}x{}y{}", c, c, c);
                let expected = if white(n) {
                    format!("{}x{}y", CLEAR_LINE, c)
                } else {
                    format!("{}{}", CLEAR_LINE, status)
                };
                assert_eq!(shown(&status), expected, "{:x}", n);
            }
        }
    }
}

#[test]
fn shown_pulls_end_like_plain_ones() {
    let shown = pull_image("nats");
    let plain = DockerInterface { docker: (), runtime: None }.pull_image("nats");
    assert_eq!(shown.from_image, plain.from_image);
    let items: Vec<Option<Result<Option<String>, u8>>> = vec![
        Some(Ok(Some("Pulling".to_string()))),
        Some(Ok(None)),
        Some(Err(4)),
        None,
    ];
    for item in items {
        match (shown.step(item.clone()), plain.step(item)) {
            (PullProgress::Show(_), PullStep::Continue) => (),
            (PullProgress::Continue, PullStep::Continue) => (),
            (PullProgress::Failed(e), PullStep::Finish(result)) => assert_eq!(result, Err(e)),
            (PullProgress::Done, PullStep::Finish(result)) => assert_eq!(result, Ok(())),
            _ => panic!("expected the same outcome"),
        }
    }
}

#[test]
fn different_variables_give_different_lines() {
    let line = |key: &str, value: &str| {
        let mut container = sample();
        container.environment = StringMap::new();
        container.environment.insert(key.to_string(), value.to_string());
        container.as_config().env.unwrap()[0].clone()
    };
    assert_eq!(line("A", "B=C"), "A=B=C");
    assert_ne!(line("A", "B"), line("AB", ""));
    assert_ne!(line("A", "=B"), line("A", "B"));
    assert_ne!(line("A", ""), line("B", ""));
}
