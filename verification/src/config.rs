//! What the Docker engine is asked to create, and what it reports of a container.
use crate::string_map::StringMap;
use crate::text;
use vstd::prelude::*;
use vstd::string::*;

verus! {

/// A value that carries nothing.
#[derive(Debug, Clone, Copy, PartialEq, Eq)]
pub struct EmptyObject {}

/// A port of the host to which a port of a container is bound.
#[derive(Debug)]
pub struct PortBinding {
    pub host_ip: Option<String>,
    pub host_port: Option<String>,
}

/// The settings of a container that concern its host.
pub struct HostConfig {
    pub binds: Option<Vec<String>>,
    pub network_mode: Option<String>,
    pub port_bindings: Option<StringMap<Option<Vec<PortBinding>>>>,
    pub runtime: Option<String>,
}

impl Default for HostConfig {
    /// No setting is given.
    fn default() -> (config: Self)
        ensures
            config.binds is None,
            config.network_mode is None,
            config.port_bindings is None,
            config.runtime is None,
    {
        HostConfig { binds: None, network_mode: None, port_bindings: None, runtime: None }
    }
}

/// The settings of a container that is to be created. What is `None` is left to the engine.
pub struct ContainerConfig {
    pub hostname: Option<String>,
    pub env: Option<Vec<String>>,
    pub cmd: Option<Vec<String>>,
    pub image: Option<String>,
    pub exposed_ports: Option<StringMap<EmptyObject>>,
    pub labels: Option<StringMap<String>>,
    pub host_config: Option<HostConfig>,
}

impl Default for ContainerConfig {
    /// No setting is given.
    fn default() -> (config: Self)
        ensures
            config.hostname is None,
            config.env is None,
            config.cmd is None,
            config.image is None,
            config.exposed_ports is None,
            config.labels is None,
            config.host_config is None,
    {
        ContainerConfig {
            hostname: None,
            env: None,
            cmd: None,
            image: None,
            exposed_ports: None,
            labels: None,
            host_config: None,
        }
    }
}

/// The network settings that the engine reports of a container.
pub struct NetworkSettings {
    pub ip_address: Option<String>,
    pub ports: Option<StringMap<Option<Vec<PortBinding>>>>,
}

/// What the engine reports of a container.
pub struct ContainerInspect {
    pub network_settings: Option<NetworkSettings>,
}

/// One line `key=value` for each variable, in the order of the variables.
pub open spec fn env_lines(environment: &StringMap<String>) -> Seq<Seq<char>> {
    environment.keys().map_values(|key: Seq<char>| key + "="@ + environment@[key]@)
}

/// The lines that set the variables of an environment.
pub(crate) fn environment_lines(environment: &StringMap<String>) -> (lines: Vec<String>)
    ensures
        text::texts(lines@) == env_lines(environment),
{
    let mut lines: Vec<String> = Vec::new();
    let n = environment.len();
    let mut i: usize = 0;
    while i < n
        invariant
            i <= n,
            n == environment.keys().len(),
            text::texts(lines@) == env_lines(environment).take(i as int),
        decreases n - i,
    {
        let line = text::join(environment.key_at(i), "=", environment.value_at(i).as_str());
        let ghost before = lines@;
        lines.push(line);
        proof {
            assert(text::texts(lines@) =~= text::texts(before).push(line@));
            assert(env_lines(environment).take(i + 1) =~= env_lines(environment).take(
                i as int,
            ).push(env_lines(environment)[i as int]));
        }
        i = i + 1;
    }
    assert(env_lines(environment).take(n as int) =~= env_lines(environment));
    lines
}

} // verus!
