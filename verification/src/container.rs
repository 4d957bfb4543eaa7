//! Containers that are launched for a while, with their logs kept, and then torn down.
use crate::config::{ContainerConfig, ContainerInspect, HostConfig};
use crate::net::Ipv4Address;
use crate::string_map::StringMap;
use crate::{config, docker, net, text};
use vstd::prelude::*;
use vstd::string::*;

verus! {

/// How many characters of a container's id are shown.
pub const SHORT_NAME_LENGTH: usize = 12;

/// What a container is to be launched from.
pub struct ContainerSpec {
    pub name: String,
    pub image: String,
    pub environment: StringMap<String>,
    pub command: Vec<String>,
    pub volumes: Vec<(String, String)>,
}

/// One line `source:destination` for each volume, in the order of the volumes.
pub open spec fn volume_binds(volumes: Seq<(String, String)>) -> Seq<Seq<char>> {
    volumes.map_values(|volume: (String, String)| volume.0@ + ":"@ + volume.1@)
}

/// Whether `config` is what a container is created from under a specification.
pub open spec fn is_config_of(config: ContainerConfig, spec_: ContainerSpec) -> bool {
    &&& text::optional_text(config.hostname) == Some(spec_.name@)
    &&& config.env matches Some(env) && text::texts(env@) == config::env_lines(&spec_.environment)
    &&& config.cmd matches Some(cmd) && text::texts(cmd@) == text::texts(spec_.command@)
    &&& text::optional_text(config.image) == Some(spec_.image@)
    &&& config.exposed_ports is None
    &&& config.labels is None
    &&& config.host_config matches Some(host) && {
        &&& host.binds matches Some(binds) && text::texts(binds@) == volume_binds(spec_.volumes@)
        &&& host.network_mode is None
        &&& host.port_bindings is None
        &&& host.runtime is None
    }
}

/// The lines that mount volumes.
fn volume_lines(volumes: &Vec<(String, String)>) -> (lines: Vec<String>)
    ensures
        text::texts(lines@) == volume_binds(volumes@),
{
    let mut lines: Vec<String> = Vec::new();
    let mut i: usize = 0;
    while i < volumes.len()
        invariant
            i <= volumes@.len(),
            text::texts(lines@) == volume_binds(volumes@).take(i as int),
        decreases volumes@.len() - i,
    {
        let line = text::join(volumes[i].0.as_str(), ":", volumes[i].1.as_str());
        let ghost before = lines@;
        lines.push(line);
        proof {
            assert(text::texts(lines@) =~= text::texts(before).push(line@));
            assert(volume_binds(volumes@).take(i + 1) =~= volume_binds(volumes@).take(
                i as int,
            ).push(volume_binds(volumes@)[i as int]));
        }
        i = i + 1;
    }
    assert(volume_binds(volumes@).take(i as int) =~= volume_binds(volumes@));
    lines
}

impl ContainerSpec {
    /// The settings from which the container is created.
    pub fn as_config(&self) -> (config: ContainerConfig)
        ensures
            is_config_of(config, *self),
    {
        let command = self.command.clone();
        assert(text::texts(command@) =~= text::texts(self.command@));
        ContainerConfig {
            hostname: Some(self.name.clone()),
            env: Some(config::environment_lines(&self.environment)),
            cmd: Some(command),
            image: Some(self.image.clone()),
            host_config: Some(
                HostConfig { binds: Some(volume_lines(&self.volumes)), ..HostConfig::default() },
            ),
            ..ContainerConfig::default()
        }
    }
}

impl Clone for ContainerSpec {
    fn clone(&self) -> (copy: Self)
        ensures
            copy.name == self.name,
            copy.image == self.image,
            copy.environment@ == self.environment@,
            copy.environment.keys() == self.environment.keys(),
            copy.command@ == self.command@,
            copy.volumes@ == self.volumes@,
    {
        let environment = self.environment.clone();
        assert(environment@ =~= self.environment@);
        let command = self.command.clone();
        assert(command@ =~= self.command@);
        let mut volumes: Vec<(String, String)> = Vec::new();
        let mut i: usize = 0;
        while i < self.volumes.len()
            invariant
                i <= self.volumes@.len(),
                volumes@ == self.volumes@.take(i as int),
            decreases self.volumes@.len() - i,
        {
            volumes.push((self.volumes[i].0.clone(), self.volumes[i].1.clone()));
            assert(volumes@ =~= self.volumes@.take(i + 1));
            i = i + 1;
        }
        assert(volumes@ =~= self.volumes@);
        ContainerSpec {
            name: self.name.clone(),
            image: self.image.clone(),
            environment,
            command,
            volumes,
        }
    }
}

/// The id of a container, with a hint that tells people which container it is.
pub struct ContainerId {
    name: String,
    hint: String,
}

/// The first characters of a container's id.
pub open spec fn short_name_text(name: Seq<char>) -> Seq<char> {
    if name.len() <= SHORT_NAME_LENGTH {
        name
    } else {
        name.take(SHORT_NAME_LENGTH as int)
    }
}

impl ContainerId {
    /// The id itself.
    pub closed spec fn name(&self) -> Seq<char> {
        self.name@
    }

    /// The hint.
    pub closed spec fn hint(&self) -> Seq<char> {
        self.hint@
    }

    /// The id `name`, with a hint.
    pub fn new(name: String, hint: String) -> (id: ContainerId)
        ensures
            id.name() == name@,
            id.hint() == hint@,
    {
        ContainerId { name, hint }
    }

    /// The first characters of the id.
    pub fn short_name(&self) -> (short: String)
        ensures
            short@ == short_name_text(self.name()),
    {
        let length = self.name.as_str().unicode_len();
        if length <= SHORT_NAME_LENGTH {
            self.name.clone()
        } else {
            self.name.as_str().substring_char(0, SHORT_NAME_LENGTH).to_owned()
        }
    }

    /// How the id is shown: its first characters, and the hint in brackets.
    pub fn to_string(&self) -> (s: String)
        ensures
            s@ == short_name_text(self.name()) + " ("@ + self.hint() + ")"@,
    {
        let mut s = self.short_name();
        s.append(" (");
        s.append(self.hint.as_str());
        s.append(")");
        s
    }
}

impl Clone for ContainerId {
    fn clone(&self) -> (copy: Self)
        ensures
            copy == *self,
    {
        ContainerId { name: self.name.clone(), hint: self.hint.clone() }
    }
}

impl std::ops::Deref for ContainerId {
    type Target = str;

    fn deref(&self) -> (name: &str)
        ensures
            name@ == self.name(),
    {
        self.name.as_str()
    }
}

/// What the engine reports as the address of a container.
pub open spec fn reported_address(inspect: ContainerInspect) -> Option<Seq<char>> {
    match inspect.network_settings {
        Some(settings) => text::optional_text(settings.ip_address),
        None => None,
    }
}

/// Whether what the engine reports of a container tells an address.
pub open spec fn has_address(inspect: ContainerInspect) -> bool {
    exists|ip: Ipv4Address| reported_address(inspect) == Some(#[trigger] ip.dotted())
}

/// The address of a container, by what the engine reports of it, if that is an address.
pub fn container_ip(inspect: &ContainerInspect) -> (r: Option<Ipv4Address>)
    ensures
        match r {
            Some(ip) => reported_address(*inspect) == Some(ip.dotted()),
            None => !has_address(*inspect),
        },
{
    match &inspect.network_settings {
        Some(settings) => match &settings.ip_address {
            Some(address) => Ipv4Address::parse(address.as_str()),
            None => None,
        },
        None => None,
    }
}

/// Which part of a container's logs is followed, and how.
#[derive(Debug, Clone, Copy, PartialEq, Eq, Structural)]
pub struct LogsOptions {
    pub follow: bool,
    pub stdout: bool,
    pub stderr: bool,
    pub timestamps: bool,
}

/// What launching a container asks for.
pub enum LaunchAction {
    /// Connect to the Docker engine.
    Connect,
    PullImage { image: String },
    CreateContainer { config: ContainerConfig },
    StartContainer { id: String },
    InspectContainer { id: String },
    /// Follow the logs of a container, and create the file that they are written to.
    FollowLogs { id: String, options: LogsOptions, file_name: String },
}

/// What came of something that was asked for.
pub enum LaunchReply<E> {
    Connected(Result<(), E>),
    ImagePulled(Result<(), E>),
    /// The id of the container.
    ContainerCreated(Result<String, E>),
    ContainerStarted(Result<(), E>),
    /// What the engine reports of the container.
    ContainerInspected(Result<ContainerInspect, E>),
    LogFileCreated(Result<(), E>),
}

/// A container that was launched.
pub struct ContainerResource {
    pub container_id: ContainerId,
    pub ip: Ipv4Address,
}

/// What to do next while a container is being launched.
pub enum LaunchStep<E> {
    Perform(LaunchAction),
    Finish(Result<ContainerResource, E>),
    /// Give up: the engine reports no address of the container, which is a fault.
    NoAddress,
}

/// What the launch of a container waits for.
pub enum LaunchStage {
    Connecting,
    PullingImage,
    CreatingContainer,
    StartingContainer(ContainerId),
    InspectingContainer(ContainerId),
    CreatingLogFile(ContainerId, Ipv4Address),
    Finished,
}

/// A container that is being launched.
pub struct Launch<'a> {
    pub container: &'a ContainerSpec,
    pub stage: LaunchStage,
}

/// How the launch of a container goes on with a reply. An error ends it, and a reply for which it
/// does not wait changes nothing.
pub open spec fn launch_step<E>(
    before: Launch<'_>,
    reply: LaunchReply<E>,
    after: Launch<'_>,
    step: Option<LaunchStep<E>>,
) -> bool {
    &&& after.container == before.container
    &&& match (before.stage, reply) {
        (LaunchStage::Connecting, LaunchReply::Connected(Ok(_))) => {
            &&& after.stage is PullingImage
            &&& step matches Some(LaunchStep::Perform(LaunchAction::PullImage { image })) && image@
                == before.container.image@
        },
        (LaunchStage::PullingImage, LaunchReply::ImagePulled(Ok(_))) => {
            &&& after.stage is CreatingContainer
            &&& step matches Some(LaunchStep::Perform(LaunchAction::CreateContainer { config }))
                && is_config_of(config, *before.container)
        },
        (LaunchStage::CreatingContainer, LaunchReply::ContainerCreated(Ok(created))) => {
            &&& after.stage matches LaunchStage::StartingContainer(id) && id.name() == created@
                && id.hint() == before.container.name@
            &&& step matches Some(LaunchStep::Perform(LaunchAction::StartContainer { id })) && id@
                == created@
        },
        (LaunchStage::StartingContainer(started), LaunchReply::ContainerStarted(Ok(_))) => {
            &&& after.stage == LaunchStage::InspectingContainer(started)
            &&& step matches Some(LaunchStep::Perform(LaunchAction::InspectContainer { id })) && id@
                == started.name()
        },
        (
            LaunchStage::InspectingContainer(inspected),
            LaunchReply::ContainerInspected(Ok(inspect)),
        ) => if has_address(inspect) {
            &&& after.stage matches LaunchStage::CreatingLogFile(container_id, ip) && container_id
                == inspected && reported_address(inspect) == Some(ip.dotted())
            &&& step matches Some(
                LaunchStep::Perform(LaunchAction::FollowLogs { id, options, file_name }),
            ) && id@ == inspected.name() && options == (LogsOptions {
                follow: true,
                stdout: true,
                stderr: true,
                timestamps: true,
            }) && file_name@ == before.container.name@ + ".txt"@
        } else {
            &&& after.stage is Finished
            &&& step == Some(LaunchStep::NoAddress::<E>)
        },
        (LaunchStage::CreatingLogFile(container_id, ip), LaunchReply::LogFileCreated(Ok(_))) => {
            &&& after.stage is Finished
            &&& step == Some(LaunchStep::Finish::<E>(Ok(ContainerResource { container_id, ip })))
        },
        (LaunchStage::Connecting, LaunchReply::Connected(Err(error)))
        | (LaunchStage::PullingImage, LaunchReply::ImagePulled(Err(error)))
        | (LaunchStage::CreatingContainer, LaunchReply::ContainerCreated(Err(error)))
        | (LaunchStage::StartingContainer(_), LaunchReply::ContainerStarted(Err(error)))
        | (LaunchStage::InspectingContainer(_), LaunchReply::ContainerInspected(Err(error)))
        | (LaunchStage::CreatingLogFile(_, _), LaunchReply::LogFileCreated(Err(error))) => {
            &&& after.stage is Finished
            &&& step == Some(LaunchStep::Finish::<E>(Err(error)))
        },
        _ => after.stage == before.stage && step is None,
    }
}

impl<'a> Launch<'a> {
    /// Takes a reply, and says what to do next. There is nothing to do for a reply that is not
    /// waited for.
    pub fn step<E>(self, reply: LaunchReply<E>) -> (r: (Self, Option<LaunchStep<E>>))
        ensures
            launch_step(self, reply, r.0, r.1),
    {
        let container = self.container;
        let (stage, step) = match (self.stage, reply) {
            (LaunchStage::Connecting, LaunchReply::Connected(result)) => match result {
                Ok(_) => (
                    LaunchStage::PullingImage,
                    Some(
                        LaunchStep::Perform(
                            LaunchAction::PullImage { image: container.image.clone() },
                        ),
                    ),
                ),
                Err(error) => (LaunchStage::Finished, Some(LaunchStep::Finish(Err(error)))),
            },
            (LaunchStage::PullingImage, LaunchReply::ImagePulled(result)) => match result {
                Ok(_) => (
                    LaunchStage::CreatingContainer,
                    Some(
                        LaunchStep::Perform(
                            LaunchAction::CreateContainer { config: container.as_config() },
                        ),
                    ),
                ),
                Err(error) => (LaunchStage::Finished, Some(LaunchStep::Finish(Err(error)))),
            },
            (LaunchStage::CreatingContainer, LaunchReply::ContainerCreated(result)) => match result {
                Ok(id) => (
                    LaunchStage::StartingContainer(
                        ContainerId::new(id.clone(), container.name.clone()),
                    ),
                    Some(LaunchStep::Perform(LaunchAction::StartContainer { id })),
                ),
                Err(error) => (LaunchStage::Finished, Some(LaunchStep::Finish(Err(error)))),
            },
            (LaunchStage::StartingContainer(started), LaunchReply::ContainerStarted(result)) =>
            match result {
                Ok(_) => {
                    let id = started.name.clone();
                    (
                        LaunchStage::InspectingContainer(started),
                        Some(LaunchStep::Perform(LaunchAction::InspectContainer { id })),
                    )
                },
                Err(error) => (LaunchStage::Finished, Some(LaunchStep::Finish(Err(error)))),
            },
            (LaunchStage::InspectingContainer(inspected), LaunchReply::ContainerInspected(result)) =>
            match result {
                Ok(inspect) => match container_ip(&inspect) {
                    Some(ip) => {
                        let id = inspected.name.clone();
                        let options = LogsOptions {
                            follow: true,
                            stdout: true,
                            stderr: true,
                            timestamps: true,
                        };
                        let mut file_name = container.name.clone();
                        file_name.append(".txt");
                        (
                            LaunchStage::CreatingLogFile(inspected, ip),
                            Some(
                                LaunchStep::Perform(
                                    LaunchAction::FollowLogs { id, options, file_name },
                                ),
                            ),
                        )
                    },
                    None => (LaunchStage::Finished, Some(LaunchStep::NoAddress)),
                },
                Err(error) => (LaunchStage::Finished, Some(LaunchStep::Finish(Err(error)))),
            },
            (LaunchStage::CreatingLogFile(container_id, ip), LaunchReply::LogFileCreated(result)) =>
            match result {
                Ok(_) => (
                    LaunchStage::Finished,
                    Some(LaunchStep::Finish(Ok(ContainerResource { container_id, ip }))),
                ),
                Err(error) => (LaunchStage::Finished, Some(LaunchStep::Finish(Err(error)))),
            },
            (stage, _) => (stage, None),
        };
        (Launch { container, stage }, step)
    }
}

impl ContainerResource {
    /// Begins to launch a container: a connection to the Docker engine is made first.
    pub fn new<'a>(spec_: &'a ContainerSpec) -> (r: (Launch<'a>, LaunchAction))
        ensures
            r.0.container == spec_,
            r.0.stage is Connecting,
            r.1 is Connect,
    {
        (Launch { container: spec_, stage: LaunchStage::Connecting }, LaunchAction::Connect)
    }

    /// Begins to tear the container down: it is stopped first.
    pub fn teardown(&self) -> (r: (Teardown, TeardownAction))
        ensures
            r.0.container_id == self.container_id,
            r.0.stage is StoppingContainer,
            r.1 matches TeardownAction::StopContainer { id } && id@ == self.container_id.name(),
    {
        let id = self.container_id.name.clone();
        let teardown = Teardown {
            container_id: self.container_id.clone(),
            stage: TeardownStage::StoppingContainer,
        };
        (teardown, TeardownAction::StopContainer { id })
    }
}

/// What tearing a container down asks of the Docker engine.
#[derive(Debug)]
pub enum TeardownAction {
    StopContainer { id: String },
    RemoveContainer { id: String },
}

/// What to do next while a container is being torn down.
#[derive(Debug)]
pub enum TeardownStep<E> {
    Perform(TeardownAction),
    Finish,
    /// Give up with a message: a container that cannot be torn down is a fault.
    Abort { message: String, error: E },
}

/// What the teardown of a container waits for.
#[derive(Debug, Clone, Copy, PartialEq, Eq, Structural)]
pub enum TeardownStage {
    StoppingContainer,
    RemovingContainer,
    Finished,
}

/// A container that is being torn down.
pub struct Teardown {
    pub container_id: ContainerId,
    pub stage: TeardownStage,
}

/// How the teardown of a container goes on with a reply. Once it has finished, a reply changes
/// nothing.
pub open spec fn teardown_step<E>(
    before: Teardown,
    reply: Result<(), E>,
    after: Teardown,
    step: Option<TeardownStep<E>>,
) -> bool {
    &&& after.container_id == before.container_id
    &&& match (before.stage, reply) {
        (TeardownStage::StoppingContainer, Ok(_)) => {
            &&& after.stage is RemovingContainer
            &&& step matches Some(TeardownStep::Perform(TeardownAction::RemoveContainer { id }))
                && id@ == before.container_id.name()
        },
        (TeardownStage::StoppingContainer, Err(e)) => {
            &&& after.stage is Finished
            &&& step matches Some(TeardownStep::Abort { message, error }) && message@
                == "Error stopping container."@ && error == e
        },
        (TeardownStage::RemovingContainer, Ok(_)) => {
            &&& after.stage is Finished
            &&& step == Some(TeardownStep::Finish::<E>)
        },
        (TeardownStage::RemovingContainer, Err(e)) => {
            &&& after.stage is Finished
            &&& step matches Some(TeardownStep::Abort { message, error }) && message@
                == "Error removing container."@ && error == e
        },
        (TeardownStage::Finished, _) => after.stage is Finished && step is None,
    }
}

impl Teardown {
    /// Takes a reply of the engine, and says what to do next. There is nothing to do once the
    /// teardown has finished.
    pub fn step<E>(&mut self, reply: Result<(), E>) -> (step: Option<TeardownStep<E>>)
        ensures
            teardown_step(*old(self), reply, *final(self), step),
    {
        match (self.stage, reply) {
            (TeardownStage::StoppingContainer, Ok(_)) => {
                self.stage = TeardownStage::RemovingContainer;
                let id = self.container_id.name.clone();
                Some(TeardownStep::Perform(TeardownAction::RemoveContainer { id }))
            },
            (TeardownStage::StoppingContainer, Err(error)) => {
                self.stage = TeardownStage::Finished;
                Some(TeardownStep::Abort { message: "Error stopping container.".to_owned(), error })
            },
            (TeardownStage::RemovingContainer, Ok(_)) => {
                self.stage = TeardownStage::Finished;
                Some(TeardownStep::Finish)
            },
            (TeardownStage::RemovingContainer, Err(error)) => {
                self.stage = TeardownStage::Finished;
                Some(TeardownStep::Abort { message: "Error removing container.".to_owned(), error })
            },
            (TeardownStage::Finished, _) => None,
        }
    }
}

/// White out a line and return to the beginning. The number of spaces is not scientific.
pub const CLEAR_LINE: &'static str =
    "                                                                                        \r";

/// What to do after an item of the stream in which the engine reports a pull.
pub enum PullProgress<E> {
    /// Print a text, without ending the line.
    Show(String),
    Continue,
    /// End the line: the pull succeeded.
    Done,
    Failed(E),
}

/// An image that is being pulled, with a display of how the pull goes on.
#[derive(Debug)]
pub struct ShownPull {
    /// The image that the engine is asked for.
    pub from_image: String,
}

/// What follows an item of a pull: the status that an item holds is shown in place of the one
/// before; an error ends the pull, and so does the end of the stream.
pub open spec fn pull_progress<E>(
    next: Option<Result<Option<String>, E>>,
    progress: PullProgress<E>,
) -> bool {
    match next {
        Some(Ok(Some(status))) => progress matches PullProgress::Show(shown) && shown@
            == CLEAR_LINE@ + text::trimmed(status@),
        Some(Ok(None)) => progress is Continue,
        Some(Err(error)) => progress == PullProgress::Failed(error),
        None => progress is Done,
    }
}

/// Begins to pull an image.
pub fn pull_image(name: &str) -> (pull: ShownPull)
    ensures
        pull.from_image@ == name@,
{
    ShownPull { from_image: name.to_owned() }
}

impl ShownPull {
    /// Takes the next item of the stream in which the engine reports the pull, or its end, and says
    /// what to do next.
    pub fn step<E>(&self, next: Option<Result<Option<String>, E>>) -> (progress: PullProgress<E>)
        ensures
            pull_progress(next, progress),
    {
        match next {
            Some(Ok(Some(status))) => {
                let mut shown = CLEAR_LINE.to_owned();
                shown.append(status.as_str().trim());
                PullProgress::Show(shown)
            },
            Some(Ok(None)) => PullProgress::Continue,
            Some(Err(error)) => PullProgress::Failed(error),
            None => PullProgress::Done,
        }
    }
}

/// A pull that is shown ends as one that is not: with the same items, and with the same outcome.
pub proof fn law_shown_pull_ends_like_a_plain_one<E>(
    next: Option<Result<Option<String>, E>>,
    progress: PullProgress<E>,
)
    requires
        pull_progress(next, progress),
    ensures
        match docker::pull_next(next) {
            docker::PullStep::Continue => progress is Show || progress is Continue,
            docker::PullStep::Finish(Ok(_)) => progress is Done,
            docker::PullStep::Finish(Err(error)) => progress == PullProgress::Failed(error),
        },
{
}

/// What is shown of an id is where the id begins, is at most twelve characters long, and leaves out
/// nothing of an id that is no longer than that.
pub proof fn law_short_name_is_a_prefix(name: Seq<char>)
    ensures
        short_name_text(name).is_prefix_of(name),
        short_name_text(name).len() <= 12,
        name.len() <= 12 ==> short_name_text(name) == name,
        short_name_text(short_name_text(name)) == short_name_text(name),
{
    if name.len() > 12 {
        assert(name.take(12) =~= name.subrange(0, 12));
    } else {
        assert(name =~= name.subrange(0, name.len() as int));
    }
}

/// A line that sets a variable tells the variable and its value, if no variable's name holds an
/// equals sign.
pub proof fn law_environment_line_is_unambiguous(
    key: Seq<char>,
    value: Seq<char>,
    other_key: Seq<char>,
    other_value: Seq<char>,
)
    requires
        !key.contains('='),
        !other_key.contains('='),
        key + "="@ + value == other_key + "="@ + other_value,
    ensures
        key == other_key,
        value == other_value,
{
    reveal_strlit("=");
    let line = key + "="@ + value;
    let other = other_key + "="@ + other_value;
    assert(line[key.len() as int] == '=');
    assert(other[other_key.len() as int] == '=');
    if key.len() < other_key.len() {
        assert(other[key.len() as int] == other_key[key.len() as int]);
        assert(other_key.contains(other_key[key.len() as int]));
    } else if other_key.len() < key.len() {
        assert(line[other_key.len() as int] == key[other_key.len() as int]);
        assert(key.contains(key[other_key.len() as int]));
    }
    assert(key =~= other_key) by {
        assert forall|i: int| 0 <= i < key.len() implies key[i] == other_key[i] by {
            assert(line[i] == key[i]);
            assert(other[i] == other_key[i]);
        }
    }
    assert(value =~= line.skip(key.len() as int + 1));
    assert(other_value =~= other.skip(key.len() as int + 1));
}

/// Whether `states`, `replies` and `steps` are the course of one launch from its start: reply `i`
/// leads from state `i` to state `i + 1`, with step `i`.
pub open spec fn is_launch_course<E>(
    states: Seq<Launch<'_>>,
    replies: Seq<LaunchReply<E>>,
    steps: Seq<Option<LaunchStep<E>>>,
) -> bool {
    &&& states.len() == replies.len() + 1
    &&& steps.len() == replies.len()
    &&& states[0].stage is Connecting
    &&& forall|i: int|
        0 <= i < replies.len() ==> launch_step(
            states[i],
            #[trigger] replies[i],
            states[i + 1],
            steps[i],
        )
}

/// Whether a reply tells of success with part `part` of a launch, where the parts are numbered from
/// zero in the order in which they are asked for.
pub open spec fn tells_success<E>(reply: LaunchReply<E>, part: nat) -> bool {
    match reply {
        LaunchReply::Connected(Ok(_)) => part == 0,
        LaunchReply::ImagePulled(Ok(_)) => part == 1,
        LaunchReply::ContainerCreated(Ok(_)) => part == 2,
        LaunchReply::ContainerStarted(Ok(_)) => part == 3,
        LaunchReply::ContainerInspected(Ok(_)) => part == 4,
        LaunchReply::LogFileCreated(Ok(_)) => part == 5,
        _ => false,
    }
}

/// Whether the first `n` replies tell of success with the first `parts` parts of a launch, in their
/// order.
pub open spec fn tell_success<E>(replies: Seq<LaunchReply<E>>, n: nat, parts: nat) -> bool
    decreases n,
{
    ||| parts == 0
    ||| n > 0 && tell_success(replies, (n - 1) as nat, parts)
    ||| n > 0 && tells_success(replies[n - 1], (parts - 1) as nat) && tell_success(
        replies,
        (n - 1) as nat,
        (parts - 1) as nat,
    )
}

/// How many parts of a launch are behind it.
spec fn parts_done(stage: LaunchStage) -> nat {
    match stage {
        LaunchStage::Connecting => 0,
        LaunchStage::PullingImage => 1,
        LaunchStage::CreatingContainer => 2,
        LaunchStage::StartingContainer(_) => 3,
        LaunchStage::InspectingContainer(_) => 4,
        LaunchStage::CreatingLogFile(_, _) => 5,
        LaunchStage::Finished => 0,
    }
}

proof fn lemma_launch_stage<E>(
    states: Seq<Launch<'_>>,
    replies: Seq<LaunchReply<E>>,
    steps: Seq<Option<LaunchStep<E>>>,
    i: nat,
)
    requires
        is_launch_course(states, replies, steps),
        i <= replies.len(),
    ensures
        tell_success(replies, i, parts_done(states[i as int].stage)),
    decreases i,
{
    if i > 0 {
        lemma_launch_stage(states, replies, steps, (i - 1) as nat);
        assert(launch_step(states[i - 1], replies[i - 1], states[i - 1 + 1], steps[i - 1]));
    }
}

/// A launch reports success only after everything that it asks for has succeeded, one thing after
/// the other.
pub proof fn law_launch_success_follows_all_replies<E>(
    states: Seq<Launch<'_>>,
    replies: Seq<LaunchReply<E>>,
    steps: Seq<Option<LaunchStep<E>>>,
    i: nat,
)
    requires
        is_launch_course(states, replies, steps),
        i < replies.len(),
        steps[i as int] matches Some(LaunchStep::Finish(Ok(_))),
    ensures
        tell_success(replies, i + 1, 6),
{
    assert(launch_step(states[i as int], replies[i as int], states[i as int + 1], steps[i as int]));
    lemma_launch_stage(states, replies, steps, i);
}

/// Once a launch has finished, with success or not, no reply leads to anything more.
pub proof fn law_launch_finishes_once<E>(
    states: Seq<Launch<'_>>,
    replies: Seq<LaunchReply<E>>,
    steps: Seq<Option<LaunchStep<E>>>,
    i: int,
    j: int,
)
    requires
        is_launch_course(states, replies, steps),
        0 <= i < j < replies.len(),
        steps[i] matches Some(LaunchStep::Finish(_)) || steps[i] matches Some(
            LaunchStep::NoAddress,
        ),
    ensures
        steps[j] is None,
        states[j + 1] == states[i + 1],
    decreases j,
{
    assert(launch_step(states[i], replies[i], states[i + 1], steps[i]));
    assert(launch_step(states[j], replies[j], states[j + 1], steps[j]));
    if i + 1 < j {
        law_launch_finishes_once(states, replies, steps, i, j - 1);
    }
}

/// A launch in which everything succeeds yields the container that was created, at the address that
/// the engine reports, with the name of its specification as the hint.
pub proof fn law_launch_with_good_replies<E>(
    states: Seq<Launch<'_>>,
    replies: Seq<LaunchReply<E>>,
    steps: Seq<Option<LaunchStep<E>>>,
    id: String,
    inspect: ContainerInspect,
    ip: Ipv4Address,
)
    requires
        is_launch_course(states, replies, steps),
        replies == seq![
            LaunchReply::<E>::Connected(Ok(())),
            LaunchReply::ImagePulled(Ok(())),
            LaunchReply::ContainerCreated(Ok(id)),
            LaunchReply::ContainerStarted(Ok(())),
            LaunchReply::ContainerInspected(Ok(inspect)),
            LaunchReply::LogFileCreated(Ok(())),
        ],
        reported_address(inspect) == Some(ip.dotted()),
    ensures
        steps[5] matches Some(LaunchStep::Finish(Ok(resource))) && resource.container_id.name()
            == id@ && resource.container_id.hint() == states[0].container.name@ && resource.ip
            == ip,
{
    assert(launch_step(states[0], replies[0], states[1], steps[0]));
    assert(launch_step(states[1], replies[1], states[2], steps[1]));
    assert(launch_step(states[2], replies[2], states[3], steps[2]));
    assert(launch_step(states[3], replies[3], states[4], steps[3]));
    assert(launch_step(states[4], replies[4], states[5], steps[4]));
    assert(has_address(inspect));
    let found = states[5].stage->CreatingLogFile_1;
    net::law_dotted_is_unambiguous(found, ip);
    assert(launch_step(states[5], replies[5], states[6], steps[5]));
}

/// A teardown in which everything succeeds removes the container that it has stopped, and then
/// finishes.
pub proof fn law_teardown_with_good_replies<E>(
    t0: Teardown,
    t1: Teardown,
    t2: Teardown,
    step1: Option<TeardownStep<E>>,
    step2: Option<TeardownStep<E>>,
)
    requires
        t0.stage is StoppingContainer,
        teardown_step(t0, Ok::<(), E>(()), t1, step1),
        teardown_step(t1, Ok::<(), E>(()), t2, step2),
    ensures
        step1 matches Some(TeardownStep::Perform(TeardownAction::RemoveContainer { id })) && id@
            == t0.container_id.name(),
        step2 == Some(TeardownStep::Finish::<E>),
        t2.stage is Finished,
{
}

} // verus!
