//! Laws on containers that are launched for a while.
use crate::config::{ContainerConfig, ContainerInspect};
use crate::container::{
    container_ip, pull_image, ContainerId, ContainerResource, ContainerSpec, Launch, LaunchAction,
    LaunchReply, LaunchStage, LaunchStep, PullProgress, ShownPull, Teardown, TeardownAction,
    TeardownStage, TeardownStep,
};
use crate::laws;
use crate::net::Ipv4Address;
use crate::{container, text};
use vstd::prelude::*;

verus! {

/// What a container is created from is what its specification holds: the name as the host name, the
/// image, a line for each variable, each part of the command, and for each volume a line with its own
/// source and its own destination. Nothing else is set.
pub proof fn law_config_holds_the_specification(spec_: ContainerSpec, config: ContainerConfig)
    requires
        call_ensures(ContainerSpec::as_config, (&spec_,), config),
    ensures
        config.hostname is Some && config.hostname->0@ == spec_.name@,
        config.image is Some && config.image->0@ == spec_.image@,
        config.env is Some && config.env->0@.len() == spec_.environment.keys().len(),
        forall|i: int|
            0 <= i < spec_.environment.keys().len() ==> (#[trigger] config.env->0@[i])@
                == spec_.environment.keys()[i] + "="@
                + spec_.environment@[spec_.environment.keys()[i]]@,
        config.cmd is Some && config.cmd->0@.len() == spec_.command@.len(),
        forall|i: int|
            0 <= i < spec_.command@.len() ==> (#[trigger] config.cmd->0@[i])@ == spec_.command@[i]@,
        config.exposed_ports is None,
        config.labels is None,
        config.host_config is Some,
        config.host_config->0.binds is Some,
        config.host_config->0.binds->0@.len() == spec_.volumes@.len(),
        forall|i: int|
            0 <= i < spec_.volumes@.len() ==> (#[trigger] config.host_config->0.binds->0@[i])@
                == spec_.volumes@[i].0@ + ":"@ + spec_.volumes@[i].1@,
        config.host_config->0.network_mode is None,
        config.host_config->0.port_bindings is None,
        config.host_config->0.runtime is None,
{
    lemma_config(spec_, config);
}

/// What `is_config_of` says of each line.
proof fn lemma_config(spec_: ContainerSpec, config: ContainerConfig)
    requires
        container::is_config_of(config, spec_),
    ensures
        config.env->0@.len() == spec_.environment.keys().len(),
        forall|i: int|
            0 <= i < spec_.environment.keys().len() ==> (#[trigger] config.env->0@[i])@
                == spec_.environment.keys()[i] + "="@
                + spec_.environment@[spec_.environment.keys()[i]]@,
        config.cmd->0@.len() == spec_.command@.len(),
        forall|i: int|
            0 <= i < spec_.command@.len() ==> (#[trigger] config.cmd->0@[i])@ == spec_.command@[i]@,
        config.host_config->0.binds->0@.len() == spec_.volumes@.len(),
        forall|i: int|
            0 <= i < spec_.volumes@.len() ==> (#[trigger] config.host_config->0.binds->0@[i])@
                == spec_.volumes@[i].0@ + ":"@ + spec_.volumes@[i].1@,
{
    let env = config.env->0@;
    let cmd = config.cmd->0@;
    let binds = config.host_config->0.binds->0@;
    assert(text::texts(env).len() == spec_.environment.keys().len());
    assert(text::texts(cmd).len() == text::texts(spec_.command@).len());
    assert(text::texts(binds).len() == spec_.volumes@.len());
    assert forall|i: int| 0 <= i < env.len() implies (#[trigger] env[i])@
        == spec_.environment.keys()[i] + "="@ + spec_.environment@[spec_.environment.keys()[i]]@ by {
        assert(text::texts(env)[i] == env[i]@);
    }
    assert forall|i: int| 0 <= i < cmd.len() implies (#[trigger] cmd[i])@ == spec_.command@[i]@ by {
        assert(text::texts(cmd)[i] == cmd[i]@);
        assert(text::texts(spec_.command@)[i] == spec_.command@[i]@);
    }
    assert forall|i: int| 0 <= i < binds.len() implies (#[trigger] binds[i])@
        == spec_.volumes@[i].0@ + ":"@ + spec_.volumes@[i].1@ by {
        assert(text::texts(binds)[i] == binds[i]@);
    }
}

/// An id is shown by its first twelve characters, or as a whole if it has no more, with the hint in
/// brackets.
pub proof fn law_id_is_shown_short(
    name: String,
    hint: String,
    id: ContainerId,
    short: String,
    shown: String,
)
    requires
        call_ensures(ContainerId::new, (name, hint), id),
        call_ensures(ContainerId::short_name, (&id,), short),
        call_ensures(ContainerId::to_string, (&id,), shown),
    ensures
        short@.len() == if name@.len() < 12 {
            name@.len()
        } else {
            12
        },
        forall|i: int| 0 <= i < short@.len() ==> #[trigger] short@[i] == name@[i],
        shown@ == short@ + " ("@ + hint@ + ")"@,
        id.name() == name@,
        id.hint() == hint@,
{
}

/// The address of a container is the one that the engine reports of it, if what it reports is an
/// address.
pub proof fn law_reported_address_is_found(inspect: ContainerInspect, r: Option<Ipv4Address>)
    requires
        call_ensures(container_ip, (&inspect,), r),
    ensures
        r is Some ==> {
            &&& inspect.network_settings is Some
            &&& inspect.network_settings->0.ip_address is Some
            &&& inspect.network_settings->0.ip_address->0@ == r->0.dotted()
        },
        r is None ==> forall|ip: Ipv4Address|
            inspect.network_settings is Some && inspect.network_settings->0.ip_address is Some
                ==> inspect.network_settings->0.ip_address->0@ != #[trigger] ip.dotted(),
{
    if r is None {
        assert forall|ip: Ipv4Address|
            inspect.network_settings is Some
                && inspect.network_settings->0.ip_address is Some implies inspect.network_settings->0.ip_address->0@
            != #[trigger] ip.dotted() by {
            if inspect.network_settings->0.ip_address->0@ == ip.dotted() {
                assert(container::reported_address(inspect) == Some(ip.dotted()));
            }
        }
    }
}

/// The launch of a container begins with a connection, and then asks for one thing after the other:
/// it pulls the image of the specification, creates the container from the specification, starts and
/// inspects the container that was created, and follows its logs, all of them, in a file that is
/// named like the container.
pub proof fn law_launch_asks_for_one_thing_after_the_other<E>(
    spec_: &ContainerSpec,
    started: (Launch<'_>, LaunchAction),
    id: String,
    inspect: ContainerInspect,
    ip: Ipv4Address,
    pull: (Launch<'_>, Option<LaunchStep<E>>),
    create: (Launch<'_>, Option<LaunchStep<E>>),
    start: (Launch<'_>, Option<LaunchStep<E>>),
    look: (Launch<'_>, Option<LaunchStep<E>>),
    follow: (Launch<'_>, Option<LaunchStep<E>>),
    end: (Launch<'_>, Option<LaunchStep<E>>),
)
    requires
        call_ensures(ContainerResource::new, (spec_,), started),
        call_ensures(Launch::step::<E>, (started.0, LaunchReply::Connected(Ok(()))), pull),
        call_ensures(Launch::step::<E>, (pull.0, LaunchReply::ImagePulled(Ok(()))), create),
        call_ensures(Launch::step::<E>, (create.0, LaunchReply::ContainerCreated(Ok(id))), start),
        call_ensures(Launch::step::<E>, (start.0, LaunchReply::ContainerStarted(Ok(()))), look),
        call_ensures(
            Launch::step::<E>,
            (look.0, LaunchReply::ContainerInspected(Ok(inspect))),
            follow,
        ),
        inspect.network_settings is Some,
        inspect.network_settings->0.ip_address is Some,
        inspect.network_settings->0.ip_address->0@ == ip.dotted(),
        call_ensures(Launch::step::<E>, (follow.0, LaunchReply::LogFileCreated(Ok(()))), end),
    ensures
        started.1 is Connect,
        match pull.1 {
            Some(LaunchStep::Perform(LaunchAction::PullImage { image })) => image@ == spec_.image@,
            _ => false,
        },
        match create.1 {
            Some(LaunchStep::Perform(LaunchAction::CreateContainer { config })) => {
                &&& config.hostname is Some && config.hostname->0@ == spec_.name@
                &&& config.image is Some && config.image->0@ == spec_.image@
                &&& config.env is Some
                &&& config.env->0@.len() == spec_.environment.keys().len()
                &&& forall|i: int|
                    0 <= i < spec_.environment.keys().len() ==> (#[trigger] config.env->0@[i])@
                        == spec_.environment.keys()[i] + "="@
                        + spec_.environment@[spec_.environment.keys()[i]]@
                &&& config.cmd is Some
                &&& config.cmd->0@.len() == spec_.command@.len()
                &&& forall|i: int|
                    0 <= i < spec_.command@.len() ==> (#[trigger] config.cmd->0@[i])@
                        == spec_.command@[i]@
                &&& config.exposed_ports is None
                &&& config.labels is None
                &&& config.host_config is Some
                &&& config.host_config->0.binds is Some
                &&& config.host_config->0.binds->0@.len() == spec_.volumes@.len()
                &&& forall|i: int|
                    0 <= i < spec_.volumes@.len() ==> (
                    #[trigger] config.host_config->0.binds->0@[i])@ == spec_.volumes@[i].0@ + ":"@
                        + spec_.volumes@[i].1@
                &&& config.host_config->0.network_mode is None
                &&& config.host_config->0.port_bindings is None
                &&& config.host_config->0.runtime is None
            },
            _ => false,
        },
        match start.1 {
            Some(LaunchStep::Perform(LaunchAction::StartContainer { id: started })) => started@
                == id@,
            _ => false,
        },
        match look.1 {
            Some(LaunchStep::Perform(LaunchAction::InspectContainer { id: inspected })) => {
                inspected@ == id@
            },
            _ => false,
        },
        match follow.1 {
            Some(
                LaunchStep::Perform(LaunchAction::FollowLogs { id: followed, options, file_name }),
            ) => {
                &&& followed@ == id@
                &&& options.follow
                &&& options.stdout
                &&& options.stderr
                &&& options.timestamps
                &&& file_name@ == spec_.name@ + ".txt"@
            },
            _ => false,
        },
        match end.1 {
            Some(LaunchStep::Finish(Ok(resource))) => {
                &&& resource.container_id.name() == id@
                &&& resource.container_id.hint() == spec_.name@
                &&& resource.ip == ip
            },
            _ => false,
        },
{
    lemma_config(*spec_, create.1->0->Perform_0->CreateContainer_config);
    assert(container::reported_address(inspect) == Some(ip.dotted()));
    assert(container::has_address(inspect));
    crate::net::law_dotted_is_unambiguous(follow.0.stage->CreatingLogFile_1, ip);
}

/// The first failure ends a launch with that failure, a container without an address gives it up, and
/// what a launch does not wait for changes nothing.
pub proof fn law_launch_ends_with_the_first_failure<E>(
    launch: Launch<'_>,
    reply: LaunchReply<E>,
    r: (Launch<'_>, Option<LaunchStep<E>>),
)
    requires
        call_ensures(Launch::step::<E>, (launch, reply), r),
    ensures
        r.0.container == launch.container,
        match (launch.stage, reply) {
            (LaunchStage::Connecting, LaunchReply::Connected(Ok(_)))
            | (LaunchStage::PullingImage, LaunchReply::ImagePulled(Ok(_)))
            | (LaunchStage::CreatingContainer, LaunchReply::ContainerCreated(Ok(_)))
            | (LaunchStage::StartingContainer(_), LaunchReply::ContainerStarted(Ok(_)))
            | (LaunchStage::CreatingLogFile(_, _), LaunchReply::LogFileCreated(Ok(_))) => {
                r.1 is Some && !(r.1 matches Some(LaunchStep::Finish(Err(_)))) && !(
                r.1 matches Some(LaunchStep::NoAddress))
            },
            (LaunchStage::InspectingContainer(_), LaunchReply::ContainerInspected(Ok(inspect))) => {
                &&& r.1 is Some && r.1->0 is NoAddress <==> !(exists|ip: Ipv4Address|
                    inspect.network_settings is Some && inspect.network_settings->0.ip_address is Some
                        && inspect.network_settings->0.ip_address->0@ == #[trigger] ip.dotted())
                &&& r.1 is Some && r.1->0 is NoAddress ==> r.0.stage is Finished
            },
            (LaunchStage::Connecting, LaunchReply::Connected(Err(error)))
            | (LaunchStage::PullingImage, LaunchReply::ImagePulled(Err(error)))
            | (LaunchStage::CreatingContainer, LaunchReply::ContainerCreated(Err(error)))
            | (LaunchStage::StartingContainer(_), LaunchReply::ContainerStarted(Err(error)))
            | (LaunchStage::InspectingContainer(_), LaunchReply::ContainerInspected(Err(error)))
            | (LaunchStage::CreatingLogFile(_, _), LaunchReply::LogFileCreated(Err(error))) => {
                &&& r.0.stage is Finished
                &&& r.1 == Some(LaunchStep::Finish::<E>(Err(error)))
            },
            _ => r.0.stage == launch.stage && r.1 is None,
        },
{
    if let (LaunchStage::InspectingContainer(_), LaunchReply::ContainerInspected(Ok(inspect))) = (
        launch.stage,
        reply,
    ) {
        assert forall|ip: Ipv4Address|
            inspect.network_settings is Some && inspect.network_settings->0.ip_address is Some
                && inspect.network_settings->0.ip_address->0@
                == #[trigger] ip.dotted() implies container::has_address(inspect) by {
            assert(container::reported_address(inspect) == Some(ip.dotted()));
        }
        if container::has_address(inspect) {
            let ip = choose|ip: Ipv4Address|
                container::reported_address(inspect) == Some(#[trigger] ip.dotted());
            assert(inspect.network_settings->0.ip_address->0@ == ip.dotted());
        }
    }
}

/// A container is torn down by its own id: it is stopped, and then removed. A failure gives the
/// teardown up with what could not be done and the failure.
pub proof fn law_teardown_stops_and_removes<E>(
    resource: ContainerResource,
    started: (Teardown, TeardownAction),
    first: &mut Teardown,
    stopped: Result<(), E>,
    first_step: Option<TeardownStep<E>>,
    second: &mut Teardown,
    removed: Result<(), E>,
    second_step: Option<TeardownStep<E>>,
)
    requires
        call_ensures(ContainerResource::teardown, (&resource,), started),
        *old(first) == started.0,
        call_ensures(Teardown::step::<E>, (first, stopped), first_step),
        *old(second) == *final(first),
        call_ensures(Teardown::step::<E>, (second, removed), second_step),
    ensures
        started.1 is StopContainer,
        started.1->StopContainer_id@ == resource.container_id.name(),
        final(second).stage == TeardownStage::Finished,
        match (stopped, first_step) {
            (Ok(_), Some(TeardownStep::Perform(TeardownAction::RemoveContainer { id }))) => {
                &&& id@ == resource.container_id.name()
                &&& match (removed, second_step) {
                    (Ok(_), Some(TeardownStep::Finish)) => true,
                    (Err(e), Some(TeardownStep::Abort { message, error })) => message@
                        == "Error removing container."@ && error == e,
                    _ => false,
                }
            },
            (Err(e), Some(TeardownStep::Abort { message, error })) => {
                &&& message@ == "Error stopping container."@
                &&& error == e
                &&& second_step is None
            },
            _ => false,
        },
{
}

/// A copy of a specification holds what the specification holds, and a copy of an id is that id.
pub proof fn law_copies_hold_the_same(
    spec_: ContainerSpec,
    copy: ContainerSpec,
    id: ContainerId,
    id_copy: ContainerId,
    text: &str,
)
    requires
        call_ensures(<ContainerSpec as Clone>::clone, (&spec_,), copy),
        call_ensures(<ContainerId as Clone>::clone, (&id,), id_copy),
        call_ensures(<ContainerId as std::ops::Deref>::deref, (&id,), text),
    ensures
        copy.name@ == spec_.name@,
        copy.image@ == spec_.image@,
        copy.environment@ == spec_.environment@,
        copy.environment.keys() == spec_.environment.keys(),
        copy.command@ == spec_.command@,
        copy.volumes@ == spec_.volumes@,
        id_copy.name() == id.name(),
        id_copy.hint() == id.hint(),
        text@ == id.name(),
{
}

/// The engine is asked for the image that is to be pulled. A status is shown on a line that is
/// cleared by blanks and a carriage return, without the white space around it and with nothing else changed; an item without a status shows
/// nothing, an error ends the pull with that error, and the end of the stream ends it well.
pub proof fn law_pull_shows_the_status<E>(
    name: &str,
    pull: ShownPull,
    next: Option<Result<Option<String>, E>>,
    progress: PullProgress<E>,
) -> (around: (nat, nat))
    requires
        call_ensures(pull_image, (name,), pull),
        call_ensures(ShownPull::step::<E>, (&pull, next), progress),
    ensures
        pull.from_image@ == name@,
        container::CLEAR_LINE@.len() == 89,
        container::CLEAR_LINE@[88] == '\r',
        forall|i: int| 0 <= i < 88 ==> #[trigger] container::CLEAR_LINE@[i] == ' ',
        match next {
            Some(Ok(Some(status))) => {
                &&& around.0 <= around.1 <= status@.len()
                &&& progress is Show
                &&& progress->Show_0@ == container::CLEAR_LINE@ + status@.subrange(
                    around.0 as int,
                    around.1 as int,
                )
                &&& forall|i: int|
                    0 <= i < around.0 || around.1 <= i < status@.len() ==> text::is_white_space(
                        #[trigger] status@[i],
                    )
                &&& around.0 < around.1 ==> !text::is_white_space(status@[around.0 as int])
                    && !text::is_white_space(status@[around.1 - 1])
            },
            Some(Ok(None)) => progress is Continue,
            Some(Err(error)) => progress == PullProgress::Failed(error),
            None => progress is Done,
        },
{
    reveal_strlit(
        "                                                                                        \r",
    );
    if let Some(Ok(Some(status))) = next {
        laws::text::law_trimming_leaves_out_white_space(status@)
    } else {
        (0, 0)
    }
}

} // verus!
