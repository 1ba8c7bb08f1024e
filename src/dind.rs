use vstd::prelude::*;
use crate::command::{CommandView, DockerCommandBuilder};

verus! {

/// What the nested-runtime launcher must do next.
#[derive(Debug, Clone, Copy, PartialEq, Eq, Structural)]
pub enum DindStage {
    /// Check that the host can run a runtime inside a runtime.
    Preflight,
    /// Start the helper container and wait until its endpoint is ready.
    Launch,
}

/// The invocation `c` linked to the helper container `name` under the alias
/// `floki-docker`, with `DOCKER_HOST` pointing at the helper's endpoint.
pub open spec fn dind_linked(c: CommandView, name: Seq<char>) -> CommandView {
    c.with_switch("--link "@ + name + ":floki-docker"@).with_environment(
        "DOCKER_HOST"@,
        "tcp://floki-docker:2375"@,
    )
}

/// Links `command` to the running helper container `name`.
pub fn link_docker_in_docker(command: DockerCommandBuilder, name: &str) -> (r: DockerCommandBuilder)
    ensures
        r@ == dind_linked(command@, name@),
{
    let link = String::from_str("--link ").concat(name).concat(":floki-docker");
    let entry = (String::from_str("DOCKER_HOST"), String::from_str("tcp://floki-docker:2375"));
    command.add_docker_switch(&link).add_environment(&entry)
}

/// A command waiting for the launcher's outcomes, with the helper's name and
/// the step the launcher is at.
pub struct DindView {
    pub command: CommandView,
    pub name: Seq<char>,
    pub stage: DindStage,
}

/// Forwarding of a nested container runtime into a command: the launcher's
/// preflight check runs first, then its launch; the command is linked to
/// the helper only when both succeed.
pub struct DindForwarder {
    command: DockerCommandBuilder,
    name: String,
    stage: DindStage,
}

/// Where forwarding stands after an outcome of the launcher.
pub enum DindStep<E> {
    /// The launcher has the next stage to run.
    Next(DindForwarder),
    /// The launcher failed; the command is as it was handed in.
    Failed { command: DockerCommandBuilder, error: E },
    /// The helper runs and the command is linked to it.
    Ready(DockerCommandBuilder),
}

impl View for DindForwarder {
    type V = DindView;

    closed spec fn view(&self) -> DindView {
        DindView { command: self.command@, name: self.name@, stage: self.stage }
    }
}

impl DindForwarder {
    /// Starts forwarding into `command` through the helper container `name`;
    /// the preflight check comes first.
    pub fn new(command: DockerCommandBuilder, name: &str) -> (r: Self)
        ensures
            r@ == (DindView { command: command@, name: name@, stage: DindStage::Preflight }),
    {
        DindForwarder { command, name: String::from_str(name), stage: DindStage::Preflight }
    }

    /// The stage the launcher must run next.
    pub fn stage(&self) -> (r: DindStage)
        ensures
            r == self@.stage,
    {
        self.stage
    }

    /// Takes the outcome of the current stage. A failure ends forwarding
    /// with the collaborator's error as it came and the command unchanged;
    /// a passed preflight moves on to the launch; a finished launch links
    /// the command to the helper.
    pub fn advance<E>(self, outcome: Result<(), E>) -> (r: DindStep<E>)
        ensures
            match outcome {
                Err(e) => r matches DindStep::Failed { command, error } && command@
                    == self@.command && error == e,
                Ok(_) => match self@.stage {
                    DindStage::Preflight => r matches DindStep::Next(f) && f@ == (DindView {
                        stage: DindStage::Launch,
                        ..self@
                    }),
                    DindStage::Launch => r matches DindStep::Ready(c) && c@ == dind_linked(
                        self@.command,
                        self@.name,
                    ),
                },
            },
    {
        match outcome {
            Err(error) => DindStep::Failed { command: self.command, error },
            Ok(_) => match self.stage {
                DindStage::Preflight => DindStep::Next(
                    DindForwarder { command: self.command, name: self.name, stage: DindStage::Launch },
                ),
                DindStage::Launch => DindStep::Ready(
                    link_docker_in_docker(self.command, self.name.as_str()),
                ),
            },
        }
    }
}

/// Linking to the helper adds exactly one raw flag, the link to `name`
/// under the alias `floki-docker`, and one environment entry, the helper's
/// endpoint; mounts, image and shell stay as they were. Linking a second
/// time adds both a second time.
pub proof fn lemma_dind_linked(c: CommandView, name: Seq<char>)
    ensures
        ({
            let link = "--link "@ + name + ":floki-docker"@;
            let entry = ("DOCKER_HOST"@, "tcp://floki-docker:2375"@);
            let once = dind_linked(c, name);
            let twice = dind_linked(once, name);
            &&& once.switches == c.switches.push(link)
            &&& once.environment == c.environment.push(entry)
            &&& once.volumes == c.volumes
            &&& once.image == c.image
            &&& once.shell == c.shell
            &&& twice.switches == c.switches + seq![link, link]
            &&& twice.environment == c.environment + seq![entry, entry]
            &&& twice.volumes == c.volumes
        }),
{
    let link = "--link "@ + name + ":floki-docker"@;
    let entry = ("DOCKER_HOST"@, "tcp://floki-docker:2375"@);
    let twice = dind_linked(dind_linked(c, name), name);
    assert(twice.switches =~= c.switches + seq![link, link]);
    assert(twice.environment =~= c.environment + seq![entry, entry]);
}

} // verus!
