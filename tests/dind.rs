use floki::command::DockerCommandBuilder;
use floki::dind::{link_docker_in_docker, DindForwarder, DindStage, DindStep};

fn base() -> DockerCommandBuilder {
    DockerCommandBuilder::new("img", "sh").add_volume(&("/a".to_string(), "/b".to_string()))
}

fn same_command(a: &DockerCommandBuilder, b: &DockerCommandBuilder) -> bool {
    a.volumes() == b.volumes()
        && a.environment() == b.environment()
        && a.switches() == b.switches()
        && a.image() == b.image()
        && a.shell() == b.shell()
}

#[test]
fn failed_preflight_leaves_command_unchanged() {
    let f = DindForwarder::new(base(), "floki-dind-1");
    assert_eq!(f.stage(), DindStage::Preflight);
    match f.advance(Err("no privilege")) {
        DindStep::Failed { command, error } => {
            assert_eq!(error, "no privilege");
            assert!(same_command(&command, &base()));
        }
        _ => panic!("preflight failure must end forwarding"),
    }
}

#[test]
fn failed_launch_leaves_command_unchanged() {
    let f = DindForwarder::new(base(), "floki-dind-1");
    let f = match f.advance(Ok::<(), String>(())) {
        DindStep::Next(f) => f,
        _ => panic!("a passed preflight must lead to the launch"),
    };
    assert_eq!(f.stage(), DindStage::Launch);
    match f.advance(Err("launch failed".to_string())) {
        DindStep::Failed { command, error } => {
            assert_eq!(error, "launch failed");
            assert!(same_command(&command, &base()));
            assert!(command.switches().is_empty());
        }
        _ => panic!("launch failure must end forwarding"),
    }
}

#[test]
fn successful_launch_links_the_helper() {
    let f = DindForwarder::new(base(), "floki-dind-1");
    let f = match f.advance(Ok::<(), String>(())) {
        DindStep::Next(f) => f,
        _ => panic!("a passed preflight must lead to the launch"),
    };
    match f.advance(Ok::<(), String>(())) {
        DindStep::Ready(c) => {
            assert_eq!(c.switches(), &vec!["--link floki-dind-1:floki-docker".to_string()]);
            assert_eq!(
                c.environment(),
                &vec![("DOCKER_HOST".to_string(), "tcp://floki-docker:2375".to_string())]
            );
            assert_eq!(c.volumes(), base().volumes());
            let args = c.docker_arguments("docker ps").unwrap();
            let expected: Vec<String> = [
                "run",
                "--rm",
                "-it",
                "-v",
                "/a:/b",
                "-e",
                "DOCKER_HOST=tcp://floki-docker:2375",
                "--link",
                "floki-dind-1:floki-docker",
                "img",
                "sh",
                "-c",
                "docker ps",
            ]
            .iter()
            .map(|s| s.to_string())
            .collect();
            assert_eq!(args, expected);
        }
        _ => panic!("a finished launch must link the helper"),
    }
}

#[test]
fn linking_twice_is_duplicated() {
    let c = link_docker_in_docker(link_docker_in_docker(base(), "h"), "h");
    assert_eq!(
        c.switches(),
        &vec!["--link h:floki-docker".to_string(), "--link h:floki-docker".to_string()]
    );
    assert_eq!(c.environment().len(), 2);
    assert_eq!(c.volumes().len(), 1);
}
