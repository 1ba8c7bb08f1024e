use floki::command::DockerCommandBuilder;
use floki::errors::FlokiError;
use floki::forward::{enable_forward_ssh_agent, enable_forward_tmux_socket, first_field_of};

fn pair(a: &str, b: &str) -> (String, String) {
    (a.to_string(), b.to_string())
}

fn base() -> DockerCommandBuilder {
    DockerCommandBuilder::new("img", "sh").add_environment(&pair("X", "1"))
}

#[test]
fn ssh_agent_is_forwarded() {
    let c = enable_forward_ssh_agent(base(), Some("/tmp/ssh-xyz/agent.sock".to_string())).unwrap();
    assert_eq!(c.volumes(), &vec![pair("/tmp/ssh-xyz", "/tmp/ssh-xyz")]);
    assert_eq!(
        c.environment(),
        &vec![pair("X", "1"), pair("SSH_AUTH_SOCK", "/tmp/ssh-xyz/agent.sock")]
    );
    assert!(c.switches().is_empty());
}

#[test]
fn ssh_agent_at_root_is_refused() {
    let r = enable_forward_ssh_agent(base(), Some("/".to_string()));
    assert_eq!(r.unwrap_err(), FlokiError::NoSshAuthSock {});
}

#[test]
fn ssh_agent_empty_path_is_refused() {
    let r = enable_forward_ssh_agent(base(), Some("".to_string()));
    assert_eq!(r.unwrap_err(), FlokiError::NoSshAuthSock {});
}

#[test]
fn ssh_agent_unset_is_missing_variable() {
    let r = enable_forward_ssh_agent(base(), None);
    assert_eq!(r.unwrap_err(), FlokiError::MissingEnvVar { name: "SSH_AUTH_SOCK".to_string() });
}

#[test]
fn ssh_agent_forwarded_twice_is_duplicated() {
    let sock = "/tmp/ssh-xyz/agent.sock".to_string();
    let once = enable_forward_ssh_agent(base(), Some(sock.clone())).unwrap();
    let twice = enable_forward_ssh_agent(once, Some(sock.clone())).unwrap();
    assert_eq!(
        twice.volumes(),
        &vec![pair("/tmp/ssh-xyz", "/tmp/ssh-xyz"), pair("/tmp/ssh-xyz", "/tmp/ssh-xyz")]
    );
    assert_eq!(
        twice.environment(),
        &vec![pair("X", "1"), pair("SSH_AUTH_SOCK", &sock), pair("SSH_AUTH_SOCK", &sock)]
    );
}

#[test]
fn tmux_socket_is_forwarded() {
    let c = enable_forward_tmux_socket(base(), Some("/tmp/tmux-1000/default,1234,0".to_string()))
        .unwrap();
    assert_eq!(c.volumes(), &vec![pair("/tmp/tmux-1000", "/run/tmux")]);
    assert_eq!(
        c.environment(),
        &vec![pair("X", "1"), pair("TMUX_SOCKET", "/run/tmux/default")]
    );
}

#[test]
fn tmux_value_without_commas_is_the_socket() {
    let c = enable_forward_tmux_socket(base(), Some("/var/tmux/s".to_string())).unwrap();
    assert_eq!(c.volumes(), &vec![pair("/var/tmux", "/run/tmux")]);
    assert_eq!(c.environment()[1], pair("TMUX_SOCKET", "/run/tmux/s"));
}

#[test]
fn tmux_socket_without_file_name_is_refused() {
    let r = enable_forward_tmux_socket(base(), Some("/tmp/..,1234,0".to_string()));
    assert_eq!(
        r.unwrap_err(),
        FlokiError::TmuxForwardError { msg: "tmux socket in env has bad filename".to_string() }
    );
}

#[test]
fn tmux_socket_at_root_is_refused() {
    let r = enable_forward_tmux_socket(base(), Some("/,1234,0".to_string()));
    assert!(matches!(r, Err(FlokiError::TmuxForwardError { .. })));
    let r = enable_forward_tmux_socket(base(), Some(",1,0".to_string()));
    assert!(matches!(r, Err(FlokiError::TmuxForwardError { .. })));
}

#[test]
fn tmux_unset_is_missing_variable() {
    let r = enable_forward_tmux_socket(base(), None);
    assert_eq!(r.unwrap_err(), FlokiError::MissingEnvVar { name: "TMUX".to_string() });
}

#[test]
fn tmux_forwarded_twice_is_duplicated() {
    let v = "/tmp/tmux-1000/default,1234,0".to_string();
    let once = enable_forward_tmux_socket(base(), Some(v.clone())).unwrap();
    let twice = enable_forward_tmux_socket(once, Some(v)).unwrap();
    assert_eq!(
        twice.volumes(),
        &vec![pair("/tmp/tmux-1000", "/run/tmux"), pair("/tmp/tmux-1000", "/run/tmux")]
    );
    assert_eq!(twice.environment().len(), 3);
    assert_eq!(twice.environment()[2], pair("TMUX_SOCKET", "/run/tmux/default"));
}

#[test]
fn first_field_ends_at_first_comma() {
    assert_eq!(first_field_of("a,b,c"), "a");
    assert_eq!(first_field_of("abc"), "abc");
    assert_eq!(first_field_of(",x"), "");
    assert_eq!(first_field_of(""), "");
}
