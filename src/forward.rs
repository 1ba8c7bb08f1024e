use vstd::prelude::*;
use crate::command::{CommandView, DockerCommandBuilder};
use crate::errors::FlokiError;
use crate::paths::{file_name, parent_dir, path_file_name, path_parent};

verus! {

/// The invocation `c` with the SSH agent socket at `socket` forwarded: the
/// variable keeps the host path, and the socket's directory is mounted at
/// the same path. None where the path has no parent directory.
pub open spec fn ssh_forwarded(c: CommandView, socket: Seq<char>) -> Option<CommandView> {
    match path_parent(socket) {
        Some(dir) => Some(c.with_environment("SSH_AUTH_SOCK"@, socket).with_volume(dir, dir)),
        None => None,
    }
}

/// Forwards the host's SSH agent into the container. `agent_socket` is the
/// host's `SSH_AUTH_SOCK`, or none where it is not set.
pub fn enable_forward_ssh_agent(command: DockerCommandBuilder, agent_socket: Option<String>) -> (r:
    Result<DockerCommandBuilder, FlokiError>)
    ensures
        match agent_socket {
            None => r matches Err(FlokiError::MissingEnvVar { name }) && name@ == "SSH_AUTH_SOCK"@,
            Some(s) => match ssh_forwarded(command@, s@) {
                Some(m) => r matches Ok(c) && c@ == m,
                None => r matches Err(FlokiError::NoSshAuthSock {  }),
            },
        },
        agent_socket matches Some(s) && (s@.len() == 0 || s@ == "/"@) ==> r matches Err(
            FlokiError::NoSshAuthSock {  },
        ),
{
    let socket = match agent_socket {
        Some(s) => s,
        None => {
            return Err(FlokiError::MissingEnvVar { name: String::from_str("SSH_AUTH_SOCK") });
        },
    };
    match parent_dir(socket.as_str()) {
        Some(dir) => {
            let entry = (String::from_str("SSH_AUTH_SOCK"), socket.clone());
            let mount = (dir.clone(), dir);
            Ok(command.add_environment(&entry).add_volume(&mount))
        },
        None => Err(FlokiError::NoSshAuthSock {  }),
    }
}

/// The text before the first comma of `s`, or all of `s` where it has none.
pub open spec fn first_field(s: Seq<char>) -> Seq<char>
    decreases s.len(),
{
    if s.len() == 0 || s[0] == ',' {
        seq![]
    } else {
        seq![s[0]] + first_field(s.drop_first())
    }
}

/// The first field of `s` ends at index `i`.
pub proof fn lemma_first_field(s: Seq<char>, i: int)
    requires
        0 <= i <= s.len(),
        forall|j: int| 0 <= j < i ==> s[j] != ',',
        i == s.len() || s[i] == ',',
    ensures
        first_field(s) == s.take(i),
    decreases i,
{
    if i == 0 {
        assert(s.take(0) =~= seq![]);
    } else {
        let t = s.drop_first();
        assert forall|j: int| 0 <= j < i - 1 implies t[j] != ',' by {
            assert(t[j] == s[j + 1]);
        }
        lemma_first_field(t, i - 1);
        assert(seq![s[0]] + t.take(i - 1) =~= s.take(i));
    }
}

/// The text before the first comma of `s`.
pub fn first_field_of(s: &str) -> (r: String)
    ensures
        r@ == first_field(s@),
{
    let n = s.unicode_len();
    let mut i: usize = 0;
    while i < n && s.get_char(i) != ','
        invariant
            n == s@.len(),
            i <= n,
            forall|j: int| 0 <= j < i ==> s@[j] != ',',
        decreases n - i,
    {
        i = i + 1;
    }
    proof {
        lemma_first_field(s@, i as int);
    }
    String::from_str(s.substring_char(0, i))
}

/// The invocation `c` with the tmux socket of the session value `tmux`
/// (`socket,pid,session`) forwarded: the socket's directory is mounted at
/// `/run/tmux` and `TMUX_SOCKET` names the socket's file there. None where
/// the socket path lacks a directory or a file name.
pub open spec fn tmux_forwarded(c: CommandView, tmux: Seq<char>) -> Option<CommandView> {
    let socket = first_field(tmux);
    match (path_parent(socket), path_file_name(socket)) {
        (Some(dir), Some(name)) => Some(
            c.with_environment("TMUX_SOCKET"@, "/run/tmux/"@ + name).with_volume(
                dir,
                "/run/tmux"@,
            ),
        ),
        _ => None,
    }
}

/// Forwards the host's tmux socket into the container. `tmux_env` is the
/// host's `TMUX`, or none where it is not set.
pub fn enable_forward_tmux_socket(command: DockerCommandBuilder, tmux_env: Option<String>) -> (r:
    Result<DockerCommandBuilder, FlokiError>)
    ensures
        match tmux_env {
            None => r matches Err(FlokiError::MissingEnvVar { name }) && name@ == "TMUX"@,
            Some(t) => match tmux_forwarded(command@, t@) {
                Some(m) => r matches Ok(c) && c@ == m,
                None => r matches Err(FlokiError::TmuxForwardError { msg }) && msg@
                    == "tmux socket in env has bad filename"@,
            },
        },
        tmux_env matches Some(t) && (first_field(t@).len() == 0 || first_field(t@) == "/"@) ==> r matches Err(
            FlokiError::TmuxForwardError { .. },
        ),
{
    let tmux = match tmux_env {
        Some(t) => t,
        None => {
            return Err(FlokiError::MissingEnvVar { name: String::from_str("TMUX") });
        },
    };
    let socket = first_field_of(tmux.as_str());
    match (parent_dir(socket.as_str()), file_name(socket.as_str())) {
        (Some(dir), Some(name)) => {
            let entry = (
                String::from_str("TMUX_SOCKET"),
                String::from_str("/run/tmux/").concat(name.as_str()),
            );
            let mount = (dir, String::from_str("/run/tmux"));
            Ok(command.add_environment(&entry).add_volume(&mount))
        },
        _ => Err(
            FlokiError::TmuxForwardError { msg: String::from_str("tmux socket in env has bad filename") },
        ),
    }
}

/// Forwarding the SSH agent a second time adds its environment entry and
/// its mount a second time: nothing is deduplicated.
pub proof fn lemma_ssh_forwarded_twice(c: CommandView, socket: Seq<char>)
    requires
        ssh_forwarded(c, socket) is Some,
    ensures
        ({
            let dir = path_parent(socket)->Some_0;
            let once = ssh_forwarded(c, socket)->Some_0;
            let entry = ("SSH_AUTH_SOCK"@, socket);
            &&& ssh_forwarded(once, socket) is Some
            &&& ssh_forwarded(once, socket)->Some_0.volumes == c.volumes + seq![(dir, dir), (dir, dir)]
            &&& ssh_forwarded(once, socket)->Some_0.environment == c.environment + seq![entry, entry]
            &&& ssh_forwarded(once, socket)->Some_0.switches == c.switches
            &&& ssh_forwarded(once, socket)->Some_0.image == c.image
            &&& ssh_forwarded(once, socket)->Some_0.shell == c.shell
        }),
{
    let dir = path_parent(socket)->Some_0;
    let entry = ("SSH_AUTH_SOCK"@, socket);
    let twice = ssh_forwarded(ssh_forwarded(c, socket)->Some_0, socket)->Some_0;
    assert(twice.volumes =~= c.volumes + seq![(dir, dir), (dir, dir)]);
    assert(twice.environment =~= c.environment + seq![entry, entry]);
}

/// Forwarding the tmux socket a second time adds its environment entry and
/// its mount a second time: nothing is deduplicated.
pub proof fn lemma_tmux_forwarded_twice(c: CommandView, tmux: Seq<char>)
    requires
        tmux_forwarded(c, tmux) is Some,
    ensures
        ({
            let socket = first_field(tmux);
            let mount = (path_parent(socket)->Some_0, "/run/tmux"@);
            let entry = ("TMUX_SOCKET"@, "/run/tmux/"@ + path_file_name(socket)->Some_0);
            let once = tmux_forwarded(c, tmux)->Some_0;
            &&& tmux_forwarded(once, tmux) is Some
            &&& tmux_forwarded(once, tmux)->Some_0.volumes == c.volumes + seq![mount, mount]
            &&& tmux_forwarded(once, tmux)->Some_0.environment == c.environment + seq![entry, entry]
            &&& tmux_forwarded(once, tmux)->Some_0.switches == c.switches
            &&& tmux_forwarded(once, tmux)->Some_0.image == c.image
            &&& tmux_forwarded(once, tmux)->Some_0.shell == c.shell
        }),
{
    let socket = first_field(tmux);
    let mount = (path_parent(socket)->Some_0, "/run/tmux"@);
    let entry = ("TMUX_SOCKET"@, "/run/tmux/"@ + path_file_name(socket)->Some_0);
    let twice = tmux_forwarded(tmux_forwarded(c, tmux)->Some_0, tmux)->Some_0;
    assert(twice.volumes =~= c.volumes + seq![mount, mount]);
    assert(twice.environment =~= c.environment + seq![entry, entry]);
}

} // verus!
