use vstd::prelude::*;

verus! {

/// Why a forwarder or an invocation was refused.
#[derive(Debug, Clone, PartialEq, Eq)]
pub enum FlokiError {
    /// A host environment variable that a forwarder reads is not set.
    MissingEnvVar { name: String },
    /// The SSH agent socket path has no parent directory.
    NoSshAuthSock {},
    /// The tmux socket path lacks a directory or a file name.
    TmuxForwardError { msg: String },
    /// The invocation names no image.
    MissingImage {},
    /// The invocation names no shell.
    MissingShell {},
}

} // verus!
