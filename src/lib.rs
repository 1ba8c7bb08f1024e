//! Building a container-runtime invocation for an interactive development
//! shell: mounts, environment entries and raw flags in a fixed argument
//! layout, and forwarding of the host's SSH agent, tmux socket and a nested
//! container runtime into it.

pub mod command;
pub mod dind;
pub mod errors;
pub mod forward;
pub mod paths;
pub mod words;
