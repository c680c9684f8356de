//! Administration client for a remote host over a secure shell: session setup,
//! buffered and line-streamed command execution, file transfer, probes of the
//! remote installation, and the upload/chmod/run provisioning protocol.

pub mod client;
pub mod config;
pub mod disk;
pub mod error;
pub mod lines;
pub mod model;
pub mod outcome;
pub mod protocol;
pub mod scripts;
pub mod text;
pub mod transport;
