use vstd::prelude::*;

verus! {

/// Why an operation on the remote host failed. Each variant carries a
/// description of the operation attempted and of the underlying cause.
#[derive(Debug, Clone)]
pub enum SshError {
    /// The host or port could not be reached.
    Transport(String),
    /// The protocol handshake failed.
    Handshake(String),
    /// The credential was rejected, or the session did not report itself
    /// authenticated.
    Authentication(String),
    /// A command channel could not be opened, executed, read or closed.
    Channel(String),
    /// The command ran and exited with a non-zero status.
    Command { exit_code: i32, output: String },
    /// Remote output did not have the expected shape.
    Parse(String),
    /// Local temporary-file handling or a transfer stream failed.
    Io(String),
}

} // verus!
