use vstd::prelude::*;

verus! {

/// The credential presented when a session is opened.
#[derive(Debug, Clone)]
pub enum SSHAuth {
    /// A password.
    Password { password: String },
    /// A private key read from a file on this machine.
    PrivateKey { private_key_path: String, passphrase: Option<String> },
    /// A private key given as text; it is written to a temporary file only
    /// for the duration of the authentication.
    PrivateKeyData { private_key_data: String, passphrase: Option<String> },
}

/// Where to connect, as whom, and with what credential.
#[derive(Debug, Clone)]
pub struct SSHConfig {
    pub host: String,
    pub port: u16,
    pub username: String,
    pub auth: SSHAuth,
}

/// Where a session leads, without the credential that opened it.
#[derive(Debug, Clone)]
pub struct ConnectionTarget {
    pub host: String,
    pub port: u16,
    pub username: String,
}

/// What an authentication attempt hands to the transport besides the user
/// name: a password, or the path of a private-key file and its passphrase.
#[derive(Debug, Clone)]
pub enum AuthRequest {
    Password { password: String },
    KeyFile { key_path: String, passphrase: Option<String> },
}

/// What is installed and running on the remote host.
#[derive(Debug, Clone)]
pub struct ServiceStatus {
    pub backend_installed: bool,
    pub agent_installed: bool,
    pub backend_running: bool,
    pub agent_running: bool,
    pub postgresql_running: bool,
    pub backend_path: Option<String>,
    pub agent_path: Option<String>,
}

/// The backend's settings as read from its environment file on the host.
#[derive(Debug, Clone)]
pub struct BackendConfig {
    pub api_url: String,
    pub ws_url: String,
    pub environment: String,
    pub port: String,
}

/// Size of the remote root file system, in megabytes.
#[derive(Debug, Clone, Copy, PartialEq, Eq, Structural)]
pub struct DiskSpace {
    pub total_mb: u64,
    pub used_mb: u64,
    pub available_mb: u64,
    pub percent_used: u8,
}

/// The uniform envelope in which operations report to their caller.
#[derive(Debug)]
pub struct CommandResponse<T> {
    pub success: bool,
    pub data: Option<T>,
    pub error: Option<String>,
}

impl<T> CommandResponse<T> {
    pub fn success(data: T) -> (r: Self)
        ensures
            r.success,
            r.data == Some(data),
            r.error is None,
    {
        CommandResponse { success: true, data: Some(data), error: None }
    }

    pub fn error(message: String) -> (r: Self)
        ensures
            !r.success,
            r.data is None,
            r.error == Some(message),
    {
        CommandResponse { success: false, data: None, error: Some(message) }
    }
}

} // verus!
