//! One authenticated session to one host, and the operations on it. Every
//! operation blocks until the remote side has answered; there is no retry.
use crate::config::{api_url_of, backend_config_from, ws_url_of};
use crate::disk::parse_disk_space;
use crate::error::SshError;
use crate::lines::{newline, output_lines, LineAssembler};
use crate::config::env_settings;
use crate::disk::disk_space_of;
use crate::model::{AuthRequest, BackendConfig, ConnectionTarget, DiskSpace, SSHConfig, ServiceStatus};
use crate::outcome::{
    active_from, auth_outcome, auth_request, cat_command, cat_command_of, exists_command_of,
    exists_from_result, install_command_of, logs_command_of, port_command_of, service_command_of, chmod_command, command_outcome, exists_command,
    install_command, logs_command, output_text_lines, port_command,
    port_free_from, service_command, service_status_from,
};
use crate::protocol::{
    after_step, failure_fits_step, ops_before, ops_through, steps_left, InstallFailure, InstallStep, INSTALL_SCRIPT_PATH, UNINSTALL_SCRIPT_PATH,
};
use crate::text::{lemma_split_feed_append, split_feed, split_start};
use crate::transport::{
    authenticated, channel_exec, channel_session, describe_io, describe_ssh, exit_status,
    handshake, read_chunk, read_stderr, read_stdout, scp_send, userauth_password,
    userauth_pubkey_file, wait_close, write_all,
};
use ssh2::{Channel, Session};
use vstd::prelude::*;
use vstd::string::*;

verus! {

/// Size of the reads of streamed output.
pub const CHUNK_SIZE: usize = 1024;

/// `what`, then the underlying cause.
fn context(what: &str, detail: String) -> (r: String)
    ensures
        r@ == what@ + ": "@ + detail@,
{
    let mut m = String::from_str(what);
    m.append(": ");
    m.append(detail.as_str());
    m
}

fn channel_failure(what: &str, e: &ssh2::Error) -> (r: SshError)
    ensures
        r is Channel,
{
    SshError::Channel(context(what, describe_ssh(e)))
}

fn stream_failure(what: &str, e: &std::io::Error) -> (r: SshError)
    ensures
        r is Channel,
{
    SshError::Channel(context(what, describe_io(e)))
}

fn optional_str(s: &Option<String>) -> (r: Option<&str>)
    ensures
        r is Some <==> s is Some,
        r matches Some(v) ==> v@ == s->Some_0@,
{
    match s {
        Some(v) => Some(v.as_str()),
        None => None,
    }
}

/// A remote operation as this session made it: what was sent, and whether
/// it succeeded.
pub enum RemoteOp {
    /// A command run to completion, its exit status checked.
    Exec { command: Seq<char>, ok: bool },
    /// A command run to completion, both output streams kept.
    Capture { command: Seq<char>, ok: bool },
    /// A command whose output was streamed.
    Stream { command: Seq<char>, ok: bool },
    /// Content written to a remote file.
    Upload { path: Seq<char>, content: Seq<u8>, ok: bool },
}

/// Whether the last operation of `ops` succeeded.
pub open spec fn last_ok(ops: Seq<RemoteOp>) -> bool {
    match ops.last() {
        RemoteOp::Exec { ok, .. } => ok,
        RemoteOp::Capture { ok, .. } => ok,
        RemoteOp::Stream { ok, .. } => ok,
        RemoteOp::Upload { ok, .. } => ok,
    }
}

/// An authenticated session and where it leads. It keeps no credential: the
/// password or key is used during `connect` only.
pub struct SSHClient {
    session: Session,
    target: ConnectionTarget,
    ops: Ghost<Seq<RemoteOp>>,
}

impl SSHClient {
    pub closed spec fn target(&self) -> ConnectionTarget {
        self.target
    }

    /// The remote operations made on this session so far, in order.
    pub closed spec fn ops(&self) -> Seq<RemoteOp> {
        self.ops@
    }

    /// Host, port and user name of the session.
    pub fn connection(&self) -> (r: &ConnectionTarget)
        ensures
            *r == self.target(),
    {
        &self.target
    }

    /// Completes a session whose transport is already open: handshake, then
    /// authentication with the credential of `config`, as `auth_request`
    /// builds it. For an inline private key, `key_file` is where its text has
    /// been written, readable by the owner alone, for as long as this call
    /// runs; the caller removes it afterwards, whatever the outcome. A session
    /// that is not reported authenticated after the credential was accepted is
    /// a failure too.
    pub fn connect(session: Session, config: SSHConfig, key_file: Option<&str>) -> (r: Result<
        SSHClient,
        SshError,
    >)
        ensures
            r matches Ok(c) ==> c.target().host == config.host && c.target().port == config.port
                && c.target().username == config.username && c.ops() == Seq::<RemoteOp>::empty(),
            r matches Err(e) ==> (e is Handshake || e is Authentication || e is Io),
            r matches Err(e) && e is Io ==> (config.auth is PrivateKeyData && key_file is None),
            config.auth is PrivateKeyData && key_file is None ==> (r matches Err(e) && (
            e is Handshake || e is Io)),
    {
        let mut session = session;
        if let Err(e) = handshake(&mut session) {
            return Err(SshError::Handshake(context("handshake failed", describe_ssh(&e))));
        }
        let request = match auth_request(&config.auth, key_file) {
            Some(q) => q,
            None => {
                return Err(
                    SshError::Io(String::from_str("no temporary file holds the inline private key")),
                );
            },
        };
        let SSHConfig { host, port, username, auth: _ } = config;
        let call = match &request {
            AuthRequest::Password { password } => userauth_password(
                &session,
                username.as_str(),
                password.as_str(),
            ),
            AuthRequest::KeyFile { key_path, passphrase } => userauth_pubkey_file(
                &session,
                username.as_str(),
                key_path.as_str(),
                optional_str(passphrase),
            ),
        };
        let call = match call {
            Ok(()) => Ok(()),
            Err(e) => Err(context("the credential was rejected", describe_ssh(&e))),
        };
        match auth_outcome(call, authenticated(&session)) {
            Ok(()) => Ok(
                SSHClient {
                    session,
                    target: ConnectionTarget { host, port, username },
                    ops: Ghost(Seq::empty()),
                },
            ),
            Err(e) => Err(e),
        }
    }

    fn open_channel(&self, command: &str) -> (r: Result<Channel, SshError>)
        ensures
            r matches Err(e) ==> e is Channel,
    {
        let mut channel = match channel_session(&self.session) {
            Ok(c) => c,
            Err(e) => {
                return Err(channel_failure("could not open a channel", &e));
            },
        };
        if let Err(e) = channel_exec(&mut channel, command) {
            let mut what = String::from_str("could not execute ");
            what.append(command);
            return Err(channel_failure(what.as_str(), &e));
        }
        Ok(channel)
    }

    fn run_buffered(&self, command: &str) -> (r: Result<String, SshError>)
        ensures
            r matches Err(e) ==> (e is Channel || (e matches SshError::Command { exit_code, .. }
                && exit_code != 0)),
    {
        let mut channel = match self.open_channel(command) {
            Ok(c) => c,
            Err(e) => {
                return Err(e);
            },
        };
        let output = match read_stdout(&mut channel) {
            Ok(o) => o,
            Err(e) => {
                return Err(stream_failure("could not read the command output", &e));
            },
        };
        if let Err(e) = wait_close(&mut channel) {
            return Err(channel_failure("could not close the channel", &e));
        }
        let status = match exit_status(&channel) {
            Ok(s) => s,
            Err(e) => {
                return Err(channel_failure("could not read the exit status", &e));
            },
        };
        command_outcome(status, output)
    }

    /// Runs `command` to completion and returns all it printed; an exit
    /// status other than 0 is a command failure that carries the output.
    pub fn execute_command(&mut self, command: &str) -> (r: Result<String, SshError>)
        ensures
            final(self).target() == old(self).target(),
            final(self).ops() == old(self).ops().push(RemoteOp::Exec { command: command@, ok: r is Ok }),
            r matches Err(e) ==> (e is Channel || (e matches SshError::Command { exit_code, .. }
                && exit_code != 0)),
    {
        let r = self.run_buffered(command);
        self.ops = Ghost(self.ops@.push(RemoteOp::Exec { command: command@, ok: r is Ok }));
        r
    }

    fn run_capture(&self, command: &str) -> (r: Result<(String, String), SshError>)
        ensures
            r matches Err(e) ==> e is Channel,
    {
        let mut channel = match self.open_channel(command) {
            Ok(c) => c,
            Err(e) => {
                return Err(e);
            },
        };
        let stdout = match read_stdout(&mut channel) {
            Ok(o) => o,
            Err(e) => {
                return Err(stream_failure("could not read standard output", &e));
            },
        };
        let stderr = match read_stderr(&channel) {
            Ok(o) => o,
            Err(e) => {
                return Err(stream_failure("could not read standard error", &e));
            },
        };
        if let Err(e) = wait_close(&mut channel) {
            return Err(channel_failure("could not close the channel", &e));
        }
        Ok((stdout, stderr))
    }

    /// Runs `command` and returns what it printed on standard output and on
    /// standard error; its exit status is not looked at.
    pub fn execute_command_with_stderr(&mut self, command: &str) -> (r: Result<(String, String), SshError>)
        ensures
            final(self).target() == old(self).target(),
            final(self).ops() == old(self).ops().push(RemoteOp::Capture { command: command@, ok: r is Ok }),
            r matches Err(e) ==> e is Channel,
    {
        let r = self.run_capture(command);
        self.ops = Ghost(self.ops@.push(RemoteOp::Capture { command: command@, ok: r is Ok }));
        r
    }

    fn run_streaming(&self, command: &str) -> (r: Result<Vec<String>, SshError>)
        ensures
            r matches Err(e) ==> e is Channel,
            r matches Ok(lines) ==> exists|out: Seq<u8>|
                lines@.map_values(|s: String| s@) == #[trigger] output_lines(out),
    {
        let mut channel = match self.open_channel(command) {
            Ok(c) => c,
            Err(e) => {
                return Err(e);
            },
        };
        let mut assembler = LineAssembler::new();
        let ghost mut seen: Seq<u8> = Seq::empty();
        // The count of reads bounds the loop; 2^64 reads are never reached.
        let mut reads: u64 = 0;
        while reads < u64::MAX
            invariant
                assembler@ == split_feed(split_start(), seen, newline()),
            decreases u64::MAX - reads,
        {
            let chunk = match read_chunk(&mut channel, CHUNK_SIZE) {
                Ok(c) => c,
                Err(e) => {
                    return Err(stream_failure("could not read from the channel", &e));
                },
            };
            if chunk.len() == 0 {
                break;
            }
            assembler.push_chunk(chunk.as_slice());
            proof {
                lemma_split_feed_append(split_start(), seen, chunk@, newline());
                seen = seen + chunk@;
            }
            reads = reads + 1;
        }
        if let Err(e) = wait_close(&mut channel) {
            return Err(channel_failure("could not close the channel", &e));
        }
        let lines = assembler.finish();
        assert(lines@.map_values(|s: String| s@) == output_lines(seen));
        Ok(lines)
    }

    /// Runs `command` and collects its output line by line, as it comes,
    /// until the remote side ends it. The exit status is not looked at.
    pub fn execute_command_streaming(&mut self, command: &str) -> (r: Result<Vec<String>, SshError>)
        ensures
            final(self).target() == old(self).target(),
            final(self).ops() == old(self).ops().push(RemoteOp::Stream { command: command@, ok: r is Ok }),
            r matches Err(e) ==> e is Channel,
            r matches Ok(lines) ==> exists|out: Seq<u8>|
                lines@.map_values(|s: String| s@) == #[trigger] output_lines(out),
    {
        let r = self.run_streaming(command);
        self.ops = Ghost(self.ops@.push(RemoteOp::Stream { command: command@, ok: r is Ok }));
        r
    }

    /// Whether `path` exists on the host. A failure of the test command is
    /// reported, not taken for "missing".
    pub fn file_exists(&mut self, path: &str) -> (r: Result<bool, SshError>)
        ensures
            final(self).target() == old(self).target(),
            final(self).ops() == old(self).ops().push(
                RemoteOp::Exec { command: exists_command_of(path@), ok: r is Ok },
            ),
            r matches Err(e) ==> (e is Channel || e is Command),
    {
        let command = exists_command(path);
        let result = self.execute_command(command.as_str());
        exists_from_result(result)
    }

    /// The content of the remote file `path`, as `cat` prints it.
    pub fn read_file(&mut self, path: &str) -> (r: Result<String, SshError>)
        ensures
            final(self).target() == old(self).target(),
            final(self).ops() == old(self).ops().push(
                RemoteOp::Exec { command: cat_command_of(path@), ok: r is Ok },
            ),
            r matches Err(e) ==> (e is Channel || e is Command),
    {
        let command = cat_command(path);
        self.execute_command(command.as_str())
    }

    /// Whether the service manager reports `service_name` active. Never an
    /// error: a failed query means "not running".
    pub fn is_service_running(&mut self, service_name: &str) -> (r: Result<bool, SshError>)
        ensures
            final(self).target() == old(self).target(),
            final(self).ops() == old(self).ops().push(
                RemoteOp::Exec {
                    command: service_command_of(service_name@),
                    ok: last_ok(final(self).ops()),
                },
            ),
            r is Ok,
            !last_ok(final(self).ops()) ==> r == Ok::<bool, SshError>(false),
    {
        let command = service_command(service_name);
        let result = self.execute_command(command.as_str());
        Ok(active_from(&result))
    }

    fn service_running(&mut self, service_name: &str) -> (r: bool)
        ensures
            final(self).target() == old(self).target(),
    {
        match self.is_service_running(service_name) {
            Ok(b) => b,
            Err(_) => false,
        }
    }

    fn installed(&mut self, path: &str) -> (r: bool)
        ensures
            final(self).target() == old(self).target(),
    {
        match self.file_exists(path) {
            Ok(b) => b,
            Err(_) => false,
        }
    }

    /// What of the installation is present and running. Every check runs; one
    /// that cannot be made counts as false.
    pub fn check_services(&mut self) -> (r: Result<ServiceStatus, SshError>)
        ensures
            final(self).target() == old(self).target(),
            r matches Ok(s) && (s.backend_path is Some <==> s.backend_installed) && (
            s.agent_path is Some <==> s.agent_installed),
    {
        let backend_installed = self.installed("/opt/aymc/backend/aymc-backend");
        let agent_installed = self.installed("/opt/aymc/agent/aymc-agent");
        let backend_running = self.service_running("aymc-backend");
        let agent_running = self.service_running("aymc-agent");
        let postgresql_running = self.service_running("postgresql");
        Ok(
            service_status_from(
                backend_installed,
                agent_installed,
                backend_running,
                agent_running,
                postgresql_running,
            ),
        )
    }

    /// The backend's settings, from its environment file on the host, with
    /// URLs on the host this session is connected to. A failed read is an
    /// error; no defaults stand in for an unreadable file.
    pub fn get_backend_config(&mut self) -> (r: Result<BackendConfig, SshError>)
        ensures
            final(self).target() == old(self).target(),
            final(self).ops() == old(self).ops().push(
                RemoteOp::Exec { command: cat_command_of("/etc/aymc/backend.env"@), ok: r is Ok },
            ),
            r matches Ok(c) ==> c.api_url@ == api_url_of(old(self).target().host@, c.port@)
                && c.ws_url@ == ws_url_of(old(self).target().host@, c.port@) && exists|
                content: Seq<char>,
            | #[trigger] env_settings(content) == (c.port@, c.environment@),
            r matches Err(e) ==> (e is Channel || e is Command),
    {
        match self.read_file("/etc/aymc/backend.env") {
            Ok(content) => Ok(backend_config_from(self.target.host.as_str(), content.as_str())),
            Err(e) => Err(e),
        }
    }

    /// Writes `bytes` to `remote_path` on the host, readable by all.
    pub fn upload_bytes(&mut self, bytes: &[u8], remote_path: &str) -> (r: Result<(), SshError>)
        ensures
            final(self).target() == old(self).target(),
            final(self).ops() == old(self).ops().push(
                RemoteOp::Upload { path: remote_path@, content: bytes@, ok: r is Ok },
            ),
            r matches Err(e) ==> (e is Channel || e is Io),
    {
        let r = self.send_bytes(bytes, remote_path);
        self.ops = Ghost(
            self.ops@.push(RemoteOp::Upload { path: remote_path@, content: bytes@, ok: r is Ok }),
        );
        r
    }

    fn send_bytes(&self, bytes: &[u8], remote_path: &str) -> (r: Result<(), SshError>)
        ensures
            r matches Err(e) ==> (e is Channel || e is Io),
    {
        let mut remote = match scp_send(&self.session, remote_path, 0o644, bytes.len() as u64) {
            Ok(c) => c,
            Err(e) => {
                return Err(channel_failure("could not create the remote file", &e));
            },
        };
        match write_all(&mut remote, bytes) {
            Ok(()) => Ok(()),
            Err(e) => Err(SshError::Io(context("could not write the remote file", describe_io(&e)))),
        }
    }

    /// Writes the text `content` to `remote_path` on the host.
    pub fn upload_content(&mut self, content: &str, remote_path: &str) -> (r: Result<(), SshError>)
        ensures
            final(self).target() == old(self).target(),
            final(self).ops() == old(self).ops().push(
                RemoteOp::Upload { path: remote_path@, content: content.spec_bytes(), ok: r is Ok },
            ),
            r matches Err(e) ==> (e is Channel || e is Io),
    {
        self.upload_bytes(content.as_bytes(), remote_path)
    }

    /// The host's operating-system description.
    pub fn get_host_info(&mut self) -> (r: Result<String, SshError>)
        ensures
            final(self).target() == old(self).target(),
            final(self).ops() == old(self).ops().push(
                RemoteOp::Exec { command: "cat /etc/os-release"@, ok: r is Ok },
            ),
            r matches Err(e) ==> (e is Channel || e is Command),
    {
        self.execute_command("cat /etc/os-release")
    }

    /// Whether the user may run `sudo` without a password: whether the test
    /// command succeeded.
    pub fn has_sudo_access(&mut self) -> (r: Result<bool, SshError>)
        ensures
            final(self).target() == old(self).target(),
            final(self).ops() == old(self).ops().push(
                RemoteOp::Exec { command: "sudo -n true 2>&1"@, ok: last_ok(final(self).ops()) },
            ),
            r == Ok::<bool, SshError>(last_ok(final(self).ops())),
    {
        Ok(self.execute_command("sudo -n true 2>&1").is_ok())
    }

    /// Whether nothing listens on `port`, as `port_free_from` reads the probe;
    /// a probe that cannot run gives "not available".
    pub fn check_port_available(&mut self, port: u16) -> (r: bool)
        ensures
            final(self).target() == old(self).target(),
            final(self).ops() == old(self).ops().push(
                RemoteOp::Exec { command: port_command_of(port), ok: last_ok(final(self).ops()) },
            ),
            !last_ok(final(self).ops()) ==> !r,
    {
        let command = port_command(port);
        let result = self.execute_command(command.as_str());
        port_free_from(&result)
    }

    /// The space on the root file system.
    pub fn get_disk_space(&mut self) -> (r: Result<DiskSpace, SshError>)
        ensures
            final(self).target() == old(self).target(),
            final(self).ops() == old(self).ops().push(
                RemoteOp::Exec { command: "df -m / | tail -1"@, ok: last_ok(final(self).ops()) },
            ),
            !last_ok(final(self).ops()) ==> r is Err,
            r matches Ok(d) ==> exists|row: Seq<char>| #[trigger] disk_space_of(row) == Some(d),
            r matches Err(e) ==> (e is Channel || e is Command || e is Parse),
    {
        match self.execute_command("df -m / | tail -1") {
            Ok(row) => parse_disk_space(row.as_str()),
            Err(e) => Err(e),
        }
    }

    /// Whether Docker is installed and its daemon answers: `docker ps` runs
    /// only where `which docker` succeeded.
    pub fn check_docker(&mut self) -> (r: bool)
        ensures
            final(self).target() == old(self).target(),
            r <==> final(self).ops() == old(self).ops() + seq![
                RemoteOp::Exec { command: "which docker"@, ok: true },
                RemoteOp::Exec { command: "docker ps"@, ok: true },
            ],
    {
        let ghost start = self.ops();
        let ghost both = start + seq![
            RemoteOp::Exec { command: "which docker"@, ok: true },
            RemoteOp::Exec { command: "docker ps"@, ok: true },
        ];
        if self.execute_command("which docker").is_err() {
            assert(self.ops().len() != both.len());
            return false;
        }
        let up = self.execute_command("docker ps").is_ok();
        if up {
            assert(self.ops() =~= both);
        } else {
            assert(self.ops().last() != both.last());
        }
        up
    }

    /// The last `lines` journal lines of `service`.
    pub fn get_system_logs(&mut self, service: &str, lines: u32) -> (r: Result<Vec<String>, SshError>)
        ensures
            final(self).target() == old(self).target(),
            final(self).ops() == old(self).ops().push(
                RemoteOp::Exec { command: logs_command_of(service@, lines), ok: r is Ok },
            ),
            r matches Err(e) ==> (e is Channel || e is Command),
            r matches Ok(v) ==> exists|out: Seq<u8>|
                v@.map_values(|s: String| s@) == #[trigger] output_lines(out),
    {
        let command = logs_command(service, lines);
        match self.execute_command(command.as_str()) {
            Ok(output) => Ok(output_text_lines(output.as_str())),
            Err(e) => Err(e),
        }
    }

    /// Runs the provisioning protocol: `script` is uploaded to `remote_path`,
    /// made executable, and `command` is run with its output streamed. Each
    /// step runs only after the previous one succeeded, and a failure names
    /// the step that failed; the script's own exit status is not looked at.
    pub fn run_provisioning(&mut self, script: &str, remote_path: &str, command: &str) -> (r: Result<
        Vec<String>,
        InstallFailure,
    >)
        ensures
            final(self).target() == old(self).target(),
            r is Ok ==> final(self).ops() == old(self).ops() + ops_through(
                InstallStep::Execute,
                script.spec_bytes(),
                remote_path@,
                command@,
                true,
            ),
            r matches Err(f) ==> final(self).ops() == old(self).ops() + ops_through(
                f.step,
                script.spec_bytes(),
                remote_path@,
                command@,
                false,
            ) && failure_fits_step(f),
            r matches Ok(lines) ==> exists|out: Seq<u8>|
                lines@.map_values(|s: String| s@) == #[trigger] output_lines(out),
    {
        let ghost content = script.spec_bytes();
        let ghost start = self.ops@;
        let mut next: Option<InstallStep> = Some(InstallStep::Upload);
        let mut lines: Vec<String> = Vec::new();
        while next.is_some()
            invariant
                self.target() == old(self).target(),
                start == old(self).ops(),
                content == script.spec_bytes(),
                next matches Some(s) ==> self.ops() == start + ops_before(
                    s,
                    content,
                    remote_path@,
                    command@,
                ),
                next is None ==> self.ops() == start + ops_through(
                    InstallStep::Execute,
                    content,
                    remote_path@,
                    command@,
                    true,
                ) && exists|out: Seq<u8>|
                    lines@.map_values(|s: String| s@) == #[trigger] output_lines(out),
            decreases steps_left(next),
        {
            let step = next.unwrap();
            let ghost before = self.ops();
            let outcome: Result<(), SshError> = match step {
                InstallStep::Upload => self.upload_content(script, remote_path),
                InstallStep::Chmod => {
                    let chmod = chmod_command(remote_path);
                    match self.execute_command(chmod.as_str()) {
                        Ok(_) => Ok(()),
                        Err(e) => Err(e),
                    }
                },
                InstallStep::Execute => {
                    match self.execute_command_streaming(command) {
                        Ok(l) => {
                            lines = l;
                            Ok(())
                        },
                        Err(e) => Err(e),
                    }
                },
            };
            assert(self.ops() == before.push(
                crate::protocol::step_op(step, content, remote_path@, command@, outcome is Ok),
            ));
            match after_step(step, outcome) {
                Ok(n) => {
                    assert(start + ops_through(step, content, remote_path@, command@, true) =~= (
                    start + ops_before(step, content, remote_path@, command@)).push(
                        crate::protocol::step_op(step, content, remote_path@, command@, true),
                    ));
                    next = n;
                },
                Err(f) => {
                    assert(start + ops_through(step, content, remote_path@, command@, false) =~= (
                    start + ops_before(step, content, remote_path@, command@)).push(
                        crate::protocol::step_op(step, content, remote_path@, command@, false),
                    ));
                    return Err(f);
                },
            }
        }
        Ok(lines)
    }

    /// Installs the backend with the installer text `script`, passing the
    /// database password, the token secret and the port (8080 unless given)
    /// in the installer's environment, as `install_command` writes them.
    pub fn install_backend(
        &mut self,
        script: &str,
        db_password: &str,
        jwt_secret: &str,
        app_port: Option<String>,
    ) -> (r: Result<Vec<String>, InstallFailure>)
        ensures
            ({
                let command = install_command_of(
                    INSTALL_SCRIPT_PATH@,
                    db_password@,
                    jwt_secret@,
                    match app_port {
                        Some(p) => p@,
                        None => "8080"@,
                    },
                );
                &&& final(self).target() == old(self).target()
                &&& r is Ok ==> final(self).ops() == old(self).ops() + ops_through(
                    InstallStep::Execute,
                    script.spec_bytes(),
                    INSTALL_SCRIPT_PATH@,
                    command,
                    true,
                )
                &&& r matches Err(f) ==> final(self).ops() == old(self).ops() + ops_through(
                    f.step,
                    script.spec_bytes(),
                    INSTALL_SCRIPT_PATH@,
                    command,
                    false,
                ) && failure_fits_step(f)
                &&& r matches Ok(lines) ==> exists|out: Seq<u8>|
                    lines@.map_values(|s: String| s@) == #[trigger] output_lines(out)
            }),
    {
        let command = install_command(INSTALL_SCRIPT_PATH, db_password, jwt_secret, app_port);
        self.run_provisioning(script, INSTALL_SCRIPT_PATH, command.as_str())
    }

    /// Removes the installation with the uninstaller text `script`, which runs
    /// with no variables added to its environment.
    pub fn uninstall_backend(&mut self, script: &str) -> (r: Result<Vec<String>, InstallFailure>)
        ensures
            final(self).target() == old(self).target(),
            r is Ok ==> final(self).ops() == old(self).ops() + ops_through(
                InstallStep::Execute,
                script.spec_bytes(),
                UNINSTALL_SCRIPT_PATH@,
                UNINSTALL_SCRIPT_PATH@,
                true,
            ),
            r matches Err(f) ==> final(self).ops() == old(self).ops() + ops_through(
                f.step,
                script.spec_bytes(),
                UNINSTALL_SCRIPT_PATH@,
                UNINSTALL_SCRIPT_PATH@,
                false,
            ) && failure_fits_step(f),
            r matches Ok(lines) ==> exists|out: Seq<u8>|
                lines@.map_values(|s: String| s@) == #[trigger] output_lines(out),
    {
        self.run_provisioning(script, UNINSTALL_SCRIPT_PATH, UNINSTALL_SCRIPT_PATH)
    }
}

/// The place that holds the one session of a process, if there is one.
/// Whoever uses it holds it exclusively for the length of one operation.
pub struct SessionSlot {
    client: Option<SSHClient>,
}

impl SessionSlot {
    pub closed spec fn occupied(&self) -> bool {
        self.client is Some
    }

    pub closed spec fn held(&self) -> SSHClient {
        self.client->Some_0
    }

    pub fn new() -> (r: Self)
        ensures
            !r.occupied(),
    {
        SessionSlot { client: None }
    }

    /// Keeps `client` as the session, in place of any earlier one.
    pub fn store(&mut self, client: SSHClient)
        ensures
            final(self).occupied(),
            final(self).held() == client,
    {
        self.client = Some(client);
    }

    /// Drops the session; tells whether there was one.
    pub fn disconnect(&mut self) -> (r: bool)
        ensures
            r == old(self).occupied(),
            !final(self).occupied(),
    {
        let had = self.client.is_some();
        self.client = None;
        had
    }

    pub fn is_connected(&self) -> (r: bool)
        ensures
            r == self.occupied(),
    {
        self.client.is_some()
    }

    /// The session, to operate on, if there is one.
    pub fn client_mut(&mut self) -> (r: Option<&mut SSHClient>)
        ensures
            r is Some <==> old(self).occupied(),
    {
        match &mut self.client {
            Some(c) => Some(c),
            None => None,
        }
    }

    /// The session, if there is one.
    pub fn client(&self) -> (r: Option<&SSHClient>)
        ensures
            r is Some <==> self.occupied(),
            r matches Some(c) ==> *c == self.held(),
    {
        match &self.client {
            Some(c) => Some(c),
            None => None,
        }
    }
}

} // verus!
