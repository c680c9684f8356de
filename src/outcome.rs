//! The command lines sent to the remote shell, and what their results mean.
//! Caller-supplied values are placed in the command lines as they are: no
//! shell quoting is done here.
use crate::error::SshError;
use crate::lines::{output_lines, LineAssembler};
use crate::model::{AuthRequest, SSHAuth, ServiceStatus};
use crate::text::{trim, trim_bounds};
use crate::transport::{decimal_of, decimal_text};
use vstd::prelude::*;
use vstd::string::*;

verus! {

/// The buffered result of a command that exited with `exit_status` after
/// printing `output`: the output itself on status 0, a command failure that
/// carries the output on any other status.
pub fn command_outcome(exit_status: i32, output: String) -> (r: Result<String, SshError>)
    ensures
        exit_status == 0 ==> r == Ok::<String, SshError>(output),
        exit_status != 0 ==> (r matches Err(SshError::Command { exit_code, output: o }) && exit_code
            == exit_status && o == output),
{
    if exit_status != 0 {
        Err(SshError::Command { exit_code: exit_status, output })
    } else {
        Ok(output)
    }
}

/// The outcome of an authentication attempt: the call into the transport
/// returned `call`, after which the session reported `authenticated`. Any
/// rejection, and a session that is not authenticated even though the call
/// succeeded, is an authentication failure.
pub fn auth_outcome(call: Result<(), String>, authenticated: bool) -> (r: Result<(), SshError>)
    ensures
        r is Ok <==> (call is Ok && authenticated),
        r is Err ==> r->Err_0 is Authentication,
{
    match call {
        Err(detail) => Err(SshError::Authentication(detail)),
        Ok(()) => if authenticated {
            Ok(())
        } else {
            Err(SshError::Authentication(String::from_str("the session is not authenticated")))
        },
    }
}

pub open spec fn exists_command_of(path: Seq<char>) -> Seq<char> {
    "test -e "@ + path + " && echo 'exists' || echo 'not_exists'"@
}

/// The command that prints `exists` when `path` exists on the host.
pub fn exists_command(path: &str) -> (r: String)
    ensures
        r@ == exists_command_of(path@),
{
    let mut c = String::from_str("test -e ");
    c.append(path);
    c.append(" && echo 'exists' || echo 'not_exists'");
    c
}

pub open spec fn cat_command_of(path: Seq<char>) -> Seq<char> {
    "cat "@ + path
}

/// The command that prints the content of `path`.
pub fn cat_command(path: &str) -> (r: String)
    ensures
        r@ == cat_command_of(path@),
{
    let mut c = String::from_str("cat ");
    c.append(path);
    c
}

pub open spec fn service_command_of(name: Seq<char>) -> Seq<char> {
    "systemctl is-active "@ + name
}

/// The command that asks the service manager whether `name` is active.
pub fn service_command(name: &str) -> (r: String)
    ensures
        r@ == service_command_of(name@),
{
    let mut c = String::from_str("systemctl is-active ");
    c.append(name);
    c
}

pub open spec fn chmod_command_of(path: Seq<char>) -> Seq<char> {
    "chmod +x "@ + path
}

/// The command that makes `path` executable.
pub fn chmod_command(path: &str) -> (r: String)
    ensures
        r@ == chmod_command_of(path@),
{
    let mut c = String::from_str("chmod +x ");
    c.append(path);
    c
}

pub open spec fn port_command_of(port: u16) -> Seq<char> {
    "netstat -tuln | grep :"@ + decimal_of(port as nat) + " || echo 'AVAILABLE'"@
}

/// The command that prints `AVAILABLE` unless something listens on `port`.
pub fn port_command(port: u16) -> (r: String)
    ensures
        r@ == port_command_of(port),
{
    let mut c = String::from_str("netstat -tuln | grep :");
    let digits = decimal_text(port as u64);
    c.append(digits.as_str());
    c.append(" || echo 'AVAILABLE'");
    c
}

pub open spec fn logs_command_of(service: Seq<char>, lines: u32) -> Seq<char> {
    "journalctl -u "@ + service + " -n "@ + decimal_of(lines as nat) + " --no-pager"@
}

/// The command that prints the last `lines` journal lines of `service`.
pub fn logs_command(service: &str, lines: u32) -> (r: String)
    ensures
        r@ == logs_command_of(service@, lines),
{
    let mut c = String::from_str("journalctl -u ");
    c.append(service);
    c.append(" -n ");
    let digits = decimal_text(lines as u64);
    c.append(digits.as_str());
    c.append(" --no-pager");
    c
}

pub open spec fn install_command_of(
    script: Seq<char>,
    db_password: Seq<char>,
    jwt_secret: Seq<char>,
    port: Seq<char>,
) -> Seq<char> {
    "DB_PASSWORD='"@ + db_password + "' JWT_SECRET='"@ + jwt_secret + "' APP_PORT='"@ + port
        + "' "@ + script
}

/// The command that runs the installer at `script` with its settings in the
/// environment; the port is 8080 unless one is given.
pub fn install_command(
    script: &str,
    db_password: &str,
    jwt_secret: &str,
    app_port: Option<String>,
) -> (r: String)
    ensures
        r@ == install_command_of(
            script@,
            db_password@,
            jwt_secret@,
            match app_port {
                Some(p) => p@,
                None => "8080"@,
            },
        ),
{
    let port = match app_port {
        Some(p) => p,
        None => String::from_str("8080"),
    };
    let mut c = String::from_str("DB_PASSWORD='");
    c.append(db_password);
    c.append("' JWT_SECRET='");
    c.append(jwt_secret);
    c.append("' APP_PORT='");
    c.append(port.as_str());
    c.append("' ");
    c.append(script);
    c
}

/// Whether `s`, trimmed of white space, is exactly `word`.
fn trimmed_is(s: &str, word: &str) -> (r: bool)
    ensures
        r == (trim(s@, false) == word@),
{
    let n = s.unicode_len();
    let (a, b) = trim_bounds(s, 0, n, false);
    assert(s@.subrange(0, n as int) =~= s@);
    let t = s.substring_char(a, b).to_owned();
    t == String::from_str(word)
}

/// Reads the answer of the existence test.
pub fn exists_from_output(output: &str) -> (r: bool)
    ensures
        r == (trim(output@, false) == "exists"@),
{
    trimmed_is(output, "exists")
}

/// Reads the answer of the service manager. A failed query means "not
/// running": an unknown service and an inactive one are not told apart.
pub fn active_from(result: &Result<String, SshError>) -> (r: bool)
    ensures
        r == (result matches Ok(o) && trim(o@, false) == "active"@),
{
    match result {
        Ok(o) => trimmed_is(o.as_str(), "active"),
        Err(_) => false,
    }
}

pub open spec fn contains(s: Seq<char>, p: Seq<char>) -> bool {
    exists|i: int| 0 <= i && i + p.len() <= s.len() && #[trigger] s.subrange(i, i + p.len()) == p
}

/// Whether `p` occurs in `s`.
pub fn str_contains(s: &str, p: &str) -> (r: bool)
    ensures
        r == contains(s@, p@),
{
    let n = s.unicode_len();
    let m = p.unicode_len();
    if m > n {
        return false;
    }
    if m == 0 {
        assert(s@.subrange(0int, 0int + p@.len()) =~= p@);
        return true;
    }
    let pat = p.to_owned();
    let mut i: usize = 0;
    while i <= n - m
        invariant
            n == s@.len(),
            m == p@.len(),
            pat@ == p@,
            0 < m <= n,
            i <= n - m + 1,
            forall|j: int| 0 <= j < i ==> #[trigger] s@.subrange(j, j + m) != p@,
        decreases n - i + 1,
    {
        let here = s.substring_char(i, i + m).to_owned();
        if here == pat {
            assert(s@.subrange(i as int, i + m) == p@);
            return true;
        }
        i = i + 1;
    }
    false
}

/// Reads the answer of the port probe. A probe that could not run counts as
/// "not available": a failed check and an occupied port are not told apart.
pub fn port_free_from(result: &Result<String, SshError>) -> (r: bool)
    ensures
        r == match result {
            Ok(o) => contains(o@, "AVAILABLE"@),
            Err(_) => false,
        },
{
    match result {
        Ok(o) => str_contains(o.as_str(), "AVAILABLE"),
        Err(_) => false,
    }
}

/// Reads the result of the existence test; a failed test stays a failure.
pub fn exists_from_result(result: Result<String, SshError>) -> (r: Result<bool, SshError>)
    ensures
        match result {
            Ok(o) => r == Ok::<bool, SshError>(trim(o@, false) == "exists"@),
            Err(e) => r == Err::<bool, SshError>(e),
        },
{
    match result {
        Ok(o) => Ok(exists_from_output(o.as_str())),
        Err(e) => Err(e),
    }
}

fn copy_optional(s: &Option<String>) -> (r: Option<String>)
    ensures
        r == *s,
{
    match s {
        Some(v) => Some(v.clone()),
        None => None,
    }
}

/// What to present for `auth`: the password; or the key file with its
/// passphrase, where for a key given as text the file is `key_file`. None
/// where the key is given as text and no file holds it.
pub fn auth_request(auth: &SSHAuth, key_file: Option<&str>) -> (r: Option<AuthRequest>)
    ensures
        match *auth {
            SSHAuth::Password { password } => r matches Some(AuthRequest::Password { password: p })
                && p@ == password@,
            SSHAuth::PrivateKey { private_key_path, passphrase } => r matches Some(
                AuthRequest::KeyFile { key_path, passphrase: pp },
            ) && key_path@ == private_key_path@ && pp == passphrase,
            SSHAuth::PrivateKeyData { private_key_data: _, passphrase } => match key_file {
                None => r is None,
                Some(k) => r matches Some(AuthRequest::KeyFile { key_path, passphrase: pp })
                    && key_path@ == k@ && pp == passphrase,
            },
        },
{
    match auth {
        SSHAuth::Password { password } => Some(AuthRequest::Password { password: password.clone() }),
        SSHAuth::PrivateKey { private_key_path, passphrase } => Some(
            AuthRequest::KeyFile {
                key_path: private_key_path.clone(),
                passphrase: copy_optional(passphrase),
            },
        ),
        SSHAuth::PrivateKeyData { private_key_data: _, passphrase } => match key_file {
            Some(k) => Some(
                AuthRequest::KeyFile {
                    key_path: String::from_str(k),
                    passphrase: copy_optional(passphrase),
                },
            ),
            None => None,
        },
    }
}

/// The lines of a command's output.
pub fn output_text_lines(output: &str) -> (r: Vec<String>)
    ensures
        r@.map_values(|s: String| s@) == output_lines(output.spec_bytes()),
{
    let mut assembler = LineAssembler::new();
    assembler.push_chunk(output.as_bytes());
    assembler.finish()
}

pub open spec fn install_dir_if(installed: bool, dir: Seq<char>) -> Option<Seq<char>> {
    if installed {
        Some(dir)
    } else {
        None
    }
}

/// The status snapshot from its five checks; an install path is given
/// exactly where that part is installed.
pub fn service_status_from(
    backend_installed: bool,
    agent_installed: bool,
    backend_running: bool,
    agent_running: bool,
    postgresql_running: bool,
) -> (r: ServiceStatus)
    ensures
        r.backend_installed == backend_installed,
        r.agent_installed == agent_installed,
        r.backend_running == backend_running,
        r.agent_running == agent_running,
        r.postgresql_running == postgresql_running,
        r.backend_path is Some <==> backend_installed,
        r.agent_path is Some <==> agent_installed,
        r.backend_path matches Some(p) ==> p@ == "/opt/aymc/backend"@,
        r.agent_path matches Some(p) ==> p@ == "/opt/aymc/agent"@,
{
    let backend_path = if backend_installed {
        Some(String::from_str("/opt/aymc/backend"))
    } else {
        None
    };
    let agent_path = if agent_installed {
        Some(String::from_str("/opt/aymc/agent"))
    } else {
        None
    };
    ServiceStatus {
        backend_installed,
        agent_installed,
        backend_running,
        agent_running,
        postgresql_running,
        backend_path,
        agent_path,
    }
}

} // verus!
