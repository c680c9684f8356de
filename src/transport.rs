//! The calls into the ssh2 crate and into the parts of std that vstd does not
//! specify. Each item states only what the called code guarantees.
use ssh2::{Channel, Session};
use vstd::prelude::*;

verus! {

#[verifier::external_type_specification]
#[verifier::external_body]
pub struct ExSession(ssh2::Session);

#[verifier::external_type_specification]
#[verifier::external_body]
pub struct ExChannel(ssh2::Channel);

#[verifier::external_type_specification]
#[verifier::external_body]
pub struct ExSshError(ssh2::Error);

#[verifier::external_type_specification]
#[verifier::external_body]
pub struct ExIoError(std::io::Error);

/// What `String::from_utf8_lossy` makes of a byte sequence.
pub uninterp spec fn utf8_lossy(b: Seq<u8>) -> Seq<char>;

/// Relies on `String::from_utf8_lossy`: valid UTF-8 is decoded as it is, and
/// each invalid sequence becomes U+FFFD; the result depends on the bytes alone.
#[verifier::external_body]
pub(crate) fn decode_lossy(b: &[u8]) -> (r: String)
    ensures
        r@ == utf8_lossy(b@),
        vstd::utf8::valid_utf8(b@) ==> r@ == vstd::utf8::decode_utf8(b@),
{
    String::from_utf8_lossy(b).into_owned()
}

/// The decimal digits of `n`, most significant first, without sign or padding.
pub open spec fn decimal_of(n: nat) -> Seq<char>
    decreases n,
{
    if n < 10 {
        seq![seq!['0', '1', '2', '3', '4', '5', '6', '7', '8', '9'][n as int]]
    } else {
        decimal_of(n / 10).push(seq!['0', '1', '2', '3', '4', '5', '6', '7', '8', '9'][(n % 10) as int])
    }
}

/// Relies on `ToString` for `u64`, that is `Display`, which writes the decimal
/// digits of the value without sign or padding.
#[verifier::external_body]
pub(crate) fn decimal_text(n: u64) -> (r: String)
    ensures
        r@ == decimal_of(n as nat),
{
    n.to_string()
}

/// Relies on `ssh2::Error`'s `Display`: a description of the error.
#[verifier::external_body]
pub(crate) fn describe_ssh(e: &ssh2::Error) -> String {
    e.to_string()
}

/// Relies on `std::io::Error`'s `Display`: a description of the error.
#[verifier::external_body]
pub(crate) fn describe_io(e: &std::io::Error) -> String {
    e.to_string()
}

/// Relies on `Session::handshake`: protocol negotiation over the session's
/// stream.
#[verifier::external_body]
pub(crate) fn handshake(session: &mut Session) -> Result<(), ssh2::Error> {
    session.handshake()
}

/// Relies on `Session::userauth_password`: password authentication.
#[verifier::external_body]
pub(crate) fn userauth_password(session: &Session, username: &str, password: &str) -> Result<(), ssh2::Error> {
    session.userauth_password(username, password)
}

/// Relies on `Session::userauth_pubkey_file`: authentication with the private
/// key stored at `key_path`, with no separate public key file.
#[verifier::external_body]
pub(crate) fn userauth_pubkey_file(
    session: &Session,
    username: &str,
    key_path: &str,
    passphrase: Option<&str>,
) -> Result<(), ssh2::Error> {
    session.userauth_pubkey_file(username, None, std::path::Path::new(key_path), passphrase)
}

/// Relies on `Session::authenticated`: whether the session has been
/// authenticated.
#[verifier::external_body]
pub(crate) fn authenticated(session: &Session) -> bool {
    session.authenticated()
}

/// Relies on `Session::channel_session`: opens a session channel.
#[verifier::external_body]
pub(crate) fn channel_session(session: &Session) -> Result<Channel, ssh2::Error> {
    session.channel_session()
}

/// Relies on `Channel::exec`: starts `command` on the channel.
#[verifier::external_body]
pub(crate) fn channel_exec(channel: &mut Channel, command: &str) -> Result<(), ssh2::Error> {
    channel.exec(command)
}

/// Relies on `Read::read_to_string` for `Channel`: all standard output, up to
/// end of file.
#[verifier::external_body]
pub(crate) fn read_stdout(channel: &mut Channel) -> Result<String, std::io::Error> {
    let mut out = String::new();
    std::io::Read::read_to_string(channel, &mut out).map(|_| out)
}

/// Relies on `Channel::stderr` and `Read::read_to_string`: all standard error,
/// up to end of file.
#[verifier::external_body]
pub(crate) fn read_stderr(channel: &Channel) -> Result<String, std::io::Error> {
    let mut out = String::new();
    std::io::Read::read_to_string(&mut channel.stderr(), &mut out).map(|_| out)
}

/// Relies on `Read::read` for `Channel`: the next bytes of standard output,
/// at most `max` of them; none only at end of file. `Read::read` promises a
/// count no larger than the buffer.
#[verifier::external_body]
pub(crate) fn read_chunk(channel: &mut Channel, max: usize) -> (r: Result<Vec<u8>, std::io::Error>)
    ensures
        r matches Ok(v) ==> v@.len() <= max,
{
    let mut buf = vec![0u8; max];
    let n = std::io::Read::read(channel, &mut buf)?;
    buf.truncate(n);
    Ok(buf)
}

/// Relies on `Channel::wait_close`: blocks until the remote side has closed
/// the channel.
#[verifier::external_body]
pub(crate) fn wait_close(channel: &mut Channel) -> Result<(), ssh2::Error> {
    channel.wait_close()
}

/// Relies on `Channel::exit_status`: the remote command's exit code.
#[verifier::external_body]
pub(crate) fn exit_status(channel: &Channel) -> Result<i32, ssh2::Error> {
    channel.exit_status()
}

/// Relies on `Session::scp_send`: opens an SCP upload of `size` bytes to
/// `remote_path` with permission bits `mode`.
#[verifier::external_body]
pub(crate) fn scp_send(session: &Session, remote_path: &str, mode: i32, size: u64) -> Result<Channel, ssh2::Error> {
    session.scp_send(std::path::Path::new(remote_path), mode, size, None)
}

/// Relies on `Write::write_all` for `Channel`: sends all of `bytes`.
#[verifier::external_body]
pub(crate) fn write_all(channel: &mut Channel, bytes: &[u8]) -> Result<(), std::io::Error> {
    std::io::Write::write_all(channel, bytes)
}

} // verus!
