//! The provisioning protocol: upload a script, make it executable, run it.
//! Each step runs only after the one before it succeeded, and a failure is
//! reported with the step it happened in.
use crate::client::RemoteOp;
use crate::error::SshError;
use crate::outcome::chmod_command_of;
use vstd::prelude::*;

verus! {

/// Where the installer and the uninstaller are put on the remote host.
pub const INSTALL_SCRIPT_PATH: &'static str = "/tmp/install-aymc.sh";

pub const UNINSTALL_SCRIPT_PATH: &'static str = "/tmp/uninstall-aymc.sh";

#[derive(Debug, Clone, Copy, PartialEq, Eq, Structural)]
pub enum InstallStep {
    Upload,
    Chmod,
    Execute,
}

/// A failed run of the protocol: the step that failed, and why.
#[derive(Debug, Clone)]
pub struct InstallFailure {
    pub step: InstallStep,
    pub error: SshError,
}

/// The kinds of error each step can fail with: an upload fails on its
/// channel or its stream, the chmod on its channel or with a non-zero exit,
/// the run of the script on its channel only, whatever the script's exit.
pub open spec fn failure_fits_step(f: InstallFailure) -> bool {
    match f.step {
        InstallStep::Upload => f.error is Channel || f.error is Io,
        InstallStep::Chmod => f.error is Channel || f.error is Command,
        InstallStep::Execute => f.error is Channel,
    }
}

/// The step that follows `step` when it ended with `ok`; none after the last
/// step or after a failure.
pub open spec fn next_step(step: InstallStep, ok: bool) -> Option<InstallStep> {
    if !ok {
        None
    } else {
        match step {
            InstallStep::Upload => Some(InstallStep::Chmod),
            InstallStep::Chmod => Some(InstallStep::Execute),
            InstallStep::Execute => None,
        }
    }
}

/// How many steps are left to run, at most.
pub open spec fn steps_left(next: Option<InstallStep>) -> nat {
    match next {
        None => 0,
        Some(InstallStep::Upload) => 3,
        Some(InstallStep::Chmod) => 2,
        Some(InstallStep::Execute) => 1,
    }
}

/// Where the protocol goes after `step` ended with `outcome`: on to the next
/// step (none after the last), or to a failure that names `step` and carries
/// its error.
pub fn after_step(step: InstallStep, outcome: Result<(), SshError>) -> (r: Result<
    Option<InstallStep>,
    InstallFailure,
>)
    ensures
        outcome is Ok ==> r == Ok::<Option<InstallStep>, InstallFailure>(next_step(step, true)),
        outcome matches Err(e) ==> (r matches Err(f) && f.step == step && f.error == e),
{
    match outcome {
        Err(error) => Err(InstallFailure { step, error }),
        Ok(()) => Ok(
            match step {
                InstallStep::Upload => Some(InstallStep::Chmod),
                InstallStep::Chmod => Some(InstallStep::Execute),
                InstallStep::Execute => None,
            },
        ),
    }
}

/// The remote operation that `step` performs, ending with `ok`, when
/// `content` is put at `path` and run as `command`.
pub open spec fn step_op(
    step: InstallStep,
    content: Seq<u8>,
    path: Seq<char>,
    command: Seq<char>,
    ok: bool,
) -> RemoteOp {
    match step {
        InstallStep::Upload => RemoteOp::Upload { path, content, ok },
        InstallStep::Chmod => RemoteOp::Exec { command: chmod_command_of(path), ok },
        InstallStep::Execute => RemoteOp::Stream { command, ok },
    }
}

/// The operations of the steps before `step`, each of which succeeded.
pub open spec fn ops_before(
    step: InstallStep,
    content: Seq<u8>,
    path: Seq<char>,
    command: Seq<char>,
) -> Seq<RemoteOp> {
    match step {
        InstallStep::Upload => seq![],
        InstallStep::Chmod => seq![step_op(InstallStep::Upload, content, path, command, true)],
        InstallStep::Execute => seq![
            step_op(InstallStep::Upload, content, path, command, true),
            step_op(InstallStep::Chmod, content, path, command, true),
        ],
    }
}

/// The operations of a run that stops after `last`, which ended with `ok`.
pub open spec fn ops_through(
    last: InstallStep,
    content: Seq<u8>,
    path: Seq<char>,
    command: Seq<char>,
    ok: bool,
) -> Seq<RemoteOp> {
    ops_before(last, content, path, command).push(step_op(last, content, path, command, ok))
}

} // verus!
