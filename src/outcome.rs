//! The decisions of the remote protocol: exit statuses, output reads, session establishment, and the outcome of a script run.
use vstd::prelude::*;
use crate::error::KuoriError;

verus! {

/// The result of a remote command that exited with `status`.
pub open spec fn status_result(status: i32) -> Result<(), KuoriError> {
    if status == 0 {
        Ok(())
    } else {
        Err(KuoriError::CommandExecution { status })
    }
}

/// Maps a remote exit status to success or a command execution error.
pub fn status_outcome(status: i32) -> (r: Result<(), KuoriError>)
    ensures
        r == status_result(status),
{
    if status == 0 {
        Ok(())
    } else {
        Err(KuoriError::CommandExecution { status })
    }
}

/// One step of copying remote output: what to do with the result of a read
/// into a buffer of `cap` bytes.
#[derive(Debug, Clone, Copy, PartialEq, Eq, Structural)]
pub enum ChunkStep {
    /// The read failed: stop with a channel error.
    Fail,
    /// The stream ended: stop successfully.
    Done,
    /// Write this many bytes, flush, and read again.
    Write(usize),
}

/// Decides what a read result means for the output copy.
pub fn chunk_step(read: Option<usize>, cap: usize) -> (r: ChunkStep)
    ensures
        read is None ==> r == ChunkStep::Fail,
        read == Some(0usize) ==> r == ChunkStep::Done,
        (read matches Some(n) && 0 < n <= cap) ==> r == ChunkStep::Write(read.unwrap()),
        (read matches Some(n) && n > cap) ==> r == ChunkStep::Fail,
{
    match read {
        None => ChunkStep::Fail,
        Some(n) => if n == 0 {
            ChunkStep::Done
        } else if n <= cap {
            ChunkStep::Write(n)
        } else {
            ChunkStep::Fail
        },
    }
}

/// The result of bringing a fresh session up, from the three steps in
/// order: the handshake, the public-key authentication, and the check that
/// the session is authenticated.
pub open spec fn establish_result(handshake_ok: bool, auth_ok: bool, authenticated: bool) -> Result<
    (),
    KuoriError,
> {
    if !handshake_ok {
        Err(KuoriError::Handshake)
    } else if !auth_ok || !authenticated {
        Err(KuoriError::Authentication)
    } else {
        Ok(())
    }
}

/// Maps the outcome of the three establishment steps to a result.
pub fn establish_outcome(handshake_ok: bool, auth_ok: bool, authenticated: bool) -> (r: Result<
    (),
    KuoriError,
>)
    ensures
        r == establish_result(handshake_ok, auth_ok, authenticated),
{
    if !handshake_ok {
        Err(KuoriError::Handshake)
    } else if !auth_ok || !authenticated {
        Err(KuoriError::Authentication)
    } else {
        Ok(())
    }
}

/// The outcome of one run of a script: the main command's result, and
/// what its removal gave, if it was attempted. A failed removal never
/// replaces the main result.
pub struct ScriptRun {
    pub main: Result<(), KuoriError>,
    pub cleanup: Option<Result<(), KuoriError>>,
}

/// The exit status of the script decides the main result: status 0 is
/// success, and any other status is a command execution error carrying
/// that status, whatever the removal gave.
pub proof fn lemma_exit_status_decides(status: i32, cleanup: Option<Result<(), KuoriError>>)
    ensures
        ({
            let run = ScriptRun { main: status_result(status), cleanup };
            &&& status == 0 ==> run.main == Ok::<(), KuoriError>(())
            &&& status != 0 ==> run.main == Err::<(), KuoriError>(
                KuoriError::CommandExecution { status },
            )
        }),
{
}

} // verus!
