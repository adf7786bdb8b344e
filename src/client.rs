//! The client: connection establishment, script upload and the
//! upload-execute-cleanup protocol over a cached session.
use vstd::prelude::*;
use crate::command::{
    cleanup_command, cleanup_command_of, env_prefix, remote_command, remote_script_path,
};
use crate::error::KuoriError;
use crate::config::env_keys;
use crate::error::MissingField;
use crate::outcome::{
    chunk_step, establish_outcome, establish_result, status_outcome, status_result, ChunkStep,
    ScriptRun,
};
use crate::session::SessionManager;
use crate::target::{missing_field, ConnectionParams, ConnectionTarget};

verus! {

/// A parsed SSH client configuration, opaque to the library.
#[verifier::external_type_specification]
#[verifier::external_body]
pub struct ExSshConfig(ssh2_config::SshConfig);

/// A command or transfer channel of a session, opaque to the library.
#[verifier::external_type_specification]
#[verifier::external_body]
pub struct ExChannel(ssh2::Channel);

/// Length of the random part of an uploaded script's name.
pub const SCRIPT_NAME_LEN: usize = 10;

/// How many random names are drawn before the upload is given up.
pub const NAME_ATTEMPTS: usize = 8;

/// Size of the chunks in which remote output is read.
pub const CHUNK_LEN: usize = 4096;

/// Permission bits of an uploaded script.
pub const SCRIPT_MODE: i32 = 0o755;

/// An ASCII letter or digit.
pub open spec fn is_alphanumeric(c: char) -> bool {
    ('a' <= c && c <= 'z') || ('A' <= c && c <= 'Z') || ('0' <= c && c <= '9')
}

/// What a remote command invocation can report: success, a channel
/// failure, or a non-zero exit status.
pub open spec fn runner_result(r: Result<(), KuoriError>) -> bool {
    r is Ok || r == Err::<(), KuoriError>(KuoriError::Channel) || exists|s: i32|
        s != 0 && r == status_result(s)
}

/// Which connection parameter, if any, the configuration lacks for an alias.
pub uninterp spec fn missing_of(config: ssh2_config::SshConfig, alias: Seq<char>) -> Option<
    MissingField,
>;

/// Relies on ssh2_config::SshConfig::query: the parameters that the
/// configuration gives for `alias`, with identity files as text; they
/// depend on the configuration and the alias alone.
#[verifier::external_body]
fn query_params(config: &ssh2_config::SshConfig, alias: &str) -> (r: ConnectionParams)
    ensures
        missing_field(r) == missing_of(*config, alias@),
{
    let p = config.query(alias);
    ConnectionParams {
        host_name: p.host_name,
        port: p.port,
        user: p.user,
        identity_file: p.identity_file.map(
            |v| v.iter().map(|f| f.to_string_lossy().into_owned()).collect(),
        ),
    }
}

/// Relies on rand's Alphanumeric distribution: `len` characters drawn
/// uniformly from the ASCII letters and digits.
#[verifier::external_body]
fn random_alphanumeric(len: usize) -> (r: String)
    ensures
        r@.len() == len,
        forall|i: int| 0 <= i < len ==> is_alphanumeric(#[trigger] r@[i]),
{
    rand::distributions::DistString::sample_string(
        &rand::distributions::Alphanumeric,
        &mut rand::thread_rng(),
        len,
    )
}

/// Relies on ssh2::Session::handshake; true on success.
#[verifier::external_body]
fn handshake(session: &mut ssh2::Session) -> (r: bool) {
    session.handshake().is_ok()
}

/// Relies on ssh2::Session::userauth_pubkey_file, with no public key file
/// and no passphrase; true on success.
#[verifier::external_body]
fn userauth_pubkey_file(session: &ssh2::Session, user: &str, key: &str) -> (r: bool) {
    session.userauth_pubkey_file(user, None, std::path::Path::new(key), None).is_ok()
}

/// Relies on ssh2::Session::authenticated.
#[verifier::external_body]
fn authenticated(session: &ssh2::Session) -> (r: bool) {
    session.authenticated()
}

/// Relies on ssh2::Session::channel_session: a new command channel, if one opened.
#[verifier::external_body]
fn channel_session(session: &ssh2::Session) -> (r: Option<ssh2::Channel>) {
    session.channel_session().ok()
}

/// Relies on ssh2::Session::scp_send: a channel that receives a file of
/// `size` bytes at `path` with permission bits `mode`, if one opened.
#[verifier::external_body]
fn scp_send(session: &ssh2::Session, path: &str, mode: i32, size: u64) -> (r: Option<
    ssh2::Channel,
>) {
    session.scp_send(std::path::Path::new(path), mode, size, None).ok()
}

/// Relies on ssh2::Channel::exec; true once the command was started.
#[verifier::external_body]
fn channel_exec(channel: &mut ssh2::Channel, command: &str) -> (r: bool) {
    channel.exec(command).is_ok()
}

/// Relies on ssh2::Channel as std::io::Read (its `read`): the number of bytes placed
/// at the start of `buf`, at most its length, zero at the end of the stream.
#[verifier::external_body]
fn channel_read(channel: &mut ssh2::Channel, buf: &mut Vec<u8>) -> (r: Option<usize>)
    ensures
        final(buf)@.len() == old(buf)@.len(),
        r is Some ==> r.unwrap() <= old(buf)@.len(),
{
    std::io::Read::read(channel, buf.as_mut_slice()).ok()
}

/// Relies on ssh2::Channel as std::io::Write (its `write_all`); true once all bytes were written.
#[verifier::external_body]
fn channel_write_all(channel: &mut ssh2::Channel, bytes: &Vec<u8>) -> (r: bool) {
    std::io::Write::write_all(channel, bytes.as_slice()).is_ok()
}

/// Relies on ssh2::Channel::wait_close; true once the remote end closed.
#[verifier::external_body]
fn channel_wait_close(channel: &mut ssh2::Channel) -> (r: bool) {
    channel.wait_close().is_ok()
}

/// Relies on ssh2::Channel::exit_status: the remote exit status, if it could be read.
#[verifier::external_body]
fn channel_exit_status(channel: &ssh2::Channel) -> (r: Option<i32>) {
    channel.exit_status().ok()
}

/// Relies on std::io::Write::write_all on standard output, for the first
/// `n` bytes of `buf`; true once they were written.
#[verifier::external_body]
fn stdout_write_all(buf: &Vec<u8>, n: usize) -> (r: bool)
    requires
        n <= buf@.len(),
{
    std::io::Write::write_all(&mut std::io::stdout(), &buf[..n]).is_ok()
}

/// Relies on std::io::Write::flush on standard output; true on success.
#[verifier::external_body]
fn stdout_flush() -> (r: bool) {
    std::io::Write::flush(&mut std::io::stdout()).is_ok()
}

/// Copies a channel's output to standard output, chunk by chunk, flushing
/// after each, until the end of the stream; gives up after `u64::MAX`
/// chunks, far beyond any real output.
fn stream_output(channel: &mut ssh2::Channel) -> (r: bool) {
    let mut buf: Vec<u8> = vec![0u8; CHUNK_LEN];
    let mut chunks_left: u64 = u64::MAX;
    while chunks_left > 0
        invariant
            buf@.len() == CHUNK_LEN,
        decreases chunks_left,
    {
        let read = channel_read(channel, &mut buf);
        match chunk_step(read, buf.len()) {
            ChunkStep::Fail => return false,
            ChunkStep::Done => return true,
            ChunkStep::Write(n) => {
                if !stdout_write_all(&buf, n) || !stdout_flush() {
                    return false;
                }
            },
        }
        chunks_left = chunks_left - 1;
    }
    false
}

/// Runs one command on a session, streaming its output to standard output,
/// and maps its exit status to the result.
pub fn run_remote_command(session: &ssh2::Session, command: &str) -> (r: Result<(), KuoriError>)
    ensures
        runner_result(r),
{
    let mut channel = match channel_session(session) {
        Some(c) => c,
        None => return Err(KuoriError::Channel),
    };
    if !channel_exec(&mut channel, command) {
        return Err(KuoriError::Channel);
    }
    if !stream_output(&mut channel) {
        return Err(KuoriError::Channel);
    }
    if !channel_wait_close(&mut channel) {
        return Err(KuoriError::Channel);
    }
    match channel_exit_status(&channel) {
        Some(status) => {
            let r = status_outcome(status);
            assert(status != 0 ==> r == status_result(status));
            r
        },
        None => Err(KuoriError::Channel),
    }
}

/// Uploads `script` to `path` with executable permission bits.
fn send_script(session: &ssh2::Session, script: &Vec<u8>, path: &str) -> (r: Result<
    (),
    KuoriError,
>)
    ensures
        r is Ok || r == Err::<(), KuoriError>(KuoriError::Upload),
{
    let mut remote_file = match scp_send(session, path, SCRIPT_MODE, script.len() as u64) {
        Some(c) => c,
        None => return Err(KuoriError::Upload),
    };
    if channel_write_all(&mut remote_file, script) {
        Ok(())
    } else {
        Err(KuoriError::Upload)
    }
}

/// Draws random alphanumeric names until one was not issued before in this
/// run, and records it; `None` after `NAME_ATTEMPTS` collisions.
pub fn fresh_script_name(sessions: &mut SessionManager) -> (r: Option<String>)
    requires
        old(sessions).wf(),
    ensures
        final(sessions).wf(),
        final(sessions)@ == old(sessions)@,
        forall|a: Seq<char>| #[trigger] final(sessions).session_of(a) == old(sessions).session_of(a),
        match r {
            Some(name) => {
                &&& name@.len() == SCRIPT_NAME_LEN
                &&& forall|i: int| 0 <= i < name@.len() ==> is_alphanumeric(#[trigger] name@[i])
                &&& !old(sessions).issued_names().contains(name@)
                &&& final(sessions).issued_names() == old(sessions).issued_names().push(name@)
            },
            None => final(sessions).issued_names() == old(sessions).issued_names(),
        },
{
    let mut attempt: usize = 0;
    while attempt < NAME_ATTEMPTS
        invariant
            sessions.wf(),
            sessions@ == old(sessions)@,
            forall|a: Seq<char>| #[trigger] sessions.session_of(a) == old(sessions).session_of(a),
            sessions.issued_names() == old(sessions).issued_names(),
        decreases NAME_ATTEMPTS - attempt,
    {
        let name = random_alphanumeric(SCRIPT_NAME_LEN);
        if sessions.claim_name(&name) {
            return Some(name);
        }
        attempt = attempt + 1;
    }
    None
}

/// Runs scripts on the hosts that an SSH client configuration describes.
pub struct KuoriClient {
    config: ssh2_config::SshConfig,
}

impl KuoriClient {
    /// The configuration that host aliases are resolved through.
    pub closed spec fn config_of(&self) -> ssh2_config::SshConfig {
        self.config
    }

    /// A client that resolves host aliases through `config`.
    pub fn new(config: ssh2_config::SshConfig) -> (r: Self)
        ensures
            r.config_of() == config,
    {
        KuoriClient { config }
    }

    /// The connection target for `alias`, from the parameters the
    /// configuration gives for it; fails on a missing host name, user or
    /// identity file.
    pub fn connection_target(&self, alias: &str) -> (r: Result<ConnectionTarget, KuoriError>)
        ensures
            missing_of(self.config_of(), alias@) is None <==> r is Ok,
            missing_of(self.config_of(), alias@) is Some ==> r == Err::<ConnectionTarget, KuoriError>(
                KuoriError::MissingParameter { field: missing_of(self.config_of(), alias@).unwrap() },
            ),
    {
        let params = query_params(&self.config, alias);
        params.resolve()
    }

    /// Completes a freshly connected session for `alias`: handshake, then
    /// public-key authentication with the target's identity file, and caches
    /// it. On failure the cache is left as it was.
    pub fn establish(
        &self,
        sessions: &mut SessionManager,
        alias: String,
        session: ssh2::Session,
        target: &ConnectionTarget,
    ) -> (r: Result<(), KuoriError>)
        requires
            old(sessions).wf(),
            !old(sessions)@.contains(alias@),
        ensures
            final(sessions).wf(),
            final(sessions).issued_names() == old(sessions).issued_names(),
            r is Ok ==> final(sessions)@ == old(sessions)@.push(alias@),
            r is Err ==> final(sessions)@ == old(sessions)@,
            forall|a: Seq<char>|
                old(sessions)@.contains(a) ==> #[trigger] final(sessions).session_of(a) == old(
                    sessions,
                ).session_of(a),
            exists|h: bool, u: bool, x: bool| r == establish_result(h, u, x),
    {
        let mut session = session;
        let handshake_ok = handshake(&mut session);
        let auth_ok = handshake_ok && userauth_pubkey_file(
            &session,
            target.user.as_str(),
            target.identity_file.as_str(),
        );
        let is_authenticated = auth_ok && authenticated(&session);
        let r = establish_outcome(handshake_ok, auth_ok, is_authenticated);
        if r.is_ok() {
            sessions.insert(alias, session);
        }
        r
    }

    /// Uploads `script` into `working_dir` under a fresh random name, runs it
    /// there as `cd <dir>; <exports> [sudo ]bash <path>` over the session
    /// cached for `host`, then removes it. The main result is the upload's
    /// failure or the script's own result; the removal's result is reported
    /// beside it and never replaces it.
    pub fn exec_script(
        &self,
        sessions: &mut SessionManager,
        host: &str,
        script: &Vec<u8>,
        working_dir: &str,
        environments: &Vec<(String, String)>,
        use_sudo: bool,
    ) -> (r: ScriptRun)
        requires
            old(sessions).wf(),
            old(sessions)@.contains(host@),
            env_keys(environments@).no_duplicates(),
        ensures
            final(sessions).wf(),
            final(sessions)@ == old(sessions)@,
            forall|a: Seq<char>| #[trigger] final(sessions).session_of(a) == old(sessions).session_of(
                a,
            ),
            final(sessions).issued_names() == old(sessions).issued_names() || exists|n: Seq<char>|
                n.len() == SCRIPT_NAME_LEN && !old(sessions).issued_names().contains(n)
                    && final(sessions).issued_names() == old(sessions).issued_names().push(n),
            r.main == Err::<(), KuoriError>(KuoriError::Upload) ==> r.cleanup is None,
            r.main != Err::<(), KuoriError>(KuoriError::Upload) ==> runner_result(r.main)
                && r.cleanup is Some && runner_result(r.cleanup.unwrap()),
            r.main is Ok ==> final(sessions).issued_names() != old(sessions).issued_names(),
    {
        let env_command = env_prefix(environments);
        let name = match fresh_script_name(sessions) {
            Some(n) => n,
            None => return ScriptRun { main: Err(KuoriError::Upload), cleanup: None },
        };
        let session = match sessions.get_session(host) {
            Some(s) => s,
            None => return ScriptRun { main: Err(KuoriError::Channel), cleanup: None },
        };
        let path = remote_script_path(working_dir, name.as_str());
        if send_script(session, script, path.as_str()).is_err() {
            return ScriptRun { main: Err(KuoriError::Upload), cleanup: None };
        }
        let command = remote_command(working_dir, env_command.as_str(), path.as_str(), use_sudo);
        let main = run_remote_command(session, command.as_str());
        let cleanup = run_remote_command(session, cleanup_command(path.as_str()).as_str());
        ScriptRun { main, cleanup: Some(cleanup) }
    }
}

} // verus!
