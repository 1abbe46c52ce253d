use vstd::prelude::*;

use crate::error::{AuthMethod, RemoteError};
use crate::credential::{key_file_path_of, lemma_key_file_paths_distinct};
use crate::profile::Connection;

verus! {

/// Where a connection attempt stands.
#[derive(Clone, Copy, Debug, PartialEq, Eq, Structural)]
pub enum ConnectPhase {
    /// Nothing has been done yet.
    Start,
    /// Waiting for the TCP socket.
    OpeningTcp,
    /// Waiting for the transport handshake.
    Handshaking,
    /// Waiting for the key material to be written to the temporary file.
    WritingKey,
    /// Waiting for public-key authentication.
    AuthenticatingKey,
    /// Waiting for the temporary key file to be removed; `failure` is the
    /// error to report once it is gone, `None` if the session is ready then.
    RemovingKey { failure: Option<RemoteError> },
    /// Waiting for password authentication.
    AuthenticatingPassword,
    /// The session is authenticated.
    Ready,
    /// The attempt failed with the given error.
    Failed(RemoteError),
}

/// An effect that the driver of a connection attempt performs next. After
/// each one the driver reports whether it succeeded.
pub enum ConnectAction {
    /// Open a TCP connection to `host` on `port`.
    OpenTcp { host: String, port: u16 },
    /// Create the protocol session on the socket and perform the handshake.
    Handshake,
    /// Create (or truncate) the file at `path` and write `contents` to it.
    WriteKeyFile { path: String, contents: String },
    /// Authenticate as `username` with the key file at `key_path`, unlocking
    /// it with `passphrase` when one is given.
    AuthPublicKey { username: String, key_path: String, passphrase: Option<String> },
    /// Authenticate as `username` with `password`.
    AuthPassword { username: String, password: String },
    /// Delete the file at `path`.
    RemoveKeyFile { path: String },
    /// The session is authenticated and ready for a channel.
    Ready,
    /// The attempt is over; report the error.
    Fail(RemoteError),
}

/// The mathematical value of a [`ConnectAction`].
pub enum ConnectActionView {
    OpenTcp { host: Seq<char>, port: u16 },
    Handshake,
    WriteKeyFile { path: Seq<char>, contents: Seq<char> },
    AuthPublicKey { username: Seq<char>, key_path: Seq<char>, passphrase: Option<Seq<char>> },
    AuthPassword { username: Seq<char>, password: Seq<char> },
    RemoveKeyFile { path: Seq<char> },
    Ready,
    Fail(RemoteError),
}

impl View for ConnectAction {
    type V = ConnectActionView;

    open spec fn view(&self) -> ConnectActionView {
        match self {
            ConnectAction::OpenTcp { host, port } => ConnectActionView::OpenTcp { host: host@, port: *port },
            ConnectAction::Handshake => ConnectActionView::Handshake,
            ConnectAction::WriteKeyFile { path, contents } => ConnectActionView::WriteKeyFile {
                path: path@,
                contents: contents@,
            },
            ConnectAction::AuthPublicKey { username, key_path, passphrase } => ConnectActionView::AuthPublicKey {
                username: username@,
                key_path: key_path@,
                passphrase: match passphrase {
                    Some(p) => Some(p@),
                    None => None,
                },
            },
            ConnectAction::AuthPassword { username, password } => ConnectActionView::AuthPassword {
                username: username@,
                password: password@,
            },
            ConnectAction::RemoveKeyFile { path } => ConnectActionView::RemoveKeyFile { path: path@ },
            ConnectAction::Ready => ConnectActionView::Ready,
            ConnectAction::Fail(e) => ConnectActionView::Fail(*e),
        }
    }
}

/// What a connection attempt is made with: the profile's session fields and
/// the path of the temporary key file reserved for this attempt.
pub struct ConnectConfig {
    pub host: Seq<char>,
    pub port: int,
    pub username: Seq<char>,
    pub password: Seq<char>,
    pub private_key: Seq<char>,
    pub key_path: Seq<char>,
}

/// The state of a connection attempt: its phase, whether the temporary key
/// file may exist on disk, and the authentication methods tried so far.
pub struct ConnectState {
    pub phase: ConnectPhase,
    pub key_file_present: bool,
    pub auth_attempts: Seq<AuthMethod>,
}

pub open spec fn config_of(profile: Connection, key_path: Seq<char>) -> ConnectConfig {
    ConnectConfig {
        host: profile.host@,
        port: profile.port as int,
        username: profile.username@,
        password: profile.password@,
        private_key: profile.private_key@,
        key_path,
    }
}

/// The method a profile authenticates with: its key when it holds one, its
/// password otherwise.
pub open spec fn auth_method_of(c: ConnectConfig) -> AuthMethod {
    if c.private_key.len() > 0 {
        AuthMethod::PublicKey
    } else {
        AuthMethod::Password
    }
}

/// The passphrase handed to public-key authentication: the password, if any.
pub open spec fn passphrase_of(c: ConnectConfig) -> Option<Seq<char>> {
    if c.password.len() > 0 {
        Some(c.password)
    } else {
        None
    }
}

pub open spec fn initial_state() -> ConnectState {
    ConnectState { phase: ConnectPhase::Start, key_file_present: false, auth_attempts: seq![] }
}

pub open spec fn failed(s: ConnectState, e: RemoteError) -> (ConnectState, ConnectActionView) {
    (ConnectState { phase: ConnectPhase::Failed(e), ..s }, ConnectActionView::Fail(e))
}

/// One step of a connection attempt: given the state and whether the last
/// action succeeded (ignored at the start), the next state and action.
pub open spec fn step(c: ConnectConfig, s: ConnectState, ok: bool) -> (ConnectState, ConnectActionView) {
    match s.phase {
        ConnectPhase::Start => if 0 <= c.port <= 65535 {
            (
                ConnectState { phase: ConnectPhase::OpeningTcp, ..s },
                ConnectActionView::OpenTcp { host: c.host, port: c.port as u16 },
            )
        } else {
            failed(s, RemoteError::Network)
        },
        ConnectPhase::OpeningTcp => if ok {
            (ConnectState { phase: ConnectPhase::Handshaking, ..s }, ConnectActionView::Handshake)
        } else {
            failed(s, RemoteError::Network)
        },
        ConnectPhase::Handshaking => if !ok {
            failed(s, RemoteError::Handshake)
        } else if c.private_key.len() > 0 {
            (
                ConnectState { phase: ConnectPhase::WritingKey, key_file_present: true, ..s },
                ConnectActionView::WriteKeyFile { path: c.key_path, contents: c.private_key },
            )
        } else {
            (
                ConnectState {
                    phase: ConnectPhase::AuthenticatingPassword,
                    auth_attempts: s.auth_attempts.push(AuthMethod::Password),
                    ..s
                },
                ConnectActionView::AuthPassword { username: c.username, password: c.password },
            )
        },
        ConnectPhase::WritingKey => if ok {
            (
                ConnectState {
                    phase: ConnectPhase::AuthenticatingKey,
                    auth_attempts: s.auth_attempts.push(AuthMethod::PublicKey),
                    ..s
                },
                ConnectActionView::AuthPublicKey {
                    username: c.username,
                    key_path: c.key_path,
                    passphrase: passphrase_of(c),
                },
            )
        } else {
            (
                ConnectState {
                    phase: ConnectPhase::RemovingKey { failure: Some(RemoteError::Credential) },
                    ..s
                },
                ConnectActionView::RemoveKeyFile { path: c.key_path },
            )
        },
        ConnectPhase::AuthenticatingKey => (
            ConnectState {
                phase: ConnectPhase::RemovingKey {
                    failure: if ok {
                        None
                    } else {
                        Some(RemoteError::Auth(AuthMethod::PublicKey))
                    },
                },
                ..s
            },
            ConnectActionView::RemoveKeyFile { path: c.key_path },
        ),
        ConnectPhase::RemovingKey { failure } => if !ok {
            failed(s, RemoteError::Credential)
        } else {
            let gone = ConnectState { key_file_present: false, ..s };
            match failure {
                None => (ConnectState { phase: ConnectPhase::Ready, ..gone }, ConnectActionView::Ready),
                Some(e) => failed(gone, e),
            }
        },
        ConnectPhase::AuthenticatingPassword => if ok {
            (ConnectState { phase: ConnectPhase::Ready, ..s }, ConnectActionView::Ready)
        } else {
            failed(s, RemoteError::Auth(AuthMethod::Password))
        },
        ConnectPhase::Ready => (s, ConnectActionView::Ready),
        ConnectPhase::Failed(e) => (s, ConnectActionView::Fail(e)),
    }
}

/// The state after the outcomes `events` have been fed in, one per step.
pub open spec fn run(c: ConnectConfig, events: Seq<bool>) -> ConnectState
    decreases events.len(),
{
    if events.len() == 0 {
        initial_state()
    } else {
        step(c, run(c, events.drop_last()), events.last()).0
    }
}

} // verus!

verus! {

/// A connection attempt in progress. The driver calls [`Connector::advance`]
/// with the outcome of the previous action and performs the action it gets
/// back, until that action is `Ready` or `Fail`.
pub struct Connector {
    host: String,
    port: i32,
    username: String,
    password: String,
    private_key: String,
    key_path: String,
    phase: ConnectPhase,
    key_file_present: Ghost<bool>,
    auth_attempts: Ghost<Seq<AuthMethod>>,
}

impl View for Connector {
    type V = (ConnectConfig, ConnectState);

    closed spec fn view(&self) -> (ConnectConfig, ConnectState) {
        (
            ConnectConfig {
                host: self.host@,
                port: self.port as int,
                username: self.username@,
                password: self.password@,
                private_key: self.private_key@,
                key_path: self.key_path@,
            },
            ConnectState {
                phase: self.phase,
                key_file_present: self.key_file_present@,
                auth_attempts: self.auth_attempts@,
            },
        )
    }
}

impl Connector {
    /// Starts a connection attempt for `profile` whose temporary key file,
    /// if one is needed, is `key_path`.
    pub fn new(profile: &Connection, key_path: String) -> (r: Connector)
        ensures
            r@ == (config_of(*profile, key_path@), initial_state()),
            connect_invariant(r@.0, r@.1),
    {
        Connector {
            host: profile.host.clone(),
            port: profile.port,
            username: profile.username.clone(),
            password: profile.password.clone(),
            private_key: profile.private_key.clone(),
            key_path,
            phase: ConnectPhase::Start,
            key_file_present: Ghost(false),
            auth_attempts: Ghost(Seq::empty()),
        }
    }

    /// The current phase.
    pub fn phase(&self) -> (r: ConnectPhase)
        ensures
            r == self@.1.phase,
    {
        self.phase
    }

    fn fail(&mut self, e: RemoteError) -> (r: ConnectAction)
        ensures
            final(self)@ == (old(self)@.0, failed(old(self)@.1, e).0),
            r@ == failed(old(self)@.1, e).1,
    {
        self.phase = ConnectPhase::Failed(e);
        ConnectAction::Fail(e)
    }

    /// Takes the outcome of the previous action (ignored on the first call)
    /// and returns the next action.
    pub fn advance(&mut self, ok: bool) -> (r: ConnectAction)
        ensures
            final(self)@.0 == old(self)@.0,
            (final(self)@.1, r@) == step(old(self)@.0, old(self)@.1, ok),
            connect_invariant(old(self)@.0, old(self)@.1) ==> connect_invariant(
                final(self)@.0,
                final(self)@.1,
            ),
    {
        proof {
            if connect_invariant(self@.0, self@.1) {
                lemma_step_keeps_invariant(self@.0, self@.1, ok);
            }
        }
        match self.phase {
            ConnectPhase::Start => {
                if 0 <= self.port && self.port <= 65535 {
                    self.phase = ConnectPhase::OpeningTcp;
                    ConnectAction::OpenTcp { host: self.host.clone(), port: self.port as u16 }
                } else {
                    self.fail(RemoteError::Network)
                }
            },
            ConnectPhase::OpeningTcp => {
                if ok {
                    self.phase = ConnectPhase::Handshaking;
                    ConnectAction::Handshake
                } else {
                    self.fail(RemoteError::Network)
                }
            },
            ConnectPhase::Handshaking => {
                if !ok {
                    self.fail(RemoteError::Handshake)
                } else if !self.private_key.as_str().is_empty() {
                    self.phase = ConnectPhase::WritingKey;
                    self.key_file_present = Ghost(true);
                    ConnectAction::WriteKeyFile {
                        path: self.key_path.clone(),
                        contents: self.private_key.clone(),
                    }
                } else {
                    self.phase = ConnectPhase::AuthenticatingPassword;
                    self.auth_attempts = Ghost(self.auth_attempts@.push(AuthMethod::Password));
                    ConnectAction::AuthPassword {
                        username: self.username.clone(),
                        password: self.password.clone(),
                    }
                }
            },
            ConnectPhase::WritingKey => {
                if ok {
                    self.phase = ConnectPhase::AuthenticatingKey;
                    self.auth_attempts = Ghost(self.auth_attempts@.push(AuthMethod::PublicKey));
                    let passphrase = if !self.password.as_str().is_empty() {
                        Some(self.password.clone())
                    } else {
                        None
                    };
                    ConnectAction::AuthPublicKey {
                        username: self.username.clone(),
                        key_path: self.key_path.clone(),
                        passphrase,
                    }
                } else {
                    self.phase = ConnectPhase::RemovingKey { failure: Some(RemoteError::Credential) };
                    ConnectAction::RemoveKeyFile { path: self.key_path.clone() }
                }
            },
            ConnectPhase::AuthenticatingKey => {
                let failure = if ok {
                    None
                } else {
                    Some(RemoteError::Auth(AuthMethod::PublicKey))
                };
                self.phase = ConnectPhase::RemovingKey { failure };
                ConnectAction::RemoveKeyFile { path: self.key_path.clone() }
            },
            ConnectPhase::RemovingKey { failure } => {
                if !ok {
                    self.fail(RemoteError::Credential)
                } else {
                    self.key_file_present = Ghost(false);
                    match failure {
                        None => {
                            self.phase = ConnectPhase::Ready;
                            ConnectAction::Ready
                        },
                        Some(e) => self.fail(e),
                    }
                }
            },
            ConnectPhase::AuthenticatingPassword => {
                if ok {
                    self.phase = ConnectPhase::Ready;
                    ConnectAction::Ready
                } else {
                    self.fail(RemoteError::Auth(AuthMethod::Password))
                }
            },
            ConnectPhase::Ready => ConnectAction::Ready,
            ConnectPhase::Failed(e) => ConnectAction::Fail(e),
        }
    }
}

} // verus!

verus! {

/// What holds of every state that a connection attempt reaches.
pub open spec fn connect_invariant(c: ConnectConfig, s: ConnectState) -> bool {
    &&& s.auth_attempts.len() <= 1
    &&& forall|i: int| 0 <= i < s.auth_attempts.len() ==> s.auth_attempts[i] == auth_method_of(c)
    &&& match s.phase {
        ConnectPhase::Start | ConnectPhase::OpeningTcp | ConnectPhase::Handshaking => {
            s.auth_attempts.len() == 0 && !s.key_file_present
        },
        ConnectPhase::WritingKey => s.auth_attempts.len() == 0 && c.private_key.len() > 0,
        ConnectPhase::AuthenticatingKey => s.auth_attempts.len() == 1 && c.private_key.len() > 0,
        ConnectPhase::RemovingKey { failure } => {
            &&& c.private_key.len() > 0
            &&& failure is None ==> s.auth_attempts.len() == 1
        },
        ConnectPhase::AuthenticatingPassword => s.auth_attempts.len() == 1 && !s.key_file_present,
        ConnectPhase::Ready => s.auth_attempts.len() == 1 && !s.key_file_present,
        ConnectPhase::Failed(e) => !s.key_file_present || e == RemoteError::Credential,
    }
}

proof fn lemma_step_keeps_invariant(c: ConnectConfig, s: ConnectState, ok: bool)
    requires
        connect_invariant(c, s),
    ensures
        connect_invariant(c, step(c, s, ok).0),
{
    let t = step(c, s, ok).0;
    if t.auth_attempts.len() == 1 && s.auth_attempts.len() == 0 {
        assert(t.auth_attempts[0] == auth_method_of(c));
    }
}

/// Every state reached from the start satisfies the invariant.
pub proof fn lemma_run_invariant(c: ConnectConfig, events: Seq<bool>)
    ensures
        connect_invariant(c, run(c, events)),
    decreases events.len(),
{
    if events.len() > 0 {
        lemma_run_invariant(c, events.drop_last());
        lemma_step_keeps_invariant(c, run(c, events.drop_last()), events.last());
    }
}

/// Whatever the actions' outcomes, an attempt that ends with an
/// authenticated session leaves no temporary key file behind, and one that
/// fails leaves none unless removing it was what failed.
pub proof fn lemma_no_key_file_left(c: ConnectConfig, events: Seq<bool>)
    ensures
        run(c, events).phase is Ready ==> !run(c, events).key_file_present,
        run(c, events).phase is Failed && run(c, events).phase != ConnectPhase::Failed(
            RemoteError::Credential,
        ) ==> !run(c, events).key_file_present,
{
    lemma_run_invariant(c, events);
}

/// Whatever the actions' outcomes, an attempt tries at most one
/// authentication method: the key when the profile holds one, the password
/// otherwise. A ready session was authenticated exactly once, that way.
pub proof fn lemma_single_auth_method(c: ConnectConfig, events: Seq<bool>)
    ensures
        run(c, events).auth_attempts.len() <= 1,
        forall|i: int|
            0 <= i < run(c, events).auth_attempts.len() ==> run(c, events).auth_attempts[i]
                == auth_method_of(c),
        run(c, events).phase is Ready ==> run(c, events).auth_attempts == seq![auth_method_of(c)],
{
    lemma_run_invariant(c, events);
    let s = run(c, events);
    if s.phase is Ready {
        assert(s.auth_attempts =~= seq![auth_method_of(c)]);
    }
}

/// The file an action reads, writes or deletes, if any.
pub open spec fn file_touched(a: ConnectActionView) -> Option<Seq<char>> {
    match a {
        ConnectActionView::WriteKeyFile { path, .. } => Some(path),
        ConnectActionView::AuthPublicKey { key_path, .. } => Some(key_path),
        ConnectActionView::RemoveKeyFile { path } => Some(path),
        _ => None,
    }
}

/// An attempt touches no file but its own key file, and writes nothing to it
/// but the profile's key material.
pub proof fn lemma_only_own_key_file(c: ConnectConfig, s: ConnectState, ok: bool)
    ensures
        file_touched(step(c, s, ok).1) is Some ==> file_touched(step(c, s, ok).1) == Some(
            c.key_path,
        ),
        step(c, s, ok).1 matches ConnectActionView::WriteKeyFile { contents, .. } ==> contents
            == c.private_key,
{
}

/// Two attempts whose key files were named in one directory with different
/// process or sequence numbers never touch the same file, in any of their
/// states: concurrent key-based connections cannot overwrite or delete each
/// other's key material.
pub proof fn lemma_concurrent_attempts_disjoint(
    dir: Seq<char>,
    p1: nat,
    q1: nat,
    c1: ConnectConfig,
    s1: ConnectState,
    ok1: bool,
    p2: nat,
    q2: nat,
    c2: ConnectConfig,
    s2: ConnectState,
    ok2: bool,
)
    requires
        p1 != p2 || q1 != q2,
        c1.key_path == key_file_path_of(dir, p1, q1),
        c2.key_path == key_file_path_of(dir, p2, q2),
    ensures
        file_touched(step(c1, s1, ok1).1) is Some && file_touched(step(c2, s2, ok2).1) is Some
            ==> file_touched(step(c1, s1, ok1).1) != file_touched(step(c2, s2, ok2).1),
{
    lemma_only_own_key_file(c1, s1, ok1);
    lemma_only_own_key_file(c2, s2, ok2);
    lemma_key_file_paths_distinct(dir, p1, q1, p2, q2);
}

} // verus!
