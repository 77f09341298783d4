//! The edit-session state machine: verify a credential, decrypt the
//! backing file, hand it to the external editor, and re-encrypt it.
//!
//! The machine is a pure step function from a state and an observed
//! event to the next state and the next action. The surrounding program
//! performs each action — read the terminal, read or write the backing
//! file, launch the editor — and feeds the outcome back as the next
//! event, until a terminal state is reached.

use vstd::prelude::*;
use crate::cipher::{decrypt, encrypt, spec_decrypt, spec_encrypt};
use crate::keymat::{derive_iv, derive_key, spec_derive_iv, spec_derive_key, KeyMaterialError,
    IV_LEN, KEY_LEN};

verus! {

/// The reference passphrase: the credential the operator must repeat,
/// and, padded, the cipher key.
pub const THIS_KEY: &'static str = "passwd";

/// The seed of the initialization vector, padded to the block length.
pub const THIS_IV: &'static str = "cnzwtzofghrjqkem";

/// Nothing is demanded of the host environment beyond an editor on its
/// usual path; there is nothing to examine ahead of time.
pub fn check_env() {
}

/// Why a session ended without re-encrypting.
#[derive(Debug, PartialEq, Eq, Structural, Clone, Copy)]
pub enum SessionFailure {
    /// The backing file could not be read or written.
    Filesystem,
    /// The ciphertext on disk could not be decrypted.
    Cipher,
    /// The external editor could not be run or exited abnormally.
    Editor,
    /// The driver handed the machine an event its state cannot accept.
    Protocol,
}

/// Where the session stands.
#[derive(Debug, PartialEq, Eq, Structural, Clone, Copy)]
pub enum SessionState {
    AwaitingCredential,
    Decrypting,
    Editing,
    Encrypting,
    Done,
    Rejected,
    Failed(SessionFailure),
}

/// What the driver observed after performing the previous action.
pub enum SessionEvent {
    /// The operator typed this credential.
    Credential(Vec<u8>),
    /// The backing file was read whole and holds these bytes.
    FileRead(Vec<u8>),
    /// The backing file was written whole.
    FileWritten,
    /// The backing file could not be read or written.
    FileError,
    /// The editor exited; `true` means it exited cleanly.
    EditorExited(bool),
}

/// What the driver must do next.
pub enum SessionAction {
    /// Read the backing file whole.
    ReadFile,
    /// Overwrite the backing file with this recovered plaintext.
    WritePlaintext(Vec<u8>),
    /// Launch the external editor on the backing file and wait.
    LaunchEditor,
    /// Overwrite the backing file with this ciphertext.
    WriteCiphertext(Vec<u8>),
    /// Tell the operator the credential was wrong and stop.
    ReportWrongPassword,
    /// Stop without touching the backing file again.
    Abort,
    /// Stop: the session completed.
    Finish,
}

/// The mathematical shape of an action: byte payloads as sequences.
pub enum ActionModel {
    ReadFile,
    WritePlaintext(Seq<u8>),
    LaunchEditor,
    WriteCiphertext(Seq<u8>),
    ReportWrongPassword,
    Abort,
    Finish,
}

impl View for SessionAction {
    type V = ActionModel;

    open spec fn view(&self) -> ActionModel {
        match self {
            SessionAction::ReadFile => ActionModel::ReadFile,
            SessionAction::WritePlaintext(p) => ActionModel::WritePlaintext(p@),
            SessionAction::LaunchEditor => ActionModel::LaunchEditor,
            SessionAction::WriteCiphertext(c) => ActionModel::WriteCiphertext(c@),
            SessionAction::ReportWrongPassword => ActionModel::ReportWrongPassword,
            SessionAction::Abort => ActionModel::Abort,
            SessionAction::Finish => ActionModel::Finish,
        }
    }
}

/// A state in which the session has ended and no action follows.
pub open spec fn spec_is_terminal(s: SessionState) -> bool {
    match s {
        SessionState::Done => true,
        SessionState::Rejected => true,
        SessionState::Failed(_) => true,
        _ => false,
    }
}

/// Whether performing this action reads, writes or lets the editor
/// mutate the backing file.
pub open spec fn spec_touches_file(a: ActionModel) -> bool {
    match a {
        ActionModel::ReadFile => true,
        ActionModel::WritePlaintext(_) => true,
        ActionModel::LaunchEditor => true,
        ActionModel::WriteCiphertext(_) => true,
        ActionModel::ReportWrongPassword => false,
        ActionModel::Abort => false,
        ActionModel::Finish => false,
    }
}

/// The session's fixed configuration: the reference passphrase and the
/// key and initialization vector derived from the configured constants.
pub struct SessionConfig {
    pub passphrase: Vec<u8>,
    pub key: Vec<u8>,
    pub iv: Vec<u8>,
}

impl SessionConfig {
    /// The key and iv are exactly the derivations of the constants the
    /// configuration was built from.
    pub open spec fn wf(self) -> bool {
        &&& self.passphrase@.len() <= KEY_LEN
        &&& self.key@ == spec_derive_key(self.passphrase@)
        &&& self.key@.len() == KEY_LEN
        &&& self.iv@.len() == IV_LEN
    }

    /// Builds a configuration from the two constants, deriving the key
    /// from the passphrase and the iv from its own seed. A constant too
    /// long to pad is rejected.
    pub fn new(passphrase: Vec<u8>, iv_seed: Vec<u8>) -> (r: Result<
        SessionConfig,
        KeyMaterialError,
    >)
        ensures
            passphrase@.len() <= KEY_LEN && iv_seed@.len() <= IV_LEN ==> (r matches Ok(cfg) && {
                &&& cfg.wf()
                &&& cfg.passphrase@ == passphrase@
                &&& cfg.key@ == spec_derive_key(passphrase@)
                &&& cfg.iv@ == spec_derive_iv(iv_seed@)
            }),
            passphrase@.len() > KEY_LEN || iv_seed@.len() > IV_LEN ==> r is Err,
    {
        let key = match derive_key(passphrase.as_slice()) {
            Ok(k) => k,
            Err(e) => {
                return Err(e);
            },
        };
        let iv = match derive_iv(iv_seed.as_slice()) {
            Ok(v) => v,
            Err(e) => {
                return Err(e);
            },
        };
        Ok(SessionConfig { passphrase, key, iv })
    }
}

/// The whole transition relation of the session, over the mathematical
/// models of the payloads.
pub open spec fn spec_session_step(
    cfg: SessionConfig,
    state: SessionState,
    event: SessionEvent,
) -> (SessionState, ActionModel) {
    match (state, event) {
        (SessionState::AwaitingCredential, SessionEvent::Credential(c)) => if c@
            == cfg.passphrase@ {
            (SessionState::Decrypting, ActionModel::ReadFile)
        } else {
            (SessionState::Rejected, ActionModel::ReportWrongPassword)
        },
        (SessionState::Decrypting, SessionEvent::FileRead(d)) => if d@.len() == 0 {
            (SessionState::Editing, ActionModel::LaunchEditor)
        } else {
            match spec_decrypt(cfg.key@, cfg.iv@, d@) {
                Ok(p) => (SessionState::Decrypting, ActionModel::WritePlaintext(p)),
                Err(_) => (SessionState::Failed(SessionFailure::Cipher), ActionModel::Abort),
            }
        },
        (SessionState::Decrypting, SessionEvent::FileWritten) => (
            SessionState::Editing,
            ActionModel::LaunchEditor,
        ),
        (SessionState::Editing, SessionEvent::EditorExited(clean)) => if clean {
            (SessionState::Encrypting, ActionModel::ReadFile)
        } else {
            (SessionState::Failed(SessionFailure::Editor), ActionModel::Abort)
        },
        (SessionState::Encrypting, SessionEvent::FileRead(d)) => if d@.len() == 0 {
            (SessionState::Done, ActionModel::Finish)
        } else {
            (
                SessionState::Encrypting,
                ActionModel::WriteCiphertext(spec_encrypt(cfg.key@, cfg.iv@, d@)),
            )
        },
        (SessionState::Encrypting, SessionEvent::FileWritten) => (
            SessionState::Done,
            ActionModel::Finish,
        ),
        (_, SessionEvent::FileError) => (
            SessionState::Failed(SessionFailure::Filesystem),
            ActionModel::Abort,
        ),
        _ => (SessionState::Failed(SessionFailure::Protocol), ActionModel::Abort),
    }
}

/// One step of the session: from the current state and the observed
/// event to the next state and the next action, exactly as
/// `spec_session_step` lays the transitions out.
pub fn session_step(cfg: &SessionConfig, state: SessionState, event: SessionEvent) -> (r: (
    SessionState,
    SessionAction,
))
    requires
        cfg.wf(),
    ensures
        (r.0, r.1@) == spec_session_step(*cfg, state, event),
{
    match (state, event) {
        (SessionState::AwaitingCredential, SessionEvent::Credential(c)) => {
            if bytes_eq(c.as_slice(), cfg.passphrase.as_slice()) {
                (SessionState::Decrypting, SessionAction::ReadFile)
            } else {
                (SessionState::Rejected, SessionAction::ReportWrongPassword)
            }
        },
        (SessionState::Decrypting, SessionEvent::FileRead(d)) => {
            if d.len() == 0 {
                (SessionState::Editing, SessionAction::LaunchEditor)
            } else {
                match decrypt(d.as_slice(), cfg.key.as_slice(), cfg.iv.as_slice()) {
                    Ok(p) => (SessionState::Decrypting, SessionAction::WritePlaintext(p)),
                    Err(_) => (
                        SessionState::Failed(SessionFailure::Cipher),
                        SessionAction::Abort,
                    ),
                }
            }
        },
        (SessionState::Decrypting, SessionEvent::FileWritten) => (
            SessionState::Editing,
            SessionAction::LaunchEditor,
        ),
        (SessionState::Editing, SessionEvent::EditorExited(clean)) => {
            if clean {
                (SessionState::Encrypting, SessionAction::ReadFile)
            } else {
                (SessionState::Failed(SessionFailure::Editor), SessionAction::Abort)
            }
        },
        (SessionState::Encrypting, SessionEvent::FileRead(d)) => {
            if d.len() == 0 {
                (SessionState::Done, SessionAction::Finish)
            } else {
                let ciphertext = encrypt(d.as_slice(), cfg.key.as_slice(), cfg.iv.as_slice());
                (SessionState::Encrypting, SessionAction::WriteCiphertext(ciphertext))
            }
        },
        (SessionState::Encrypting, SessionEvent::FileWritten) => (
            SessionState::Done,
            SessionAction::Finish,
        ),
        (_, SessionEvent::FileError) => (
            SessionState::Failed(SessionFailure::Filesystem),
            SessionAction::Abort,
        ),
        _ => (SessionState::Failed(SessionFailure::Protocol), SessionAction::Abort),
    }
}

/// Byte-for-byte comparison of two buffers.
pub fn bytes_eq(a: &[u8], b: &[u8]) -> (r: bool)
    ensures
        r <==> a@ == b@,
{
    if a.len() != b.len() {
        return false;
    }
    let mut i: usize = 0;
    while i < a.len()
        invariant
            i <= a@.len(),
            a@.len() == b@.len(),
            forall|j: int| 0 <= j < i ==> a@[j] == b@[j],
        decreases a@.len() - i,
    {
        if a[i] != b[i] {
            return false;
        }
        i = i + 1;
    }
    proof {
        assert(a@ =~= b@);
    }
    true
}

/// A wrong credential ends the session at once: the machine moves to
/// the terminal `Rejected` state and the only action left is to report
/// the mismatch — nothing reads, writes or edits the backing file, so
/// the file is left byte-for-byte as it was.
pub proof fn lemma_credential_gate(cfg: SessionConfig, c: Vec<u8>)
    requires
        c@ != cfg.passphrase@,
    ensures
        spec_session_step(cfg, SessionState::AwaitingCredential, SessionEvent::Credential(c))
            == (SessionState::Rejected, ActionModel::ReportWrongPassword),
        spec_is_terminal(
            spec_session_step(
                cfg,
                SessionState::AwaitingCredential,
                SessionEvent::Credential(c),
            ).0,
        ),
        !spec_touches_file(
            spec_session_step(
                cfg,
                SessionState::AwaitingCredential,
                SessionEvent::Credential(c),
            ).1,
        ),
{
}

/// An empty backing file skips the cipher in both directions: an empty
/// read before editing goes straight to the editor, and an empty read
/// after editing finishes the session — neither transition carries any
/// transformed bytes, so the cipher is never invoked.
pub proof fn lemma_empty_file_skip(cfg: SessionConfig, d: Vec<u8>)
    requires
        d@.len() == 0,
    ensures
        spec_session_step(cfg, SessionState::Decrypting, SessionEvent::FileRead(d)) == (
            SessionState::Editing,
            ActionModel::LaunchEditor,
        ),
        spec_session_step(cfg, SessionState::Encrypting, SessionEvent::FileRead(d)) == (
            SessionState::Done,
            ActionModel::Finish,
        ),
{
}

} // verus!
