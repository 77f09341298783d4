use mypasswd::cipher::encrypt;
use mypasswd::session::{
    session_step, SessionAction, SessionConfig, SessionEvent, SessionFailure, SessionState,
    THIS_IV, THIS_KEY,
};

fn config() -> SessionConfig {
    SessionConfig::new(THIS_KEY.as_bytes().to_vec(), THIS_IV.as_bytes().to_vec()).unwrap()
}

#[test]
fn wrong_credential_is_rejected_without_touching_the_file() {
    let cfg = config();
    let (state, action) = session_step(
        &cfg,
        SessionState::AwaitingCredential,
        SessionEvent::Credential(b"letmein".to_vec()),
    );
    assert_eq!(state, SessionState::Rejected);
    assert!(matches!(action, SessionAction::ReportWrongPassword));
}

#[test]
fn right_credential_reads_the_file() {
    let cfg = config();
    let (state, action) = session_step(
        &cfg,
        SessionState::AwaitingCredential,
        SessionEvent::Credential(b"passwd".to_vec()),
    );
    assert_eq!(state, SessionState::Decrypting);
    assert!(matches!(action, SessionAction::ReadFile));
}

#[test]
fn empty_file_skips_straight_to_editing() {
    let cfg = config();
    let (state, action) = session_step(
        &cfg,
        SessionState::Decrypting,
        SessionEvent::FileRead(Vec::new()),
    );
    assert_eq!(state, SessionState::Editing);
    assert!(matches!(action, SessionAction::LaunchEditor));
}

#[test]
fn empty_file_after_editing_finishes_without_encrypting() {
    let cfg = config();
    let (state, action) = session_step(
        &cfg,
        SessionState::Encrypting,
        SessionEvent::FileRead(Vec::new()),
    );
    assert_eq!(state, SessionState::Done);
    assert!(matches!(action, SessionAction::Finish));
}

#[test]
fn whole_session_round_trips_the_file() {
    let cfg = config();
    let on_disk = encrypt(b"secret note", &cfg.key, &cfg.iv);

    let (state, action) = session_step(
        &cfg,
        SessionState::AwaitingCredential,
        SessionEvent::Credential(b"passwd".to_vec()),
    );
    assert_eq!(state, SessionState::Decrypting);
    assert!(matches!(action, SessionAction::ReadFile));

    let (state, action) = session_step(&cfg, state, SessionEvent::FileRead(on_disk));
    assert_eq!(state, SessionState::Decrypting);
    let plaintext = match action {
        SessionAction::WritePlaintext(p) => p,
        _ => panic!("expected the recovered plaintext to be written back"),
    };
    assert_eq!(plaintext, b"secret note".to_vec());

    let (state, action) = session_step(&cfg, state, SessionEvent::FileWritten);
    assert_eq!(state, SessionState::Editing);
    assert!(matches!(action, SessionAction::LaunchEditor));

    let (state, action) = session_step(&cfg, state, SessionEvent::EditorExited(true));
    assert_eq!(state, SessionState::Encrypting);
    assert!(matches!(action, SessionAction::ReadFile));

    let edited = b"secret note, edited".to_vec();
    let (state, action) = session_step(&cfg, state, SessionEvent::FileRead(edited.clone()));
    assert_eq!(state, SessionState::Encrypting);
    let written = match action {
        SessionAction::WriteCiphertext(c) => c,
        _ => panic!("expected the ciphertext to be written back"),
    };
    assert_eq!(written, encrypt(&edited, &cfg.key, &cfg.iv));

    let (state, action) = session_step(&cfg, state, SessionEvent::FileWritten);
    assert_eq!(state, SessionState::Done);
    assert!(matches!(action, SessionAction::Finish));
}

#[test]
fn undecryptable_file_fails_the_session() {
    let cfg = config();
    let (state, action) = session_step(
        &cfg,
        SessionState::Decrypting,
        SessionEvent::FileRead(vec![1u8; 5]),
    );
    assert_eq!(state, SessionState::Failed(SessionFailure::Cipher));
    assert!(matches!(action, SessionAction::Abort));
}

#[test]
fn dirty_editor_exit_fails_the_session() {
    let cfg = config();
    let (state, action) = session_step(&cfg, SessionState::Editing, SessionEvent::EditorExited(false));
    assert_eq!(state, SessionState::Failed(SessionFailure::Editor));
    assert!(matches!(action, SessionAction::Abort));
}

#[test]
fn file_error_fails_the_session() {
    let cfg = config();
    let (state, action) = session_step(&cfg, SessionState::Decrypting, SessionEvent::FileError);
    assert_eq!(state, SessionState::Failed(SessionFailure::Filesystem));
    assert!(matches!(action, SessionAction::Abort));
}

#[test]
fn mismatched_event_fails_the_session() {
    let cfg = config();
    let (state, action) = session_step(
        &cfg,
        SessionState::Editing,
        SessionEvent::Credential(b"passwd".to_vec()),
    );
    assert_eq!(state, SessionState::Failed(SessionFailure::Protocol));
    assert!(matches!(action, SessionAction::Abort));
}
