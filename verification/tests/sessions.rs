use biometric::digest::{protected_key_digest, same_digest};
use biometric::error::UnlockError;
use biometric::keys::{KeyBuffer, Keys, VAULT_KEY_LEN};
use biometric::protocol::{
    REQUEST_UNLOCK, RESPONSE_CANCELED, RESPONSE_HARDENED, RESPONSE_PASSWORD_REQUESTED,
    RESPONSE_READY, RESPONSE_SUCCESS, RESPONSE_UNAVAILABLE,
};
use biometric::session::{HelperReply, OpenAction, Opening, Session, UnlockAction, Unlocking};
use biometric::wait::HELPER_INIT_TIMEOUT_NANOS;

type Reply = HelperReply<KeyBuffer, String>;

fn keys(byte: u8) -> Keys {
    let mut buffer = KeyBuffer::new();
    buffer.zero();
    buffer.copy_front(&[byte; VAULT_KEY_LEN]);
    buffer.truncate(VAULT_KEY_LEN);
    Keys::new(buffer)
}

fn text(error: UnlockError) -> String {
    match error {
        UnlockError::Unavailable(text) => text,
        other => panic!("{:?}", other),
    }
}

fn open(vault_key: &Keys, protected_key: &str, replies: Vec<Reply>) -> Result<Session, String> {
    let mut opening = Session::new(vault_key, protected_key);
    for reply in replies {
        opening = opening.step(reply);
    }
    opening.finish().unwrap().map_err(text)
}

fn failure(replies: Vec<Reply>) -> String {
    match open(&keys(1), "protected key", replies) {
        Ok(_) => panic!("the session opened"),
        Err(text) => text,
    }
}

fn opened(protected_key: &str) -> Session {
    open(
        &keys(1),
        protected_key,
        vec![
            Reply::Byte(RESPONSE_HARDENED),
            Reply::Done,
            Reply::Done,
            Reply::Byte(RESPONSE_READY),
        ],
    )
    .unwrap()
}

#[test]
fn protected_key_digest_is_stable_and_distinguishes_keys() {
    assert_eq!(
        protected_key_digest("protected key"),
        protected_key_digest("protected key")
    );
    assert_ne!(
        protected_key_digest("protected key"),
        protected_key_digest("rotated key")
    );
}

#[test]
fn digests_are_sha256() {
    // The digest of "abc" in FIPS 180-2, appendix B.1.
    assert_eq!(
        protected_key_digest("abc"),
        [
            0xba, 0x78, 0x16, 0xbf, 0x8f, 0x01, 0xcf, 0xea, 0x41, 0x41, 0x40, 0xde, 0x5d, 0xae,
            0x22, 0x23, 0xb0, 0x03, 0x61, 0xa3, 0x96, 0x17, 0x7a, 0x9c, 0xb4, 0x10, 0xff, 0x61,
            0xf2, 0x00, 0x15, 0xad
        ]
    );
}

#[test]
fn digests_are_compared_byte_for_byte() {
    let digest = protected_key_digest("protected key");
    assert!(same_digest(&digest, &digest));
    for i in 0..32 {
        let mut other = digest;
        other[i] ^= 1;
        assert!(!same_digest(&digest, &other));
    }
}

#[test]
fn a_session_matches_its_own_key() {
    let session = opened("protected key");
    assert!(session.matches("protected key"));
    assert!(!session.matches("rotated key"));
    assert!(!session.matches(""));
    assert!(session.has_digest(&protected_key_digest("protected key")));
    assert!(!session.has_digest(&[0_u8; 32]));
}

#[test]
fn the_vault_key_waits_for_the_hardened_helper() {
    let vault_key = keys(7);
    let opening: Opening = Session::new(&vault_key, "protected key");
    assert!(matches!(
        opening.action(),
        OpenAction::ReadInitResponse(HELPER_INIT_TIMEOUT_NANOS)
    ));
    let opening = opening.step(Reply::Done);
    assert!(matches!(opening.action(), OpenAction::ReadInitResponse(_)));
    let opening = opening.step(Reply::Byte(RESPONSE_HARDENED));
    match opening.action() {
        OpenAction::Write(bytes) => assert_eq!(bytes, vault_key.as_bytes()),
        _ => panic!("the key is not written"),
    }
    let opening = opening.step(Reply::Done);
    assert!(matches!(opening.action(), OpenAction::Flush));
    let opening = opening.step(Reply::Done);
    assert!(matches!(opening.action(), OpenAction::ReadInitResponse(_)));
    let opening = opening.step(Reply::Byte(RESPONSE_READY));
    assert!(matches!(opening.action(), OpenAction::Finish));
    assert!(opening.finish().unwrap().is_ok());
}

#[test]
fn an_opening_without_an_end_has_no_outcome() {
    let vault_key = keys(7);
    assert!(Session::new(&vault_key, "protected key").finish().is_none());
}

#[test]
fn sessions_fail_to_open_for_a_reason() {
    assert_eq!(
        failure(vec![Reply::Byte(RESPONSE_READY)]),
        "biometric helper did not enter its hardened state"
    );
    assert_eq!(
        failure(vec![
            Reply::Byte(RESPONSE_HARDENED),
            Reply::Done,
            Reply::Done,
            Reply::Byte(RESPONSE_UNAVAILABLE),
        ]),
        "biometric helper failed to initialize"
    );
    let broken = || Reply::Failed("broken pipe".to_string());
    let hardened = || Reply::Byte(RESPONSE_HARDENED);
    assert_eq!(failure(vec![broken()]), "broken pipe");
    assert_eq!(failure(vec![hardened(), broken()]), "broken pipe");
    assert_eq!(failure(vec![hardened(), Reply::Done, broken()]), "broken pipe");
    assert_eq!(failure(vec![hardened(), Reply::Done, Reply::Done, broken()]), "broken pipe");
}

fn unlock(replies: Vec<Reply>) -> Result<Keys, UnlockError> {
    let mut unlocking: Unlocking = opened("protected key").unlock();
    for reply in replies {
        unlocking = unlocking.step(reply);
    }
    unlocking.finish().unwrap()
}

fn response(byte: u8) -> UnlockError {
    match unlock(vec![Reply::Done, Reply::Done, Reply::Done, Reply::Byte(byte)]) {
        Ok(_) => panic!("the key was unlocked"),
        Err(error) => error,
    }
}

fn read_key(byte: u8) -> KeyBuffer {
    let mut buffer = KeyBuffer::new();
    buffer.zero();
    buffer.copy_front(&[byte; VAULT_KEY_LEN]);
    buffer
}

#[test]
fn an_unlock_asks_and_reads_the_key() {
    let unlocking = opened("protected key").unlock();
    assert_eq!(unlocking.action(), UnlockAction::Lock);
    let unlocking = unlocking.step(Reply::Done);
    assert_eq!(unlocking.action(), UnlockAction::Write(REQUEST_UNLOCK));
    let unlocking = unlocking.step(Reply::Done);
    assert_eq!(unlocking.action(), UnlockAction::Flush);
    let unlocking = unlocking.step(Reply::Done);
    assert_eq!(unlocking.action(), UnlockAction::ReadByte);
    let unlocking = unlocking.step(Reply::Byte(RESPONSE_SUCCESS));
    assert_eq!(unlocking.action(), UnlockAction::ReadKey(64));
    let unlocking = unlocking.step(Reply::Key(read_key(5)));
    assert_eq!(unlocking.action(), UnlockAction::Finish);
    let unlocking = unlocking.step(Reply::Failed("late".to_string()));
    let unlocked = unlocking.finish().unwrap().unwrap();
    assert_eq!(unlocked.as_bytes(), &[5_u8; VAULT_KEY_LEN]);
}

#[test]
fn an_unlocked_key_is_whole() {
    let announced = || {
        opened("protected key")
            .unlock()
            .step(Reply::Done)
            .step(Reply::Done)
            .step(Reply::Done)
            .step(Reply::Byte(RESPONSE_SUCCESS))
    };
    for len in [0, VAULT_KEY_LEN - 1] {
        let mut short = read_key(5);
        short.truncate(len);
        let unlocking = announced().step(Reply::Key(short));
        assert_eq!(unlocking.action(), UnlockAction::ReadKey(64));
        assert!(unlocking.finish().is_none());
    }
    let mut exact = read_key(5);
    exact.truncate(VAULT_KEY_LEN);
    let unlocked = announced().step(Reply::Key(exact)).finish().unwrap().unwrap();
    assert_eq!(unlocked.as_bytes(), &[5_u8; VAULT_KEY_LEN]);
}

#[test]
fn unlocks_report_the_response() {
    assert!(matches!(response(RESPONSE_CANCELED), UnlockError::Canceled));
    assert!(matches!(response(RESPONSE_PASSWORD_REQUESTED), UnlockError::PasswordRequested));
    assert_eq!(
        text(response(RESPONSE_UNAVAILABLE)),
        "biometric helper could not unlock the vault key"
    );
    assert_eq!(
        text(response(RESPONSE_HARDENED)),
        "biometric helper returned unknown response 4"
    );
    assert_eq!(text(response(255)), "biometric helper returned unknown response 255");
}

#[test]
fn unlocks_report_failed_exchanges() {
    let broken = || Reply::Failed("broken pipe".to_string());
    let failed = |replies: Vec<Reply>| match unlock(replies) {
        Ok(_) => panic!("the key was unlocked"),
        Err(error) => text(error),
    };
    assert_eq!(failed(vec![Reply::Poisoned]), "biometric helper lock was poisoned");
    assert_eq!(failed(vec![Reply::Done, broken()]), "broken pipe");
    assert_eq!(failed(vec![Reply::Done, Reply::Done, broken()]), "broken pipe");
    assert_eq!(failed(vec![Reply::Done, Reply::Done, Reply::Done, broken()]), "broken pipe");
    assert_eq!(
        failed(vec![
            Reply::Done,
            Reply::Done,
            Reply::Done,
            Reply::Byte(RESPONSE_SUCCESS),
            broken(),
        ]),
        "broken pipe"
    );
}
