use biometric::enclave::{
    Algorithm, AuthenticationError, EnrollAction, EnrollEvent, Enrolling, KeyKind, KeyMaterial,
    Protection,
};
use biometric::error::{UnlockError, LOCAL_AUTHENTICATION_ERROR_DOMAIN};
use biometric::helper::{helper_main, HelperAction, HelperError, HelperEvent, HelperMain};
use biometric::keys::{KeyBuffer, VAULT_KEY_LEN};
use biometric::pipe::PipeError;
use biometric::protocol::{
    HELPER_ARGUMENT, REQUEST_UNLOCK, RESPONSE_CANCELED, RESPONSE_HARDENED,
    RESPONSE_PASSWORD_REQUESTED, RESPONSE_READY, RESPONSE_SUCCESS, RESPONSE_UNAVAILABLE,
};
use biometric::session::{HelperReply, OpenAction, Session, UnlockAction};
use biometric::spawn::{HelperPipe, SpawnAction, SpawnEvent, Spawning};

fn read_key(bytes: &[u8]) -> KeyBuffer {
    let mut buffer = KeyBuffer::new();
    buffer.zero();
    buffer.copy_front(bytes);
    buffer
}

fn text(error: UnlockError) -> String {
    match error {
        UnlockError::Unavailable(text) => text,
        other => panic!("{:?}", other),
    }
}

fn refused(domain: &str, code: isize) -> AuthenticationError {
    AuthenticationError {
        domain: domain.to_string(),
        code,
        description: "why".to_string(),
    }
}

fn wrapped(bytes: &[u8]) -> KeyMaterial {
    let vault_key = [1_u8; VAULT_KEY_LEN];
    KeyMaterial::new(&vault_key)
        .step(EnrollEvent::Done)
        .step(EnrollEvent::Done)
        .step(EnrollEvent::Done)
        .step(EnrollEvent::Encrypted(bytes.to_vec()))
        .finish()
        .unwrap()
        .unwrap()
}

#[test]
fn wrapping_asks_for_a_current_fingerprint() {
    let vault_key = [3_u8; VAULT_KEY_LEN];
    let enrolling: Enrolling = KeyMaterial::new(&vault_key);
    match enrolling.action() {
        EnrollAction::CreateAccessControl(policy) => {
            assert_eq!(policy.protection, Protection::WhenPasscodeSetThisDeviceOnly);
            assert!(policy.private_key_usage);
            assert!(policy.biometry_current_set);
        }
        _ => panic!("no access control"),
    }
    let enrolling = enrolling.step(EnrollEvent::Done);
    match enrolling.action() {
        EnrollAction::GenerateKey(options) => {
            assert_eq!(options.kind, KeyKind::EcSecPrimeRandom);
            assert_eq!(options.size_in_bits, 256);
            assert_eq!(options.label, "rbw session Touch ID unlock");
            assert!(options.secure_enclave);
            assert!(!options.permanent);
        }
        _ => panic!("no key"),
    }
    let enrolling = enrolling.step(EnrollEvent::Done);
    assert!(matches!(enrolling.action(), EnrollAction::CopyPublicKey));
    let enrolling = enrolling.step(EnrollEvent::Done);
    match enrolling.action() {
        EnrollAction::Encrypt(algorithm, bytes) => {
            assert_eq!(algorithm, Algorithm::EciesCofactorX963Sha256AesGcm);
            assert_eq!(bytes, &vault_key);
        }
        _ => panic!("no encryption"),
    }
    let enrolling = enrolling.step(EnrollEvent::Encrypted(vec![8, 9]));
    assert!(matches!(enrolling.action(), EnrollAction::Finish));
    let material = enrolling.finish().unwrap().unwrap();
    assert_eq!(material.wrapped_vault_key(), &[8, 9]);
}

#[test]
fn wrapping_fails_for_a_reason() {
    let vault_key = [3_u8; VAULT_KEY_LEN];
    let after = |steps: usize, event: EnrollEvent<Vec<u8>, String>| {
        let mut enrolling = KeyMaterial::new(&vault_key);
        for _ in 0..steps {
            enrolling = enrolling.step(EnrollEvent::Done);
        }
        match enrolling.step(event).finish().unwrap() {
            Ok(_) => panic!("the key was wrapped"),
            Err(error) => text(error),
        }
    };
    let failed = || EnrollEvent::Failed("no enclave".to_string());
    assert_eq!(after(0, failed()), "no enclave");
    assert_eq!(after(1, failed()), "no enclave");
    assert_eq!(
        after(2, EnrollEvent::Missing),
        "failed to copy the Secure Enclave public key"
    );
    assert_eq!(after(3, failed()), "no enclave");
}

#[test]
fn plaintexts_are_moved_and_wiped() {
    let mut plaintext = vec![6_u8; VAULT_KEY_LEN];
    let key = KeyMaterial::take_plaintext(&mut plaintext, KeyBuffer::new()).unwrap();
    assert_eq!(key.data(), &[6_u8; VAULT_KEY_LEN]);
    assert!(plaintext.is_empty());
    for len in [0, 63, 65] {
        let mut plaintext = vec![6_u8; len];
        match KeyMaterial::take_plaintext(&mut plaintext, KeyBuffer::new()) {
            Ok(_) => panic!("an invalid key was taken"),
            Err(error) => {
                assert_eq!(text(error), "Secure Enclave returned an invalid vault key")
            }
        }
        assert!(plaintext.is_empty());
    }
}

#[test]
fn decryptions_give_the_key_or_the_intent() {
    let mut decrypted = Ok(vec![6_u8; VAULT_KEY_LEN]);
    let key = KeyMaterial::unlock(&mut decrypted, read_key(&[1])).unwrap();
    assert_eq!(key.data(), &[6_u8; VAULT_KEY_LEN]);
    assert!(decrypted.unwrap().is_empty());
    let mut decrypted = Ok(vec![6_u8; VAULT_KEY_LEN + 1]);
    assert!(KeyMaterial::unlock(&mut decrypted, KeyBuffer::new()).is_err());
    assert!(decrypted.unwrap().is_empty());
    let intent = |code: isize| {
        let mut decrypted = Err(refused(LOCAL_AUTHENTICATION_ERROR_DOMAIN, code));
        match KeyMaterial::unlock(&mut decrypted, KeyBuffer::new()) {
            Ok(_) => panic!("the key was unlocked"),
            Err(error) => {
                let kept = decrypted.unwrap_err();
                assert_eq!(kept.code, code);
                assert_eq!(kept.description, "why");
                error
            }
        }
    };
    assert!(matches!(intent(-2), UnlockError::Canceled));
    assert!(matches!(intent(-3), UnlockError::PasswordRequested));
    assert_eq!(text(intent(-4)), "why");
}

fn status(helper: &HelperMain) -> u8 {
    match helper.action() {
        HelperAction::SendStatus(status) => status,
        _ => panic!("no status is sent"),
    }
}

fn report(helper: &HelperMain) -> String {
    match helper.action() {
        HelperAction::Report(line) => line,
        _ => panic!("nothing is reported"),
    }
}

fn enrolling_helper() -> HelperMain {
    helper_main()
        .step(HelperEvent::Sent)
        .step(HelperEvent::Key(read_key(&[4_u8; VAULT_KEY_LEN])))
}

fn serving_helper() -> HelperMain {
    enrolling_helper()
        .step(HelperEvent::Enrolled(wrapped(&[8, 9])))
        .step(HelperEvent::Sent)
}

fn asked_helper() -> HelperMain {
    serving_helper().step(HelperEvent::Byte(REQUEST_UNLOCK))
}

fn end(helper: HelperMain) -> Result<(), HelperError> {
    assert!(matches!(helper.action(), HelperAction::Exit));
    helper.finish().unwrap()
}

#[test]
fn a_helper_starts_up() {
    let helper = helper_main();
    assert_eq!(status(&helper), RESPONSE_HARDENED);
    let helper = helper.step(HelperEvent::Sent);
    assert!(matches!(helper.action(), HelperAction::ReadKey(64)));
    let helper = helper.step(HelperEvent::Key(read_key(&[4_u8; VAULT_KEY_LEN])));
    match helper.action() {
        HelperAction::Enroll(bytes) => assert_eq!(bytes, &[4_u8; VAULT_KEY_LEN]),
        _ => panic!("the key is not wrapped"),
    }
    let helper = helper.step(HelperEvent::Enrolled(wrapped(&[8, 9])));
    assert_eq!(status(&helper), RESPONSE_READY);
    let helper = helper.step(HelperEvent::Sent);
    assert!(matches!(helper.action(), HelperAction::ReadRequest));
    assert!(helper.finish().is_none());
}

#[test]
fn a_helper_wraps_whole_keys_only() {
    let mut short = read_key(&[4_u8; VAULT_KEY_LEN]);
    short.truncate(VAULT_KEY_LEN - 1);
    let helper = helper_main().step(HelperEvent::Sent).step(HelperEvent::Key(short));
    assert!(matches!(helper.action(), HelperAction::ReadKey(64)));
}

#[test]
fn a_helper_that_cannot_start_says_so() {
    let error = UnlockError::Unavailable("no enclave".to_string());
    let helper = enrolling_helper().step(HelperEvent::NotEnrolled(error));
    assert_eq!(
        report(&helper),
        "failed to initialize biometric helper: Touch ID is unavailable: no enclave"
    );
    let helper = helper.step(HelperEvent::Reported);
    assert_eq!(status(&helper), RESPONSE_UNAVAILABLE);
    assert_eq!(end(helper.step(HelperEvent::Sent)), Ok(()));
}

#[test]
fn a_helper_sends_the_key_on_request() {
    let helper = asked_helper();
    match helper.action() {
        HelperAction::Decrypt(algorithm, bytes) => {
            assert_eq!(algorithm, Algorithm::EciesCofactorX963Sha256AesGcm);
            assert_eq!(bytes, &[8, 9]);
        }
        _ => panic!("nothing is decrypted"),
    }
    let plaintext = vec![4_u8; VAULT_KEY_LEN];
    let helper = helper.step(HelperEvent::Decrypted(Ok(plaintext), KeyBuffer::new()));
    assert_eq!(status(&helper), RESPONSE_SUCCESS);
    let helper = helper.step(HelperEvent::Sent);
    match helper.action() {
        HelperAction::SendKey(bytes) => assert_eq!(bytes, &[4_u8; VAULT_KEY_LEN]),
        _ => panic!("the key is not sent"),
    }
    let helper = helper.step(HelperEvent::Sent);
    assert!(matches!(helper.action(), HelperAction::ReadRequest));
}

#[test]
fn a_helper_passes_on_the_intent() {
    let refuse = |code: isize| {
        let error = refused(LOCAL_AUTHENTICATION_ERROR_DOMAIN, code);
        asked_helper().step(HelperEvent::Decrypted(Err(error), KeyBuffer::new()))
    };
    assert_eq!(status(&refuse(-2)), RESPONSE_CANCELED);
    assert_eq!(status(&refuse(-3)), RESPONSE_PASSWORD_REQUESTED);
    let helper = refuse(-4);
    assert_eq!(report(&helper), "Touch ID is unavailable: why");
    let helper = helper.step(HelperEvent::Reported);
    assert_eq!(status(&helper), RESPONSE_UNAVAILABLE);
    let helper = helper.step(HelperEvent::Sent);
    assert!(matches!(helper.action(), HelperAction::ReadRequest));
}

#[test]
fn a_helper_ends_with_its_agent() {
    let closed = || HelperEvent::PipeFailed(PipeError::UnexpectedEof);
    assert_eq!(end(serving_helper().step(closed())), Ok(()));
    assert_eq!(
        end(helper_main().step(HelperEvent::Sent).step(closed())),
        Err(HelperError::Pipe(PipeError::UnexpectedEof))
    );
    assert_eq!(
        end(serving_helper().step(HelperEvent::PipeFailed(PipeError::Os(5)))),
        Err(HelperError::Pipe(PipeError::Os(5)))
    );
}

#[test]
fn a_helper_gives_up_on_a_broken_pipe() {
    let broken = || HelperEvent::PipeFailed(PipeError::WriteZero);
    let failed = Err(HelperError::Pipe(PipeError::WriteZero));
    assert_eq!(end(helper_main().step(broken())), failed);
    let decrypted = || {
        let plaintext = vec![4_u8; VAULT_KEY_LEN];
        asked_helper().step(HelperEvent::Decrypted(Ok(plaintext), KeyBuffer::new()))
    };
    assert_eq!(end(decrypted().step(broken())), failed);
    assert_eq!(end(decrypted().step(HelperEvent::Sent).step(broken())), failed);
}

#[test]
fn a_helper_refuses_unknown_requests() {
    let error = end(serving_helper().step(HelperEvent::Byte(17))).unwrap_err();
    assert_eq!(error, HelperError::UnknownRequest(17));
    assert_eq!(error.message().unwrap(), "unknown biometric helper request 17");
    assert_eq!(
        HelperError::Pipe(PipeError::UnexpectedEof).message().unwrap(),
        "biometric helper pipe closed"
    );
    assert_eq!(HelperError::Pipe(PipeError::Os(5)).message(), None);
}

#[test]
fn agent_and_helper_agree_on_the_vault_key() {
    let mut agent_key = read_key(&[0xa5_u8; VAULT_KEY_LEN]);
    agent_key.truncate(VAULT_KEY_LEN);
    let vault_key = biometric::keys::Keys::new(agent_key);

    let helper = helper_main();
    let opening = Session::new(&vault_key, "protected key").step(HelperReply::Byte(status(&helper)));
    let written = match opening.action() {
        OpenAction::Write(bytes) => bytes.to_vec(),
        _ => panic!("the key is not written"),
    };
    let helper = helper
        .step(HelperEvent::Sent)
        .step(HelperEvent::Key(read_key(&written)))
        .step(HelperEvent::Enrolled(wrapped(&[8, 9])));
    let session = opening
        .step(HelperReply::Done)
        .step(HelperReply::Done)
        .step(HelperReply::Byte(status(&helper)))
        .finish()
        .unwrap()
        .unwrap();

    let unlocking = session.unlock().step(HelperReply::Done);
    let request = match unlocking.action() {
        UnlockAction::Write(byte) => byte,
        _ => panic!("nothing is asked"),
    };
    let helper = helper
        .step(HelperEvent::Sent)
        .step(HelperEvent::Byte(request))
        .step(HelperEvent::Decrypted(Ok(written), KeyBuffer::new()));
    let unlocking = unlocking
        .step(HelperReply::Done)
        .step(HelperReply::Done)
        .step(HelperReply::Byte(status(&helper)));
    let helper = helper.step(HelperEvent::Sent);
    let sent = match helper.action() {
        HelperAction::SendKey(bytes) => bytes.to_vec(),
        _ => panic!("the key is not sent"),
    };
    let unlocked = unlocking.step(HelperReply::Key(read_key(&sent))).finish().unwrap().unwrap();
    assert_eq!(unlocked.as_bytes(), vault_key.as_bytes());
}

#[test]
fn spawning_starts_the_helper() {
    let spawning = Spawning::spawn();
    assert!(matches!(spawning.action(), SpawnAction::LocateExecutable));
    let spawning = spawning.step(SpawnEvent::Done);
    match spawning.action() {
        SpawnAction::Launch(argument) => {
            assert_eq!(argument, "--biometric-helper");
            assert_eq!(argument, HELPER_ARGUMENT);
        }
        _ => panic!("nothing is launched"),
    }
    let spawning = spawning.step(SpawnEvent::Done);
    assert!(matches!(spawning.action(), SpawnAction::TakePipe(HelperPipe::Stdin)));
    let spawning = spawning.step(SpawnEvent::Done);
    assert!(matches!(spawning.action(), SpawnAction::TakePipe(HelperPipe::Stdout)));
    let spawning = spawning.step(SpawnEvent::Done);
    assert!(matches!(spawning.action(), SpawnAction::Finish));
    assert!(spawning.finish().unwrap().is_ok());
}

#[test]
fn spawning_fails_for_a_reason() {
    let failed = || SpawnEvent::Failed("no such file".to_string());
    let reason = |spawning: Spawning| text(spawning.finish().unwrap().unwrap_err());
    assert_eq!(reason(Spawning::spawn().step(failed())), "no such file");
    assert_eq!(reason(Spawning::spawn().step(SpawnEvent::Done).step(failed())), "no such file");
    let launched = || Spawning::spawn().step(SpawnEvent::Done).step(SpawnEvent::Done);
    let killed = |spawning: Spawning| {
        assert!(matches!(spawning.action(), SpawnAction::Kill));
        let spawning = spawning.step(SpawnEvent::Failed("already dead".to_string()));
        assert!(matches!(spawning.action(), SpawnAction::Reap));
        reason(spawning.step(SpawnEvent::Done))
    };
    assert_eq!(
        killed(launched().step(SpawnEvent::Missing)),
        "failed to open biometric helper stdin"
    );
    assert_eq!(
        killed(launched().step(SpawnEvent::Done).step(SpawnEvent::Missing)),
        "failed to open biometric helper stdout"
    );
}
