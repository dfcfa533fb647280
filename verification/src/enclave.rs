//! The vault key, wrapped by a key that never leaves the Secure Enclave.

use crate::error::classified;
use crate::error::classify_authentication_error;
use crate::error::unavailable;
use crate::error::Reason;
use crate::error::UnlockError;
use crate::keys::wipe;
use crate::keys::KeyBuffer;
use crate::keys::VAULT_KEY_LEN;
use vstd::prelude::*;

verus! {

/// When an item of the keychain can be reached.
#[derive(Debug, Clone, Copy, PartialEq, Eq, Structural)]
pub enum Protection {
    /// While the device is unlocked, if it has a passcode, and on no other.
    WhenPasscodeSetThisDeviceOnly,
    /// While the device is unlocked, and on no other.
    WhenUnlockedThisDeviceOnly,
    /// While the device is unlocked.
    WhenUnlocked,
    /// Once the device has been unlocked since it started, and on no other.
    AfterFirstUnlockThisDeviceOnly,
    /// Once the device has been unlocked since it started.
    AfterFirstUnlock,
}

/// What the use of the wrapping key is tied to.
#[derive(Debug, Clone, Copy, PartialEq, Eq, Structural)]
pub struct AccessPolicy {
    pub protection: Protection,
    /// The policy covers operations with the private key.
    pub private_key_usage: bool,
    /// The fingers that are enrolled now, and no others, authorise the use.
    pub biometry_current_set: bool,
}

/// The policy of the wrapping key.
pub open spec fn wrapping_key_policy() -> AccessPolicy {
    AccessPolicy {
        protection: Protection::WhenPasscodeSetThisDeviceOnly,
        private_key_usage: true,
        biometry_current_set: true,
    }
}

/// A kind of key.
#[derive(Debug, Clone, Copy, PartialEq, Eq, Structural)]
pub enum KeyKind {
    Rsa,
    Ec,
    /// An elliptic-curve key over a prime field.
    EcSecPrimeRandom,
}

/// A way to encrypt under an elliptic-curve key: ECIES with AES-GCM, its key
/// derived by X9.63 with SHA-256.
#[derive(Debug, Clone, Copy, PartialEq, Eq, Structural)]
pub enum Algorithm {
    /// With the plain Diffie-Hellman exchange.
    EciesStandardX963Sha256AesGcm,
    /// With the cofactor Diffie-Hellman exchange.
    EciesCofactorX963Sha256AesGcm,
}

/// How the vault key is wrapped, and so unwrapped.
pub const WRAPPING_ALGORITHM: Algorithm = Algorithm::EciesCofactorX963Sha256AesGcm;

/// What key is generated.
#[derive(Debug, Clone, Copy)]
pub struct KeyOptions {
    pub kind: KeyKind,
    pub size_in_bits: u32,
    pub label: &'static str,
    /// The private key is made in the Secure Enclave and stays there.
    pub secure_enclave: bool,
    /// The key is stored in a keychain and outlives the process.
    pub permanent: bool,
}

/// The options of the wrapping key. It is not permanent: it dies with the
/// process that made it, and needs neither an entitlement nor a cleanup.
pub open spec fn wrapping_key_options() -> KeyOptions {
    KeyOptions {
        kind: KeyKind::EcSecPrimeRandom,
        size_in_bits: 256,
        label: "rbw session Touch ID unlock",
        secure_enclave: true,
        permanent: false,
    }
}

/// How far the wrapping of the vault key has come; `W` is the wrapped key, and
/// `E` tells why there is none.
#[derive(Debug)]
pub enum EnrollPhase<W, E> {
    CreateAccessControl,
    GenerateKey,
    CopyPublicKey,
    Encrypt,
    Enrolled(W),
    Failed(E),
}

/// What came of a step of the wrapping; `T` is the text of a failure.
#[derive(Debug)]
pub enum EnrollEvent<W, T> {
    Done,
    /// There is no public key.
    Missing,
    /// The vault key was encrypted to this.
    Encrypted(W),
    Failed(T),
}

impl<W: View, T: View> View for EnrollEvent<W, T> {
    type V = EnrollEvent<W::V, T::V>;

    open spec fn view(&self) -> EnrollEvent<W::V, T::V> {
        match self {
            EnrollEvent::Done => EnrollEvent::Done,
            EnrollEvent::Missing => EnrollEvent::Missing,
            EnrollEvent::Encrypted(wrapped) => EnrollEvent::Encrypted(wrapped@),
            EnrollEvent::Failed(text) => EnrollEvent::Failed(text@),
        }
    }
}

/// What is to be done next to wrap the vault key.
#[derive(Clone, Copy)]
pub enum EnrollAction<'a> {
    CreateAccessControl(AccessPolicy),
    GenerateKey(KeyOptions),
    CopyPublicKey,
    /// Encrypt these bytes with the public key, in this way.
    Encrypt(Algorithm, &'a [u8]),
    Finish,
}

/// The mathematical counterpart of [`EnrollAction`].
pub enum EnrollDemand {
    CreateAccessControl(AccessPolicy),
    GenerateKey(KeyOptions),
    CopyPublicKey,
    Encrypt(Algorithm, Seq<u8>),
    Finish,
}

impl<'a> View for EnrollAction<'a> {
    type V = EnrollDemand;

    open spec fn view(&self) -> EnrollDemand {
        match self {
            EnrollAction::CreateAccessControl(policy) => EnrollDemand::CreateAccessControl(*policy),
            EnrollAction::GenerateKey(options) => EnrollDemand::GenerateKey(*options),
            EnrollAction::CopyPublicKey => EnrollDemand::CopyPublicKey,
            EnrollAction::Encrypt(algorithm, bytes) => EnrollDemand::Encrypt(*algorithm, bytes@),
            EnrollAction::Finish => EnrollDemand::Finish,
        }
    }
}

/// What is to be done in a phase to wrap `vault_key`.
pub open spec fn enroll_demand(
    phase: EnrollPhase<Seq<u8>, Reason>,
    vault_key: Seq<u8>,
) -> EnrollDemand {
    match phase {
        EnrollPhase::CreateAccessControl => EnrollDemand::CreateAccessControl(
            wrapping_key_policy(),
        ),
        EnrollPhase::GenerateKey => EnrollDemand::GenerateKey(wrapping_key_options()),
        EnrollPhase::CopyPublicKey => EnrollDemand::CopyPublicKey,
        EnrollPhase::Encrypt => EnrollDemand::Encrypt(WRAPPING_ALGORITHM, vault_key),
        EnrollPhase::Enrolled(_) | EnrollPhase::Failed(_) => EnrollDemand::Finish,
    }
}

/// The phase after an event; one that does not answer the phase's action is
/// ignored.
pub open spec fn enroll_step(
    phase: EnrollPhase<Seq<u8>, Reason>,
    event: EnrollEvent<Seq<u8>, Seq<char>>,
) -> EnrollPhase<Seq<u8>, Reason> {
    match (phase, event) {
        (EnrollPhase::CreateAccessControl, EnrollEvent::Done) => EnrollPhase::GenerateKey,
        (EnrollPhase::GenerateKey, EnrollEvent::Done) => EnrollPhase::CopyPublicKey,
        (EnrollPhase::CopyPublicKey, EnrollEvent::Done) => EnrollPhase::Encrypt,
        (EnrollPhase::CopyPublicKey, EnrollEvent::Missing) => EnrollPhase::Failed(
            Reason::Unavailable("failed to copy the Secure Enclave public key"@),
        ),
        (EnrollPhase::Encrypt, EnrollEvent::Encrypted(wrapped)) => EnrollPhase::Enrolled(wrapped),
        (
            EnrollPhase::CreateAccessControl | EnrollPhase::GenerateKey | EnrollPhase::Encrypt,
            EnrollEvent::Failed(text),
        ) => EnrollPhase::Failed(Reason::Unavailable(text)),
        (phase, _) => phase,
    }
}

/// The wrapping of a vault key.
pub struct Enrolling<'a> {
    vault_key: &'a [u8],
    phase: EnrollPhase<Vec<u8>, UnlockError>,
}

impl<'a> Enrolling<'a> {
    /// The key that is being wrapped.
    pub closed spec fn vault_key(self) -> Seq<u8> {
        self.vault_key@
    }

    /// How far the wrapping has come.
    pub closed spec fn phase(self) -> EnrollPhase<Seq<u8>, Reason> {
        match self.phase {
            EnrollPhase::CreateAccessControl => EnrollPhase::CreateAccessControl,
            EnrollPhase::GenerateKey => EnrollPhase::GenerateKey,
            EnrollPhase::CopyPublicKey => EnrollPhase::CopyPublicKey,
            EnrollPhase::Encrypt => EnrollPhase::Encrypt,
            EnrollPhase::Enrolled(wrapped) => EnrollPhase::Enrolled(wrapped@),
            EnrollPhase::Failed(error) => EnrollPhase::Failed(error@),
        }
    }

    /// What is to be done next.
    pub fn action(&self) -> (action: EnrollAction<'a>)
        ensures
            action@ == enroll_demand(self.phase(), self.vault_key()),
            self.phase() is Encrypt ==> (action matches EnrollAction::Encrypt(_, bytes) && bytes@
                == self.vault_key()),
    {
        match self.phase {
            EnrollPhase::CreateAccessControl => EnrollAction::CreateAccessControl(
                AccessPolicy {
                    protection: Protection::WhenPasscodeSetThisDeviceOnly,
                    private_key_usage: true,
                    biometry_current_set: true,
                },
            ),
            EnrollPhase::GenerateKey => EnrollAction::GenerateKey(
                KeyOptions {
                    kind: KeyKind::EcSecPrimeRandom,
                    size_in_bits: 256,
                    label: "rbw session Touch ID unlock",
                    secure_enclave: true,
                    permanent: false,
                },
            ),
            EnrollPhase::CopyPublicKey => EnrollAction::CopyPublicKey,
            EnrollPhase::Encrypt => EnrollAction::Encrypt(WRAPPING_ALGORITHM, self.vault_key),
            EnrollPhase::Enrolled(_) | EnrollPhase::Failed(_) => EnrollAction::Finish,
        }
    }

    /// Goes on with what came of the action.
    pub fn step(self, event: EnrollEvent<Vec<u8>, String>) -> (next: Enrolling<'a>)
        ensures
            next.vault_key() == self.vault_key(),
            next.phase() == enroll_step(self.phase(), event@),
            self.phase() is Encrypt ==> (event matches EnrollEvent::Encrypted(wrapped)
                ==> next.phase() == EnrollPhase::<Seq<u8>, Reason>::Enrolled(wrapped@)),
    {
        let phase = match (self.phase, event) {
            (EnrollPhase::CreateAccessControl, EnrollEvent::Done) => EnrollPhase::GenerateKey,
            (EnrollPhase::GenerateKey, EnrollEvent::Done) => EnrollPhase::CopyPublicKey,
            (EnrollPhase::CopyPublicKey, EnrollEvent::Done) => EnrollPhase::Encrypt,
            (EnrollPhase::CopyPublicKey, EnrollEvent::Missing) => EnrollPhase::Failed(
                unavailable("failed to copy the Secure Enclave public key"),
            ),
            (EnrollPhase::Encrypt, EnrollEvent::Encrypted(wrapped)) => EnrollPhase::Enrolled(
                wrapped,
            ),
            (EnrollPhase::CreateAccessControl, EnrollEvent::Failed(text)) => EnrollPhase::Failed(
                unavailable(text.as_str()),
            ),
            (EnrollPhase::GenerateKey, EnrollEvent::Failed(text)) => EnrollPhase::Failed(
                unavailable(text.as_str()),
            ),
            (EnrollPhase::Encrypt, EnrollEvent::Failed(text)) => EnrollPhase::Failed(
                unavailable(text.as_str()),
            ),
            (phase, _) => phase,
        };
        Enrolling { vault_key: self.vault_key, phase }
    }

    /// The outcome, once there is one.
    pub fn finish(self) -> (outcome: Option<Result<KeyMaterial, UnlockError>>)
        ensures
            match self.phase() {
                EnrollPhase::Enrolled(wrapped) => outcome matches Some(Ok(material)) && material@
                    == wrapped,
                EnrollPhase::Failed(reason) => outcome matches Some(Err(error)) && error@
                    == reason,
                _ => outcome is None,
            },
    {
        match self.phase {
            EnrollPhase::Enrolled(wrapped) => Some(Ok(KeyMaterial { wrapped_vault_key: wrapped })),
            EnrollPhase::Failed(error) => Some(Err(error)),
            _ => None,
        }
    }
}

/// An error that the enclave answers a decryption with.
#[derive(Debug)]
pub struct AuthenticationError {
    pub domain: String,
    pub code: isize,
    pub description: String,
}

/// The mathematical counterpart of [`AuthenticationError`].
pub struct Refusal {
    pub domain: Seq<char>,
    pub code: int,
    pub description: Seq<char>,
}

impl View for AuthenticationError {
    type V = Refusal;

    open spec fn view(&self) -> Refusal {
        Refusal {
            domain: self.domain@,
            code: self.code as int,
            description: self.description@,
        }
    }
}

/// What the enclave answered, by view.
pub open spec fn decryption(decrypted: Result<Vec<u8>, AuthenticationError>) -> Result<
    Seq<u8>,
    Refusal,
> {
    match decrypted {
        Ok(plaintext) => Ok(plaintext@),
        Err(error) => Err(error@),
    }
}

/// What a decrypted plaintext amounts to: a vault key, if it is as long as one.
pub open spec fn plaintext_key(plaintext: Seq<u8>) -> Result<Seq<u8>, Reason> {
    if plaintext.len() == VAULT_KEY_LEN {
        Ok(plaintext)
    } else {
        Err(Reason::Unavailable("Secure Enclave returned an invalid vault key"@))
    }
}

/// What a decryption amounts to.
pub open spec fn decryption_key(decrypted: Result<Seq<u8>, Refusal>) -> Result<Seq<u8>, Reason> {
    match decrypted {
        Ok(plaintext) => plaintext_key(plaintext),
        Err(refusal) => Err(classified(refusal.domain, refusal.code, refusal.description)),
    }
}

/// `result` is `expected`, by view.
pub open spec fn key_result(
    result: Result<KeyBuffer, UnlockError>,
    expected: Result<Seq<u8>, Reason>,
) -> bool {
    match (result, expected) {
        (Ok(key), Ok(bytes)) => key@ == bytes,
        (Err(error), Err(reason)) => error@ == reason,
        _ => false,
    }
}

/// A vault key that only the enclave can unwrap.
pub struct KeyMaterial {
    wrapped_vault_key: Vec<u8>,
}

impl View for KeyMaterial {
    type V = Seq<u8>;

    closed spec fn view(&self) -> Seq<u8> {
        self.wrapped_vault_key@
    }
}

impl KeyMaterial {
    /// Begins to wrap `vault_key`.
    pub fn new<'a>(vault_key: &'a [u8]) -> (enrolling: Enrolling<'a>)
        ensures
            enrolling.vault_key() == vault_key@,
            enrolling.phase() == EnrollPhase::<Seq<u8>, Reason>::CreateAccessControl,
    {
        Enrolling { vault_key, phase: EnrollPhase::CreateAccessControl }
    }

    /// The wrapped key: what the enclave is to decrypt.
    pub fn wrapped_vault_key(&self) -> (wrapped: &[u8])
        ensures
            wrapped@ == self@,
    {
        self.wrapped_vault_key.as_slice()
    }

    /// Moves a decrypted vault key into `locked`, in place of what that holds.
    /// The plaintext is wiped, whether or not it is a vault key.
    pub fn take_plaintext(plaintext: &mut Vec<u8>, locked: KeyBuffer) -> (result: Result<
        KeyBuffer,
        UnlockError,
    >)
        ensures
            key_result(result, plaintext_key(old(plaintext)@)),
            final(plaintext)@ == Seq::<u8>::empty(),
            result is Ok <==> old(plaintext)@.len() == 64,
            result matches Ok(key) ==> key@ == old(plaintext)@,
            result matches Err(error) ==> (error matches UnlockError::Unavailable(text) && text@
                == "Secure Enclave returned an invalid vault key"@),
    {
        if plaintext.len() != VAULT_KEY_LEN {
            wipe(plaintext);
            return Err(unavailable("Secure Enclave returned an invalid vault key"));
        }
        let mut locked = locked;
        locked.zero();
        locked.copy_front(plaintext.as_slice());
        locked.truncate(VAULT_KEY_LEN);
        assert(locked@ =~= old(plaintext)@);
        wipe(plaintext);
        Ok(locked)
    }

    /// The vault key in `locked`, out of what the enclave answered to a request
    /// to decrypt the wrapped one. A plaintext is wiped; a refusal stays as it is.
    pub fn unlock(
        decrypted: &mut Result<Vec<u8>, AuthenticationError>,
        locked: KeyBuffer,
    ) -> (result: Result<KeyBuffer, UnlockError>)
        ensures
            key_result(result, decryption_key(decryption(*old(decrypted)))),
            match *old(decrypted) {
                Ok(_) => *final(decrypted) matches Ok(plaintext) && plaintext@
                    == Seq::<u8>::empty(),
                Err(_) => *final(decrypted) == *old(decrypted),
            },
            *old(decrypted) matches Ok(plaintext) ==> {
                &&& result is Ok <==> plaintext@.len() == 64
                &&& result matches Ok(key) ==> key@ == plaintext@
                &&& result matches Err(error) ==> error is Unavailable
            },
            *old(decrypted) matches Err(refusal) ==> {
                &&& result is Err
                &&& result == Err::<KeyBuffer, UnlockError>(UnlockError::Canceled) <==> {
                    ||| refusal.domain@ == "com.apple.LocalAuthentication"@ && refusal.code == -2
                    ||| refusal.domain@ == "NSOSStatusErrorDomain"@ && refusal.code == -128
                }
                &&& result == Err::<KeyBuffer, UnlockError>(UnlockError::PasswordRequested)
                    <==> refusal.domain@ == "com.apple.LocalAuthentication"@ && refusal.code == -3
                &&& result matches Err(UnlockError::Unavailable(text)) ==> text@
                    == refusal.description@
            },
    {
        match decrypted {
            Ok(plaintext) => Self::take_plaintext(plaintext, locked),
            Err(error) => Err(
                classify_authentication_error(
                    error.domain.as_str(),
                    error.code,
                    error.description.clone(),
                ),
            ),
        }
    }
}

/// How far a wrapping has come after `events`.
pub open spec fn enroll_run(events: Seq<EnrollEvent<Seq<u8>, Seq<char>>>) -> EnrollPhase<
    Seq<u8>,
    Reason,
>
    decreases events.len(),
{
    if events.len() == 0 {
        EnrollPhase::CreateAccessControl
    } else {
        enroll_step(enroll_run(events.drop_last()), events.last())
    }
}

/// Whatever happens on the way, a wrapping fails in no other way than that Touch
/// ID is unavailable, and the wrapped key is what the encryption of the vault
/// key under the finished key came to.
pub proof fn wrapped_key_is_the_encryption(events: Seq<EnrollEvent<Seq<u8>, Seq<char>>>)
    ensures
        enroll_run(events) matches EnrollPhase::Failed(reason) ==> reason is Unavailable,
        enroll_run(events) matches EnrollPhase::Enrolled(wrapped) ==> exists|i: int|
            {
                &&& 0 <= i < events.len()
                &&& (#[trigger] events[i]) == EnrollEvent::<Seq<u8>, Seq<char>>::Encrypted(wrapped)
                &&& enroll_run(events.take(i)) is Encrypt
            },
    decreases events.len(),
{
    if events.len() != 0 {
        let before = events.drop_last();
        wrapped_key_is_the_encryption(before);
        if let EnrollPhase::Enrolled(wrapped) = enroll_run(events) {
            if enroll_run(before) is Enrolled {
                let i = choose|i: int|
                    {
                        &&& 0 <= i < before.len()
                        &&& (#[trigger] before[i]) == EnrollEvent::<Seq<u8>, Seq<char>>::Encrypted(
                            wrapped,
                        )
                        &&& enroll_run(before.take(i)) is Encrypt
                    };
                assert(before.take(i) =~= events.take(i));
                assert(events[i] == before[i]);
            } else {
                let i = events.len() - 1;
                assert(events.take(i) =~= before);
                assert(events[i] == events.last());
            }
        }
    }
}

/// A wrapping in which every step succeeds is enrolled, with whatever the vault
/// key was encrypted to, however long that is. On the way it asks for a key that
/// only the enrolled fingers can use, on this device, while it has a passcode;
/// that is made in the Secure Enclave and not kept; and under which the whole
/// vault key, and nothing else, is encrypted.
pub proof fn wrapping_succeeds(vault_key: Seq<u8>, wrapped: Seq<u8>)
    ensures
        ({
            let done = EnrollEvent::<Seq<u8>, Seq<char>>::Done;
            let first = enroll_run(seq![]);
            let second = enroll_run(seq![done]);
            let third = enroll_run(seq![done, done]);
            let fourth = enroll_run(seq![done, done, done]);
            let last = enroll_run(seq![done, done, done, EnrollEvent::Encrypted(wrapped)]);
            &&& enroll_demand(first, vault_key) matches EnrollDemand::CreateAccessControl(policy)
            &&& policy.protection == Protection::WhenPasscodeSetThisDeviceOnly
            &&& policy.private_key_usage
            &&& policy.biometry_current_set
            &&& enroll_demand(second, vault_key) matches EnrollDemand::GenerateKey(options)
            &&& options.kind == KeyKind::EcSecPrimeRandom
            &&& options.size_in_bits == 256
            &&& options.label@ == "rbw session Touch ID unlock"@
            &&& options.secure_enclave
            &&& !options.permanent
            &&& enroll_demand(third, vault_key) == EnrollDemand::CopyPublicKey
            &&& enroll_demand(fourth, vault_key) == EnrollDemand::Encrypt(
                Algorithm::EciesCofactorX963Sha256AesGcm,
                vault_key,
            )
            &&& last == EnrollPhase::<Seq<u8>, Reason>::Enrolled(wrapped)
            &&& enroll_demand(last, vault_key) == EnrollDemand::Finish
        }),
{
    reveal_with_fuel(enroll_run, 6);
    let done = EnrollEvent::<Seq<u8>, Seq<char>>::Done;
    let encrypted = EnrollEvent::<Seq<u8>, Seq<char>>::Encrypted(wrapped);
    assert(seq![done].drop_last() =~= seq![]);
    assert(seq![done, done].drop_last() =~= seq![done]);
    assert(seq![done, done, done].drop_last() =~= seq![done, done]);
    assert(seq![done, done, done, encrypted].drop_last() =~= seq![done, done, done]);
}

/// A step that fails ends the wrapping with the text of its failure, wherever it
/// comes; a public key that is missing has a text of its own.
pub proof fn wrapping_fails_with_its_step(
    events: Seq<EnrollEvent<Seq<u8>, Seq<char>>>,
    vault_key: Seq<u8>,
    text: Seq<char>,
)
    ensures
        match enroll_demand(enroll_run(events), vault_key) {
            EnrollDemand::CreateAccessControl(_)
            | EnrollDemand::GenerateKey(_)
            | EnrollDemand::Encrypt(_, _) => enroll_run(events.push(EnrollEvent::Failed(text)))
                == EnrollPhase::<Seq<u8>, Reason>::Failed(Reason::Unavailable(text)),
            EnrollDemand::CopyPublicKey => enroll_run(events.push(EnrollEvent::Missing))
                == EnrollPhase::<Seq<u8>, Reason>::Failed(
                Reason::Unavailable("failed to copy the Secure Enclave public key"@),
            ),
            EnrollDemand::Finish => enroll_run(events.push(EnrollEvent::Failed(text)))
                == enroll_run(events),
        },
{
    assert(events.push(EnrollEvent::Failed(text)).drop_last() =~= events);
    assert(events.push(EnrollEvent::Missing).drop_last() =~= events);
}

/// A wrapping fails only if a step reported a failure, whose text it then has, or
/// that there is no public key.
pub proof fn wrapping_fails_only_for_a_cause(events: Seq<EnrollEvent<Seq<u8>, Seq<char>>>)
    ensures
        enroll_run(events) matches EnrollPhase::Failed(reason) ==> {
            ||| events.contains(EnrollEvent::Missing) && reason == Reason::Unavailable(
                "failed to copy the Secure Enclave public key"@,
            )
            ||| exists|i: int|
                {
                    &&& 0 <= i < events.len()
                    &&& (#[trigger] events[i]) matches EnrollEvent::Failed(text)
                    &&& reason == Reason::Unavailable(text)
                }
        },
        (forall|i: int|
            0 <= i < events.len() ==> !((#[trigger] events[i]) is Failed || events[i] is Missing))
            ==> !(enroll_run(events) is Failed),
    decreases events.len(),
{
    if events.len() != 0 {
        let before = events.drop_last();
        let last = events.len() - 1;
        wrapping_fails_only_for_a_cause(before);
        assert(events[last] == events.last());
        assert(forall|i: int| 0 <= i < before.len() ==> #[trigger] before[i] == events[i]);
        if let EnrollPhase::Failed(reason) = enroll_run(before) {
            if before.contains(EnrollEvent::Missing) && reason == Reason::Unavailable(
                "failed to copy the Secure Enclave public key"@,
            ) {
                let i = choose|i: int|
                    0 <= i < before.len() && before[i] == EnrollEvent::<
                        Seq<u8>,
                        Seq<char>,
                    >::Missing;
                assert(events[i] == before[i]);
            } else {
                let i = choose|i: int|
                    {
                        &&& 0 <= i < before.len()
                        &&& (#[trigger] before[i]) matches EnrollEvent::Failed(text)
                        &&& reason == Reason::Unavailable(text)
                    };
                assert(events[i] == before[i]);
            }
        }
    }
}

/// What a wrapping did not ask for changes nothing: it stands where it stood,
/// whatever it is told that does not answer its last action.
pub proof fn wrapping_ignores_what_it_did_not_ask(
    events: Seq<EnrollEvent<Seq<u8>, Seq<char>>>,
    vault_key: Seq<u8>,
    event: EnrollEvent<Seq<u8>, Seq<char>>,
)
    ensures
        match enroll_demand(enroll_run(events), vault_key) {
            EnrollDemand::CreateAccessControl(_)
            | EnrollDemand::GenerateKey(_) => event is Done || event is Failed,
            EnrollDemand::CopyPublicKey => event is Done || event is Missing,
            EnrollDemand::Encrypt(_, _) => event is Encrypted || event is Failed,
            EnrollDemand::Finish => false,
        } || enroll_run(events.push(event)) == enroll_run(events),
{
    assert(events.push(event).drop_last() =~= events);
}

/// The outcome of an unlock, over what the enclave answered. A plaintext is the
/// key if it is 64 bytes long. Of the refusals, two say that the user canceled and
/// one that the user wants the password; every other one is passed on in its own
/// words.
pub proof fn unlock_keeps_the_user_intent(
    decrypted: Result<Vec<u8>, AuthenticationError>,
    result: Result<KeyBuffer, UnlockError>,
)
    requires
        key_result(result, decryption_key(decryption(decrypted))),
    ensures
        decrypted matches Ok(plaintext) ==> {
            &&& result is Ok <==> plaintext@.len() == 64
            &&& result matches Ok(key) ==> key@ == plaintext@
            &&& result matches Err(error) ==> error@ == Reason::Unavailable(
                "Secure Enclave returned an invalid vault key"@,
            )
        },
        decrypted matches Err(refusal) ==> {
            &&& result matches Err(error)
            &&& error is Canceled <==> {
                ||| refusal.domain@ == "com.apple.LocalAuthentication"@ && refusal.code == -2
                ||| refusal.domain@ == "NSOSStatusErrorDomain"@ && refusal.code == -128
            }
            &&& error is PasswordRequested <==> refusal.domain@ == "com.apple.LocalAuthentication"@
                && refusal.code == -3
            &&& error matches UnlockError::Unavailable(text) ==> text@ == refusal.description@
        },
{
}

/// The same of the enclave's answer by view.
pub proof fn refusals_keep_the_user_intent(refusal: Refusal)
    ensures
        decryption_key(Err(refusal)) == Err::<Seq<u8>, Reason>(Reason::Canceled) <==> {
            ||| refusal.domain == "com.apple.LocalAuthentication"@ && refusal.code == -2
            ||| refusal.domain == "NSOSStatusErrorDomain"@ && refusal.code == -128
        },
        decryption_key(Err(refusal)) == Err::<Seq<u8>, Reason>(Reason::PasswordRequested)
            <==> refusal.domain == "com.apple.LocalAuthentication"@ && refusal.code == -3,
        decryption_key(Err(refusal)) is Err,
        decryption_key(Err(refusal)) matches Err(Reason::Unavailable(text)) ==> text
            == refusal.description,
{
}

/// What is told to a wrapping, and asked by it, and what the mathematics says of
/// it, are the same thing.
pub proof fn enclave_views_are_faithful(
    event: EnrollEvent<Vec<u8>, String>,
    action: EnrollAction,
    error: AuthenticationError,
)
    ensures
        event is Done <==> event@ is Done,
        event is Missing <==> event@ is Missing,
        event matches EnrollEvent::Encrypted(wrapped) ==> event@ == EnrollEvent::<
            Seq<u8>,
            Seq<char>,
        >::Encrypted(wrapped@),
        event matches EnrollEvent::Failed(text) ==> event@ == EnrollEvent::<
            Seq<u8>,
            Seq<char>,
        >::Failed(text@),
        action is CreateAccessControl <==> action@ is CreateAccessControl,
        action matches EnrollAction::CreateAccessControl(policy) ==> action@
            == EnrollDemand::CreateAccessControl(policy),
        action matches EnrollAction::GenerateKey(options) ==> action@ == EnrollDemand::GenerateKey(
            options,
        ),
        action is CopyPublicKey <==> action@ is CopyPublicKey,
        action matches EnrollAction::Encrypt(algorithm, bytes) ==> action@ == EnrollDemand::Encrypt(
            algorithm,
            bytes@,
        ),
        action is Finish <==> action@ is Finish,
        error@.domain == error.domain@,
        error@.code == error.code,
        error@.description == error.description@,
{
}

} // verus!
