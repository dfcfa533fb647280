//! The agent's side: a session with a helper that holds the vault key.

use crate::digest::only_a_collision_confuses_keys;
use crate::digest::protected_key_digest;
use crate::digest::same_digest;
use crate::digest::sha256;
use crate::digest::text_digest;
use crate::error::unavailable;
use crate::error::Reason;
use crate::error::UnlockError;
use crate::keys::KeyBuffer;
use crate::keys::Keys;
use crate::keys::VAULT_KEY_LEN;
use crate::protocol::REQUEST_UNLOCK;
use crate::protocol::RESPONSE_CANCELED;
use crate::protocol::RESPONSE_HARDENED;
use crate::protocol::RESPONSE_PASSWORD_REQUESTED;
use crate::protocol::RESPONSE_READY;
use crate::protocol::RESPONSE_SUCCESS;
use crate::protocol::RESPONSE_UNAVAILABLE;
use crate::text::decimal;
use crate::text::decimal_digits;
use crate::wait::HELPER_INIT_TIMEOUT_NANOS;
use vstd::prelude::*;
use vstd::string::StringExecFns;
use vstd::utf8::encode_utf8;

verus! {

/// What came of an exchange with the helper; `K` is a key, `T` a text.
pub enum HelperReply<K, T> {
    /// What was asked for is done.
    Done,
    /// Another thread panicked while it spoke with the helper.
    Poisoned,
    /// The helper sent this byte.
    Byte(u8),
    /// The helper sent the vault key.
    Key(K),
    /// The exchange failed.
    Failed(T),
}

impl<K: View, T: View> View for HelperReply<K, T> {
    type V = HelperReply<K::V, T::V>;

    open spec fn view(&self) -> HelperReply<K::V, T::V> {
        match self {
            HelperReply::Done => HelperReply::Done,
            HelperReply::Poisoned => HelperReply::Poisoned,
            HelperReply::Byte(byte) => HelperReply::Byte(*byte),
            HelperReply::Key(key) => HelperReply::Key(key@),
            HelperReply::Failed(text) => HelperReply::Failed(text@),
        }
    }
}

/// How far the opening of a session has come; `E` tells why it failed.
#[derive(Debug)]
pub enum OpenPhase<E> {
    /// The helper has not said yet that it is protected.
    AwaitHardened,
    /// It has; the vault key is to be written.
    WriteKey,
    /// The vault key is written and to be flushed.
    FlushKey,
    /// The helper has not said yet that it takes requests.
    AwaitReady,
    Open,
    Failed(E),
}

/// What is to be done next to open a session.
#[derive(Clone, Copy)]
pub enum OpenAction<'a> {
    /// Read one byte from the helper, within this many nanoseconds.
    ReadInitResponse(u128),
    /// Write these bytes, the vault key, to the helper.
    Write(&'a [u8]),
    Flush,
    Finish,
}

/// The mathematical counterpart of [`OpenAction`].
pub enum OpenDemand {
    ReadInitResponse(u128),
    Write(Seq<u8>),
    Flush,
    Finish,
}

impl<'a> View for OpenAction<'a> {
    type V = OpenDemand;

    open spec fn view(&self) -> OpenDemand {
        match self {
            OpenAction::ReadInitResponse(timeout) => OpenDemand::ReadInitResponse(*timeout),
            OpenAction::Write(bytes) => OpenDemand::Write(bytes@),
            OpenAction::Flush => OpenDemand::Flush,
            OpenAction::Finish => OpenDemand::Finish,
        }
    }
}

/// What is to be done in a phase to give the helper `vault_key`.
pub open spec fn open_demand(phase: OpenPhase<Reason>, vault_key: Seq<u8>) -> OpenDemand {
    match phase {
        OpenPhase::AwaitHardened | OpenPhase::AwaitReady => OpenDemand::ReadInitResponse(
            HELPER_INIT_TIMEOUT_NANOS,
        ),
        OpenPhase::WriteKey => OpenDemand::Write(vault_key),
        OpenPhase::FlushKey => OpenDemand::Flush,
        OpenPhase::Open | OpenPhase::Failed(_) => OpenDemand::Finish,
    }
}

/// The phase after a reply; one that does not answer the phase's action is
/// ignored.
pub open spec fn open_step(
    phase: OpenPhase<Reason>,
    reply: HelperReply<Seq<u8>, Seq<char>>,
) -> OpenPhase<Reason> {
    match (phase, reply) {
        (
            OpenPhase::AwaitHardened | OpenPhase::WriteKey | OpenPhase::FlushKey
            | OpenPhase::AwaitReady,
            HelperReply::Failed(text),
        ) => OpenPhase::Failed(Reason::Unavailable(text)),
        (OpenPhase::AwaitHardened, HelperReply::Byte(byte)) => if byte == RESPONSE_HARDENED {
            OpenPhase::WriteKey
        } else {
            OpenPhase::Failed(
                Reason::Unavailable("biometric helper did not enter its hardened state"@),
            )
        },
        (OpenPhase::WriteKey, HelperReply::Done) => OpenPhase::FlushKey,
        (OpenPhase::FlushKey, HelperReply::Done) => OpenPhase::AwaitReady,
        (OpenPhase::AwaitReady, HelperReply::Byte(byte)) => if byte == RESPONSE_READY {
            OpenPhase::Open
        } else {
            OpenPhase::Failed(Reason::Unavailable("biometric helper failed to initialize"@))
        },
        (phase, _) => phase,
    }
}

/// The opening of a session with a helper that has been started.
pub struct Opening<'a> {
    vault_key: &'a Keys,
    protected_key_digest: [u8; 32],
    phase: OpenPhase<UnlockError>,
}

impl<'a> Opening<'a> {
    /// The key that the helper is to hold.
    pub closed spec fn vault_key(self) -> Seq<u8> {
        self.vault_key@
    }

    /// The fingerprint that the session will have.
    pub closed spec fn fingerprint(self) -> Seq<u8> {
        self.protected_key_digest@
    }

    /// How far the opening has come.
    pub closed spec fn phase(self) -> OpenPhase<Reason> {
        match self.phase {
            OpenPhase::AwaitHardened => OpenPhase::AwaitHardened,
            OpenPhase::WriteKey => OpenPhase::WriteKey,
            OpenPhase::FlushKey => OpenPhase::FlushKey,
            OpenPhase::AwaitReady => OpenPhase::AwaitReady,
            OpenPhase::Open => OpenPhase::Open,
            OpenPhase::Failed(error) => OpenPhase::Failed(error@),
        }
    }

    /// What is to be done next. The vault key is handed out in one phase only:
    /// the one that the helper's acknowledgement leads to.
    pub fn action(&self) -> (action: OpenAction<'a>)
        ensures
            action@ == open_demand(self.phase(), self.vault_key()),
            self.phase() is AwaitHardened || self.phase() is AwaitReady ==> action
                == OpenAction::ReadInitResponse(10_000_000_000),
            self.phase() is WriteKey ==> (action matches OpenAction::Write(bytes) && bytes@
                == self.vault_key()),
            action is Write ==> self.phase() is WriteKey,
    {
        match self.phase {
            OpenPhase::AwaitHardened | OpenPhase::AwaitReady => OpenAction::ReadInitResponse(
                HELPER_INIT_TIMEOUT_NANOS,
            ),
            OpenPhase::WriteKey => OpenAction::Write(self.vault_key.as_bytes()),
            OpenPhase::FlushKey => OpenAction::Flush,
            OpenPhase::Open | OpenPhase::Failed(_) => OpenAction::Finish,
        }
    }

    /// Goes on with what came of the action.
    pub fn step(self, reply: HelperReply<KeyBuffer, String>) -> (next: Opening<'a>)
        ensures
            next.vault_key() == self.vault_key(),
            next.fingerprint() == self.fingerprint(),
            next.phase() == open_step(self.phase(), reply@),
    {
        let phase = match (self.phase, reply) {
            (OpenPhase::AwaitHardened, HelperReply::Failed(text)) => OpenPhase::Failed(
                unavailable(text.as_str()),
            ),
            (OpenPhase::WriteKey, HelperReply::Failed(text)) => OpenPhase::Failed(
                unavailable(text.as_str()),
            ),
            (OpenPhase::FlushKey, HelperReply::Failed(text)) => OpenPhase::Failed(
                unavailable(text.as_str()),
            ),
            (OpenPhase::AwaitReady, HelperReply::Failed(text)) => OpenPhase::Failed(
                unavailable(text.as_str()),
            ),
            (OpenPhase::AwaitHardened, HelperReply::Byte(byte)) => {
                if byte == RESPONSE_HARDENED {
                    OpenPhase::WriteKey
                } else {
                    OpenPhase::Failed(
                        unavailable("biometric helper did not enter its hardened state"),
                    )
                }
            },
            (OpenPhase::WriteKey, HelperReply::Done) => OpenPhase::FlushKey,
            (OpenPhase::FlushKey, HelperReply::Done) => OpenPhase::AwaitReady,
            (OpenPhase::AwaitReady, HelperReply::Byte(byte)) => {
                if byte == RESPONSE_READY {
                    OpenPhase::Open
                } else {
                    OpenPhase::Failed(unavailable("biometric helper failed to initialize"))
                }
            },
            (phase, _) => phase,
        };
        Opening {
            vault_key: self.vault_key,
            protected_key_digest: self.protected_key_digest,
            phase,
        }
    }

    /// The outcome, once there is one.
    pub fn finish(self) -> (outcome: Option<Result<Session, UnlockError>>)
        ensures
            match self.phase() {
                OpenPhase::Open => outcome matches Some(Ok(session)) && session@
                    == self.fingerprint(),
                OpenPhase::Failed(reason) => outcome matches Some(Err(error)) && error@ == reason,
                _ => outcome is None,
            },
    {
        match self.phase {
            OpenPhase::Open => Some(
                Ok(Session { protected_key_digest: self.protected_key_digest }),
            ),
            OpenPhase::Failed(error) => Some(Err(error)),
            _ => None,
        }
    }
}

/// How far an unlock has come; `K` is the key, and `E` tells why there is none.
pub enum UnlockPhase<K, E> {
    /// The helper is to be locked against other threads.
    Lock,
    WriteRequest,
    FlushRequest,
    ReadResponse,
    /// The helper announced the key, which is to be read.
    ReadKey,
    Unlocked(K),
    Failed(E),
}

/// What is to be done next in an unlock.
#[derive(Debug, Clone, Copy, PartialEq, Eq, Structural)]
pub enum UnlockAction {
    /// Take the helper's lock.
    Lock,
    /// Write this byte to the helper.
    Write(u8),
    Flush,
    /// Read one byte from the helper.
    ReadByte,
    /// Read this many bytes into the front of a zeroed buffer, and reply with
    /// the buffer.
    ReadKey(usize),
    Finish,
}

/// What is to be done in a phase.
pub open spec fn unlock_action<K, E>(phase: UnlockPhase<K, E>) -> UnlockAction {
    match phase {
        UnlockPhase::Lock => UnlockAction::Lock,
        UnlockPhase::WriteRequest => UnlockAction::Write(REQUEST_UNLOCK),
        UnlockPhase::FlushRequest => UnlockAction::Flush,
        UnlockPhase::ReadResponse => UnlockAction::ReadByte,
        UnlockPhase::ReadKey => UnlockAction::ReadKey(VAULT_KEY_LEN),
        UnlockPhase::Unlocked(_) | UnlockPhase::Failed(_) => UnlockAction::Finish,
    }
}

/// Why there is no key, by the helper's response; none for the response that
/// announces the key.
pub open spec fn response_reason(response: u8) -> Option<Reason> {
    if response == RESPONSE_SUCCESS {
        None
    } else if response == RESPONSE_CANCELED {
        Some(Reason::Canceled)
    } else if response == RESPONSE_PASSWORD_REQUESTED {
        Some(Reason::PasswordRequested)
    } else if response == RESPONSE_UNAVAILABLE {
        Some(Reason::Unavailable("biometric helper could not unlock the vault key"@))
    } else {
        Some(
            Reason::Unavailable(
                "biometric helper returned unknown response "@ + decimal_digits(response as nat),
            ),
        )
    }
}

/// The phase after a reply; one that does not answer the phase's action is
/// ignored. A buffer that holds less than a vault key does not answer the request
/// for one.
pub open spec fn unlock_step(
    phase: UnlockPhase<Seq<u8>, Reason>,
    reply: HelperReply<Seq<u8>, Seq<char>>,
) -> UnlockPhase<Seq<u8>, Reason> {
    match (phase, reply) {
        (UnlockPhase::Lock, HelperReply::Done) => UnlockPhase::WriteRequest,
        (UnlockPhase::Lock, HelperReply::Poisoned) => UnlockPhase::Failed(
            Reason::Unavailable("biometric helper lock was poisoned"@),
        ),
        (
            UnlockPhase::WriteRequest | UnlockPhase::FlushRequest | UnlockPhase::ReadResponse
            | UnlockPhase::ReadKey,
            HelperReply::Failed(text),
        ) => UnlockPhase::Failed(Reason::Unavailable(text)),
        (UnlockPhase::WriteRequest, HelperReply::Done) => UnlockPhase::FlushRequest,
        (UnlockPhase::FlushRequest, HelperReply::Done) => UnlockPhase::ReadResponse,
        (UnlockPhase::ReadResponse, HelperReply::Byte(byte)) => match response_reason(byte) {
            None => UnlockPhase::ReadKey,
            Some(reason) => UnlockPhase::Failed(reason),
        },
        (UnlockPhase::ReadKey, HelperReply::Key(key)) => if key.len() >= VAULT_KEY_LEN {
            UnlockPhase::Unlocked(key.take(VAULT_KEY_LEN as int))
        } else {
            UnlockPhase::ReadKey
        },
        (phase, _) => phase,
    }
}

/// An unlock under way.
pub struct Unlocking {
    phase: UnlockPhase<Keys, UnlockError>,
}

impl View for Unlocking {
    type V = UnlockPhase<Seq<u8>, Reason>;

    closed spec fn view(&self) -> UnlockPhase<Seq<u8>, Reason> {
        match self.phase {
            UnlockPhase::Lock => UnlockPhase::Lock,
            UnlockPhase::WriteRequest => UnlockPhase::WriteRequest,
            UnlockPhase::FlushRequest => UnlockPhase::FlushRequest,
            UnlockPhase::ReadResponse => UnlockPhase::ReadResponse,
            UnlockPhase::ReadKey => UnlockPhase::ReadKey,
            UnlockPhase::Unlocked(keys) => UnlockPhase::Unlocked(keys@),
            UnlockPhase::Failed(error) => UnlockPhase::Failed(error@),
        }
    }
}

/// What the helper's response says about the key.
fn read_response(response: u8) -> (result: Result<(), UnlockError>)
    ensures
        match result {
            Ok(()) => response_reason(response) is None,
            Err(error) => response_reason(response) == Some(error@),
        },
{
    match response {
        RESPONSE_SUCCESS => Ok(()),
        RESPONSE_CANCELED => Err(UnlockError::Canceled),
        RESPONSE_PASSWORD_REQUESTED => Err(UnlockError::PasswordRequested),
        RESPONSE_UNAVAILABLE => Err(
            unavailable("biometric helper could not unlock the vault key"),
        ),
        response => {
            let number = decimal(response);
            let text = "biometric helper returned unknown response ".to_owned().concat(
                number.as_str(),
            );
            Err(unavailable(text.as_str()))
        },
    }
}

impl Unlocking {
    /// What is to be done next.
    pub fn action(&self) -> (action: UnlockAction)
        ensures
            action == unlock_action(self@),
    {
        match self.phase {
            UnlockPhase::Lock => UnlockAction::Lock,
            UnlockPhase::WriteRequest => UnlockAction::Write(REQUEST_UNLOCK),
            UnlockPhase::FlushRequest => UnlockAction::Flush,
            UnlockPhase::ReadResponse => UnlockAction::ReadByte,
            UnlockPhase::ReadKey => UnlockAction::ReadKey(VAULT_KEY_LEN),
            UnlockPhase::Unlocked(_) | UnlockPhase::Failed(_) => UnlockAction::Finish,
        }
    }

    /// Goes on with what came of the action.
    pub fn step(self, reply: HelperReply<KeyBuffer, String>) -> (next: Unlocking)
        ensures
            next@ == unlock_step(self@, reply@),
    {
        let phase = match (self.phase, reply) {
            (UnlockPhase::Lock, HelperReply::Done) => UnlockPhase::WriteRequest,
            (UnlockPhase::Lock, HelperReply::Poisoned) => UnlockPhase::Failed(
                unavailable("biometric helper lock was poisoned"),
            ),
            (UnlockPhase::WriteRequest, HelperReply::Failed(text)) => UnlockPhase::Failed(
                unavailable(text.as_str()),
            ),
            (UnlockPhase::FlushRequest, HelperReply::Failed(text)) => UnlockPhase::Failed(
                unavailable(text.as_str()),
            ),
            (UnlockPhase::ReadResponse, HelperReply::Failed(text)) => UnlockPhase::Failed(
                unavailable(text.as_str()),
            ),
            (UnlockPhase::ReadKey, HelperReply::Failed(text)) => UnlockPhase::Failed(
                unavailable(text.as_str()),
            ),
            (UnlockPhase::WriteRequest, HelperReply::Done) => UnlockPhase::FlushRequest,
            (UnlockPhase::FlushRequest, HelperReply::Done) => UnlockPhase::ReadResponse,
            (UnlockPhase::ReadResponse, HelperReply::Byte(byte)) => match read_response(byte) {
                Ok(()) => UnlockPhase::ReadKey,
                Err(error) => UnlockPhase::Failed(error),
            },
            (UnlockPhase::ReadKey, HelperReply::Key(key)) => {
                if key.data().len() >= VAULT_KEY_LEN {
                    let mut key = key;
                    key.truncate(VAULT_KEY_LEN);
                    UnlockPhase::Unlocked(Keys::new(key))
                } else {
                    UnlockPhase::ReadKey
                }
            },
            (phase, _) => phase,
        };
        Unlocking { phase }
    }

    /// The outcome, once there is one.
    pub fn finish(self) -> (outcome: Option<Result<Keys, UnlockError>>)
        ensures
            match self@ {
                UnlockPhase::Unlocked(key) => outcome matches Some(Ok(keys)) && keys@ == key,
                UnlockPhase::Failed(reason) => outcome matches Some(Err(error)) && error@
                    == reason,
                _ => outcome is None,
            },
    {
        match self.phase {
            UnlockPhase::Unlocked(keys) => Some(Ok(keys)),
            UnlockPhase::Failed(error) => Some(Err(error)),
            _ => None,
        }
    }
}

/// A session with a helper that holds the vault key.
pub struct Session {
    protected_key_digest: [u8; 32],
}

impl View for Session {
    type V = Seq<u8>;

    /// The fingerprint of the protected key that the session was opened for.
    closed spec fn view(&self) -> Seq<u8> {
        self.protected_key_digest@
    }
}

impl Session {
    /// Begins to open a session: the helper is to be given `vault_key`, which
    /// `protected_key` stands for.
    pub fn new<'a>(vault_key: &'a Keys, protected_key: &str) -> (opening: Opening<'a>)
        ensures
            opening.vault_key() == vault_key@,
            opening.fingerprint() == text_digest(protected_key@),
            opening.fingerprint() == sha256(encode_utf8(protected_key@)),
            opening.phase() == OpenPhase::<Reason>::AwaitHardened,
    {
        Opening {
            vault_key,
            protected_key_digest: protected_key_digest(protected_key),
            phase: OpenPhase::AwaitHardened,
        }
    }

    /// Whether the session was opened for a key with this fingerprint.
    pub fn has_digest(&self, digest: &[u8; 32]) -> (same: bool)
        ensures
            same == (self@ == digest@),
    {
        same_digest(&self.protected_key_digest, digest)
    }

    /// Whether the session was opened for this protected key.
    pub fn matches(&self, protected_key: &str) -> (same: bool)
        ensures
            same == (self@ == text_digest(protected_key@)),
            same == (self@ == sha256(encode_utf8(protected_key@))),
    {
        self.has_digest(&protected_key_digest(protected_key))
    }

    /// Begins to unlock the vault key.
    pub fn unlock(&self) -> (unlocking: Unlocking)
        ensures
            unlocking@ == UnlockPhase::<Seq<u8>, Reason>::Lock,
    {
        Unlocking { phase: UnlockPhase::Lock }
    }
}

/// How far the opening of a session has come after `replies`.
pub open spec fn open_run(replies: Seq<HelperReply<Seq<u8>, Seq<char>>>) -> OpenPhase<Reason>
    decreases replies.len(),
{
    if replies.len() == 0 {
        OpenPhase::AwaitHardened
    } else {
        open_step(open_run(replies.drop_last()), replies.last())
    }
}

/// The vault key is not handed out before the helper has said that it is
/// protected: whatever the replies, an opening that stands anywhere but at its
/// start or at a failure was told so, and until then had done nothing but wait
/// for it. That holds after every prefix of the replies, so also of the moment at
/// which an opening that failed later handed the key out.
pub proof fn vault_key_waits_for_hardening(replies: Seq<HelperReply<Seq<u8>, Seq<char>>>)
    ensures
        !(open_run(replies) is AwaitHardened || open_run(replies) is Failed) ==> exists|i: int|
            {
                &&& 0 <= i < replies.len()
                &&& (#[trigger] replies[i]) == HelperReply::<Seq<u8>, Seq<char>>::Byte(
                    RESPONSE_HARDENED,
                )
                &&& forall|j: int|
                    0 <= j <= i ==> (#[trigger] open_run(replies.take(j))) is AwaitHardened
            },
    decreases replies.len(),
{
    if replies.len() != 0 && !(open_run(replies) is AwaitHardened || open_run(replies) is Failed) {
        let before = replies.drop_last();
        vault_key_waits_for_hardening(before);
        if open_run(before) is AwaitHardened {
            let i = replies.len() - 1;
            assert(replies[i] == HelperReply::<Seq<u8>, Seq<char>>::Byte(RESPONSE_HARDENED));
            waiting_was_waiting(before);
            assert forall|j: int| 0 <= j <= i implies (#[trigger] open_run(
                replies.take(j),
            )) is AwaitHardened by {
                assert(replies.take(j) =~= before.take(j));
            }
        } else {
            let i = choose|i: int|
                {
                    &&& 0 <= i < before.len()
                    &&& (#[trigger] before[i]) == HelperReply::<Seq<u8>, Seq<char>>::Byte(
                        RESPONSE_HARDENED,
                    )
                    &&& forall|j: int|
                        0 <= j <= i ==> (#[trigger] open_run(before.take(j))) is AwaitHardened
                };
            assert(replies[i] == before[i]);
            assert forall|j: int| 0 <= j <= i implies (#[trigger] open_run(
                replies.take(j),
            )) is AwaitHardened by {
                assert(replies.take(j) =~= before.take(j));
            }
        }
    }
}

/// An opening that waits for the helper to be protected has done nothing else.
proof fn waiting_was_waiting(replies: Seq<HelperReply<Seq<u8>, Seq<char>>>)
    requires
        open_run(replies) is AwaitHardened,
    ensures
        forall|j: int|
            0 <= j <= replies.len() ==> (#[trigger] open_run(replies.take(j))) is AwaitHardened,
    decreases replies.len(),
{
    assert(replies.take(replies.len() as int) =~= replies);
    if replies.len() != 0 {
        let before = replies.drop_last();
        waiting_was_waiting(before);
        assert forall|j: int| 0 <= j <= replies.len() implies (#[trigger] open_run(
            replies.take(j),
        )) is AwaitHardened by {
            if j < replies.len() {
                assert(replies.take(j) =~= before.take(j));
            }
        }
    }
}

/// An opening that fails falls back to the master password: it never reports a
/// choice of the user, whom nothing has asked yet.
pub proof fn opening_fails_as_unavailable(replies: Seq<HelperReply<Seq<u8>, Seq<char>>>)
    ensures
        open_run(replies) matches OpenPhase::Failed(reason) ==> reason is Unavailable,
    decreases replies.len(),
{
    if replies.len() != 0 {
        opening_fails_as_unavailable(replies.drop_last());
    }
}

/// How far an unlock has come after `replies`.
pub open spec fn unlock_run(replies: Seq<HelperReply<Seq<u8>, Seq<char>>>) -> UnlockPhase<
    Seq<u8>,
    Reason,
>
    decreases replies.len(),
{
    if replies.len() == 0 {
        UnlockPhase::Lock
    } else {
        unlock_step(unlock_run(replies.drop_last()), replies.last())
    }
}

/// A choice of the user is reported only where the helper reported it, and a key
/// only where the helper announced one; whatever else goes wrong, Touch ID is
/// unavailable.
pub proof fn unlock_reports_what_the_helper_said(replies: Seq<HelperReply<Seq<u8>, Seq<char>>>)
    ensures
        match unlock_run(replies) {
            UnlockPhase::Failed(Reason::Canceled) => replies.contains(
                HelperReply::Byte(RESPONSE_CANCELED),
            ),
            UnlockPhase::Failed(Reason::PasswordRequested) => replies.contains(
                HelperReply::Byte(RESPONSE_PASSWORD_REQUESTED),
            ),
            UnlockPhase::ReadKey | UnlockPhase::Unlocked(_) => replies.contains(
                HelperReply::Byte(RESPONSE_SUCCESS),
            ),
            _ => true,
        },
    decreases replies.len(),
{
    if replies.len() != 0 {
        let before = replies.drop_last();
        unlock_reports_what_the_helper_said(before);
        assert(replies[replies.len() - 1] == replies.last());
        assert forall|reply: HelperReply<Seq<u8>, Seq<char>>| before.contains(
            reply,
        ) implies #[trigger] replies.contains(reply) by {
            let i = choose|i: int| 0 <= i < before.len() && before[i] == reply;
            assert(replies[i] == reply);
        }
    }
}

/// An unlocked key is whole: whatever the replies, it is as long as a vault key,
/// and is the front of a buffer that was read after the helper had announced it.
pub proof fn unlocked_key_is_whole(replies: Seq<HelperReply<Seq<u8>, Seq<char>>>)
    ensures
        unlock_run(replies) matches UnlockPhase::Unlocked(key) ==> key.len() == VAULT_KEY_LEN,
        unlock_run(replies) matches UnlockPhase::Unlocked(key) ==> exists|i: int|
            {
                &&& 0 <= i < replies.len()
                &&& unlock_run(replies.take(i)) is ReadKey
                &&& (#[trigger] replies[i]) matches HelperReply::Key(buffer)
                &&& buffer.len() >= VAULT_KEY_LEN
                &&& key == buffer.take(VAULT_KEY_LEN as int)
            },
    decreases replies.len(),
{
    if replies.len() != 0 {
        let before = replies.drop_last();
        unlocked_key_is_whole(before);
        if let UnlockPhase::Unlocked(key) = unlock_run(replies) {
            if unlock_run(before) is Unlocked {
                let i = choose|i: int|
                    {
                        &&& 0 <= i < before.len()
                        &&& unlock_run(before.take(i)) is ReadKey
                        &&& (#[trigger] before[i]) matches HelperReply::Key(buffer)
                        &&& buffer.len() >= VAULT_KEY_LEN
                        &&& key == buffer.take(VAULT_KEY_LEN as int)
                    };
                assert(replies.take(i) =~= before.take(i));
                assert(replies[i] == before[i]);
            } else {
                let i = replies.len() - 1;
                assert(replies.take(i) =~= before);
                assert(replies[i] == replies.last());
            }
        }
    }
}

/// An unlock that has come to an end stays there.
pub proof fn ended_unlock_stays_ended(
    phase: UnlockPhase<Seq<u8>, Reason>,
    reply: HelperReply<Seq<u8>, Seq<char>>,
)
    requires
        phase is Unlocked || phase is Failed,
    ensures
        unlock_step(phase, reply) == phase,
        unlock_action(phase) == UnlockAction::Finish,
{
}

/// A session matches the protected key that it was opened for, and a different
/// one only if the bytes of the two keys are a collision of SHA-256.
pub proof fn session_matches_its_own_key(session: Session, opened_for: Seq<char>, asked: Seq<char>)
    requires
        session@ == text_digest(opened_for),
    ensures
        asked == opened_for ==> session@ == text_digest(asked),
        asked != opened_for && session@ == text_digest(asked) ==> {
            &&& encode_utf8(asked) != encode_utf8(opened_for)
            &&& sha256(encode_utf8(asked)) == sha256(encode_utf8(opened_for))
        },
{
    if asked != opened_for && session@ == text_digest(asked) {
        only_a_collision_confuses_keys(asked, opened_for);
    }
}

/// A session is opened in one way: the helper says that it is protected, the
/// whole vault key is written and flushed, and the helper says that it is ready.
/// For either byte it has ten seconds. Any other byte fails the opening, and a
/// helper that is not protected is not given the key.
pub proof fn opening_takes_its_course(vault_key: Seq<u8>, first: u8, second: u8)
    ensures
        ({
            let done = HelperReply::<Seq<u8>, Seq<char>>::Done;
            let one = HelperReply::<Seq<u8>, Seq<char>>::Byte(first);
            let two = HelperReply::<Seq<u8>, Seq<char>>::Byte(second);
            &&& open_demand(open_run(seq![]), vault_key) == OpenDemand::ReadInitResponse(
                10_000_000_000,
            )
            &&& first != 4 ==> open_run(seq![one]) == OpenPhase::<Reason>::Failed(
                Reason::Unavailable("biometric helper did not enter its hardened state"@),
            )
            &&& first == 4 ==> {
                &&& open_demand(open_run(seq![one]), vault_key) == OpenDemand::Write(vault_key)
                &&& open_demand(open_run(seq![one, done]), vault_key) == OpenDemand::Flush
                &&& open_demand(open_run(seq![one, done, done]), vault_key)
                    == OpenDemand::ReadInitResponse(10_000_000_000)
                &&& open_run(seq![one, done, done, two]) == if second == 5 {
                    OpenPhase::<Reason>::Open
                } else {
                    OpenPhase::<Reason>::Failed(
                        Reason::Unavailable("biometric helper failed to initialize"@),
                    )
                }
            }
            &&& open_demand(open_run(seq![one, done, done, two]), vault_key) == OpenDemand::Finish
        }),
{
    reveal_with_fuel(open_run, 6);
    let done = HelperReply::<Seq<u8>, Seq<char>>::Done;
    let one = HelperReply::<Seq<u8>, Seq<char>>::Byte(first);
    let two = HelperReply::<Seq<u8>, Seq<char>>::Byte(second);
    assert(seq![one].drop_last() =~= seq![]);
    assert(seq![one, done].drop_last() =~= seq![one]);
    assert(seq![one, done, done].drop_last() =~= seq![one, done]);
    assert(seq![one, done, done, two].drop_last() =~= seq![one, done, done]);
}

/// Wherever an opening stands, it has ten seconds for what it waits for; a failed
/// exchange ends it, with the text of the failure; and one that has ended stays so.
pub proof fn opening_fails_with_its_exchange(
    replies: Seq<HelperReply<Seq<u8>, Seq<char>>>,
    vault_key: Seq<u8>,
    text: Seq<char>,
    late: HelperReply<Seq<u8>, Seq<char>>,
)
    ensures
        open_demand(open_run(replies), vault_key) matches OpenDemand::ReadInitResponse(timeout)
            ==> timeout == 10_000_000_000,
        open_demand(open_run(replies), vault_key) matches OpenDemand::Write(bytes) ==> bytes
            == vault_key,
        open_demand(open_run(replies), vault_key) != OpenDemand::Finish ==> open_run(
            replies.push(HelperReply::Failed(text)),
        ) == OpenPhase::<Reason>::Failed(Reason::Unavailable(text)),
        open_demand(open_run(replies), vault_key) == OpenDemand::Finish ==> open_run(
            replies.push(late),
        ) == open_run(replies),
        open_run(replies) is Open || open_run(replies) is Failed <==> open_demand(
            open_run(replies),
            vault_key,
        ) == OpenDemand::Finish,
{
    assert(replies.push(HelperReply::Failed(text)).drop_last() =~= replies);
    assert(replies.push(late).drop_last() =~= replies);
}

/// A session opens only if the helper said that it was ready, after the key had
/// been flushed to it; and an opening in which nothing failed and no wrong byte
/// came has not failed.
pub proof fn sessions_open_only_when_told(replies: Seq<HelperReply<Seq<u8>, Seq<char>>>)
    ensures
        open_run(replies) is Open ==> exists|i: int|
            {
                &&& 0 <= i < replies.len()
                &&& (#[trigger] replies[i]) == HelperReply::<Seq<u8>, Seq<char>>::Byte(5)
                &&& open_run(replies.take(i)) is AwaitReady
            },
        (forall|i: int|
            0 <= i < replies.len() ==> match #[trigger] replies[i] {
                HelperReply::Failed(_) => false,
                HelperReply::Byte(byte) => match open_run(replies.take(i)) {
                    OpenPhase::AwaitHardened => byte == 4,
                    OpenPhase::AwaitReady => byte == 5,
                    _ => true,
                },
                _ => true,
            }) ==> !(open_run(replies) is Failed),
    decreases replies.len(),
{
    if replies.len() != 0 {
        let before = replies.drop_last();
        let last = replies.len() - 1;
        sessions_open_only_when_told(before);
        assert(replies.take(last) =~= before);
        assert(replies[last] == replies.last());
        assert forall|i: int| 0 <= i < before.len() implies #[trigger] before[i] == replies[i]
            && before.take(i) == replies.take(i) by {
            assert(before.take(i) =~= replies.take(i));
        }
        if open_run(before) is Open {
            let i = choose|i: int|
                {
                    &&& 0 <= i < before.len()
                    &&& (#[trigger] before[i]) == HelperReply::<Seq<u8>, Seq<char>>::Byte(5)
                    &&& open_run(before.take(i)) is AwaitReady
                };
            assert(before.take(i) =~= replies.take(i));
            assert(replies[i] == before[i]);
        }
    }
}

/// An unlock asks once, under the helper's lock, and goes by the response. The
/// response that announces the key is followed by a key of 64 bytes, the front of
/// what is read; the others say why there is none, and a response that is not
/// known is named.
pub proof fn unlocking_takes_its_course(response: u8, buffer: Seq<u8>)
    requires
        buffer.len() >= 64,
    ensures
        ({
            let done = HelperReply::<Seq<u8>, Seq<char>>::Done;
            let byte = HelperReply::<Seq<u8>, Seq<char>>::Byte(response);
            let key = HelperReply::<Seq<u8>, Seq<char>>::Key(buffer);
            let answered = unlock_run(seq![done, done, done, byte]);
            &&& unlock_action(unlock_run(seq![])) == UnlockAction::Lock
            &&& unlock_action(unlock_run(seq![done])) == UnlockAction::Write(1)
            &&& unlock_action(unlock_run(seq![done, done])) == UnlockAction::Flush
            &&& unlock_action(unlock_run(seq![done, done, done])) == UnlockAction::ReadByte
            &&& response == 0 ==> {
                &&& unlock_action(answered) == UnlockAction::ReadKey(64)
                &&& unlock_run(seq![done, done, done, byte, key]) == UnlockPhase::<
                    Seq<u8>,
                    Reason,
                >::Unlocked(buffer.take(64))
            }
            &&& response != 0 ==> {
                &&& answered matches UnlockPhase::Failed(reason)
                &&& unlock_action(answered) == UnlockAction::Finish
                &&& reason == Reason::Canceled <==> response == 1
                &&& reason == Reason::PasswordRequested <==> response == 2
                &&& response == 3 ==> reason == Reason::Unavailable(
                    "biometric helper could not unlock the vault key"@,
                )
                &&& response > 3 ==> reason == Reason::Unavailable(
                    "biometric helper returned unknown response "@ + decimal_digits(
                        response as nat,
                    ),
                )
            }
        }),
{
    reveal_with_fuel(unlock_run, 7);
    let done = HelperReply::<Seq<u8>, Seq<char>>::Done;
    let byte = HelperReply::<Seq<u8>, Seq<char>>::Byte(response);
    let key = HelperReply::<Seq<u8>, Seq<char>>::Key(buffer);
    assert(seq![done].drop_last() =~= seq![]);
    assert(seq![done, done].drop_last() =~= seq![done]);
    assert(seq![done, done, done].drop_last() =~= seq![done, done]);
    assert(seq![done, done, done, byte].drop_last() =~= seq![done, done, done]);
    assert(seq![done, done, done, byte, key].drop_last() =~= seq![done, done, done, byte]);
}

/// Wherever an unlock stands, a failed exchange ends it with the text of the
/// failure, and a poisoned lock with a text of its own.
pub proof fn unlocking_fails_with_its_exchange(
    replies: Seq<HelperReply<Seq<u8>, Seq<char>>>,
    text: Seq<char>,
)
    ensures
        match unlock_action(unlock_run(replies)) {
            UnlockAction::Lock => unlock_run(replies.push(HelperReply::Poisoned)) == UnlockPhase::<
                Seq<u8>,
                Reason,
            >::Failed(Reason::Unavailable("biometric helper lock was poisoned"@)),
            UnlockAction::Finish => unlock_run(replies) is Unlocked || unlock_run(
                replies,
            ) is Failed,
            _ => unlock_run(replies.push(HelperReply::Failed(text))) == UnlockPhase::<
                Seq<u8>,
                Reason,
            >::Failed(Reason::Unavailable(text)),
        },
{
    assert(replies.push(HelperReply::Failed(text)).drop_last() =~= replies);
    assert(replies.push(HelperReply::Poisoned).drop_last() =~= replies);
}

/// An unlock fails only for a cause: an exchange that failed, a lock that was
/// poisoned, or a response other than the one that announces the key.
pub proof fn unlocking_fails_only_for_a_cause(replies: Seq<HelperReply<Seq<u8>, Seq<char>>>)
    ensures
        (forall|i: int|
            0 <= i < replies.len() ==> match #[trigger] replies[i] {
                HelperReply::Failed(_) | HelperReply::Poisoned => false,
                HelperReply::Byte(byte) => byte == 0,
                _ => true,
            }) ==> !(unlock_run(replies) is Failed),
    decreases replies.len(),
{
    if replies.len() != 0 {
        let before = replies.drop_last();
        unlocking_fails_only_for_a_cause(before);
        assert(replies[replies.len() - 1] == replies.last());
        assert(forall|i: int| 0 <= i < before.len() ==> #[trigger] before[i] == replies[i]);
    }
}

/// What an opening did not ask for changes nothing: it stands where it stood,
/// whatever it is told that does not answer its last action.
pub proof fn opening_ignores_what_it_did_not_ask(
    replies: Seq<HelperReply<Seq<u8>, Seq<char>>>,
    vault_key: Seq<u8>,
    reply: HelperReply<Seq<u8>, Seq<char>>,
)
    ensures
        match open_demand(open_run(replies), vault_key) {
            OpenDemand::ReadInitResponse(_) => reply is Byte || reply is Failed,
            OpenDemand::Write(_) | OpenDemand::Flush => reply is Done || reply is Failed,
            OpenDemand::Finish => false,
        } || open_run(replies.push(reply)) == open_run(replies),
{
    assert(replies.push(reply).drop_last() =~= replies);
}

/// What an unlock did not ask for changes nothing: it stands where it stood,
/// whatever it is told that does not answer its last action. A buffer that is
/// shorter than the key that was to be read does not.
pub proof fn unlocking_ignores_what_it_did_not_ask(
    replies: Seq<HelperReply<Seq<u8>, Seq<char>>>,
    reply: HelperReply<Seq<u8>, Seq<char>>,
)
    ensures
        match unlock_action(unlock_run(replies)) {
            UnlockAction::Lock => reply is Done || reply is Poisoned,
            UnlockAction::Write(_) | UnlockAction::Flush => reply is Done || reply is Failed,
            UnlockAction::ReadByte => reply is Byte || reply is Failed,
            UnlockAction::ReadKey(len) => reply is Failed || (reply matches HelperReply::Key(
                buffer,
            ) && buffer.len() >= len),
            UnlockAction::Finish => false,
        } || unlock_run(replies.push(reply)) == unlock_run(replies),
{
    assert(replies.push(reply).drop_last() =~= replies);
}

/// What is told to a session, and asked by its opening, and what the mathematics
/// says of it, are the same thing.
pub proof fn session_views_are_faithful(reply: HelperReply<KeyBuffer, String>, action: OpenAction)
    ensures
        reply is Done <==> reply@ is Done,
        reply is Poisoned <==> reply@ is Poisoned,
        reply matches HelperReply::Byte(byte) ==> reply@ == HelperReply::<
            Seq<u8>,
            Seq<char>,
        >::Byte(byte),
        reply matches HelperReply::Key(key) ==> reply@ == HelperReply::<Seq<u8>, Seq<char>>::Key(
            key@,
        ),
        reply matches HelperReply::Failed(text) ==> reply@ == HelperReply::<
            Seq<u8>,
            Seq<char>,
        >::Failed(text@),
        action matches OpenAction::ReadInitResponse(timeout) ==> action@
            == OpenDemand::ReadInitResponse(timeout),
        action matches OpenAction::Write(bytes) ==> action@ == OpenDemand::Write(bytes@),
        action is Flush <==> action@ is Flush,
        action is Finish <==> action@ is Finish,
{
}

} // verus!
