//! The helper's side: it holds the wrapped vault key and answers requests.

use crate::enclave::decryption;
use crate::enclave::decryption_key;
use crate::enclave::enroll_demand;
use crate::enclave::Algorithm;
use crate::enclave::AuthenticationError;
use crate::enclave::EnrollDemand;
use crate::enclave::EnrollPhase;
use crate::enclave::KeyMaterial;
use crate::enclave::Refusal;
use crate::enclave::WRAPPING_ALGORITHM;
use crate::error::Reason;
use crate::error::UnlockError;
use crate::keys::at_most;
use crate::keys::KeyBuffer;
use crate::keys::VAULT_KEY_LEN;
use crate::pipe::PipeError;
use crate::protocol::REQUEST_UNLOCK;
use crate::protocol::RESPONSE_CANCELED;
use crate::protocol::RESPONSE_HARDENED;
use crate::protocol::RESPONSE_PASSWORD_REQUESTED;
use crate::protocol::RESPONSE_READY;
use crate::protocol::RESPONSE_SUCCESS;
use crate::protocol::RESPONSE_UNAVAILABLE;
use crate::text::decimal;
use crate::text::decimal_digits;
use vstd::prelude::*;
use vstd::slice::slice_subrange;
use vstd::string::StringExecFns;

verus! {

/// Why the helper gave up.
#[derive(Debug, Clone, Copy, PartialEq, Eq, Structural)]
pub enum HelperError {
    /// The agent sent a byte that is no request.
    UnknownRequest(u8),
    /// A pipe to the agent failed.
    Pipe(PipeError),
}

impl HelperError {
    /// The text of this failure, where it is not the system's.
    pub open spec fn text(self) -> Option<Seq<char>> {
        match self {
            HelperError::UnknownRequest(request) => Some(
                "unknown biometric helper request "@ + decimal_digits(request as nat),
            ),
            HelperError::Pipe(error) => error.text(),
        }
    }

    /// The text of this failure; the system has its own for an error number.
    pub fn message(&self) -> (message: Option<String>)
        ensures
            match message {
                Some(text) => self.text() == Some(text@),
                None => self.text() is None,
            },
    {
        match self {
            HelperError::UnknownRequest(request) => {
                let number = decimal(*request);
                Some("unknown biometric helper request ".to_owned().concat(number.as_str()))
            },
            HelperError::Pipe(error) => error.message(),
        }
    }
}

/// How far the helper has come; `K` is a key in the clear, `M` the wrapped one,
/// and `E` why there is none.
pub enum HelperPhase<K, M, E> {
    /// The process is protected, and the agent is to be told.
    SendHardened,
    /// The vault key is to be read.
    ReadKey,
    /// This vault key is to be wrapped.
    Enroll(K),
    /// It could not be, and this is to be reported.
    ReportNotEnrolled(E),
    /// The agent is to be told.
    SendNotEnrolled,
    /// The key is wrapped, and the agent is to be told.
    SendReady(M),
    /// A request is awaited.
    AwaitRequest(M),
    /// The wrapped key is to be decrypted.
    Decrypt(M),
    /// This key is to be announced.
    SendSuccess(M, K),
    /// This key is to be sent.
    SendKey(M, K),
    /// The key could not be unlocked, and this is to be reported.
    ReportUnavailable(M, E),
    /// This is the whole answer to the request.
    SendStatus(M, u8),
    /// The helper is done.
    Exited(Result<(), HelperError>),
}

/// What came of the helper's last action.
pub enum HelperEvent {
    /// The bytes are sent.
    Sent,
    /// The report is made.
    Reported,
    /// The vault key has come, at the front of a buffer.
    Key(KeyBuffer),
    /// A byte has come.
    Byte(u8),
    /// The pipe failed.
    PipeFailed(PipeError),
    /// The vault key is wrapped.
    Enrolled(KeyMaterial),
    /// The vault key could not be wrapped.
    NotEnrolled(UnlockError),
    /// The enclave answered this to the request to decrypt; a key that came of it
    /// is to be kept in the buffer.
    Decrypted(Result<Vec<u8>, AuthenticationError>, KeyBuffer),
}

/// The mathematical counterpart of [`HelperEvent`].
pub enum HelperInput {
    Sent,
    Reported,
    Key(Seq<u8>),
    Byte(u8),
    PipeFailed(PipeError),
    Enrolled(Seq<u8>),
    NotEnrolled(Reason),
    Decrypted(Result<Seq<u8>, Refusal>),
}

impl View for HelperEvent {
    type V = HelperInput;

    open spec fn view(&self) -> HelperInput {
        match self {
            HelperEvent::Sent => HelperInput::Sent,
            HelperEvent::Reported => HelperInput::Reported,
            HelperEvent::Key(key) => HelperInput::Key(key@),
            HelperEvent::Byte(byte) => HelperInput::Byte(*byte),
            HelperEvent::PipeFailed(error) => HelperInput::PipeFailed(*error),
            HelperEvent::Enrolled(material) => HelperInput::Enrolled(material@),
            HelperEvent::NotEnrolled(error) => HelperInput::NotEnrolled(error@),
            HelperEvent::Decrypted(decrypted, _) => HelperInput::Decrypted(decryption(*decrypted)),
        }
    }
}

/// What the helper is to do next.
pub enum HelperAction<'a> {
    /// Send this byte to the agent.
    SendStatus(u8),
    /// Send these bytes, the vault key, to the agent.
    SendKey(&'a [u8]),
    /// Read this many bytes into the front of a zeroed buffer, and answer with
    /// the buffer.
    ReadKey(usize),
    /// Wrap these bytes, the vault key.
    Enroll(&'a [u8]),
    /// Write this line to the error stream.
    Report(String),
    /// Read one byte from the agent.
    ReadRequest,
    /// Have the enclave decrypt these bytes, the wrapped key, in this way.
    Decrypt(Algorithm, &'a [u8]),
    Exit,
}

/// The mathematical counterpart of [`HelperAction`].
pub enum HelperDemand {
    SendStatus(u8),
    SendKey(Seq<u8>),
    ReadKey(usize),
    Enroll(Seq<u8>),
    Report(Seq<char>),
    ReadRequest,
    Decrypt(Algorithm, Seq<u8>),
    Exit,
}

impl<'a> View for HelperAction<'a> {
    type V = HelperDemand;

    open spec fn view(&self) -> HelperDemand {
        match self {
            HelperAction::SendStatus(status) => HelperDemand::SendStatus(*status),
            HelperAction::SendKey(key) => HelperDemand::SendKey(key@),
            HelperAction::ReadKey(len) => HelperDemand::ReadKey(*len),
            HelperAction::Enroll(key) => HelperDemand::Enroll(key@),
            HelperAction::Report(line) => HelperDemand::Report(line@),
            HelperAction::ReadRequest => HelperDemand::ReadRequest,
            HelperAction::Decrypt(algorithm, wrapped) => HelperDemand::Decrypt(
                *algorithm,
                wrapped@,
            ),
            HelperAction::Exit => HelperDemand::Exit,
        }
    }
}

/// A phase of the helper, by view.
pub type HelperState = HelperPhase<Seq<u8>, Seq<u8>, Reason>;

/// What the helper is to do in a phase.
pub open spec fn helper_demand(phase: HelperState) -> HelperDemand {
    match phase {
        HelperPhase::SendHardened => HelperDemand::SendStatus(RESPONSE_HARDENED),
        HelperPhase::ReadKey => HelperDemand::ReadKey(VAULT_KEY_LEN),
        HelperPhase::Enroll(key) => HelperDemand::Enroll(at_most(key, VAULT_KEY_LEN as nat)),
        HelperPhase::ReportNotEnrolled(reason) => HelperDemand::Report(
            "failed to initialize biometric helper: "@ + reason.message(),
        ),
        HelperPhase::SendNotEnrolled => HelperDemand::SendStatus(RESPONSE_UNAVAILABLE),
        HelperPhase::SendReady(_) => HelperDemand::SendStatus(RESPONSE_READY),
        HelperPhase::AwaitRequest(_) => HelperDemand::ReadRequest,
        HelperPhase::Decrypt(wrapped) => HelperDemand::Decrypt(WRAPPING_ALGORITHM, wrapped),
        HelperPhase::SendSuccess(_, _) => HelperDemand::SendStatus(RESPONSE_SUCCESS),
        HelperPhase::SendKey(_, key) => HelperDemand::SendKey(key),
        HelperPhase::ReportUnavailable(_, reason) => HelperDemand::Report(reason.message()),
        HelperPhase::SendStatus(_, status) => HelperDemand::SendStatus(status),
        HelperPhase::Exited(_) => HelperDemand::Exit,
    }
}

/// The phase in which the helper answers a request, by what the decryption
/// amounts to.
pub open spec fn answer_phase(wrapped: Seq<u8>, key: Result<Seq<u8>, Reason>) -> HelperState {
    match key {
        Ok(key) => HelperPhase::SendSuccess(wrapped, key),
        Err(Reason::Canceled) => HelperPhase::SendStatus(wrapped, RESPONSE_CANCELED),
        Err(Reason::PasswordRequested) => HelperPhase::SendStatus(
            wrapped,
            RESPONSE_PASSWORD_REQUESTED,
        ),
        Err(Reason::Unavailable(text)) => HelperPhase::ReportUnavailable(
            wrapped,
            Reason::Unavailable(text),
        ),
    }
}

/// The phase after an event; one that does not answer the phase's action is
/// ignored. A buffer that holds less than a vault key does not answer the request
/// to read one.
pub open spec fn helper_step(phase: HelperState, event: HelperInput) -> HelperState {
    match (phase, event) {
        (HelperPhase::SendHardened, HelperInput::Sent) => HelperPhase::ReadKey,
        (HelperPhase::ReadKey, HelperInput::Key(key)) => if key.len() >= VAULT_KEY_LEN {
            HelperPhase::Enroll(key)
        } else {
            HelperPhase::ReadKey
        },
        (HelperPhase::Enroll(_), HelperInput::Enrolled(wrapped)) => HelperPhase::SendReady(wrapped),
        (HelperPhase::Enroll(_), HelperInput::NotEnrolled(reason)) => {
            HelperPhase::ReportNotEnrolled(reason)
        },
        (HelperPhase::ReportNotEnrolled(_), HelperInput::Reported) => HelperPhase::SendNotEnrolled,
        (HelperPhase::SendNotEnrolled, HelperInput::Sent) => HelperPhase::Exited(Ok(())),
        (HelperPhase::SendReady(wrapped), HelperInput::Sent) => HelperPhase::AwaitRequest(wrapped),
        (HelperPhase::AwaitRequest(wrapped), HelperInput::Byte(request)) => {
            if request == REQUEST_UNLOCK {
                HelperPhase::Decrypt(wrapped)
            } else {
                HelperPhase::Exited(Err(HelperError::UnknownRequest(request)))
            }
        },
        (HelperPhase::AwaitRequest(_), HelperInput::PipeFailed(error)) => {
            if error == PipeError::UnexpectedEof {
                HelperPhase::Exited(Ok(()))
            } else {
                HelperPhase::Exited(Err(HelperError::Pipe(error)))
            }
        },
        (HelperPhase::Decrypt(wrapped), HelperInput::Decrypted(decrypted)) => {
            answer_phase(wrapped, decryption_key(decrypted))
        },
        (HelperPhase::SendSuccess(wrapped, key), HelperInput::Sent) => {
            HelperPhase::SendKey(wrapped, key)
        },
        (HelperPhase::SendKey(wrapped, _), HelperInput::Sent) => HelperPhase::AwaitRequest(wrapped),
        (HelperPhase::ReportUnavailable(wrapped, _), HelperInput::Reported) => {
            HelperPhase::SendStatus(wrapped, RESPONSE_UNAVAILABLE)
        },
        (HelperPhase::SendStatus(wrapped, _), HelperInput::Sent) => {
            HelperPhase::AwaitRequest(wrapped)
        },
        (
            HelperPhase::SendHardened | HelperPhase::ReadKey | HelperPhase::SendNotEnrolled
            | HelperPhase::SendReady(_) | HelperPhase::SendSuccess(_, _)
            | HelperPhase::SendKey(_, _) | HelperPhase::SendStatus(_, _),
            HelperInput::PipeFailed(error),
        ) => HelperPhase::Exited(Err(HelperError::Pipe(error))),
        (phase, _) => phase,
    }
}

/// The helper process, once it is protected.
pub struct HelperMain {
    phase: HelperPhase<KeyBuffer, KeyMaterial, UnlockError>,
}

impl View for HelperMain {
    type V = HelperState;

    closed spec fn view(&self) -> HelperState {
        match self.phase {
            HelperPhase::SendHardened => HelperPhase::SendHardened,
            HelperPhase::ReadKey => HelperPhase::ReadKey,
            HelperPhase::Enroll(key) => HelperPhase::Enroll(key@),
            HelperPhase::ReportNotEnrolled(error) => HelperPhase::ReportNotEnrolled(error@),
            HelperPhase::SendNotEnrolled => HelperPhase::SendNotEnrolled,
            HelperPhase::SendReady(material) => HelperPhase::SendReady(material@),
            HelperPhase::AwaitRequest(material) => HelperPhase::AwaitRequest(material@),
            HelperPhase::Decrypt(material) => HelperPhase::Decrypt(material@),
            HelperPhase::SendSuccess(material, key) => HelperPhase::SendSuccess(material@, key@),
            HelperPhase::SendKey(material, key) => HelperPhase::SendKey(material@, key@),
            HelperPhase::ReportUnavailable(material, error) => HelperPhase::ReportUnavailable(
                material@,
                error@,
            ),
            HelperPhase::SendStatus(material, status) => HelperPhase::SendStatus(
                material@,
                status,
            ),
            HelperPhase::Exited(result) => HelperPhase::Exited(result),
        }
    }
}

/// Begins the helper's work. The process must be protected by now.
pub fn helper_main() -> (helper: HelperMain)
    ensures
        helper@ == HelperState::SendHardened,
{
    HelperMain { phase: HelperPhase::SendHardened }
}

impl HelperMain {
    /// What the helper is to do next.
    pub fn action(&self) -> (action: HelperAction<'_>)
        ensures
            action@ == helper_demand(self@),
    {
        match &self.phase {
            HelperPhase::SendHardened => HelperAction::SendStatus(RESPONSE_HARDENED),
            HelperPhase::ReadKey => HelperAction::ReadKey(VAULT_KEY_LEN),
            HelperPhase::Enroll(key) => {
                let data = key.data();
                if VAULT_KEY_LEN <= data.len() {
                    HelperAction::Enroll(slice_subrange(data, 0, VAULT_KEY_LEN))
                } else {
                    HelperAction::Enroll(data)
                }
            },
            HelperPhase::ReportNotEnrolled(error) => {
                let message = error.message();
                HelperAction::Report(
                    "failed to initialize biometric helper: ".to_owned().concat(message.as_str()),
                )
            },
            HelperPhase::SendNotEnrolled => HelperAction::SendStatus(RESPONSE_UNAVAILABLE),
            HelperPhase::SendReady(_) => HelperAction::SendStatus(RESPONSE_READY),
            HelperPhase::AwaitRequest(_) => HelperAction::ReadRequest,
            HelperPhase::Decrypt(material) => HelperAction::Decrypt(
                WRAPPING_ALGORITHM,
                material.wrapped_vault_key(),
            ),
            HelperPhase::SendSuccess(_, _) => HelperAction::SendStatus(RESPONSE_SUCCESS),
            HelperPhase::SendKey(_, key) => HelperAction::SendKey(key.data()),
            HelperPhase::ReportUnavailable(_, error) => HelperAction::Report(error.message()),
            HelperPhase::SendStatus(_, status) => HelperAction::SendStatus(*status),
            HelperPhase::Exited(_) => HelperAction::Exit,
        }
    }

    /// Goes on with what came of the action. A key in the clear that the next
    /// phase does not need is wiped.
    pub fn step(self, event: HelperEvent) -> (next: HelperMain)
        ensures
            next@ == helper_step(self@, event@),
    {
        let phase = match (self.phase, event) {
            (HelperPhase::SendHardened, HelperEvent::Sent) => HelperPhase::ReadKey,
            (HelperPhase::ReadKey, HelperEvent::Key(key)) => {
                if key.data().len() >= VAULT_KEY_LEN {
                    HelperPhase::Enroll(key)
                } else {
                    HelperPhase::ReadKey
                }
            },
            (HelperPhase::Enroll(_), HelperEvent::Enrolled(material)) => HelperPhase::SendReady(
                material,
            ),
            (HelperPhase::Enroll(_), HelperEvent::NotEnrolled(error)) => {
                HelperPhase::ReportNotEnrolled(error)
            },
            (HelperPhase::ReportNotEnrolled(_), HelperEvent::Reported) => {
                HelperPhase::SendNotEnrolled
            },
            (HelperPhase::SendNotEnrolled, HelperEvent::Sent) => HelperPhase::Exited(Ok(())),
            (HelperPhase::SendReady(material), HelperEvent::Sent) => HelperPhase::AwaitRequest(
                material,
            ),
            (HelperPhase::AwaitRequest(material), HelperEvent::Byte(request)) => {
                if request == REQUEST_UNLOCK {
                    HelperPhase::Decrypt(material)
                } else {
                    HelperPhase::Exited(Err(HelperError::UnknownRequest(request)))
                }
            },
            (HelperPhase::AwaitRequest(_), HelperEvent::PipeFailed(error)) => {
                if error == PipeError::UnexpectedEof {
                    HelperPhase::Exited(Ok(()))
                } else {
                    HelperPhase::Exited(Err(HelperError::Pipe(error)))
                }
            },
            (HelperPhase::Decrypt(material), HelperEvent::Decrypted(decrypted, locked)) => {
                let mut decrypted = decrypted;
                match KeyMaterial::unlock(&mut decrypted, locked) {
                    Ok(key) => HelperPhase::SendSuccess(material, key),
                    Err(UnlockError::Canceled) => HelperPhase::SendStatus(
                        material,
                        RESPONSE_CANCELED,
                    ),
                    Err(UnlockError::PasswordRequested) => HelperPhase::SendStatus(
                        material,
                        RESPONSE_PASSWORD_REQUESTED,
                    ),
                    Err(UnlockError::Unavailable(text)) => HelperPhase::ReportUnavailable(
                        material,
                        UnlockError::Unavailable(text),
                    ),
                }
            },
            (HelperPhase::SendSuccess(material, key), HelperEvent::Sent) => HelperPhase::SendKey(
                material,
                key,
            ),
            (HelperPhase::SendKey(material, _), HelperEvent::Sent) => HelperPhase::AwaitRequest(
                material,
            ),
            (HelperPhase::ReportUnavailable(material, _), HelperEvent::Reported) => {
                HelperPhase::SendStatus(material, RESPONSE_UNAVAILABLE)
            },
            (HelperPhase::SendStatus(material, _), HelperEvent::Sent) => {
                HelperPhase::AwaitRequest(material)
            },
            (HelperPhase::SendHardened, HelperEvent::PipeFailed(error)) => HelperPhase::Exited(
                Err(HelperError::Pipe(error)),
            ),
            (HelperPhase::ReadKey, HelperEvent::PipeFailed(error)) => HelperPhase::Exited(
                Err(HelperError::Pipe(error)),
            ),
            (HelperPhase::SendNotEnrolled, HelperEvent::PipeFailed(error)) => HelperPhase::Exited(
                Err(HelperError::Pipe(error)),
            ),
            (HelperPhase::SendReady(_), HelperEvent::PipeFailed(error)) => HelperPhase::Exited(
                Err(HelperError::Pipe(error)),
            ),
            (HelperPhase::SendSuccess(_, _), HelperEvent::PipeFailed(error)) => {
                HelperPhase::Exited(Err(HelperError::Pipe(error)))
            },
            (HelperPhase::SendKey(_, _), HelperEvent::PipeFailed(error)) => HelperPhase::Exited(
                Err(HelperError::Pipe(error)),
            ),
            (HelperPhase::SendStatus(_, _), HelperEvent::PipeFailed(error)) => HelperPhase::Exited(
                Err(HelperError::Pipe(error)),
            ),
            (phase, _) => phase,
        };
        HelperMain { phase }
    }

    /// How the helper ended, once it has.
    pub fn finish(self) -> (outcome: Option<Result<(), HelperError>>)
        ensures
            match self@ {
                HelperPhase::Exited(result) => outcome == Some(result),
                _ => outcome is None,
            },
    {
        match self.phase {
            HelperPhase::Exited(result) => Some(result),
            _ => None,
        }
    }
}

/// How far the helper has come after `events`.
pub open spec fn helper_run(events: Seq<HelperInput>) -> HelperState
    decreases events.len(),
{
    if events.len() == 0 {
        HelperPhase::SendHardened
    } else {
        helper_step(helper_run(events.drop_last()), events.last())
    }
}

/// The key that the helper wraps is whole: whatever the events, what it asks to
/// have wrapped is as long as a vault key, and the buffer that it is taken from is
/// one that was read for it.
pub proof fn wrapped_key_is_whole(events: Seq<HelperInput>)
    ensures
        helper_demand(helper_run(events)) matches HelperDemand::Enroll(key) ==> key.len()
            == VAULT_KEY_LEN,
        helper_run(events) matches HelperPhase::Enroll(buffer) ==> buffer.len() >= VAULT_KEY_LEN
            && exists|i: int|
            {
                &&& 0 <= i < events.len()
                &&& helper_run(events.take(i)) is ReadKey
                &&& (#[trigger] events[i]) == HelperInput::Key(buffer)
            },
    decreases events.len(),
{
    if events.len() != 0 {
        let before = events.drop_last();
        wrapped_key_is_whole(before);
        if let HelperPhase::Enroll(buffer) = helper_run(events) {
            if helper_run(before) is Enroll {
                let i = choose|i: int|
                    {
                        &&& 0 <= i < before.len()
                        &&& helper_run(before.take(i)) is ReadKey
                        &&& (#[trigger] before[i]) == HelperInput::Key(buffer)
                    };
                assert(events.take(i) =~= before.take(i));
                assert(events[i] == before[i]);
            } else {
                let i = events.len() - 1;
                assert(events.take(i) =~= before);
                assert(events[i] == events.last());
            }
        }
    }
}

/// The key in the clear that the helper announces or sends.
pub open spec fn key_to_send(phase: HelperState) -> Option<Seq<u8>> {
    match phase {
        HelperPhase::SendSuccess(_, key) => Some(key),
        HelperPhase::SendKey(_, key) => Some(key),
        _ => None,
    }
}

/// The helper was asked at `asked`, while it awaited a request, and the enclave
/// then decrypted the wrapped key to `key` at `decrypted`.
pub open spec fn asked_and_decrypted(
    events: Seq<HelperInput>,
    asked: int,
    decrypted: int,
    key: Seq<u8>,
) -> bool {
    &&& 0 <= asked < decrypted < events.len()
    &&& helper_run(events.take(asked)) is AwaitRequest
    &&& events[asked] == HelperInput::Byte(REQUEST_UNLOCK)
    &&& helper_run(events.take(decrypted)) is Decrypt
    &&& events[decrypted] == HelperInput::Decrypted(Ok(key))
}

/// A key in the clear leaves the helper on request only: whatever happens to the
/// helper, a key that it announces or sends is as long as a vault key, and is
/// what the enclave made of the wrapped key after the agent had asked for it.
pub proof fn key_leaves_only_on_request(events: Seq<HelperInput>)
    ensures
        helper_run(events) is Decrypt ==> exists|asked: int|
            {
                &&& 0 <= asked < events.len()
                &&& (#[trigger] events[asked]) == HelperInput::Byte(REQUEST_UNLOCK)
                &&& helper_run(events.take(asked)) is AwaitRequest
            },
        key_to_send(helper_run(events)) matches Some(key) ==> key.len() == VAULT_KEY_LEN,
        key_to_send(helper_run(events)) matches Some(key) ==> exists|asked: int, decrypted: int|
            asked_and_decrypted(events, asked, decrypted, key),
    decreases events.len(),
{
    if events.len() != 0 {
        let before = events.drop_last();
        let last = events.len() - 1;
        key_leaves_only_on_request(before);
        assert(events.take(last) =~= before);
        assert(events[last] == events.last());
        if helper_run(before) is Decrypt {
            let asked = choose|asked: int|
                {
                    &&& 0 <= asked < before.len()
                    &&& (#[trigger] before[asked]) == HelperInput::Byte(REQUEST_UNLOCK)
                    &&& helper_run(before.take(asked)) is AwaitRequest
                };
            assert(events.take(asked) =~= before.take(asked));
            assert(events[asked] == before[asked]);
            if let Some(key) = key_to_send(helper_run(events)) {
                assert(asked_and_decrypted(events, asked, last, key));
            }
        } else if let Some(key) = key_to_send(helper_run(events)) {
            let (asked, decrypted) = choose|asked: int, decrypted: int|
                asked_and_decrypted(before, asked, decrypted, key);
            assert(events.take(asked) =~= before.take(asked));
            assert(events.take(decrypted) =~= before.take(decrypted));
            assert(asked_and_decrypted(events, asked, decrypted, key));
        }
    }
}

/// Once the helper holds a wrapped key, no request, refusal or failure replaces
/// it: every step keeps it or ends the helper.
pub proof fn wrapped_key_is_kept(phase: HelperState, event: HelperInput)
    ensures
        wrapped_key(phase) matches Some(wrapped) ==> wrapped_key(helper_step(phase, event)) == Some(
            wrapped,
        ) || helper_step(phase, event) is Exited,
{
}

/// A helper that has ended does nothing more, and its outcome stays.
pub proof fn ended_helper_stays_ended(phase: HelperState, event: HelperInput)
    requires
        phase is Exited,
    ensures
        helper_step(phase, event) == phase,
        helper_demand(phase) == HelperDemand::Exit,
{
}

/// What is wrapped in one way is unwrapped in the same: whatever the enclave is
/// asked to encrypt when the vault key is wrapped, and to decrypt on a request,
/// it is asked for with the same algorithm.
pub proof fn wrapping_and_unwrapping_agree(
    enroll_phase: EnrollPhase<Seq<u8>, Reason>,
    vault_key: Seq<u8>,
    phase: HelperState,
)
    ensures
        enroll_demand(enroll_phase, vault_key) matches EnrollDemand::Encrypt(encrypting, _) ==> (
        helper_demand(phase) matches HelperDemand::Decrypt(decrypting, _) ==> encrypting
            == decrypting),
{
}

/// The wrapped key that the helper holds, once it does.
pub open spec fn wrapped_key(phase: HelperState) -> Option<Seq<u8>> {
    match phase {
        HelperPhase::SendReady(wrapped) => Some(wrapped),
        HelperPhase::AwaitRequest(wrapped) => Some(wrapped),
        HelperPhase::Decrypt(wrapped) => Some(wrapped),
        HelperPhase::SendSuccess(wrapped, _) => Some(wrapped),
        HelperPhase::SendKey(wrapped, _) => Some(wrapped),
        HelperPhase::ReportUnavailable(wrapped, _) => Some(wrapped),
        HelperPhase::SendStatus(wrapped, _) => Some(wrapped),
        _ => None,
    }
}

/// A helper starts in one way: it says that it is protected, reads a vault key of
/// 64 bytes, has that wrapped, and says that it is ready, or, if it could not be
/// wrapped, reports why, says that it is unavailable and ends in good order.
pub proof fn helper_takes_its_course(buffer: Seq<u8>, wrapped: Seq<u8>, reason: Reason)
    requires
        buffer.len() >= 64,
    ensures
        ({
            let sent = HelperInput::Sent;
            let key = HelperInput::Key(buffer);
            let enrolled = HelperInput::Enrolled(wrapped);
            let refused = HelperInput::NotEnrolled(reason);
            let reported = HelperInput::Reported;
            &&& helper_demand(helper_run(seq![])) == HelperDemand::SendStatus(4)
            &&& helper_demand(helper_run(seq![sent])) == HelperDemand::ReadKey(64)
            &&& helper_demand(helper_run(seq![sent, key])) == HelperDemand::Enroll(buffer.take(64))
            &&& helper_demand(helper_run(seq![sent, key, enrolled])) == HelperDemand::SendStatus(5)
            &&& helper_demand(helper_run(seq![sent, key, enrolled, sent]))
                == HelperDemand::ReadRequest
            &&& helper_demand(helper_run(seq![sent, key, refused])) == HelperDemand::Report(
                "failed to initialize biometric helper: "@ + reason.message(),
            )
            &&& helper_demand(helper_run(seq![sent, key, refused, reported]))
                == HelperDemand::SendStatus(3)
            &&& helper_run(seq![sent, key, refused, reported, sent]) == HelperState::Exited(Ok(()))
        }),
{
    reveal_with_fuel(helper_run, 7);
    let sent = HelperInput::Sent;
    let key = HelperInput::Key(buffer);
    let enrolled = HelperInput::Enrolled(wrapped);
    let refused = HelperInput::NotEnrolled(reason);
    let reported = HelperInput::Reported;
    assert(seq![sent].drop_last() =~= seq![]);
    assert(seq![sent, key].drop_last() =~= seq![sent]);
    assert(seq![sent, key, enrolled].drop_last() =~= seq![sent, key]);
    assert(seq![sent, key, enrolled, sent].drop_last() =~= seq![sent, key, enrolled]);
    assert(seq![sent, key, refused].drop_last() =~= seq![sent, key]);
    assert(seq![sent, key, refused, reported].drop_last() =~= seq![sent, key, refused]);
    assert(seq![sent, key, refused, reported, sent].drop_last() =~= seq![
        sent,
        key,
        refused,
        reported,
    ]);
}

/// `wrapped` is what wrapping the vault key came to, at `i`.
pub open spec fn enrolled_at(events: Seq<HelperInput>, i: int, wrapped: Seq<u8>) -> bool {
    &&& 0 <= i < events.len()
    &&& helper_run(events.take(i)) is Enroll
    &&& events[i] == HelperInput::Enrolled(wrapped)
}

/// The enclave is asked to decrypt what it encrypted: whatever happens to the
/// helper, the bytes that it hands to the enclave are the whole of what wrapping
/// the vault key came to, which happens but once.
pub proof fn decryption_is_of_the_wrapped_key(events: Seq<HelperInput>)
    ensures
        helper_demand(helper_run(events)) matches HelperDemand::Decrypt(algorithm, bytes) ==> {
            &&& algorithm == Algorithm::EciesCofactorX963Sha256AesGcm
            &&& exists|i: int| enrolled_at(events, i, bytes)
            &&& forall|i: int, wrapped: Seq<u8>|
                enrolled_at(events, i, wrapped) ==> wrapped == bytes
        },
        wrapped_key(helper_run(events)) matches Some(held) ==> (exists|i: int|
            enrolled_at(events, i, held)),
        forall|i: int, wrapped: Seq<u8>| #[trigger]
            enrolled_at(events, i, wrapped) ==> wrapped_key(helper_run(events)) == Some(wrapped)
                || helper_run(events) is Exited,
    decreases events.len(),
{
    if events.len() != 0 {
        let before = events.drop_last();
        let last = events.len() - 1;
        decryption_is_of_the_wrapped_key(before);
        assert(events.take(last) =~= before);
        assert(events[last] == events.last());
        assert forall|i: int, wrapped: Seq<u8>| i < last implies (#[trigger] enrolled_at(
            events,
            i,
            wrapped,
        ) <==> enrolled_at(before, i, wrapped)) by {
            if 0 <= i < last {
                assert(events.take(i) =~= before.take(i));
            }
        }
        if let Some(held) = wrapped_key(helper_run(events)) {
            if wrapped_key(helper_run(before)) is Some {
                let i = choose|i: int| enrolled_at(before, i, held);
                assert(enrolled_at(events, i, held));
            } else {
                assert(enrolled_at(events, last, held));
            }
        }
        assert forall|i: int, wrapped: Seq<u8>| #[trigger] enrolled_at(
            events,
            i,
            wrapped,
        ) implies wrapped_key(helper_run(events)) == Some(wrapped) || helper_run(
            events,
        ) is Exited by {
            if i < last {
                assert(enrolled_at(before, i, wrapped));
                wrapped_key_is_kept(helper_run(before), events.last());
            }
        }
        if let HelperDemand::Decrypt(_, bytes) = helper_demand(helper_run(events)) {
            assert(wrapped_key(helper_run(events)) == Some(bytes));
            assert(exists|i: int| enrolled_at(events, i, bytes));
            assert forall|i: int, wrapped: Seq<u8>| enrolled_at(
                events,
                i,
                wrapped,
            ) implies wrapped == bytes by {
                assert(!(helper_run(events) is Exited));
            }
        }
    }
}

/// While the helper awaits a request, the end of the stream ends it in good
/// order, whatever it holds; any other failure of the pipe, and any byte that is
/// no request, ends it with that; and the request is obeyed.
pub proof fn waiting_helper_obeys_or_ends(events: Seq<HelperInput>, request: u8, error: PipeError)
    requires
        helper_demand(helper_run(events)) == HelperDemand::ReadRequest,
    ensures
        helper_run(events.push(HelperInput::PipeFailed(error))) == HelperState::Exited(
            if error == PipeError::UnexpectedEof {
                Ok(())
            } else {
                Err(HelperError::Pipe(error))
            },
        ),
        request != 1 ==> helper_run(events.push(HelperInput::Byte(request))) == HelperState::Exited(
            Err(HelperError::UnknownRequest(request)),
        ),
        request == 1 ==> helper_demand(
            helper_run(events.push(HelperInput::Byte(request))),
        ) is Decrypt,
{
    assert(events.push(HelperInput::PipeFailed(error)).drop_last() =~= events);
    assert(events.push(HelperInput::Byte(request)).drop_last() =~= events);
}

/// Everywhere else that the helper uses the pipe, a failure of it, the end of the
/// stream included, ends the helper with that failure.
pub proof fn broken_pipe_ends_the_helper(events: Seq<HelperInput>, error: PipeError)
    ensures
        match helper_demand(helper_run(events)) {
            HelperDemand::SendStatus(_)
            | HelperDemand::SendKey(_)
            | HelperDemand::ReadKey(_) => helper_run(events.push(HelperInput::PipeFailed(error)))
                == HelperState::Exited(Err(HelperError::Pipe(error))),
            HelperDemand::Exit => helper_run(events) is Exited,
            _ => true,
        },
{
    assert(events.push(HelperInput::PipeFailed(error)).drop_last() =~= events);
}

/// A helper ends only for a cause: a pipe that failed, a byte that is no request,
/// or a vault key that could not be wrapped.
pub proof fn helper_ends_only_for_a_cause(events: Seq<HelperInput>)
    ensures
        (forall|i: int|
            0 <= i < events.len() ==> match #[trigger] events[i] {
                HelperInput::PipeFailed(_) | HelperInput::NotEnrolled(_) => false,
                HelperInput::Byte(request) => request == 1,
                _ => true,
            }) ==> match helper_run(events) {
            HelperPhase::Exited(_)
            | HelperPhase::ReportNotEnrolled(_)
            | HelperPhase::SendNotEnrolled => false,
            _ => true,
        },
    decreases events.len(),
{
    if events.len() != 0 {
        let before = events.drop_last();
        helper_ends_only_for_a_cause(before);
        assert(events[events.len() - 1] == events.last());
        assert(forall|i: int| 0 <= i < before.len() ==> #[trigger] before[i] == events[i]);
    }
}

/// A plaintext of 64 bytes is announced, sent as it is, and done with; any other
/// one is reported and answered as unavailable. Either way the helper then awaits
/// the next request.
pub proof fn plaintexts_are_answered(events: Seq<HelperInput>, plaintext: Seq<u8>)
    requires
        helper_demand(helper_run(events)) is Decrypt,
    ensures
        ({
            let sent = HelperInput::Sent;
            let got = events.push(HelperInput::Decrypted(Ok(plaintext)));
            &&& plaintext.len() == 64 ==> {
                &&& helper_demand(helper_run(got)) == HelperDemand::SendStatus(0)
                &&& helper_demand(helper_run(got.push(sent))) == HelperDemand::SendKey(plaintext)
                &&& helper_demand(helper_run(got.push(sent).push(sent)))
                    == HelperDemand::ReadRequest
            }
            &&& plaintext.len() != 64 ==> {
                &&& helper_demand(helper_run(got)) == HelperDemand::Report(
                    "Touch ID is unavailable: "@
                        + "Secure Enclave returned an invalid vault key"@,
                )
                &&& helper_demand(helper_run(got.push(HelperInput::Reported)))
                    == HelperDemand::SendStatus(3)
                &&& helper_demand(helper_run(got.push(HelperInput::Reported).push(sent)))
                    == HelperDemand::ReadRequest
            }
        }),
{
    reveal_with_fuel(helper_run, 4);
    let sent = HelperInput::Sent;
    let reported = HelperInput::Reported;
    let got = events.push(HelperInput::Decrypted(Ok(plaintext)));
    assert(got.drop_last() =~= events);
    assert(got.push(sent).drop_last() =~= got);
    assert(got.push(sent).push(sent).drop_last() =~= got.push(sent));
    assert(got.push(reported).drop_last() =~= got);
    assert(got.push(reported).push(sent).drop_last() =~= got.push(reported));
}

/// A refusal is answered by what the user meant: with one byte if the user
/// canceled, with another if the user wants the password, and otherwise, after a
/// report in the refusal's own words, as unavailable. The helper then awaits the
/// next request.
pub proof fn refusals_are_answered(events: Seq<HelperInput>, refusal: Refusal)
    requires
        helper_demand(helper_run(events)) is Decrypt,
    ensures
        ({
            let sent = HelperInput::Sent;
            let got = events.push(HelperInput::Decrypted(Err(refusal)));
            let canceled = {
                ||| refusal.domain == "com.apple.LocalAuthentication"@ && refusal.code == -2
                ||| refusal.domain == "NSOSStatusErrorDomain"@ && refusal.code == -128
            };
            let password = refusal.domain == "com.apple.LocalAuthentication"@ && refusal.code
                == -3;
            &&& canceled ==> helper_demand(helper_run(got)) == HelperDemand::SendStatus(1)
            &&& password ==> helper_demand(helper_run(got)) == HelperDemand::SendStatus(2)
            &&& canceled || password ==> helper_demand(helper_run(got.push(sent)))
                == HelperDemand::ReadRequest
            &&& !canceled && !password ==> {
                &&& helper_demand(helper_run(got)) == HelperDemand::Report(
                    "Touch ID is unavailable: "@ + refusal.description,
                )
                &&& helper_demand(helper_run(got.push(HelperInput::Reported)))
                    == HelperDemand::SendStatus(3)
                &&& helper_demand(helper_run(got.push(HelperInput::Reported).push(sent)))
                    == HelperDemand::ReadRequest
            }
        }),
{
    reveal_with_fuel(helper_run, 4);
    let sent = HelperInput::Sent;
    let reported = HelperInput::Reported;
    let got = events.push(HelperInput::Decrypted(Err(refusal)));
    assert(got.drop_last() =~= events);
    assert(got.push(sent).drop_last() =~= got);
    assert(got.push(reported).drop_last() =~= got);
    assert(got.push(reported).push(sent).drop_last() =~= got.push(reported));
}

/// What the helper did not ask for changes nothing: it goes on as before, whatever
/// it is told that does not answer its last action. A buffer that is shorter than
/// the key that was to be read does not.
pub proof fn helper_ignores_what_it_did_not_ask(events: Seq<HelperInput>, event: HelperInput)
    ensures
        match helper_demand(helper_run(events)) {
            HelperDemand::SendStatus(_)
            | HelperDemand::SendKey(_) => event is Sent || event is PipeFailed,
            HelperDemand::ReadKey(len) => event is PipeFailed || (event matches HelperInput::Key(
                buffer,
            ) && buffer.len() >= len),
            HelperDemand::Enroll(_) => event is Enrolled || event is NotEnrolled,
            HelperDemand::Report(_) => event is Reported,
            HelperDemand::ReadRequest => event is Byte || event is PipeFailed,
            HelperDemand::Decrypt(_, _) => event is Decrypted,
            HelperDemand::Exit => false,
        } || helper_run(events.push(event)) == helper_run(events),
{
    assert(events.push(event).drop_last() =~= events);
}

/// How a helper ended is told in words that name a byte that is no request.
pub proof fn helper_failures_are_named(error: HelperError)
    ensures
        error matches HelperError::UnknownRequest(request) ==> error.text() == Some(
            "unknown biometric helper request "@ + decimal_digits(request as nat),
        ),
        error matches HelperError::Pipe(cause) ==> error.text() == match cause {
            PipeError::UnexpectedEof => Some("biometric helper pipe closed"@),
            PipeError::WriteZero => Some("failed to write biometric helper pipe"@),
            PipeError::TimedOut => Some("timed out waiting for biometric helper"@),
            PipeError::Os(_) => None,
        },
{
}

/// What is told to the helper, and asked by it, and what the mathematics says of
/// it, are the same thing.
pub proof fn helper_views_are_faithful(event: HelperEvent, action: HelperAction)
    ensures
        event is Sent <==> event@ is Sent,
        event is Reported <==> event@ is Reported,
        event matches HelperEvent::Key(key) ==> event@ == HelperInput::Key(key@),
        event matches HelperEvent::Byte(byte) ==> event@ == HelperInput::Byte(byte),
        event matches HelperEvent::PipeFailed(error) ==> event@ == HelperInput::PipeFailed(error),
        event matches HelperEvent::Enrolled(material) ==> event@ == HelperInput::Enrolled(
            material@,
        ),
        event matches HelperEvent::NotEnrolled(error) ==> event@ == HelperInput::NotEnrolled(
            error@,
        ),
        event matches HelperEvent::Decrypted(Ok(plaintext), _) ==> event@
            == HelperInput::Decrypted(Ok(plaintext@)),
        event matches HelperEvent::Decrypted(Err(error), _) ==> event@ == HelperInput::Decrypted(
            Err(error@),
        ),
        action matches HelperAction::SendStatus(status) ==> action@ == HelperDemand::SendStatus(
            status,
        ),
        action matches HelperAction::SendKey(key) ==> action@ == HelperDemand::SendKey(key@),
        action matches HelperAction::ReadKey(len) ==> action@ == HelperDemand::ReadKey(len),
        action matches HelperAction::Enroll(key) ==> action@ == HelperDemand::Enroll(key@),
        action matches HelperAction::Report(line) ==> action@ == HelperDemand::Report(line@),
        action is ReadRequest <==> action@ is ReadRequest,
        action matches HelperAction::Decrypt(algorithm, wrapped) ==> action@
            == HelperDemand::Decrypt(algorithm, wrapped@),
        action is Exit <==> action@ is Exit,
{
}

} // verus!
