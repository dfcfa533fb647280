//! The agent and the helper together.
//!
//! Two processes that talk over pipes are described by what each has yet to read
//! and has sent. Here a pipe fails in one way only: it ends, once the other side
//! has closed it. A process that finds nothing to read in an open pipe stands
//! still. The enclave answers to what it is asked.

use crate::enclave::decryption_key;
use crate::enclave::enroll_demand;
use crate::enclave::enroll_step;
use crate::enclave::Algorithm;
use crate::enclave::EnrollDemand;
use crate::enclave::EnrollEvent;
use crate::enclave::EnrollPhase;
use crate::enclave::Refusal;
use crate::error::Reason;
use crate::helper::helper_demand;
use crate::helper::helper_step;
use crate::helper::HelperDemand;
use crate::helper::HelperError;
use crate::helper::HelperInput;
use crate::helper::HelperPhase;
use crate::helper::HelperState;
use crate::keys::at_most;
use crate::keys::zeros;
use crate::keys::KEY_BUFFER_LEN;
use crate::keys::VAULT_KEY_LEN;
use crate::pipe::placed;
use crate::pipe::PipeError;
use crate::protocol::REQUEST_UNLOCK;
use crate::protocol::RESPONSE_CANCELED;
use crate::protocol::RESPONSE_HARDENED;
use crate::protocol::RESPONSE_PASSWORD_REQUESTED;
use crate::protocol::RESPONSE_READY;
use crate::protocol::RESPONSE_SUCCESS;
use crate::protocol::RESPONSE_UNAVAILABLE;
use crate::session::open_demand;
use crate::session::open_step;
use crate::session::unlock_action;
use crate::session::unlock_step;
use crate::session::HelperReply;
use crate::session::OpenDemand;
use crate::session::OpenPhase;
use crate::session::UnlockAction;
use crate::session::UnlockPhase;
use crate::wait::wait_run;
use crate::wait::waiting_ends_as_polled;
use crate::wait::waiting_finds_the_byte;
use crate::wait::waiting_is_bounded;
use crate::wait::Polled;
use crate::wait::Turn;
use crate::wait::WaitEnd;
use vstd::prelude::*;

verus! {

/// A zeroed key buffer with `bytes` read into its front.
pub open spec fn read_buffer(bytes: Seq<u8>) -> Seq<u8> {
    placed(zeros(KEY_BUFFER_LEN as nat), 0, bytes)
}

/// What the enclave answers to a request to decrypt.
pub type Decryption = Result<Seq<u8>, Refusal>;

/// How the enclave, and the user before it, answer to one request to decrypt, by
/// the algorithm and the bytes of the request.
pub type Unwrapping = spec_fn(Algorithm, Seq<u8>) -> Decryption;

/// What wrapping comes to, by the bytes that are to be wrapped.
pub type Wrapping = spec_fn(Seq<u8>) -> Result<Seq<u8>, Reason>;

/// The helper in the middle of its work.
pub struct HelperRun {
    pub phase: HelperState,
    /// The bytes from the agent that it has not read.
    pub unread: Seq<u8>,
    /// Whether the agent has closed the pipe behind them.
    pub closed: bool,
    /// How the requests to decrypt that are still to come will be answered.
    pub decryptions: Seq<Unwrapping>,
    /// All bytes that it has sent to the agent.
    pub sent: Seq<u8>,
}

impl HelperRun {
    /// The run after an action that came to `event`.
    pub open spec fn after(self, event: HelperInput) -> HelperRun {
        HelperRun { phase: helper_step(self.phase, event), ..self }
    }
}

/// One action of the helper, where wrapping comes to `enrolled`.
pub open spec fn helper_turn(enrolled: Wrapping, run: HelperRun) -> HelperRun {
    match helper_demand(run.phase) {
        HelperDemand::SendStatus(status) => HelperRun {
            sent: run.sent.push(status),
            ..run.after(HelperInput::Sent)
        },
        HelperDemand::SendKey(key) => HelperRun {
            sent: run.sent + key,
            ..run.after(HelperInput::Sent)
        },
        HelperDemand::ReadKey(len) => if len <= run.unread.len() {
            HelperRun {
                unread: run.unread.skip(len as int),
                ..run.after(HelperInput::Key(read_buffer(run.unread.take(len as int))))
            }
        } else if run.closed {
            run.after(HelperInput::PipeFailed(PipeError::UnexpectedEof))
        } else {
            run
        },
        HelperDemand::Enroll(key) => run.after(
            match enrolled(key) {
                Ok(wrapped) => HelperInput::Enrolled(wrapped),
                Err(reason) => HelperInput::NotEnrolled(reason),
            },
        ),
        HelperDemand::Report(_) => run.after(HelperInput::Reported),
        HelperDemand::ReadRequest => if run.unread.len() > 0 {
            HelperRun {
                unread: run.unread.skip(1),
                ..run.after(HelperInput::Byte(run.unread[0]))
            }
        } else if run.closed {
            run.after(HelperInput::PipeFailed(PipeError::UnexpectedEof))
        } else {
            run
        },
        HelperDemand::Decrypt(algorithm, bytes) => if run.decryptions.len() > 0 {
            HelperRun {
                decryptions: run.decryptions.skip(1),
                ..run.after(HelperInput::Decrypted((run.decryptions[0])(algorithm, bytes)))
            }
        } else {
            run
        },
        HelperDemand::Exit => run,
    }
}

/// `turns` actions of the helper.
pub open spec fn helper_turns(enrolled: Wrapping, run: HelperRun, turns: nat) -> HelperRun
    decreases turns,
{
    if turns == 0 {
        run
    } else {
        helper_turns(enrolled, helper_turn(enrolled, run), (turns - 1) as nat)
    }
}

/// The agent in the middle of opening a session.
pub struct OpenRun {
    pub phase: OpenPhase<Reason>,
    /// The bytes from the helper that it has not read.
    pub unread: Seq<u8>,
    /// How its waits for the helper go, by the time since each began.
    pub waits: Seq<Seq<Turn>>,
    /// All bytes that it has sent to the helper.
    pub sent: Seq<u8>,
}

/// One action of the agent that opens a session for `vault_key`.
pub open spec fn open_turn(vault_key: Seq<u8>, run: OpenRun) -> OpenRun {
    match open_demand(run.phase, vault_key) {
        OpenDemand::ReadInitResponse(timeout) => if run.waits.len() == 0 {
            run
        } else {
            match wait_run(timeout as int, 0, run.waits[0]) {
                WaitEnd::Waiting => run,
                WaitEnd::Readable(_) => if run.unread.len() > 0 {
                    OpenRun {
                        phase: open_step(run.phase, HelperReply::Byte(run.unread[0])),
                        unread: run.unread.skip(1),
                        waits: run.waits.skip(1),
                        ..run
                    }
                } else {
                    run
                },
                WaitEnd::Over(_, error) => match error.text() {
                    Some(text) => OpenRun {
                        phase: open_step(run.phase, HelperReply::Failed(text)),
                        waits: run.waits.skip(1),
                        ..run
                    },
                    None => run,
                },
            }
        },
        OpenDemand::Write(bytes) => OpenRun {
            phase: open_step(run.phase, HelperReply::Done),
            sent: run.sent + bytes,
            ..run
        },
        OpenDemand::Flush => OpenRun { phase: open_step(run.phase, HelperReply::Done), ..run },
        OpenDemand::Finish => run,
    }
}

/// `turns` actions of the agent that opens a session.
pub open spec fn open_turns(vault_key: Seq<u8>, run: OpenRun, turns: nat) -> OpenRun
    decreases turns,
{
    if turns == 0 {
        run
    } else {
        open_turns(vault_key, open_turn(vault_key, run), (turns - 1) as nat)
    }
}

/// The agent in the middle of an unlock.
pub struct UnlockRun {
    pub phase: UnlockPhase<Seq<u8>, Reason>,
    /// The bytes from the helper that it has not read.
    pub unread: Seq<u8>,
    /// The bytes that it has sent to the helper in this unlock.
    pub sent: Seq<u8>,
}

impl UnlockRun {
    /// The run after an action that came to `reply`.
    pub open spec fn after(self, reply: HelperReply<Seq<u8>, Seq<char>>) -> UnlockRun {
        UnlockRun { phase: unlock_step(self.phase, reply), ..self }
    }
}

/// One action of the agent in an unlock.
pub open spec fn unlock_turn(run: UnlockRun) -> UnlockRun {
    match unlock_action(run.phase) {
        UnlockAction::Lock | UnlockAction::Flush => run.after(HelperReply::Done),
        UnlockAction::Write(byte) => UnlockRun {
            sent: run.sent.push(byte),
            ..run.after(HelperReply::Done)
        },
        UnlockAction::ReadByte => if run.unread.len() > 0 {
            UnlockRun {
                unread: run.unread.skip(1),
                ..run.after(HelperReply::Byte(run.unread[0]))
            }
        } else {
            run
        },
        UnlockAction::ReadKey(len) => if len <= run.unread.len() {
            UnlockRun {
                unread: run.unread.skip(len as int),
                ..run.after(HelperReply::Key(read_buffer(run.unread.take(len as int))))
            }
        } else {
            run
        },
        UnlockAction::Finish => run,
    }
}

/// `turns` actions of the agent in an unlock.
pub open spec fn unlock_turns(run: UnlockRun, turns: nat) -> UnlockRun
    decreases turns,
{
    if turns == 0 {
        run
    } else {
        unlock_turns(unlock_turn(run), (turns - 1) as nat)
    }
}

/// The bytes with which the helper answers a request, by what the enclave
/// answered to it.
pub open spec fn answer(decryption: Decryption) -> Seq<u8> {
    match decryption_key(decryption) {
        Ok(key) => seq![RESPONSE_SUCCESS] + key,
        Err(Reason::Canceled) => seq![RESPONSE_CANCELED],
        Err(Reason::PasswordRequested) => seq![RESPONSE_PASSWORD_REQUESTED],
        Err(Reason::Unavailable(_)) => seq![RESPONSE_UNAVAILABLE],
    }
}

/// How an unlock ends, by what the enclave answered: with the key, or with the
/// user's choice, or with the one text that stands for every other failure.
pub open spec fn unlock_end(decryption: Decryption) -> UnlockPhase<Seq<u8>, Reason> {
    match decryption_key(decryption) {
        Ok(key) => UnlockPhase::Unlocked(key),
        Err(Reason::Unavailable(_)) => UnlockPhase::Failed(
            Reason::Unavailable("biometric helper could not unlock the vault key"@),
        ),
        Err(reason) => UnlockPhase::Failed(reason),
    }
}

/// The helper's answers to a number of requests, one after the other.
pub open spec fn answers(decryptions: Seq<Decryption>) -> Seq<u8>
    decreases decryptions.len(),
{
    if decryptions.len() == 0 {
        Seq::empty()
    } else {
        answer(decryptions[0]) + answers(decryptions.skip(1))
    }
}

/// A number of requests.
pub open spec fn requests(n: nat) -> Seq<u8> {
    Seq::new(n, |i: int| REQUEST_UNLOCK)
}

/// The agent that is about to begin an unlock, with `unread` to read.
pub open spec fn unlock_start(unread: Seq<u8>) -> UnlockRun {
    UnlockRun { phase: UnlockPhase::Lock, unread, sent: Seq::empty() }
}

/// How `n` unlocks end, one after the other.
pub open spec fn unlock_ends(unread: Seq<u8>, n: nat) -> Seq<UnlockPhase<Seq<u8>, Reason>>
    decreases n,
{
    if n == 0 {
        Seq::empty()
    } else {
        let end = unlock_turns(unlock_start(unread), 6);
        seq![end.phase] + unlock_ends(end.unread, (n - 1) as nat)
    }
}

/// What `n` unlocks send, one after the other.
pub open spec fn unlock_requests(unread: Seq<u8>, n: nat) -> Seq<u8>
    decreases n,
{
    if n == 0 {
        Seq::empty()
    } else {
        let end = unlock_turns(unlock_start(unread), 6);
        end.sent + unlock_requests(end.unread, (n - 1) as nat)
    }
}

/// What the enclave answers to each of a number of requests to decrypt `wrapped`.
pub open spec fn replies_to(decryptions: Seq<Unwrapping>, wrapped: Seq<u8>) -> Seq<Decryption> {
    Seq::new(
        decryptions.len(),
        |i: int| (decryptions[i])(Algorithm::EciesCofactorX963Sha256AesGcm, wrapped),
    )
}

/// A wait in which the helper answers within ten seconds, whatever signals come
/// before.
pub open spec fn prompt(turns: Seq<Turn>) -> bool {
    exists|at: int| answers_at(turns, at)
}

/// The turn `at` is the first that finds an answer, and begins within ten seconds.
pub open spec fn answers_at(turns: Seq<Turn>, at: int) -> bool {
    &&& 0 <= at < turns.len()
    &&& forall|i: int| 0 <= i <= at ==> (#[trigger] turns[i]).now < 10_000_000_000
    &&& forall|i: int| 0 <= i < at ==> (#[trigger] turns[i]).polled == Polled::Failed(4)
    &&& turns[at].polled matches Polled::Ready(n) && n > 0
}

/// A wait in which nothing but signals comes until the ten seconds are over.
pub open spec fn silent(turns: Seq<Turn>) -> bool {
    exists|late: int| silent_until(turns, late)
}

/// Nothing but signals comes before the turn `late`, which begins after the ten
/// seconds or polls in vain until they are over.
pub open spec fn silent_until(turns: Seq<Turn>, late: int) -> bool {
    &&& 0 <= late < turns.len()
    &&& turns[late].now >= 10_000_000_000 || turns[late].polled == Polled::Ready(0)
    &&& forall|i: int| 0 <= i < late ==> (#[trigger] turns[i]).polled == Polled::Failed(4)
}

/// One step of wrapping `vault_key`, where `encrypt` is what encrypting comes to
/// and no other step fails.
pub open spec fn enroll_turn(
    encrypt: spec_fn(Algorithm, Seq<u8>) -> Seq<u8>,
    vault_key: Seq<u8>,
    phase: EnrollPhase<Seq<u8>, Reason>,
) -> EnrollPhase<Seq<u8>, Reason> {
    match enroll_demand(phase, vault_key) {
        EnrollDemand::CreateAccessControl(_)
        | EnrollDemand::GenerateKey(_)
        | EnrollDemand::CopyPublicKey => enroll_step(phase, EnrollEvent::Done),
        EnrollDemand::Encrypt(algorithm, bytes) => enroll_step(
            phase,
            EnrollEvent::Encrypted(encrypt(algorithm, bytes)),
        ),
        EnrollDemand::Finish => phase,
    }
}

/// `turns` steps of wrapping `vault_key`.
pub open spec fn enroll_turns(
    encrypt: spec_fn(Algorithm, Seq<u8>) -> Seq<u8>,
    vault_key: Seq<u8>,
    phase: EnrollPhase<Seq<u8>, Reason>,
    turns: nat,
) -> EnrollPhase<Seq<u8>, Reason>
    decreases turns,
{
    if turns == 0 {
        phase
    } else {
        enroll_turns(
            encrypt,
            vault_key,
            enroll_turn(encrypt, vault_key, phase),
            (turns - 1) as nat,
        )
    }
}

/// What wrapping comes to where `encrypt` is what encrypting comes to.
pub open spec fn wrapping(encrypt: spec_fn(Algorithm, Seq<u8>) -> Seq<u8>) -> Wrapping {
    |key: Seq<u8>|
        match enroll_turns(encrypt, key, EnrollPhase::CreateAccessControl, 4) {
            EnrollPhase::Enrolled(wrapped) => Ok(wrapped),
            EnrollPhase::Failed(reason) => Err(reason),
            _ => Err(Reason::Canceled),
        }
}

/// The helper at its start, where the agent sends it the vault key and a request
/// for each of the answers that are to come, and then, if `closed`, goes away.
pub open spec fn helper_start(
    vault_key: Seq<u8>,
    decryptions: Seq<Unwrapping>,
    closed: bool,
) -> HelperRun {
    HelperRun {
        phase: HelperPhase::SendHardened,
        unread: vault_key + requests(decryptions.len()),
        closed,
        decryptions,
        sent: Seq::empty(),
    }
}

/// A user who lets the enclave decrypt every time, `n` times.
pub open spec fn permitting(
    decrypt: spec_fn(Algorithm, Seq<u8>) -> Seq<u8>,
    n: nat,
) -> Seq<Unwrapping> {
    Seq::new(
        n,
        |i: int| |algorithm: Algorithm, bytes: Seq<u8>| Ok(decrypt(algorithm, bytes)),
    )
}

proof fn lemma_prompt(turns: Seq<Turn>)
    requires
        prompt(turns),
    ensures
        wait_run(10_000_000_000, 0, turns) is Readable,
{
    let at = choose|at: int| answers_at(turns, at);
    waiting_finds_the_byte(10_000_000_000, 0, turns, at);
}

proof fn lemma_silent(turns: Seq<Turn>)
    requires
        silent(turns),
    ensures
        wait_run(10_000_000_000, 0, turns) matches WaitEnd::Over(_, error) && error
            == PipeError::TimedOut,
{
    let late = choose|late: int| silent_until(turns, late);
    if exists|i: int| 0 <= i <= late && (#[trigger] turns[i]).now >= 10_000_000_000 {
        let i = choose|i: int| 0 <= i <= late && (#[trigger] turns[i]).now >= 10_000_000_000;
        waiting_is_bounded(10_000_000_000, 0, turns, i);
    } else {
        waiting_ends_as_polled(10_000_000_000, 0, turns, late);
    }
}

proof fn lemma_wrapping(encrypt: spec_fn(Algorithm, Seq<u8>) -> Seq<u8>, key: Seq<u8>)
    ensures
        wrapping(encrypt)(key) == Ok::<Seq<u8>, Reason>(
            encrypt(Algorithm::EciesCofactorX963Sha256AesGcm, key),
        ),
{
    reveal_with_fuel(enroll_turns, 5);
}

proof fn lemma_read_buffer(bytes: Seq<u8>)
    requires
        bytes.len() == VAULT_KEY_LEN,
    ensures
        read_buffer(bytes).len() == KEY_BUFFER_LEN,
        read_buffer(bytes).take(VAULT_KEY_LEN as int) == bytes,
        at_most(read_buffer(bytes), VAULT_KEY_LEN as nat) == bytes,
{
    assert(read_buffer(bytes).take(VAULT_KEY_LEN as int) =~= bytes);
}

proof fn lemma_more_helper_turns(enrolled: Wrapping, run: HelperRun, first: nat, more: nat)
    ensures
        helper_turns(enrolled, helper_turns(enrolled, run, first), more) == helper_turns(
            enrolled,
            run,
            first + more,
        ),
    decreases first,
{
    if first > 0 {
        lemma_more_helper_turns(
            enrolled,
            helper_turn(enrolled, run),
            (first - 1) as nat,
            more,
        );
    }
}

/// A helper that is sent a vault key wraps exactly that key, tells the agent so,
/// and then awaits requests; of what follows the key it has read nothing.
pub proof fn helper_starts(
    enrolled: Wrapping,
    vault_key: Seq<u8>,
    rest: Seq<u8>,
    closed: bool,
    wrapped: Seq<u8>,
    decryptions: Seq<Unwrapping>,
)
    requires
        vault_key.len() == VAULT_KEY_LEN,
        enrolled(vault_key) == Ok::<Seq<u8>, Reason>(wrapped),
    ensures
        ({
            let start = HelperRun {
                phase: HelperPhase::SendHardened,
                unread: vault_key + rest,
                closed,
                decryptions,
                sent: Seq::empty(),
            };
            &&& helper_demand(helper_turns(enrolled, start, 2).phase) == HelperDemand::Enroll(
                vault_key,
            )
            &&& helper_turns(enrolled, start, 4) == HelperRun {
                phase: HelperPhase::AwaitRequest(wrapped),
                unread: rest,
                closed,
                decryptions,
                sent: seq![RESPONSE_HARDENED, RESPONSE_READY],
            }
        }),
{
    reveal_with_fuel(helper_turns, 5);
    lemma_read_buffer(vault_key);
    assert((vault_key + rest).take(VAULT_KEY_LEN as int) =~= vault_key);
    assert((vault_key + rest).skip(VAULT_KEY_LEN as int) =~= rest);
    assert(Seq::<u8>::empty().push(RESPONSE_HARDENED).push(RESPONSE_READY) =~= seq![
        RESPONSE_HARDENED,
        RESPONSE_READY,
    ]);
}

/// A helper that cannot wrap the vault key tells the agent and ends in good order.
pub proof fn helper_that_cannot_start_says_so(
    enrolled: Wrapping,
    vault_key: Seq<u8>,
    rest: Seq<u8>,
    closed: bool,
    reason: Reason,
    decryptions: Seq<Unwrapping>,
)
    requires
        vault_key.len() == VAULT_KEY_LEN,
        enrolled(vault_key) == Err::<Seq<u8>, Reason>(reason),
    ensures
        helper_turns(
            enrolled,
            HelperRun {
                phase: HelperPhase::SendHardened,
                unread: vault_key + rest,
                closed,
                decryptions,
                sent: Seq::empty(),
            },
            5,
        ) == (HelperRun {
            phase: HelperPhase::Exited(Ok(())),
            unread: rest,
            closed,
            decryptions,
            sent: seq![RESPONSE_HARDENED, RESPONSE_UNAVAILABLE],
        }),
{
    reveal_with_fuel(helper_turns, 6);
    lemma_read_buffer(vault_key);
    assert((vault_key + rest).take(VAULT_KEY_LEN as int) =~= vault_key);
    assert((vault_key + rest).skip(VAULT_KEY_LEN as int) =~= rest);
    assert(Seq::<u8>::empty().push(RESPONSE_HARDENED).push(RESPONSE_UNAVAILABLE) =~= seq![
        RESPONSE_HARDENED,
        RESPONSE_UNAVAILABLE,
    ]);
}

/// A helper whose agent goes away before it has sent a whole vault key ends with
/// the end of the stream, and has wrapped and sent nothing.
pub proof fn helper_without_a_key_ends(
    enrolled: Wrapping,
    unread: Seq<u8>,
    decryptions: Seq<Unwrapping>,
)
    requires
        unread.len() < VAULT_KEY_LEN,
    ensures
        ({
            let end = helper_turns(
                enrolled,
                HelperRun {
                    phase: HelperPhase::SendHardened,
                    unread,
                    closed: true,
                    decryptions,
                    sent: Seq::empty(),
                },
                2,
            );
            &&& end.phase == HelperState::Exited(
                Err(HelperError::Pipe(PipeError::UnexpectedEof)),
            )
            &&& end.sent == seq![RESPONSE_HARDENED]
        }),
{
    reveal_with_fuel(helper_turns, 3);
    assert(Seq::<u8>::empty().push(RESPONSE_HARDENED) =~= seq![RESPONSE_HARDENED]);
}

/// A session opens with a helper that says, each within ten seconds, that it is
/// protected and then that it is ready, and not with one that says anything else;
/// the vault key is sent, once and as it is, if and only if the first was said.
pub proof fn session_opens(
    vault_key: Seq<u8>,
    first: u8,
    second: u8,
    rest: Seq<u8>,
    waits: Seq<Seq<Turn>>,
)
    requires
        waits.len() == 2,
        prompt(waits[0]),
        prompt(waits[1]),
    ensures
        ({
            let end = open_turns(
                vault_key,
                OpenRun {
                    phase: OpenPhase::AwaitHardened,
                    unread: seq![first, second] + rest,
                    waits,
                    sent: Seq::empty(),
                },
                4,
            );
            &&& end.sent == if first == RESPONSE_HARDENED {
                vault_key
            } else {
                Seq::empty()
            }
            &&& end.phase == if first != RESPONSE_HARDENED {
                OpenPhase::Failed(
                    Reason::Unavailable("biometric helper did not enter its hardened state"@),
                )
            } else if second != RESPONSE_READY {
                OpenPhase::Failed(Reason::Unavailable("biometric helper failed to initialize"@))
            } else {
                OpenPhase::Open
            }
            &&& first == RESPONSE_HARDENED ==> end.unread == rest
        }),
{
    reveal_with_fuel(open_turns, 5);
    lemma_prompt(waits[0]);
    lemma_prompt(waits[1]);
    assert(waits.skip(1)[0] == waits[1]);
    let unread = seq![first, second] + rest;
    assert(unread[0] == first);
    assert(unread.skip(1)[0] == second);
    assert(unread.skip(1).skip(1) =~= rest);
    assert(Seq::<u8>::empty() + vault_key =~= vault_key);
}

/// An opening does not wait for a silent helper: one that has not said within ten
/// seconds that it is protected is given up, and not given the vault key; and one
/// that has not said within ten seconds more that it is ready is given up, too.
pub proof fn silent_helper_is_given_up(
    vault_key: Seq<u8>,
    unread: Seq<u8>,
    waits: Seq<Seq<Turn>>,
)
    requires
        waits.len() == 2,
    ensures
        ({
            let end = open_turns(
                vault_key,
                OpenRun {
                    phase: OpenPhase::AwaitHardened,
                    unread,
                    waits,
                    sent: Seq::empty(),
                },
                4,
            );
            let timed_out = OpenPhase::<Reason>::Failed(
                Reason::Unavailable("timed out waiting for biometric helper"@),
            );
            &&& silent(waits[0]) ==> end.phase == timed_out && end.sent == Seq::<u8>::empty()
            &&& prompt(waits[0]) && unread.len() > 0 && unread[0] == RESPONSE_HARDENED && silent(
                waits[1],
            ) ==> end.phase == timed_out && end.sent == vault_key
        }),
{
    reveal_with_fuel(open_turns, 5);
    if silent(waits[0]) {
        lemma_silent(waits[0]);
    }
    if prompt(waits[0]) && silent(waits[1]) {
        lemma_prompt(waits[0]);
        lemma_silent(waits[1]);
        assert(waits.skip(1)[0] == waits[1]);
    }
    assert(Seq::<u8>::empty() + vault_key =~= vault_key);
}

/// The turns that the helper takes over one request.
pub open spec fn answer_turns(decryption: Decryption) -> nat {
    match decryption_key(decryption) {
        Ok(_) | Err(Reason::Unavailable(_)) => 4,
        Err(_) => 3,
    }
}

/// The helper answers one request with one answer, for which it has the enclave
/// decrypt the wrapped key, and is then where it was.
pub proof fn helper_answers(
    enrolled: Wrapping,
    wrapped: Seq<u8>,
    rest: Seq<u8>,
    closed: bool,
    unwrapping: Unwrapping,
    later: Seq<Unwrapping>,
    sent: Seq<u8>,
)
    ensures
        ({
            let decryption = unwrapping(Algorithm::EciesCofactorX963Sha256AesGcm, wrapped);
            helper_turns(
                enrolled,
                HelperRun {
                    phase: HelperPhase::AwaitRequest(wrapped),
                    unread: seq![REQUEST_UNLOCK] + rest,
                    closed,
                    decryptions: seq![unwrapping] + later,
                    sent,
                },
                answer_turns(decryption),
            ) == (HelperRun {
                phase: HelperPhase::AwaitRequest(wrapped),
                unread: rest,
                closed,
                decryptions: later,
                sent: sent + answer(decryption),
            })
        }),
{
    reveal_with_fuel(helper_turns, 5);
    let decryption = unwrapping(Algorithm::EciesCofactorX963Sha256AesGcm, wrapped);
    assert((seq![REQUEST_UNLOCK] + rest).skip(1) =~= rest);
    assert((seq![unwrapping] + later).skip(1) =~= later);
    assert((seq![unwrapping] + later)[0] == unwrapping);
    match decryption_key(decryption) {
        Ok(key) => {
            assert(sent.push(RESPONSE_SUCCESS) + key =~= sent + answer(decryption));
        },
        Err(Reason::Canceled) => {
            assert(sent.push(RESPONSE_CANCELED) =~= sent + answer(decryption));
        },
        Err(Reason::PasswordRequested) => {
            assert(sent.push(RESPONSE_PASSWORD_REQUESTED) =~= sent + answer(decryption));
        },
        Err(Reason::Unavailable(_)) => {
            assert(sent.push(RESPONSE_UNAVAILABLE) =~= sent + answer(decryption));
        },
    }
}

/// An unlock sends one request, reads the helper's answer to it and no more, and
/// ends as the enclave's answer has it: with the whole key, or with the user's
/// choice, which comes through the pipe as it was made.
pub proof fn unlock_reads_the_answer(decryption: Decryption, rest: Seq<u8>)
    ensures
        unlock_turns(unlock_start(answer(decryption) + rest), 6) == (UnlockRun {
            phase: unlock_end(decryption),
            unread: rest,
            sent: seq![REQUEST_UNLOCK],
        }),
{
    reveal_with_fuel(unlock_turns, 7);
    let unread = answer(decryption) + rest;
    assert(Seq::<u8>::empty().push(REQUEST_UNLOCK) =~= seq![REQUEST_UNLOCK]);
    match decryption_key(decryption) {
        Ok(key) => {
            assert(unread[0] == RESPONSE_SUCCESS);
            assert(unread.skip(1).take(VAULT_KEY_LEN as int) =~= key);
            assert(unread.skip(1).skip(VAULT_KEY_LEN as int) =~= rest);
            lemma_read_buffer(key);
        },
        Err(_) => {
            assert(unread[0] == answer(decryption)[0]);
            assert(unread.skip(1) =~= rest);
        },
    }
}

/// The helper answers any number of requests in the order in which they came.
pub proof fn helper_answers_in_order(
    enrolled: Wrapping,
    wrapped: Seq<u8>,
    rest: Seq<u8>,
    closed: bool,
    decryptions: Seq<Unwrapping>,
    sent: Seq<u8>,
)
    ensures
        exists|turns: nat| #[trigger]
            helper_turns(
                enrolled,
                HelperRun {
                    phase: HelperPhase::AwaitRequest(wrapped),
                    unread: requests(decryptions.len()) + rest,
                    closed,
                    decryptions,
                    sent,
                },
                turns,
            ) == (HelperRun {
                phase: HelperPhase::AwaitRequest(wrapped),
                unread: rest,
                closed,
                decryptions: Seq::empty(),
                sent: sent + answers(replies_to(decryptions, wrapped)),
            }),
    decreases decryptions.len(),
{
    let run = HelperRun {
        phase: HelperPhase::AwaitRequest(wrapped),
        unread: requests(decryptions.len()) + rest,
        closed,
        decryptions,
        sent,
    };
    let replies = replies_to(decryptions, wrapped);
    if decryptions.len() == 0 {
        assert(requests(0) + rest =~= rest);
        assert(decryptions =~= Seq::empty());
        assert(sent + answers(replies) =~= sent);
        assert(helper_turns(enrolled, run, 0) == run);
    } else {
        let unwrapping = decryptions[0];
        let decryption = unwrapping(Algorithm::EciesCofactorX963Sha256AesGcm, wrapped);
        let later = decryptions.skip(1);
        let unread = requests(later.len()) + rest;
        assert(run.unread =~= seq![REQUEST_UNLOCK] + unread);
        assert(decryptions =~= seq![unwrapping] + later);
        helper_answers(enrolled, wrapped, unread, closed, unwrapping, later, sent);
        helper_answers_in_order(
            enrolled,
            wrapped,
            rest,
            closed,
            later,
            sent + answer(decryption),
        );
        let first = answer_turns(decryption);
        let next = HelperRun {
            phase: HelperPhase::AwaitRequest(wrapped),
            unread,
            closed,
            decryptions: later,
            sent: sent + answer(decryption),
        };
        let more = choose|turns: nat| #[trigger]
            helper_turns(enrolled, next, turns) == (HelperRun {
                phase: HelperPhase::AwaitRequest(wrapped),
                unread: rest,
                closed,
                decryptions: Seq::empty(),
                sent: sent + answer(decryption) + answers(replies_to(later, wrapped)),
            });
        lemma_more_helper_turns(enrolled, run, first, more);
        assert(replies.skip(1) =~= replies_to(later, wrapped));
        assert(sent + answer(decryption) + answers(replies_to(later, wrapped)) =~= sent + answers(
            replies,
        ));
    }
}

/// Any number of unlocks end as the enclave's answers have it, each with the
/// answer to its own request.
pub proof fn unlocks_read_their_answers(decryptions: Seq<Decryption>, rest: Seq<u8>)
    ensures
        unlock_ends(answers(decryptions) + rest, decryptions.len()) == decryptions.map_values(
            |decryption: Decryption| unlock_end(decryption),
        ),
        unlock_requests(answers(decryptions) + rest, decryptions.len()) == requests(
            decryptions.len(),
        ),
    decreases decryptions.len(),
{
    let ends = decryptions.map_values(|decryption: Decryption| unlock_end(decryption));
    if decryptions.len() == 0 {
        assert(ends =~= Seq::empty());
        assert(requests(0) =~= Seq::empty());
    } else {
        let later = decryptions.skip(1);
        unlock_reads_the_answer(decryptions[0], answers(later) + rest);
        unlocks_read_their_answers(later, rest);
        assert(answers(decryptions) + rest =~= answer(decryptions[0]) + (answers(later) + rest));
        assert(ends =~= seq![unlock_end(decryptions[0])] + later.map_values(
            |decryption: Decryption| unlock_end(decryption),
        ));
        assert(seq![REQUEST_UNLOCK] + requests(later.len()) =~= requests(decryptions.len()));
    }
}

/// The unlock ends with what the user meant and the enclave decrypted, over what
/// the enclave answered to the helper.
pub proof fn unlock_ends_as_meant(decryption: Decryption)
    ensures
        decryption matches Ok(plaintext) ==> unlock_end(decryption) == if plaintext.len() == 64 {
            UnlockPhase::<Seq<u8>, Reason>::Unlocked(plaintext)
        } else {
            UnlockPhase::<Seq<u8>, Reason>::Failed(
                Reason::Unavailable("biometric helper could not unlock the vault key"@),
            )
        },
        decryption matches Err(refusal) ==> unlock_end(decryption) == UnlockPhase::<
            Seq<u8>,
            Reason,
        >::Failed(
            if refusal.domain == "com.apple.LocalAuthentication"@ && refusal.code == -2 {
                Reason::Canceled
            } else if refusal.domain == "NSOSStatusErrorDomain"@ && refusal.code == -128 {
                Reason::Canceled
            } else if refusal.domain == "com.apple.LocalAuthentication"@ && refusal.code == -3 {
                Reason::PasswordRequested
            } else {
                Reason::Unavailable("biometric helper could not unlock the vault key"@)
            },
        ),
{
}

/// What goes in comes out. The agent opens a session with a helper that answers
/// within its time, unlocks any number of times, and stays or goes away; the helper
/// is sent exactly what the agent sends, and the agent exactly what the helper
/// sends. The session opens; the helper answers every request, and then awaits the
/// next or, if the agent has gone, ends in good order. An unlock asks the enclave
/// to decrypt what it made of the vault key, and ends with that plaintext if it is
/// as long as a key: with the vault key, if the enclave undoes what it did. Where
/// the enclave refuses, the unlock ends with what the user meant.
pub proof fn unlocking_returns_the_vault_key(
    vault_key: Seq<u8>,
    encrypt: spec_fn(Algorithm, Seq<u8>) -> Seq<u8>,
    decryptions: Seq<Unwrapping>,
    closed: bool,
    waits: Seq<Seq<Turn>>,
)
    requires
        vault_key.len() == VAULT_KEY_LEN,
        waits.len() == 2,
        prompt(waits[0]),
        prompt(waits[1]),
    ensures
        exists|turns: nat|
            {
                let n = decryptions.len();
                let end = #[trigger] helper_turns(
                    wrapping(encrypt),
                    helper_start(vault_key, decryptions, closed),
                    turns,
                );
                let opened = open_turns(
                    vault_key,
                    OpenRun {
                        phase: OpenPhase::AwaitHardened,
                        unread: end.sent,
                        waits,
                        sent: Seq::empty(),
                    },
                    4,
                );
                let ends = unlock_ends(opened.unread, n);
                let algorithm = Algorithm::EciesCofactorX963Sha256AesGcm;
                let wrapped = encrypt(algorithm, vault_key);
                &&& end.phase == if closed {
                    HelperState::Exited(Ok(()))
                } else {
                    HelperState::AwaitRequest(wrapped)
                }
                &&& end.unread == Seq::<u8>::empty()
                &&& end.sent == seq![RESPONSE_HARDENED, RESPONSE_READY] + answers(
                    replies_to(decryptions, wrapped),
                )
                &&& opened.phase == OpenPhase::<Reason>::Open
                &&& opened.unread == answers(replies_to(decryptions, wrapped))
                &&& opened.sent == vault_key
                &&& opened.sent + unlock_requests(opened.unread, n) == vault_key + requests(n)
                &&& ends.len() == n
                &&& forall|i: int|
                    0 <= i < n ==> match (#[trigger] decryptions[i])(algorithm, wrapped) {
                        Ok(plaintext) => {
                            &&& plaintext == vault_key ==> ends[i] == UnlockPhase::<
                                Seq<u8>,
                                Reason,
                            >::Unlocked(vault_key)
                            &&& plaintext.len() == 64 ==> ends[i] == UnlockPhase::<
                                Seq<u8>,
                                Reason,
                            >::Unlocked(plaintext)
                            &&& plaintext.len() != 64 ==> ends[i] == UnlockPhase::<
                                Seq<u8>,
                                Reason,
                            >::Failed(
                                Reason::Unavailable(
                                    "biometric helper could not unlock the vault key"@,
                                ),
                            )
                        },
                        Err(refusal) => ends[i] == UnlockPhase::<Seq<u8>, Reason>::Failed(
                            if refusal.domain == "com.apple.LocalAuthentication"@ && refusal.code
                                == -2 {
                                Reason::Canceled
                            } else if refusal.domain == "NSOSStatusErrorDomain"@ && refusal.code
                                == -128 {
                                Reason::Canceled
                            } else if refusal.domain == "com.apple.LocalAuthentication"@
                                && refusal.code == -3 {
                                Reason::PasswordRequested
                            } else {
                                Reason::Unavailable(
                                    "biometric helper could not unlock the vault key"@,
                                )
                            },
                        ),
                    }
            },
{
    let n = decryptions.len();
    let algorithm = Algorithm::EciesCofactorX963Sha256AesGcm;
    let enrolled = wrapping(encrypt);
    let wrapped = encrypt(algorithm, vault_key);
    let replies = replies_to(decryptions, wrapped);
    let greeting = seq![RESPONSE_HARDENED, RESPONSE_READY];
    let start = helper_start(vault_key, decryptions, closed);
    lemma_wrapping(encrypt, vault_key);
    helper_starts(enrolled, vault_key, requests(n), closed, wrapped, decryptions);
    assert(requests(n) + Seq::empty() =~= requests(n));
    helper_answers_in_order(enrolled, wrapped, Seq::empty(), closed, decryptions, greeting);
    let serving = HelperRun {
        phase: HelperPhase::AwaitRequest(wrapped),
        unread: requests(n),
        closed,
        decryptions,
        sent: greeting,
    };
    let served = HelperRun {
        phase: HelperPhase::AwaitRequest(wrapped),
        unread: Seq::empty(),
        closed,
        decryptions: Seq::empty(),
        sent: greeting + answers(replies),
    };
    let more = choose|turns: nat| #[trigger] helper_turns(enrolled, serving, turns) == served;
    lemma_more_helper_turns(enrolled, start, 4, more);
    lemma_more_helper_turns(enrolled, start, 4 + more, 1);
    reveal_with_fuel(helper_turns, 2);
    let end = helper_turns(enrolled, start, 4 + more + 1);
    assert(end == helper_turn(enrolled, served));
    assert(end.sent == served.sent);
    session_opens(vault_key, RESPONSE_HARDENED, RESPONSE_READY, answers(replies), waits);
    unlocks_read_their_answers(replies, Seq::empty());
    assert(answers(replies) + Seq::empty() =~= answers(replies));
    let ends = unlock_ends(answers(replies), n);
    assert forall|i: int| 0 <= i < n implies ends[i] == unlock_end(
        (#[trigger] decryptions[i])(algorithm, wrapped),
    ) by {
        assert(replies[i] == (decryptions[i])(algorithm, wrapped));
    }
    assert forall|i: int| 0 <= i < n implies unlock_end(
        (#[trigger] decryptions[i])(algorithm, wrapped),
    ) == unlock_end(replies[i]) by {
        unlock_ends_as_meant(replies[i]);
    }
}

/// Wrapping and unwrapping cancel out: with an enclave that decrypts whatever it
/// encrypted, in whatever way it is asked to, every unlock that the user lets
/// happen ends with the vault key that the session was opened with.
pub proof fn every_permitted_unlock_returns_the_vault_key(
    vault_key: Seq<u8>,
    encrypt: spec_fn(Algorithm, Seq<u8>) -> Seq<u8>,
    decrypt: spec_fn(Algorithm, Seq<u8>) -> Seq<u8>,
    n: nat,
    waits: Seq<Seq<Turn>>,
)
    requires
        vault_key.len() == VAULT_KEY_LEN,
        forall|algorithm: Algorithm, bytes: Seq<u8>|
            decrypt(algorithm, #[trigger] encrypt(algorithm, bytes)) == bytes,
        waits.len() == 2,
        prompt(waits[0]),
        prompt(waits[1]),
    ensures
        exists|turns: nat|
            {
                let end = #[trigger] helper_turns(
                    wrapping(encrypt),
                    helper_start(vault_key, permitting(decrypt, n), true),
                    turns,
                );
                let opened = open_turns(
                    vault_key,
                    OpenRun {
                        phase: OpenPhase::AwaitHardened,
                        unread: end.sent,
                        waits,
                        sent: Seq::empty(),
                    },
                    4,
                );
                &&& end.phase == HelperState::Exited(Ok(()))
                &&& unlock_ends(opened.unread, n) == Seq::new(
                    n,
                    |i: int| UnlockPhase::<Seq<u8>, Reason>::Unlocked(vault_key),
                )
            },
{
    let decryptions = permitting(decrypt, n);
    unlocking_returns_the_vault_key(vault_key, encrypt, decryptions, true, waits);
    let start = helper_start(vault_key, decryptions, true);
    let turns = choose|turns: nat|
        {
            let end = #[trigger] helper_turns(wrapping(encrypt), start, turns);
            let opened = open_turns(
                vault_key,
                OpenRun {
                    phase: OpenPhase::AwaitHardened,
                    unread: end.sent,
                    waits,
                    sent: Seq::empty(),
                },
                4,
            );
            let ends = unlock_ends(opened.unread, n);
            let algorithm = Algorithm::EciesCofactorX963Sha256AesGcm;
            &&& end.phase == HelperState::Exited(Ok(()))
            &&& ends.len() == n
            &&& forall|i: int|
                0 <= i < n ==> ((#[trigger] decryptions[i])(
                    algorithm,
                    encrypt(algorithm, vault_key),
                ) matches Ok(plaintext) ==> (plaintext == vault_key ==> ends[i] == UnlockPhase::<
                    Seq<u8>,
                    Reason,
                >::Unlocked(vault_key)))
        };
    let end = helper_turns(wrapping(encrypt), start, turns);
    let opened = open_turns(
        vault_key,
        OpenRun { phase: OpenPhase::AwaitHardened, unread: end.sent, waits, sent: Seq::empty() },
        4,
    );
    let ends = unlock_ends(opened.unread, n);
    let algorithm = Algorithm::EciesCofactorX963Sha256AesGcm;
    let wrapped = encrypt(algorithm, vault_key);
    assert forall|i: int| 0 <= i < n implies ends[i] == UnlockPhase::<
        Seq<u8>,
        Reason,
    >::Unlocked(vault_key) by {
        assert((decryptions[i])(algorithm, wrapped) == Ok::<Seq<u8>, Refusal>(
            decrypt(algorithm, wrapped),
        ));
    }
    assert(ends =~= Seq::new(n, |i: int| UnlockPhase::<Seq<u8>, Reason>::Unlocked(vault_key)));
}

} // verus!
