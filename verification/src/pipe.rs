//! Moving a whole buffer through a pipe that moves a few bytes at a time.

use vstd::prelude::*;

verus! {

/// The error number of a call that a signal interrupted.
pub const EINTR: i32 = 4;

/// The error number of a call that a signal interrupted, as the system has it.
///
/// Reads `rustix::io::Errno::INTR` through `raw_os_error`. The contract claims
/// that it is [`EINTR`], which is 4 on Linux and on macOS alike.
#[verifier::external_body]
fn interrupted_code() -> (code: i32)
    ensures
        code == EINTR,
{
    rustix::io::Errno::INTR.raw_os_error()
}

/// Whether a system call with this error number is simply made again.
pub(crate) fn is_interrupted(code: i32) -> (interrupted: bool)
    ensures
        interrupted == (code == EINTR),
{
    code == interrupted_code()
}

/// Why a transfer over a pipe stopped short.
#[derive(Debug, Clone, Copy, PartialEq, Eq, Structural)]
pub enum PipeError {
    /// The other end closed the pipe before all bytes had come.
    UnexpectedEof,
    /// The pipe took no more bytes.
    WriteZero,
    /// Nothing came before the deadline.
    TimedOut,
    /// The system refused the call, with this error number.
    Os(i32),
}

impl PipeError {
    /// The text of the failures that are not the system's.
    pub open spec fn text(self) -> Option<Seq<char>> {
        match self {
            PipeError::UnexpectedEof => Some("biometric helper pipe closed"@),
            PipeError::WriteZero => Some("failed to write biometric helper pipe"@),
            PipeError::TimedOut => Some("timed out waiting for biometric helper"@),
            PipeError::Os(_) => None,
        }
    }

    /// The text of this failure; the system has its own for an error number.
    pub fn message(&self) -> (message: Option<String>)
        ensures
            match message {
                Some(text) => self.text() == Some(text@),
                None => self.text() is None,
            },
    {
        match self {
            PipeError::UnexpectedEof => Some("biometric helper pipe closed".to_owned()),
            PipeError::WriteZero => Some("failed to write biometric helper pipe".to_owned()),
            PipeError::TimedOut => Some("timed out waiting for biometric helper".to_owned()),
            PipeError::Os(_) => None,
        }
    }
}

/// What one `read` or `write` call came back with.
#[derive(Debug, Clone, Copy, PartialEq, Eq, Structural)]
pub enum Transfer {
    /// This many bytes were moved.
    Moved(usize),
    /// The call failed with this error number.
    Failed(i32),
}

/// Where a transfer stands after one more call, given what a call that moves
/// nothing means.
pub open spec fn advanced(position: nat, outcome: Transfer, at_zero: PipeError) -> Result<
    nat,
    PipeError,
> {
    match outcome {
        Transfer::Moved(n) => if n == 0 {
            Err(at_zero)
        } else {
            Ok(position + n as nat)
        },
        Transfer::Failed(code) => if code == EINTR {
            Ok(position)
        } else {
            Err(PipeError::Os(code))
        },
    }
}

/// Progress through a buffer that is read or written as a whole.
pub struct Cursor {
    position: usize,
    len: usize,
}

impl Cursor {
    #[verifier::type_invariant]
    spec fn within(self) -> bool {
        self.position <= self.len
    }

    /// How many bytes have been moved.
    pub closed spec fn moved(self) -> nat {
        self.position as nat
    }

    /// How many bytes there are in all.
    pub closed spec fn total(self) -> nat {
        self.len as nat
    }

    /// The start of a transfer of `len` bytes.
    pub fn new(len: usize) -> (cursor: Cursor)
        ensures
            cursor.moved() == 0,
            cursor.total() == len,
    {
        Cursor { position: 0, len }
    }

    /// The index in the buffer at which the next call begins.
    pub fn position(&self) -> (position: usize)
        ensures
            position == self.moved(),
            position <= self.total(),
    {
        proof {
            use_type_invariant(self);
        }
        self.position
    }

    /// Whether all bytes have been moved.
    pub fn is_complete(&self) -> (complete: bool)
        ensures
            complete == (self.moved() == self.total()),
    {
        self.position == self.len
    }

    fn advance(&mut self, outcome: Transfer, at_zero: PipeError) -> (result: Result<(), PipeError>)
        requires
            outcome matches Transfer::Moved(n) ==> old(self).moved() + n <= old(self).total(),
        ensures
            final(self).total() == old(self).total(),
            match advanced(old(self).moved(), outcome, at_zero) {
                Ok(position) => result == Ok::<(), PipeError>(()) && final(self).moved()
                    == position,
                Err(error) => result == Err::<(), PipeError>(error) && *final(self) == *old(self),
            },
    {
        match outcome {
            Transfer::Moved(n) => {
                if n == 0 {
                    Err(at_zero)
                } else {
                    self.position = self.position + n;
                    Ok(())
                }
            },
            Transfer::Failed(code) => {
                if is_interrupted(code) {
                    Ok(())
                } else {
                    Err(PipeError::Os(code))
                }
            },
        }
    }

    /// Takes note of a `read` into the rest of the buffer: an interrupted one is
    /// made again, and one that read nothing met the end of the stream.
    pub fn after_read(&mut self, outcome: Transfer) -> (result: Result<(), PipeError>)
        requires
            outcome matches Transfer::Moved(n) ==> old(self).moved() + n <= old(self).total(),
        ensures
            final(self).total() == old(self).total(),
            match advanced(old(self).moved(), outcome, PipeError::UnexpectedEof) {
                Ok(position) => result == Ok::<(), PipeError>(()) && final(self).moved()
                    == position,
                Err(error) => result == Err::<(), PipeError>(error) && *final(self) == *old(self),
            },
            outcome matches Transfer::Moved(n) ==> (n > 0 ==> result is Ok && final(self).moved()
                == old(self).moved() + n),
            outcome == Transfer::Moved(0) ==> result == Err::<(), PipeError>(
                PipeError::UnexpectedEof,
            ),
            outcome == Transfer::Failed(4) ==> result is Ok && final(self).moved() == old(
                self,
            ).moved(),
            outcome matches Transfer::Failed(code) ==> (code != 4 ==> result == Err::<
                (),
                PipeError,
            >(PipeError::Os(code))),
    {
        self.advance(outcome, PipeError::UnexpectedEof)
    }

    /// Takes note of a `write` of the rest of the buffer: an interrupted one is
    /// made again, and one that wrote nothing never will.
    pub fn after_write(&mut self, outcome: Transfer) -> (result: Result<(), PipeError>)
        requires
            outcome matches Transfer::Moved(n) ==> old(self).moved() + n <= old(self).total(),
        ensures
            final(self).total() == old(self).total(),
            match advanced(old(self).moved(), outcome, PipeError::WriteZero) {
                Ok(position) => result == Ok::<(), PipeError>(()) && final(self).moved()
                    == position,
                Err(error) => result == Err::<(), PipeError>(error) && *final(self) == *old(self),
            },
            outcome matches Transfer::Moved(n) ==> (n > 0 ==> result is Ok && final(self).moved()
                == old(self).moved() + n),
            outcome == Transfer::Moved(0) ==> result == Err::<(), PipeError>(
                PipeError::WriteZero,
            ),
            outcome == Transfer::Failed(4) ==> result is Ok && final(self).moved() == old(
                self,
            ).moved(),
            outcome matches Transfer::Failed(code) ==> (code != 4 ==> result == Err::<
                (),
                PipeError,
            >(PipeError::Os(code))),
    {
        self.advance(outcome, PipeError::WriteZero)
    }
}

/// What one `read` call brings.
pub enum Delivery {
    /// These bytes, placed at the front of the part that was offered.
    Chunk(Seq<u8>),
    /// Nothing: the call failed with this error number.
    Failed(i32),
}

impl Delivery {
    /// The bytes that came.
    pub open spec fn bytes(self) -> Seq<u8> {
        match self {
            Delivery::Chunk(bytes) => bytes,
            Delivery::Failed(_) => Seq::empty(),
        }
    }

    /// What the call returns.
    pub open spec fn outcome(self) -> Transfer {
        match self {
            Delivery::Chunk(bytes) => Transfer::Moved(bytes.len() as usize),
            Delivery::Failed(code) => Transfer::Failed(code),
        }
    }
}

/// `buffer` with `bytes` written over it from `position` on.
pub open spec fn placed(buffer: Seq<u8>, position: nat, bytes: Seq<u8>) -> Seq<u8> {
    buffer.take(position as int) + bytes + buffer.skip((position + bytes.len()) as int)
}

/// All bytes that come, in order.
pub open spec fn delivered(reads: Seq<Delivery>) -> Seq<u8>
    decreases reads.len(),
{
    if reads.len() == 0 {
        Seq::empty()
    } else {
        reads[0].bytes() + delivered(reads.drop_first())
    }
}

/// No read brings more than the part of the buffer that is left.
pub open spec fn reads_fit(left: int, reads: Seq<Delivery>) -> bool
    decreases reads.len(),
{
    reads.len() == 0 || left == 0 || {
        &&& reads[0].bytes().len() <= left
        &&& reads_fit(left - reads[0].bytes().len(), reads.drop_first())
    }
}

/// Reading into `buffer` from `position` on, until it is full, a read fails or
/// `reads` are used up: the buffer afterwards, and the position or the error.
pub open spec fn read_run(buffer: Seq<u8>, position: nat, reads: Seq<Delivery>) -> (
    Seq<u8>,
    Result<nat, PipeError>,
)
    decreases reads.len(),
{
    if reads.len() == 0 || position == buffer.len() {
        (buffer, Ok(position))
    } else {
        let filled = placed(buffer, position, reads[0].bytes());
        match advanced(position, reads[0].outcome(), PipeError::UnexpectedEof) {
            Ok(next) => read_run(filled, next, reads.drop_first()),
            Err(error) => (filled, Err(error)),
        }
    }
}

/// Writing `data` from `position` on, until all is written, a write fails or
/// `writes` are used up: the bytes that went into the pipe, and the position or
/// the error.
pub open spec fn write_run(data: Seq<u8>, position: nat, writes: Seq<Transfer>) -> (
    Seq<u8>,
    Result<nat, PipeError>,
)
    decreases writes.len(),
{
    if writes.len() == 0 || position == data.len() {
        (Seq::empty(), Ok(position))
    } else {
        match advanced(position, writes[0], PipeError::WriteZero) {
            Ok(next) => {
                let rest = write_run(data, next, writes.drop_first());
                (data.subrange(position as int, next as int) + rest.0, rest.1)
            },
            Err(error) => (Seq::empty(), Err(error)),
        }
    }
}

/// No write takes more than it was offered.
pub open spec fn writes_fit(left: int, writes: Seq<Transfer>) -> bool
    decreases writes.len(),
{
    writes.len() == 0 || left == 0 || match writes[0] {
        Transfer::Moved(n) => n <= left && writes_fit(left - n, writes.drop_first()),
        Transfer::Failed(_) => writes_fit(left, writes.drop_first()),
    }
}

/// How many bytes the writes take in all.
pub open spec fn taken(writes: Seq<Transfer>) -> nat
    decreases writes.len(),
{
    if writes.len() == 0 {
        0
    } else {
        match writes[0] {
            Transfer::Moved(n) => n as nat + taken(writes.drop_first()),
            Transfer::Failed(_) => taken(writes.drop_first()),
        }
    }
}

/// A call that ends a transfer: one that moved nothing, or one that the system
/// refused for another reason than a signal.
pub open spec fn stops(outcome: Transfer) -> bool {
    match outcome {
        Transfer::Moved(n) => n == 0,
        Transfer::Failed(code) => code != EINTR,
    }
}

/// The error with which such a call ends it.
pub open spec fn stop_error(outcome: Transfer, at_zero: PipeError) -> PipeError {
    match outcome {
        Transfer::Moved(_) => at_zero,
        Transfer::Failed(code) => PipeError::Os(code),
    }
}

/// Reading into `buffer` fails at the read `k` with `error`: the buffer is not
/// full by then, and `after` holds what the reads before `k` brought.
pub open spec fn read_fails_at(
    buffer: Seq<u8>,
    position: nat,
    reads: Seq<Delivery>,
    k: int,
    after: Seq<u8>,
    error: PipeError,
) -> bool {
    &&& 0 <= k < reads.len()
    &&& forall|j: int| 0 <= j < k ==> !stops((#[trigger] reads[j]).outcome())
    &&& stops(reads[k].outcome())
    &&& error == stop_error(reads[k].outcome(), PipeError::UnexpectedEof)
    &&& position + delivered(reads.take(k)).len() < buffer.len()
    &&& after == placed(buffer, position, delivered(reads.take(k)))
}

/// Writing `data` from `position` on fails at the write `k` with `error`: by then
/// `sent` bytes had been taken, which is not all.
pub open spec fn write_fails_at(
    data: Seq<u8>,
    position: nat,
    writes: Seq<Transfer>,
    k: int,
    sent: nat,
    error: PipeError,
) -> bool {
    &&& 0 <= k < writes.len()
    &&& forall|j: int| 0 <= j < k ==> !stops(#[trigger] writes[j])
    &&& stops(writes[k])
    &&& error == stop_error(writes[k], PipeError::WriteZero)
    &&& sent == taken(writes.take(k))
    &&& position + sent < data.len()
}

proof fn lemma_read_fails_later(
    buffer: Seq<u8>,
    position: nat,
    reads: Seq<Delivery>,
    next: nat,
    k: int,
    after: Seq<u8>,
    error: PipeError,
)
    requires
        reads.len() > 0,
        !stops(reads[0].outcome()),
        next == position + reads[0].bytes().len(),
        next <= buffer.len(),
        read_fails_at(
            placed(buffer, position, reads[0].bytes()),
            next,
            reads.drop_first(),
            k,
            after,
            error,
        ),
    ensures
        read_fails_at(buffer, position, reads, k + 1, after, error),
{
    let bytes = reads[0].bytes();
    let rest = reads.drop_first();
    let came = delivered(rest.take(k));
    assert(reads.take(k + 1).drop_first() =~= rest.take(k));
    assert(reads.take(k + 1)[0] == reads[0]);
    assert(delivered(reads.take(k + 1)) == bytes + came);
    assert(placed(placed(buffer, position, bytes), next, came) =~= placed(
        buffer,
        position,
        bytes + came,
    ));
    assert(reads[k + 1] == rest[k]);
    assert forall|j: int| 0 <= j < k + 1 implies !stops((#[trigger] reads[j]).outcome()) by {
        if j > 0 {
            assert(reads[j] == rest[j - 1]);
        }
    }
}

/// However the stream is cut up and interrupted, the buffer is filled with the
/// bytes that came, in order and without a gap; what is beyond them is untouched.
/// That holds of a transfer that fails, too: it fails at the first read that met
/// the end of the stream or an error, with what had come before it in place.
pub proof fn reading_keeps_order(buffer: Seq<u8>, position: nat, reads: Seq<Delivery>)
    requires
        position <= buffer.len() <= usize::MAX,
        reads_fit(buffer.len() - position, reads),
    ensures
        read_run(buffer, position, reads).0.len() == buffer.len(),
        read_run(buffer, position, reads).1 matches Ok(end) ==> {
            &&& position <= end <= buffer.len()
            &&& end - position <= delivered(reads).len()
            &&& end < buffer.len() ==> end - position == delivered(reads).len()
            &&& read_run(buffer, position, reads).0 == placed(
                buffer,
                position,
                delivered(reads).take(end - position),
            )
        },
        read_run(buffer, position, reads).1 matches Err(error) ==> exists|k: int|
            read_fails_at(
                buffer,
                position,
                reads,
                k,
                read_run(buffer, position, reads).0,
                error,
            ),
    decreases reads.len(),
{
    if reads.len() == 0 || position == buffer.len() {
        assert(placed(buffer, position, delivered(reads).take(0)) =~= buffer);
    } else {
        let bytes = reads[0].bytes();
        let filled = placed(buffer, position, bytes);
        let after = read_run(buffer, position, reads).0;
        assert(filled.len() == buffer.len());
        match advanced(position, reads[0].outcome(), PipeError::UnexpectedEof) {
            Ok(next) => {
                let rest = reads.drop_first();
                reading_keeps_order(filled, next, rest);
                match read_run(filled, next, rest).1 {
                    Ok(end) => {
                        assert(delivered(reads).take(end - position) =~= bytes + delivered(
                            rest,
                        ).take(end - next));
                        assert(placed(filled, next, delivered(rest).take(end - next)) =~= placed(
                            buffer,
                            position,
                            delivered(reads).take(end - position),
                        ));
                    },
                    Err(error) => {
                        let k = choose|k: int| read_fails_at(filled, next, rest, k, after, error);
                        lemma_read_fails_later(buffer, position, reads, next, k, after, error);
                        assert(read_fails_at(buffer, position, reads, k + 1, after, error));
                    },
                }
            },
            Err(error) => {
                assert(reads.take(0) =~= Seq::empty());
                assert(bytes =~= Seq::empty());
                assert(read_fails_at(buffer, position, reads, 0, after, error));
            },
        }
    }
}

/// However the writes are cut up and interrupted, the bytes that go into the
/// pipe are those of the data, in order, each once, up to where the transfer got.
/// A transfer that fails has not sent all of them: it fails at the first write
/// that took nothing or met an error, after what the writes before it took.
pub proof fn writing_keeps_order(data: Seq<u8>, position: nat, writes: Seq<Transfer>)
    requires
        position <= data.len(),
        writes_fit(data.len() - position, writes),
    ensures
        position + write_run(data, position, writes).0.len() <= data.len(),
        write_run(data, position, writes).0 == data.subrange(
            position as int,
            (position + write_run(data, position, writes).0.len()) as int,
        ),
        write_run(data, position, writes).1 matches Ok(end) ==> {
            &&& end == position + write_run(data, position, writes).0.len()
            &&& end < data.len() ==> end - position == taken(writes)
        },
        write_run(data, position, writes).1 matches Err(error) ==> exists|k: int|
            write_fails_at(
                data,
                position,
                writes,
                k,
                write_run(data, position, writes).0.len(),
                error,
            ),
    decreases writes.len(),
{
    if writes.len() != 0 && position != data.len() {
        let sent = write_run(data, position, writes).0.len();
        match advanced(position, writes[0], PipeError::WriteZero) {
            Ok(next) => {
                let rest = writes.drop_first();
                writing_keeps_order(data, next, rest);
                if let Err(error) = write_run(data, next, rest).1 {
                    let later = write_run(data, next, rest).0.len();
                    let k = choose|k: int| write_fails_at(data, next, rest, k, later, error);
                    assert(writes.take(k + 1).drop_first() =~= rest.take(k));
                    assert forall|j: int| 0 <= j < k + 1 implies !stops(#[trigger] writes[j]) by {
                        if j > 0 {
                            assert(writes[j] == rest[j - 1]);
                        }
                    }
                    assert(write_fails_at(data, position, writes, k + 1, sent, error));
                }
            },
            Err(error) => {
                assert(writes.take(0) =~= Seq::empty());
                assert(write_fails_at(data, position, writes, 0, sent, error));
            },
        }
    }
}

/// A buffer that is read in full from a pipe into which `data` was written in
/// full holds the front of `data`: all of it, where the two are equally long.
pub proof fn pipe_roundtrip(
    data: Seq<u8>,
    writes: Seq<Transfer>,
    buffer: Seq<u8>,
    reads: Seq<Delivery>,
)
    requires
        buffer.len() <= data.len() <= usize::MAX,
        writes_fit(data.len() as int, writes),
        reads_fit(buffer.len() as int, reads),
        write_run(data, 0, writes).1 == Ok::<nat, PipeError>(data.len()),
        delivered(reads).is_prefix_of(write_run(data, 0, writes).0),
        read_run(buffer, 0, reads).1 == Ok::<nat, PipeError>(buffer.len()),
    ensures
        read_run(buffer, 0, reads).0 == data.take(buffer.len() as int),
        buffer.len() == data.len() ==> read_run(buffer, 0, reads).0 == data,
{
    writing_keeps_order(data, 0, writes);
    reading_keeps_order(buffer, 0, reads);
    let n = buffer.len() as int;
    let sent = write_run(data, 0, writes).0;
    assert(sent =~= data);
    assert(delivered(reads).take(n) =~= data.take(n));
    assert(placed(buffer, 0, data.take(n)) =~= data.take(n));
    assert(data.take(data.len() as int) =~= data);
}

/// A read that met the end of the stream or an error ends the transfer, and so
/// does nothing else: a transfer fails if and only if such a read comes before the
/// buffer is full, and it fails with what that read met.
pub proof fn reading_fails_where_it_must(buffer: Seq<u8>, position: nat, reads: Seq<Delivery>)
    requires
        position <= buffer.len() <= usize::MAX,
        reads_fit(buffer.len() - position, reads),
    ensures
        forall|k: int|
            {
                &&& 0 <= k < reads.len()
                &&& position + delivered(reads.take(k)).len() < buffer.len()
                &&& forall|j: int|
                    0 <= j < k ==> match #[trigger] reads[j] {
                        Delivery::Chunk(bytes) => bytes.len() > 0,
                        Delivery::Failed(code) => code == 4,
                    }
            } ==> match #[trigger] reads[k] {
                Delivery::Chunk(bytes) => bytes.len() == 0 ==> read_run(
                    buffer,
                    position,
                    reads,
                ).1 == Err::<nat, PipeError>(PipeError::UnexpectedEof),
                Delivery::Failed(code) => code != 4 ==> read_run(buffer, position, reads).1
                    == Err::<nat, PipeError>(PipeError::Os(code)),
            },
        (forall|j: int|
            0 <= j < reads.len() ==> match #[trigger] reads[j] {
                Delivery::Chunk(bytes) => bytes.len() > 0,
                Delivery::Failed(code) => code == 4,
            }) ==> read_run(buffer, position, reads).1 is Ok,
    decreases reads.len(),
{
    if reads.len() != 0 && position != buffer.len() {
        let bytes = reads[0].bytes();
        let filled = placed(buffer, position, bytes);
        let rest = reads.drop_first();
        assert(filled.len() == buffer.len());
        if let Ok(next) = advanced(position, reads[0].outcome(), PipeError::UnexpectedEof) {
            reading_fails_where_it_must(filled, next, rest);
            assert forall|k: int| 0 < k < reads.len() implies {
                &&& #[trigger] reads[k] == rest[k - 1]
                &&& delivered(reads.take(k)).len() == bytes.len() + delivered(
                    rest.take(k - 1),
                ).len()
            } by {
                assert(reads.take(k).drop_first() =~= rest.take(k - 1));
            }
            assert(forall|j: int| 0 <= j < rest.len() ==> #[trigger] rest[j] == reads[j + 1]);
        }
    }
}

/// A write that took nothing or met an error ends the transfer, and so does
/// nothing else: a transfer fails if and only if such a write comes before all is
/// written, and it fails with what that write met.
pub proof fn writing_fails_where_it_must(data: Seq<u8>, position: nat, writes: Seq<Transfer>)
    requires
        position <= data.len(),
        writes_fit(data.len() - position, writes),
    ensures
        forall|k: int|
            {
                &&& 0 <= k < writes.len()
                &&& position + taken(writes.take(k)) < data.len()
                &&& forall|j: int|
                    0 <= j < k ==> match #[trigger] writes[j] {
                        Transfer::Moved(n) => n > 0,
                        Transfer::Failed(code) => code == 4,
                    }
            } ==> match #[trigger] writes[k] {
                Transfer::Moved(n) => n == 0 ==> write_run(data, position, writes).1 == Err::<
                    nat,
                    PipeError,
                >(PipeError::WriteZero),
                Transfer::Failed(code) => code != 4 ==> write_run(data, position, writes).1
                    == Err::<nat, PipeError>(PipeError::Os(code)),
            },
        (forall|j: int|
            0 <= j < writes.len() ==> match #[trigger] writes[j] {
                Transfer::Moved(n) => n > 0,
                Transfer::Failed(code) => code == 4,
            }) ==> write_run(data, position, writes).1 is Ok,
    decreases writes.len(),
{
    if writes.len() != 0 && position != data.len() {
        let rest = writes.drop_first();
        if let Ok(next) = advanced(position, writes[0], PipeError::WriteZero) {
            writing_fails_where_it_must(data, next, rest);
            assert forall|k: int| 0 < k < writes.len() implies {
                &&& #[trigger] writes[k] == rest[k - 1]
                &&& position + taken(writes.take(k)) == next + taken(rest.take(k - 1))
            } by {
                assert(writes.take(k).drop_first() =~= rest.take(k - 1));
            }
            assert(forall|j: int| 0 <= j < rest.len() ==> #[trigger] rest[j] == writes[j + 1]);
        }
    }
}

/// A failure of the pipe has a text of its own, but for one that is the system's.
pub proof fn pipe_failures_are_told_apart(error: PipeError)
    ensures
        error.text() == match error {
            PipeError::UnexpectedEof => Some("biometric helper pipe closed"@),
            PipeError::WriteZero => Some("failed to write biometric helper pipe"@),
            PipeError::TimedOut => Some("timed out waiting for biometric helper"@),
            PipeError::Os(_) => None,
        },
{
}

} // verus!
