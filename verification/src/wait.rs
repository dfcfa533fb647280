//! Waiting for one byte, but not beyond a deadline.
//!
//! Times are nanoseconds on a clock that does not go back, counted from any
//! fixed moment.

use crate::pipe::is_interrupted;
use crate::pipe::PipeError;
use crate::pipe::EINTR;
use vstd::prelude::*;

verus! {

/// How long the helper may take over each answer while it starts: ten seconds.
pub const HELPER_INIT_TIMEOUT_NANOS: u128 = 10_000_000_000;

/// The nanoseconds of one second.
pub const NANOS_PER_SECOND: u128 = 1_000_000_000;

/// The moments that a signed 64-bit count of seconds reaches.
pub open spec fn representable(moment: int) -> bool {
    moment / NANOS_PER_SECOND as int <= i64::MAX
}

/// The time that `poll` is given.
#[derive(Debug, Clone, Copy, PartialEq, Eq, Structural)]
pub struct PollTimeout {
    /// Whole seconds.
    pub tv_sec: i64,
    /// The nanoseconds beyond them.
    pub tv_nsec: i64,
}

impl PollTimeout {
    /// The time in nanoseconds.
    pub open spec fn nanos(self) -> int {
        self.tv_sec * NANOS_PER_SECOND + self.tv_nsec
    }

    /// Less than a second stands in the nanoseconds.
    pub open spec fn normalized(self) -> bool {
        &&& 0 <= self.tv_sec
        &&& 0 <= self.tv_nsec < NANOS_PER_SECOND
    }
}

/// What one `poll` call came back with.
#[derive(Debug, Clone, Copy, PartialEq, Eq, Structural)]
pub enum Polled {
    /// This many descriptors are ready.
    Ready(usize),
    /// The call failed with this error number.
    Failed(i32),
}

/// What follows a `poll` call.
#[derive(Debug, Clone, Copy, PartialEq, Eq, Structural)]
pub enum AfterPoll {
    /// Look at the clock and wait again.
    WaitAgain,
    /// There is a byte to read.
    ReadByte,
    /// The wait is over without a byte.
    Fail(PipeError),
}

/// What follows a `poll` call that came back with `polled`.
pub open spec fn after_poll_of(polled: Polled) -> AfterPoll {
    match polled {
        Polled::Ready(n) => if n == 0 {
            AfterPoll::Fail(PipeError::TimedOut)
        } else {
            AfterPoll::ReadByte
        },
        Polled::Failed(code) => if code == EINTR {
            AfterPoll::WaitAgain
        } else {
            AfterPoll::Fail(PipeError::Os(code))
        },
    }
}

/// A wait for one byte.
pub struct ByteWait {
    deadline: u128,
}

impl ByteWait {
    #[verifier::type_invariant]
    spec fn reachable(self) -> bool {
        representable(self.deadline as int)
    }

    /// The moment at which the wait is given up.
    pub closed spec fn deadline(self) -> int {
        self.deadline as int
    }

    /// Starts to wait at `now`, for `timeout`.
    pub fn new(now: u128, timeout: u128) -> (wait: ByteWait)
        requires
            representable(now + timeout),
        ensures
            wait.deadline() == now + timeout,
    {
        ByteWait { deadline: now + timeout }
    }

    /// How long to poll at `now`: exactly as long as is left, or not at all once
    /// nothing is.
    pub fn poll_timeout(&self, now: u128) -> (result: Result<PollTimeout, PipeError>)
        ensures
            match result {
                Ok(timeout) => {
                    &&& now < self.deadline()
                    &&& timeout.normalized()
                    &&& timeout.nanos() == self.deadline() - now
                },
                Err(error) => now >= self.deadline() && error == PipeError::TimedOut,
            },
            result matches Ok(timeout) ==> {
                &&& timeout.tv_sec * 1_000_000_000 + timeout.tv_nsec == self.deadline() - now
                &&& 0 <= timeout.tv_nsec < 1_000_000_000
            },
    {
        proof {
            use_type_invariant(self);
        }
        if now >= self.deadline {
            return Err(PipeError::TimedOut);
        }
        let remaining: u128 = self.deadline - now;
        let seconds: u128 = remaining / NANOS_PER_SECOND;
        let nanos: u128 = remaining % NANOS_PER_SECOND;
        Ok(PollTimeout { tv_sec: seconds as i64, tv_nsec: nanos as i64 })
    }

    /// What to do after a `poll` call: an interrupted one is made again, and one
    /// that found nothing ready has waited until the deadline.
    pub fn after_poll(&self, polled: Polled) -> (next: AfterPoll)
        ensures
            next == after_poll_of(polled),
            next is WaitAgain <==> polled == Polled::Failed(4),
            next is ReadByte <==> (polled matches Polled::Ready(n) && n > 0),
            polled == Polled::Ready(0) ==> next == AfterPoll::Fail(PipeError::TimedOut),
            polled matches Polled::Failed(code) ==> (code != 4 ==> next == AfterPoll::Fail(
                PipeError::Os(code),
            )),
    {
        match polled {
            Polled::Ready(n) => {
                if n == 0 {
                    AfterPoll::Fail(PipeError::TimedOut)
                } else {
                    AfterPoll::ReadByte
                }
            },
            Polled::Failed(code) => {
                if is_interrupted(code) {
                    AfterPoll::WaitAgain
                } else {
                    AfterPoll::Fail(PipeError::Os(code))
                }
            },
        }
    }
}

/// One turn of a wait: the clock is read, and `poll` is called if time is left.
pub struct Turn {
    pub now: int,
    pub polled: Polled,
}

/// How a wait goes over a sequence of turns.
pub enum WaitEnd {
    /// The turns are used up, and the wait goes on.
    Waiting,
    /// After this many polls there is a byte to read.
    Readable(nat),
    /// After this many polls the wait is over without a byte.
    Over(nat, PipeError),
}

/// Waiting until `deadline` over `turns`, after `polls` polls.
pub open spec fn wait_run(deadline: int, polls: nat, turns: Seq<Turn>) -> WaitEnd
    decreases turns.len(),
{
    if turns.len() == 0 {
        WaitEnd::Waiting
    } else if turns[0].now >= deadline {
        WaitEnd::Over(polls, PipeError::TimedOut)
    } else {
        match after_poll_of(turns[0].polled) {
            AfterPoll::WaitAgain => wait_run(deadline, polls + 1, turns.drop_first()),
            AfterPoll::ReadByte => WaitEnd::Readable(polls + 1),
            AfterPoll::Fail(error) => WaitEnd::Over(polls + 1, error),
        }
    }
}

/// A wait is bounded: whatever interrupts it, it is over by the first turn that
/// begins at or after the deadline, and that turn does not poll. Where signals
/// were all that came until then, it ends with the timeout.
pub proof fn waiting_is_bounded(deadline: int, polls: nat, turns: Seq<Turn>, late: int)
    requires
        0 <= late < turns.len(),
        turns[late].now >= deadline,
    ensures
        match wait_run(deadline, polls, turns) {
            WaitEnd::Waiting => false,
            WaitEnd::Readable(made) => made <= polls + late,
            WaitEnd::Over(made, _) => made <= polls + late,
        },
        (forall|i: int| 0 <= i < late ==> (#[trigger] turns[i]).polled == Polled::Failed(EINTR))
            ==> (wait_run(deadline, polls, turns) matches WaitEnd::Over(_, error) && error
            == PipeError::TimedOut),
    decreases turns.len(),
{
    if turns[0].now < deadline {
        let rest = turns.drop_first();
        assert(rest[late - 1] == turns[late]);
        assert(forall|i: int| 0 <= i < late - 1 ==> #[trigger] rest[i] == turns[i + 1]);
        if after_poll_of(turns[0].polled) is WaitAgain {
            waiting_is_bounded(deadline, polls + 1, rest, late - 1);
        }
    }
}

/// A byte that is there before the deadline is read: interruptions only delay
/// the wait, and the first poll that finds the descriptor ready ends it.
pub proof fn waiting_finds_the_byte(deadline: int, polls: nat, turns: Seq<Turn>, at: int)
    requires
        0 <= at < turns.len(),
        forall|i: int| 0 <= i <= at ==> (#[trigger] turns[i]).now < deadline,
        forall|i: int| 0 <= i < at ==> (#[trigger] turns[i]).polled == Polled::Failed(EINTR),
        turns[at].polled matches Polled::Ready(n) && n > 0,
    ensures
        wait_run(deadline, polls, turns) == WaitEnd::Readable((polls + at + 1) as nat),
    decreases turns.len(),
{
    assert(turns[0].now < deadline);
    if at > 0 {
        let rest = turns.drop_first();
        assert forall|i: int| 0 <= i <= at - 1 implies (#[trigger] rest[i]).now < deadline by {
            assert(rest[i] == turns[i + 1]);
        }
        assert forall|i: int| 0 <= i < at - 1 implies (#[trigger] rest[i]).polled
            == Polled::Failed(EINTR) by {
            assert(rest[i] == turns[i + 1]);
        }
        waiting_finds_the_byte(deadline, polls + 1, rest, at - 1);
    }
}

/// A wait ends as its first poll that no signal interrupted: a ready descriptor
/// is read, a poll that found nothing is the timeout, and an error is passed on.
pub proof fn waiting_ends_as_polled(deadline: int, polls: nat, turns: Seq<Turn>, at: int)
    requires
        0 <= at < turns.len(),
        forall|i: int| 0 <= i <= at ==> (#[trigger] turns[i]).now < deadline,
        forall|i: int| 0 <= i < at ==> (#[trigger] turns[i]).polled == Polled::Failed(4),
        turns[at].polled != Polled::Failed(4),
    ensures
        wait_run(deadline, polls, turns) == match turns[at].polled {
            Polled::Ready(n) => if n == 0 {
                WaitEnd::Over((polls + at + 1) as nat, PipeError::TimedOut)
            } else {
                WaitEnd::Readable((polls + at + 1) as nat)
            },
            Polled::Failed(code) => WaitEnd::Over((polls + at + 1) as nat, PipeError::Os(code)),
        },
    decreases turns.len(),
{
    assert(turns[0].now < deadline);
    if at > 0 {
        let rest = turns.drop_first();
        assert(turns[0].polled == Polled::Failed(4));
        assert forall|i: int| 0 <= i <= at - 1 implies (#[trigger] rest[i]).now < deadline by {
            assert(rest[i] == turns[i + 1]);
        }
        assert forall|i: int| 0 <= i < at - 1 implies (#[trigger] rest[i]).polled
            == Polled::Failed(4) by {
            assert(rest[i] == turns[i + 1]);
        }
        waiting_ends_as_polled(deadline, polls + 1, rest, at - 1);
    }
}

/// Every timeout that a signed 64-bit count of seconds holds can be waited for.
pub proof fn long_timeouts_are_representable(moment: int)
    ensures
        0 <= moment < 9_223_372_036_854_775_808 * 1_000_000_000 ==> representable(moment),
        HELPER_INIT_TIMEOUT_NANOS == 10_000_000_000,
{
}

} // verus!
