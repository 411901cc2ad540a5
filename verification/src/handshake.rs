//! The one-byte handshake: what the worker writes to report how its startup
//! ended, and what the supervisor makes of what it reads.

use vstd::prelude::*;

verus! {

/// The worker's report of how its startup ended.
#[derive(Clone, Copy, Debug, PartialEq, Eq, Structural)]
pub enum HandshakeSignal {
    Failure,
    Success,
}

impl HandshakeSignal {
    /// The byte that carries this signal: 1 for success, 0 for failure.
    pub open spec fn spec_byte(self) -> u8 {
        match self {
            HandshakeSignal::Failure => 0,
            HandshakeSignal::Success => 1,
        }
    }

    /// The signal that a byte carries, if it carries one.
    pub open spec fn spec_from_byte(byte: u8) -> Option<HandshakeSignal> {
        if byte == 0 {
            Some(HandshakeSignal::Failure)
        } else if byte == 1 {
            Some(HandshakeSignal::Success)
        } else {
            None
        }
    }

    /// The byte to write for this signal.
    pub fn to_byte(self) -> (byte: u8)
        ensures
            byte == self.spec_byte(),
    {
        match self {
            HandshakeSignal::Failure => 0,
            HandshakeSignal::Success => 1,
        }
    }

    /// Reads a signal from a byte. Bytes other than 0 and 1 carry none.
    pub fn from_byte(byte: u8) -> (signal: Option<HandshakeSignal>)
        ensures
            signal == Self::spec_from_byte(byte),
    {
        if byte == 0 {
            Some(HandshakeSignal::Failure)
        } else if byte == 1 {
            Some(HandshakeSignal::Success)
        } else {
            None
        }
    }
}

/// What the listening end of the channel observed.
#[derive(Clone, Copy, Debug, PartialEq, Eq, Structural)]
pub enum Received {
    /// One byte arrived.
    Byte(u8),
    /// The writing end was closed and nothing arrived.
    Closed,
    /// The receive failed or ran out of time.
    Failed,
}

impl Received {
    /// How a receive into a one-byte buffer is read: `count` is the number
    /// of bytes that the receive reported, or `None` where it returned an
    /// error, and `first` is the buffer's byte after it.
    pub open spec fn spec_observe(count: Option<usize>, first: u8) -> Received {
        match count {
            None => Received::Failed,
            Some(n) => if n == 0 {
                Received::Closed
            } else {
                Received::Byte(first)
            },
        }
    }

    /// Classifies the result of a receive into a one-byte buffer. An error
    /// is a failed receive, zero bytes a closed channel, and anything else
    /// the byte in the buffer.
    pub fn observe(count: Option<usize>, first: u8) -> (received: Received)
        ensures
            received == Self::spec_observe(count, first),
    {
        match count {
            None => Received::Failed,
            Some(n) => if n == 0 {
                Received::Closed
            } else {
                Received::Byte(first)
            },
        }
    }
}

/// The result of a startup as the supervisor sees it.
#[derive(Clone, Copy, Debug, PartialEq, Eq, Structural)]
pub enum ProcessOutcome {
    StartedSuccessfully,
    FailedToStart,
}

/// The exit status of a process that reports a failed startup.
pub const FAILURE_EXIT_CODE: i32 = 1;

/// The outcome that an observation stands for: a started worker exactly
/// where the byte of `Success` arrived, a failed startup in every other case.
pub open spec fn spec_outcome(received: Received) -> ProcessOutcome {
    if received == Received::Byte(HandshakeSignal::Success.spec_byte()) {
        ProcessOutcome::StartedSuccessfully
    } else {
        ProcessOutcome::FailedToStart
    }
}

/// Derives the supervisor's result from what its listener observed. Only the
/// byte of `Success` counts as a start; a failure byte, any other byte, a
/// closed channel and a failed receive are all failures.
pub fn outcome_of(received: Received) -> (outcome: ProcessOutcome)
    ensures
        outcome == spec_outcome(received),
        outcome == ProcessOutcome::StartedSuccessfully <==> received == Received::Byte(1u8),
{
    match received {
        Received::Byte(byte) => {
            if byte == 1 {
                ProcessOutcome::StartedSuccessfully
            } else {
                ProcessOutcome::FailedToStart
            }
        },
        Received::Closed => ProcessOutcome::FailedToStart,
        Received::Failed => ProcessOutcome::FailedToStart,
    }
}

impl ProcessOutcome {
    /// The exit status that stands for this outcome.
    pub open spec fn spec_exit_code(self) -> i32 {
        match self {
            ProcessOutcome::StartedSuccessfully => 0,
            ProcessOutcome::FailedToStart => FAILURE_EXIT_CODE,
        }
    }

    /// The line that tells the caller of this outcome.
    pub open spec fn spec_message(self) -> Seq<char> {
        match self {
            ProcessOutcome::StartedSuccessfully => "BoringTun started successfully"@,
            ProcessOutcome::FailedToStart => "BoringTun failed to start"@,
        }
    }

    /// The exit status of the supervising process: 0 for a confirmed start,
    /// non-zero otherwise.
    pub fn exit_code(self) -> (code: i32)
        ensures
            code == self.spec_exit_code(),
            code == 0 <==> self == ProcessOutcome::StartedSuccessfully,
    {
        match self {
            ProcessOutcome::StartedSuccessfully => 0,
            ProcessOutcome::FailedToStart => FAILURE_EXIT_CODE,
        }
    }

    /// The line printed for the caller: to the output stream for a start, to
    /// the error stream for a failure.
    pub fn message(self) -> (line: &'static str)
        ensures
            line@ == self.spec_message(),
    {
        match self {
            ProcessOutcome::StartedSuccessfully => "BoringTun started successfully",
            ProcessOutcome::FailedToStart => "BoringTun failed to start",
        }
    }
}

/// A signal survives being written as a byte and read back.
pub proof fn lemma_signal_round_trip(signal: HandshakeSignal)
    ensures
        HandshakeSignal::spec_from_byte(signal.spec_byte()) == Some(signal),
{
}

/// A byte that carries a signal is the byte of that signal, so no two bytes
/// carry the same one.
pub proof fn lemma_byte_round_trip(byte: u8)
    ensures
        HandshakeSignal::spec_from_byte(byte) matches Some(signal) ==> signal.spec_byte() == byte,
        HandshakeSignal::spec_from_byte(byte) is Some <==> byte <= 1,
{
}

/// A channel that closes without a byte, and a receive that fails, are never
/// taken for a start; neither is any signal but `Success`.
pub proof fn lemma_no_false_start(received: Received)
    ensures
        received == Received::Closed ==> spec_outcome(received) == ProcessOutcome::FailedToStart,
        received == Received::Failed ==> spec_outcome(received) == ProcessOutcome::FailedToStart,
        spec_outcome(received) == ProcessOutcome::StartedSuccessfully <==> received
            == Received::Byte(HandshakeSignal::Success.spec_byte()),
        spec_outcome(received).spec_exit_code() == 0 <==> received == Received::Byte(
            HandshakeSignal::Success.spec_byte(),
        ),
{
}

} // verus!
