//! The order of a startup: which step is taken first, and which step follows
//! a step that succeeded or failed. The caller performs each step and comes
//! back with how it went.

use crate::config::Args;
use crate::handshake::HandshakeSignal;
use vstd::prelude::*;

verus! {

/// One step of a startup, for the caller to perform.
#[derive(Clone, Copy, Debug, PartialEq, Eq, Structural)]
pub enum Action {
    /// Attach logging to the terminal.
    LogToTerminal,
    /// Create or open the configured log file and send logging there.
    OpenLogFile,
    /// Detach a worker from the terminal; the process that was invoked stays
    /// behind and listens for the worker's signal.
    Daemonize,
    /// Ask the device engine for the tunnel device.
    CreateDevice,
    /// Give up elevated privileges.
    DropPrivileges,
    /// Write the signal's byte to the reporting end of the channel.
    Report(HandshakeSignal),
    /// Close the reporting end and serve the tunnel for the rest of the
    /// worker's life.
    Serve,
    /// End the process with a non-zero status.
    ExitFailure,
}

impl Action {
    /// Whether nothing follows this step.
    pub open spec fn is_final(self) -> bool {
        self == Action::Serve || self == Action::ExitFailure
    }

    /// The place of a step in the order of a startup: every step that follows
    /// another has a higher rank.
    pub open spec fn rank(self) -> int {
        match self {
            Action::LogToTerminal => 0,
            Action::OpenLogFile => 0,
            Action::Daemonize => 1,
            Action::CreateDevice => 2,
            Action::DropPrivileges => 3,
            Action::Report(_) => 4,
            Action::Serve => 5,
            Action::ExitFailure => 5,
        }
    }
}

/// The step that a startup begins with: in the foreground logging goes to the
/// terminal, in the background the log file is opened first.
pub open spec fn spec_first_action(args: &Args) -> Action {
    if args.foreground {
        Action::LogToTerminal
    } else {
        Action::OpenLogFile
    }
}

/// The step that follows `done`, given whether it succeeded; `None` after a
/// final step.
///
/// A failure before the worker exists ends the process with nothing
/// reported. A failure of the device or of the privilege drop is reported
/// before the process ends. Success is reported only when the device is live
/// and, unless the configuration keeps them, the privileges are dropped. A
/// report that cannot be written ends the process.
pub open spec fn spec_next_action(args: &Args, done: Action, succeeded: bool) -> Option<Action> {
    match done {
        Action::LogToTerminal => Some(
            if succeeded {
                Action::CreateDevice
            } else {
                Action::ExitFailure
            },
        ),
        Action::OpenLogFile => Some(
            if succeeded {
                Action::Daemonize
            } else {
                Action::ExitFailure
            },
        ),
        Action::Daemonize => Some(
            if succeeded {
                Action::CreateDevice
            } else {
                Action::ExitFailure
            },
        ),
        Action::CreateDevice => Some(
            if !succeeded {
                Action::Report(HandshakeSignal::Failure)
            } else if args.disable_drop_privileges {
                Action::Report(HandshakeSignal::Success)
            } else {
                Action::DropPrivileges
            },
        ),
        Action::DropPrivileges => Some(
            if succeeded {
                Action::Report(HandshakeSignal::Success)
            } else {
                Action::Report(HandshakeSignal::Failure)
            },
        ),
        Action::Report(signal) => Some(
            if succeeded && signal == HandshakeSignal::Success {
                Action::Serve
            } else {
                Action::ExitFailure
            },
        ),
        Action::Serve => None,
        Action::ExitFailure => None,
    }
}

/// The first step of a startup under `args`.
pub fn first_action(args: &Args) -> (action: Action)
    ensures
        action == spec_first_action(args),
{
    if args.foreground {
        Action::LogToTerminal
    } else {
        Action::OpenLogFile
    }
}

/// The step to take after `done` has succeeded or failed, or `None` where
/// `done` was final.
pub fn next_action(args: &Args, done: Action, succeeded: bool) -> (next: Option<Action>)
    ensures
        next == spec_next_action(args, done, succeeded),
        next is None <==> done.is_final(),
        next matches Some(action) ==> action.rank() > done.rank(),
{
    match done {
        Action::LogToTerminal | Action::Daemonize => {
            if succeeded {
                Some(Action::CreateDevice)
            } else {
                Some(Action::ExitFailure)
            }
        },
        Action::OpenLogFile => {
            if succeeded {
                Some(Action::Daemonize)
            } else {
                Some(Action::ExitFailure)
            }
        },
        Action::CreateDevice => {
            if !succeeded {
                Some(Action::Report(HandshakeSignal::Failure))
            } else if args.disable_drop_privileges {
                Some(Action::Report(HandshakeSignal::Success))
            } else {
                Some(Action::DropPrivileges)
            }
        },
        Action::DropPrivileges => {
            if succeeded {
                Some(Action::Report(HandshakeSignal::Success))
            } else {
                Some(Action::Report(HandshakeSignal::Failure))
            }
        },
        Action::Report(signal) => {
            match signal {
                HandshakeSignal::Success => {
                    if succeeded {
                        Some(Action::Serve)
                    } else {
                        Some(Action::ExitFailure)
                    }
                },
                HandshakeSignal::Failure => Some(Action::ExitFailure),
            }
        },
        Action::Serve => None,
        Action::ExitFailure => None,
    }
}

/// Why a startup failed, by the step that failed.
#[derive(Clone, Copy, Debug, PartialEq, Eq, Structural)]
pub enum StartupError {
    /// Logging could not be set up.
    Logging,
    /// The worker could not be detached.
    Daemonization,
    /// The device engine refused the name, descriptor or settings.
    DeviceCreation,
    /// The privileges could not be dropped.
    PrivilegeDrop,
    /// The signal could not be written: the listening end is gone.
    Handshake,
}

impl StartupError {
    /// Whether the worker tells the supervisor of this failure through the
    /// channel. It does so for the failures that happen once a worker exists
    /// and the channel can still be written.
    pub open spec fn spec_is_reported(self) -> bool {
        self == StartupError::DeviceCreation || self == StartupError::PrivilegeDrop
    }

    /// Whether a `Failure` signal is written for this error before the
    /// process ends.
    pub fn is_reported(self) -> (reported: bool)
        ensures
            reported == self.spec_is_reported(),
    {
        match self {
            StartupError::DeviceCreation | StartupError::PrivilegeDrop => true,
            StartupError::Logging | StartupError::Daemonization | StartupError::Handshake => false,
        }
    }
}

impl Action {
    /// The error that a failure of this step is; `None` for the final steps,
    /// which cannot fail.
    pub open spec fn spec_failure(self) -> Option<StartupError> {
        match self {
            Action::LogToTerminal => Some(StartupError::Logging),
            Action::OpenLogFile => Some(StartupError::Logging),
            Action::Daemonize => Some(StartupError::Daemonization),
            Action::CreateDevice => Some(StartupError::DeviceCreation),
            Action::DropPrivileges => Some(StartupError::PrivilegeDrop),
            Action::Report(_) => Some(StartupError::Handshake),
            Action::Serve => None,
            Action::ExitFailure => None,
        }
    }

    /// Names the error that a failure of this step is.
    pub fn failure(self) -> (error: Option<StartupError>)
        ensures
            error == self.spec_failure(),
            error is None <==> self.is_final(),
    {
        match self {
            Action::LogToTerminal | Action::OpenLogFile => Some(StartupError::Logging),
            Action::Daemonize => Some(StartupError::Daemonization),
            Action::CreateDevice => Some(StartupError::DeviceCreation),
            Action::DropPrivileges => Some(StartupError::PrivilegeDrop),
            Action::Report(_) => Some(StartupError::Handshake),
            Action::Serve | Action::ExitFailure => None,
        }
    }
}

/// A failed step is never retried and never passed over: what follows it is
/// the report of `Failure` where the error is one that is reported, and the
/// end of the process otherwise.
pub proof fn lemma_failure_ends_the_startup(args: &Args, done: Action)
    requires
        !done.is_final(),
    ensures
        done.spec_failure() matches Some(error) && spec_next_action(args, done, false) == Some(
            if error.spec_is_reported() {
                Action::Report(HandshakeSignal::Failure)
            } else {
                Action::ExitFailure
            },
        ),
{
}

/// Every step that follows another stands later in the order, so no step is
/// taken twice and every startup comes to a final step.
pub proof fn lemma_steps_advance(args: &Args, done: Action, succeeded: bool)
    ensures
        spec_next_action(args, done, succeeded) is None <==> done.is_final(),
        spec_next_action(args, done, succeeded) matches Some(next) ==> done.rank() < next.rank()
            <= 5,
{
}

} // verus!
