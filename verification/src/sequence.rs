//! A whole startup, as the sequence of steps that it takes when each step
//! goes as given.

use crate::config::Args;
use crate::startup::{first_action, next_action, spec_first_action, spec_next_action, Action};
use vstd::prelude::*;

verus! {

/// How each fallible step of a startup goes.
#[derive(Clone, Copy, Debug, PartialEq, Eq, Structural)]
pub struct Outcomes {
    /// Logging is set up: the terminal is attached, or the log file opened.
    pub logging: bool,
    /// The worker is detached from the terminal.
    pub detach: bool,
    /// The device engine creates the device.
    pub device: bool,
    /// The privileges are dropped.
    pub privileges: bool,
    /// The signal's byte is written to the channel.
    pub report: bool,
}

impl Outcomes {
    /// Whether `action` succeeds. Final steps have nothing to fail.
    pub open spec fn spec_succeeds(self, action: Action) -> bool {
        match action {
            Action::LogToTerminal => self.logging,
            Action::OpenLogFile => self.logging,
            Action::Daemonize => self.detach,
            Action::CreateDevice => self.device,
            Action::DropPrivileges => self.privileges,
            Action::Report(_) => self.report,
            Action::Serve => true,
            Action::ExitFailure => true,
        }
    }

    /// Whether `action` succeeds under these outcomes.
    pub fn succeeds(self, action: Action) -> (ok: bool)
        ensures
            ok == self.spec_succeeds(action),
    {
        match action {
            Action::LogToTerminal | Action::OpenLogFile => self.logging,
            Action::Daemonize => self.detach,
            Action::CreateDevice => self.device,
            Action::DropPrivileges => self.privileges,
            Action::Report(_) => self.report,
            Action::Serve | Action::ExitFailure => true,
        }
    }
}

/// The steps taken from `pending` on, `pending` included, up to the final
/// one.
pub open spec fn run_from(args: &Args, env: Outcomes, pending: Action) -> Seq<Action>
    decreases 5 - pending.rank(),
{
    match spec_next_action(args, pending, env.spec_succeeds(pending)) {
        None => seq![pending],
        Some(next) => seq![pending] + run_from(args, env, next),
    }
}

/// The steps of a whole startup under `args`, in order, when each goes as
/// `env` says.
pub open spec fn spec_trace(args: &Args, env: Outcomes) -> Seq<Action> {
    run_from(args, env, spec_first_action(args))
}

/// Plays a startup through without performing anything: the steps that
/// would be taken, in order, if each went as `env` says.
pub fn rehearse(args: &Args, env: Outcomes) -> (trace: Vec<Action>)
    ensures
        trace@ == spec_trace(args, env),
{
    let mut trace: Vec<Action> = Vec::new();
    let mut pending: Action = first_action(args);
    loop
        invariant
            spec_trace(args, env) == trace@ + run_from(args, env, pending),
        decreases 5 - pending.rank(),
    {
        let ghost taken = trace@;
        trace.push(pending);
        match next_action(args, pending, env.succeeds(pending)) {
            None => {
                assert(trace@ =~= taken + seq![pending]);
                return trace;
            },
            Some(next) => {
                assert(trace@ + run_from(args, env, next) =~= taken + (seq![pending] + run_from(
                    args,
                    env,
                    next,
                )));
                pending = next;
            },
        }
    }
}

} // verus!
