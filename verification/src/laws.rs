//! What holds of every startup, whatever the configuration and however the
//! steps go.

use crate::config::Args;
use crate::handshake::{spec_outcome, HandshakeSignal, ProcessOutcome, Received};
use crate::sequence::{run_from, spec_trace, Outcomes};
use crate::startup::{spec_first_action, Action};
use vstd::prelude::*;

verus! {

/// Whether a worker comes to exist and gets as far as asking for the device:
/// logging was set up and, in the background, the worker was detached.
pub open spec fn worker_starts(args: &Args, env: Outcomes) -> bool {
    env.logging && (args.foreground || env.detach)
}

/// Whether every fallible step of the worker goes well: the device is
/// created and the privileges, unless the configuration keeps them, are
/// dropped.
pub open spec fn worker_is_ready(args: &Args, env: Outcomes) -> bool {
    env.device && (args.disable_drop_privileges || env.privileges)
}

/// The signal that the worker sets out to write, if it gets that far.
pub open spec fn spec_signal(args: &Args, env: Outcomes) -> Option<HandshakeSignal> {
    if !worker_starts(args, env) {
        None
    } else if worker_is_ready(args, env) {
        Some(HandshakeSignal::Success)
    } else {
        Some(HandshakeSignal::Failure)
    }
}

/// What the listening end observes of a startup: the byte of the worker's
/// signal where one was written, a closed channel otherwise.
pub open spec fn spec_observed(args: &Args, env: Outcomes) -> Received {
    match spec_signal(args, env) {
        Some(signal) => if env.report {
            Received::Byte(signal.spec_byte())
        } else {
            Received::Closed
        },
        None => Received::Closed,
    }
}

/// Whether `trace` holds exactly one report, and that of `signal`.
pub open spec fn reports_exactly(trace: Seq<Action>, signal: HandshakeSignal) -> bool {
    exists|i: int|
        {
            &&& 0 <= i < trace.len()
            &&& #[trigger] trace[i] == Action::Report(signal)
            &&& forall|j: int| 0 <= j < trace.len() && #[trigger] trace[j] is Report ==> j == i
        }
}

/// Whether `trace` holds no report at all.
pub open spec fn reports_nothing(trace: Seq<Action>) -> bool {
    forall|j: int| 0 <= j < trace.len() ==> !(#[trigger] trace[j] is Report)
}

/// The steps that come before the device is asked for.
pub open spec fn setup_steps(args: &Args) -> Seq<Action> {
    if args.foreground {
        seq![Action::LogToTerminal]
    } else {
        seq![Action::OpenLogFile, Action::Daemonize]
    }
}

/// The steps of a worker, from asking for the device to its final step.
pub open spec fn worker_steps(args: &Args, env: Outcomes) -> Seq<Action> {
    let last = if env.report {
        Action::Serve
    } else {
        Action::ExitFailure
    };
    if !env.device {
        seq![Action::CreateDevice, Action::Report(HandshakeSignal::Failure), Action::ExitFailure]
    } else if args.disable_drop_privileges {
        seq![Action::CreateDevice, Action::Report(HandshakeSignal::Success), last]
    } else if !env.privileges {
        seq![
            Action::CreateDevice,
            Action::DropPrivileges,
            Action::Report(HandshakeSignal::Failure),
            Action::ExitFailure,
        ]
    } else {
        seq![
            Action::CreateDevice,
            Action::DropPrivileges,
            Action::Report(HandshakeSignal::Success),
            last,
        ]
    }
}

/// Every startup has one of three shapes. Where logging cannot be set up it
/// ends at once; where the worker cannot be detached it ends after that
/// attempt; otherwise the setup is followed by the worker's steps.
pub proof fn lemma_trace_shape(args: &Args, env: Outcomes)
    ensures
        !env.logging ==> spec_trace(args, env) == seq![
            spec_first_action(args),
            Action::ExitFailure,
        ],
        env.logging && !args.foreground && !env.detach ==> spec_trace(args, env) == seq![
            Action::OpenLogFile,
            Action::Daemonize,
            Action::ExitFailure,
        ],
        worker_starts(args, env) ==> spec_trace(args, env) == setup_steps(args) + worker_steps(
            args,
            env,
        ),
{
    reveal_with_fuel(run_from, 7);
    let trace = spec_trace(args, env);
    if !env.logging {
        assert(trace =~= seq![spec_first_action(args), Action::ExitFailure]);
    } else if !args.foreground && !env.detach {
        assert(trace =~= seq![Action::OpenLogFile, Action::Daemonize, Action::ExitFailure]);
    } else {
        assert(trace =~= setup_steps(args) + worker_steps(args, env));
    }
}

/// Whether some `first` in `trace` stands before some `second`.
pub open spec fn precedes(trace: Seq<Action>, first: Action, second: Action) -> bool {
    exists|i: int, j: int|
        0 <= i < j < trace.len() && #[trigger] trace[i] == first && #[trigger] trace[j] == second
}

/// Where the device is created and the privileges are dropped (or kept by
/// the configuration), and the byte can be written, the worker reports
/// `Success` and nothing else, goes on to serve, and the supervisor takes
/// the startup for a success and exits with 0.
pub proof fn lemma_ready_worker_reports_success(args: &Args, env: Outcomes)
    requires
        worker_starts(args, env),
        env.device,
        args.disable_drop_privileges || env.privileges,
        env.report,
    ensures
        reports_exactly(spec_trace(args, env), HandshakeSignal::Success),
        spec_trace(args, env).last() == Action::Serve,
        spec_observed(args, env) == Received::Byte(1u8),
        spec_outcome(spec_observed(args, env)) == ProcessOutcome::StartedSuccessfully,
        spec_outcome(spec_observed(args, env)).spec_exit_code() == 0,
{
    lemma_trace_shape(args, env);
    let trace = spec_trace(args, env);
    let at = setup_steps(args).len() as int + worker_steps(args, env).len() as int - 2;
    assert(trace[at] == Action::Report(HandshakeSignal::Success));
}

/// Where the device cannot be created, the worker reports `Failure` and
/// nothing else, never comes to the privilege drop, and ends with a non-zero
/// status; the supervisor takes the startup for a failure whether or not the
/// byte arrives.
pub proof fn lemma_device_failure_reports_failure(args: &Args, env: Outcomes)
    requires
        worker_starts(args, env),
        !env.device,
    ensures
        reports_exactly(spec_trace(args, env), HandshakeSignal::Failure),
        !spec_trace(args, env).contains(Action::DropPrivileges),
        !spec_trace(args, env).contains(Action::Serve),
        spec_trace(args, env).last() == Action::ExitFailure,
        spec_outcome(spec_observed(args, env)) == ProcessOutcome::FailedToStart,
        spec_outcome(spec_observed(args, env)).spec_exit_code() != 0,
{
    lemma_trace_shape(args, env);
    let trace = spec_trace(args, env);
    let at = setup_steps(args).len() as int + 1;
    assert(trace[at] == Action::Report(HandshakeSignal::Failure));
}

/// Where the device is created and the privilege drop then fails, the
/// worker still reports `Failure` and nothing else: a live device alone is no
/// success. The drop comes after the device and before the report.
pub proof fn lemma_privilege_failure_reports_failure(args: &Args, env: Outcomes)
    requires
        worker_starts(args, env),
        env.device,
        !args.disable_drop_privileges,
        !env.privileges,
    ensures
        reports_exactly(spec_trace(args, env), HandshakeSignal::Failure),
        precedes(spec_trace(args, env), Action::CreateDevice, Action::DropPrivileges),
        precedes(
            spec_trace(args, env),
            Action::DropPrivileges,
            Action::Report(HandshakeSignal::Failure),
        ),
        !spec_trace(args, env).contains(Action::Serve),
        spec_trace(args, env).last() == Action::ExitFailure,
        spec_outcome(spec_observed(args, env)) == ProcessOutcome::FailedToStart,
        spec_outcome(spec_observed(args, env)).spec_exit_code() != 0,
{
    lemma_trace_shape(args, env);
    let trace = spec_trace(args, env);
    let at = setup_steps(args).len() as int;
    assert(trace[at] == Action::CreateDevice);
    assert(trace[at + 1] == Action::DropPrivileges);
    assert(trace[at + 2] == Action::Report(HandshakeSignal::Failure));
}

/// A startup that never gets a worker reports nothing: the channel closes
/// without a byte, and the supervisor takes that for a failure.
pub proof fn lemma_no_worker_reports_nothing(args: &Args, env: Outcomes)
    requires
        !worker_starts(args, env),
    ensures
        reports_nothing(spec_trace(args, env)),
        !spec_trace(args, env).contains(Action::CreateDevice),
        spec_trace(args, env).last() == Action::ExitFailure,
        spec_observed(args, env) == Received::Closed,
        spec_outcome(spec_observed(args, env)) == ProcessOutcome::FailedToStart,
{
    lemma_trace_shape(args, env);
}

/// Every worker writes exactly one signal, `Success` where all its fallible
/// steps went well and `Failure` otherwise; where no worker comes to exist,
/// nothing is written.
pub proof fn lemma_every_worker_reports_once(args: &Args, env: Outcomes)
    ensures
        match spec_signal(args, env) {
            Some(signal) => reports_exactly(spec_trace(args, env), signal),
            None => reports_nothing(spec_trace(args, env)),
        },
{
    lemma_trace_shape(args, env);
    let trace = spec_trace(args, env);
    if worker_starts(args, env) {
        let at = setup_steps(args).len() as int + worker_steps(args, env).len() as int - 2;
        assert(trace[at] is Report);
    }
}

/// The supervisor sees a success exactly where the worker started, every
/// fallible step of it went well, and the byte was written.
pub proof fn lemma_success_iff_all_steps_succeed(args: &Args, env: Outcomes)
    ensures
        spec_outcome(spec_observed(args, env)) == ProcessOutcome::StartedSuccessfully <==> (
        worker_starts(args, env) && worker_is_ready(args, env) && env.report),
        spec_trace(args, env).last() == Action::Serve <==> (worker_starts(args, env)
            && worker_is_ready(args, env) && env.report),
        spec_trace(args, env).last().is_final(),
{
    lemma_trace_shape(args, env);
}

/// In every startup at most one signal is written. It is written after the
/// device was asked for and after every other fallible step, so only a final
/// step follows it; and the worker serves only right after it has written
/// `Success`.
pub proof fn lemma_one_signal_after_all_fallible_steps(args: &Args, env: Outcomes)
    ensures
        forall|i: int, j: int|
            0 <= i < spec_trace(args, env).len() && 0 <= j < spec_trace(args, env).len()
                && #[trigger] spec_trace(args, env)[i] is Report
                && #[trigger] spec_trace(args, env)[j] is Report ==> i == j,
        forall|i: int|
            0 <= i < spec_trace(args, env).len() && #[trigger] spec_trace(args, env)[i] is Report
                ==> {
                &&& i + 2 == spec_trace(args, env).len()
                &&& spec_trace(args, env)[i + 1].is_final()
                &&& exists|k: int|
                    0 <= k < i && #[trigger] spec_trace(args, env)[k] == Action::CreateDevice
            },
        forall|i: int|
            0 <= i < spec_trace(args, env).len() && #[trigger] spec_trace(args, env)[i]
                == Action::Serve ==> i >= 1 && spec_trace(args, env)[i - 1] == Action::Report(
                HandshakeSignal::Success,
            ),
        forall|i: int|
            0 <= i < spec_trace(args, env).len() && #[trigger] spec_trace(args, env)[i]
                == Action::DropPrivileges ==> i >= 1 && spec_trace(args, env)[i - 1]
                == Action::CreateDevice && env.device && !args.disable_drop_privileges,
{
    lemma_trace_shape(args, env);
    let trace = spec_trace(args, env);
    if worker_starts(args, env) {
        let at = setup_steps(args).len() as int;
        assert(trace[at] == Action::CreateDevice);
    }
}

/// In the foreground no log file is ever opened. In the background the
/// configured log file is opened first of all, before the worker is
/// detached, and no worker is detached without it.
pub proof fn lemma_log_file_only_in_background(args: &Args, env: Outcomes)
    ensures
        args.foreground ==> !spec_trace(args, env).contains(Action::OpenLogFile)
            && !spec_trace(args, env).contains(Action::Daemonize),
        !args.foreground ==> spec_trace(args, env)[0] == Action::OpenLogFile
            && !spec_trace(args, env).contains(Action::LogToTerminal),
        forall|i: int|
            0 <= i < spec_trace(args, env).len() && #[trigger] spec_trace(args, env)[i]
                == Action::Daemonize ==> i == 1 && spec_trace(args, env)[0] == Action::OpenLogFile
                && env.logging,
        forall|i: int|
            0 <= i < spec_trace(args, env).len() && #[trigger] spec_trace(args, env)[i]
                == Action::OpenLogFile ==> i == 0 && !args.foreground,
{
    lemma_trace_shape(args, env);
}

} // verus!
