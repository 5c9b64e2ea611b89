//! A visit to the device outside the phases: the inspection at the start, and each
//! connection that is timed.

use crate::args::BenchmarkArgs;
use crate::run::ConnectPlan;
use vstd::prelude::*;

verus! {

/// Why a device cannot be benchmarked.
#[derive(Debug, Clone, Copy, PartialEq, Eq, Structural)]
pub enum DeviceError {
    /// The device hides its flash.
    SecureDownloadMode,
}

/// Refuses a device in Secure Download Mode.
pub fn check_download_mode(secure_download_mode: bool) -> (result: Result<(), DeviceError>)
    ensures
        result == if secure_download_mode {
            Err::<(), DeviceError>(DeviceError::SecureDownloadMode)
        } else {
            Ok(())
        },
{
    if secure_download_mode {
        return Err(DeviceError::SecureDownloadMode);
    }
    Ok(())
}

impl DeviceError {
    /// The message for the user.
    pub fn message(&self) -> (text: &'static str)
        ensures
            text@
                == "flash benchmarking is not available in Secure Download Mode because flash reads and skip checks are restricted"@,
    {
        "flash benchmarking is not available in Secure Download Mode because flash reads and skip checks are restricted"
    }
}

/// What a visit is for.
#[derive(Debug, Clone, Copy, PartialEq, Eq, Structural)]
pub enum VisitKind {
    /// To learn the chip and the baud rate.
    Inspect,
    /// To learn how long a connection takes.
    Time,
}

/// What has happened in a visit.
#[derive(Debug, Clone, Copy, PartialEq, Eq, Structural)]
pub enum VisitEvent {
    /// It begins.
    Begun,
    /// The device is connected, in Secure Download Mode or not.
    Connected(bool),
    /// The chip and the baud rate are known.
    Described,
    /// The device is reset.
    WasReset,
    /// The device could not do what it was asked for.
    Failed,
}

/// What a visit does next.
#[derive(Debug, Clone, Copy, PartialEq, Eq, Structural)]
pub enum VisitAction {
    /// Connect. The time that this takes is what a timed connection measures.
    Connect(ConnectPlan),
    /// Ask for the chip and the baud rate.
    Describe,
    /// Reset the device.
    Reset,
    /// The visit is done.
    Done,
    /// The device cannot be benchmarked.
    Refuse(DeviceError),
    /// The visit has failed.
    Stop,
}

/// The connection for a visit: as given, and nothing is verified or skipped.
pub open spec fn visit_plan(args: BenchmarkArgs) -> ConnectPlan {
    ConnectPlan { connect_args: args.connect_args, skip_verify: true, no_skip: true }
}

/// What a visit does after an event.
pub open spec fn visit_action_after(
    args: BenchmarkArgs,
    kind: VisitKind,
    event: VisitEvent,
) -> VisitAction {
    match event {
        VisitEvent::Begun => VisitAction::Connect(visit_plan(args)),
        VisitEvent::Connected(secure_download_mode) => if kind is Time {
            VisitAction::Reset
        } else if secure_download_mode {
            VisitAction::Refuse(DeviceError::SecureDownloadMode)
        } else {
            VisitAction::Describe
        },
        VisitEvent::Described => VisitAction::Reset,
        VisitEvent::WasReset => VisitAction::Done,
        VisitEvent::Failed => VisitAction::Stop,
    }
}

/// What a visit does after an event.
pub fn next_visit_action(args: &BenchmarkArgs, kind: VisitKind, event: VisitEvent) -> (action:
    VisitAction)
    ensures
        action == visit_action_after(*args, kind, event),
        event is Begun ==> {
            &&& action matches VisitAction::Connect(plan)
            &&& plan.connect_args == args.connect_args
            &&& plan.skip_verify
            &&& plan.no_skip
        },
        event matches VisitEvent::Connected(secure_download_mode) ==> {
            &&& kind is Time ==> action is Reset
            &&& kind is Inspect && secure_download_mode ==> action is Refuse
            &&& kind is Inspect && !secure_download_mode ==> action is Describe
        },
        event is Described ==> action is Reset,
        event is WasReset ==> action is Done,
        event is Failed ==> action is Stop,
{
    match event {
        VisitEvent::Begun => VisitAction::Connect(
            ConnectPlan { connect_args: args.connect_args, skip_verify: true, no_skip: true },
        ),
        VisitEvent::Connected(secure_download_mode) => match kind {
            VisitKind::Time => VisitAction::Reset,
            VisitKind::Inspect => match check_download_mode(secure_download_mode) {
                Ok(()) => VisitAction::Describe,
                Err(error) => VisitAction::Refuse(error),
            },
        },
        VisitEvent::Described => VisitAction::Reset,
        VisitEvent::WasReset => VisitAction::Done,
        VisitEvent::Failed => VisitAction::Stop,
    }
}

/// The event by which a device that does what it is asked for answers an action.
pub open spec fn answer(secure_download_mode: bool, action: VisitAction) -> VisitEvent {
    match action {
        VisitAction::Connect(_) => VisitEvent::Connected(secure_download_mode),
        VisitAction::Describe => VisitEvent::Described,
        VisitAction::Reset => VisitEvent::WasReset,
        _ => VisitEvent::Failed,
    }
}

/// The action number `n` of a visit, counted from zero, to a device that does what
/// it is asked for.
pub open spec fn nth_visit_action(
    args: BenchmarkArgs,
    kind: VisitKind,
    secure_download_mode: bool,
    n: nat,
) -> VisitAction
    decreases n,
{
    visit_action_after(
        args,
        kind,
        if n == 0 {
            VisitEvent::Begun
        } else {
            answer(
                secure_download_mode,
                nth_visit_action(args, kind, secure_download_mode, (n - 1) as nat),
            )
        },
    )
}

/// An inspection connects, asks, resets and is done. A device in Secure Download
/// Mode is refused right after the connection: it is asked nothing and not reset.
/// A timed connection connects, resets and is done, whatever the mode.
pub proof fn law_course_of_a_visit(args: BenchmarkArgs)
    ensures
        forall|kind: VisitKind, secure: bool|
            #[trigger] nth_visit_action(args, kind, secure, 0) == VisitAction::Connect(
                visit_plan(args),
            ),
        nth_visit_action(args, VisitKind::Inspect, true, 1) == VisitAction::Refuse(
            DeviceError::SecureDownloadMode,
        ),
        nth_visit_action(args, VisitKind::Inspect, false, 1) == VisitAction::Describe,
        nth_visit_action(args, VisitKind::Inspect, false, 2) == VisitAction::Reset,
        nth_visit_action(args, VisitKind::Inspect, false, 3) == VisitAction::Done,
        forall|secure: bool|
            #[trigger] nth_visit_action(args, VisitKind::Time, secure, 1) == VisitAction::Reset,
        forall|secure: bool|
            #[trigger] nth_visit_action(args, VisitKind::Time, secure, 2) == VisitAction::Done,
{
    reveal_with_fuel(nth_visit_action, 4);
}

/// A visit connects with the arguments as given, verifies nothing and skips
/// nothing. It refuses a device exactly if it inspects one in Secure Download Mode,
/// it stops exactly if the device fails, and it is done exactly after a reset.
pub proof fn law_visit_decisions(args: BenchmarkArgs, kind: VisitKind, event: VisitEvent)
    ensures
        ({
            let action = visit_action_after(args, kind, event);
            &&& action is Connect <==> event is Begun
            &&& action matches VisitAction::Connect(plan) ==> plan.connect_args
                == args.connect_args && plan.skip_verify && plan.no_skip
            &&& action is Refuse <==> kind is Inspect && event == VisitEvent::Connected(true)
            &&& action is Describe <==> kind is Inspect && event == VisitEvent::Connected(false)
            &&& action is Reset <==> event is Described || kind is Time && event is Connected
            &&& action is Done <==> event is WasReset
            &&& action is Stop <==> event is Failed
        }),
{
}

} // verus!
