//! What the watch loop does next.

use crate::watch::commands::WatchCommandFlow;
use crate::watch::runtime_cycle::RuntimeCycleFlow;
use vstd::prelude::*;

verus! {

/// Where the loop stands.
#[derive(Clone, Copy, Debug, PartialEq, Eq, Structural)]
pub enum WatchPhase {
    /// The surfaces are to be brought up to date for the first time.
    Starting,
    /// The first observation is waited for.
    InitialSnapshot,
    /// A round begins: the surfaces are brought up to date.
    Surfaces,
    /// The messages that have arrived are dealt with.
    Control,
    /// A column that is being resized by hand is looked at.
    Resize,
    /// News of the windows is waited for.
    Cycle,
    /// The loop has ended, with an exit code.
    Ended { code: u8 },
}

/// What has been done in a phase.
#[derive(Clone, Copy, Debug, PartialEq, Eq, Structural)]
pub enum WatchEvent {
    SurfacesSynced,
    InitialSnapshotTaken,
    InitialSnapshotFailed,
    NoMessage,
    MessageHandled(WatchCommandFlow),
    ResizeIdle,
    ResizeRecorded,
    ResizeFailed,
    CycleDone(RuntimeCycleFlow),
}

/// What has to be done next.
#[derive(Clone, Copy, Debug, PartialEq, Eq, Structural)]
pub enum WatchAction {
    SyncSurfaces,
    TakeInitialSnapshot,
    ReceiveMessage,
    TickResize,
    RunCycle,
    /// End the daemon with an exit code.
    Exit { code: u8 },
}

/// The loop and the number of iterations after which it ends, if there is one.
#[derive(Clone, Copy, Debug, PartialEq, Eq, Structural)]
pub struct WatchLoop {
    pub phase: WatchPhase,
    pub iterations: Option<u64>,
}

/// Whether enough iterations have been made.
pub open spec fn limit_reached(iterations: Option<u64>, completed: u64) -> bool {
    iterations matches Some(limit) && completed >= limit
}

pub fn iteration_limit_reached(iterations: Option<u64>, completed_iterations: u64) -> (r: bool)
    ensures
        r == limit_reached(iterations, completed_iterations),
{
    match iterations {
        Some(limit) => completed_iterations >= limit,
        None => false,
    }
}

impl WatchPhase {
    /// What is done in a phase.
    pub open spec fn action(self) -> WatchAction {
        match self {
            WatchPhase::Starting | WatchPhase::Surfaces => WatchAction::SyncSurfaces,
            WatchPhase::InitialSnapshot => WatchAction::TakeInitialSnapshot,
            WatchPhase::Control => WatchAction::ReceiveMessage,
            WatchPhase::Resize => WatchAction::TickResize,
            WatchPhase::Cycle => WatchAction::RunCycle,
            WatchPhase::Ended { code } => WatchAction::Exit { code },
        }
    }
}

/// The end of the loop.
pub open spec fn ended(code: u8) -> (WatchPhase, WatchAction) {
    (WatchPhase::Ended { code }, WatchAction::Exit { code })
}

/// Goes on with a phase, unless enough iterations have been made.
pub open spec fn unless_enough(next: WatchPhase, enough: bool) -> (WatchPhase, WatchAction) {
    if enough {
        ended(0)
    } else {
        (next, next.action())
    }
}

/// The phase after an event, and what has to be done in it. Messages are dealt with until
/// none is left. An event that does not belong to a phase changes nothing.
pub open spec fn next_phase(phase: WatchPhase, event: WatchEvent, enough: bool) -> (
    WatchPhase,
    WatchAction,
) {
    match (phase, event) {
        (WatchPhase::Starting, WatchEvent::SurfacesSynced) => unless_enough(
            WatchPhase::InitialSnapshot,
            false,
        ),
        (WatchPhase::InitialSnapshot, WatchEvent::InitialSnapshotTaken) => unless_enough(
            WatchPhase::Surfaces,
            enough,
        ),
        (WatchPhase::InitialSnapshot, WatchEvent::InitialSnapshotFailed) => ended(1),
        (WatchPhase::Surfaces, WatchEvent::SurfacesSynced) => unless_enough(
            WatchPhase::Control,
            false,
        ),
        (WatchPhase::Control, WatchEvent::NoMessage) => unless_enough(WatchPhase::Resize, false),
        (WatchPhase::Control, WatchEvent::MessageHandled(flow)) => match flow {
            WatchCommandFlow::Continue => unless_enough(WatchPhase::Control, enough),
            WatchCommandFlow::Quit => ended(0),
            WatchCommandFlow::Exit(code) => ended(code),
        },
        (WatchPhase::Resize, WatchEvent::ResizeIdle) => unless_enough(WatchPhase::Cycle, false),
        (WatchPhase::Resize, WatchEvent::ResizeRecorded) => unless_enough(
            WatchPhase::Cycle,
            enough,
        ),
        (WatchPhase::Resize, WatchEvent::ResizeFailed) => ended(1),
        (WatchPhase::Cycle, WatchEvent::CycleDone(flow)) => match flow {
            RuntimeCycleFlow::NoWork => unless_enough(WatchPhase::Surfaces, false),
            RuntimeCycleFlow::IterationRecorded => unless_enough(WatchPhase::Surfaces, enough),
            RuntimeCycleFlow::Exit(code) => ended(code),
        },
        _ => (phase, phase.action()),
    }
}

fn action_of(phase: WatchPhase) -> (r: WatchAction)
    ensures
        r == phase.action(),
{
    match phase {
        WatchPhase::Starting | WatchPhase::Surfaces => WatchAction::SyncSurfaces,
        WatchPhase::InitialSnapshot => WatchAction::TakeInitialSnapshot,
        WatchPhase::Control => WatchAction::ReceiveMessage,
        WatchPhase::Resize => WatchAction::TickResize,
        WatchPhase::Cycle => WatchAction::RunCycle,
        WatchPhase::Ended { code } => WatchAction::Exit { code },
    }
}

impl WatchLoop {
    pub fn new(iterations: Option<u64>) -> (r: WatchLoop)
        ensures
            r == (WatchLoop { phase: WatchPhase::Starting, iterations }),
    {
        WatchLoop { phase: WatchPhase::Starting, iterations }
    }

    /// What the loop starts with.
    pub fn first_action(&self) -> (r: WatchAction)
        ensures
            r == self.phase.action(),
    {
        action_of(self.phase)
    }

    fn go_on(&mut self, next: WatchPhase) -> (r: WatchAction)
        ensures
            *final(self) == (WatchLoop { phase: next, ..*old(self) }),
            r == next.action(),
    {
        self.phase = next;
        action_of(next)
    }

    fn end(&mut self, code: u8) -> (r: WatchAction)
        ensures
            *final(self) == (WatchLoop { phase: WatchPhase::Ended { code }, ..*old(self) }),
            r == (WatchAction::Exit { code }),
    {
        self.phase = WatchPhase::Ended { code };
        WatchAction::Exit { code }
    }

    /// Decides what comes after an event, by the iterations made so far.
    pub fn step(&mut self, event: WatchEvent, completed_iterations: u64) -> (r: WatchAction)
        ensures
            final(self).iterations == old(self).iterations,
            (final(self).phase, r) == next_phase(
                old(self).phase,
                event,
                limit_reached(old(self).iterations, completed_iterations),
            ),
    {
        let enough: bool = iteration_limit_reached(self.iterations, completed_iterations);
        match (self.phase, event) {
            (WatchPhase::Starting, WatchEvent::SurfacesSynced) => self.go_on(
                WatchPhase::InitialSnapshot,
            ),
            (WatchPhase::InitialSnapshot, WatchEvent::InitialSnapshotTaken) => if enough {
                self.end(0)
            } else {
                self.go_on(WatchPhase::Surfaces)
            },
            (WatchPhase::InitialSnapshot, WatchEvent::InitialSnapshotFailed) => self.end(1),
            (WatchPhase::Surfaces, WatchEvent::SurfacesSynced) => self.go_on(WatchPhase::Control),
            (WatchPhase::Control, WatchEvent::NoMessage) => self.go_on(WatchPhase::Resize),
            (WatchPhase::Control, WatchEvent::MessageHandled(flow)) => match flow {
                WatchCommandFlow::Continue => if enough {
                    self.end(0)
                } else {
                    self.go_on(WatchPhase::Control)
                },
                WatchCommandFlow::Quit => self.end(0),
                WatchCommandFlow::Exit(code) => self.end(code),
            },
            (WatchPhase::Resize, WatchEvent::ResizeIdle) => self.go_on(WatchPhase::Cycle),
            (WatchPhase::Resize, WatchEvent::ResizeRecorded) => if enough {
                self.end(0)
            } else {
                self.go_on(WatchPhase::Cycle)
            },
            (WatchPhase::Resize, WatchEvent::ResizeFailed) => self.end(1),
            (WatchPhase::Cycle, WatchEvent::CycleDone(flow)) => match flow {
                RuntimeCycleFlow::NoWork => self.go_on(WatchPhase::Surfaces),
                RuntimeCycleFlow::IterationRecorded => if enough {
                    self.end(0)
                } else {
                    self.go_on(WatchPhase::Surfaces)
                },
                RuntimeCycleFlow::Exit(code) => self.end(code),
            },
            _ => action_of(self.phase),
        }
    }
}

/// Whether an iteration was recorded by what an event tells of.
pub open spec fn may_record(event: WatchEvent) -> bool {
    match event {
        WatchEvent::InitialSnapshotTaken => true,
        WatchEvent::MessageHandled(flow) => flow is Continue,
        WatchEvent::ResizeRecorded => true,
        WatchEvent::CycleDone(flow) => flow is IterationRecorded,
        _ => false,
    }
}

/// What an event belongs to.
pub open spec fn belongs(phase: WatchPhase, event: WatchEvent) -> bool {
    match event {
        WatchEvent::SurfacesSynced => phase is Starting || phase is Surfaces,
        WatchEvent::InitialSnapshotTaken | WatchEvent::InitialSnapshotFailed => phase
            is InitialSnapshot,
        WatchEvent::NoMessage | WatchEvent::MessageHandled(_) => phase is Control,
        WatchEvent::ResizeIdle | WatchEvent::ResizeRecorded | WatchEvent::ResizeFailed => phase
            is Resize,
        WatchEvent::CycleDone(_) => phase is Cycle,
    }
}

/// The loop ends as soon as enough iterations have been recorded: whatever could have recorded
/// the last one, the loop stops after it and exits well.
pub proof fn law_limit_ends_the_loop(phase: WatchPhase, event: WatchEvent)
    requires
        belongs(phase, event),
        may_record(event),
    ensures
        next_phase(phase, event, true) == ended(0),
{
}

/// Without a limit only a command to quit, a failure or an exit ends the loop.
pub proof fn law_loop_ends_only_when_told(phase: WatchPhase, event: WatchEvent)
    requires
        !(phase is Ended),
        next_phase(phase, event, false).0 is Ended,
    ensures
        match event {
            WatchEvent::MessageHandled(flow) => !(flow is Continue),
            WatchEvent::CycleDone(flow) => flow is Exit,
            _ => event is InitialSnapshotFailed || event is ResizeFailed,
        },
{
}

/// A loop that has ended stays ended, with the code that it ended with.
pub proof fn law_end_is_final(code: u8, event: WatchEvent, enough: bool)
    ensures
        next_phase(WatchPhase::Ended { code }, event, enough) == ended(code),
{
}

/// Every round of the loop brings the surfaces up to date before it takes messages, and takes
/// messages until none is left before it waits for news of the windows.
pub proof fn law_rounds_keep_their_order(phase: WatchPhase, event: WatchEvent, enough: bool)
    ensures
        ({
            let next = next_phase(phase, event, enough).0;
            &&& next is Control && !(phase is Control) ==> phase is Surfaces && event
                is SurfacesSynced
            &&& next is Resize && !(phase is Resize) ==> phase is Control && event is NoMessage
            &&& next is Cycle && !(phase is Cycle) ==> phase is Resize
            &&& next is Surfaces && !(phase is Surfaces) ==> phase is Cycle || phase
                is InitialSnapshot
        }),
{
}

/// The way through the loop: surfaces, the first snapshot, and then rounds of surfaces,
/// messages, resizing and news. In every phase the loop asks for what belongs to it.
pub proof fn law_the_loop_goes_round(phase: WatchPhase, code: u8)
    ensures
        next_phase(WatchPhase::Starting, WatchEvent::SurfacesSynced, false) == (
            WatchPhase::InitialSnapshot,
            WatchAction::TakeInitialSnapshot,
        ),
        next_phase(WatchPhase::InitialSnapshot, WatchEvent::InitialSnapshotTaken, false) == (
            WatchPhase::Surfaces,
            WatchAction::SyncSurfaces,
        ),
        next_phase(WatchPhase::InitialSnapshot, WatchEvent::InitialSnapshotFailed, false) == (
            WatchPhase::Ended { code: 1 },
            WatchAction::Exit { code: 1 },
        ),
        next_phase(WatchPhase::Surfaces, WatchEvent::SurfacesSynced, false) == (
            WatchPhase::Control,
            WatchAction::ReceiveMessage,
        ),
        next_phase(
            WatchPhase::Control,
            WatchEvent::MessageHandled(WatchCommandFlow::Continue),
            false,
        ) == (WatchPhase::Control, WatchAction::ReceiveMessage),
        next_phase(
            WatchPhase::Control,
            WatchEvent::MessageHandled(WatchCommandFlow::Quit),
            false,
        ) == (WatchPhase::Ended { code: 0 }, WatchAction::Exit { code: 0 }),
        next_phase(
            WatchPhase::Control,
            WatchEvent::MessageHandled(WatchCommandFlow::Exit(code)),
            false,
        ) == (WatchPhase::Ended { code }, WatchAction::Exit { code }),
        next_phase(WatchPhase::Control, WatchEvent::NoMessage, false) == (
            WatchPhase::Resize,
            WatchAction::TickResize,
        ),
        next_phase(WatchPhase::Resize, WatchEvent::ResizeIdle, false) == (
            WatchPhase::Cycle,
            WatchAction::RunCycle,
        ),
        next_phase(WatchPhase::Resize, WatchEvent::ResizeRecorded, false) == (
            WatchPhase::Cycle,
            WatchAction::RunCycle,
        ),
        next_phase(WatchPhase::Resize, WatchEvent::ResizeFailed, false) == (
            WatchPhase::Ended { code: 1 },
            WatchAction::Exit { code: 1 },
        ),
        next_phase(
            WatchPhase::Cycle,
            WatchEvent::CycleDone(RuntimeCycleFlow::NoWork),
            false,
        ) == (WatchPhase::Surfaces, WatchAction::SyncSurfaces),
        next_phase(
            WatchPhase::Cycle,
            WatchEvent::CycleDone(RuntimeCycleFlow::IterationRecorded),
            false,
        ) == (WatchPhase::Surfaces, WatchAction::SyncSurfaces),
        next_phase(
            WatchPhase::Cycle,
            WatchEvent::CycleDone(RuntimeCycleFlow::Exit(code)),
            false,
        ) == (WatchPhase::Ended { code }, WatchAction::Exit { code }),
        WatchPhase::Starting.action() == WatchAction::SyncSurfaces,
{
}

/// The limit on iterations matters only where one may just have been recorded: there, once it
/// is reached, the loop ends with code 0. Everything else goes on as without a limit, and an
/// event out of its place changes nothing.
pub proof fn law_limits_matter_after_an_iteration(
    phase: WatchPhase,
    event: WatchEvent,
    iterations: Option<u64>,
    completed: u64,
)
    ensures
        limit_reached(iterations, completed) <==> (iterations matches Some(limit) && completed
            >= limit),
        ({
            let recorded = (phase is InitialSnapshot && event is InitialSnapshotTaken) || (phase
                is Control && event == WatchEvent::MessageHandled(WatchCommandFlow::Continue)) || (
            phase is Resize && event is ResizeRecorded) || (phase is Cycle && event
                == WatchEvent::CycleDone(RuntimeCycleFlow::IterationRecorded));
            &&& recorded ==> next_phase(phase, event, true) == (
                WatchPhase::Ended { code: 0 },
                WatchAction::Exit { code: 0 },
            )
            &&& !recorded ==> next_phase(phase, event, true) == next_phase(phase, event, false)
        }),
        !belongs(phase, event) ==> next_phase(phase, event, false).0 == phase,
        belongs(phase, event) ==> (next_phase(phase, event, false).0 == phase <==> phase is Control
            && event == WatchEvent::MessageHandled(WatchCommandFlow::Continue)),
{
}

} // verus!
