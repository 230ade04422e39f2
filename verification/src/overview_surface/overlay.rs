//! The thread that draws the overview: what it does after each thing that happens to it.
//!
//! The thread performs the pending [`WorkerAction`] and reports what came of it;
//! [`OverlayWorker::step`] decides what follows. Times are in milliseconds.

use crate::overview_engine::scene::OverviewScene;
use crate::overview_surface::shell::ShellScreenshotWindows;
use crate::overview_surface::worker::{OverviewSessionState, ShowMotion, ShowPlan};
use vstd::prelude::*;

verus! {

use crate::overview_engine::scene::SceneView;
use crate::overview_surface::shell::{EscapeView, ScreenshotWindowsView};
use crate::overview_surface::worker::{optional_scene, SessionView};

/// What the thread is told to do.
#[derive(Debug)]
pub enum OverlayCommand {
    Show(OverviewScene),
    Hide,
    LowerForShellOverlay,
    Shutdown,
}

/// What the thread is at.
#[derive(Clone, Copy, Debug, PartialEq, Eq, Structural)]
pub enum WorkerPhase {
    /// The messages of its windows are dealt with.
    Pumping,
    /// The screenshot tools that a frozen scene waits for are looked for.
    Watching,
    /// The frozen scene is drawn again.
    Restoring,
    /// A command is waited for.
    Waiting,
    /// A scene is moved onto the screen.
    Showing { motion: ShowMotion },
    /// The scene that was moved onto the screen is frozen.
    Refreezing,
    /// The scene on the screen closes.
    Closing,
    /// Everything is hidden; there was no scene.
    Hiding,
    /// The screenshot tools that are there already are looked for.
    Surveying,
    /// The scene on the screen is frozen.
    Freezing,
    /// The result of a command is sent.
    Answering,
    /// Everything is hidden and destroyed.
    CleaningUp,
    /// The thread has ended.
    Ended,
}

/// What has to be done. The scene that is meant stands in the session, among what is pending
/// or, when it closes, in `closing`.
#[derive(Clone, Copy, Debug, PartialEq, Eq, Structural)]
pub enum WorkerAction {
    PumpMessages,
    LookForScreenshots,
    /// Drop the snapshot and draw the session's scene as it stands open.
    RedrawScene,
    AwaitCommand,
    /// Let the pending scene open.
    AnimateOpen,
    /// Let the session's scene turn into the pending one.
    AnimateTransition,
    /// Freeze the pending scene.
    FreezePending,
    /// Freeze the session's scene.
    FreezeCurrent,
    /// Let the closing scene close, and hide everything.
    AnimateClose,
    HideScene,
    /// Send the answer.
    Answer,
    /// Hide and destroy everything; it makes no difference whether that succeeds.
    CleanUp,
    End,
}

/// What came of it.
#[derive(Debug)]
pub enum WorkerEvent {
    Done { result: Result<(), String>, now: u64 },
    Looked { windows: ShellScreenshotWindows, now: u64 },
    Command(OverlayCommand),
    /// No command came in time.
    Silence,
    /// No command will come any more.
    Hangup,
}

/// The thread's memory.
#[derive(Debug)]
pub struct OverlayWorker {
    pub session: OverviewSessionState,
    pub phase: WorkerPhase,
    /// The scene of the command at hand.
    pub pending: Option<OverviewScene>,
    /// The scene that leaves the screen.
    pub closing: Option<OverviewScene>,
    /// The screenshot tools that were there before a scene was frozen.
    pub baseline: Option<ShellScreenshotWindows>,
    /// The result of the command at hand, or what ended the thread.
    pub answer: Result<(), String>,
}

pub ghost struct WorkerView {
    pub session: SessionView,
    pub phase: WorkerPhase,
    pub pending: Option<SceneView>,
    pub closing: Option<SceneView>,
    pub baseline: Option<ScreenshotWindowsView>,
    pub answer: Result<(), Seq<char>>,
}

pub open spec fn answer_view(answer: Result<(), String>) -> Result<(), Seq<char>> {
    match answer {
        Ok(done) => Ok(done),
        Err(error) => Err(error@),
    }
}

impl View for OverlayWorker {
    type V = WorkerView;

    open spec fn view(&self) -> WorkerView {
        WorkerView {
            session: self.session@,
            phase: self.phase,
            pending: optional_scene(self.pending),
            closing: optional_scene(self.closing),
            baseline: match self.baseline {
                Some(windows) => Some(windows@),
                None => None,
            },
            answer: answer_view(self.answer),
        }
    }
}

impl WorkerPhase {
    /// What is done in a phase.
    pub open spec fn action(self) -> WorkerAction {
        match self {
            WorkerPhase::Pumping => WorkerAction::PumpMessages,
            WorkerPhase::Watching | WorkerPhase::Surveying => WorkerAction::LookForScreenshots,
            WorkerPhase::Restoring => WorkerAction::RedrawScene,
            WorkerPhase::Waiting => WorkerAction::AwaitCommand,
            WorkerPhase::Showing { motion } => if motion is Transition {
                WorkerAction::AnimateTransition
            } else {
                WorkerAction::AnimateOpen
            },
            WorkerPhase::Refreezing => WorkerAction::FreezePending,
            WorkerPhase::Closing => WorkerAction::AnimateClose,
            WorkerPhase::Hiding => WorkerAction::HideScene,
            WorkerPhase::Freezing => WorkerAction::FreezeCurrent,
            WorkerPhase::Answering => WorkerAction::Answer,
            WorkerPhase::CleaningUp => WorkerAction::CleanUp,
            WorkerPhase::Ended => WorkerAction::End,
        }
    }
}

impl WorkerView {
    pub open spec fn at(self, phase: WorkerPhase) -> WorkerView {
        WorkerView { phase, ..self }
    }

    /// The command at hand has its result.
    pub open spec fn answered(self, answer: Result<(), Seq<char>>) -> WorkerView {
        WorkerView {
            phase: WorkerPhase::Answering,
            pending: None,
            closing: None,
            baseline: None,
            answer,
            ..self
        }
    }

    /// The thread ends at once with an error.
    pub open spec fn failed(self, error: Seq<char>) -> WorkerView {
        WorkerView { phase: WorkerPhase::Ended, answer: Err(error), ..self }
    }

    /// The pending scene is on the screen: it is the session's now.
    pub open spec fn shown(self) -> WorkerView {
        WorkerView {
            session: SessionView {
                scene: match self.pending {
                    Some(scene) => Some(scene),
                    None => self.session.scene,
                },
                ..self.session
            },
            ..self
        }.answered(Ok(()))
    }

    /// A scene that has been moved onto the screen is frozen again while the screenshot tools
    /// are waited for.
    pub open spec fn moved(self) -> WorkerView {
        if self.session.shell_escape is Some {
            self.at(WorkerPhase::Refreezing)
        } else {
            self.shown()
        }
    }

    /// After a look at the screenshot tools.
    pub open spec fn looked(self, windows: ScreenshotWindowsView, now: u64) -> WorkerView {
        if self.session.watches() {
            let (escape, restore) = (self.session.shell_escape->0).after(windows, now);
            WorkerView {
                session: SessionView { shell_escape: Some(escape), ..self.session },
                phase: if restore {
                    WorkerPhase::Restoring
                } else {
                    WorkerPhase::Waiting
                },
                ..self
            }
        } else {
            self.at(WorkerPhase::Waiting)
        }
    }

    /// The session's scene is frozen, with these screenshot tools there already.
    pub open spec fn lowered(self, now: u64) -> WorkerView {
        match self.baseline {
            Some(windows) => WorkerView {
                session: SessionView {
                    shell_escape: Some(EscapeView::started(now, windows)),
                    ..self.session
                },
                ..self
            }.answered(Ok(())),
            None => self.answered(Ok(())),
        }
    }

    /// After a command came in.
    pub open spec fn commanded(self, command: OverlayCommand) -> WorkerView {
        match command {
            OverlayCommand::Show(scene) => {
                let plan = self.session.show_plan(scene@);
                let next = WorkerView { pending: Some(scene@), ..self };
                if plan.motion is Stay {
                    next.moved()
                } else {
                    next.at(WorkerPhase::Showing { motion: plan.motion })
                }
            },
            OverlayCommand::Hide => WorkerView {
                session: SessionView { scene: None, shell_escape: None },
                closing: self.session.scene,
                phase: if self.session.scene is Some {
                    WorkerPhase::Closing
                } else {
                    WorkerPhase::Hiding
                },
                ..self
            },
            OverlayCommand::LowerForShellOverlay => if self.session.scene is Some {
                self.at(WorkerPhase::Surveying)
            } else {
                self.answered(Ok(()))
            },
            OverlayCommand::Shutdown => self.at(WorkerPhase::CleaningUp),
        }
    }

    /// After something was done.
    pub open spec fn done(self, result: Result<(), Seq<char>>, now: u64) -> WorkerView {
        match self.phase {
            WorkerPhase::Pumping => match result {
                Ok(_) => if self.session.watches() {
                    self.at(WorkerPhase::Watching)
                } else {
                    self.at(WorkerPhase::Waiting)
                },
                Err(error) => self.failed(error),
            },
            WorkerPhase::Restoring => match result {
                Ok(_) => WorkerView {
                    session: SessionView { shell_escape: None, ..self.session },
                    phase: WorkerPhase::Waiting,
                    ..self
                },
                Err(error) => self.failed(error),
            },
            WorkerPhase::Showing { motion } => match result {
                Ok(_) => self.moved(),
                Err(error) => self.answered(Err(error)),
            },
            WorkerPhase::Refreezing => match result {
                Ok(_) => self.shown(),
                Err(error) => self.answered(Err(error)),
            },
            WorkerPhase::Closing | WorkerPhase::Hiding => self.answered(result),
            WorkerPhase::Freezing => match result {
                Ok(_) => self.lowered(now),
                Err(error) => self.answered(Err(error)),
            },
            WorkerPhase::Answering => self.at(WorkerPhase::Pumping),
            WorkerPhase::CleaningUp => WorkerView {
                phase: WorkerPhase::Ended,
                answer: Ok(()),
                ..self
            },
            _ => self,
        }
    }

    /// After an event. One that does not belong to the phase changes nothing.
    pub open spec fn after(self, event: WorkerEvent) -> WorkerView {
        match event {
            WorkerEvent::Done { result, now } => self.done(answer_view(result), now),
            WorkerEvent::Looked { windows, now } => match self.phase {
                WorkerPhase::Watching => self.looked(windows@, now),
                WorkerPhase::Surveying => WorkerView {
                    baseline: Some(windows@),
                    phase: WorkerPhase::Freezing,
                    ..self
                },
                _ => self,
            },
            WorkerEvent::Command(command) => if self.phase is Waiting {
                self.commanded(command)
            } else {
                self
            },
            WorkerEvent::Silence => if self.phase is Waiting {
                self.at(WorkerPhase::Pumping)
            } else {
                self
            },
            WorkerEvent::Hangup => if self.phase is Waiting {
                self.at(WorkerPhase::CleaningUp)
            } else {
                self
            },
        }
    }
}

impl OverlayWorker {
    pub fn new() -> (r: OverlayWorker)
        ensures
            r@ == (WorkerView {
                session: SessionView { scene: None, shell_escape: None },
                phase: WorkerPhase::Pumping,
                pending: None,
                closing: None,
                baseline: None,
                answer: Ok(()),
            }),
    {
        OverlayWorker {
            session: OverviewSessionState::default(),
            phase: WorkerPhase::Pumping,
            pending: None,
            closing: None,
            baseline: None,
            answer: Ok(()),
        }
    }

    /// What has to be done now.
    pub fn pending_action(&self) -> (r: WorkerAction)
        ensures
            r == self@.phase.action(),
    {
        match self.phase {
            WorkerPhase::Pumping => WorkerAction::PumpMessages,
            WorkerPhase::Watching | WorkerPhase::Surveying => WorkerAction::LookForScreenshots,
            WorkerPhase::Restoring => WorkerAction::RedrawScene,
            WorkerPhase::Waiting => WorkerAction::AwaitCommand,
            WorkerPhase::Showing { motion } => match motion {
                ShowMotion::Transition => WorkerAction::AnimateTransition,
                _ => WorkerAction::AnimateOpen,
            },
            WorkerPhase::Refreezing => WorkerAction::FreezePending,
            WorkerPhase::Closing => WorkerAction::AnimateClose,
            WorkerPhase::Hiding => WorkerAction::HideScene,
            WorkerPhase::Freezing => WorkerAction::FreezeCurrent,
            WorkerPhase::Answering => WorkerAction::Answer,
            WorkerPhase::CleaningUp => WorkerAction::CleanUp,
            WorkerPhase::Ended => WorkerAction::End,
        }
    }

    fn give_answer(&mut self, answer: Result<(), String>)
        ensures
            final(self)@ == old(self)@.answered(answer_view(answer)),
    {
        self.phase = WorkerPhase::Answering;
        self.pending = None;
        self.closing = None;
        self.baseline = None;
        self.answer = answer;
    }

    fn finish_show(&mut self)
        ensures
            final(self)@ == old(self)@.shown(),
    {
        if let Some(scene) = self.pending.take() {
            self.session.record_scene(scene);
        }
        self.give_answer(Ok(()));
    }

    fn finish_motion(&mut self)
        ensures
            final(self)@ == old(self)@.moved(),
    {
        if self.session.shell_escape_active() {
            self.phase = WorkerPhase::Refreezing;
        } else {
            self.finish_show();
        }
    }

    fn finish_freeze(&mut self, now: u64)
        ensures
            final(self)@ == old(self)@.lowered(now),
    {
        if let Some(windows) = self.baseline.take() {
            self.session.begin_shell_escape(now, windows);
        }
        self.give_answer(Ok(()));
    }

    fn fail(&mut self, error: String)
        ensures
            final(self)@ == old(self)@.failed(error@),
    {
        self.phase = WorkerPhase::Ended;
        self.answer = Err(error);
    }

    fn take_command(&mut self, command: OverlayCommand)
        ensures
            final(self)@ == old(self)@.commanded(command),
    {
        match command {
            OverlayCommand::Show(scene) => {
                let plan: ShowPlan = self.session.plan_show(&scene);
                self.pending = Some(scene);
                match plan.motion {
                    ShowMotion::Stay => {
                        self.finish_motion();
                    },
                    motion => {
                        self.phase = WorkerPhase::Showing { motion };
                    },
                }
            },
            OverlayCommand::Hide => {
                self.closing = self.session.begin_hide();
                self.phase = if self.closing.is_some() {
                    WorkerPhase::Closing
                } else {
                    WorkerPhase::Hiding
                };
            },
            OverlayCommand::LowerForShellOverlay => {
                if self.session.scene.is_some() {
                    self.phase = WorkerPhase::Surveying;
                } else {
                    self.give_answer(Ok(()));
                }
            },
            OverlayCommand::Shutdown => {
                self.phase = WorkerPhase::CleaningUp;
            },
        }
    }

    fn finish(&mut self, result: Result<(), String>, now: u64)
        ensures
            final(self)@ == old(self)@.done(answer_view(result), now),
    {
        match self.phase {
            WorkerPhase::Pumping => match result {
                Ok(_) => {
                    self.phase = if self.session.watches_shell_windows() {
                        WorkerPhase::Watching
                    } else {
                        WorkerPhase::Waiting
                    };
                },
                Err(error) => self.fail(error),
            },
            WorkerPhase::Restoring => match result {
                Ok(_) => {
                    self.session.clear_shell_escape();
                    self.phase = WorkerPhase::Waiting;
                },
                Err(error) => self.fail(error),
            },
            WorkerPhase::Showing { motion: _ } => match result {
                Ok(_) => self.finish_motion(),
                Err(error) => self.give_answer(Err(error)),
            },
            WorkerPhase::Refreezing => match result {
                Ok(_) => self.finish_show(),
                Err(error) => self.give_answer(Err(error)),
            },
            WorkerPhase::Closing | WorkerPhase::Hiding => self.give_answer(result),
            WorkerPhase::Freezing => match result {
                Ok(_) => self.finish_freeze(now),
                Err(error) => self.give_answer(Err(error)),
            },
            WorkerPhase::Answering => {
                self.phase = WorkerPhase::Pumping;
            },
            WorkerPhase::CleaningUp => {
                self.phase = WorkerPhase::Ended;
                self.answer = Ok(());
            },
            _ => {},
        }
    }

    /// Goes on with what came of the pending action, and says what has to be done next.
    pub fn step(&mut self, event: WorkerEvent) -> (r: WorkerAction)
        ensures
            final(self)@ == old(self)@.after(event),
            r == final(self)@.phase.action(),
    {
        match event {
            WorkerEvent::Done { result, now } => self.finish(result, now),
            WorkerEvent::Looked { windows, now } => match self.phase {
                WorkerPhase::Watching => {
                    let restore: bool = self.session.should_restore_shell_escape(&windows, now);
                    self.phase = if restore {
                        WorkerPhase::Restoring
                    } else {
                        WorkerPhase::Waiting
                    };
                },
                WorkerPhase::Surveying => {
                    self.baseline = Some(windows);
                    self.phase = WorkerPhase::Freezing;
                },
                _ => {},
            },
            WorkerEvent::Command(command) => {
                if let WorkerPhase::Waiting = self.phase {
                    self.take_command(command);
                }
            },
            WorkerEvent::Silence => {
                if let WorkerPhase::Waiting = self.phase {
                    self.phase = WorkerPhase::Pumping;
                }
            },
            WorkerEvent::Hangup => {
                if let WorkerPhase::Waiting = self.phase {
                    self.phase = WorkerPhase::CleaningUp;
                }
            },
        }
        self.pending_action()
    }
}

/// Whether a command has been taken whose result has not been sent.
pub open spec fn owes_an_answer(phase: WorkerPhase) -> bool {
    match phase {
        WorkerPhase::Showing { motion } => true,
        WorkerPhase::Refreezing | WorkerPhase::Closing | WorkerPhase::Hiding
        | WorkerPhase::Surveying | WorkerPhase::Freezing | WorkerPhase::Answering => true,
        _ => false,
    }
}

/// Every command but the last is answered: the thread takes no other command, and does not
/// end, before it has sent the result of the one at hand.
pub proof fn law_every_command_is_answered(worker: WorkerView, event: WorkerEvent)
    ensures
        owes_an_answer(worker.phase) && !(worker.phase is Answering) ==> owes_an_answer(
            worker.after(event).phase,
        ),
        worker.phase is Answering ==> worker.after(event).phase is Answering || worker.after(
            event,
        ).phase is Pumping,
        worker.phase is Waiting && event is Command && !(event->Command_0 is Shutdown)
            ==> owes_an_answer(worker.after(event).phase),
{
}

/// A scene counts as shown once it has been moved onto the screen, and frozen if need be; one
/// whose motion or freezing failed leaves the former scene in place.
pub proof fn law_failed_show_keeps_the_scene(worker: WorkerView, error: Seq<char>, now: u64)
    requires
        worker.phase is Showing || worker.phase is Refreezing,
        worker.pending is Some,
    ensures
        worker.done(Err(error), now).session == worker.session,
        worker.done(Err(error), now).answer == Err::<(), Seq<char>>(error),
        worker.done(Ok(()), now).phase is Answering ==> worker.done(Ok(()), now).session.scene
            == worker.pending,
        worker.phase is Showing && worker.session.shell_escape is Some ==> worker.done(
            Ok(()),
            now,
        ).phase is Refreezing,
{
}

/// The scene is drawn again only after the screenshot tools have gone, and hiding the overview
/// forgets that they were waited for.
pub proof fn law_frozen_scene_comes_back(worker: WorkerView, event: WorkerEvent)
    ensures
        worker.after(event).phase is Restoring && !(worker.phase is Restoring) ==> worker.phase
            is Watching && worker.session.watches(),
        worker.phase is Waiting && event is Command && event->Command_0 is Hide
            ==> worker.after(event).session == (SessionView { scene: None, shell_escape: None }),
{
}

/// What is done in each phase is what the phase is named after; a scene that takes over from
/// another one turns into it, and any other one opens.
pub proof fn law_phases_do_what_they_are_named_after(motion: ShowMotion)
    ensures
        WorkerPhase::Pumping.action() is PumpMessages,
        WorkerPhase::Watching.action() is LookForScreenshots,
        WorkerPhase::Surveying.action() is LookForScreenshots,
        WorkerPhase::Restoring.action() is RedrawScene,
        WorkerPhase::Waiting.action() is AwaitCommand,
        (WorkerPhase::Showing { motion }).action() is AnimateTransition <==> motion is Transition,
        (WorkerPhase::Showing { motion }).action() is AnimateOpen <==> !(motion is Transition),
        WorkerPhase::Refreezing.action() is FreezePending,
        WorkerPhase::Closing.action() is AnimateClose,
        WorkerPhase::Hiding.action() is HideScene,
        WorkerPhase::Freezing.action() is FreezeCurrent,
        WorkerPhase::Answering.action() is Answer,
        WorkerPhase::CleaningUp.action() is CleanUp,
        WorkerPhase::Ended.action() is End,
{
}

/// What a waiting thread does when it is told to show a scene. A scene on the screen needs no
/// motion: it is answered at once, or frozen first while the screenshot tools are waited for.
/// Another one takes over from the scene on the screen, or opens where there is none.
pub proof fn law_told_to_show_it_shows(worker: WorkerView, scene: OverviewScene)
    requires
        worker.phase is Waiting,
    ensures
        ({
            let next = worker.after(WorkerEvent::Command(OverlayCommand::Show(scene)));
            let there = worker.session.scene == Some(scene@);
            let frozen = worker.session.shell_escape is Some;
            &&& there && frozen ==> next.phase is Refreezing && next.pending == Some(scene@)
            &&& there && !frozen ==> next.phase is Answering && next.answer is Ok
            &&& !there && worker.session.scene is Some ==> next.phase == (WorkerPhase::Showing {
                motion: ShowMotion::Transition,
            }) && next.pending == Some(scene@)
            &&& worker.session.scene is None ==> next.phase == (WorkerPhase::Showing {
                motion: ShowMotion::Open,
            }) && next.pending == Some(scene@)
            &&& next.session == worker.session
        }),
{
}

/// What a waiting thread does when it is told anything else, or nothing at all. Hiding lets
/// the scene on the screen close and waits for nothing; making way for the screenshot tools
/// takes a scene; the rest ends the thread or lets it go on.
pub proof fn law_told_to_hide_it_hides(worker: WorkerView)
    requires
        worker.phase is Waiting,
    ensures
        ({
            let hide = worker.after(WorkerEvent::Command(OverlayCommand::Hide));
            let lower = worker.after(WorkerEvent::Command(OverlayCommand::LowerForShellOverlay));
            &&& hide.session.scene is None && hide.session.shell_escape is None
            &&& hide.closing == worker.session.scene
            &&& worker.session.scene is Some ==> hide.phase is Closing
            &&& worker.session.scene is None ==> hide.phase is Hiding
            &&& lower.session == worker.session
            &&& worker.session.scene is Some ==> lower.phase is Surveying
            &&& worker.session.scene is None ==> lower.phase is Answering && lower.answer is Ok
            &&& worker.after(WorkerEvent::Command(OverlayCommand::Shutdown)).phase is CleaningUp
            &&& worker.after(WorkerEvent::Hangup).phase is CleaningUp
            &&& worker.after(WorkerEvent::Silence).phase is Pumping
            &&& worker.after(WorkerEvent::Silence).session == worker.session
        }),
{
}

/// What follows work that succeeded. Messages are followed by a look at the screenshot tools
/// where a frozen scene waits for them; a scene that was drawn again is not frozen any more;
/// one that was moved is frozen where need be; one that was frozen knows the screenshot tools
/// that were there before; and every answer is followed by the messages.
pub proof fn law_success_is_followed(worker: WorkerView, now: u64)
    ensures
        ({
            let next = worker.after(WorkerEvent::Done { result: Ok(()), now });
            let frozen = worker.session.shell_escape is Some;
            let watches = worker.session.scene is Some && frozen;
            &&& worker.phase is Pumping && watches ==> next.phase is Watching
            &&& worker.phase is Pumping && !watches ==> next.phase is Waiting
            &&& worker.phase is Restoring ==> next.phase is Waiting && next.session.shell_escape
                is None && next.session.scene == worker.session.scene
            &&& worker.phase is Showing && frozen ==> next.phase is Refreezing && next.pending
                == worker.pending && next.session == worker.session
            &&& (worker.phase is Showing && !frozen) || worker.phase is Refreezing ==> next.phase
                is Answering && next.answer is Ok && next.session.shell_escape
                == worker.session.shell_escape && (worker.pending is Some ==> next.session.scene
                == worker.pending)
            &&& worker.phase is Closing || worker.phase is Hiding ==> next.phase is Answering
                && next.answer is Ok && next.session == worker.session
            &&& worker.phase is Freezing ==> next.phase is Answering && next.answer is Ok
                && next.session.scene == worker.session.scene
            &&& worker.phase is Freezing ==> (worker.baseline matches Some(windows) ==> (
            next.session.shell_escape matches Some(escape) && escape.started_at == now
                && escape.baseline_result_hwnds == windows.result_window_hwnds
                && !escape.overlay_seen && !escape.result_window_seen))
            &&& worker.phase is Answering ==> next.phase is Pumping && next.session
                == worker.session
            &&& worker.phase is CleaningUp ==> next.phase is Ended && next.answer is Ok
            &&& worker.phase is Ended ==> next.phase is Ended
        }),
{
}

/// What follows work that failed. The thread ends where it cannot deal with its messages or
/// draw a frozen scene again; whatever fails for a command is that command's answer.
pub proof fn law_failure_is_told(worker: WorkerView, error: String, now: u64)
    ensures
        ({
            let next = worker.after(WorkerEvent::Done { result: Err(error), now });
            &&& worker.phase is Pumping || worker.phase is Restoring ==> next.phase is Ended
                && next.answer == Err::<(), Seq<char>>(error@)
            &&& worker.phase is Showing || worker.phase is Refreezing || worker.phase is Closing
                || worker.phase is Hiding || worker.phase is Freezing ==> next.phase is Answering
                && next.answer == Err::<(), Seq<char>>(error@) && next.session == worker.session
            &&& worker.phase is CleaningUp ==> next.phase is Ended && next.answer is Ok
        }),
{
}

/// What follows a look at the screenshot tools: the frozen scene is drawn again once they have
/// gone, and a scene that is to be frozen is frozen with what was seen.
pub proof fn law_looks_decide_when_to_redraw(
    worker: WorkerView,
    windows: ShellScreenshotWindows,
    now: u64,
    escape: EscapeView,
)
    ensures
        ({
            let next = worker.after(WorkerEvent::Looked { windows, now });
            &&& worker.phase is Surveying ==> next.phase is Freezing && next.baseline == Some(
                windows@,
            ) && next.session == worker.session
            &&& worker.phase is Watching && worker.session.scene is Some
                && worker.session.shell_escape == Some(escape) ==> (next.phase is Restoring
                <==> escape.after(windows@, now).1) && (next.phase is Waiting <==> !escape.after(
                windows@,
                now,
            ).1) && next.session.shell_escape == Some(escape.after(windows@, now).0)
                && next.session.scene == worker.session.scene
        }),
{
}

} // verus!
