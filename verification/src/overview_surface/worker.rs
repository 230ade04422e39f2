//! The scene on the screen, and what it takes to show another.

use crate::overview_engine::frame::SceneFrameMode;
use crate::overview_engine::scene::{same_scene, OverviewScene};
use crate::overview_surface::shell::{ShellOverlayEscapeState, ShellScreenshotWindows};
use vstd::prelude::*;

verus! {

use crate::overview_engine::scene::SceneView;
use crate::overview_surface::shell::EscapeView;

/// The longest that any animation of the overview may take, in milliseconds.
pub const ANIMATION_MAX_DURATION_MS: u64 = 320;

/// The scene on the screen, and what a frozen one waits for.
#[derive(Debug)]
pub struct OverviewSessionState {
    pub scene: Option<OverviewScene>,
    pub shell_escape: Option<ShellOverlayEscapeState>,
}

pub ghost struct SessionView {
    pub scene: Option<SceneView>,
    pub shell_escape: Option<EscapeView>,
}

pub open spec fn optional_scene(scene: Option<OverviewScene>) -> Option<SceneView> {
    match scene {
        Some(scene) => Some(scene@),
        None => None,
    }
}

impl View for OverviewSessionState {
    type V = SessionView;

    open spec fn view(&self) -> SessionView {
        SessionView {
            scene: optional_scene(self.scene),
            shell_escape: match self.shell_escape {
                Some(escape) => Some(escape@),
                None => None,
            },
        }
    }
}

impl Default for OverviewSessionState {
    fn default() -> (r: OverviewSessionState)
        ensures
            r@ == (SessionView { scene: None, shell_escape: None }),
    {
        OverviewSessionState { scene: None, shell_escape: None }
    }
}

/// How a scene gets onto the screen.
#[derive(Clone, Copy, Debug, PartialEq, Eq, Structural)]
pub enum ShowMotion {
    /// It is there already.
    Stay,
    /// The scene on the screen turns into it.
    Transition,
    /// The overview opens with it.
    Open,
}

/// What it takes to show a scene.
#[derive(Clone, Copy, Debug, PartialEq, Eq, Structural)]
pub struct ShowPlan {
    pub motion: ShowMotion,
    /// Whether the scene has to be frozen again for the shell's overlay.
    pub freeze: bool,
}

impl SessionView {
    /// The screenshot windows matter only to a frozen overview that is on the screen.
    pub open spec fn watches(self) -> bool {
        self.scene is Some && self.shell_escape is Some
    }

    pub open spec fn show_plan(self, scene: SceneView) -> ShowPlan {
        ShowPlan {
            motion: if self.scene == Some(scene) {
                ShowMotion::Stay
            } else if self.scene is Some {
                ShowMotion::Transition
            } else {
                ShowMotion::Open
            },
            freeze: self.shell_escape is Some,
        }
    }
}

impl OverviewSessionState {
    pub fn shell_escape_active(&self) -> (r: bool)
        ensures
            r == (self@.shell_escape is Some),
    {
        self.shell_escape.is_some()
    }

    /// Whether the worker has to look for screenshot windows.
    pub fn watches_shell_windows(&self) -> (r: bool)
        ensures
            r == self@.watches(),
    {
        self.scene.is_some() && self.shell_escape.is_some()
    }

    /// Looks at the screenshot windows and says whether the frozen scene may be drawn again.
    pub fn should_restore_shell_escape(
        &mut self,
        windows: &ShellScreenshotWindows,
        now: u64,
    ) -> (r: bool)
        ensures
            final(self)@.scene == old(self)@.scene,
            if old(self)@.watches() {
                let (escape, restore) = (old(self)@.shell_escape->0).after(windows@, now);
                final(self)@.shell_escape == Some(escape) && r == restore
            } else {
                final(self)@.shell_escape == old(self)@.shell_escape && !r
            },
    {
        if self.scene.is_none() {
            return false;
        }
        match self.shell_escape.take() {
            Some(mut escape) => {
                let restore: bool = escape.should_restore(windows, now);
                self.shell_escape = Some(escape);
                restore
            },
            None => false,
        }
    }

    pub fn clear_shell_escape(&mut self)
        ensures
            final(self)@ == (SessionView { shell_escape: None, ..old(self)@ }),
    {
        self.shell_escape = None;
    }

    pub fn scene_matches(&self, scene: &OverviewScene) -> (r: bool)
        ensures
            r == (self@.scene == Some(scene@)),
    {
        match &self.scene {
            Some(current) => same_scene(current, scene),
            None => false,
        }
    }

    pub fn plan_show(&self, scene: &OverviewScene) -> (r: ShowPlan)
        ensures
            r == self@.show_plan(scene@),
    {
        let motion: ShowMotion = if self.scene_matches(scene) {
            ShowMotion::Stay
        } else if self.scene.is_some() {
            ShowMotion::Transition
        } else {
            ShowMotion::Open
        };
        ShowPlan { motion, freeze: self.shell_escape_active() }
    }

    /// The scene is on the screen now.
    pub fn record_scene(&mut self, scene: OverviewScene)
        ensures
            final(self)@ == (SessionView { scene: Some(scene@), ..old(self)@ }),
    {
        self.scene = Some(scene);
    }

    /// Takes the scene off the screen; the caller lets it close.
    pub fn take_scene(&mut self) -> (r: Option<OverviewScene>)
        ensures
            optional_scene(r) == old(self)@.scene,
            final(self)@ == (SessionView { scene: None, ..old(self)@ }),
    {
        self.scene.take()
    }

    /// The overview is to be hidden: nothing is waited for, and the scene that was on the
    /// screen, if there was one, has to close.
    pub fn begin_hide(&mut self) -> (r: Option<OverviewScene>)
        ensures
            optional_scene(r) == old(self)@.scene,
            final(self)@ == (SessionView { scene: None, shell_escape: None }),
    {
        self.clear_shell_escape();
        self.take_scene()
    }

    /// The scene was frozen for the shell's overlay, with these screenshot windows on the
    /// screen already.
    pub fn begin_shell_escape(&mut self, now: u64, windows: ShellScreenshotWindows)
        ensures
            final(self)@.scene == old(self)@.scene,
            final(self)@.shell_escape == Some(EscapeView::started(now, windows@)),
    {
        self.shell_escape = Some(
            ShellOverlayEscapeState::new(
                now,
                windows.result_window_hwnds,
                windows.foreground_screenshot_hwnd,
            ),
        );
    }
}

/// The moment of a scene that an animation draws.
pub fn animation_mode(opening: bool, progress_milli: u16) -> (r: SceneFrameMode)
    ensures
        r == (if opening {
            SceneFrameMode::Opening { progress_milli }
        } else {
            SceneFrameMode::Closing { progress_milli }
        }),
{
    if opening {
        SceneFrameMode::Opening { progress_milli }
    } else {
        SceneFrameMode::Closing { progress_milli }
    }
}

/// An animation ends when its spring has settled, and after its longest time anyway.
pub fn animation_finished(settled: bool, elapsed_ms: u64) -> (r: bool)
    ensures
        r == (settled || elapsed_ms >= ANIMATION_MAX_DURATION_MS),
{
    settled || elapsed_ms >= ANIMATION_MAX_DURATION_MS
}

/// Once a scene has been shown, showing it again moves nothing. With nothing on the screen the
/// overview opens, and whatever is shown while the shell's overlay is waited for is frozen.
pub proof fn law_shown_scene_stays(session: SessionView, scene: SceneView)
    ensures
        (SessionView { scene: Some(scene), ..session }).show_plan(scene).motion is Stay,
        session.scene is None ==> session.show_plan(scene).motion is Open,
        session.show_plan(scene).freeze <==> session.shell_escape is Some,
{
}

/// A scene turns into another one that is shown after it; only a frozen scene on the screen
/// has to watch for the screenshot tools.
pub proof fn law_another_scene_takes_over(session: SessionView, scene: SceneView, other: SceneView)
    ensures
        session.scene == Some(scene) && scene != other ==> session.show_plan(other).motion
            is Transition,
        session.scene == Some(scene) ==> session.show_plan(scene).motion is Stay,
        session.watches() <==> session.scene is Some && session.shell_escape is Some,
{
}

/// An animation draws the moment that it has come to, on its own way; it ends once it has
/// settled, and after 320 milliseconds anyway.
pub proof fn law_animations_go_their_way(
    opening: bool,
    progress_milli: u16,
    mode: SceneFrameMode,
    settled: bool,
    elapsed_ms: u64,
    finished: bool,
)
    requires
        call_ensures(animation_mode, (opening, progress_milli), mode),
        call_ensures(animation_finished, (settled, elapsed_ms), finished),
    ensures
        opening ==> mode == (SceneFrameMode::Opening { progress_milli }),
        !opening ==> mode == (SceneFrameMode::Closing { progress_milli }),
        settled ==> finished,
        elapsed_ms >= 320 ==> finished,
        !settled && elapsed_ms < 320 ==> !finished,
{
}

/// Hiding takes the scene off the screen and waits for nothing any more; taking the scene
/// alone goes on waiting.
pub proof fn law_hiding_hands_the_scene_over(
    hidden: &mut OverviewSessionState,
    r: Option<OverviewScene>,
    taken: &mut OverviewSessionState,
    s: Option<OverviewScene>,
)
    requires
        call_ensures(OverviewSessionState::begin_hide, (hidden,), r),
        call_ensures(OverviewSessionState::take_scene, (taken,), s),
    ensures
        optional_scene(r) == old(hidden)@.scene,
        final(hidden)@.scene is None && final(hidden)@.shell_escape is None,
        optional_scene(s) == old(taken)@.scene,
        final(taken)@.scene is None && final(taken)@.shell_escape == old(taken)@.shell_escape,
{
}

/// A frozen scene waits with the screenshot windows that are there already, and comes back as
/// soon as a look says so; a scene that is not frozen never does.
pub proof fn law_frozen_scenes_wait(
    session: &mut OverviewSessionState,
    windows: &ShellScreenshotWindows,
    now: u64,
    r: bool,
)
    requires
        call_ensures(
            OverviewSessionState::should_restore_shell_escape,
            (session, windows, now),
            r,
        ),
    ensures
        final(session)@.scene == old(session)@.scene,
        old(session)@.scene is None || old(session)@.shell_escape is None ==> !r && final(session)@
            == old(session)@,
        old(session)@.scene is Some ==> (old(session)@.shell_escape matches Some(escape) ==> r
            == escape.after(windows@, now).1 && final(session)@.shell_escape == Some(
            escape.after(windows@, now).0,
        )),
{
}

} // verus!
