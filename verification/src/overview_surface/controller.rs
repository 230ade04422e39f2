//! When the overview is shown, changed and hidden.

use crate::overview_engine::scene::{
    build_overview_scene, same_scene, DistanceRule, OverviewScene,
};
use crate::wm_state::{LayoutError, RuntimeMode, WmState, WorkspaceLayout};
use vstd::prelude::*;

verus! {

use crate::overview_engine::scene::{scene_of, SceneView};
use crate::overview_surface::worker::optional_scene;

/// What the surface has to do.
#[derive(Debug)]
pub enum OverlayAction {
    Nothing,
    Hide,
    Show(OverviewScene),
}

pub ghost enum ActionView {
    Nothing,
    Hide,
    Show(SceneView),
}

impl View for OverlayAction {
    type V = ActionView;

    open spec fn view(&self) -> ActionView {
        match self {
            OverlayAction::Nothing => ActionView::Nothing,
            OverlayAction::Hide => ActionView::Hide,
            OverlayAction::Show(scene) => ActionView::Show(scene@),
        }
    }
}

pub open spec fn action_result_view(result: Result<OverlayAction, LayoutError>) -> Result<
    ActionView,
    LayoutError,
> {
    match result {
        Ok(action) => Ok(action@),
        Err(error) => Err(error),
    }
}

/// The overview is never shown while the windows are not managed or in safe mode.
pub open spec fn overview_allowed(state: WmState, management_enabled: bool) -> bool {
    management_enabled && !(state.boot_mode is SafeMode)
}

/// What has to be done about a scene that is wanted while another one is on the screen.
pub open spec fn scene_action(last: Option<SceneView>, next: Option<SceneView>) -> ActionView {
    if last == next {
        ActionView::Nothing
    } else {
        match next {
            Some(scene) => ActionView::Show(scene),
            None => ActionView::Hide,
        }
    }
}

/// Follows the window manager's state by the scene that was shown last.
#[derive(Debug)]
pub struct OverviewSurfaceController {
    pub last_scene: Option<OverviewScene>,
}

impl OverviewSurfaceController {
    pub fn new() -> (r: OverviewSurfaceController)
        ensures
            r.last_scene is None,
    {
        OverviewSurfaceController { last_scene: None }
    }

    /// Decides what the surface has to do. Where the overview is not allowed the last scene
    /// is forgotten at once; else it stays until [`Self::finish_sync`] reports success.
    pub fn sync(
        &mut self,
        state: &WmState,
        layouts: &Vec<WorkspaceLayout>,
        management_enabled: bool,
    ) -> (r: Result<OverlayAction, LayoutError>)
        ensures
            if overview_allowed(*state, management_enabled) {
                &&& optional_scene(final(self).last_scene) == optional_scene(old(self).last_scene)
                &&& action_result_view(r) == (match scene_of(
                    *state,
                    layouts@,
                    DistanceRule::Exact,
                ) {
                    Err(error) => Err::<ActionView, LayoutError>(error),
                    Ok(next) => Ok(scene_action(optional_scene(old(self).last_scene), next)),
                })
            } else {
                &&& final(self).last_scene is None
                &&& action_result_view(r) == Ok::<ActionView, LayoutError>(
                    if old(self).last_scene is Some {
                        ActionView::Hide
                    } else {
                        ActionView::Nothing
                    },
                )
            },
    {
        if !management_enabled || state.boot_mode == RuntimeMode::SafeMode {
            return if self.last_scene.take().is_some() {
                Ok(OverlayAction::Hide)
            } else {
                Ok(OverlayAction::Nothing)
            };
        }
        let next: Option<OverviewScene> = match build_overview_scene(
            state,
            layouts,
            DistanceRule::Exact,
        ) {
            Ok(next) => next,
            Err(error) => {
                return Err(error);
            },
        };
        match next {
            Some(scene) => {
                let same: bool = match &self.last_scene {
                    Some(last) => same_scene(last, &scene),
                    None => false,
                };
                if same {
                    Ok(OverlayAction::Nothing)
                } else {
                    Ok(OverlayAction::Show(scene))
                }
            },
            None => if self.last_scene.is_some() {
                Ok(OverlayAction::Hide)
            } else {
                Ok(OverlayAction::Nothing)
            },
        }
    }

    /// The surface has done what it was told; the scene is the one that it shows now.
    pub fn finish_sync(&mut self, scene: Option<OverviewScene>)
        ensures
            final(self).last_scene == scene,
    {
        self.last_scene = scene;
    }
}

/// A version of the state, and whether the windows were managed.
#[derive(Clone, Copy, Debug, PartialEq, Eq, Structural)]
pub struct OverviewSyncKey {
    pub state_version: u64,
    pub management_enabled: bool,
}

/// Follows the window manager's state by the version that was looked at last.
#[derive(Clone, Copy, Debug, PartialEq, Eq, Structural)]
pub struct VersionedController {
    pub last_key: Option<OverviewSyncKey>,
}

impl VersionedController {
    pub fn new() -> (r: VersionedController)
        ensures
            r.last_key is None,
    {
        VersionedController { last_key: None }
    }

    /// Decides what the surface has to do. A version that was dealt with needs nothing more;
    /// every other one shows its scene anew or hides the overview.
    pub fn sync(
        &self,
        state: &WmState,
        layouts: &Vec<WorkspaceLayout>,
        management_enabled: bool,
    ) -> (r: Result<OverlayAction, LayoutError>)
        ensures
            action_result_view(r) == (if self.last_key == Some(
                OverviewSyncKey { state_version: state.state_version, management_enabled },
            ) {
                Ok::<ActionView, LayoutError>(ActionView::Nothing)
            } else if !overview_allowed(*state, management_enabled) {
                Ok(ActionView::Hide)
            } else {
                match scene_of(*state, layouts@, DistanceRule::Saturating) {
                    Err(error) => Err(error),
                    Ok(Some(scene)) => Ok(ActionView::Show(scene)),
                    Ok(None) => Ok(ActionView::Hide),
                }
            }),
    {
        if let Some(last) = self.last_key {
            if last.state_version == state.state_version && last.management_enabled
                == management_enabled {
                return Ok(OverlayAction::Nothing);
            }
        }
        if !management_enabled || state.boot_mode == RuntimeMode::SafeMode {
            return Ok(OverlayAction::Hide);
        }
        match build_overview_scene(state, layouts, DistanceRule::Saturating) {
            Ok(Some(scene)) => Ok(OverlayAction::Show(scene)),
            Ok(None) => Ok(OverlayAction::Hide),
            Err(error) => Err(error),
        }
    }

    /// The surface has done what it was told for this version.
    pub fn finish_sync(&mut self, state: &WmState, management_enabled: bool)
        ensures
            final(self).last_key == Some(
                OverviewSyncKey { state_version: state.state_version, management_enabled },
            ),
    {
        self.last_key = Some(
            OverviewSyncKey { state_version: state.state_version, management_enabled },
        );
    }
}

/// A scene that is on the screen needs nothing more, and neither does a closed overview that
/// is off the screen.
pub proof fn law_sync_settles(scene: Option<SceneView>)
    ensures
        scene_action(scene, scene) is Nothing,
        scene_action(None, None) is Nothing,
        scene is Some ==> scene_action(scene, None) is Hide,
        scene is Some ==> scene_action(None, scene) == ActionView::Show(scene->0),
{
}

/// The overview is allowed exactly while the windows are managed and the daemon is not in safe
/// mode.
pub proof fn law_safe_mode_has_no_overview(state: WmState, management_enabled: bool)
    ensures
        !management_enabled ==> !overview_allowed(state, management_enabled),
        state.boot_mode is SafeMode ==> !overview_allowed(state, management_enabled),
        management_enabled && !(state.boot_mode is SafeMode) ==> overview_allowed(
            state,
            management_enabled,
        ),
{
}

/// A scene that differs from the one on the screen is shown, and the overview is hidden where
/// no scene is wanted any more.
pub proof fn law_changed_scenes_are_shown(last: Option<SceneView>, next: SceneView)
    ensures
        last != Some(next) ==> scene_action(last, Some(next)) == ActionView::Show(next),
        last is Some ==> scene_action(last, None) is Hide,
        last == Some(next) ==> scene_action(last, Some(next)) is Nothing,
        last is None ==> scene_action(last, None) is Nothing,
{
}

/// The surface shows the scene of the state exactly where that differs from what it shows.
/// Where the overview is not allowed it is hidden, and the last scene forgotten at once.
pub proof fn law_the_surface_follows_the_state(
    controller: &mut OverviewSurfaceController,
    state: &WmState,
    layouts: &Vec<WorkspaceLayout>,
    management_enabled: bool,
    r: Result<OverlayAction, LayoutError>,
)
    requires
        call_ensures(
            OverviewSurfaceController::sync,
            (controller, state, layouts, management_enabled),
            r,
        ),
    ensures
        ({
            let last = optional_scene(old(controller).last_scene);
            let allowed = management_enabled && !(state.boot_mode is SafeMode);
            let wanted = scene_of(*state, layouts@, DistanceRule::Exact);
            &&& !allowed ==> final(controller).last_scene is None && r is Ok
            &&& !allowed && last is Some ==> r->Ok_0 is Hide
            &&& !allowed && last is None ==> r->Ok_0 is Nothing
            &&& allowed ==> optional_scene(final(controller).last_scene) == last
            &&& allowed ==> (r is Err <==> wanted is Err)
            &&& allowed ==> (wanted matches Ok(next) ==> (next == last ==> r->Ok_0 is Nothing))
            &&& allowed ==> (wanted matches Ok(next) ==> (next != last && next is None ==> r->Ok_0
                is Hide))
            &&& allowed ==> (wanted matches Ok(next) ==> (next != last && next is Some ==> (
            r matches Ok(OverlayAction::Show(scene)) && Some(scene@) == next)))
        }),
{
}

/// A version of the state that was dealt with needs nothing more. For every other one the
/// scene is shown where there is one and the overview is allowed, and hidden else.
pub proof fn law_new_versions_are_shown(
    controller: &VersionedController,
    state: &WmState,
    layouts: &Vec<WorkspaceLayout>,
    management_enabled: bool,
    r: Result<OverlayAction, LayoutError>,
)
    requires
        call_ensures(
            VersionedController::sync,
            (controller, state, layouts, management_enabled),
            r,
        ),
    ensures
        ({
            let known = controller.last_key matches Some(key) && key.state_version
                == state.state_version && key.management_enabled == management_enabled;
            let allowed = management_enabled && !(state.boot_mode is SafeMode);
            let wanted = scene_of(*state, layouts@, DistanceRule::Saturating);
            &&& known ==> r is Ok && r->Ok_0 is Nothing
            &&& !known && !allowed ==> r is Ok && r->Ok_0 is Hide
            &&& !known && allowed ==> (r is Err <==> wanted is Err)
            &&& !known && allowed ==> (wanted matches Ok(None) ==> r->Ok_0 is Hide)
            &&& !known && allowed ==> (wanted matches Ok(Some(next)) ==> (
            r matches Ok(OverlayAction::Show(scene)) && scene@ == next))
        }),
{
}

} // verus!
