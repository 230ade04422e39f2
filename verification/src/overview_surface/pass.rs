//! One pass over the windows of a frame, which brings their thumbnails up to date.
//!
//! The owner of the compositor's handles performs the pending [`PassAction`] and reports what
//! came of it; [`ThumbnailPass::step`] decides what follows.

use crate::geometry::Rect;
use crate::overview_engine::frame::{OverviewRenderFrame, WindowRenderFrame, WorkspaceRenderFrame};
use crate::overview_surface::sync::{
    desired_hwnds, job_projection, plan_scene_thumbnails, plan_workspace_thumbnails,
    thumbnail_diagnostic, SceneVisibility, ShowStep, ThumbnailCache, ThumbnailJob, WindowSyncStep,
};
use crate::overview_surface::thumbnail::{FullWindowPreviewGeometry, ThumbnailProjection};
use vstd::prelude::*;

verus! {

use crate::overview_engine::targets::draw_order;
use crate::overview_surface::sync::{
    canvas_jobs, diagnostic_text, frame_handles, handles_of, optional_line, scene_jobs, CacheView,
    PreviewThumbnailState,
};
use crate::overview_surface::thumbnail::projection_of;
use crate::text::decimal;

broadcast use vstd::std_specs::hash::group_hash_axioms;

/// What is being done for the window at hand.
#[derive(Clone, Copy, Debug, PartialEq, Eq, Structural)]
pub enum PassPhase {
    /// It is found out whether the window exists.
    Checking,
    /// Its thumbnail is hidden.
    Hiding,
    /// A thumbnail is registered for it.
    Registering,
    /// The source of its thumbnail is measured.
    Measuring,
    /// Its thumbnail is told what to show.
    Updating { projection: ThumbnailProjection },
}

/// What has to be done.
#[derive(Clone, Copy, Debug, PartialEq, Eq, Structural)]
pub enum PassAction {
    /// Find out whether a handle is that of a window.
    CheckWindow { hwnd: u64 },
    Hide { handle: isize },
    Register { hwnd: u64 },
    Measure { handle: isize },
    Update { handle: isize, projection: ThumbnailProjection },
    /// The pass has come to its end.
    Done,
}

/// What came of it.
#[derive(Debug, PartialEq, Eq)]
pub enum PassEvent {
    Checked(bool),
    Hidden(bool),
    Registered(Result<isize, String>),
    /// The size of the source, and the borders of the window as far as they are known.
    Measured { source: Result<Rect, String>, geometry: Option<FullWindowPreviewGeometry> },
    Updated(bool),
}

/// What else goes with a step: a handle to unregister and a line to log.
#[derive(Clone, Debug, PartialEq, Eq)]
pub struct PassReply {
    pub unregister: Option<isize>,
    pub log: Option<String>,
    pub action: PassAction,
}

/// Where a pass stands.
#[derive(Debug)]
pub struct ThumbnailPass {
    pub jobs: Vec<ThumbnailJob>,
    pub position: usize,
    pub phase: PassPhase,
    /// What the places of the thumbnails are relative to.
    pub origin_rect: Rect,
    pub diagnostics: bool,
    pub client_only: bool,
    pub visibility: SceneVisibility,
}

pub ghost struct PassView {
    pub jobs: Seq<ThumbnailJob>,
    pub position: int,
    pub phase: PassPhase,
    pub origin_rect: Rect,
    pub diagnostics: bool,
    pub client_only: bool,
    /// The windows that can be seen so far, and where.
    pub visible_hwnds: Set<u64>,
    pub host_rects: Seq<Rect>,
}

impl View for ThumbnailPass {
    type V = PassView;

    open spec fn view(&self) -> PassView {
        PassView {
            jobs: self.jobs@,
            position: self.position as int,
            phase: self.phase,
            origin_rect: self.origin_rect,
            diagnostics: self.diagnostics,
            client_only: self.client_only,
            visible_hwnds: self.visibility.visible_hwnds@,
            host_rects: self.visibility.host_rects@,
        }
    }
}

/// A pass, the thumbnails and the side effects after a step.
pub ghost struct PassStep {
    pub pass: PassView,
    pub cache: CacheView,
    pub unregister: Option<isize>,
    pub log: Option<Seq<char>>,
}

/// The handle of a window's thumbnail, zero where it has none.
pub open spec fn thumbnail_handle(cache: CacheView, hwnd: u64) -> isize {
    if cache.thumbnails.contains_key(hwnd) {
        cache.thumbnails[hwnd].handle
    } else {
        0
    }
}

fn find_thumbnail_handle(cache: &ThumbnailCache, hwnd: u64) -> (r: isize)
    ensures
        r == thumbnail_handle(cache@, hwnd),
{
    match cache.thumbnails.get(&hwnd) {
        Some(thumbnail) => thumbnail.handle,
        None => 0,
    }
}

impl PassView {
    pub open spec fn at_end(self) -> bool {
        self.position >= self.jobs.len()
    }

    pub open spec fn job(self) -> ThumbnailJob {
        self.jobs[self.position]
    }

    pub open spec fn next_job(self) -> PassView {
        PassView { position: self.position + 1, phase: PassPhase::Checking, ..self }
    }

    pub open spec fn in_phase(self, phase: PassPhase) -> PassView {
        PassView { phase, ..self }
    }

    /// The thumbnail of the window at hand can be seen.
    pub open spec fn seen(self, projection: ThumbnailProjection) -> PassView {
        PassView {
            visible_hwnds: self.visible_hwnds.insert(self.job().hwnd),
            host_rects: self.host_rects.push(projection.destination_rect),
            ..self
        }
    }

    /// What has to be done next.
    pub open spec fn pending(self, cache: CacheView) -> PassAction {
        if self.at_end() {
            PassAction::Done
        } else {
            let hwnd = self.job().hwnd;
            match self.phase {
                PassPhase::Checking => PassAction::CheckWindow { hwnd },
                PassPhase::Hiding => PassAction::Hide { handle: thumbnail_handle(cache, hwnd) },
                PassPhase::Registering => PassAction::Register { hwnd },
                PassPhase::Measuring => PassAction::Measure {
                    handle: thumbnail_handle(cache, hwnd),
                },
                PassPhase::Updating { projection } => PassAction::Update {
                    handle: thumbnail_handle(cache, hwnd),
                    projection,
                },
            }
        }
    }

    pub open spec fn quietly(self, cache: CacheView) -> PassStep {
        PassStep { pass: self, cache, unregister: None, log: None }
    }

    /// After it was found out whether the window at hand exists. One that does not, or that
    /// is out of sight with nothing shown, is done with.
    pub open spec fn after_check(self, cache: CacheView, alive: bool) -> PassStep {
        let job = self.job();
        let (next, step) = cache.begin(job.hwnd, alive, job.clipped);
        match step {
            WindowSyncStep::Skip => self.next_job().quietly(next),
            WindowSyncStep::Unregister { handle } => PassStep {
                unregister: Some(handle),
                ..self.next_job().quietly(next)
            },
            WindowSyncStep::Hide { handle } => self.in_phase(PassPhase::Hiding).quietly(next),
            WindowSyncStep::Register => self.in_phase(PassPhase::Registering).quietly(next),
            WindowSyncStep::Measure { handle } => self.in_phase(PassPhase::Measuring).quietly(
                next,
            ),
        }
    }

    /// A failure is remembered, and the window at hand is done with.
    pub open spec fn after_failure(
        self,
        cache: CacheView,
        stage: Seq<char>,
        error: Seq<char>,
    ) -> PassStep {
        let (next, log) = cache.with_failure(self.job().hwnd, stage, error);
        PassStep { log, ..self.next_job().quietly(next) }
    }

    /// After the source of the thumbnail at hand was measured. A thumbnail that shows the
    /// right thing already is left alone.
    pub open spec fn after_measure(
        self,
        cache: CacheView,
        source: Rect,
        geometry: Option<FullWindowPreviewGeometry>,
    ) -> PassStep {
        let job = self.job();
        match job.clipped {
            None => self.next_job().quietly(cache),
            Some(clipped) => match projection_of(job.rect, clipped, self.origin_rect, source) {
                None => self.next_job().quietly(cache),
                Some(projection) => {
                    let (known, log) = cache.with_diagnostic(
                        self.diagnostics,
                        job.hwnd,
                        diagnostic_text(
                            job.rect,
                            geometry,
                            clipped,
                            source,
                            projection,
                            self.client_only,
                        ),
                    );
                    let next = match known.show_step(job.hwnd, Some(projection)) {
                        ShowStep::Keep { projection } => self.seen(projection).next_job().quietly(
                            CacheView { failures: known.failures.remove(job.hwnd), ..known },
                        ),
                        ShowStep::Update { handle, projection } => self.in_phase(
                            PassPhase::Updating { projection },
                        ).quietly(known),
                        ShowStep::Skip => self.next_job().quietly(known),
                    };
                    PassStep { log, ..next }
                },
            },
        }
    }

    /// After an event. One that does not belong to the phase changes nothing.
    pub open spec fn after(self, cache: CacheView, event: PassEvent) -> PassStep {
        if self.at_end() {
            self.quietly(cache)
        } else {
            let hwnd = self.job().hwnd;
            match (self.phase, event) {
                (PassPhase::Checking, PassEvent::Checked(alive)) => self.after_check(cache, alive),
                (PassPhase::Hiding, PassEvent::Hidden(hidden)) => {
                    let (next, unregister, log) = cache.after_hide(hwnd, hidden);
                    PassStep { pass: self.next_job(), cache: next, unregister, log }
                },
                (PassPhase::Registering, PassEvent::Registered(Ok(handle))) => self.in_phase(
                    PassPhase::Measuring,
                ).quietly(cache.with_thumbnail(hwnd, handle)),
                (PassPhase::Registering, PassEvent::Registered(Err(error))) => self.after_failure(
                    cache,
                    "register"@,
                    error@,
                ),
                (PassPhase::Measuring, PassEvent::Measured { source: Ok(source), geometry }) =>
                    self.after_measure(cache, source, geometry),
                (PassPhase::Measuring, PassEvent::Measured { source: Err(error), geometry }) =>
                    self.after_failure(cache, "source-size"@, error@),
                (PassPhase::Updating { projection }, PassEvent::Updated(updated)) => {
                    let (next, unregister, log) = cache.after_update(hwnd, projection, updated);
                    let pass = if updated && cache.thumbnails.contains_key(hwnd) {
                        self.seen(projection)
                    } else {
                        self
                    };
                    PassStep { pass: pass.next_job(), cache: next, unregister, log }
                },
                _ => self.quietly(cache),
            }
        }
    }
}

impl ThumbnailPass {
    fn new(
        jobs: Vec<ThumbnailJob>,
        origin_rect: Rect,
        diagnostics: bool,
        client_only: bool,
    ) -> (r: ThumbnailPass)
        ensures
            r@ == (PassView {
                jobs: jobs@,
                position: 0,
                phase: PassPhase::Checking,
                origin_rect,
                diagnostics,
                client_only,
                visible_hwnds: Set::empty(),
                host_rects: Seq::empty(),
            }),
    {
        ThumbnailPass {
            jobs,
            position: 0,
            phase: PassPhase::Checking,
            origin_rect,
            diagnostics,
            client_only,
            visibility: SceneVisibility::new(),
        }
    }

    /// Starts a pass over all windows of a frame. Hands out the handles of the thumbnails
    /// that are no longer wanted; they have to be unregistered.
    pub fn sync_scene_thumbnails(
        cache: &mut ThumbnailCache,
        frame: &OverviewRenderFrame,
        visible_scene_rect: Rect,
        diagnostics: bool,
        client_only: bool,
    ) -> (r: (ThumbnailPass, Vec<isize>))
        ensures
            r.0@ == (PassView {
                jobs: scene_jobs(
                    draw_order(frame@.workspaces, frame.monitor_rect),
                    visible_scene_rect,
                ),
                position: 0,
                phase: PassPhase::Checking,
                origin_rect: visible_scene_rect,
                diagnostics,
                client_only,
                visible_hwnds: Set::empty(),
                host_rects: Seq::empty(),
            }),
            final(cache)@ == old(cache)@.keep_only(frame_handles(frame@.workspaces)),
            exists|order: Seq<u64>|
                #![trigger handles_of(order, old(cache)@.thumbnails)]
                order.no_duplicates() && order.to_set() == old(cache)@.stale(
                    frame_handles(frame@.workspaces),
                ) && r.1@ == handles_of(order, old(cache)@.thumbnails),
    {
        let gone: Vec<isize> = cache.drop_stale(&desired_hwnds(frame));
        let jobs: Vec<ThumbnailJob> = plan_scene_thumbnails(frame, visible_scene_rect);
        (ThumbnailPass::new(jobs, visible_scene_rect, diagnostics, client_only), gone)
    }

    /// Starts a pass over the windows of one workspace.
    pub fn sync_workspace_thumbnails(
        cache: &mut ThumbnailCache,
        workspace: &WorkspaceRenderFrame,
        visible_canvas_rect: Rect,
    ) -> (r: (ThumbnailPass, Vec<isize>))
        ensures
            r.0@ == (PassView {
                jobs: canvas_jobs(workspace.windows@, visible_canvas_rect),
                position: 0,
                phase: PassPhase::Checking,
                origin_rect: visible_canvas_rect,
                diagnostics: false,
                client_only: false,
                visible_hwnds: Set::empty(),
                host_rects: Seq::empty(),
            }),
            final(cache)@ == old(cache)@.keep_only(workspace_handles(workspace.windows@)),
            exists|order: Seq<u64>|
                #![trigger handles_of(order, old(cache)@.thumbnails)]
                order.no_duplicates() && order.to_set() == old(cache)@.stale(
                    workspace_handles(workspace.windows@),
                ) && r.1@ == handles_of(order, old(cache)@.thumbnails),
    {
        let gone: Vec<isize> = cache.drop_stale(&collect_workspace_handles(workspace));
        let jobs: Vec<ThumbnailJob> = plan_workspace_thumbnails(workspace, visible_canvas_rect);
        (ThumbnailPass::new(jobs, visible_canvas_rect, false, false), gone)
    }

    /// What has to be done next.
    pub fn pending_action(&self, cache: &ThumbnailCache) -> (r: PassAction)
        ensures
            r == self@.pending(cache@),
    {
        if self.position >= self.jobs.len() {
            return PassAction::Done;
        }
        let hwnd: u64 = self.jobs[self.position].hwnd;
        match self.phase {
            PassPhase::Checking => PassAction::CheckWindow { hwnd },
            PassPhase::Hiding => PassAction::Hide { handle: find_thumbnail_handle(cache, hwnd) },
            PassPhase::Registering => PassAction::Register { hwnd },
            PassPhase::Measuring => PassAction::Measure {
                handle: find_thumbnail_handle(cache, hwnd),
            },
            PassPhase::Updating { projection } => PassAction::Update {
                handle: find_thumbnail_handle(cache, hwnd),
                projection,
            },
        }
    }

    fn go_to_next_job(&mut self)
        requires
            old(self).position < old(self).jobs.len(),
        ensures
            final(self)@ == old(self)@.next_job(),
            final(self).jobs == old(self).jobs,
    {
        self.position = self.position + 1;
        self.phase = PassPhase::Checking;
    }

    fn finish_check(&mut self, cache: &mut ThumbnailCache, alive: bool) -> (r: Option<isize>)
        requires
            old(self).position < old(self).jobs.len(),
        ensures
            ({
                let step = old(self)@.after_check(old(cache)@, alive);
                &&& final(self)@ == step.pass
                &&& final(cache)@ == step.cache
                &&& r == step.unregister
                &&& step.log is None
            }),
    {
        let job: ThumbnailJob = self.jobs[self.position];
        match cache.begin_window(job.hwnd, alive, job.clipped) {
            WindowSyncStep::Skip => {
                self.go_to_next_job();
                None
            },
            WindowSyncStep::Unregister { handle } => {
                self.go_to_next_job();
                Some(handle)
            },
            WindowSyncStep::Hide { handle: _ } => {
                self.phase = PassPhase::Hiding;
                None
            },
            WindowSyncStep::Register => {
                self.phase = PassPhase::Registering;
                None
            },
            WindowSyncStep::Measure { handle: _ } => {
                self.phase = PassPhase::Measuring;
                None
            },
        }
    }

    fn finish_measure(
        &mut self,
        cache: &mut ThumbnailCache,
        source: Rect,
        geometry: Option<FullWindowPreviewGeometry>,
    ) -> (r: Option<String>)
        requires
            old(self).position < old(self).jobs.len(),
        ensures
            ({
                let step = old(self)@.after_measure(old(cache)@, source, geometry);
                &&& final(self)@ == step.pass
                &&& final(cache)@ == step.cache
                &&& optional_line(r) == step.log
                &&& step.unregister is None
            }),
    {
        let job: ThumbnailJob = self.jobs[self.position];
        let clipped: Rect = match job.clipped {
            Some(clipped) => clipped,
            None => {
                self.go_to_next_job();
                return None;
            },
        };
        let projection: ThumbnailProjection = match job_projection(
            job,
            self.origin_rect,
            source,
        ) {
            Some(projection) => projection,
            None => {
                self.go_to_next_job();
                return None;
            },
        };
        let text: String = thumbnail_diagnostic(
            job.rect,
            geometry,
            clipped,
            source,
            projection,
            self.client_only,
        );
        let log: Option<String> = cache.log_thumbnail_geometry_diagnostic(
            self.diagnostics,
            job.hwnd,
            text,
        );
        match cache.begin_show(job.hwnd, Some(projection)) {
            ShowStep::Keep { projection } => {
                self.visibility.record(job.hwnd, projection);
                self.go_to_next_job();
            },
            ShowStep::Update { handle: _, projection } => {
                self.phase = PassPhase::Updating { projection };
            },
            ShowStep::Skip => {
                self.go_to_next_job();
            },
        }
        log
    }

    fn finish_update(
        &mut self,
        cache: &mut ThumbnailCache,
        projection: ThumbnailProjection,
        updated: bool,
    ) -> (r: (Option<isize>, Option<String>))
        requires
            old(self).position < old(self).jobs.len(),
            old(self).phase == (PassPhase::Updating { projection }),
        ensures
            ({
                let step = old(self)@.after(old(cache)@, PassEvent::Updated(updated));
                &&& final(self)@ == step.pass
                &&& final(cache)@ == step.cache
                &&& r.0 == step.unregister
                &&& optional_line(r.1) == step.log
            }),
    {
        let hwnd: u64 = self.jobs[self.position].hwnd;
        if updated && cache.thumbnails.contains_key(&hwnd) {
            self.visibility.record(hwnd, projection);
        }
        let reply: (Option<isize>, Option<String>) = cache.finish_update(hwnd, projection, updated);
        self.go_to_next_job();
        reply
    }

    /// Goes on with what came of the pending action.
    pub fn step(&mut self, cache: &mut ThumbnailCache, event: PassEvent) -> (r: PassReply)
        ensures
            ({
                let step = old(self)@.after(old(cache)@, event);
                &&& final(self)@ == step.pass
                &&& final(cache)@ == step.cache
                &&& r.unregister == step.unregister
                &&& optional_line(r.log) == step.log
                &&& r.action == step.pass.pending(step.cache)
            }),
    {
        let mut unregister: Option<isize> = None;
        let mut log: Option<String> = None;
        if self.position < self.jobs.len() {
            let hwnd: u64 = self.jobs[self.position].hwnd;
            match (self.phase, event) {
                (PassPhase::Checking, PassEvent::Checked(alive)) => {
                    unregister = self.finish_check(cache, alive);
                },
                (PassPhase::Hiding, PassEvent::Hidden(hidden)) => {
                    let reply: (Option<isize>, Option<String>) = cache.finish_hide(hwnd, hidden);
                    unregister = reply.0;
                    log = reply.1;
                    self.go_to_next_job();
                },
                (PassPhase::Registering, PassEvent::Registered(result)) => match result {
                    Ok(handle) => {
                        cache.finish_register(hwnd, handle);
                        self.phase = PassPhase::Measuring;
                    },
                    Err(error) => {
                        log = cache.log_thumbnail_failure(hwnd, "register", error.as_str());
                        self.go_to_next_job();
                    },
                },
                (PassPhase::Measuring, PassEvent::Measured { source, geometry }) => match source {
                    Ok(source) => {
                        log = self.finish_measure(cache, source, geometry);
                    },
                    Err(error) => {
                        log = cache.log_thumbnail_failure(hwnd, "source-size", error.as_str());
                        self.go_to_next_job();
                    },
                },
                (PassPhase::Updating { projection }, PassEvent::Updated(updated)) => {
                    let reply: (Option<isize>, Option<String>) = self.finish_update(
                        cache,
                        projection,
                        updated,
                    );
                    unregister = reply.0;
                    log = reply.1;
                },
                _ => {},
            }
        }
        let action: PassAction = self.pending_action(cache);
        PassReply { unregister, log, action }
    }
}

/// The handles of the windows of a workspace, in their order.
pub open spec fn workspace_handles(windows: Seq<WindowRenderFrame>) -> Seq<u64> {
    Seq::new(windows.len(), |i: int| windows[i].hwnd)
}

fn collect_workspace_handles(workspace: &WorkspaceRenderFrame) -> (r: Vec<u64>)
    ensures
        r@ == workspace_handles(workspace.windows@),
{
    let mut hwnds: Vec<u64> = Vec::new();
    let mut i: usize = 0;
    while i < workspace.windows.len()
        invariant
            i <= workspace.windows.len(),
            hwnds.len() == i,
            forall|j: int| 0 <= j < i ==> hwnds@[j] == workspace.windows@[j].hwnd,
        decreases workspace.windows.len() - i,
    {
        hwnds.push(workspace.windows[i].hwnd);
        i = i + 1;
    }
    assert(hwnds@ =~= workspace_handles(workspace.windows@));
    hwnds
}

/// Whether an event tells of what is being done in a phase.
pub open spec fn event_belongs(phase: PassPhase, event: PassEvent) -> bool {
    match phase {
        PassPhase::Checking => event is Checked,
        PassPhase::Hiding => event is Hidden,
        PassPhase::Registering => event is Registered,
        PassPhase::Measuring => event is Measured,
        PassPhase::Updating { projection } => event is Updated,
    }
}

impl PassView {
    /// The most actions that are left.
    pub open spec fn actions_left(self) -> int {
        if self.at_end() {
            0
        } else {
            4 * (self.jobs.len() - self.position) - (match self.phase {
                PassPhase::Checking => 0int,
                PassPhase::Registering => 1,
                PassPhase::Measuring => 2,
                PassPhase::Hiding | PassPhase::Updating { .. } => 3,
            })
        }
    }
}

/// A pass comes to its end: every report of what it asked for leaves less to do, and there are
/// at most four actions to a window.
pub proof fn law_pass_comes_to_its_end(pass: PassView, cache: CacheView, event: PassEvent)
    requires
        0 <= pass.position,
        !pass.at_end(),
        event_belongs(pass.phase, event),
    ensures
        0 <= pass.after(cache, event).pass.actions_left() < pass.actions_left(),
        pass.actions_left() <= 4 * pass.jobs.len(),
        pass.after(cache, event).pass.at_end() ==> pass.after(cache, event).pass.pending(
            pass.after(cache, event).cache,
        ) is Done,
{
}

/// A step changes nothing that is known of other windows than the one at hand.
#[verifier::rlimit(30)]
#[verifier::spinoff_prover]
pub proof fn law_pass_touches_one_window(
    pass: PassView,
    cache: CacheView,
    event: PassEvent,
    other: u64,
)
    requires
        !pass.at_end(),
        other != pass.job().hwnd,
    ensures
        ({
            let next = pass.after(cache, event).cache;
            &&& next.thumbnails.contains_key(other) == cache.thumbnails.contains_key(other)
            &&& cache.thumbnails.contains_key(other) ==> next.thumbnails[other]
                == cache.thumbnails[other]
            &&& next.failures.contains_key(other) == cache.failures.contains_key(other)
            &&& cache.failures.contains_key(other) ==> next.failures[other]
                == cache.failures[other]
            &&& next.diagnostics.contains_key(other) == cache.diagnostics.contains_key(other)
            &&& cache.diagnostics.contains_key(other) ==> next.diagnostics[other]
                == cache.diagnostics[other]
            &&& pass.after(cache, event).pass.visible_hwnds.contains(other)
                == pass.visible_hwnds.contains(other)
        }),
{
    let next = pass.after(cache, event);
    match pass.phase {
        PassPhase::Checking => {
            if event is Checked {
                assert(next == pass.after_check(cache, event->Checked_0));
            } else {
                assert(next == pass.quietly(cache));
            }
        },
        PassPhase::Measuring => {
            if event is Measured {
                if event->Measured_source is Ok {
                    assert(next == pass.after_measure(
                        cache,
                        event->Measured_source->Ok_0,
                        event->Measured_geometry,
                    ));
                }
            } else {
                assert(next == pass.quietly(cache));
            }
        },
        _ => {},
    }
}

/// A window comes to count as seen only when its thumbnail shows what it should, in the place
/// that is noted with it.
pub proof fn law_seen_windows_are_shown(pass: PassView, cache: CacheView, event: PassEvent)
    requires
        !pass.at_end(),
    ensures
        ({
            let step = pass.after(cache, event);
            let hwnd = pass.job().hwnd;
            step.pass.host_rects != pass.host_rects ==> {
                &&& step.pass.visible_hwnds == pass.visible_hwnds.insert(hwnd)
                &&& step.cache.thumbnails.contains_key(hwnd)
                &&& step.cache.thumbnails[hwnd].visible
                &&& step.cache.thumbnails[hwnd].visible_projection matches Some(projection)
                    && step.pass.host_rects == pass.host_rects.push(projection.destination_rect)
            }
        }),
{
}

/// What a pass asks for next: at its end nothing, else what its phase is named after, for the
/// window at hand or for its thumbnail.
pub proof fn law_passes_ask_for_their_phase(pass: PassView, cache: CacheView)
    ensures
        ({
            let action = pass.pending(cache);
            let hwnd = pass.jobs[pass.position].hwnd;
            let handle = if cache.thumbnails.contains_key(hwnd) {
                cache.thumbnails[hwnd].handle
            } else {
                0
            };
            &&& action is Done <==> pass.position >= pass.jobs.len()
            &&& pass.position < pass.jobs.len() ==> {
                &&& pass.phase is Checking ==> action == (PassAction::CheckWindow { hwnd })
                &&& pass.phase is Hiding ==> action == (PassAction::Hide { handle })
                &&& pass.phase is Registering ==> action == (PassAction::Register { hwnd })
                &&& pass.phase is Measuring ==> action == (PassAction::Measure { handle })
                &&& pass.phase matches PassPhase::Updating { projection } ==> action == (
                PassAction::Update { handle, projection })
            }
        }),
{
}

/// What follows the check of a window. One that is gone loses its thumbnail, one out of sight
/// has it hidden where it can be seen, one in sight is measured or registered; the others are
/// done with.
pub proof fn law_checked_windows_go_on(
    pass: PassView,
    cache: CacheView,
    alive: bool,
    thumbnail: PreviewThumbnailState,
)
    requires
        pass.position < pass.jobs.len(),
        pass.phase is Checking,
        pass.jobs[pass.position].hwnd <= isize::MAX,
    ensures
        ({
            let step = pass.after(cache, PassEvent::Checked(alive));
            let job = pass.jobs[pass.position];
            let known = cache.thumbnails.contains_pair(job.hwnd, thumbnail);
            let unknown = !cache.thumbnails.contains_key(job.hwnd);
            let over = step.pass.position == pass.position + 1 && step.pass.phase is Checking;
            let same = step.pass.position == pass.position;
            &&& !alive ==> over
            &&& !alive && known ==> step.unregister == Some(thumbnail.handle)
            &&& !(!alive && known) && (known || unknown) ==> step.unregister is None
            &&& alive && job.clipped is Some && known ==> same && step.pass.phase is Measuring
            &&& alive && job.clipped is Some && unknown ==> same && step.pass.phase is Registering
            &&& alive && job.clipped is None && known && thumbnail.visible ==> same
                && step.pass.phase is Hiding
            &&& alive && job.clipped is None && known && !thumbnail.visible ==> over
            &&& alive && job.clipped is None && unknown ==> over
            &&& alive ==> step.cache == cache
            &&& step.log is None
            &&& step.pass.host_rects == pass.host_rects
        }),
{
}

/// A registered thumbnail is measured next; a window that cannot be registered or measured is
/// done with, and the failure is remembered under its stage.
pub proof fn law_registered_thumbnails_are_measured(
    pass: PassView,
    cache: CacheView,
    handle: isize,
    error: String,
    geometry: Option<FullWindowPreviewGeometry>,
)
    requires
        pass.position < pass.jobs.len(),
    ensures
        ({
            let hwnd = pass.jobs[pass.position].hwnd;
            let told = " hwnd="@ + decimal(hwnd as nat) + " error="@ + error@;
            let taken = pass.after(cache, PassEvent::Registered(Ok(handle)));
            let refused = pass.after(cache, PassEvent::Registered(Err(error)));
            let unmeasured = pass.after(
                cache,
                PassEvent::Measured { source: Err(error), geometry },
            );
            &&& pass.phase is Registering ==> taken.pass.position == pass.position
                && taken.pass.phase is Measuring && taken.cache.thumbnails.contains_key(hwnd)
                && taken.cache.thumbnails[hwnd].handle == handle
            &&& pass.phase is Registering ==> refused.pass.position == pass.position + 1
                && refused.cache.thumbnails == cache.thumbnails && refused.unregister is None
            &&& pass.phase is Registering ==> refused.cache.failures.contains_key(hwnd)
                && refused.cache.failures[hwnd] =~= "stage="@ + "register"@ + told
            &&& pass.phase is Measuring ==> unmeasured.pass.position == pass.position + 1
                && unmeasured.cache.thumbnails == cache.thumbnails && unmeasured.unregister is None
            &&& pass.phase is Measuring ==> unmeasured.cache.failures.contains_key(hwnd)
                && unmeasured.cache.failures[hwnd] =~= "stage="@ + "source-size"@ + told
        }),
{
}

/// A measured thumbnail is updated where it has to show something else, and left alone where
/// it shows that already; then its window counts as seen.
pub proof fn law_measured_thumbnails_are_shown(
    pass: PassView,
    cache: CacheView,
    source: Rect,
    geometry: Option<FullWindowPreviewGeometry>,
    clipped: Rect,
    projection: ThumbnailProjection,
)
    requires
        pass.position < pass.jobs.len(),
        pass.phase is Measuring,
        cache.thumbnails.contains_key(pass.jobs[pass.position].hwnd),
        pass.jobs[pass.position].clipped == Some(clipped),
        projection_of(pass.jobs[pass.position].rect, clipped, pass.origin_rect, source) == Some(
            projection,
        ),
    ensures
        ({
            let hwnd = pass.jobs[pass.position].hwnd;
            let step = pass.after(cache, PassEvent::Measured { source: Ok(source), geometry });
            let shown = cache.thumbnails[hwnd].visible && cache.thumbnails[hwnd].visible_projection
                == Some(projection);
            &&& shown ==> step.pass.position == pass.position + 1 && step.pass.host_rects
                == pass.host_rects.push(projection.destination_rect)
                && step.pass.visible_hwnds.contains(hwnd) && !step.cache.failures.contains_key(hwnd)
            &&& !shown ==> step.pass.position == pass.position && step.pass.phase == (
            PassPhase::Updating { projection }) && step.pass.host_rects == pass.host_rects
            &&& step.cache.thumbnails == cache.thumbnails && step.unregister is None
            &&& !pass.diagnostics ==> step.log is None
        }),
{
}

/// A window whose thumbnail was updated counts as seen in its place; one whose thumbnail could
/// not be updated or hidden loses it. Either way the window is done with.
pub proof fn law_updated_windows_are_seen(
    pass: PassView,
    cache: CacheView,
    done: bool,
    projection: ThumbnailProjection,
)
    requires
        pass.position < pass.jobs.len(),
        cache.thumbnails.contains_key(pass.jobs[pass.position].hwnd),
    ensures
        ({
            let hwnd = pass.jobs[pass.position].hwnd;
            let handle = cache.thumbnails[hwnd].handle;
            let updated = pass.after(cache, PassEvent::Updated(done));
            let hidden = pass.after(cache, PassEvent::Hidden(done));
            &&& pass.phase == (PassPhase::Updating { projection }) ==> {
                &&& updated.pass.position == pass.position + 1 && updated.pass.phase is Checking
                &&& done ==> updated.pass.host_rects == pass.host_rects.push(
                    projection.destination_rect,
                ) && updated.pass.visible_hwnds.contains(hwnd) && updated.unregister is None
                &&& !done ==> updated.pass.host_rects == pass.host_rects && updated.unregister
                    == Some(handle) && !updated.cache.thumbnails.contains_key(hwnd)
            }
            &&& pass.phase is Hiding ==> {
                &&& hidden.pass.position == pass.position + 1 && hidden.pass.phase is Checking
                &&& hidden.pass.host_rects == pass.host_rects
                &&& done ==> hidden.unregister is None && hidden.cache.thumbnails.contains_key(hwnd)
                    && !hidden.cache.thumbnails[hwnd].visible
                &&& !done ==> hidden.unregister == Some(handle)
                    && !hidden.cache.thumbnails.contains_key(hwnd)
            }
        }),
{
}

/// A pass over a frame begins with the first window of the workspace that is drawn first, with
/// nothing seen yet, and only the windows of the frame keep their thumbnails.
pub proof fn law_passes_begin_at_the_beginning(
    cache: &mut ThumbnailCache,
    frame: &OverviewRenderFrame,
    visible_scene_rect: Rect,
    diagnostics: bool,
    client_only: bool,
    r: (ThumbnailPass, Vec<isize>),
    hwnd: u64,
)
    requires
        call_ensures(
            ThumbnailPass::sync_scene_thumbnails,
            (cache, frame, visible_scene_rect, diagnostics, client_only),
            r,
        ),
    ensures
        r.0@.position == 0 && r.0@.phase is Checking,
        r.0@.jobs == scene_jobs(
            draw_order(frame@.workspaces, frame.monitor_rect),
            visible_scene_rect,
        ),
        r.0@.origin_rect == visible_scene_rect,
        r.0@.diagnostics == diagnostics && r.0@.client_only == client_only,
        r.0@.host_rects.len() == 0 && !r.0@.visible_hwnds.contains(hwnd),
        final(cache)@.thumbnails.contains_key(hwnd) <==> old(cache)@.thumbnails.contains_key(hwnd)
            && frame_handles(frame@.workspaces).contains(hwnd),
{
}

/// A pass over one workspace goes over its windows in their order, seen from its canvas, and
/// logs no geometry.
pub proof fn law_workspace_passes_go_over_their_windows(
    cache: &mut ThumbnailCache,
    workspace: &WorkspaceRenderFrame,
    visible_canvas_rect: Rect,
    r: (ThumbnailPass, Vec<isize>),
    i: int,
)
    requires
        call_ensures(
            ThumbnailPass::sync_workspace_thumbnails,
            (cache, workspace, visible_canvas_rect),
            r,
        ),
    ensures
        r.0@.position == 0 && r.0@.phase is Checking,
        r.0@.jobs.len() == workspace.windows@.len(),
        0 <= i < workspace.windows@.len() ==> r.0@.jobs[i].hwnd == workspace.windows@[i].hwnd
            && r.0@.jobs[i].rect == workspace.windows@[i].rect,
        r.0@.origin_rect == visible_canvas_rect,
        !r.0@.diagnostics && !r.0@.client_only,
        r.0@.host_rects.len() == 0,
        0 <= i < workspace.windows@.len() ==> {
            let hwnd = workspace.windows@[i].hwnd;
            final(cache)@.thumbnails.contains_key(hwnd) <==> old(cache)@.thumbnails.contains_key(
                hwnd,
            )
        },
{
    if 0 <= i < workspace.windows@.len() {
        let hwnd = workspace.windows@[i].hwnd;
        assert(workspace_handles(workspace.windows@)[i] == hwnd);
        assert(workspace_handles(workspace.windows@).contains(hwnd));
    }
}

} // verus!
