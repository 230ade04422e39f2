//! The thumbnails of live windows on the overview: which are registered, which are shown,
//! and what went wrong with them last.
//!
//! The owner of the compositor's handles walks through the jobs of a frame. For each it
//! reports what the system said and does what it is told: [`ThumbnailCache`] decides.

use std::collections::{HashMap, HashSet};

use crate::geometry::{intersect_rect, rect_bottom, rect_right, Rect};
use crate::ids::holds_hwnd;
use crate::overview_engine::frame::{OverviewRenderFrame, WindowRenderFrame, WorkspaceRenderFrame};
use crate::overview_engine::targets::ordered_frame_workspaces;
use crate::overview_surface::thumbnail::{
    thumbnail_projection, FullWindowPreviewGeometry, ThumbnailProjection,
};
use crate::text::{decimal_text, quoted, same_text, signed_decimal_text, truth_word};
use crate::win32::{format_rect, hwnd_from_raw};
use vstd::prelude::*;
use vstd::string::*;

verus! {

use crate::geometry::intersection;
use crate::overview_engine::frame::WorkspaceFrameView;
use crate::overview_engine::targets::{draw_order, references_view};
use crate::overview_surface::thumbnail::{overhang, projection_of};
use crate::text::{decimal, signed_decimal, truth_text};
use crate::win32::rect_text;

broadcast use vstd::std_specs::hash::group_hash_axioms;

/// A registered thumbnail and what it shows at present.
#[derive(Clone, Copy, Debug, PartialEq, Eq, Structural)]
pub struct PreviewThumbnailState {
    pub handle: isize,
    pub visible_projection: Option<ThumbnailProjection>,
    pub visible: bool,
}

impl PreviewThumbnailState {
    pub open spec fn concealed(self) -> PreviewThumbnailState {
        PreviewThumbnailState { visible_projection: None, visible: false, ..self }
    }

    pub open spec fn showing(self, projection: ThumbnailProjection) -> PreviewThumbnailState {
        PreviewThumbnailState { visible_projection: Some(projection), visible: true, ..self }
    }
}

/// The thumbnails by the handle of the window that they show, with the last failure and the
/// last diagnostic that was logged of each window.
#[derive(Debug)]
pub struct ThumbnailCache {
    pub thumbnails: HashMap<u64, PreviewThumbnailState>,
    pub last_thumbnail_failures: HashMap<u64, String>,
    pub last_thumbnail_diagnostics: HashMap<u64, String>,
}

pub ghost struct CacheView {
    pub thumbnails: Map<u64, PreviewThumbnailState>,
    pub failures: Map<u64, Seq<char>>,
    pub diagnostics: Map<u64, Seq<char>>,
}

pub open spec fn texts_view(texts: Map<u64, String>) -> Map<u64, Seq<char>> {
    Map::new(|key: u64| texts.contains_key(key), |key: u64| texts[key]@)
}

proof fn lemma_texts_view(texts: Map<u64, String>, key: u64, text: String)
    ensures
        texts_view(texts.insert(key, text)) == texts_view(texts).insert(key, text@),
        texts_view(texts.remove(key)) == texts_view(texts).remove(key),
{
    assert(texts_view(texts.insert(key, text)) =~= texts_view(texts).insert(key, text@));
    assert(texts_view(texts.remove(key)) =~= texts_view(texts).remove(key));
}

impl View for ThumbnailCache {
    type V = CacheView;

    open spec fn view(&self) -> CacheView {
        CacheView {
            thumbnails: self.thumbnails@,
            failures: texts_view(self.last_thumbnail_failures@),
            diagnostics: texts_view(self.last_thumbnail_diagnostics@),
        }
    }
}

/// What a failure is remembered as.
pub open spec fn failure_text(hwnd: u64, stage: Seq<char>, error: Seq<char>) -> Seq<char> {
    "stage="@ + stage + " hwnd="@ + decimal(hwnd as nat) + " error="@ + error
}

/// What a failure is logged as.
pub open spec fn failure_line(hwnd: u64, stage: Seq<char>, error: Seq<char>) -> Seq<char> {
    "overview-surface: thumbnail-failure "@ + failure_text(hwnd, stage, error)
}

pub open spec fn hide_failure() -> Seq<char> {
    "DwmUpdateThumbnailProperties failed while hiding preview"@
}

pub open spec fn show_failure() -> Seq<char> {
    "DwmUpdateThumbnailProperties failed while showing preview"@
}

/// What has to be done next for a window of a frame.
#[derive(Clone, Copy, Debug, PartialEq, Eq, Structural)]
pub enum WindowSyncStep {
    /// Nothing.
    Skip,
    /// The window is gone: unregister its thumbnail.
    Unregister { handle: isize },
    /// The window is out of sight: hide its thumbnail and report whether that worked.
    Hide { handle: isize },
    /// The window needs a thumbnail: register one and report how that went.
    Register,
    /// Measure the source of the window's thumbnail and report its size.
    Measure { handle: isize },
}

/// What has to be done once the source of a thumbnail has been measured.
#[derive(Clone, Copy, Debug, PartialEq, Eq, Structural)]
pub enum ShowStep {
    /// Nothing: there is nothing to show, or it could not be measured.
    Skip,
    /// The thumbnail shows the right thing already.
    Keep { projection: ThumbnailProjection },
    /// Update the thumbnail and report whether that worked.
    Update { handle: isize, projection: ThumbnailProjection },
}

impl CacheView {
    pub open spec fn forget(self, hwnd: u64) -> CacheView {
        CacheView {
            thumbnails: self.thumbnails.remove(hwnd),
            failures: self.failures.remove(hwnd),
            diagnostics: self.diagnostics.remove(hwnd),
        }
    }

    /// Remembers a failure; it is logged unless it was the last one of the window.
    pub open spec fn with_failure(self, hwnd: u64, stage: Seq<char>, error: Seq<char>) -> (
        CacheView,
        Option<Seq<char>>,
    ) {
        let text = failure_text(hwnd, stage, error);
        if self.failures.contains_key(hwnd) && self.failures[hwnd] == text {
            (self, None)
        } else {
            (
                CacheView { failures: self.failures.insert(hwnd, text), ..self },
                Some(failure_line(hwnd, stage, error)),
            )
        }
    }

    /// Remembers a diagnostic; it is logged unless diagnostics are off or it was the last one
    /// of the window.
    pub open spec fn with_diagnostic(self, enabled: bool, hwnd: u64, text: Seq<char>) -> (
        CacheView,
        Option<Seq<char>>,
    ) {
        if !enabled || (self.diagnostics.contains_key(hwnd) && self.diagnostics[hwnd] == text) {
            (self, None)
        } else {
            (
                CacheView { diagnostics: self.diagnostics.insert(hwnd, text), ..self },
                Some(diagnostic_line(hwnd, text)),
            )
        }
    }

    /// The first step for a window: whether it is alive, and its part that can be seen.
    pub open spec fn begin(self, hwnd: u64, alive: bool, clipped: Option<Rect>) -> (
        CacheView,
        WindowSyncStep,
    ) {
        let known = self.thumbnails.contains_key(hwnd);
        let thumbnail = self.thumbnails[hwnd];
        if hwnd > isize::MAX {
            (self, WindowSyncStep::Skip)
        } else if !alive {
            (
                self.forget(hwnd),
                if known {
                    WindowSyncStep::Unregister { handle: thumbnail.handle }
                } else {
                    WindowSyncStep::Skip
                },
            )
        } else if clipped is None {
            (
                self,
                if known && thumbnail.visible {
                    WindowSyncStep::Hide { handle: thumbnail.handle }
                } else {
                    WindowSyncStep::Skip
                },
            )
        } else if known {
            (self, WindowSyncStep::Measure { handle: thumbnail.handle })
        } else {
            (self, WindowSyncStep::Register)
        }
    }

    /// After a thumbnail was to be hidden: one that resisted is given up.
    pub open spec fn after_hide(self, hwnd: u64, hidden: bool) -> (
        CacheView,
        Option<isize>,
        Option<Seq<char>>,
    ) {
        if !self.thumbnails.contains_key(hwnd) {
            (self, None, None)
        } else if hidden {
            (
                CacheView {
                    thumbnails: self.thumbnails.insert(hwnd, self.thumbnails[hwnd].concealed()),
                    ..self
                },
                None,
                None,
            )
        } else {
            let (next, line) = (CacheView {
                thumbnails: self.thumbnails.remove(hwnd),
                ..self
            }).with_failure(hwnd, "hide"@, hide_failure());
            (next, Some(self.thumbnails[hwnd].handle), line)
        }
    }

    /// After a thumbnail was registered.
    pub open spec fn with_thumbnail(self, hwnd: u64, handle: isize) -> CacheView {
        CacheView {
            thumbnails: self.thumbnails.insert(
                hwnd,
                PreviewThumbnailState { handle, visible_projection: None, visible: false },
            ),
            ..self
        }
    }

    /// What to do with a projection: a thumbnail that shows it already is left alone.
    pub open spec fn show_step(self, hwnd: u64, projection: Option<ThumbnailProjection>) -> ShowStep {
        if !self.thumbnails.contains_key(hwnd) {
            ShowStep::Skip
        } else {
            let thumbnail = self.thumbnails[hwnd];
            match projection {
                None => ShowStep::Skip,
                Some(projection) => if thumbnail.visible && thumbnail.visible_projection == Some(
                    projection,
                ) {
                    ShowStep::Keep { projection }
                } else {
                    ShowStep::Update { handle: thumbnail.handle, projection }
                },
            }
        }
    }

    /// After a thumbnail was to be updated: one that resisted is given up.
    pub open spec fn after_update(
        self,
        hwnd: u64,
        projection: ThumbnailProjection,
        updated: bool,
    ) -> (CacheView, Option<isize>, Option<Seq<char>>) {
        if !self.thumbnails.contains_key(hwnd) {
            (self, None, None)
        } else if updated {
            (
                CacheView {
                    thumbnails: self.thumbnails.insert(
                        hwnd,
                        self.thumbnails[hwnd].showing(projection),
                    ),
                    failures: self.failures.remove(hwnd),
                    ..self
                },
                None,
                None,
            )
        } else {
            let (next, line) = (CacheView {
                thumbnails: self.thumbnails.remove(hwnd),
                ..self
            }).with_failure(hwnd, "update"@, show_failure());
            (next, Some(self.thumbnails[hwnd].handle), line)
        }
    }

    /// Nothing is shown any more, and every diagnostic is logged anew.
    pub open spec fn reset(self) -> CacheView {
        CacheView {
            thumbnails: self.thumbnails.map_values(
                |thumbnail: PreviewThumbnailState| thumbnail.concealed(),
            ),
            diagnostics: Map::empty(),
            ..self
        }
    }

    /// Only the thumbnails of the given windows stay.
    pub open spec fn keep_only(self, desired: Seq<u64>) -> CacheView {
        CacheView {
            thumbnails: self.thumbnails.restrict(desired.to_set()),
            failures: self.failures.remove_keys(self.stale(desired)),
            diagnostics: self.diagnostics.remove_keys(self.stale(desired)),
        }
    }

    /// The windows with a thumbnail that is no longer wanted.
    pub open spec fn stale(self, desired: Seq<u64>) -> Set<u64> {
        self.thumbnails.dom().difference(desired.to_set())
    }
}

pub open spec fn optional_line(line: Option<String>) -> Option<Seq<char>> {
    match line {
        Some(line) => Some(line@),
        None => None,
    }
}

/// The handles of the thumbnails of some windows, in their order.
pub open spec fn handles_of(
    order: Seq<u64>,
    thumbnails: Map<u64, PreviewThumbnailState>,
) -> Seq<isize> {
    Seq::new(order.len(), |i: int| thumbnails[order[i]].handle)
}

impl ThumbnailCache {
    pub fn new() -> (r: ThumbnailCache)
        ensures
            r@ == (CacheView {
                thumbnails: Map::empty(),
                failures: Map::empty(),
                diagnostics: Map::empty(),
            }),
    {
        let cache: ThumbnailCache = ThumbnailCache {
            thumbnails: HashMap::new(),
            last_thumbnail_failures: HashMap::new(),
            last_thumbnail_diagnostics: HashMap::new(),
        };
        assert(cache@.failures =~= Map::empty());
        assert(cache@.diagnostics =~= Map::empty());
        cache
    }

    fn forget(&mut self, hwnd: u64) -> (r: Option<PreviewThumbnailState>)
        ensures
            final(self)@ == old(self)@.forget(hwnd),
            match r {
                Some(thumbnail) => old(self)@.thumbnails.contains_key(hwnd) && thumbnail
                    == old(self)@.thumbnails[hwnd],
                None => !old(self)@.thumbnails.contains_key(hwnd),
            },
    {
        proof {
            let text: String = arbitrary();
            lemma_texts_view(self.last_thumbnail_failures@, hwnd, text);
            lemma_texts_view(self.last_thumbnail_diagnostics@, hwnd, text);
        }
        let removed: Option<PreviewThumbnailState> = self.thumbnails.remove(&hwnd);
        self.last_thumbnail_failures.remove(&hwnd);
        self.last_thumbnail_diagnostics.remove(&hwnd);
        removed
    }

    /// Remembers a failure and hands out the line to log, if it has to be logged.
    pub fn log_thumbnail_failure(&mut self, hwnd: u64, stage: &str, error: &str) -> (r: Option<
        String,
    >)
        ensures
            (final(self)@, optional_line(r)) == old(self)@.with_failure(hwnd, stage@, error@),
    {
        let mut message: String = quoted("stage=", stage, " hwnd=");
        message.append(decimal_text(hwnd).as_str());
        message.append(" error=");
        message.append(error);
        assert(message@ =~= failure_text(hwnd, stage@, error@));
        if let Some(last) = self.last_thumbnail_failures.get(&hwnd) {
            if same_text(last.as_str(), message.as_str()) {
                return None;
            }
        }
        let line: String = quoted(
            "overview-surface: thumbnail-failure ",
            message.as_str(),
            "",
        );
        proof {
            reveal_strlit("");
            assert(line@ =~= failure_line(hwnd, stage@, error@));
            lemma_texts_view(self.last_thumbnail_failures@, hwnd, message);
        }
        self.last_thumbnail_failures.insert(hwnd, message);
        Some(line)
    }

    pub fn clear_thumbnail_failure(&mut self, hwnd: u64)
        ensures
            final(self)@ == (CacheView {
                failures: old(self)@.failures.remove(hwnd),
                ..old(self)@
            }),
    {
        proof {
            let text: String = arbitrary();
            lemma_texts_view(self.last_thumbnail_failures@, hwnd, text);
        }
        self.last_thumbnail_failures.remove(&hwnd);
    }

    /// Starts on a window of a frame.
    pub fn begin_window(&mut self, hwnd: u64, alive: bool, clipped: Option<Rect>) -> (r:
        WindowSyncStep)
        ensures
            (final(self)@, r) == old(self)@.begin(hwnd, alive, clipped),
    {
        if hwnd_from_raw(hwnd).is_none() {
            return WindowSyncStep::Skip;
        }
        if !alive {
            return match self.forget(hwnd) {
                Some(thumbnail) => WindowSyncStep::Unregister { handle: thumbnail.handle },
                None => WindowSyncStep::Skip,
            };
        }
        if clipped.is_none() {
            return match self.thumbnails.get(&hwnd) {
                Some(thumbnail) => if thumbnail.visible {
                    WindowSyncStep::Hide { handle: thumbnail.handle }
                } else {
                    WindowSyncStep::Skip
                },
                None => WindowSyncStep::Skip,
            };
        }
        match self.thumbnails.get(&hwnd) {
            Some(thumbnail) => WindowSyncStep::Measure { handle: thumbnail.handle },
            None => WindowSyncStep::Register,
        }
    }

    /// A thumbnail was to be hidden. Hands out the handle to unregister and the line to log
    /// where that failed.
    pub fn finish_hide(&mut self, hwnd: u64, hidden: bool) -> (r: (Option<isize>, Option<String>))
        ensures
            (final(self)@, r.0, optional_line(r.1)) == old(self)@.after_hide(hwnd, hidden),
    {
        match self.thumbnails.remove(&hwnd) {
            None => {
                assert(self@.thumbnails =~= old(self)@.thumbnails);
                (None, None)
            },
            Some(thumbnail) => {
                if hidden {
                    self.thumbnails.insert(
                        hwnd,
                        PreviewThumbnailState {
                            handle: thumbnail.handle,
                            visible_projection: None,
                            visible: false,
                        },
                    );
                    assert(self@.thumbnails =~= old(self)@.thumbnails.insert(
                        hwnd,
                        thumbnail.concealed(),
                    ));
                    return (None, None);
                }
                let line: Option<String> = self.log_thumbnail_failure(
                    hwnd,
                    "hide",
                    "DwmUpdateThumbnailProperties failed while hiding preview",
                );
                (Some(thumbnail.handle), line)
            },
        }
    }

    /// A thumbnail was registered.
    pub fn finish_register(&mut self, hwnd: u64, handle: isize)
        ensures
            final(self)@ == old(self)@.with_thumbnail(hwnd, handle),
    {
        self.thumbnails.insert(
            hwnd,
            PreviewThumbnailState { handle, visible_projection: None, visible: false },
        );
    }

    /// Decides what to do with what a thumbnail should show. One that shows it already
    /// counts as a success.
    pub fn begin_show(&mut self, hwnd: u64, projection: Option<ThumbnailProjection>) -> (r:
        ShowStep)
        ensures
            r == old(self)@.show_step(hwnd, projection),
            final(self)@ == (if r is Keep {
                CacheView { failures: old(self)@.failures.remove(hwnd), ..old(self)@ }
            } else {
                old(self)@
            }),
    {
        let step: ShowStep = match (self.thumbnails.get(&hwnd), projection) {
            (Some(thumbnail), Some(projection)) => {
                let same: bool = match thumbnail.visible_projection {
                    Some(current) => current == projection,
                    None => false,
                };
                if thumbnail.visible && same {
                    ShowStep::Keep { projection }
                } else {
                    ShowStep::Update { handle: thumbnail.handle, projection }
                }
            },
            _ => ShowStep::Skip,
        };
        if let ShowStep::Keep { projection: _ } = step {
            self.clear_thumbnail_failure(hwnd);
        }
        step
    }

    /// A thumbnail was to be updated. Hands out the handle to unregister and the line to log
    /// where that failed.
    pub fn finish_update(&mut self, hwnd: u64, projection: ThumbnailProjection, updated: bool) -> (r:
        (Option<isize>, Option<String>))
        ensures
            (final(self)@, r.0, optional_line(r.1)) == old(self)@.after_update(
                hwnd,
                projection,
                updated,
            ),
    {
        match self.thumbnails.remove(&hwnd) {
            None => {
                assert(self@.thumbnails =~= old(self)@.thumbnails);
                (None, None)
            },
            Some(thumbnail) => {
                if updated {
                    self.thumbnails.insert(
                        hwnd,
                        PreviewThumbnailState {
                            handle: thumbnail.handle,
                            visible_projection: Some(projection),
                            visible: true,
                        },
                    );
                    assert(self@.thumbnails =~= old(self)@.thumbnails.insert(
                        hwnd,
                        thumbnail.showing(projection),
                    ));
                    self.clear_thumbnail_failure(hwnd);
                    return (None, None);
                }
                let line: Option<String> = self.log_thumbnail_failure(
                    hwnd,
                    "update",
                    "DwmUpdateThumbnailProperties failed while showing preview",
                );
                (Some(thumbnail.handle), line)
            },
        }
    }
}

impl ThumbnailCache {
    /// Drops the thumbnails that are no longer wanted and hands out their handles to
    /// unregister, in no particular order.
    pub fn drop_stale(&mut self, desired: &Vec<u64>) -> (r: Vec<isize>)
        ensures
            final(self)@ == old(self)@.keep_only(desired@),
            exists|order: Seq<u64>|
                #![trigger handles_of(order, old(self)@.thumbnails)]
                order.no_duplicates() && order.to_set() == old(self)@.stale(desired@) && r@
                    == handles_of(order, old(self)@.thumbnails),
    {
        let ghost before = self@;
        let mut stale: Vec<u64> = Vec::new();
        for hwnd in it: self.thumbnails.keys()
            invariant
                before == self@,
                it.seq().unref().to_set() == self.thumbnails@.dom(),
                it.seq().no_duplicates(),
                stale@.no_duplicates(),
                forall|x: u64| #[trigger] stale@.contains(x) ==> self.thumbnails@.contains_key(x),
                forall|x: u64| #[trigger] stale@.contains(x) ==> !desired@.contains(x) && exists|
                    j: int,
                |
                    0 <= j < it.index() && *(#[trigger] it.seq()[j]) == x,
                forall|j: int|
                    0 <= j < it.index() && !desired@.contains(*(#[trigger] it.seq()[j]))
                        ==> stale@.contains(*it.seq()[j]),
        {
            let ghost earlier = stale@;
            if !holds_hwnd(desired, *hwnd) {
                assert(!stale@.contains(*hwnd)) by {
                    if stale@.contains(*hwnd) {
                        let j = choose|j: int|
                            0 <= j < it.index() && *(#[trigger] it.seq()[j]) == *hwnd;
                        assert(it.seq()[j] == it.seq()[it.index() as int]);
                    }
                }
                assert(it.seq().unref()[it.index() as int] == *hwnd);
                assert(it.seq().unref().to_set().contains(*hwnd));
                stale.push(*hwnd);
                assert(stale@.last() == *hwnd);
                assert forall|x: u64| #[trigger] stale@.contains(x) implies x == *hwnd
                    || earlier.contains(x) by {
                    let k = stale@.index_of(x);
                    if k < earlier.len() {
                        assert(earlier[k] == x);
                    }
                }
                assert forall|x: u64| earlier.contains(x) implies #[trigger] stale@.contains(x) by {
                    let k = earlier.index_of(x);
                    assert(stale@[k] == x);
                }
            }
        }
        assert forall|x: u64| self.thumbnails@.dom().contains(x) && !desired@.contains(
            x,
        ) implies #[trigger] stale@.contains(x) by {
        }
        assert(stale@.to_set() =~= before.stale(desired@));
        let mut handles: Vec<isize> = Vec::new();
        let mut i: usize = 0;
        assert(stale@.take(0).to_set() =~= Set::empty());
        assert(self@.thumbnails =~= before.thumbnails.remove_keys(stale@.take(0).to_set()));
        assert(self@.failures =~= before.failures.remove_keys(stale@.take(0).to_set()));
        assert(self@.diagnostics =~= before.diagnostics.remove_keys(stale@.take(0).to_set()));
        while i < stale.len()
            invariant
                i <= stale.len(),
                handles.len() == i,
                stale@.no_duplicates(),
                stale@.to_set() == before.stale(desired@),
                self@.thumbnails == before.thumbnails.remove_keys(stale@.take(i as int).to_set()),
                self@.failures == before.failures.remove_keys(stale@.take(i as int).to_set()),
                self@.diagnostics == before.diagnostics.remove_keys(
                    stale@.take(i as int).to_set(),
                ),
                forall|j: int|
                    0 <= j < i ==> handles@[j] == before.thumbnails[stale@[j]].handle,
            decreases stale.len() - i,
        {
            let hwnd: u64 = stale[i];
            proof {
                assert(stale@.to_set().contains(hwnd));
                assert(before.thumbnails.contains_key(hwnd));
                let done = stale@.take(i as int);
                assert(!done.to_set().contains(hwnd));
                assert(stale@.take(i + 1) =~= done.push(hwnd));
                assert(stale@.take(i + 1).to_set() =~= done.to_set().insert(hwnd)) by {
                    assert forall|x: u64| stale@.take(i + 1).contains(x) implies x == hwnd
                        || done.contains(x) by {
                        let k = stale@.take(i + 1).index_of(x);
                        if k < i {
                            assert(done[k] == x);
                        }
                    }
                    assert forall|x: u64| done.contains(x) implies stale@.take(i + 1).contains(
                        x,
                    ) by {
                        let k = done.index_of(x);
                        assert(stale@.take(i + 1)[k] == x);
                    }
                    assert(stale@.take(i + 1)[i as int] == hwnd);
                }
            }
            let ghost gone = stale@.take(i as int).to_set();
            if let Some(thumbnail) = self.forget(hwnd) {
                handles.push(thumbnail.handle);
            }
            proof {
                let now_gone = stale@.take(i + 1).to_set();
                assert(self@.thumbnails =~= before.thumbnails.remove_keys(now_gone));
                assert(self@.failures =~= before.failures.remove_keys(now_gone));
                assert(self@.diagnostics =~= before.diagnostics.remove_keys(now_gone));
            }
            i = i + 1;
        }
        proof {
            assert(stale@.take(i as int) =~= stale@);
            assert(self@.thumbnails =~= before.thumbnails.restrict(desired@.to_set()));
            assert(handles@ =~= handles_of(stale@, before.thumbnails));
        }
        handles
    }

    /// Marks every thumbnail as hidden.
    pub fn reset_preview_thumbnail_cache(&mut self)
        ensures
            final(self)@ == old(self)@.reset(),
    {
        let ghost before = self.thumbnails@;
        let mut known: Vec<u64> = Vec::new();
        for hwnd in it: self.thumbnails.keys()
            invariant
                before == self.thumbnails@,
                self.last_thumbnail_failures == old(self).last_thumbnail_failures,
                it.seq().unref().to_set() == before.dom(),
                forall|x: u64| #[trigger] known@.contains(x) ==> before.contains_key(x),
                forall|j: int|
                    0 <= j < it.index() ==> known@.contains(*(#[trigger] it.seq()[j])),
        {
            let ghost earlier = known@;
            assert(it.seq().unref()[it.index() as int] == *hwnd);
            assert(it.seq().unref().to_set().contains(*hwnd));
            known.push(*hwnd);
            assert(known@.last() == *hwnd);
            assert forall|x: u64| #[trigger] known@.contains(x) implies before.contains_key(x) by {
                let k = known@.index_of(x);
                if k < earlier.len() {
                    assert(earlier[k] == x);
                    assert(earlier.contains(x));
                }
            }
            assert forall|x: u64| earlier.contains(x) implies #[trigger] known@.contains(x) by {
                let k = earlier.index_of(x);
                assert(known@[k] == x);
            }
        }
        assert forall|x: u64| before.dom().contains(x) implies #[trigger] known@.contains(x) by {
        }
        assert(known@.to_set() =~= before.dom());
        let mut i: usize = 0;
        while i < known.len()
            invariant
                i <= known.len(),
                known@.to_set() == before.dom(),
                self.last_thumbnail_failures == old(self).last_thumbnail_failures,
                self.thumbnails@.dom() == before.dom(),
                forall|hwnd: u64| #[trigger]
                    before.contains_key(hwnd) ==> self.thumbnails@[hwnd] == (if known@.take(
                        i as int,
                    ).contains(hwnd) {
                        before[hwnd].concealed()
                    } else {
                        before[hwnd]
                    }),
            decreases known.len() - i,
        {
            let hwnd: u64 = known[i];
            let ghost done = known@.take(i as int);
            let ghost then = self.thumbnails@;
            proof {
                assert(known@.to_set().contains(hwnd));
                assert(known@.take(i + 1) =~= done.push(hwnd));
                assert forall|x: u64| #[trigger] known@.take(i + 1).contains(x) <==> x == hwnd
                    || done.contains(x) by {
                    if done.contains(x) {
                        let k = done.index_of(x);
                        assert(known@.take(i + 1)[k] == x);
                    }
                    if known@.take(i + 1).contains(x) {
                        let k = known@.take(i + 1).index_of(x);
                        if k < i {
                            assert(done[k] == x);
                        }
                    }
                    assert(known@.take(i + 1)[i as int] == hwnd);
                }
            }
            if let Some(thumbnail) = self.thumbnails.remove(&hwnd) {
                self.thumbnails.insert(
                    hwnd,
                    PreviewThumbnailState {
                        handle: thumbnail.handle,
                        visible_projection: None,
                        visible: false,
                    },
                );
            }
            assert(self.thumbnails@.dom() =~= before.dom());
            i = i + 1;
        }
        self.last_thumbnail_diagnostics.clear();
        proof {
            assert forall|hwnd: u64| before.contains_key(hwnd) implies known@.contains(hwnd) by {
                assert(known@.to_set().contains(hwnd));
            }
            assert(known@.take(i as int) =~= known@);
            assert(self@.thumbnails =~= old(self)@.reset().thumbnails);
            assert(self@.diagnostics =~= Map::empty());
        }
    }
}

/// A window of a frame: where it is shown, and its part that can be seen.
#[derive(Clone, Copy, Debug, PartialEq, Eq, Structural)]
pub struct ThumbnailJob {
    pub hwnd: u64,
    pub rect: Rect,
    pub clipped: Option<Rect>,
}

/// The jobs of a workspace's windows on a canvas.
pub open spec fn canvas_jobs(windows: Seq<WindowRenderFrame>, canvas: Rect) -> Seq<ThumbnailJob> {
    Seq::new(
        windows.len(),
        |i: int|
            ThumbnailJob {
                hwnd: windows[i].hwnd,
                rect: windows[i].rect,
                clipped: intersection(windows[i].rect, canvas),
            },
    )
}

/// The jobs of the workspaces of a frame, in the order in which they are drawn; those that
/// are out of sight have none.
pub open spec fn scene_jobs(ordered: Seq<WorkspaceFrameView>, visible_scene_rect: Rect) -> Seq<
    ThumbnailJob,
>
    decreases ordered.len(),
{
    if ordered.len() == 0 {
        Seq::empty()
    } else {
        let rest = scene_jobs(ordered.drop_last(), visible_scene_rect);
        match intersection(ordered.last().canvas_rect, visible_scene_rect) {
            Some(canvas) => rest + canvas_jobs(ordered.last().windows, canvas),
            None => rest,
        }
    }
}

/// Lists the jobs of one workspace.
pub fn plan_workspace_thumbnails(workspace: &WorkspaceRenderFrame, visible_canvas_rect: Rect) -> (r:
    Vec<ThumbnailJob>)
    ensures
        r@ == canvas_jobs(workspace.windows@, visible_canvas_rect),
{
    let ghost expected = canvas_jobs(workspace.windows@, visible_canvas_rect);
    let mut jobs: Vec<ThumbnailJob> = Vec::new();
    let mut i: usize = 0;
    while i < workspace.windows.len()
        invariant
            i <= workspace.windows.len(),
            jobs.len() == i,
            expected == canvas_jobs(workspace.windows@, visible_canvas_rect),
            forall|j: int| 0 <= j < i ==> jobs@[j] == expected[j],
        decreases workspace.windows.len() - i,
    {
        let window: WindowRenderFrame = workspace.windows[i];
        jobs.push(
            ThumbnailJob {
                hwnd: window.hwnd,
                rect: window.rect,
                clipped: intersect_rect(window.rect, visible_canvas_rect),
            },
        );
        i = i + 1;
    }
    assert(jobs@ =~= expected);
    jobs
}

/// Lists the jobs of a frame.
pub fn plan_scene_thumbnails(frame: &OverviewRenderFrame, visible_scene_rect: Rect) -> (r: Vec<
    ThumbnailJob,
>)
    ensures
        r@ == scene_jobs(draw_order(frame@.workspaces, frame.monitor_rect), visible_scene_rect),
{
    let ordered: Vec<&WorkspaceRenderFrame> = ordered_frame_workspaces(frame);
    let ghost views = references_view(ordered@);
    let mut jobs: Vec<ThumbnailJob> = Vec::new();
    let mut i: usize = 0;
    assert(views.take(0) =~= Seq::empty());
    while i < ordered.len()
        invariant
            i <= ordered.len(),
            views == references_view(ordered@),
            jobs@ == scene_jobs(views.take(i as int), visible_scene_rect),
        decreases ordered.len() - i,
    {
        let workspace: &WorkspaceRenderFrame = ordered[i];
        proof {
            assert(views.take(i + 1).drop_last() =~= views.take(i as int));
            assert(views.take(i + 1).last() == workspace@);
        }
        if let Some(canvas) = intersect_rect(workspace.canvas_rect, visible_scene_rect) {
            let mut more: Vec<ThumbnailJob> = plan_workspace_thumbnails(workspace, canvas);
            jobs.append(&mut more);
        }
        i = i + 1;
    }
    assert(views.take(i as int) =~= views);
    jobs
}

/// The handles of all windows of some workspaces.
pub open spec fn frame_handles(workspaces: Seq<WorkspaceFrameView>) -> Seq<u64>
    decreases workspaces.len(),
{
    if workspaces.len() == 0 {
        Seq::empty()
    } else {
        frame_handles(workspaces.drop_last()) + Seq::new(
            workspaces.last().windows.len(),
            |i: int| workspaces.last().windows[i].hwnd,
        )
    }
}

/// Lists the windows of a frame, which are those that may keep a thumbnail.
pub fn desired_hwnds(frame: &OverviewRenderFrame) -> (r: Vec<u64>)
    ensures
        r@ == frame_handles(frame@.workspaces),
{
    let ghost views = frame@.workspaces;
    let mut hwnds: Vec<u64> = Vec::new();
    let mut i: usize = 0;
    assert(views.take(0) =~= Seq::empty());
    while i < frame.workspaces.len()
        invariant
            i <= frame.workspaces.len(),
            views == frame@.workspaces,
            hwnds@ == frame_handles(views.take(i as int)),
        decreases frame.workspaces.len() - i,
    {
        let workspace: &WorkspaceRenderFrame = &frame.workspaces[i];
        let ghost before = hwnds@;
        let ghost own = Seq::new(
            workspace.windows@.len(),
            |k: int| workspace.windows@[k].hwnd,
        );
        let mut k: usize = 0;
        assert(before + own.take(0) =~= before);
        while k < workspace.windows.len()
            invariant
                k <= workspace.windows.len(),
                own == Seq::new(workspace.windows@.len(), |k: int| workspace.windows@[k].hwnd),
                hwnds@ == before + own.take(k as int),
            decreases workspace.windows.len() - k,
        {
            hwnds.push(workspace.windows[k].hwnd);
            assert(hwnds@ =~= before + own.take(k + 1));
            k = k + 1;
        }
        proof {
            assert(own.take(k as int) =~= own);
            assert(views.take(i + 1).drop_last() =~= views.take(i as int));
            assert(views.take(i + 1).last() == workspace@);
            assert(own =~= Seq::new(workspace@.windows.len(), |j: int| workspace@.windows[j].hwnd));
        }
        i = i + 1;
    }
    assert(views.take(i as int) =~= views);
    hwnds
}

/// What a thumbnail of a job should show once its source has been measured.
pub fn job_projection(job: ThumbnailJob, origin_rect: Rect, source_rect: Rect) -> (r: Option<
    ThumbnailProjection,
>)
    ensures
        r == (match job.clipped {
            Some(clipped) => projection_of(job.rect, clipped, origin_rect, source_rect),
            None => None,
        }),
{
    match job.clipped {
        Some(clipped) => thumbnail_projection(job.rect, clipped, origin_rect, source_rect),
        None => None,
    }
}

/// The windows whose thumbnails can be seen, and where they are on the overview's window.
#[derive(Debug)]
pub struct SceneVisibility {
    pub visible_hwnds: HashSet<u64>,
    pub host_rects: Vec<Rect>,
}

impl SceneVisibility {
    pub fn new() -> (r: SceneVisibility)
        ensures
            r.visible_hwnds@ == Set::<u64>::empty(),
            r.host_rects@ == Seq::<Rect>::empty(),
    {
        SceneVisibility { visible_hwnds: HashSet::new(), host_rects: Vec::new() }
    }

    /// A window's thumbnail is on the screen.
    pub fn record(&mut self, hwnd: u64, projection: ThumbnailProjection)
        ensures
            final(self).visible_hwnds@ == old(self).visible_hwnds@.insert(hwnd),
            final(self).host_rects@ == old(self).host_rects@.push(projection.destination_rect),
    {
        self.visible_hwnds.insert(hwnd);
        self.host_rects.push(projection.destination_rect);
    }
}

/// The end of a diagnostic: what was measured and what came of it.
pub open spec fn measured_text(
    clipped_rect: Rect,
    source_size: Rect,
    projection: ThumbnailProjection,
    client_only: bool,
) -> Seq<char> {
    " clipped="@ + rect_text(clipped_rect) + " source_size="@ + rect_text(source_size)
        + " projection_dest="@ + rect_text(projection.destination_rect) + " projection_source="@
        + rect_text(projection.source_rect) + " client_only="@ + truth_text(client_only)
}

/// The widths of a window's invisible border.
pub open spec fn insets_text(outer_rect: Rect, visible_rect: Rect) -> Seq<char> {
    " insets=("@ + signed_decimal(overhang(visible_rect.x as int, outer_rect.x as int)) + ", "@
        + signed_decimal(overhang(visible_rect.y as int, outer_rect.y as int)) + ", "@
        + signed_decimal(overhang(outer_rect.right(), visible_rect.right())) + ", "@
        + signed_decimal(overhang(outer_rect.bottom(), visible_rect.bottom())) + ")"@
}

/// What is logged of the geometry of a thumbnail.
pub open spec fn diagnostic_text(
    scene_rect: Rect,
    geometry: Option<FullWindowPreviewGeometry>,
    clipped_rect: Rect,
    source_size: Rect,
    projection: ThumbnailProjection,
    client_only: bool,
) -> Seq<char> {
    let measured = measured_text(clipped_rect, source_size, projection, client_only);
    match geometry {
        Some(geometry) => "scene="@ + rect_text(scene_rect) + " outer="@ + rect_text(
            geometry.outer_rect,
        ) + " visible="@ + rect_text(geometry.visible_rect) + " expanded="@ + rect_text(
            geometry.destination_rect,
        ) + measured + insets_text(geometry.outer_rect, geometry.visible_rect),
        None => "scene="@ + rect_text(scene_rect)
            + " outer=none visible=none expanded=fallback"@ + measured,
    }
}

pub open spec fn diagnostic_line(hwnd: u64, text: Seq<char>) -> Seq<char> {
    "overview-surface: thumbnail-geometry hwnd="@ + decimal(hwnd as nat) + " "@ + text
}

fn append_measured(
    text: &mut String,
    clipped_rect: Rect,
    source_size: Rect,
    projection: ThumbnailProjection,
    client_only: bool,
)
    ensures
        final(text)@ == old(text)@ + measured_text(
            clipped_rect,
            source_size,
            projection,
            client_only,
        ),
{
    text.append(" clipped=");
    text.append(format_rect(clipped_rect).as_str());
    text.append(" source_size=");
    text.append(format_rect(source_size).as_str());
    text.append(" projection_dest=");
    text.append(format_rect(projection.destination_rect).as_str());
    text.append(" projection_source=");
    text.append(format_rect(projection.source_rect).as_str());
    text.append(" client_only=");
    text.append(truth_word(client_only));
    assert(text@ =~= old(text)@ + measured_text(
        clipped_rect,
        source_size,
        projection,
        client_only,
    ));
}

fn inset_text(outer: i32, inner: i32) -> (r: String)
    ensures
        r@ == signed_decimal(overhang(outer as int, inner as int)),
{
    let difference: i32 = crate::arith::saturating_sub_i32(outer, inner);
    signed_decimal_text(crate::arith::max_i32(difference, 0) as i64)
}

fn append_insets(text: &mut String, outer_rect: Rect, visible_rect: Rect)
    ensures
        final(text)@ == old(text)@ + insets_text(outer_rect, visible_rect),
{
    text.append(" insets=(");
    text.append(inset_text(visible_rect.x, outer_rect.x).as_str());
    text.append(", ");
    text.append(inset_text(visible_rect.y, outer_rect.y).as_str());
    text.append(", ");
    text.append(inset_text(rect_right(outer_rect), rect_right(visible_rect)).as_str());
    text.append(", ");
    text.append(inset_text(rect_bottom(outer_rect), rect_bottom(visible_rect)).as_str());
    text.append(")");
    assert(text@ =~= old(text)@ + insets_text(outer_rect, visible_rect));
}

pub fn thumbnail_diagnostic(
    scene_rect: Rect,
    geometry: Option<FullWindowPreviewGeometry>,
    clipped_rect: Rect,
    source_size: Rect,
    projection: ThumbnailProjection,
    client_only: bool,
) -> (r: String)
    ensures
        r@ == diagnostic_text(
            scene_rect,
            geometry,
            clipped_rect,
            source_size,
            projection,
            client_only,
        ),
{
    let mut text: String = "scene=".to_owned();
    text.append(format_rect(scene_rect).as_str());
    match geometry {
        Some(geometry) => {
            text.append(" outer=");
            text.append(format_rect(geometry.outer_rect).as_str());
            text.append(" visible=");
            text.append(format_rect(geometry.visible_rect).as_str());
            text.append(" expanded=");
            text.append(format_rect(geometry.destination_rect).as_str());
            append_measured(&mut text, clipped_rect, source_size, projection, client_only);
            append_insets(&mut text, geometry.outer_rect, geometry.visible_rect);
        },
        None => {
            text.append(" outer=none visible=none expanded=fallback");
            append_measured(&mut text, clipped_rect, source_size, projection, client_only);
        },
    }
    text
}

impl ThumbnailCache {
    /// Remembers a diagnostic and hands out the line to log, unless diagnostics are off or
    /// it was the last one of the window.
    pub fn log_thumbnail_geometry_diagnostic(
        &mut self,
        enabled: bool,
        hwnd: u64,
        message: String,
    ) -> (r: Option<String>)
        ensures
            (final(self)@, optional_line(r)) == old(self)@.with_diagnostic(
                enabled,
                hwnd,
                message@,
            ),
    {
        if !enabled {
            return None;
        }
        if let Some(last) = self.last_thumbnail_diagnostics.get(&hwnd) {
            if same_text(last.as_str(), message.as_str()) {
                return None;
            }
        }
        let mut line: String = "overview-surface: thumbnail-geometry hwnd=".to_owned();
        line.append(decimal_text(hwnd).as_str());
        line.append(" ");
        line.append(message.as_str());
        proof {
            lemma_texts_view(self.last_thumbnail_diagnostics@, hwnd, message);
        }
        self.last_thumbnail_diagnostics.insert(hwnd, message);
        Some(line)
    }
}

/// A failure that repeats is logged once.
pub proof fn law_repeated_failure_is_logged_once(
    cache: CacheView,
    hwnd: u64,
    stage: Seq<char>,
    error: Seq<char>,
)
    ensures
        ({
            let (next, _) = cache.with_failure(hwnd, stage, error);
            next.with_failure(hwnd, stage, error) == (next, None::<Seq<char>>)
        }),
{
}

/// A thumbnail that was updated to a projection is kept as it is by the next frame that wants
/// the same, until the cache is reset.
pub proof fn law_shown_thumbnail_is_kept(
    cache: CacheView,
    hwnd: u64,
    projection: ThumbnailProjection,
)
    requires
        cache.thumbnails.contains_key(hwnd),
    ensures
        ({
            let (shown, _, _) = cache.after_update(hwnd, projection, true);
            &&& shown.show_step(hwnd, Some(projection)) == ShowStep::Keep { projection }
            &&& shown.reset().show_step(hwnd, Some(projection)) == (ShowStep::Update {
                handle: cache.thumbnails[hwnd].handle,
                projection,
            })
        }),
{
}

/// A window with a handle that cannot be one, or that is out of sight, never gets a
/// thumbnail, and a window that is gone loses everything that was known of it.
pub proof fn law_gone_windows_are_forgotten(
    cache: CacheView,
    hwnd: u64,
    alive: bool,
    clipped: Option<Rect>,
)
    ensures
        hwnd > isize::MAX || clipped is None ==> !(cache.begin(hwnd, alive, clipped).1 is Register),
        hwnd <= isize::MAX && !alive ==> {
            let next = cache.begin(hwnd, alive, clipped).0;
            &&& !next.thumbnails.contains_key(hwnd)
            &&& !next.failures.contains_key(hwnd)
            &&& !next.diagnostics.contains_key(hwnd)
        },
{
}

/// The first step for a window. A handle that cannot be one is skipped; a window that is gone
/// loses its thumbnail; one out of sight has it hidden if it can be seen; any other one is
/// measured, after it has been given a thumbnail where it has none.
pub proof fn law_windows_begin_with_what_they_need(
    cache: CacheView,
    hwnd: u64,
    alive: bool,
    clipped: Option<Rect>,
    thumbnail: PreviewThumbnailState,
)
    ensures
        ({
            let (next, step) = cache.begin(hwnd, alive, clipped);
            let known = cache.thumbnails.contains_pair(hwnd, thumbnail);
            let unknown = !cache.thumbnails.contains_key(hwnd);
            let possible = hwnd <= isize::MAX;
            &&& !possible ==> step is Skip
            &&& possible && !alive && known ==> step == (WindowSyncStep::Unregister {
                handle: thumbnail.handle,
            })
            &&& possible && !alive && unknown ==> step is Skip
            &&& possible && alive && clipped is None && known && thumbnail.visible ==> step == (
            WindowSyncStep::Hide { handle: thumbnail.handle })
            &&& possible && alive && clipped is None && known && !thumbnail.visible ==> step is Skip
            &&& possible && alive && clipped is None && unknown ==> step is Skip
            &&& possible && alive && clipped is Some && known ==> step == (
            WindowSyncStep::Measure { handle: thumbnail.handle })
            &&& possible && alive && clipped is Some && unknown ==> step is Register
            &&& !possible || alive ==> next == cache
        }),
{
}

/// A window that is gone takes only its own thumbnail, failure and diagnostic with it.
pub proof fn law_other_windows_are_remembered(cache: CacheView, hwnd: u64, other: u64)
    requires
        other != hwnd,
    ensures
        cache.forget(hwnd).thumbnails.contains_key(other) == cache.thumbnails.contains_key(other),
        cache.forget(hwnd).thumbnails.contains_key(other) ==> cache.forget(hwnd).thumbnails[other]
            == cache.thumbnails[other],
        cache.forget(hwnd).failures.contains_key(other) == cache.failures.contains_key(other),
        cache.forget(hwnd).failures.contains_key(other) ==> cache.forget(hwnd).failures[other]
            == cache.failures[other],
        cache.forget(hwnd).diagnostics.contains_key(other) == cache.diagnostics.contains_key(other),
        cache.forget(hwnd).diagnostics.contains_key(other) ==> cache.forget(hwnd).diagnostics[other]
            == cache.diagnostics[other],
        !cache.forget(hwnd).thumbnails.contains_key(hwnd),
        !cache.forget(hwnd).failures.contains_key(hwnd),
        !cache.forget(hwnd).diagnostics.contains_key(hwnd),
{
}

/// A thumbnail that was hidden stays registered and shows nothing; one that could not be hidden
/// is given up, with its handle to unregister and the failure to log.
pub proof fn law_hidden_thumbnails_show_nothing(
    cache: CacheView,
    hwnd: u64,
    thumbnail: PreviewThumbnailState,
)
    requires
        cache.thumbnails.contains_pair(hwnd, thumbnail),
    ensures
        ({
            let (next, handle, line) = cache.after_hide(hwnd, true);
            &&& next.thumbnails.contains_pair(
                hwnd,
                PreviewThumbnailState {
                    handle: thumbnail.handle,
                    visible_projection: None,
                    visible: false,
                },
            )
            &&& next.failures == cache.failures && next.diagnostics == cache.diagnostics
            &&& handle is None && line is None
        }),
        ({
            let (next, handle, line) = cache.after_hide(hwnd, false);
            let text = "stage="@ + "hide"@ + " hwnd="@ + decimal(hwnd as nat) + " error="@
                + "DwmUpdateThumbnailProperties failed while hiding preview"@;
            &&& next.thumbnails == cache.thumbnails.remove(hwnd)
            &&& handle == Some(thumbnail.handle)
            &&& next.failures.contains_pair(hwnd, text)
            &&& line is None <==> cache.failures.contains_pair(hwnd, text)
            &&& line is Some ==> line == Some("overview-surface: thumbnail-failure "@ + text)
        }),
{
}

/// A thumbnail that was updated shows what it was told to, and the failure of its window is
/// forgotten; one that could not be updated is given up, with its handle to unregister and the
/// failure to log.
pub proof fn law_updated_thumbnails_show_their_window(
    cache: CacheView,
    hwnd: u64,
    thumbnail: PreviewThumbnailState,
    projection: ThumbnailProjection,
)
    requires
        cache.thumbnails.contains_pair(hwnd, thumbnail),
    ensures
        ({
            let (next, handle, line) = cache.after_update(hwnd, projection, true);
            &&& next.thumbnails.contains_pair(
                hwnd,
                PreviewThumbnailState {
                    handle: thumbnail.handle,
                    visible_projection: Some(projection),
                    visible: true,
                },
            )
            &&& !next.failures.contains_key(hwnd)
            &&& next.diagnostics == cache.diagnostics
            &&& handle is None && line is None
        }),
        ({
            let (next, handle, line) = cache.after_update(hwnd, projection, false);
            let text = "stage="@ + "update"@ + " hwnd="@ + decimal(hwnd as nat) + " error="@
                + "DwmUpdateThumbnailProperties failed while showing preview"@;
            &&& next.thumbnails == cache.thumbnails.remove(hwnd)
            &&& handle == Some(thumbnail.handle)
            &&& next.failures.contains_pair(hwnd, text)
            &&& line is None <==> cache.failures.contains_pair(hwnd, text)
            &&& line is Some ==> line == Some("overview-surface: thumbnail-failure "@ + text)
        }),
{
}

/// A thumbnail that has just been registered shows nothing yet. What is known of other windows
/// stays.
pub proof fn law_new_thumbnails_show_nothing(cache: CacheView, hwnd: u64, handle: isize, other: u64)
    ensures
        ({
            let next = cache.with_thumbnail(hwnd, handle);
            &&& next.thumbnails.contains_pair(
                hwnd,
                PreviewThumbnailState { handle, visible_projection: None, visible: false },
            )
            &&& other != hwnd && cache.thumbnails.contains_key(other) ==> next.thumbnails[other]
                == cache.thumbnails[other]
            &&& next.failures == cache.failures && next.diagnostics == cache.diagnostics
        }),
{
}

/// A thumbnail is updated exactly where it is told to show something that it does not show.
pub proof fn law_changed_thumbnails_are_updated(
    cache: CacheView,
    hwnd: u64,
    thumbnail: PreviewThumbnailState,
    projection: ThumbnailProjection,
)
    ensures
        cache.show_step(hwnd, None) is Skip,
        !cache.thumbnails.contains_key(hwnd) ==> cache.show_step(hwnd, Some(projection)) is Skip,
        cache.thumbnails.contains_pair(hwnd, thumbnail) && thumbnail.visible
            && thumbnail.visible_projection == Some(projection) ==> cache.show_step(
            hwnd,
            Some(projection),
        ) == (ShowStep::Keep { projection }),
        cache.thumbnails.contains_pair(hwnd, thumbnail) && !(thumbnail.visible
            && thumbnail.visible_projection == Some(projection)) ==> cache.show_step(
            hwnd,
            Some(projection),
        ) == (ShowStep::Update { handle: thumbnail.handle, projection }),
{
}

/// A failure, or a diagnostic that is wanted, is logged exactly where it is not the last one of
/// its window, which it then becomes.
pub proof fn law_news_of_a_window_are_logged(
    cache: CacheView,
    hwnd: u64,
    stage: Seq<char>,
    error: Seq<char>,
    text: Seq<char>,
)
    ensures
        ({
            let (next, line) = cache.with_failure(hwnd, stage, error);
            let told = "stage="@ + stage + " hwnd="@ + decimal(hwnd as nat) + " error="@ + error;
            &&& next.failures.contains_pair(hwnd, told)
            &&& line is None <==> cache.failures.contains_pair(hwnd, told)
            &&& line is Some ==> line == Some("overview-surface: thumbnail-failure "@ + told)
            &&& next.thumbnails == cache.thumbnails && next.diagnostics == cache.diagnostics
        }),
        ({
            let (next, line) = cache.with_diagnostic(true, hwnd, text);
            &&& next.diagnostics.contains_pair(hwnd, text)
            &&& line is None <==> cache.diagnostics.contains_pair(hwnd, text)
            &&& line is Some ==> line == Some(
                "overview-surface: thumbnail-geometry hwnd="@ + decimal(hwnd as nat) + " "@ + text,
            )
            &&& next.thumbnails == cache.thumbnails && next.failures == cache.failures
        }),
        cache.with_diagnostic(false, hwnd, text) == (cache, None::<Seq<char>>),
{
}

/// After a reset every thumbnail is registered as before and shows nothing; failures are
/// remembered and diagnostics are not.
pub proof fn law_reset_conceals_everything(cache: CacheView, hwnd: u64)
    ensures
        cache.reset().thumbnails.contains_key(hwnd) == cache.thumbnails.contains_key(hwnd),
        cache.thumbnails.contains_key(hwnd) ==> cache.reset().thumbnails[hwnd] == (
        PreviewThumbnailState {
            handle: cache.thumbnails[hwnd].handle,
            visible_projection: None,
            visible: false,
        }),
        cache.reset().failures == cache.failures,
        !cache.reset().diagnostics.contains_key(hwnd),
{
}

/// A window keeps its thumbnail exactly where it is wanted; a thumbnail that goes takes the
/// failure and the diagnostic of its window with it.
pub proof fn law_wanted_thumbnails_stay(cache: CacheView, desired: Seq<u64>, hwnd: u64)
    ensures
        ({
            let next = cache.keep_only(desired);
            let known = cache.thumbnails.contains_key(hwnd);
            let wanted = desired.contains(hwnd);
            &&& next.thumbnails.contains_key(hwnd) <==> known && wanted
            &&& known && wanted ==> next.thumbnails[hwnd] == cache.thumbnails[hwnd]
            &&& cache.stale(desired).contains(hwnd) <==> known && !wanted
            &&& next.failures.contains_key(hwnd) <==> cache.failures.contains_key(hwnd) && !(known
                && !wanted)
            &&& next.diagnostics.contains_key(hwnd) <==> cache.diagnostics.contains_key(hwnd) && !(
            known && !wanted)
        }),
{
}

/// Every window of a workspace has a job on its canvas: where it is shown, and what of that can
/// be seen.
pub proof fn law_every_window_has_a_job(windows: Seq<WindowRenderFrame>, canvas: Rect, i: int)
    requires
        0 <= i < windows.len(),
    ensures
        canvas_jobs(windows, canvas).len() == windows.len(),
        canvas_jobs(windows, canvas)[i].hwnd == windows[i].hwnd,
        canvas_jobs(windows, canvas)[i].rect == windows[i].rect,
        canvas_jobs(windows, canvas)[i].clipped == intersection(windows[i].rect, canvas),
{
}

/// A workspace adds the jobs of its windows to those of the workspaces before it, on what can
/// be seen of its canvas; one out of sight adds none.
pub proof fn law_workspaces_add_their_jobs(
    before: Seq<WorkspaceFrameView>,
    workspace: WorkspaceFrameView,
    visible: Rect,
)
    ensures
        scene_jobs(Seq::empty(), visible).len() == 0,
        intersection(workspace.canvas_rect, visible) is None ==> scene_jobs(
            before.push(workspace),
            visible,
        ) == scene_jobs(before, visible),
        intersection(workspace.canvas_rect, visible) matches Some(canvas) ==> scene_jobs(
            before.push(workspace),
            visible,
        ) == scene_jobs(before, visible) + canvas_jobs(workspace.windows, canvas),
{
    assert(before.push(workspace).drop_last() =~= before);
    assert(before.push(workspace).last() == workspace);
}

/// The windows that may keep a thumbnail are exactly those of the workspaces.
pub proof fn law_windows_of_a_frame_are_wanted(workspaces: Seq<WorkspaceFrameView>, hwnd: u64)
    ensures
        frame_handles(workspaces).contains(hwnd) <==> exists|i: int, k: int|
            0 <= i < workspaces.len() && 0 <= k < workspaces[i].windows.len()
                && #[trigger] workspaces[i].windows[k].hwnd == hwnd,
    decreases workspaces.len(),
{
    if workspaces.len() > 0 {
        let before = workspaces.drop_last();
        let last = workspaces.last();
        let own = Seq::new(last.windows.len(), |i: int| last.windows[i].hwnd);
        law_windows_of_a_frame_are_wanted(before, hwnd);
        if frame_handles(workspaces).contains(hwnd) {
            let at = choose|at: int|
                0 <= at < frame_handles(workspaces).len() && frame_handles(workspaces)[at] == hwnd;
            if at < frame_handles(before).len() {
                assert(frame_handles(before)[at] == hwnd);
                let (i, k) = choose|i: int, k: int|
                    0 <= i < before.len() && 0 <= k < before[i].windows.len()
                        && #[trigger] before[i].windows[k].hwnd == hwnd;
                assert(workspaces[i].windows[k].hwnd == hwnd);
            } else {
                assert(workspaces[workspaces.len() - 1].windows[at - frame_handles(
                    before,
                ).len()].hwnd == hwnd);
            }
        }
        if exists|i: int, k: int|
            0 <= i < workspaces.len() && 0 <= k < workspaces[i].windows.len()
                && #[trigger] workspaces[i].windows[k].hwnd == hwnd {
            let (i, k) = choose|i: int, k: int|
                0 <= i < workspaces.len() && 0 <= k < workspaces[i].windows.len()
                    && #[trigger] workspaces[i].windows[k].hwnd == hwnd;
            if i < before.len() {
                assert(before[i].windows[k].hwnd == hwnd);
                assert(frame_handles(before).contains(hwnd));
                let at = choose|at: int|
                    0 <= at < frame_handles(before).len() && frame_handles(before)[at] == hwnd;
                assert(frame_handles(workspaces)[at] == hwnd);
            } else {
                assert(own[k] == hwnd);
                assert(frame_handles(workspaces)[frame_handles(before).len() + k] == hwnd);
            }
        }
    }
}

/// A job shows the part of its window's source that falls on what can be seen of it, and
/// nothing where nothing can be seen.
pub proof fn law_jobs_show_what_can_be_seen(
    job: ThumbnailJob,
    origin_rect: Rect,
    source_rect: Rect,
    r: Option<ThumbnailProjection>,
)
    requires
        call_ensures(job_projection, (job, origin_rect, source_rect), r),
    ensures
        job.clipped is None ==> r is None,
        job.clipped matches Some(clipped) ==> r == projection_of(
            job.rect,
            clipped,
            origin_rect,
            source_rect,
        ),
{
}

/// What is logged of a thumbnail names everything that was measured, with the borders of the
/// window where they are known.
pub proof fn law_diagnostics_name_what_was_measured(
    scene: Rect,
    known: Option<FullWindowPreviewGeometry>,
    clipped: Rect,
    source: Rect,
    projection: ThumbnailProjection,
    client_only: bool,
    text: String,
)
    requires
        call_ensures(
            thumbnail_diagnostic,
            (scene, known, clipped, source, projection, client_only),
            text,
        ),
    ensures
        ({
            let measured = " clipped="@ + rect_text(clipped) + " source_size="@ + rect_text(source)
                + " projection_dest="@ + rect_text(projection.destination_rect)
                + " projection_source="@ + rect_text(projection.source_rect) + " client_only="@
                + truth_text(client_only);
            &&& known is None ==> text@ == "scene="@ + rect_text(scene)
                + " outer=none visible=none expanded=fallback"@ + measured
            &&& known matches Some(geometry) ==> text@ == "scene="@ + rect_text(scene) + " outer="@
                + rect_text(geometry.outer_rect) + " visible="@ + rect_text(geometry.visible_rect)
                + " expanded="@ + rect_text(geometry.destination_rect) + measured + insets_text(
                geometry.outer_rect,
                geometry.visible_rect,
            )
        }),
{
}

/// The borders of a window are logged as the left, upper, right and lower one, each as wide as
/// the visible part lies within the whole.
pub proof fn law_borders_are_logged_side_by_side(outer: Rect, visible: Rect)
    requires
        0 <= outer.x <= visible.x && 0 <= outer.y <= visible.y,
        visible.x + visible.width <= outer.x + outer.width <= 0x7fff_ffff,
        visible.y + visible.height <= outer.y + outer.height <= 0x7fff_ffff,
    ensures
        insets_text(outer, visible) == " insets=("@ + signed_decimal(visible.x - outer.x) + ", "@
            + signed_decimal(visible.y - outer.y) + ", "@ + signed_decimal(
            (outer.x + outer.width) - (visible.x + visible.width),
        ) + ", "@ + signed_decimal((outer.y + outer.height) - (visible.y + visible.height)) + ")"@,
{
}

/// A thumbnail that shows the right thing already clears the failure of its window, and
/// nothing else changes before it is updated.
pub proof fn law_keeping_clears_the_failure(
    cache: &mut ThumbnailCache,
    hwnd: u64,
    projection: Option<ThumbnailProjection>,
    r: ShowStep,
)
    requires
        call_ensures(ThumbnailCache::begin_show, (cache, hwnd, projection), r),
    ensures
        r == old(cache)@.show_step(hwnd, projection),
        r is Keep ==> !final(cache)@.failures.contains_key(hwnd) && final(cache)@.thumbnails
            == old(cache)@.thumbnails && final(cache)@.diagnostics == old(cache)@.diagnostics,
        !(r is Keep) ==> final(cache)@ == old(cache)@,
{
}

} // verus!
