//! The shell's screenshot tools, which the overview has to make way for.

use std::collections::HashSet;

use crate::text::{
    chars_of, contains_chars, lower_chars, lowercase, same_chars, strip_suffix_chars, text_of,
    trim_chars,
};
use vstd::prelude::*;

verus! {

use crate::text::{lowered, occurs, trimmed, unicode_lowercase, without_suffix};

broadcast use vstd::std_specs::hash::group_hash_axioms;

/// How long the shell may take to show its overlay before the overview's owner goes on.
pub const SHELL_OVERLAY_PREPARE_TIMEOUT_MS: u64 = 180;

/// How long the overview stays frozen where a screenshot window was there from the start
/// and nothing further happens.
pub const SHELL_OVERLAY_BASELINE_RECOVERY_TIMEOUT_MS: u64 = 2000;

/// How long a screenshot window has to be gone before the overview comes back.
pub const SHELL_OVERLAY_RESTORE_SETTLE_MS: u64 = 80;

pub const SCREEN_CLIPPING_HOST_PROCESS: &'static str = "screenclippinghost";

pub const SNIPPING_TOOL_PROCESS: &'static str = "snippingtool";

/// The name that a process goes by: without white space round it, in lower case, and
/// without the ending of an executable. None where there is no name.
pub open spec fn normal_process_name(process_name: Option<Seq<char>>) -> Option<Seq<char>> {
    match process_name {
        None => None,
        Some(name) => if trimmed(name).len() == 0 {
            None
        } else {
            Some(without_suffix(lowered(trimmed(name)), ".exe"@))
        },
    }
}

pub open spec fn optional_text(text: Option<&str>) -> Option<Seq<char>> {
    match text {
        Some(text) => Some(text@),
        None => None,
    }
}

fn normalized_process_chars(process_name: Option<&str>) -> (r: Option<Vec<char>>)
    ensures
        match r {
            Some(name) => normal_process_name(optional_text(process_name)) == Some(name@),
            None => normal_process_name(optional_text(process_name)) is None,
        },
{
    match process_name {
        None => None,
        Some(name) => {
            let name: Vec<char> = trim_chars(&chars_of(name));
            if name.len() == 0 {
                return None;
            }
            Some(strip_suffix_chars(&lower_chars(&name), &chars_of(".exe")))
        },
    }
}

pub fn normalized_process_name(process_name: Option<&str>) -> (r: Option<String>)
    ensures
        match r {
            Some(name) => normal_process_name(optional_text(process_name)) == Some(name@),
            None => normal_process_name(optional_text(process_name)) is None,
        },
{
    match normalized_process_chars(process_name) {
        Some(name) => Some(text_of(&name)),
        None => None,
    }
}

fn is_process(process_name: Option<&str>, literal: &str) -> (r: bool)
    ensures
        r == (normal_process_name(optional_text(process_name)) == Some(literal@)),
{
    match normalized_process_chars(process_name) {
        Some(name) => same_chars(&name, &chars_of(literal)),
        None => false,
    }
}

/// Whether a title is that of a capture tool, whichever process it belongs to.
pub open spec fn names_a_capture(title: Seq<char>) -> bool {
    ||| occurs("screen clip"@, title)
    ||| occurs("screen clipping"@, title)
    ||| occurs("screen snip"@, title)
    ||| occurs("ножницы"@, title)
    ||| occurs("панель инструментов записи"@, title)
    ||| occurs("recording toolbar"@, title)
}

/// Whether a title is one that the snipping tool gives its capture windows.
pub open spec fn hints_at_a_capture(title: Seq<char>) -> bool {
    ||| occurs("screen"@, title)
    ||| occurs("clip"@, title)
    ||| occurs("snip"@, title)
    ||| occurs("record"@, title)
    ||| occurs("панель"@, title)
    ||| occurs("ножниц"@, title)
}

pub open spec fn capture_class(class_name: Seq<char>) -> bool {
    ||| lowered(class_name) == "applicationframewindow"@
    ||| lowered(class_name) == "microsoft.ui.content.desktopchildsitebridge"@
    ||| lowered(class_name) == "windows.ui.core.corewindow"@
}

/// Whether a window is an overlay of the shell's screenshot tools, by its class, its title
/// in lower case and its process.
pub open spec fn screenshot_overlay(
    class_name: Seq<char>,
    lowered_title: Seq<char>,
    process_name: Option<Seq<char>>,
) -> bool {
    ||| normal_process_name(process_name) == Some(SCREEN_CLIPPING_HOST_PROCESS@)
    ||| names_a_capture(lowered_title)
    ||| {
        &&& normal_process_name(process_name) == Some(SNIPPING_TOOL_PROCESS@)
        &&& capture_class(class_name)
        &&& hints_at_a_capture(lowered_title)
    }
}

fn mentions(title: &Vec<char>, words: &str) -> (r: bool)
    ensures
        r == occurs(words@, title@),
{
    contains_chars(title, &chars_of(words))
}

/// Tells an overlay of the screenshot tools by the title in lower case.
pub fn is_screenshot_overlay_title(
    class_name: &str,
    lowered_title: &str,
    process_name: Option<&str>,
) -> (r: bool)
    ensures
        r == screenshot_overlay(class_name@, lowered_title@, optional_text(process_name)),
{
    if is_process(process_name, SCREEN_CLIPPING_HOST_PROCESS) {
        return true;
    }
    let title: Vec<char> = chars_of(lowered_title);
    if mentions(&title, "screen clip") || mentions(&title, "screen clipping") || mentions(
        &title,
        "screen snip",
    ) || mentions(&title, "ножницы") || mentions(&title, "панель инструментов записи")
        || mentions(&title, "recording toolbar") {
        return true;
    }
    let class_name: Vec<char> = lower_chars(&chars_of(class_name));
    is_process(process_name, SNIPPING_TOOL_PROCESS) && (same_chars(
        &class_name,
        &chars_of("applicationframewindow"),
    ) || same_chars(
        &class_name,
        &chars_of("microsoft.ui.content.desktopchildsitebridge"),
    ) || same_chars(&class_name, &chars_of("windows.ui.core.corewindow"))) && (mentions(
        &title,
        "screen",
    ) || mentions(&title, "clip") || mentions(&title, "snip") || mentions(&title, "record")
        || mentions(&title, "панель") || mentions(&title, "ножниц"))
}

pub fn is_shell_screenshot_overlay(
    class_name: &str,
    title: &str,
    process_name: Option<&str>,
) -> (r: bool)
    ensures
        r == screenshot_overlay(
            class_name@,
            unicode_lowercase(title@),
            optional_text(process_name),
        ),
{
    let lowered_title: String = lowercase(title);
    is_screenshot_overlay_title(class_name, lowered_title.as_str(), process_name)
}

/// Whether a window shows a finished screenshot: every window of the snipping tool does.
pub fn is_shell_screenshot_result_window(
    _class_name: &str,
    _title: &str,
    process_name: Option<&str>,
) -> (r: bool)
    ensures
        r == (normal_process_name(optional_text(process_name)) == Some(SNIPPING_TOOL_PROCESS@)),
{
    is_process(process_name, SNIPPING_TOOL_PROCESS)
}

pub fn is_shell_screenshot_process(process_name: Option<&str>) -> (r: bool)
    ensures
        r == (normal_process_name(optional_text(process_name)) == Some(
            SCREEN_CLIPPING_HOST_PROCESS@,
        ) || normal_process_name(optional_text(process_name)) == Some(SNIPPING_TOOL_PROCESS@)),
{
    is_process(process_name, SCREEN_CLIPPING_HOST_PROCESS) || is_process(
        process_name,
        SNIPPING_TOOL_PROCESS,
    )
}

/// The screenshot windows on the screen.
#[derive(Debug)]
pub struct ShellScreenshotWindows {
    pub overlay_present: bool,
    pub result_window_hwnds: HashSet<u64>,
    pub foreground_screenshot_hwnd: Option<u64>,
}

pub ghost struct ScreenshotWindowsView {
    pub overlay_present: bool,
    pub result_window_hwnds: Set<u64>,
    pub foreground_screenshot_hwnd: Option<u64>,
}

impl View for ShellScreenshotWindows {
    type V = ScreenshotWindowsView;

    open spec fn view(&self) -> ScreenshotWindowsView {
        ScreenshotWindowsView {
            overlay_present: self.overlay_present,
            result_window_hwnds: self.result_window_hwnds@,
            foreground_screenshot_hwnd: self.foreground_screenshot_hwnd,
        }
    }
}

impl Default for ShellScreenshotWindows {
    fn default() -> (r: ShellScreenshotWindows)
        ensures
            r@ == (ScreenshotWindowsView {
                overlay_present: false,
                result_window_hwnds: Set::empty(),
                foreground_screenshot_hwnd: None,
            }),
    {
        ShellScreenshotWindows {
            overlay_present: false,
            result_window_hwnds: HashSet::new(),
            foreground_screenshot_hwnd: None,
        }
    }
}

impl ScreenshotWindowsView {
    /// What is known of the screen once one more window has been seen on it.
    pub open spec fn with_window(
        self,
        hwnd: u64,
        class_name: Seq<char>,
        lowered_title: Seq<char>,
        process_name: Option<Seq<char>>,
    ) -> ScreenshotWindowsView {
        if screenshot_overlay(class_name, lowered_title, process_name) {
            ScreenshotWindowsView { overlay_present: true, ..self }
        } else if normal_process_name(process_name) == Some(SNIPPING_TOOL_PROCESS@) {
            ScreenshotWindowsView {
                result_window_hwnds: self.result_window_hwnds.insert(hwnd),
                ..self
            }
        } else {
            self
        }
    }
}

impl ShellScreenshotWindows {
    /// Takes note of a visible window of the screen.
    pub fn record_window(
        &mut self,
        hwnd: u64,
        class_name: &str,
        title: &str,
        process_name: Option<&str>,
    )
        ensures
            final(self)@ == old(self)@.with_window(
                hwnd,
                class_name@,
                unicode_lowercase(title@),
                optional_text(process_name),
            ),
    {
        if is_shell_screenshot_overlay(class_name, title, process_name) {
            self.overlay_present = true;
            return;
        }
        if is_shell_screenshot_result_window(class_name, title, process_name) {
            self.result_window_hwnds.insert(hwnd);
        }
    }
}

/// Whether the foreground window belongs to the screenshot tools; then its handle counts.
pub fn foreground_screenshot_ui(
    hwnd: u64,
    class_name: &str,
    title: &str,
    process_name: Option<&str>,
) -> (r: Option<u64>)
    ensures
        r == (if screenshot_overlay(
            class_name@,
            unicode_lowercase(title@),
            optional_text(process_name),
        ) || normal_process_name(optional_text(process_name)) == Some(SNIPPING_TOOL_PROCESS@) {
            Some(hwnd)
        } else {
            None
        }),
{
    if is_shell_screenshot_overlay(class_name, title, process_name)
        || is_shell_screenshot_result_window(class_name, title, process_name)
        || is_shell_screenshot_process(process_name) {
        return Some(hwnd);
    }
    None
}

/// A frozen overview that waits for the screenshot tools to finish. Times are in
/// milliseconds.
#[derive(Debug)]
pub struct ShellOverlayEscapeState {
    pub started_at: u64,
    pub overlay_seen: bool,
    pub overlay_gone_at: Option<u64>,
    pub baseline_result_hwnds: HashSet<u64>,
    pub baseline_foreground_screenshot_hwnd: Option<u64>,
    pub result_window_seen: bool,
    pub result_window_gone_at: Option<u64>,
}

pub ghost struct EscapeView {
    pub started_at: u64,
    pub overlay_seen: bool,
    pub overlay_gone_at: Option<u64>,
    pub baseline_result_hwnds: Set<u64>,
    pub baseline_foreground_screenshot_hwnd: Option<u64>,
    pub result_window_seen: bool,
    pub result_window_gone_at: Option<u64>,
}

impl View for ShellOverlayEscapeState {
    type V = EscapeView;

    open spec fn view(&self) -> EscapeView {
        EscapeView {
            started_at: self.started_at,
            overlay_seen: self.overlay_seen,
            overlay_gone_at: self.overlay_gone_at,
            baseline_result_hwnds: self.baseline_result_hwnds@,
            baseline_foreground_screenshot_hwnd: self.baseline_foreground_screenshot_hwnd,
            result_window_seen: self.result_window_seen,
            result_window_gone_at: self.result_window_gone_at,
        }
    }
}

/// How long ago a moment was; nothing where it lies ahead.
pub open spec fn elapsed_since(now: u64, since: u64) -> int {
    if now >= since {
        now - since
    } else {
        0
    }
}

fn elapsed_ms(now: u64, since: u64) -> (r: u64)
    ensures
        r == elapsed_since(now, since),
{
    if now >= since {
        now - since
    } else {
        0
    }
}

impl EscapeView {
    /// A scene that has just been frozen, with some screenshot windows on the screen.
    pub open spec fn started(now: u64, windows: ScreenshotWindowsView) -> EscapeView {
        EscapeView {
            started_at: now,
            overlay_seen: false,
            overlay_gone_at: None,
            baseline_result_hwnds: windows.result_window_hwnds,
            baseline_foreground_screenshot_hwnd: windows.foreground_screenshot_hwnd,
            result_window_seen: false,
            result_window_gone_at: None,
        }
    }

    /// A screenshot window that was not there when the overview was frozen has the focus.
    pub open spec fn new_foreground(self, windows: ScreenshotWindowsView) -> bool {
        windows.foreground_screenshot_hwnd is Some && windows.foreground_screenshot_hwnd
            != self.baseline_foreground_screenshot_hwnd
    }

    pub open spec fn new_result(self, windows: ScreenshotWindowsView) -> bool {
        exists|hwnd: u64|
            windows.result_window_hwnds.contains(hwnd) && !#[trigger]
            self.baseline_result_hwnds.contains(hwnd)
    }

    pub open spec fn baseline_known(self) -> bool {
        self.baseline_result_hwnds != Set::<u64>::empty()
            || self.baseline_foreground_screenshot_hwnd is Some
    }

    pub open spec fn session_seen(self) -> bool {
        self.overlay_seen || self.result_window_seen
    }

    /// Since when the screenshot windows have been gone.
    pub open spec fn gone_at(self, now: u64) -> u64 {
        let noted = if self.result_window_seen {
            self.result_window_gone_at
        } else {
            self.overlay_gone_at
        };
        match noted {
            Some(at) => at,
            None => now,
        }
    }

    /// The state after a look at the screen, and whether the overview may come back.
    pub open spec fn after(self, windows: ScreenshotWindowsView, now: u64) -> (EscapeView, bool) {
        if windows.overlay_present || self.new_foreground(windows) {
            (
                EscapeView {
                    overlay_seen: true,
                    overlay_gone_at: None,
                    result_window_gone_at: None,
                    ..self
                },
                false,
            )
        } else if self.new_result(windows) {
            (
                EscapeView {
                    overlay_seen: true,
                    result_window_seen: true,
                    result_window_gone_at: None,
                    ..self
                },
                false,
            )
        } else if !self.session_seen() {
            (
                self,
                self.baseline_known() && elapsed_since(now, self.started_at)
                    >= SHELL_OVERLAY_BASELINE_RECOVERY_TIMEOUT_MS,
            )
        } else {
            let at = self.gone_at(now);
            let next = if self.result_window_seen {
                EscapeView { result_window_gone_at: Some(at), ..self }
            } else {
                EscapeView { overlay_gone_at: Some(at), ..self }
            };
            (next, elapsed_since(now, at) >= SHELL_OVERLAY_RESTORE_SETTLE_MS)
        }
    }
}

/// Whether a set holds something that another one does not.
fn holds_beyond(hwnds: &HashSet<u64>, known: &HashSet<u64>) -> (r: bool)
    ensures
        r == (exists|hwnd: u64| hwnds@.contains(hwnd) && !#[trigger] known@.contains(hwnd)),
{
    for hwnd in it: hwnds.iter()
        invariant
            it.seq().unref().to_set() == hwnds@,
            forall|j: int| 0 <= j < it.index() ==> known@.contains(*(#[trigger] it.seq()[j])),
    {
        assert(it.seq().unref()[it.index() as int] == *hwnd);
        assert(it.seq().unref().to_set().contains(*hwnd));
        if !known.contains(hwnd) {
            return true;
        }
    }
    assert forall|hwnd: u64| hwnds@.contains(hwnd) implies #[trigger] known@.contains(hwnd) by {
    }
    false
}

impl ShellOverlayEscapeState {
    pub fn new(
        started_at: u64,
        baseline_result_hwnds: HashSet<u64>,
        baseline_foreground_screenshot_hwnd: Option<u64>,
    ) -> (r: ShellOverlayEscapeState)
        ensures
            r@ == (EscapeView {
                started_at,
                overlay_seen: false,
                overlay_gone_at: None,
                baseline_result_hwnds: baseline_result_hwnds@,
                baseline_foreground_screenshot_hwnd,
                result_window_seen: false,
                result_window_gone_at: None,
            }),
    {
        ShellOverlayEscapeState {
            started_at,
            overlay_seen: false,
            overlay_gone_at: None,
            baseline_result_hwnds,
            baseline_foreground_screenshot_hwnd,
            result_window_seen: false,
            result_window_gone_at: None,
        }
    }

    /// Looks at the screen and says whether the overview may come back.
    pub fn should_restore(&mut self, windows: &ShellScreenshotWindows, now: u64) -> (r: bool)
        ensures
            (final(self)@, r) == old(self)@.after(windows@, now),
    {
        let foreground_active: bool = match windows.foreground_screenshot_hwnd {
            Some(hwnd) => match self.baseline_foreground_screenshot_hwnd {
                Some(baseline) => hwnd != baseline,
                None => true,
            },
            None => false,
        };
        if windows.overlay_present || foreground_active {
            self.overlay_seen = true;
            self.overlay_gone_at = None;
            self.result_window_gone_at = None;
            return false;
        }
        if holds_beyond(&windows.result_window_hwnds, &self.baseline_result_hwnds) {
            self.overlay_seen = true;
            self.result_window_seen = true;
            self.result_window_gone_at = None;
            return false;
        }
        if !self.overlay_seen && !self.result_window_seen {
            if !self.baseline_result_hwnds.is_empty() || self.baseline_foreground_screenshot_hwnd.is_some() {
                return elapsed_ms(now, self.started_at)
                    >= SHELL_OVERLAY_BASELINE_RECOVERY_TIMEOUT_MS;
            }
            return false;
        }
        if self.result_window_seen {
            let gone_at: u64 = match self.result_window_gone_at {
                Some(at) => at,
                None => now,
            };
            self.result_window_gone_at = Some(gone_at);
            return elapsed_ms(now, gone_at) >= SHELL_OVERLAY_RESTORE_SETTLE_MS;
        }
        let gone_at: u64 = match self.overlay_gone_at {
            Some(at) => at,
            None => now,
        };
        self.overlay_gone_at = Some(gone_at);
        elapsed_ms(now, gone_at) >= SHELL_OVERLAY_RESTORE_SETTLE_MS
    }
}

impl ScreenshotWindowsView {
    /// No screenshot window beyond those that were there when the overview was frozen.
    pub open spec fn quiet_for(self, escape: EscapeView) -> bool {
        !self.overlay_present && !escape.new_foreground(self) && !escape.new_result(self)
    }
}

/// The overview comes back only while no new screenshot window is on the screen, and only
/// after one has been seen; the one exception is that screenshot windows were there from
/// the start, and then it takes two seconds.
pub proof fn law_restore_follows_a_session(
    escape: EscapeView,
    windows: ScreenshotWindowsView,
    now: u64,
)
    ensures
        escape.after(windows, now).1 ==> windows.quiet_for(escape) && (escape.session_seen() || (
        escape.baseline_known() && elapsed_since(now, escape.started_at) >= 2000)),
        !windows.quiet_for(escape) ==> escape.after(windows, now).0.session_seen(),
        escape.session_seen() ==> escape.after(windows, now).0.session_seen(),
        !escape.session_seen() && !escape.baseline_known() && windows.quiet_for(escape)
            ==> escape.after(windows, now) == (escape, false),
{
}

/// Once the screenshot windows are gone the overview waits for them to stay gone: it comes
/// back at the first look that is at least the settling time later than the first quiet one.
pub proof fn law_restore_waits_until_settled(
    escape: EscapeView,
    first: ScreenshotWindowsView,
    second: ScreenshotWindowsView,
    third: ScreenshotWindowsView,
    seen_at: u64,
    quiet_at: u64,
    later: u64,
)
    requires
        first.overlay_present || escape.new_foreground(first),
        second.quiet_for(escape) && third.quiet_for(escape),
        quiet_at <= later,
    ensures
        ({
            let busy = escape.after(first, seen_at);
            let quiet = busy.0.after(second, quiet_at);
            let settled = quiet.0.after(third, later);
            &&& !busy.1
            &&& !quiet.1
            &&& settled.1 <==> later - quiet_at >= SHELL_OVERLAY_RESTORE_SETTLE_MS
        }),
{
    let busy = escape.after(first, seen_at).0;
    assert(busy.new_result(second) == escape.new_result(second));
    assert(busy.new_result(third) == escape.new_result(third));
    let quiet = busy.after(second, quiet_at).0;
    assert(quiet.new_result(third) == escape.new_result(third));
}

/// A process goes by its name without the white space around it, in lower case, and without
/// the ending of an executable; a name of white space alone is none.
pub proof fn law_processes_go_by_their_names(process_name: Option<&str>, r: Option<String>)
    requires
        call_ensures(normalized_process_name, (process_name,), r),
    ensures
        process_name is None ==> r is None,
        process_name matches Some(name) ==> (r is None <==> trimmed(name@).len() == 0),
        process_name matches Some(name) ==> (r matches Some(text) ==> text@ == without_suffix(
            lowered(trimmed(name@)),
            ".exe"@,
        )),
{
}

/// Every window of the clipping host is an overlay, whatever its class and title.
pub proof fn law_the_clipping_host_has_only_overlays(
    class_name: Seq<char>,
    title: Seq<char>,
    process_name: Option<Seq<char>>,
)
    ensures
        normal_process_name(process_name) == Some("screenclippinghost"@) ==> screenshot_overlay(
            class_name,
            title,
            process_name,
        ),
{
}

/// A window whose title names a capture is an overlay, whatever its class and process.
pub proof fn law_titles_name_captures(
    class_name: Seq<char>,
    title: Seq<char>,
    process_name: Option<Seq<char>>,
)
    ensures
        ({
            let named = occurs("screen clip"@, title) || occurs("screen clipping"@, title)
                || occurs("screen snip"@, title) || occurs("ножницы"@, title) || occurs(
                "панель инструментов записи"@,
                title,
            ) || occurs("recording toolbar"@, title);
            let tool = normal_process_name(process_name) == Some("snippingtool"@);
            let host = normal_process_name(process_name) == Some("screenclippinghost"@);
            let class = lowered(class_name) == "applicationframewindow"@ || lowered(class_name)
                == "microsoft.ui.content.desktopchildsitebridge"@ || lowered(class_name)
                == "windows.ui.core.corewindow"@;
            let hinted = occurs("screen"@, title) || occurs("clip"@, title) || occurs(
                "snip"@,
                title,
            ) || occurs("record"@, title) || occurs("панель"@, title) || occurs("ножниц"@, title);
            &&& named ==> screenshot_overlay(class_name, title, process_name)
            &&& tool && class && hinted ==> screenshot_overlay(class_name, title, process_name)
            &&& !named && !host && !tool ==> !screenshot_overlay(class_name, title, process_name)
            &&& !named && !host && !class ==> !screenshot_overlay(class_name, title, process_name)
            &&& !named && !host && !hinted ==> !screenshot_overlay(class_name, title, process_name)
        }),
{
}

/// A window is told by its title in lower case; every window of the snipping tool shows a
/// result; and the process of either tool is one that takes screenshots.
pub proof fn law_screenshot_windows_are_told(
    class_name: &str,
    title: &str,
    process_name: Option<&str>,
    overlay: bool,
    result: bool,
    process: bool,
)
    requires
        call_ensures(is_shell_screenshot_overlay, (class_name, title, process_name), overlay),
        call_ensures(is_shell_screenshot_result_window, (class_name, title, process_name), result),
        call_ensures(is_shell_screenshot_process, (process_name,), process),
    ensures
        overlay == screenshot_overlay(
            class_name@,
            unicode_lowercase(title@),
            optional_text(process_name),
        ),
        result <==> normal_process_name(optional_text(process_name)) == Some("snippingtool"@),
        process <==> normal_process_name(optional_text(process_name)) == Some("snippingtool"@)
            || normal_process_name(optional_text(process_name)) == Some("screenclippinghost"@),
{
}

/// A window in the foreground counts exactly where it is an overlay or shows a result.
pub proof fn law_the_foreground_counts_if_it_is_a_screenshot(
    hwnd: u64,
    class_name: &str,
    title: &str,
    process_name: Option<&str>,
    r: Option<u64>,
)
    requires
        call_ensures(foreground_screenshot_ui, (hwnd, class_name, title, process_name), r),
    ensures
        r is Some <==> screenshot_overlay(
            class_name@,
            unicode_lowercase(title@),
            optional_text(process_name),
        ) || normal_process_name(optional_text(process_name)) == Some("snippingtool"@),
        r matches Some(found) ==> found == hwnd,
{
}

/// An overlay on the screen is noted; any other window of the snipping tool joins those that
/// show a result; nothing that was noted before is forgotten.
pub proof fn law_windows_on_the_screen_are_noted(
    windows: ScreenshotWindowsView,
    hwnd: u64,
    other: u64,
    class_name: Seq<char>,
    title: Seq<char>,
    process_name: Option<Seq<char>>,
)
    ensures
        ({
            let next = windows.with_window(hwnd, class_name, title, process_name);
            let overlay = screenshot_overlay(class_name, title, process_name);
            let tool = normal_process_name(process_name) == Some("snippingtool"@);
            &&& next.overlay_present == (windows.overlay_present || overlay)
            &&& next.result_window_hwnds.contains(hwnd) == (windows.result_window_hwnds.contains(
                hwnd,
            ) || (tool && !overlay))
            &&& other != hwnd ==> next.result_window_hwnds.contains(other)
                == windows.result_window_hwnds.contains(other)
            &&& next.foreground_screenshot_hwnd == windows.foreground_screenshot_hwnd
        }),
{
}

/// A scene that has just been frozen knows the screenshot windows that are there and has seen
/// no other yet.
pub proof fn law_freezing_knows_what_is_there(now: u64, windows: ScreenshotWindowsView, hwnd: u64)
    ensures
        ({
            let escape = EscapeView::started(now, windows);
            &&& escape.started_at == now
            &&& !escape.overlay_seen && !escape.result_window_seen
            &&& escape.overlay_gone_at is None && escape.result_window_gone_at is None
            &&& escape.baseline_result_hwnds.contains(hwnd) == windows.result_window_hwnds.contains(
                hwnd,
            )
            &&& escape.baseline_foreground_screenshot_hwnd == windows.foreground_screenshot_hwnd
            &&& !escape.new_foreground(windows) && !escape.new_result(windows)
        }),
{
}

/// A window is new exactly where it was not there when the scene was frozen.
pub proof fn law_new_windows_were_not_there(
    escape: EscapeView,
    windows: ScreenshotWindowsView,
    hwnd: u64,
)
    ensures
        windows.foreground_screenshot_hwnd == Some(hwnd) ==> (escape.new_foreground(windows)
            <==> escape.baseline_foreground_screenshot_hwnd != Some(hwnd)),
        windows.foreground_screenshot_hwnd is None ==> !escape.new_foreground(windows),
        windows.result_window_hwnds.contains(hwnd) && !escape.baseline_result_hwnds.contains(hwnd)
            ==> escape.new_result(windows),
        windows.result_window_hwnds.subset_of(escape.baseline_result_hwnds)
            ==> !escape.new_result(windows),
{
}

/// What a look at the screen changes. A new overlay or foreground window begins the wait anew;
/// a new result window does so too and is remembered. While nothing new is there, the first
/// quiet moment is noted and kept, and 80 milliseconds of quiet bring the overview back.
pub proof fn law_looks_move_the_wait(
    escape: EscapeView,
    windows: ScreenshotWindowsView,
    now: u64,
)
    ensures
        ({
            let (next, back) = escape.after(windows, now);
            let busy = windows.overlay_present || escape.new_foreground(windows);
            let result = !busy && escape.new_result(windows);
            let quiet = windows.quiet_for(escape);
            let noted = if escape.result_window_seen {
                escape.result_window_gone_at
            } else {
                escape.overlay_gone_at
            };
            let since = match noted {
                Some(at) => at,
                None => now,
            };
            &&& next.started_at == escape.started_at && next.baseline_result_hwnds
                == escape.baseline_result_hwnds && next.baseline_foreground_screenshot_hwnd
                == escape.baseline_foreground_screenshot_hwnd
            &&& busy ==> !back && next.overlay_seen && next.overlay_gone_at is None
                && next.result_window_gone_at is None && next.result_window_seen
                == escape.result_window_seen
            &&& result ==> !back && next.overlay_seen && next.result_window_seen
                && next.result_window_gone_at is None && next.overlay_gone_at
                == escape.overlay_gone_at
            &&& quiet ==> next.overlay_seen == escape.overlay_seen && next.result_window_seen
                == escape.result_window_seen
            &&& quiet && escape.result_window_seen ==> next.result_window_gone_at == Some(since)
                && next.overlay_gone_at == escape.overlay_gone_at
            &&& quiet && !escape.result_window_seen && escape.overlay_seen ==> next.overlay_gone_at
                == Some(since) && next.result_window_gone_at == escape.result_window_gone_at
            &&& quiet && (escape.overlay_seen || escape.result_window_seen) ==> (back <==> now
                >= since + 80)
            &&& quiet && !escape.overlay_seen && !escape.result_window_seen ==> next == escape && (
            back <==> now >= escape.started_at + 2000 && (escape.baseline_result_hwnds
                != Set::<u64>::empty() || escape.baseline_foreground_screenshot_hwnd is Some))
        }),
{
}

} // verus!
