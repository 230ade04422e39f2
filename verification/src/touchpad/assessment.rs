//! Whether the system leaves three- and four-finger gestures to the daemon.

use crate::text::{decimal_text, same_text};
use crate::touchpad::bindings::{TouchpadBindingSet, TouchpadConfig, TouchpadListenerError};
use vstd::prelude::*;
use vstd::string::*;

verus! {

use crate::text::decimal;
use crate::touchpad::bindings::{
    bound, gestures_of, law_duplicates_show_in_the_count, TouchpadGestureBinding,
};


pub const TOUCHPAD_SYSTEM_SETTING_REQUIRED_STATUS: &'static str = "windows-touch-gestures-enabled";

pub const TOUCHPAD_SYSTEM_SETTING_UNKNOWN_STATUS: &'static str =
    "windows-touch-gesture-setting-unknown";

pub const TOUCHPAD_BACKEND_UNAVAILABLE_STATUS: &'static str = "touchpad-backend-unavailable";

/// What stands in the way of the touchpad override.
#[derive(Clone, Debug, PartialEq, Eq)]
pub struct TouchpadOverrideAssessment {
    pub requested: bool,
    pub configured_gesture_count: usize,
    pub normalized_gesture_count: usize,
    pub status: &'static str,
    pub detail: Option<String>,
}

/// The system's own use of the gestures.
#[derive(Clone, Debug, PartialEq, Eq)]
pub enum SystemTouchGestureSetting {
    Disabled,
    Enabled,
    Unknown(String),
}

pub ghost struct AssessmentView {
    pub requested: bool,
    pub configured: nat,
    pub normalized: nat,
    pub status: Seq<char>,
    pub detail: Option<Seq<char>>,
}

impl View for TouchpadOverrideAssessment {
    type V = AssessmentView;

    open spec fn view(&self) -> AssessmentView {
        AssessmentView {
            requested: self.requested,
            configured: self.configured_gesture_count as nat,
            normalized: self.normalized_gesture_count as nat,
            status: self.status@,
            detail: match self.detail {
                Some(detail) => Some(detail@),
                None => None,
            },
        }
    }
}

/// The label of a status in summaries.
pub open spec fn label_of(status: Seq<char>) -> Seq<char> {
    if status == "ready"@ {
        "enabled"@
    } else if status == "windows-touch-gestures-enabled"@ {
        "windows-setting-required"@
    } else if status == "windows-touch-gesture-setting-unknown"@ {
        "windows-setting-unknown"@
    } else if status == "touchpad-backend-unavailable"@ {
        "backend-unavailable"@
    } else {
        status
    }
}

impl TouchpadOverrideAssessment {
    pub fn summary_label(&self) -> (r: &'static str)
        ensures
            r@ == label_of(self@.status),
    {
        proof {
            lemma_statuses_differ();
        }
        if same_text(self.status, "disabled") {
            "disabled"
        } else if same_text(self.status, "ready") {
            "enabled"
        } else if same_text(self.status, "invalid-config") {
            "invalid-config"
        } else if same_text(self.status, "windows-touch-gestures-enabled") {
            "windows-setting-required"
        } else if same_text(self.status, "windows-touch-gesture-setting-unknown") {
            "windows-setting-unknown"
        } else if same_text(self.status, "touchpad-backend-unavailable") {
            "backend-unavailable"
        } else {
            self.status
        }
    }
}

pub open spec fn still_enabled_detail() -> Seq<char> {
    "Windows still owns three/four-finger touch gestures. Set Settings > Bluetooth & devices > Touch > Three- and four-finger touch gestures to Off and restart or reload the daemon (ms-settings:devices-touch)"@
}

pub open spec fn unknown_detail(message: Seq<char>) -> Seq<char> {
    "FlowtileWM could not verify the Windows touch gesture setting: "@ + message
        + ". Open ms-settings:devices-touch and ensure Three- and four-finger touch gestures is Off"@
}

/// The assessment of an enabled override whose bindings are these.
pub open spec fn enabled_assessment(
    gestures: Seq<TouchpadGestureBinding>,
    setting: SystemTouchGestureSetting,
) -> AssessmentView {
    let plain = AssessmentView {
        requested: true,
        configured: gestures.len(),
        normalized: 0,
        status: "invalid-config"@,
        detail: None,
    };
    if gestures.len() == 0 {
        AssessmentView {
            detail: Some("touchpad override is enabled but no touchpad gestures are configured"@),
            ..plain
        }
    } else {
        match bound(gestures) {
            Err(message) => AssessmentView { detail: Some(message), ..plain },
            Ok(map) => {
                let counted = AssessmentView { normalized: map.dom().len(), ..plain };
                if map.dom().len() != gestures.len() {
                    AssessmentView {
                        detail: Some(
                            "touchpad gesture configuration contains duplicate gesture bindings"@,
                        ),
                        ..counted
                    }
                } else {
                    match setting {
                        SystemTouchGestureSetting::Enabled => AssessmentView {
                            status: "windows-touch-gestures-enabled"@,
                            detail: Some(still_enabled_detail()),
                            ..counted
                        },
                        SystemTouchGestureSetting::Unknown(message) => AssessmentView {
                            status: "windows-touch-gesture-setting-unknown"@,
                            detail: Some(unknown_detail(message@)),
                            ..counted
                        },
                        SystemTouchGestureSetting::Disabled => AssessmentView {
                            status: "ready"@,
                            detail: None,
                            ..counted
                        },
                    }
                }
            },
        }
    }
}

/// The assessment of a configuration under a setting of the system.
pub open spec fn assessment(
    config: TouchpadConfig,
    setting: SystemTouchGestureSetting,
) -> AssessmentView {
    if !config.override_enabled {
        AssessmentView {
            requested: false,
            configured: config.gestures@.len(),
            normalized: 0,
            status: "disabled"@,
            detail: None,
        }
    } else {
        enabled_assessment(config.gestures@, setting)
    }
}

/// Checks the configuration first and the system's setting last.
pub fn assess_touchpad_override_with_system_setting(
    config: &TouchpadConfig,
    system_setting: SystemTouchGestureSetting,
) -> (r: TouchpadOverrideAssessment)
    ensures
        r@ == assessment(*config, system_setting),
{
    if !config.override_enabled {
        return TouchpadOverrideAssessment {
            requested: false,
            configured_gesture_count: config.gestures.len(),
            normalized_gesture_count: 0,
            status: "disabled",
            detail: None,
        };
    }
    if config.gestures.len() == 0 {
        return TouchpadOverrideAssessment {
            requested: true,
            configured_gesture_count: 0,
            normalized_gesture_count: 0,
            status: "invalid-config",
            detail: Some(
                "touchpad override is enabled but no touchpad gestures are configured".to_owned(),
            ),
        };
    }
    let bindings: TouchpadBindingSet = match TouchpadBindingSet::from_config(config) {
        Ok(bindings) => bindings,
        Err(error) => {
            return TouchpadOverrideAssessment {
                requested: true,
                configured_gesture_count: config.gestures.len(),
                normalized_gesture_count: 0,
                status: "invalid-config",
                detail: Some(error.message()),
            };
        },
    };
    if bindings.len() != config.gestures.len() {
        return TouchpadOverrideAssessment {
            requested: true,
            configured_gesture_count: config.gestures.len(),
            normalized_gesture_count: bindings.len(),
            status: "invalid-config",
            detail: Some(
                "touchpad gesture configuration contains duplicate gesture bindings".to_owned(),
            ),
        };
    }
    match system_setting {
        SystemTouchGestureSetting::Enabled => TouchpadOverrideAssessment {
            requested: true,
            configured_gesture_count: config.gestures.len(),
            normalized_gesture_count: bindings.len(),
            status: "windows-touch-gestures-enabled",
            detail: Some(
                "Windows still owns three/four-finger touch gestures. Set Settings > Bluetooth & devices > Touch > Three- and four-finger touch gestures to Off and restart or reload the daemon (ms-settings:devices-touch)".to_owned(),
            ),
        },
        SystemTouchGestureSetting::Unknown(message) => {
            let mut detail: String =
                "FlowtileWM could not verify the Windows touch gesture setting: ".to_owned();
            detail.append(message.as_str());
            detail.append(
                ". Open ms-settings:devices-touch and ensure Three- and four-finger touch gestures is Off",
            );
            TouchpadOverrideAssessment {
                requested: true,
                configured_gesture_count: config.gestures.len(),
                normalized_gesture_count: bindings.len(),
                status: "windows-touch-gesture-setting-unknown",
                detail: Some(detail),
            }
        },
        SystemTouchGestureSetting::Disabled => TouchpadOverrideAssessment {
            requested: true,
            configured_gesture_count: config.gestures.len(),
            normalized_gesture_count: bindings.len(),
            status: "ready",
            detail: None,
        },
    }
}

/// Whether an assessment keeps the override from starting.
pub open spec fn blocks_startup(status: Seq<char>) -> bool {
    status == "invalid-config"@ || status == "windows-touch-gestures-enabled"@ || status
        == "windows-touch-gesture-setting-unknown"@
}

/// Refuses a configuration that is not usable under the system's setting.
pub fn ensure_touchpad_override_supported(
    config: &TouchpadConfig,
    system_setting: SystemTouchGestureSetting,
) -> (r: Result<(), TouchpadListenerError>)
    ensures
        match r {
            Ok(_) => !blocks_startup(assessment(*config, system_setting).status),
            Err(error) => {
                &&& blocks_startup(assessment(*config, system_setting).status)
                &&& assessment(*config, system_setting).detail == Some(error.text())
            },
        },
{
    let found: TouchpadOverrideAssessment = assess_touchpad_override_with_system_setting(
        config,
        system_setting,
    );
    proof {
        lemma_statuses_differ();
    }
    if same_text(found.status, "invalid-config") || same_text(
        found.status,
        "windows-touch-gestures-enabled",
    ) || same_text(found.status, "windows-touch-gesture-setting-unknown") {
        match found.detail {
            Some(detail) => Err(TouchpadListenerError::Startup(detail)),
            None => Err(
                TouchpadListenerError::Startup(
                    "touchpad override configuration is invalid".to_owned(),
                ),
            ),
        }
    } else {
        Ok(())
    }
}

proof fn lemma_statuses_differ()
    ensures
        "disabled"@ != "invalid-config"@,
        "disabled"@ != "windows-touch-gestures-enabled"@,
        "disabled"@ != "windows-touch-gesture-setting-unknown"@,
        "ready"@ != "invalid-config"@,
        "ready"@ != "windows-touch-gestures-enabled"@,
        "ready"@ != "windows-touch-gesture-setting-unknown"@,
        "ready"@ != "disabled"@,
        "disabled"@ != "touchpad-backend-unavailable"@,
        "invalid-config"@ != "windows-touch-gestures-enabled"@,
        "invalid-config"@ != "windows-touch-gesture-setting-unknown"@,
        "invalid-config"@ != "touchpad-backend-unavailable"@,
{
    reveal_strlit("touchpad-backend-unavailable");
    assert("touchpad-backend-unavailable"@.len() == 28);
    reveal_strlit("disabled");
    reveal_strlit("ready");
    reveal_strlit("invalid-config");
    reveal_strlit("windows-touch-gestures-enabled");
    reveal_strlit("windows-touch-gesture-setting-unknown");
    assert("disabled"@.len() == 8);
    assert("ready"@.len() == 5);
    assert("invalid-config"@.len() == 14);
    assert("windows-touch-gestures-enabled"@.len() == 30);
    assert("windows-touch-gesture-setting-unknown"@.len() == 37);
}

/// The override is ready exactly where it is enabled, has bindings, each of them means
/// something, no gesture is bound twice, and the system has given its own gestures up.
pub proof fn law_ready_needs_everything(
    config: TouchpadConfig,
    setting: SystemTouchGestureSetting,
)
    ensures
        assessment(config, setting).status == "ready"@ <==> {
            &&& config.override_enabled
            &&& config.gestures@.len() > 0
            &&& bound(config.gestures@) is Ok
            &&& crate::touchpad::bindings::gestures_of(config.gestures@).no_duplicates()
            &&& setting is Disabled
        },
{
    lemma_statuses_differ();
    if bound(config.gestures@) is Ok {
        crate::touchpad::bindings::law_duplicates_show_in_the_count(config.gestures@);
    }
}

/// A disabled override is supported under every setting of the system.
pub proof fn law_disabled_override_needs_no_runtime(
    config: TouchpadConfig,
    setting: SystemTouchGestureSetting,
)
    requires
        !config.override_enabled,
    ensures
        !blocks_startup(assessment(config, setting).status),
        label_of(assessment(config, setting).status) == "disabled"@,
{
    lemma_statuses_differ();
}

/// The registry code of a value that does not exist.
pub const ERROR_FILE_NOT_FOUND: u32 = 2;

pub open spec fn unexpected_value(value: u32) -> Seq<char> {
    "registry value HKCU\\Control Panel\\Desktop\\TouchGestureSetting had unexpected DWORD value "@
        + decimal(value as nat)
}

pub open spec fn read_failure(what: Seq<char>, code: u32) -> Seq<char> {
    "failed to read "@ + what + " (Win32 error "@ + decimal(code as nat) + ")"@
}

fn read_failure_text(what: &str, code: u32) -> (r: String)
    ensures
        r@ == read_failure(what@, code),
{
    let mut text: String = "failed to read ".to_owned();
    text.append(what);
    text.append(" (Win32 error ");
    text.append(decimal_text(code as u64).as_str());
    text.append(")");
    text
}

pub open spec fn both_failed(three: u32, four: u32) -> Seq<char> {
    "failed to read both PrecisionTouchPad slide flags (ThreeFingerSlideEnabled: Win32 error "@
        + decimal(three as nat) + ", FourFingerSlideEnabled: Win32 error "@ + decimal(four as nat)
        + ")"@
}

pub open spec fn says_unknown(setting: SystemTouchGestureSetting, message: Seq<char>) -> bool {
    setting matches SystemTouchGestureSetting::Unknown(text) && text@ == message
}

/// What the three registry readings say: the common setting where it exists, else the two
/// slide flags together.
pub fn read_system_touch_gesture_setting(
    common: Result<u32, u32>,
    three_finger: Result<u32, u32>,
    four_finger: Result<u32, u32>,
) -> (r: SystemTouchGestureSetting)
    ensures
        match common {
            Ok(value) => if value == 0 {
                r is Disabled
            } else if value == 1 {
                r is Enabled
            } else {
                says_unknown(r, unexpected_value(value))
            },
            Err(code) => if code != ERROR_FILE_NOT_FOUND {
                says_unknown(
                    r,
                    read_failure("HKCU\\Control Panel\\Desktop\\TouchGestureSetting"@, code),
                )
            } else {
                match (three_finger, four_finger) {
                    (Ok(three), Ok(four)) => if three == 0 && four == 0 {
                        r is Disabled
                    } else {
                        r is Enabled
                    },
                    (Err(three), Err(four)) => says_unknown(r, both_failed(three, four)),
                    (Err(three), Ok(_)) => says_unknown(
                        r,
                        read_failure("PrecisionTouchPad ThreeFingerSlideEnabled"@, three),
                    ),
                    (Ok(_), Err(four)) => says_unknown(
                        r,
                        read_failure("PrecisionTouchPad FourFingerSlideEnabled"@, four),
                    ),
                }
            },
        },
{
    match common {
        Ok(value) => {
            if value == 0 {
                return SystemTouchGestureSetting::Disabled;
            }
            if value == 1 {
                return SystemTouchGestureSetting::Enabled;
            }
            let mut text: String =
                "registry value HKCU\\Control Panel\\Desktop\\TouchGestureSetting had unexpected DWORD value ".to_owned();
            text.append(decimal_text(value as u64).as_str());
            return SystemTouchGestureSetting::Unknown(text);
        },
        Err(code) => {
            if code != ERROR_FILE_NOT_FOUND {
                return SystemTouchGestureSetting::Unknown(
                    read_failure_text("HKCU\\Control Panel\\Desktop\\TouchGestureSetting", code),
                );
            }
        },
    }
    match (three_finger, four_finger) {
        (Ok(three), Ok(four)) => if three == 0 && four == 0 {
            SystemTouchGestureSetting::Disabled
        } else {
            SystemTouchGestureSetting::Enabled
        },
        (Err(three), Err(four)) => {
            let mut text: String =
                "failed to read both PrecisionTouchPad slide flags (ThreeFingerSlideEnabled: Win32 error ".to_owned();
            text.append(decimal_text(three as u64).as_str());
            text.append(", FourFingerSlideEnabled: Win32 error ");
            text.append(decimal_text(four as u64).as_str());
            text.append(")");
            SystemTouchGestureSetting::Unknown(text)
        },
        (Err(three), Ok(_)) => SystemTouchGestureSetting::Unknown(
            read_failure_text("PrecisionTouchPad ThreeFingerSlideEnabled", three),
        ),
        (Ok(_), Err(four)) => SystemTouchGestureSetting::Unknown(
            read_failure_text("PrecisionTouchPad FourFingerSlideEnabled", four),
        ),
    }
}

/// The setting on systems that have none.
pub fn unsupported_platform_setting() -> (r: SystemTouchGestureSetting)
    ensures
        says_unknown(r, "system touch gesture setting is only implemented for Windows"@),
{
    SystemTouchGestureSetting::Unknown(
        "system touch gesture setting is only implemented for Windows".to_owned(),
    )
}

/// The state of the override as the watch loop reports it.
pub fn touchpad_watch_status(
    config: &TouchpadConfig,
    system_setting: SystemTouchGestureSetting,
    listener_running: bool,
) -> (r: &'static str)
    ensures
        r@ == (if listener_running {
            "enabled"@
        } else {
            label_of(assessment(*config, system_setting).status)
        }),
{
    if listener_running {
        "enabled"
    } else {
        assess_touchpad_override_with_system_setting(config, system_setting).summary_label()
    }
}

/// How a configuration is assessed: what was asked for and counted, and the first thing that is
/// in the way. A configuration that is no good is refused whatever the system does; a good one
/// waits for the system to give its own gestures up.
pub proof fn law_assessments_name_the_first_obstacle(
    config: TouchpadConfig,
    setting: SystemTouchGestureSetting,
)
    ensures
        ({
            let result = assessment(config, setting);
            let gestures = config.gestures@;
            let good = gestures.len() > 0 && bound(gestures) is Ok && gestures_of(
                gestures,
            ).no_duplicates();
            &&& result.requested == config.override_enabled
            &&& result.configured == gestures.len()
            &&& !config.override_enabled ==> result.status == "disabled"@ && result.detail is None
                && result.normalized == 0
            &&& config.override_enabled && !good ==> result.status == "invalid-config"@
            &&& config.override_enabled && gestures.len() == 0 ==> result.detail == Some(
                "touchpad override is enabled but no touchpad gestures are configured"@,
            )
            &&& config.override_enabled && gestures.len() > 0 ==> (bound(
                gestures,
            ) matches Err(message) ==> result.detail == Some(message))
            &&& config.override_enabled && gestures.len() > 0 && bound(gestures) is Ok
                && !gestures_of(gestures).no_duplicates() ==> result.detail == Some(
                "touchpad gesture configuration contains duplicate gesture bindings"@,
            )
            &&& config.override_enabled && good ==> {
                &&& result.normalized == gestures.len()
                &&& setting is Disabled ==> result.status == "ready"@ && result.detail is None
                &&& setting is Enabled ==> result.status == "windows-touch-gestures-enabled"@
                    && result.detail is Some
                &&& setting is Unknown ==> result.status == "windows-touch-gesture-setting-unknown"@
                    && result.detail is Some
            }
        }),
{
    if config.override_enabled && bound(config.gestures@) is Ok {
        law_duplicates_show_in_the_count(config.gestures@);
    }
}

/// An override that was asked for starts only where nothing is in its way; the label says what
/// is.
pub proof fn law_only_a_ready_override_starts(
    config: TouchpadConfig,
    setting: SystemTouchGestureSetting,
)
    ensures
        ({
            let status = assessment(config, setting).status;
            &&& blocks_startup(status) <==> config.override_enabled && status != "ready"@
            &&& label_of("ready"@) == "enabled"@
            &&& label_of("disabled"@) == "disabled"@
            &&& label_of("invalid-config"@) == "invalid-config"@
            &&& label_of("windows-touch-gestures-enabled"@) == "windows-setting-required"@
            &&& label_of("windows-touch-gesture-setting-unknown"@) == "windows-setting-unknown"@
            &&& label_of("touchpad-backend-unavailable"@) == "backend-unavailable"@
        }),
{
    lemma_statuses_differ();
    law_assessments_name_the_first_obstacle(config, setting);
    reveal_strlit("ready");
    reveal_strlit("windows-touch-gestures-enabled");
    reveal_strlit("windows-touch-gesture-setting-unknown");
    reveal_strlit("touchpad-backend-unavailable");
    assert("ready"@.len() == 5);
    assert("windows-touch-gestures-enabled"@.len() == 30);
    assert("windows-touch-gesture-setting-unknown"@.len() == 37);
    assert("touchpad-backend-unavailable"@.len() == 28);
}

/// What the registry says of the system's own gestures. The common setting decides where it
/// can be read; where it does not exist the two slide flags do, and either one keeps the
/// gestures on; whatever else could not be read is told.
pub proof fn law_the_registry_tells_the_setting(
    common: Result<u32, u32>,
    three_finger: Result<u32, u32>,
    four_finger: Result<u32, u32>,
    r: SystemTouchGestureSetting,
)
    requires
        call_ensures(read_system_touch_gesture_setting, (common, three_finger, four_finger), r),
    ensures
        common == Ok::<u32, u32>(0) ==> r is Disabled,
        common == Ok::<u32, u32>(1) ==> r is Enabled,
        common matches Ok(value) ==> (value > 1 ==> r is Unknown),
        common matches Err(code) ==> (code != 2 ==> r is Unknown),
        common == Err::<u32, u32>(2) ==> {
            &&& three_finger == Ok::<u32, u32>(0) && four_finger == Ok::<u32, u32>(0)
                ==> r is Disabled
            &&& three_finger is Ok && four_finger is Ok && (three_finger->Ok_0 != 0
                || four_finger->Ok_0 != 0) ==> r is Enabled
            &&& three_finger is Err || four_finger is Err ==> r is Unknown
            &&& three_finger is Err && four_finger is Err ==> (
            r matches SystemTouchGestureSetting::Unknown(text) && text@
                == "failed to read both PrecisionTouchPad slide flags (ThreeFingerSlideEnabled: Win32 error "@
                + decimal(three_finger->Err_0 as nat)
                + ", FourFingerSlideEnabled: Win32 error "@ + decimal(four_finger->Err_0 as nat)
                + ")"@)
        },
{
}

/// A running listener is enabled, whatever stood in its way before; else the obstacle is told.
pub proof fn law_running_listeners_are_enabled(
    config: &TouchpadConfig,
    system_setting: SystemTouchGestureSetting,
    listener_running: bool,
    r: &'static str,
)
    requires
        call_ensures(touchpad_watch_status, (config, system_setting, listener_running), r),
    ensures
        listener_running ==> r@ == "enabled"@,
        !listener_running ==> r@ == label_of(assessment(*config, system_setting).status),
{
}

} // verus!
