//! Touchpad gestures: their bindings, the conditions of the override and the recognition of
//! swipes in raw reports.

use flowtile_core_daemon::control::{ControlMessage, WatchCommand};
use flowtile_core_daemon::touchpad::assessment::{
    assess_touchpad_override_with_system_setting, ensure_touchpad_override_supported,
    read_system_touch_gesture_setting, touchpad_watch_status, unsupported_platform_setting,
    SystemTouchGestureSetting, TouchpadOverrideAssessment, TOUCHPAD_BACKEND_UNAVAILABLE_STATUS,
    TOUCHPAD_SYSTEM_SETTING_REQUIRED_STATUS,
};
use flowtile_core_daemon::touchpad::bindings::{
    gesture_name, ipc_command_for_touchpad_gesture, TouchpadBindingSet, TouchpadConfig,
    TouchpadGesture, TouchpadGestureBinding,
};
use flowtile_core_daemon::touchpad::recognizer::{
    centroid_for_contacts, parse_sample_touchpad_report, recognize_swipe, ParsedRawTouchpadReport,
    RawTouchContact, RawTouchPoint, RawTouchpadFrameAssembler, SwipeSession,
};
use flowtile_core_daemon::touchpad::runtime::{
    plan_touchpad_listener, TouchpadGestureRuntime, TouchpadRuntimeEvent, TouchpadRuntimeStep,
};

fn every_setting() -> Vec<SystemTouchGestureSetting> {
    vec![
        SystemTouchGestureSetting::Disabled,
        SystemTouchGestureSetting::Enabled,
        SystemTouchGestureSetting::Unknown("registry read failed".to_string()),
    ]
}

fn dispatched(runtime: &TouchpadGestureRuntime, gesture: TouchpadGesture) -> ControlMessage {
    match runtime.handle_event(TouchpadRuntimeEvent::Gesture(gesture)) {
        TouchpadRuntimeStep::Send(message) => message,
        other => panic!("the gesture should be forwarded, not {other:?}"),
    }
}

#[test]
fn disabled_touchpad_override_needs_no_runtime() {
    let config = TouchpadConfig {
        override_enabled: false,
        gestures: Vec::new(),
    };

    for setting in every_setting() {
        assert!(ensure_touchpad_override_supported(&config, setting.clone()).is_ok());
        assert!(
            plan_touchpad_listener(&config, setting)
                .expect("disabled touchpad override should not fail")
                .is_none()
        );
    }
}

#[test]
fn enabled_touchpad_override_is_ready_after_system_precondition_is_met() {
    let assessment = assess_touchpad_override_with_system_setting(
        &TouchpadConfig {
            override_enabled: true,
            gestures: vec![TouchpadGestureBinding {
                gesture: "three-finger-swipe-up".to_string(),
                command: "focus-workspace-down".to_string(),
            }],
        },
        SystemTouchGestureSetting::Disabled,
    );

    assert_eq!(assessment.status, "ready");
    assert_eq!(assessment.summary_label(), "enabled");
    assert_eq!(assessment.normalized_gesture_count, 1);
}

#[test]
fn unknown_system_setting_is_reported_as_unavailable_precondition() {
    let assessment = assess_touchpad_override_with_system_setting(
        &TouchpadConfig {
            override_enabled: true,
            gestures: vec![TouchpadGestureBinding {
                gesture: "three-finger-swipe-down".to_string(),
                command: "focus-workspace-up".to_string(),
            }],
        },
        SystemTouchGestureSetting::Unknown("registry read failed".to_string()),
    );

    assert_eq!(assessment.summary_label(), "windows-setting-unknown");
    assert!(
        assessment
            .detail
            .expect("detail should exist")
            .contains("registry read failed")
    );
}

#[test]
fn rejects_unknown_touchpad_command() {
    let config = TouchpadConfig {
        override_enabled: true,
        gestures: vec![TouchpadGestureBinding {
            gesture: "three-finger-swipe-up".to_string(),
            command: "move-column-left".to_string(),
        }],
    };

    for setting in every_setting() {
        let error = ensure_touchpad_override_supported(&config, setting)
            .expect_err("unsupported command should fail validation");
        assert!(error.message().contains("unsupported command"));
    }
}

#[test]
fn rejects_duplicate_touchpad_gesture_bindings() {
    let config = TouchpadConfig {
        override_enabled: true,
        gestures: vec![
            TouchpadGestureBinding {
                gesture: "three-finger-swipe-up".to_string(),
                command: "focus-workspace-down".to_string(),
            },
            TouchpadGestureBinding {
                gesture: "three-finger-swipe-up".to_string(),
                command: "focus-workspace-up".to_string(),
            },
        ],
    };

    for setting in every_setting() {
        let error = ensure_touchpad_override_supported(&config, setting)
            .expect_err("duplicate gesture should fail validation");
        assert!(error.message().contains("duplicate"));
    }
}

#[test]
fn summary_maps_backend_unavailable_status_to_explicit_label() {
    let assessment = assess_touchpad_override_with_system_setting(
        &TouchpadConfig {
            override_enabled: true,
            gestures: vec![TouchpadGestureBinding {
                gesture: "three-finger-swipe-down".to_string(),
                command: "focus-workspace-up".to_string(),
            }],
        },
        SystemTouchGestureSetting::Disabled,
    );

    let unavailable_assessment = TouchpadOverrideAssessment {
        requested: assessment.requested,
        configured_gesture_count: assessment.configured_gesture_count,
        normalized_gesture_count: assessment.normalized_gesture_count,
        status: TOUCHPAD_BACKEND_UNAVAILABLE_STATUS,
        detail: Some("raw input backend is unavailable".to_string()),
    };

    assert_eq!(
        unavailable_assessment.summary_label(),
        "backend-unavailable"
    );
}

#[test]
fn assessment_reports_windows_setting_required_when_system_gestures_are_still_enabled() {
    let assessment = assess_touchpad_override_with_system_setting(
        &TouchpadConfig {
            override_enabled: true,
            gestures: vec![TouchpadGestureBinding {
                gesture: "three-finger-swipe-up".to_string(),
                command: "focus-workspace-down".to_string(),
            }],
        },
        SystemTouchGestureSetting::Enabled,
    );

    assert_eq!(assessment.summary_label(), "windows-setting-required");
    assert_eq!(assessment.status, TOUCHPAD_SYSTEM_SETTING_REQUIRED_STATUS);
    assert!(
        assessment
            .detail
            .expect("detail should exist")
            .contains("Three- and four-finger touch gestures")
    );
}

#[test]
fn runtime_dispatches_workspace_swipe_into_control_channel() {
    let bindings = TouchpadBindingSet::from_config(&TouchpadConfig {
        override_enabled: true,
        gestures: vec![TouchpadGestureBinding {
            gesture: "three-finger-swipe-up".to_string(),
            command: "focus-workspace-down".to_string(),
        }],
    })
    .expect("bindings should normalize");
    let runtime = TouchpadGestureRuntime::new(bindings);

    let message = dispatched(&runtime, TouchpadGesture::ThreeFingerSwipeUp);
    assert!(matches!(
        message,
        ControlMessage::Watch(WatchCommand::FocusWorkspaceDown)
    ));
}

#[test]
fn resolves_workspace_swipe_to_existing_ipc_command() {
    let command = ipc_command_for_touchpad_gesture(
        &TouchpadConfig {
            override_enabled: true,
            gestures: vec![TouchpadGestureBinding {
                gesture: "three-finger-swipe-down".to_string(),
                command: "focus-workspace-up".to_string(),
            }],
        },
        "three-finger-swipe-down",
    )
    .expect("gesture should resolve")
    .expect("binding should exist");

    assert_eq!(command, "focus_workspace_up");
}

#[test]
fn runtime_dispatches_horizontal_window_swipe_into_control_channel() {
    let bindings = TouchpadBindingSet::from_config(&TouchpadConfig {
        override_enabled: true,
        gestures: vec![TouchpadGestureBinding {
            gesture: "three-finger-swipe-left".to_string(),
            command: "focus-next".to_string(),
        }],
    })
    .expect("bindings should normalize");
    let runtime = TouchpadGestureRuntime::new(bindings);

    let message = dispatched(&runtime, TouchpadGesture::ThreeFingerSwipeLeft);
    assert!(matches!(
        message,
        ControlMessage::Watch(WatchCommand::FocusNext)
    ));
}

#[test]
fn resolves_horizontal_window_swipe_to_existing_ipc_command() {
    let command = ipc_command_for_touchpad_gesture(
        &TouchpadConfig {
            override_enabled: true,
            gestures: vec![TouchpadGestureBinding {
                gesture: "three-finger-swipe-right".to_string(),
                command: "focus-prev".to_string(),
            }],
        },
        "three-finger-swipe-right",
    )
    .expect("gesture should resolve")
    .expect("binding should exist");

    assert_eq!(command, "focus_prev");
}

#[test]
fn four_finger_vertical_swipes_resolve_to_directional_overview_commands() {
    let config = TouchpadConfig {
        override_enabled: true,
        gestures: vec![
            TouchpadGestureBinding {
                gesture: "four-finger-swipe-up".to_string(),
                command: "open-overview".to_string(),
            },
            TouchpadGestureBinding {
                gesture: "four-finger-swipe-down".to_string(),
                command: "close-overview".to_string(),
            },
        ],
    };

    let open_command = ipc_command_for_touchpad_gesture(&config, "four-finger-swipe-up")
        .expect("up gesture should resolve")
        .expect("up gesture should be bound");
    let close_command = ipc_command_for_touchpad_gesture(&config, "four-finger-swipe-down")
        .expect("down gesture should resolve")
        .expect("down gesture should be bound");

    assert_eq!(open_command, "open_overview");
    assert_eq!(close_command, "close_overview");
}

#[test]
fn runtime_dispatches_directional_overview_gestures_into_control_channel() {
    let bindings = TouchpadBindingSet::from_config(&TouchpadConfig {
        override_enabled: true,
        gestures: vec![
            TouchpadGestureBinding {
                gesture: "four-finger-swipe-up".to_string(),
                command: "open-overview".to_string(),
            },
            TouchpadGestureBinding {
                gesture: "four-finger-swipe-down".to_string(),
                command: "close-overview".to_string(),
            },
        ],
    })
    .expect("bindings should normalize");
    let runtime = TouchpadGestureRuntime::new(bindings);

    let first = dispatched(&runtime, TouchpadGesture::FourFingerSwipeUp);
    let second = dispatched(&runtime, TouchpadGesture::FourFingerSwipeDown);
    assert!(matches!(
        first,
        ControlMessage::Watch(WatchCommand::OpenOverview)
    ));
    assert!(matches!(
        second,
        ControlMessage::Watch(WatchCommand::CloseOverview)
    ));
}

#[test]
fn parses_sample_touchpad_report_with_report_id() {
    let report = [
        0x01,
        0b0000_0111,
        0x20,
        0x03,
        0x10,
        0x02,
        0x34,
        0x12,
        0x03,
        0x00,
    ];
    let parsed = parse_sample_touchpad_report(&report).expect("sample report should parse");

    assert_eq!(
        parsed,
        ParsedRawTouchpadReport {
            scan_time: 0x1234,
            contact_count: 3,
            contact: Some(RawTouchContact {
                contact_id: 1,
                x: 0x0320,
                y: 0x0210,
            }),
        }
    );
}

#[test]
fn assembler_turns_three_finger_frames_into_swipe() {
    let mut assembler = RawTouchpadFrameAssembler::default();
    let start_contacts = [
        RawTouchContact {
            contact_id: 0,
            x: 100,
            y: 200,
        },
        RawTouchContact {
            contact_id: 1,
            x: 140,
            y: 210,
        },
        RawTouchContact {
            contact_id: 2,
            x: 180,
            y: 220,
        },
    ];
    let end_contacts = [
        RawTouchContact {
            contact_id: 0,
            x: 320,
            y: 205,
        },
        RawTouchContact {
            contact_id: 1,
            x: 360,
            y: 215,
        },
        RawTouchContact {
            contact_id: 2,
            x: 400,
            y: 225,
        },
    ];

    for contact in start_contacts {
        assert!(
            assembler
                .process_report(ParsedRawTouchpadReport {
                    scan_time: 10,
                    contact_count: 3,
                    contact: Some(contact),
                })
                .is_none()
        );
    }
    for contact in end_contacts {
        assert!(
            assembler
                .process_report(ParsedRawTouchpadReport {
                    scan_time: 11,
                    contact_count: 3,
                    contact: Some(contact),
                })
                .is_none()
        );
    }

    let gesture = assembler.process_report(ParsedRawTouchpadReport {
        scan_time: 12,
        contact_count: 0,
        contact: None,
    });

    assert_eq!(gesture, Some(TouchpadGesture::ThreeFingerSwipeRight));
}

fn config(bindings: &[(&str, &str)]) -> TouchpadConfig {
    TouchpadConfig {
        override_enabled: true,
        gestures: bindings
            .iter()
            .map(|(gesture, command)| TouchpadGestureBinding {
                gesture: gesture.to_string(),
                command: command.to_string(),
            })
            .collect(),
    }
}

const EVERY_GESTURE: [TouchpadGesture; 8] = [
    TouchpadGesture::ThreeFingerSwipeLeft,
    TouchpadGesture::ThreeFingerSwipeRight,
    TouchpadGesture::ThreeFingerSwipeUp,
    TouchpadGesture::ThreeFingerSwipeDown,
    TouchpadGesture::FourFingerSwipeLeft,
    TouchpadGesture::FourFingerSwipeRight,
    TouchpadGesture::FourFingerSwipeUp,
    TouchpadGesture::FourFingerSwipeDown,
];

#[test]
fn gesture_names_lead_back_to_their_gestures() {
    for gesture in EVERY_GESTURE {
        assert_eq!(
            TouchpadGesture::parse(gesture_name(gesture)).expect("the name is known"),
            gesture
        );
    }
    let error = TouchpadGesture::parse("two-finger-swipe-up").expect_err("the name is unknown");
    assert_eq!(
        error.message(),
        "unsupported touchpad gesture 'two-finger-swipe-up'"
    );
}

#[test]
fn the_later_of_two_bindings_of_a_gesture_stands() {
    let bindings = TouchpadBindingSet::from_config(&config(&[
        ("three-finger-swipe-up", "focus-workspace-down"),
        ("three-finger-swipe-left", "focus-next"),
        ("three-finger-swipe-up", "focus-workspace-up"),
    ]))
    .expect("every binding means something");
    assert_eq!(bindings.len(), 2);
    assert_eq!(
        bindings.command_for(TouchpadGesture::ThreeFingerSwipeUp),
        Some(WatchCommand::FocusWorkspaceUp)
    );
    assert_eq!(
        bindings.command_for(TouchpadGesture::FourFingerSwipeUp),
        None
    );
}

#[test]
fn the_first_binding_without_meaning_is_reported() {
    let error = TouchpadBindingSet::from_config(&config(&[
        ("three-finger-swipe-up", "dance"),
        ("one-finger-tap", "focus-next"),
    ]))
    .expect_err("both bindings mean nothing");
    assert_eq!(
        error.message(),
        "touchpad gesture 'three-finger-swipe-up' uses unsupported command 'dance'"
    );
}

#[test]
fn assessments_name_what_is_missing() {
    let empty = assess_touchpad_override_with_system_setting(
        &config(&[]),
        SystemTouchGestureSetting::Disabled,
    );
    assert_eq!(empty.status, "invalid-config");
    assert_eq!(
        empty.detail.as_deref(),
        Some("touchpad override is enabled but no touchpad gestures are configured")
    );

    let twice = assess_touchpad_override_with_system_setting(
        &config(&[
            ("three-finger-swipe-up", "focus-workspace-down"),
            ("three-finger-swipe-up", "focus-workspace-up"),
        ]),
        SystemTouchGestureSetting::Disabled,
    );
    assert_eq!(twice.summary_label(), "invalid-config");
    assert_eq!(twice.configured_gesture_count, 2);
    assert_eq!(twice.normalized_gesture_count, 1);
    assert_eq!(
        twice.detail.as_deref(),
        Some("touchpad gesture configuration contains duplicate gesture bindings")
    );

    let unknown = ensure_touchpad_override_supported(
        &config(&[("three-finger-swipe-up", "focus-next")]),
        SystemTouchGestureSetting::Unknown("no registry".to_string()),
    )
    .expect_err("the setting is unknown");
    assert_eq!(
        unknown.message(),
        "FlowtileWM could not verify the Windows touch gesture setting: no registry. Open \
         ms-settings:devices-touch and ensure Three- and four-finger touch gestures is Off"
    );
}

#[test]
fn registry_values_decide_the_system_setting() {
    let missing: Result<u32, u32> = Err(2);
    assert_eq!(
        read_system_touch_gesture_setting(Ok(0), Err(5), Err(5)),
        SystemTouchGestureSetting::Disabled
    );
    assert_eq!(
        read_system_touch_gesture_setting(Ok(1), Err(5), Err(5)),
        SystemTouchGestureSetting::Enabled
    );
    assert_eq!(
        read_system_touch_gesture_setting(Ok(7), Ok(0), Ok(0)),
        SystemTouchGestureSetting::Unknown(
            "registry value HKCU\\Control Panel\\Desktop\\TouchGestureSetting had unexpected \
             DWORD value 7"
                .to_string()
        )
    );
    assert_eq!(
        read_system_touch_gesture_setting(Err(5), Ok(0), Ok(0)),
        SystemTouchGestureSetting::Unknown(
            "failed to read HKCU\\Control Panel\\Desktop\\TouchGestureSetting (Win32 error 5)"
                .to_string()
        )
    );
    assert_eq!(
        read_system_touch_gesture_setting(missing, Ok(0), Ok(0)),
        SystemTouchGestureSetting::Disabled
    );
    assert_eq!(
        read_system_touch_gesture_setting(missing, Ok(0), Ok(3)),
        SystemTouchGestureSetting::Enabled
    );
    assert_eq!(
        read_system_touch_gesture_setting(missing, Err(2), Err(13)),
        SystemTouchGestureSetting::Unknown(
            "failed to read both PrecisionTouchPad slide flags (ThreeFingerSlideEnabled: Win32 \
             error 2, FourFingerSlideEnabled: Win32 error 13)"
                .to_string()
        )
    );
    assert_eq!(
        read_system_touch_gesture_setting(missing, Err(13), Ok(0)),
        SystemTouchGestureSetting::Unknown(
            "failed to read PrecisionTouchPad ThreeFingerSlideEnabled (Win32 error 13)".to_string()
        )
    );
    assert_eq!(
        read_system_touch_gesture_setting(missing, Ok(0), Err(13)),
        SystemTouchGestureSetting::Unknown(
            "failed to read PrecisionTouchPad FourFingerSlideEnabled (Win32 error 13)".to_string()
        )
    );
    assert_eq!(
        unsupported_platform_setting(),
        SystemTouchGestureSetting::Unknown(
            "system touch gesture setting is only implemented for Windows".to_string()
        )
    );
}

#[test]
fn a_running_listener_is_reported_as_enabled() {
    let wanted = config(&[("three-finger-swipe-up", "focus-next")]);
    assert_eq!(
        touchpad_watch_status(&wanted, SystemTouchGestureSetting::Enabled, true),
        "enabled"
    );
    assert_eq!(
        touchpad_watch_status(&wanted, SystemTouchGestureSetting::Enabled, false),
        "windows-setting-required"
    );
}

#[test]
fn the_gesture_thread_ignores_unbound_gestures_and_stops_when_told() {
    let runtime = TouchpadGestureRuntime::new(
        TouchpadBindingSet::from_config(&config(&[("three-finger-swipe-up", "focus-next")]))
            .expect("the binding means something"),
    );
    assert_eq!(
        runtime.handle_event(TouchpadRuntimeEvent::Gesture(
            TouchpadGesture::FourFingerSwipeUp
        )),
        TouchpadRuntimeStep::Wait
    );
    assert_eq!(
        runtime.handle_event(TouchpadRuntimeEvent::Shutdown),
        TouchpadRuntimeStep::Stop
    );
}

#[test]
fn gestures_without_a_pipe_command_are_refused() {
    let wanted = config(&[("three-finger-swipe-up", "open-terminal")]);
    match ipc_command_for_touchpad_gesture(&wanted, "three-finger-swipe-up") {
        Ok(Some(name)) => assert_eq!(WatchCommand::OpenTerminal.as_ipc_command_name(), Some(name)),
        Ok(None) => panic!("the gesture is bound"),
        Err(error) => {
            assert_eq!(WatchCommand::OpenTerminal.as_ipc_command_name(), None);
            assert_eq!(
                error.message(),
                "touchpad gesture 'three-finger-swipe-up' resolves to unsupported IPC command \
                 'open-terminal'"
            );
        }
    }
    assert_eq!(
        ipc_command_for_touchpad_gesture(&wanted, "four-finger-swipe-up").expect("known gesture"),
        None
    );
}

fn session(finger_count: usize, dx: i32, dy: i32) -> SwipeSession {
    SwipeSession {
        finger_count,
        start_centroid: RawTouchPoint { x: 500, y: 500 },
        last_centroid: RawTouchPoint {
            x: 500 + dx,
            y: 500 + dy,
        },
    }
}

#[test]
fn swipes_need_distance_and_direction() {
    assert_eq!(recognize_swipe(session(3, 119, 0)), None);
    assert_eq!(
        recognize_swipe(session(3, 120, 0)),
        Some(TouchpadGesture::ThreeFingerSwipeRight)
    );
    assert_eq!(
        recognize_swipe(session(3, 120, 80)),
        Some(TouchpadGesture::ThreeFingerSwipeRight)
    );
    assert_eq!(recognize_swipe(session(3, 120, 81)), None);
    assert_eq!(
        recognize_swipe(session(4, -200, 10)),
        Some(TouchpadGesture::FourFingerSwipeLeft)
    );
    assert_eq!(
        recognize_swipe(session(4, 0, 300)),
        Some(TouchpadGesture::FourFingerSwipeDown)
    );
    assert_eq!(
        recognize_swipe(session(3, 0, -300)),
        Some(TouchpadGesture::ThreeFingerSwipeUp)
    );
    assert_eq!(recognize_swipe(session(2, 300, 0)), None);
    assert_eq!(recognize_swipe(session(5, 300, 0)), None);
}

#[test]
fn a_movement_made_backwards_is_the_opposite_swipe() {
    assert_eq!(
        recognize_swipe(session(4, 150, 0)),
        Some(TouchpadGesture::FourFingerSwipeRight)
    );
    assert_eq!(
        recognize_swipe(session(4, -150, 0)),
        Some(TouchpadGesture::FourFingerSwipeLeft)
    );
}

#[test]
fn the_centroid_is_the_rounded_mean() {
    let contact = |x: i32, y: i32| RawTouchContact {
        contact_id: 0,
        x,
        y,
    };
    assert_eq!(
        centroid_for_contacts(&[contact(1, -1), contact(2, -2), contact(5, -5)]),
        RawTouchPoint { x: 2, y: -2 }
    );
    assert_eq!(
        centroid_for_contacts(&[
            contact(i32::MAX, i32::MIN),
            contact(i32::MAX, i32::MIN),
            contact(i32::MAX, i32::MIN),
        ]),
        RawTouchPoint {
            x: i32::MAX,
            y: i32::MIN
        }
    );
}

#[test]
fn reports_without_a_number_are_nine_bytes_long() {
    let report = [0b0000_1011, 0x01, 0x02, 0x03, 0x04, 0x05, 0x06, 0x04, 0x00];
    assert_eq!(
        parse_sample_touchpad_report(&report),
        Some(ParsedRawTouchpadReport {
            scan_time: 0x0605,
            contact_count: 4,
            contact: Some(RawTouchContact {
                contact_id: 2,
                x: 0x0201,
                y: 0x0403,
            }),
        })
    );
    assert_eq!(parse_sample_touchpad_report(&report[..8]), None);
    let lifted = [0b0000_1001, 0x01, 0x02, 0x03, 0x04, 0x05, 0x06, 0x04, 0x00];
    assert_eq!(
        parse_sample_touchpad_report(&lifted).map(|parsed| parsed.contact),
        Some(None)
    );
}

#[test]
fn a_block_of_reports_yields_the_swipes_that_it_completes() {
    let report = |id: u8, x: u16, scan: u8, count: u8| {
        vec![
            0x01,
            0b0000_0011 | (id << 2),
            (x & 0xff) as u8,
            (x >> 8) as u8,
            100,
            0,
            scan,
            0,
            count,
            0,
        ]
    };
    let mut block = Vec::new();
    for (scan, shift) in [(1, 0_u16), (2, 150)] {
        for id in 0..3_u8 {
            block.extend(report(id, 100 + u16::from(id) * 50 + shift, scan, 3));
        }
    }
    block.extend([0x01, 0, 0, 0, 0, 0, 3, 0, 0, 0]);
    let mut assembler = RawTouchpadFrameAssembler::default();
    assert_eq!(
        assembler.process_raw_reports(&block, 10),
        vec![TouchpadGesture::ThreeFingerSwipeRight]
    );
    assert!(assembler.contacts.is_empty());
    assert_eq!(assembler.active_scan_time, None);
}

#[test]
fn a_contact_that_is_reported_twice_counts_once() {
    let mut assembler = RawTouchpadFrameAssembler::default();
    for x in [10, 20] {
        assert_eq!(
            assembler.process_report(ParsedRawTouchpadReport {
                scan_time: 1,
                contact_count: 3,
                contact: Some(RawTouchContact {
                    contact_id: 1,
                    x,
                    y: 0
                }),
            }),
            None
        );
    }
    assert_eq!(assembler.contacts.len(), 1);
    assert_eq!(assembler.contacts[0].x, 20);
}
