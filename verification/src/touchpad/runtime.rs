//! The thread that turns gestures into messages.

use crate::control::{ControlMessage, WatchCommand};
use crate::touchpad::assessment::{
    ensure_touchpad_override_supported, SystemTouchGestureSetting,
};
use crate::touchpad::bindings::{
    TouchpadBindingSet, TouchpadConfig, TouchpadGesture, TouchpadListenerError,
};
use vstd::prelude::*;

verus! {

use crate::touchpad::assessment::{assessment, blocks_startup};
use crate::touchpad::bindings::bound;

/// What reaches the gesture thread.
#[derive(Clone, Copy, Debug, PartialEq, Eq, Structural)]
pub enum TouchpadRuntimeEvent {
    Gesture(TouchpadGesture),
    Shutdown,
}

/// What the gesture thread does with an event.
#[derive(Clone, Debug, PartialEq, Eq)]
pub enum TouchpadRuntimeStep {
    Send(ControlMessage),
    Wait,
    Stop,
}

/// The gestures that the thread knows.
pub struct TouchpadGestureRuntime {
    pub bindings: TouchpadBindingSet,
}

impl TouchpadGestureRuntime {
    pub open spec fn wf(self) -> bool {
        self.bindings.wf()
    }

    pub fn new(bindings: TouchpadBindingSet) -> (r: TouchpadGestureRuntime)
        requires
            bindings.wf(),
        ensures
            r.wf(),
            r.bindings == bindings,
    {
        TouchpadGestureRuntime { bindings }
    }

    /// A bound gesture sends its command, an unbound one is ignored, a shutdown ends the
    /// thread.
    pub fn handle_event(&self, event: TouchpadRuntimeEvent) -> (r: TouchpadRuntimeStep)
        requires
            self.wf(),
        ensures
            r == (match event {
                TouchpadRuntimeEvent::Shutdown => TouchpadRuntimeStep::Stop,
                TouchpadRuntimeEvent::Gesture(gesture) => if self.bindings@.contains_key(gesture) {
                    TouchpadRuntimeStep::Send(ControlMessage::Watch(self.bindings@[gesture]))
                } else {
                    TouchpadRuntimeStep::Wait
                },
            }),
    {
        match event {
            TouchpadRuntimeEvent::Shutdown => TouchpadRuntimeStep::Stop,
            TouchpadRuntimeEvent::Gesture(gesture) => match self.bindings.command_for(gesture) {
                Some(command) => TouchpadRuntimeStep::Send(ControlMessage::Watch(command)),
                None => TouchpadRuntimeStep::Wait,
            },
        }
    }
}

/// The bindings that a listener runs with; none where the override is disabled.
pub fn plan_touchpad_listener(
    config: &TouchpadConfig,
    system_setting: SystemTouchGestureSetting,
) -> (r: Result<Option<TouchpadBindingSet>, TouchpadListenerError>)
    ensures
        match r {
            Err(error) => blocks_startup(assessment(*config, system_setting).status) && assessment(
                *config,
                system_setting,
            ).detail == Some(error.text()),
            Ok(plan) => !blocks_startup(assessment(*config, system_setting).status) && match plan {
                None => !config.override_enabled,
                Some(bindings) => config.override_enabled && bindings.wf() && bound(
                    config.gestures@,
                ) == Ok::<vstd::map::Map<TouchpadGesture, WatchCommand>, Seq<char>>(bindings@),
            },
        },
{
    match ensure_touchpad_override_supported(config, system_setting) {
        Err(error) => {
            return Err(error);
        },
        Ok(_) => {},
    }
    if !config.override_enabled {
        return Ok(None);
    }
    match TouchpadBindingSet::from_config(config) {
        Ok(bindings) => Ok(Some(bindings)),
        Err(error) => Err(error),
    }
}

/// A listener runs exactly where the override is switched on and nothing is in its way; then
/// it knows the bindings that were configured.
pub proof fn law_listeners_run_when_switched_on(
    config: &TouchpadConfig,
    system_setting: SystemTouchGestureSetting,
    r: Result<Option<TouchpadBindingSet>, TouchpadListenerError>,
)
    requires
        call_ensures(plan_touchpad_listener, (config, system_setting), r),
    ensures
        r is Err <==> blocks_startup(assessment(*config, system_setting).status),
        r matches Ok(None) ==> !config.override_enabled,
        r matches Ok(Some(bindings)) ==> config.override_enabled && bound(config.gestures@) == Ok::<
            vstd::map::Map<TouchpadGesture, WatchCommand>,
            Seq<char>,
        >(bindings@),
{
}

/// A bound gesture sends exactly its own command, an unbound one is ignored, and only a
/// shutdown ends the thread.
pub proof fn law_gestures_send_their_commands(
    runtime: &TouchpadGestureRuntime,
    event: TouchpadRuntimeEvent,
    r: TouchpadRuntimeStep,
)
    requires
        runtime.wf(),
        call_ensures(TouchpadGestureRuntime::handle_event, (runtime, event), r),
    ensures
        r is Stop <==> event is Shutdown,
        event matches TouchpadRuntimeEvent::Gesture(gesture) ==> (
        runtime.bindings@.contains_key(gesture) ==> r == TouchpadRuntimeStep::Send(
            ControlMessage::Watch(runtime.bindings@[gesture]),
        )),
        event matches TouchpadRuntimeEvent::Gesture(gesture) ==> (
        !runtime.bindings@.contains_key(gesture) ==> r is Wait),
{
}

} // verus!
