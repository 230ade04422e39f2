//! The plain keyboard hook, which never holds a key back.

use crate::control::WatchCommand;
use crate::hotkeys::keys::{active_modifier_mask, is_key_down_message, is_keyboard_message};
use crate::hotkeys::low_level::ActiveLowLevelTrigger;
use crate::hotkeys::registration::{find_by_key_and_modifiers, NativeHotkeyRegistration};
use std::collections::HashSet;
use vstd::prelude::*;

verus! {

use crate::hotkeys::keys::{key_down, key_up, modifiers};
use crate::hotkeys::laws::{is_first_for, law_the_first_registration_counts};
use crate::hotkeys::low_level::{trigger_of, DecisionView, KeyboardView};
use crate::hotkeys::registration::{first_registration, lemma_first_registration};

/// What the hook does with one keyboard event.
#[derive(Clone, Copy, Debug, PartialEq, Eq, Structural)]
pub struct HookDecision {
    pub command: Option<WatchCommand>,
    pub suppress: bool,
}

impl Default for HookDecision {
    fn default() -> (r: HookDecision)
        ensures
            r == HookDecision::passed(),
    {
        HookDecision { command: None, suppress: false }
    }
}

impl HookDecision {
    pub open spec fn passed() -> HookDecision {
        HookDecision { command: None, suppress: false }
    }

    pub open spec fn swallowed() -> HookDecision {
        HookDecision { command: None, suppress: true }
    }

    pub open spec fn fired(command: WatchCommand) -> HookDecision {
        HookDecision { command: Some(command), suppress: true }
    }
}

/// The keyboard as the hook sees it.
pub struct LowLevelHotkeyState {
    pub fallback_registrations: Vec<NativeHotkeyRegistration>,
    pub pressed_keys: HashSet<u32>,
    pub active_trigger: Option<ActiveLowLevelTrigger>,
}

pub ghost struct PlainView {
    pub registrations: Seq<NativeHotkeyRegistration>,
    pub pressed: Set<u32>,
    pub active: Option<ActiveLowLevelTrigger>,
}

impl View for LowLevelHotkeyState {
    type V = PlainView;

    open spec fn view(&self) -> PlainView {
        PlainView {
            registrations: self.fallback_registrations@,
            pressed: self.pressed_keys@,
            active: self.active_trigger,
        }
    }
}

impl PlainView {
    /// A key goes down: the first press of a bound chord fires it, and every press of the
    /// key of a chord that is still held is swallowed.
    pub open spec fn after_down(self, vk: u32) -> (PlainView, HookDecision) {
        let now = PlainView { pressed: self.pressed.insert(vk), ..self };
        let bound = first_registration(self.registrations, vk, modifiers(now.pressed));
        if self.active is Some && self.active->0.primary_key == vk {
            (now, HookDecision::swallowed())
        } else if !self.pressed.contains(vk) && bound is Some {
            (
                PlainView { active: Some(trigger_of(bound->0)), ..now },
                HookDecision::fired(bound->0.command),
            )
        } else {
            (now, HookDecision::passed())
        }
    }

    /// A key goes up: the release of the key of a held chord is swallowed, and the chord
    /// ends with its key or with one of its modifiers.
    pub open spec fn after_up(self, vk: u32) -> (PlainView, HookDecision) {
        let pressed = self.pressed.remove(vk);
        (
            PlainView {
                pressed,
                active: if self.active is Some && (!pressed.contains(self.active->0.primary_key)
                    || modifiers(pressed) & self.active->0.required_modifiers
                    != self.active->0.required_modifiers) {
                    None
                } else {
                    self.active
                },
                ..self
            },
            HookDecision {
                command: None,
                suppress: self.active is Some && self.active->0.primary_key == vk,
            },
        )
    }

    pub open spec fn after(self, vk: u32, message: u32, injected: bool) -> (
        PlainView,
        HookDecision,
    ) {
        if injected {
            (self, HookDecision::passed())
        } else if key_down(message) {
            self.after_down(vk)
        } else if key_up(message) {
            self.after_up(vk)
        } else {
            (self, HookDecision::passed())
        }
    }
}

impl LowLevelHotkeyState {
    pub fn new(fallback_registrations: Vec<NativeHotkeyRegistration>) -> (r: LowLevelHotkeyState)
        ensures
            r@ == (PlainView {
                registrations: fallback_registrations@,
                pressed: Set::empty(),
                active: None,
            }),
    {
        LowLevelHotkeyState {
            fallback_registrations,
            pressed_keys: HashSet::new(),
            active_trigger: None,
        }
    }

    /// Takes one keyboard event and says what becomes of it.
    pub fn handle_key_event(&mut self, vk: u32, message: u32, injected: bool) -> (r: HookDecision)
        ensures
            (final(self)@, r) == old(self)@.after(vk, message, injected),
    {
        broadcast use vstd::std_specs::hash::group_hash_axioms;

        if injected || !is_keyboard_message(message) {
            return HookDecision { command: None, suppress: false };
        }
        let is_active_key: bool = match &self.active_trigger {
            Some(active) => active.primary_key == vk,
            None => false,
        };
        if is_key_down_message(message) {
            let inserted: bool = self.pressed_keys.insert(vk);
            if is_active_key {
                return HookDecision { command: None, suppress: true };
            }
            if inserted {
                let mask: u32 = active_modifier_mask(&self.pressed_keys);
                proof {
                    lemma_first_registration(self@.registrations, vk, mask);
                }
                let command: Option<WatchCommand> = match find_by_key_and_modifiers(
                    &self.fallback_registrations,
                    vk,
                    mask,
                ) {
                    Some(registration) => Some(registration.command),
                    None => None,
                };
                if let Some(command) = command {
                    self.active_trigger = Some(
                        ActiveLowLevelTrigger {
                            command,
                            primary_key: vk,
                            required_modifiers: mask,
                            repeat_while_held: command.repeats_while_held(),
                        },
                    );
                    return HookDecision { command: Some(command), suppress: true };
                }
            }
            HookDecision { command: None, suppress: false }
        } else {
            self.pressed_keys.remove(&vk);
            let ended: bool = match &self.active_trigger {
                Some(active) => !self.pressed_keys.contains(&active.primary_key) || (
                active_modifier_mask(&self.pressed_keys) & active.required_modifiers)
                    != active.required_modifiers,
                None => false,
            };
            if ended {
                self.active_trigger = None;
            }
            HookDecision { command: None, suppress: is_active_key }
        }
    }

    /// The command that repeats as long as the keyboard stays as it is.
    pub fn repeat_command_while_held(&self) -> (r: Option<WatchCommand>)
        ensures
            r == (match self@.active {
                Some(active) => if active.repeat_while_held {
                    Some(active.command)
                } else {
                    None
                },
                None => None,
            }),
    {
        match &self.active_trigger {
            Some(active) => if active.repeat_while_held {
                Some(active.command)
            } else {
                None
            },
            None => None,
        }
    }
}

/// What the plain hook keeps of the keyboard of the hook that can hold keys back.
pub open spec fn plain_part(keyboard: KeyboardView) -> PlainView {
    PlainView {
        registrations: keyboard.registrations,
        pressed: keyboard.pressed,
        active: keyboard.active,
    }
}

/// Nothing is held back and no key is marked.
pub open spec fn nothing_held_back(keyboard: KeyboardView) -> bool {
    keyboard.pending is None && keyboard.held == Set::<u32>::empty() && keyboard.releases == Set::<
        u32,
    >::empty()
}

/// Without a binding of the Windows key alone both hooks decide alike on every event, and
/// nothing is ever held back.
pub proof fn law_hooks_agree_without_pure_win_bindings(
    keyboard: KeyboardView,
    vk: u32,
    message: u32,
    injected: bool,
)
    requires
        !keyboard.has_pure_win_binding(),
        nothing_held_back(keyboard),
    ensures
        ({
            let (next, decision) = keyboard.after(vk, message, injected);
            let (plain_next, plain_decision) = plain_part(keyboard).after(vk, message, injected);
            &&& plain_part(next) == plain_next
            &&& nothing_held_back(next)
            &&& !next.has_pure_win_binding()
            &&& decision == (DecisionView {
                command: plain_decision.command,
                suppress: plain_decision.suppress,
                replay: None,
            })
        }),
{
    let (next, decision) = keyboard.after(vk, message, injected);
    assert(next.held =~= Set::empty());
    assert(next.releases =~= Set::empty());
}

/// A chord that does not repeat fires once, however often its press is reported while the
/// key is held.
pub proof fn law_held_chord_fires_once(keyboard: PlainView, vk: u32)
    requires
        keyboard.after_down(vk).1.command is Some,
    ensures
        keyboard.after_down(vk).0.after_down(vk).1 == HookDecision::swallowed(),
        keyboard.after_down(vk).0.after_down(vk).0.active == keyboard.after_down(vk).0.active,
        keyboard.after_down(vk).0.after_up(vk).1.suppress,
        keyboard.after_down(vk).0.after_up(vk).0.active is None,
{
    lemma_first_registration(
        keyboard.registrations,
        vk,
        modifiers(keyboard.pressed.insert(vk)),
    );
}

/// The first press of a bound chord fires its command and the chord counts as held; a press of
/// the key of a held chord is swallowed; every other press goes on.
pub proof fn law_plain_presses(keyboard: PlainView, vk: u32, message: u32, i: int)
    requires
        message == 0x100 || message == 0x104,
    ensures
        ({
            let (next, decision) = keyboard.after(vk, message, false);
            let mask = modifiers(keyboard.pressed.insert(vk));
            let of_chord = keyboard.active matches Some(active) && active.primary_key == vk;
            let unbound = forall|j: int|
                0 <= j < keyboard.registrations.len() ==> (
                #[trigger] keyboard.registrations[j]).key != vk
                    || keyboard.registrations[j].required_modifiers != mask;
            &&& next.pressed == keyboard.pressed.insert(vk)
            &&& next.registrations == keyboard.registrations
            &&& of_chord ==> decision.suppress && decision.command is None && next.active
                == keyboard.active
            &&& !of_chord && !keyboard.pressed.contains(vk) && is_first_for(
                keyboard.registrations,
                i,
                vk,
                mask,
            ) ==> decision.suppress && decision.command == Some(keyboard.registrations[i].command)
                && (next.active matches Some(active) && active.command
                == keyboard.registrations[i].command && active.primary_key == vk
                && active.required_modifiers == mask && (active.repeat_while_held
                <==> active.command == WatchCommand::ScrollLeft || active.command
                == WatchCommand::ScrollRight))
            &&& !of_chord && (keyboard.pressed.contains(vk) || unbound) ==> !decision.suppress
                && decision.command is None && next.active == keyboard.active
        }),
{
    law_the_first_registration_counts(
        keyboard.registrations,
        i,
        vk,
        modifiers(keyboard.pressed.insert(vk)),
    );
}

/// A release is swallowed where its key is that of the held chord; the chord ends with its key or
/// with one of its modifiers. A synthesised event, and one that reports no key, goes on and
/// changes nothing.
pub proof fn law_plain_releases(keyboard: PlainView, vk: u32, message: u32)
    ensures
        ({
            let (next, decision) = keyboard.after(vk, 0x101, false);
            &&& decision.command is None
            &&& decision.suppress <==> (keyboard.active matches Some(active) && active.primary_key
                == vk)
            &&& next.pressed == keyboard.pressed.remove(vk)
            &&& next.registrations == keyboard.registrations
            &&& next.active is Some <==> (keyboard.active matches Some(active)
                && next.pressed.contains(active.primary_key) && modifiers(next.pressed)
                & active.required_modifiers == active.required_modifiers)
            &&& next.active is Some ==> next.active == keyboard.active
            &&& keyboard.after(vk, 0x105, false) == (next, decision)
        }),
        ({
            let (next, decision) = keyboard.after(vk, message, true);
            next == keyboard && !decision.suppress && decision.command is None
        }),
        message != 0x100 && message != 0x101 && message != 0x104 && message != 0x105 ==> ({
            let (next, decision) = keyboard.after(vk, message, false);
            next == keyboard && !decision.suppress && decision.command is None
        }),
{
}

/// A command is repeated exactly while its chord is held and it is one that repeats.
pub proof fn law_only_repeating_chords_repeat(
    state: &LowLevelHotkeyState,
    r: Option<WatchCommand>,
)
    requires
        call_ensures(LowLevelHotkeyState::repeat_command_while_held, (state,), r),
    ensures
        state@.active is None ==> r is None,
        state@.active matches Some(active) ==> (r is Some <==> active.repeat_while_held),
        state@.active matches Some(active) ==> (r matches Some(command) ==> command
            == active.command),
{
}

} // verus!
