//! The low-level keyboard hook: chords on a pending Windows key.
//!
//! While bindings exist that need the Windows key alone, its press is held back until it
//! is known what it belongs to. A bound chord fires and swallows every key of itself; any
//! other chord is played back to the shell as if it had never been held back.

use crate::control::WatchCommand;
use crate::hotkeys::keys::{
    active_modifier_mask, is_alt_vk, is_control_vk, is_key_down_message, is_keyboard_message,
    is_shift_vk, is_win_vk, MOD_WIN, VK_CONTROL, VK_LCONTROL, VK_LMENU, VK_LSHIFT, VK_MENU,
    VK_RCONTROL, VK_RMENU, VK_RSHIFT, VK_SHIFT,
};
use crate::hotkeys::registration::{find_by_key_and_modifiers, NativeHotkeyRegistration};
use std::collections::HashSet;
use vstd::prelude::*;

verus! {

use crate::hotkeys::keys::{alt_key, control_key, key_down, key_up, modifiers, shift_key, win_key};
use crate::hotkeys::registration::first_registration;

/// The key that opens the start menu's search when it follows the Windows key.
pub const START_MENU_TRANSFER_KEY: u32 = 0x53;

/// The key that locks the session when it follows the Windows key.
pub const LOCK_WORKSTATION_KEY: u32 = 0x4c;

/// A chord that fired and whose key is still down.
#[derive(Clone, Copy, Debug, PartialEq, Eq, Structural)]
pub struct ActiveLowLevelTrigger {
    pub command: WatchCommand,
    pub primary_key: u32,
    pub required_modifiers: u32,
    pub repeat_while_held: bool,
}

/// A press of the Windows key that is held back.
#[derive(Clone, Copy, Debug, PartialEq, Eq, Structural)]
pub struct PendingWinPrefix {
    pub win_vk: u32,
}

/// What is played back to the shell.
#[derive(Clone, Debug, PartialEq, Eq)]
pub enum ReplayAction {
    LockWorkstation,
    WinTap { win_vk: u32 },
    ReplayWinChord { win_vk: u32, modifier_vks: Vec<u32>, key_vk: u32 },
}

/// What the hook does with one keyboard event.
#[derive(Clone, Debug, PartialEq, Eq)]
pub struct HookDecision {
    pub command: Option<WatchCommand>,
    pub suppress: bool,
    pub replay: Option<ReplayAction>,
}

pub ghost enum ReplayView {
    LockWorkstation,
    WinTap { win_vk: u32 },
    ReplayWinChord { win_vk: u32, modifier_vks: Seq<u32>, key_vk: u32 },
}

pub ghost struct DecisionView {
    pub command: Option<WatchCommand>,
    pub suppress: bool,
    pub replay: Option<ReplayView>,
}

impl View for ReplayAction {
    type V = ReplayView;

    open spec fn view(&self) -> ReplayView {
        match *self {
            ReplayAction::LockWorkstation => ReplayView::LockWorkstation,
            ReplayAction::WinTap { win_vk } => ReplayView::WinTap { win_vk },
            ReplayAction::ReplayWinChord { win_vk, modifier_vks, key_vk } =>
                ReplayView::ReplayWinChord { win_vk, modifier_vks: modifier_vks@, key_vk },
        }
    }
}

impl View for HookDecision {
    type V = DecisionView;

    open spec fn view(&self) -> DecisionView {
        DecisionView {
            command: self.command,
            suppress: self.suppress,
            replay: match self.replay {
                Some(action) => Some(action@),
                None => None,
            },
        }
    }
}

impl DecisionView {
    /// The event goes on to the rest of the system.
    pub open spec fn passed() -> DecisionView {
        DecisionView { command: None, suppress: false, replay: None }
    }

    /// The event is kept from the rest of the system.
    pub open spec fn swallowed() -> DecisionView {
        DecisionView { command: None, suppress: true, replay: None }
    }

    /// The event is swallowed and its chord fires a command.
    pub open spec fn fired(command: WatchCommand) -> DecisionView {
        DecisionView { command: Some(command), suppress: true, replay: None }
    }

    /// The event is swallowed and something is played back in its place.
    pub open spec fn replayed(action: ReplayView) -> DecisionView {
        DecisionView { command: None, suppress: true, replay: Some(action) }
    }
}

impl HookDecision {
    fn swallowed() -> (r: HookDecision)
        ensures
            r@ == DecisionView::swallowed(),
    {
        HookDecision { command: None, suppress: true, replay: None }
    }

    fn fired(command: WatchCommand) -> (r: HookDecision)
        ensures
            r@ == DecisionView::fired(command),
    {
        HookDecision { command: Some(command), suppress: true, replay: None }
    }

    fn replayed(action: ReplayAction) -> (r: HookDecision)
        ensures
            r@ == DecisionView::replayed(action@),
    {
        HookDecision { command: None, suppress: true, replay: Some(action) }
    }
}

impl Default for HookDecision {
    fn default() -> (r: HookDecision)
        ensures
            r@ == DecisionView::passed(),
    {
        HookDecision { command: None, suppress: false, replay: None }
    }
}

pub open spec fn pending_modifier(vk: u32) -> bool {
    shift_key(vk) || control_key(vk) || alt_key(vk)
}

pub fn is_pending_modifier_vk(vk: u32) -> (r: bool)
    ensures
        r == pending_modifier(vk),
{
    is_shift_vk(vk) || is_control_vk(vk) || is_alt_vk(vk)
}

pub fn is_start_menu_transfer_key(vk: u32) -> (r: bool)
    ensures
        r == (vk == START_MENU_TRANSFER_KEY),
{
    vk == START_MENU_TRANSFER_KEY
}

pub fn is_lock_workstation_key(vk: u32) -> (r: bool)
    ensures
        r == (vk == LOCK_WORKSTATION_KEY),
{
    vk == LOCK_WORKSTATION_KEY
}

/// Every modifier key that may be pressed between the Windows key and the last key of a
/// chord, in ascending order.
pub open spec fn modifier_keys() -> Seq<u32> {
    seq![
        VK_SHIFT,
        VK_CONTROL,
        VK_MENU,
        VK_LSHIFT,
        VK_RSHIFT,
        VK_LCONTROL,
        VK_RCONTROL,
        VK_LMENU,
        VK_RMENU,
    ]
}

/// The pressed modifier keys other than `win_vk`, in ascending order.
pub open spec fn pressed_modifiers(pressed: Set<u32>, win_vk: u32) -> Seq<u32> {
    modifier_keys().filter(pressed_beside(pressed, win_vk))
}

pub open spec fn pressed_beside(pressed: Set<u32>, win_vk: u32) -> spec_fn(u32) -> bool {
    |key: u32| pressed.contains(key) && key != win_vk
}

fn modifier_key(index: usize) -> (r: u32)
    requires
        index < 9,
    ensures
        r == modifier_keys()[index as int],
{
    if index == 0 {
        VK_SHIFT
    } else if index == 1 {
        VK_CONTROL
    } else if index == 2 {
        VK_MENU
    } else if index == 3 {
        VK_LSHIFT
    } else if index == 4 {
        VK_RSHIFT
    } else if index == 5 {
        VK_LCONTROL
    } else if index == 6 {
        VK_RCONTROL
    } else if index == 7 {
        VK_LMENU
    } else {
        VK_RMENU
    }
}

/// Lists the pressed modifier keys other than the Windows key, in ascending order.
pub fn pending_modifier_vks(pressed_keys: &HashSet<u32>, win_vk: u32) -> (r: Vec<u32>)
    ensures
        r@ == pressed_modifiers(pressed_keys@, win_vk),
{
    broadcast use vstd::std_specs::hash::group_hash_axioms;

    let ghost keep = pressed_beside(pressed_keys@, win_vk);
    let mut found: Vec<u32> = Vec::new();
    let mut i: usize = 0;
    proof {
        reveal(Seq::filter);
        assert(modifier_keys().take(0) =~= Seq::empty());
    }
    while i < 9
        invariant
            i <= 9,
            keep == pressed_beside(pressed_keys@, win_vk),
            found@ == modifier_keys().take(i as int).filter(keep),
        decreases 9 - i,
    {
        let key: u32 = modifier_key(i);
        proof {
            let next = modifier_keys().take(i + 1);
            assert(next.drop_last() =~= modifier_keys().take(i as int));
            assert(next.last() == key);
            reveal(Seq::filter);
        }
        if key != win_vk && pressed_keys.contains(&key) {
            found.push(key);
        }
        i = i + 1;
    }
    assert(modifier_keys().take(9) =~= modifier_keys());
    found
}

/// Keys whose next release is swallowed once a chord on `win_vk` has been settled.
pub open spec fn settled_releases(pressed: Set<u32>, win_vk: u32) -> Set<u32> {
    Set::new(|key: u32| key == win_vk || (pressed.contains(key) && pending_modifier(key)))
}

/// The keyboard as the hook sees it.
pub struct LowLevelHotkeyState {
    pub fallback_registrations: Vec<NativeHotkeyRegistration>,
    pub pressed_keys: HashSet<u32>,
    pub active_trigger: Option<ActiveLowLevelTrigger>,
    pub pending_win_prefix: Option<PendingWinPrefix>,
    pub suppressed_held_keys: HashSet<u32>,
    pub suppressed_key_releases: HashSet<u32>,
    /// Whether a Windows key is held, as far as any hook of the process has seen.
    pub super_held: bool,
}

pub ghost struct KeyboardView {
    pub registrations: Seq<NativeHotkeyRegistration>,
    pub pressed: Set<u32>,
    pub active: Option<ActiveLowLevelTrigger>,
    pub pending: Option<PendingWinPrefix>,
    pub held: Set<u32>,
    pub releases: Set<u32>,
    pub super_held: bool,
}

impl View for LowLevelHotkeyState {
    type V = KeyboardView;

    open spec fn view(&self) -> KeyboardView {
        KeyboardView {
            registrations: self.fallback_registrations@,
            pressed: self.pressed_keys@,
            active: self.active_trigger,
            pending: self.pending_win_prefix,
            held: self.suppressed_held_keys@,
            releases: self.suppressed_key_releases@,
            super_held: self.super_held,
        }
    }
}

pub open spec fn trigger_of(registration: NativeHotkeyRegistration) -> ActiveLowLevelTrigger {
    ActiveLowLevelTrigger {
        command: registration.command,
        primary_key: registration.key,
        required_modifiers: registration.required_modifiers,
        repeat_while_held: registration.command.repeats(),
    }
}

impl KeyboardView {
    /// A keyboard on which no key is down.
    pub open spec fn idle(registrations: Seq<NativeHotkeyRegistration>) -> KeyboardView {
        KeyboardView {
            registrations,
            pressed: Set::empty(),
            active: None,
            pending: None,
            held: Set::empty(),
            releases: Set::empty(),
            super_held: false,
        }
    }

    /// The keyboard of a hook that has just been made: it has seen no key go down, and of the
    /// Windows keys it knows what the process knows.
    pub open spec fn fresh(
        registrations: Seq<NativeHotkeyRegistration>,
        super_held: bool,
    ) -> KeyboardView {
        KeyboardView { super_held, ..KeyboardView::idle(registrations) }
    }

    pub open spec fn has_pure_win_binding(self) -> bool {
        exists|i: int|
            0 <= i < self.registrations.len() && (#[trigger] self.registrations[i]).required_modifiers
                == MOD_WIN
    }

    /// What holds of the keyboard between any two events.
    pub open spec fn wf(self) -> bool {
        &&& self.pending matches Some(p) ==> win_key(p.win_vk) && self.pressed.contains(p.win_vk)
            && self.active is None
        &&& self.active matches Some(t) ==> self.pressed.contains(t.primary_key) && modifiers(
            self.pressed,
        ) & t.required_modifiers == t.required_modifiers
    }

    /// A key goes down while a press of the Windows key is held back. `self` already counts
    /// the key as pressed.
    pub open spec fn after_down_on_pending(self, win_vk: u32, vk: u32) -> (
        KeyboardView,
        DecisionView,
    ) {
        let mask = modifiers(self.pressed);
        let settled = self.releases.union(settled_releases(self.pressed, win_vk));
        if vk == win_vk || win_key(vk) || pending_modifier(vk) {
            (self, DecisionView::swallowed())
        } else if first_registration(self.registrations, vk, mask) is Some {
            let registration = first_registration(self.registrations, vk, mask)->0;
            (
                KeyboardView {
                    pending: None,
                    active: Some(trigger_of(registration)),
                    releases: settled,
                    ..self
                },
                DecisionView::fired(registration.command),
            )
        } else if mask == MOD_WIN && vk == START_MENU_TRANSFER_KEY {
            (
                KeyboardView {
                    pending: None,
                    held: self.held.insert(vk),
                    releases: self.releases.insert(vk).insert(win_vk),
                    ..self
                },
                DecisionView::replayed(ReplayView::WinTap { win_vk }),
            )
        } else if mask == MOD_WIN && vk == LOCK_WORKSTATION_KEY {
            (
                KeyboardView::idle(self.registrations),
                DecisionView::replayed(ReplayView::LockWorkstation),
            )
        } else {
            (
                KeyboardView {
                    pending: None,
                    held: self.held.insert(vk),
                    releases: settled.insert(vk),
                    ..self
                },
                DecisionView::replayed(
                    ReplayView::ReplayWinChord {
                        win_vk,
                        modifier_vks: pressed_modifiers(self.pressed, win_vk),
                        key_vk: vk,
                    },
                ),
            )
        }
    }

    /// Whether a first press of `vk` is held back. `self` already counts it as pressed.
    pub open spec fn holds_back(self, vk: u32) -> bool {
        &&& win_key(vk)
        &&& self.has_pure_win_binding()
        &&& modifiers(self.pressed) == MOD_WIN
        &&& self.active is None
    }

    /// A key goes down.
    pub open spec fn after_down(self, vk: u32) -> (KeyboardView, DecisionView) {
        let first_press = !self.pressed.contains(vk);
        let now = KeyboardView {
            pressed: self.pressed.insert(vk),
            super_held: self.super_held || win_key(vk),
            ..self
        };
        let bound = first_registration(self.registrations, vk, modifiers(now.pressed));
        if self.pending is Some {
            now.after_down_on_pending(self.pending->0.win_vk, vk)
        } else if first_press && now.holds_back(vk) {
            (
                KeyboardView { pending: Some(PendingWinPrefix { win_vk: vk }), ..now },
                DecisionView::swallowed(),
            )
        } else if !first_press && self.held.contains(vk) {
            (now, DecisionView::swallowed())
        } else if self.active is Some && self.active->0.primary_key == vk {
            (now, DecisionView::swallowed())
        } else if first_press && bound is Some {
            (
                KeyboardView { active: Some(trigger_of(bound->0)), ..now },
                DecisionView::fired(bound->0.command),
            )
        } else {
            (now, DecisionView::passed())
        }
    }

    /// Whether the release of `vk` belongs to the held-back Windows key or its modifiers.
    pub open spec fn release_is_pending(self, vk: u32) -> bool {
        self.pending is Some && (self.pending->0.win_vk == vk || pending_modifier(vk))
    }

    /// A key goes up.
    pub open spec fn after_up(self, vk: u32) -> (KeyboardView, DecisionView) {
        let is_active_key = self.active is Some && self.active->0.primary_key == vk;
        let pressed = self.pressed.remove(vk);
        (
            KeyboardView {
                pressed,
                pending: if self.pending is Some && self.pending->0.win_vk == vk {
                    None
                } else {
                    self.pending
                },
                held: if is_active_key {
                    self.held
                } else {
                    self.held.remove(vk)
                },
                releases: if is_active_key || self.held.contains(vk) {
                    self.releases
                } else {
                    self.releases.remove(vk)
                },
                active: if self.active is Some && (!pressed.contains(self.active->0.primary_key)
                    || modifiers(pressed) & self.active->0.required_modifiers
                    != self.active->0.required_modifiers) {
                    None
                } else {
                    self.active
                },
                super_held: self.super_held && !win_key(vk),
                ..self
            },
            DecisionView {
                command: None,
                suppress: self.release_is_pending(vk) || is_active_key || self.held.contains(vk)
                    || self.releases.contains(vk),
                replay: None,
            },
        )
    }

    /// One keyboard event.
    pub open spec fn after(self, vk: u32, message: u32, injected: bool) -> (
        KeyboardView,
        DecisionView,
    ) {
        if injected {
            (self, DecisionView::passed())
        } else if key_down(message) {
            self.after_down(vk)
        } else if key_up(message) {
            self.after_up(vk)
        } else {
            (self, DecisionView::passed())
        }
    }
}

impl LowLevelHotkeyState {
    /// The keyboard of the first hook of the process, before which no Windows key is held.
    pub fn new(fallback_registrations: Vec<NativeHotkeyRegistration>) -> (r: LowLevelHotkeyState)
        ensures
            r@ == KeyboardView::idle(fallback_registrations@),
            r@.wf(),
    {
        LowLevelHotkeyState {
            fallback_registrations,
            pressed_keys: HashSet::new(),
            active_trigger: None,
            pending_win_prefix: None,
            suppressed_held_keys: HashSet::new(),
            suppressed_key_releases: HashSet::new(),
            super_held: false,
        }
    }

    /// The keyboard of a later hook. Whether a Windows key is held is known to the process, so
    /// it outlives the hook that saw the key and is handed over.
    pub fn with_super_held(
        fallback_registrations: Vec<NativeHotkeyRegistration>,
        super_held: bool,
    ) -> (r: LowLevelHotkeyState)
        ensures
            r@ == KeyboardView::fresh(fallback_registrations@, super_held),
            r@.wf(),
    {
        let mut state: LowLevelHotkeyState = LowLevelHotkeyState::new(fallback_registrations);
        state.super_held = super_held;
        state
    }

    /// Takes over what other hooks of the process have seen of the Windows keys.
    pub fn carry_super_held(&mut self, super_held: bool)
        ensures
            final(self)@ == (KeyboardView { super_held, ..old(self)@ }),
            old(self)@.wf() ==> final(self)@.wf(),
    {
        self.super_held = super_held;
    }

    /// Takes one keyboard event and says what becomes of it.
    pub fn handle_key_event(&mut self, vk: u32, message: u32, injected: bool) -> (r: HookDecision)
        ensures
            (final(self)@, r@) == old(self)@.after(vk, message, injected),
            old(self)@.wf() ==> final(self)@.wf(),
    {
        proof {
            lemma_wf_kept(old(self)@, vk, message, injected);
        }
        broadcast use vstd::std_specs::hash::group_hash_axioms;

        if injected || !is_keyboard_message(message) {
            return HookDecision::default();
        }
        if is_win_vk(vk) {
            self.super_held = is_key_down_message(message);
        }
        if is_key_down_message(message) {
            let inserted: bool = self.pressed_keys.insert(vk);
            let ghost now = self@;
            if let Some(decision) = self.handle_pending_win_key_down(vk, inserted) {
                return decision;
            }
            if !inserted && self.suppressed_held_keys.contains(&vk) {
                return HookDecision::swallowed();
            }
            if let Some(active) = &self.active_trigger {
                if active.primary_key == vk {
                    return HookDecision::swallowed();
                }
            }
            if inserted {
                let mask: u32 = active_modifier_mask(&self.pressed_keys);
                let command: Option<WatchCommand> = match self.find_registration(vk, mask) {
                    Some(registration) => Some(registration.command),
                    None => None,
                };
                if let Some(command) = command {
                    self.active_trigger = Some(
                        ActiveLowLevelTrigger {
                            command,
                            primary_key: vk,
                            required_modifiers: mask,
                            repeat_while_held: command.repeats_while_held(),
                        },
                    );
                    return HookDecision::fired(command);
                }
            }
            HookDecision::default()
        } else {
            let belongs_to_pending: bool = self.handle_pending_win_key_up(vk).is_some();
            let is_active_key: bool = match &self.active_trigger {
                Some(active) => active.primary_key == vk,
                None => false,
            };
            let suppress: bool = is_active_key || self.suppressed_held_keys.remove(&vk)
                || self.suppressed_key_releases.remove(&vk);
            self.pressed_keys.remove(&vk);
            let released: bool = match &self.active_trigger {
                Some(active) => !self.pressed_keys.contains(&active.primary_key) || (
                active_modifier_mask(&self.pressed_keys) & active.required_modifiers)
                    != active.required_modifiers,
                None => false,
            };
            if released {
                self.active_trigger = None;
            }
            HookDecision { command: None, suppress: belongs_to_pending || suppress, replay: None }
        }
    }

    /// Forgets every key.
    pub fn reset(&mut self)
        ensures
            final(self)@ == KeyboardView::idle(old(self)@.registrations),
    {
        self.pressed_keys.clear();
        self.active_trigger = None;
        self.pending_win_prefix = None;
        self.suppressed_held_keys.clear();
        self.suppressed_key_releases.clear();
        self.super_held = false;
    }

    /// The command that repeats as long as the keyboard stays as it is.
    pub fn repeat_command_while_held(&self) -> (r: Option<WatchCommand>)
        ensures
            r == (match self@.active {
                Some(active) => if active.repeat_while_held {
                    Some(active.command)
                } else {
                    None
                },
                None => None,
            }),
    {
        match &self.active_trigger {
            Some(active) => if active.repeat_while_held {
                Some(active.command)
            } else {
                None
            },
            None => None,
        }
    }

    /// The part of a key press that concerns a held-back Windows key; `None` where the press
    /// does not. The key already counts as pressed.
    pub fn handle_pending_win_key_down(&mut self, vk: u32, inserted: bool) -> (r: Option<
        HookDecision,
    >)
        ensures
            match r {
                Some(decision) => if old(self)@.pending is Some {
                    (final(self)@, decision@) == old(self)@.after_down_on_pending(
                        old(self)@.pending->0.win_vk,
                        vk,
                    )
                } else {
                    &&& inserted && old(self)@.holds_back(vk)
                    &&& final(self)@ == (KeyboardView {
                        pending: Some(PendingWinPrefix { win_vk: vk }),
                        ..old(self)@
                    })
                    &&& decision@ == DecisionView::swallowed()
                },
                None => {
                    &&& old(self)@.pending is None
                    &&& !(inserted && old(self)@.holds_back(vk))
                    &&& final(self)@ == old(self)@
                },
            },
    {
        broadcast use vstd::std_specs::hash::group_hash_axioms;

        if let Some(pending) = self.pending_win_prefix {
            if vk == pending.win_vk || is_win_vk(vk) || is_pending_modifier_vk(vk) {
                return Some(HookDecision::swallowed());
            }
            let mask: u32 = active_modifier_mask(&self.pressed_keys);
            let command: Option<WatchCommand> = match self.find_registration(vk, mask) {
                Some(registration) => Some(registration.command),
                None => None,
            };
            if let Some(command) = command {
                self.pending_win_prefix = None;
                self.active_trigger = Some(
                    ActiveLowLevelTrigger {
                        command,
                        primary_key: vk,
                        required_modifiers: mask,
                        repeat_while_held: command.repeats_while_held(),
                    },
                );
                self.suppress_pending_modifier_releases(pending.win_vk);
                return Some(HookDecision::fired(command));
            }
            if mask == MOD_WIN && is_start_menu_transfer_key(vk) {
                self.pending_win_prefix = None;
                self.suppressed_held_keys.insert(vk);
                self.suppressed_key_releases.insert(vk);
                self.suppressed_key_releases.insert(pending.win_vk);
                return Some(
                    HookDecision::replayed(ReplayAction::WinTap { win_vk: pending.win_vk }),
                );
            }
            if mask == MOD_WIN && is_lock_workstation_key(vk) {
                self.reset();
                return Some(HookDecision::replayed(ReplayAction::LockWorkstation));
            }
            self.pending_win_prefix = None;
            self.suppressed_held_keys.insert(vk);
            self.suppressed_key_releases.insert(vk);
            self.suppress_pending_modifier_releases(pending.win_vk);
            assert(self@.releases =~= old(self)@.releases.union(
                settled_releases(old(self)@.pressed, pending.win_vk),
            ).insert(vk));
            let modifier_vks: Vec<u32> = pending_modifier_vks(&self.pressed_keys, pending.win_vk);
            return Some(
                HookDecision::replayed(
                    ReplayAction::ReplayWinChord {
                        win_vk: pending.win_vk,
                        modifier_vks,
                        key_vk: vk,
                    },
                ),
            );
        }
        if inserted && is_win_vk(vk) && self.has_pure_win_bindings() && active_modifier_mask(
            &self.pressed_keys,
        ) == MOD_WIN && self.active_trigger.is_none() {
            self.pending_win_prefix = Some(PendingWinPrefix { win_vk: vk });
            return Some(HookDecision::swallowed());
        }
        None
    }

    /// The part of a key release that concerns a held-back Windows key; `None` where the
    /// release does not.
    pub fn handle_pending_win_key_up(&mut self, vk: u32) -> (r: Option<HookDecision>)
        ensures
            final(self)@ == (KeyboardView {
                pending: if old(self)@.pending is Some && old(self)@.pending->0.win_vk == vk {
                    None
                } else {
                    old(self)@.pending
                },
                ..old(self)@
            }),
            match r {
                Some(decision) => old(self)@.release_is_pending(vk) && decision@
                    == DecisionView::swallowed(),
                None => !old(self)@.release_is_pending(vk),
            },
    {
        if let Some(pending) = self.pending_win_prefix {
            if pending.win_vk == vk {
                self.pending_win_prefix = None;
                return Some(HookDecision::swallowed());
            }
            if is_pending_modifier_vk(vk) {
                return Some(HookDecision::swallowed());
            }
        }
        None
    }

    pub fn has_pure_win_bindings(&self) -> (r: bool)
        ensures
            r == self@.has_pure_win_binding(),
    {
        let mut i: usize = 0;
        while i < self.fallback_registrations.len()
            invariant
                i <= self.fallback_registrations.len(),
                forall|j: int|
                    0 <= j < i ==> (#[trigger] self@.registrations[j]).required_modifiers
                        != MOD_WIN,
            decreases self.fallback_registrations.len() - i,
        {
            if self.fallback_registrations[i].required_modifiers == MOD_WIN {
                assert(self@.registrations[i as int].required_modifiers == MOD_WIN);
                return true;
            }
            i = i + 1;
        }
        false
    }

    pub fn find_registration(&self, key: u32, required_modifiers: u32) -> (r: Option<
        &NativeHotkeyRegistration,
    >)
        ensures
            match r {
                Some(found) => first_registration(self@.registrations, key, required_modifiers)
                    == Some(*found) && found.key == key && found.required_modifiers
                    == required_modifiers,
                None => first_registration(
                    self@.registrations,
                    key,
                    required_modifiers,
                ) is None,
            },
    {
        proof {
            crate::hotkeys::registration::lemma_first_registration(
                self@.registrations,
                key,
                required_modifiers,
            );
        }
        find_by_key_and_modifiers(&self.fallback_registrations, key, required_modifiers)
    }

    /// Swallows the next release of the Windows key and of every modifier that is down.
    pub fn suppress_pending_modifier_releases(&mut self, win_vk: u32)
        ensures
            final(self)@ == (KeyboardView {
                releases: old(self)@.releases.union(settled_releases(old(self)@.pressed, win_vk)),
                ..old(self)@
            }),
    {
        broadcast use vstd::std_specs::hash::group_hash_axioms;

        self.suppressed_key_releases.insert(win_vk);
        let mut i: usize = 0;
        while i < 9
            invariant
                i <= 9,
                self.fallback_registrations == old(self).fallback_registrations,
                self.pressed_keys == old(self).pressed_keys,
                self.active_trigger == old(self).active_trigger,
                self.pending_win_prefix == old(self).pending_win_prefix,
                self.suppressed_held_keys == old(self).suppressed_held_keys,
                self.super_held == old(self).super_held,
                forall|key: u32| #[trigger]
                    self.suppressed_key_releases@.contains(key) <==> old(
                        self,
                    ).suppressed_key_releases@.contains(key) || key == win_vk || (
                    self.pressed_keys@.contains(key) && exists|j: int|
                        0 <= j < i && #[trigger] modifier_keys()[j] == key),
            decreases 9 - i,
        {
            let key: u32 = modifier_key(i);
            assert(modifier_keys()[i as int] == key);
            if key != win_vk && self.pressed_keys.contains(&key) {
                self.suppressed_key_releases.insert(key);
            }
            i = i + 1;
        }
        proof {
            lemma_modifier_keys();
            assert(self@.releases =~= old(self)@.releases.union(
                settled_releases(old(self)@.pressed, win_vk),
            ));
        }
    }
}

/// The list of modifier keys holds exactly the modifiers.
pub proof fn lemma_modifier_keys()
    ensures
        forall|key: u32| #[trigger]
            pending_modifier(key) <==> exists|j: int|
                0 <= j < 9 && #[trigger] modifier_keys()[j] == key,
{
    assert forall|key: u32| #[trigger]
        pending_modifier(key) <==> exists|j: int|
            0 <= j < 9 && #[trigger] modifier_keys()[j] == key by {
        let keys = modifier_keys();
        assert(keys[0] == VK_SHIFT && keys[1] == VK_CONTROL && keys[2] == VK_MENU);
        assert(keys[3] == VK_LSHIFT && keys[4] == VK_RSHIFT && keys[5] == VK_LCONTROL);
        assert(keys[6] == VK_RCONTROL && keys[7] == VK_LMENU && keys[8] == VK_RMENU);
    }
}

/// A larger set of pressed keys has the same modifiers and possibly more.
proof fn lemma_modifiers_grow(pressed: Set<u32>, vk: u32, required: u32)
    requires
        modifiers(pressed) & required == required,
    ensures
        modifiers(pressed.insert(vk)) & required == required,
{
    let before = modifiers(pressed);
    let after = modifiers(pressed.insert(vk));
    assert(before & after == before) by {
        lemma_mask_bits(pressed, vk);
    }
    assert(after & required == required) by (bit_vector)
        requires
            before & required == required,
            before & after == before,
    ;
}

proof fn lemma_mask_bits(pressed: Set<u32>, vk: u32)
    ensures
        modifiers(pressed) & modifiers(pressed.insert(vk)) == modifiers(pressed),
{
    let more = pressed.insert(vk);
    let c = exists|k: u32| pressed.contains(k) && #[trigger] control_key(k);
    let a = exists|k: u32| pressed.contains(k) && #[trigger] alt_key(k);
    let s = exists|k: u32| pressed.contains(k) && #[trigger] shift_key(k);
    let w = exists|k: u32| pressed.contains(k) && #[trigger] win_key(k);
    let c2 = exists|k: u32| more.contains(k) && #[trigger] control_key(k);
    let a2 = exists|k: u32| more.contains(k) && #[trigger] alt_key(k);
    let s2 = exists|k: u32| more.contains(k) && #[trigger] shift_key(k);
    let w2 = exists|k: u32| more.contains(k) && #[trigger] win_key(k);
    assert(c ==> c2) by {
        if c {
            let k = choose|k: u32| pressed.contains(k) && #[trigger] control_key(k);
            assert(more.contains(k) && control_key(k));
        }
    }
    assert(a ==> a2) by {
        if a {
            let k = choose|k: u32| pressed.contains(k) && #[trigger] alt_key(k);
            assert(more.contains(k) && alt_key(k));
        }
    }
    assert(s ==> s2) by {
        if s {
            let k = choose|k: u32| pressed.contains(k) && #[trigger] shift_key(k);
            assert(more.contains(k) && shift_key(k));
        }
    }
    assert(w ==> w2) by {
        if w {
            let k = choose|k: u32| pressed.contains(k) && #[trigger] win_key(k);
            assert(more.contains(k) && win_key(k));
        }
    }
    let m = modifiers(pressed);
    let n = modifiers(more);
    assert(m & n == m) by (bit_vector)
        requires
            m == (if c { 2u32 } else { 0u32 }) + (if a { 1u32 } else { 0u32 }) + (if s {
                4u32
            } else {
                0u32
            }) + (if w { 8u32 } else { 0u32 }),
            n == (if c2 { 2u32 } else { 0u32 }) + (if a2 { 1u32 } else { 0u32 }) + (if s2 {
                4u32
            } else {
                0u32
            }) + (if w2 { 8u32 } else { 0u32 }),
            c ==> c2,
            a ==> a2,
            s ==> s2,
            w ==> w2,
    ;
}

/// Every event keeps the keyboard well formed.
pub proof fn lemma_wf_kept(keyboard: KeyboardView, vk: u32, message: u32, injected: bool)
    ensures
        keyboard.wf() ==> keyboard.after(vk, message, injected).0.wf(),
{
    if keyboard.wf() && !injected && key_down(message) {
        let mask = modifiers(keyboard.pressed.insert(vk));
        assert(mask & mask == mask) by (bit_vector);
        crate::hotkeys::registration::lemma_first_registration(keyboard.registrations, vk, mask);
        if keyboard.active is Some {
            lemma_modifiers_grow(keyboard.pressed, vk, keyboard.active->0.required_modifiers);
        }
    }
}

/// Whether a Windows key is held as far as the hooks of the process have seen.
pub fn is_super_held_by_low_level_runtime(state: &LowLevelHotkeyState) -> (r: bool)
    ensures
        r == state@.super_held,
{
    state.super_held
}

/// Whether the hook looks at an event at all; the others go on unseen.
pub fn hook_event_is_inspected(code: i32, lparam: i64, message: u32) -> (r: bool)
    ensures
        r == (code >= 0 && lparam != 0 && (key_down(message) || key_up(message))),
{
    code >= 0 && lparam != 0 && is_keyboard_message(message)
}

/// Whether the flags of a hook event mark it as synthesised.
pub fn hook_event_is_injected(flags: u32) -> (r: bool)
    ensures
        r == (flags & crate::hotkeys::keys::LLKHF_INJECTED != 0),
{
    (flags & crate::hotkeys::keys::LLKHF_INJECTED) != 0
}

/// A command is repeated exactly while its chord is held and it is one that repeats; and the
/// hook looks at nothing but valid keyboard events.
pub proof fn law_the_hook_repeats_and_inspects(
    state: &LowLevelHotkeyState,
    r: Option<WatchCommand>,
    code: i32,
    lparam: i64,
    message: u32,
    inspected: bool,
)
    requires
        call_ensures(LowLevelHotkeyState::repeat_command_while_held, (state,), r),
        call_ensures(hook_event_is_inspected, (code, lparam, message), inspected),
    ensures
        state@.active is None ==> r is None,
        state@.active matches Some(active) ==> (r is Some <==> active.repeat_while_held),
        state@.active matches Some(active) ==> (r matches Some(command) ==> command
            == active.command),
        inspected <==> code >= 0 && lparam != 0 && (message == 0x100 || message == 0x101 || message
            == 0x104 || message == 0x105),
{
}

/// A Windows key that is held back is down, and nothing fires meanwhile; a chord that has fired
/// has its key and all of its modifiers down.
pub proof fn law_held_keys_are_down(keyboard: KeyboardView)
    requires
        keyboard.wf(),
    ensures
        keyboard.pending matches Some(prefix) ==> (prefix.win_vk == 0x5b || prefix.win_vk == 0x5c)
            && keyboard.pressed.contains(prefix.win_vk) && keyboard.active is None,
        keyboard.active matches Some(active) ==> keyboard.pressed.contains(active.primary_key)
            && modifiers(keyboard.pressed) & active.required_modifiers
            == active.required_modifiers,
{
}

/// The keys that a held back Windows key waits for further keys with are those of Shift,
/// Control and Alt.
pub proof fn law_other_modifiers_join_the_windows_key(vk: u32)
    ensures
        pending_modifier(vk) <==> vk == 0x10 || vk == 0x11 || vk == 0x12 || (0xa0 <= vk && vk
            <= 0xa5),
{
}

} // verus!
