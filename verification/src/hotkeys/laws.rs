//! What holds of the keyboard hook over several events.

use vstd::prelude::*;

verus! {

use crate::control::WatchCommand;
use crate::hotkeys::keys::{key_down, key_up, modifiers, win_key, MOD_WIN};
use crate::hotkeys::low_level::{
    lemma_modifier_keys, modifier_keys, pending_modifier, pressed_beside, pressed_modifiers,
    DecisionView, KeyboardView, PendingWinPrefix, ReplayView, LOCK_WORKSTATION_KEY,
    START_MENU_TRANSFER_KEY,
};
use crate::hotkeys::registration::{
    first_registration, lemma_first_registration, NativeHotkeyRegistration,
};

/// The modifiers of a single Windows key, alone or with one key that is no modifier.
proof fn lemma_win_alone(win_vk: u32, vk: u32)
    requires
        win_key(win_vk),
    ensures
        modifiers(Set::<u32>::empty().insert(win_vk)) == MOD_WIN,
        !win_key(vk) && !pending_modifier(vk) ==> modifiers(
            Set::<u32>::empty().insert(win_vk).insert(vk),
        ) == MOD_WIN,
{
    let one = Set::<u32>::empty().insert(win_vk);
    let two = one.insert(vk);
    assert(one.contains(win_vk) && win_key(win_vk));
    assert(two.contains(win_vk) && win_key(win_vk));
}

/// A synthesised event changes nothing and goes on.
pub proof fn law_injected_events_are_ignored(keyboard: KeyboardView, vk: u32, message: u32)
    ensures
        keyboard.after(vk, message, true) == (keyboard, DecisionView::passed()),
{
}

/// What fires a command or plays something back is itself swallowed, and never both happen
/// at once.
pub proof fn law_consumed_events_are_swallowed(
    keyboard: KeyboardView,
    vk: u32,
    message: u32,
    injected: bool,
)
    ensures
        ({
            let decision = keyboard.after(vk, message, injected).1;
            &&& decision.command is Some || decision.replay is Some ==> decision.suppress
            &&& !(decision.command is Some && decision.replay is Some)
        }),
{
}

/// A command fires only on the press of its own key under exactly its own modifiers.
pub proof fn law_commands_fire_on_exact_chords(
    keyboard: KeyboardView,
    vk: u32,
    message: u32,
    injected: bool,
)
    ensures
        ({
            let decision = keyboard.after(vk, message, injected).1;
            decision.command is Some ==> {
                &&& !injected && key_down(message)
                &&& exists|i: int|
                    0 <= i < keyboard.registrations.len() && {
                        &&& (#[trigger] keyboard.registrations[i]).key == vk
                        &&& keyboard.registrations[i].required_modifiers == modifiers(
                            keyboard.pressed.insert(vk),
                        )
                        &&& keyboard.registrations[i].command == decision.command->0
                    }
            }
        }),
{
    let mask = modifiers(keyboard.pressed.insert(vk));
    lemma_first_registration(keyboard.registrations, vk, mask);
    if keyboard.after(vk, message, injected).1.command is Some {
        let found = first_registration(keyboard.registrations, vk, mask)->0;
        let i = choose|i: int|
            0 <= i < keyboard.registrations.len() && keyboard.registrations[i] == found;
        assert(keyboard.registrations[i].key == vk);
    }
}

/// A tap of the Windows key alone is swallowed while bindings need it, and leaves nothing
/// behind.
pub proof fn law_standalone_win_tap_is_swallowed(
    registrations: Seq<NativeHotkeyRegistration>,
    win_vk: u32,
)
    requires
        win_key(win_vk),
        KeyboardView::idle(registrations).has_pure_win_binding(),
    ensures
        ({
            let (held_back, first) = KeyboardView::idle(registrations).after_down(win_vk);
            let (end, second) = held_back.after_up(win_vk);
            &&& first == DecisionView::swallowed()
            &&& second == DecisionView::swallowed()
            &&& end == KeyboardView::idle(registrations)
        }),
{
    lemma_win_alone(win_vk, win_vk);
    let (held_back, first) = KeyboardView::idle(registrations).after_down(win_vk);
    let (end, second) = held_back.after_up(win_vk);
    assert(end.pressed =~= Set::empty());
    assert(end.held =~= Set::empty());
    assert(end.releases =~= Set::empty());
}

/// A bound chord of the Windows key and one key fires its command, swallows all of its four
/// events, and leaves nothing behind.
pub proof fn law_pure_win_chord_fires_without_leakage(
    registrations: Seq<NativeHotkeyRegistration>,
    win_vk: u32,
    vk: u32,
)
    requires
        win_key(win_vk),
        !win_key(vk) && !pending_modifier(vk),
        first_registration(registrations, vk, MOD_WIN) is Some,
    ensures
        ({
            let (k1, d1) = KeyboardView::idle(registrations).after_down(win_vk);
            let (k2, d2) = k1.after_down(vk);
            let (k3, d3) = k2.after_up(vk);
            let (k4, d4) = k3.after_up(win_vk);
            &&& d1 == DecisionView::swallowed()
            &&& d2 == DecisionView::fired(
                first_registration(registrations, vk, MOD_WIN)->0.command,
            )
            &&& d3 == DecisionView::swallowed()
            &&& d4 == DecisionView::swallowed()
            &&& k4 == KeyboardView::idle(registrations)
        }),
{
    lemma_win_alone(win_vk, vk);
    lemma_first_registration(registrations, vk, MOD_WIN);
    let found = first_registration(registrations, vk, MOD_WIN)->0;
    let i = choose|i: int| 0 <= i < registrations.len() && registrations[i] == found;
    assert(KeyboardView::idle(registrations).registrations[i].required_modifiers == MOD_WIN);
    let (k1, d1) = KeyboardView::idle(registrations).after_down(win_vk);
    assert(k1.pending == Some(PendingWinPrefix { win_vk }));
    let (k2, d2) = k1.after_down(vk);
    let (k3, d3) = k2.after_up(vk);
    assert(k3.active is None);
    let (k4, d4) = k3.after_up(win_vk);
    assert(k4.pressed =~= Set::empty());
    assert(k4.held =~= Set::empty());
    assert(k4.releases =~= Set::empty());
}

/// A chord of the Windows key that nothing is bound to is played back in full, all of its
/// four events are swallowed, and no key is left down or pending.
pub proof fn law_unbound_win_chord_is_played_back(
    registrations: Seq<NativeHotkeyRegistration>,
    win_vk: u32,
    vk: u32,
)
    requires
        win_key(win_vk),
        !win_key(vk) && !pending_modifier(vk),
        vk != START_MENU_TRANSFER_KEY && vk != LOCK_WORKSTATION_KEY,
        KeyboardView::idle(registrations).has_pure_win_binding(),
        first_registration(registrations, vk, MOD_WIN) is None,
    ensures
        ({
            let (k1, d1) = KeyboardView::idle(registrations).after_down(win_vk);
            let (k2, d2) = k1.after_down(vk);
            let (k3, d3) = k2.after_up(vk);
            let (k4, d4) = k3.after_up(win_vk);
            &&& d1 == DecisionView::swallowed()
            &&& d2 == DecisionView::replayed(
                ReplayView::ReplayWinChord { win_vk, modifier_vks: Seq::empty(), key_vk: vk },
            )
            &&& d3 == DecisionView::swallowed()
            &&& d4 == DecisionView::swallowed()
            &&& k4.pressed == Set::<u32>::empty()
            &&& k4.pending is None && k4.active is None
            &&& !k4.super_held
        }),
{
    lemma_win_alone(win_vk, vk);
    lemma_modifier_keys();
    let (k1, d1) = KeyboardView::idle(registrations).after_down(win_vk);
    let (k2, d2) = k1.after_down(vk);
    let keep = pressed_beside(k2.pressed, win_vk);
    assert(modifier_keys().filter(keep) =~= Seq::empty()) by {
        let kept = modifier_keys().filter(keep);
        if kept.len() > 0 {
            broadcast use vstd::seq_lib::group_filter_ensures;

            modifier_keys().lemma_filter_contains_rev(keep, kept[0]);
            assert(keep(kept[0]));
            let j = choose|j: int|
                0 <= j < modifier_keys().len() && modifier_keys()[j] == kept[0];
            assert(pending_modifier(kept[0]));
            assert(k2.pressed.contains(kept[0]));
        }
    }
    let (k3, d3) = k2.after_up(vk);
    let (k4, d4) = k3.after_up(win_vk);
    assert(k4.pressed =~= Set::empty());
}

/// Locking the session forgets every key, so that none is stuck when the session comes back.
pub proof fn law_lock_leaves_no_stale_keys(
    registrations: Seq<NativeHotkeyRegistration>,
    win_vk: u32,
)
    requires
        win_key(win_vk),
        KeyboardView::idle(registrations).has_pure_win_binding(),
        first_registration(registrations, LOCK_WORKSTATION_KEY, MOD_WIN) is None,
    ensures
        ({
            let (k1, d1) = KeyboardView::idle(registrations).after_down(win_vk);
            let (k2, d2) = k1.after_down(LOCK_WORKSTATION_KEY);
            &&& d1 == DecisionView::swallowed()
            &&& d2 == DecisionView::replayed(ReplayView::LockWorkstation)
            &&& k2 == KeyboardView::idle(registrations)
            &&& k2.after_up(win_vk).1 == DecisionView::passed()
        }),
{
    lemma_win_alone(win_vk, LOCK_WORKSTATION_KEY);
}

/// Whether a Windows key is held is what the last press or release of one said, until the
/// session is locked. So two hooks that agree on it, such as one and another that took it over,
/// still agree after they have seen the same event, whatever else they know.
pub proof fn law_windows_key_is_known_across_hooks(
    keyboard: KeyboardView,
    other: KeyboardView,
    vk: u32,
    message: u32,
    injected: bool,
)
    requires
        other.super_held == keyboard.super_held,
    ensures
        ({
            let (next, decision) = keyboard.after(vk, message, injected);
            let (other_next, other_decision) = other.after(vk, message, injected);
            let locked = decision.replay == Some(ReplayView::LockWorkstation);
            let other_locked = other_decision.replay == Some(ReplayView::LockWorkstation);
            let seen = !injected && win_key(vk);
            &&& next.super_held == (if locked {
                false
            } else if seen && key_down(message) {
                true
            } else if seen && key_up(message) {
                false
            } else {
                keyboard.super_held
            })
            &&& locked == other_locked ==> other_next.super_held == next.super_held
        }),
{
}

/// The modifiers of a played-back chord are exactly the modifier keys that are down, each
/// once, in ascending order.
pub proof fn law_replayed_modifiers_are_sorted(pressed: Set<u32>, win_vk: u32)
    ensures
        ({
            let keys = pressed_modifiers(pressed, win_vk);
            &&& forall|key: u32| #[trigger]
                keys.contains(key) <==> pressed.contains(key) && pending_modifier(key) && key
                    != win_vk
            &&& forall|i: int, j: int| 0 <= i < j < keys.len() ==> keys[i] < keys[j]
        }),
{
    let all = modifier_keys();
    let keep = pressed_beside(pressed, win_vk);
    let keys = pressed_modifiers(pressed, win_vk);
    broadcast use vstd::seq_lib::group_filter_ensures;

    lemma_modifier_keys();
    assert forall|key: u32| #[trigger] keys.contains(key) implies pressed.contains(key)
        && pending_modifier(key) && key != win_vk by {
        let i = choose|i: int| 0 <= i < keys.len() && keys[i] == key;
        assert(keep(keys[i]));
        all.lemma_filter_contains_rev(keep, key);
        let j = choose|j: int| 0 <= j < all.len() && all[j] == key;
        assert(modifier_keys()[j] == key);
    }
    assert forall|key: u32|
        pressed.contains(key) && pending_modifier(key) && key != win_vk implies #[trigger]
        keys.contains(key) by {
        let j = choose|j: int| 0 <= j < 9 && #[trigger] modifier_keys()[j] == key;
        assert(keep(all[j]));
        assert(keys.contains(all[j]));
    }
    lemma_filter_keeps_order(all, keep);
}

/// Leaving elements out of an ascending sequence leaves an ascending sequence.
proof fn lemma_filter_keeps_order(all: Seq<u32>, keep: spec_fn(u32) -> bool)
    requires
        forall|i: int, j: int| 0 <= i < j < all.len() ==> all[i] < all[j],
    ensures
        forall|i: int, j: int|
            0 <= i < j < all.filter(keep).len() ==> all.filter(keep)[i] < all.filter(keep)[j],
    decreases all.len(),
{
    reveal(Seq::filter);
    if all.len() > 0 {
        let rest = all.drop_last();
        lemma_filter_keeps_order(rest, keep);
        let kept = rest.filter(keep);
        assert forall|i: int| 0 <= i < kept.len() implies kept[i] < all.last() by {
            rest.lemma_filter_contains_rev(keep, kept[i]);
            let j = choose|j: int| 0 <= j < rest.len() && rest[j] == kept[i];
            assert(all[j] == kept[i]);
        }
    }
}

/// While a press of the Windows key is held back, every press is swallowed, and so is every
/// release of that key or of a modifier.
pub proof fn law_nothing_passes_a_held_back_key(
    keyboard: KeyboardView,
    vk: u32,
    message: u32,
)
    requires
        keyboard.pending is Some,
    ensures
        key_down(message) ==> keyboard.after(vk, message, false).1.suppress,
        key_up(message) && (vk == keyboard.pending->0.win_vk || pending_modifier(vk))
            ==> keyboard.after(vk, message, false).1 == DecisionView::swallowed(),
{
}

/// Modifiers that go down while the Windows key is held back fire nothing and keep it held
/// back, so that the key that follows is matched with all of them.
pub proof fn law_modifiers_join_a_held_back_key(keyboard: KeyboardView, vk: u32)
    requires
        keyboard.pending is Some,
        pending_modifier(vk),
    ensures
        keyboard.after_down(vk).1 == DecisionView::swallowed(),
        keyboard.after_down(vk).0.pending == keyboard.pending,
        keyboard.after_down(vk).0.active == keyboard.active,
        keyboard.after_down(vk).0.pressed == keyboard.pressed.insert(vk),
{
}

/// The Windows key and the key of the start menu's search, bound to nothing, are played back
/// as a tap of the Windows key alone; the search key itself never reaches the shell, however
/// long it is held.
pub proof fn law_start_menu_opens_without_search(
    registrations: Seq<NativeHotkeyRegistration>,
    win_vk: u32,
)
    requires
        win_key(win_vk),
        KeyboardView::idle(registrations).has_pure_win_binding(),
        first_registration(registrations, START_MENU_TRANSFER_KEY, MOD_WIN) is None,
    ensures
        ({
            let (k1, d1) = KeyboardView::idle(registrations).after_down(win_vk);
            let (k2, d2) = k1.after_down(START_MENU_TRANSFER_KEY);
            let (k3, d3) = k2.after_down(START_MENU_TRANSFER_KEY);
            let (k4, d4) = k3.after_up(START_MENU_TRANSFER_KEY);
            let (k5, d5) = k4.after_up(win_vk);
            &&& d1 == DecisionView::swallowed()
            &&& d2 == DecisionView::replayed(ReplayView::WinTap { win_vk })
            &&& k3 == k2 && d3 == DecisionView::swallowed()
            &&& d4 == DecisionView::swallowed()
            &&& d5 == DecisionView::swallowed()
            &&& k5.pressed == Set::<u32>::empty()
            &&& k5.pending is None && k5.active is None && !k5.super_held
        }),
{
    lemma_win_alone(win_vk, START_MENU_TRANSFER_KEY);
    let (k1, d1) = KeyboardView::idle(registrations).after_down(win_vk);
    let (k2, d2) = k1.after_down(START_MENU_TRANSFER_KEY);
    let (k3, d3) = k2.after_down(START_MENU_TRANSFER_KEY);
    assert(k3.pressed =~= k2.pressed);
    let (k4, d4) = k3.after_up(START_MENU_TRANSFER_KEY);
    let (k5, d5) = k4.after_up(win_vk);
    assert(k5.pressed =~= Set::empty());
}

/// Whether a registration is the first one for a key and exactly these modifiers.
pub open spec fn is_first_for(
    registrations: Seq<NativeHotkeyRegistration>,
    i: int,
    key: u32,
    mask: u32,
) -> bool {
    &&& 0 <= i < registrations.len()
    &&& registrations[i].key == key && registrations[i].required_modifiers == mask
    &&& forall|j: int|
        0 <= j < i ==> (#[trigger] registrations[j]).key != key
            || registrations[j].required_modifiers != mask
}

/// The first registration of the list for a key and its modifiers is the one that counts.
pub proof fn law_the_first_registration_counts(
    registrations: Seq<NativeHotkeyRegistration>,
    i: int,
    key: u32,
    mask: u32,
)
    ensures
        is_first_for(registrations, i, key, mask) ==> first_registration(registrations, key, mask)
            == Some(registrations[i]),
        (forall|j: int|
            0 <= j < registrations.len() ==> (#[trigger] registrations[j]).key != key
                || registrations[j].required_modifiers != mask) ==> first_registration(
            registrations,
            key,
            mask,
        ) is None,
    decreases registrations.len(),
{
    lemma_first_registration(registrations, key, mask);
    if is_first_for(registrations, i, key, mask) && i > 0 {
        let rest = registrations.skip(1);
        assert(registrations[0].key != key || registrations[0].required_modifiers != mask);
        assert forall|j: int| 0 <= j < i - 1 implies (#[trigger] rest[j]).key != key
            || rest[j].required_modifiers != mask by {
            assert(registrations[j + 1].key != key || registrations[j + 1].required_modifiers
                != mask);
        }
        law_the_first_registration_counts(rest, i - 1, key, mask);
    }
}

/// The first press of a bound chord fires its command, unless the press is that of a Windows
/// key that has to be held back; the chord then counts as held, with its key, its modifiers and
/// whether it repeats. Where the Windows key is held back already, every key of the chord is
/// marked so that its release is swallowed too.
pub proof fn law_bound_chords_fire(keyboard: KeyboardView, vk: u32, i: int)
    requires
        !keyboard.pressed.contains(vk),
        is_first_for(keyboard.registrations, i, vk, modifiers(keyboard.pressed.insert(vk))),
        keyboard.active matches Some(active) ==> active.primary_key != vk,
        vk != 0x5b && vk != 0x5c,
        keyboard.pending matches Some(prefix) ==> !pending_modifier(vk) && prefix.win_vk != vk,
    ensures
        ({
            let bound = keyboard.registrations[i];
            let (next, decision) = keyboard.after(vk, 0x100, false);
            &&& decision.command == Some(bound.command)
            &&& decision.suppress
            &&& decision.replay is None
            &&& next.active matches Some(active) && active.command == bound.command
                && active.primary_key == vk && active.required_modifiers
                == bound.required_modifiers && (active.repeat_while_held <==> bound.command
                == WatchCommand::ScrollLeft || bound.command == WatchCommand::ScrollRight)
            &&& next.pressed == keyboard.pressed.insert(vk)
            &&& next.pending is None
            &&& next.held == keyboard.held
            &&& next.registrations == keyboard.registrations
            &&& keyboard.pending is None ==> next.releases == keyboard.releases
            &&& keyboard.pending matches Some(prefix) ==> forall|key: u32| #[trigger]
                next.releases.contains(key) <==> keyboard.releases.contains(key) || key
                    == prefix.win_vk || (next.pressed.contains(key) && pending_modifier(key))
        }),
{
    law_the_first_registration_counts(
        keyboard.registrations,
        i,
        vk,
        modifiers(keyboard.pressed.insert(vk)),
    );
}

/// The first press of a Windows key is held back exactly where a binding needs that key alone,
/// no other modifier is down and no chord is held. It is swallowed then, and nothing else
/// happens.
pub proof fn law_windows_keys_are_held_back_when_needed(keyboard: KeyboardView, vk: u32, i: int)
    requires
        !keyboard.pressed.contains(vk),
        vk == 0x5b || vk == 0x5c,
        keyboard.pending is None,
    ensures
        ({
            let (next, decision) = keyboard.after(vk, 0x100, false);
            let needed = exists|i: int|
                0 <= i < keyboard.registrations.len() && (
                #[trigger] keyboard.registrations[i]).required_modifiers == 0x8;
            let alone = modifiers(keyboard.pressed.insert(vk)) == 0x8;
            &&& next.pressed == keyboard.pressed.insert(vk)
            &&& next.pending is Some <==> needed && alone && keyboard.active is None
            &&& next.pending is Some ==> next.pending == Some(PendingWinPrefix { win_vk: vk })
                && decision.suppress && decision.command is None && decision.replay is None
                && next.active is None && next.held == keyboard.held && next.releases
                == keyboard.releases
            &&& next.pending is None && (forall|j: int|
                0 <= j < keyboard.registrations.len() ==> (
                #[trigger] keyboard.registrations[j]).key != vk) && (
            keyboard.active matches Some(active) ==> active.primary_key != vk) ==> decision
                == (DecisionView { command: None, suppress: false, replay: None })
            &&& next.pending is None && is_first_for(
                keyboard.registrations,
                i,
                vk,
                modifiers(keyboard.pressed.insert(vk)),
            ) && (keyboard.active matches Some(active) ==> active.primary_key != vk)
                ==> decision.command == Some(keyboard.registrations[i].command)
        }),
{
    law_the_first_registration_counts(
        keyboard.registrations,
        i,
        vk,
        modifiers(keyboard.pressed.insert(vk)),
    );
    lemma_first_registration(
        keyboard.registrations,
        vk,
        modifiers(keyboard.pressed.insert(vk)),
    );
}

/// A press that belongs to no binding and to nothing that is held goes on, and all that changes
/// is that the key is down.
pub proof fn law_other_presses_pass(keyboard: KeyboardView, vk: u32)
    requires
        keyboard.pending is None,
        vk != 0x5b && vk != 0x5c,
        forall|j: int|
            0 <= j < keyboard.registrations.len() ==> (#[trigger] keyboard.registrations[j]).key
                != vk || keyboard.registrations[j].required_modifiers != modifiers(
                keyboard.pressed.insert(vk),
            ),
        keyboard.active matches Some(active) ==> active.primary_key != vk,
        keyboard.pressed.contains(vk) ==> !keyboard.held.contains(vk),
    ensures
        ({
            let (next, decision) = keyboard.after(vk, 0x100, false);
            &&& decision == (DecisionView { command: None, suppress: false, replay: None })
            &&& next == (KeyboardView { pressed: keyboard.pressed.insert(vk), ..keyboard })
        }),
{
    law_the_first_registration_counts(
        keyboard.registrations,
        0,
        vk,
        modifiers(keyboard.pressed.insert(vk)),
    );
}

/// While its key is held, a chord that fired fires no more and passes nothing on; a key that
/// was played back with a chord passes nothing on either.
pub proof fn law_held_keys_are_swallowed(keyboard: KeyboardView, vk: u32)
    requires
        keyboard.pending is None,
        keyboard.pressed.contains(vk),
        keyboard.held.contains(vk) || (keyboard.active matches Some(active) && active.primary_key
            == vk),
    ensures
        ({
            let (next, decision) = keyboard.after(vk, 0x100, false);
            &&& decision == (DecisionView { command: None, suppress: true, replay: None })
            &&& next.pressed == keyboard.pressed && next.active == keyboard.active
            &&& next.held == keyboard.held && next.releases == keyboard.releases
            &&& next.pending is None
        }),
{
    assert(keyboard.pressed.insert(vk) =~= keyboard.pressed);
}

/// A key that settles a held-back Windows key without being bound: the whole chord is played
/// back, with the modifiers that are down, unless the Windows key alone goes before the key of
/// the search, which stays away, or of the lock, which locks the session. Every key of the chord
/// is marked so that its release is swallowed.
pub proof fn law_unbound_chords_are_played_back(keyboard: KeyboardView, vk: u32)
    requires
        keyboard.pending is Some,
        !win_key(vk) && !pending_modifier(vk),
        vk != (keyboard.pending->0).win_vk,
        forall|j: int|
            0 <= j < keyboard.registrations.len() ==> (#[trigger] keyboard.registrations[j]).key
                != vk || keyboard.registrations[j].required_modifiers != modifiers(
                keyboard.pressed.insert(vk),
            ),
    ensures
        ({
            let (next, decision) = keyboard.after(vk, 0x100, false);
            let win_vk = (keyboard.pending->0).win_vk;
            let alone = modifiers(keyboard.pressed.insert(vk)) == 0x8;
            &&& decision.suppress && decision.command is None
            &&& next.pending is None
            &&& alone && vk == 0x4c ==> decision.replay == Some(ReplayView::LockWorkstation)
                && next.pressed == Set::<u32>::empty() && next.held == Set::<u32>::empty()
                && next.releases == Set::<u32>::empty() && next.active is None && !next.super_held
                && next.registrations == keyboard.registrations
            &&& alone && vk == 0x53 ==> decision.replay == Some(ReplayView::WinTap { win_vk })
            &&& !(alone && (vk == 0x4c || vk == 0x53)) ==> (decision.replay matches Some(
                ReplayView::ReplayWinChord { win_vk: prefix, modifier_vks, key_vk },
            ) && prefix == win_vk && key_vk == vk && (forall|key: u32| #[trigger]
                modifier_vks.contains(key) <==> next.pressed.contains(key) && pending_modifier(key)
                    && key != win_vk))
            &&& !(alone && vk == 0x4c) ==> {
                &&& next.pressed == keyboard.pressed.insert(vk)
                &&& next.held == keyboard.held.insert(vk)
                &&& next.active == keyboard.active
                &&& next.releases.contains(vk) && next.releases.contains(win_vk)
                &&& vk != 0x53 || !alone ==> forall|key: u32| #[trigger]
                    next.releases.contains(key) <==> keyboard.releases.contains(key) || key == vk
                        || key == win_vk || (next.pressed.contains(key) && pending_modifier(key))
            }
        }),
{
    law_the_first_registration_counts(
        keyboard.registrations,
        0,
        vk,
        modifiers(keyboard.pressed.insert(vk)),
    );
    law_replayed_modifiers_are_sorted(
        keyboard.pressed.insert(vk),
        (keyboard.pending->0).win_vk,
    );
}

/// A release is swallowed where the press was: that of a held-back Windows key and the modifiers
/// beside it, of the key of a held chord, of a key that was played back, and of one that was
/// marked. The chord ends with its key or with one of its modifiers, and a mark serves once.
pub proof fn law_releases_follow_their_presses(keyboard: KeyboardView, vk: u32)
    ensures
        ({
            let (next, decision) = keyboard.after(vk, 0x101, false);
            let of_prefix = keyboard.pending matches Some(prefix) && (prefix.win_vk == vk
                || pending_modifier(vk));
            let of_chord = keyboard.active matches Some(active) && active.primary_key == vk;
            &&& decision.command is None && decision.replay is None
            &&& decision.suppress <==> of_prefix || of_chord || keyboard.held.contains(vk)
                || keyboard.releases.contains(vk)
            &&& next.pressed == keyboard.pressed.remove(vk)
            &&& next.registrations == keyboard.registrations
            &&& next.pending == (if keyboard.pending == Some(PendingWinPrefix { win_vk: vk }) {
                None
            } else {
                keyboard.pending
            })
            &&& next.active is Some <==> (keyboard.active matches Some(active)
                && next.pressed.contains(active.primary_key) && modifiers(next.pressed)
                & active.required_modifiers == active.required_modifiers)
            &&& next.active is Some ==> next.active == keyboard.active
            &&& !of_chord ==> next.held == keyboard.held.remove(vk)
            &&& of_chord ==> next.held == keyboard.held && next.releases == keyboard.releases
            &&& !of_chord && keyboard.held.contains(vk) ==> next.releases == keyboard.releases
            &&& !of_chord && !keyboard.held.contains(vk) ==> next.releases
                == keyboard.releases.remove(vk)
            &&& next.super_held <==> keyboard.super_held && vk != 0x5b && vk != 0x5c
        }),
{
}

/// What becomes of an event tells whether it passes, what it fires and what is played back.
pub proof fn law_decisions_are_what_they_are_called(command: WatchCommand, action: ReplayView)
    ensures
        ({
            let passed = DecisionView::passed();
            let swallowed = DecisionView::swallowed();
            let fired = DecisionView::fired(command);
            let replayed = DecisionView::replayed(action);
            &&& !passed.suppress && passed.command is None && passed.replay is None
            &&& swallowed.suppress && swallowed.command is None && swallowed.replay is None
            &&& fired.suppress && fired.command == Some(command) && fired.replay is None
            &&& replayed.suppress && replayed.command is None && replayed.replay == Some(action)
        }),
{
}

/// System keys are keys: the two messages of a press mean the same, and so do those of a
/// release; every other message goes on and changes nothing.
pub proof fn law_messages_report_presses_and_releases(
    keyboard: KeyboardView,
    vk: u32,
    message: u32,
)
    ensures
        keyboard.after(vk, 0x104, false) == keyboard.after(vk, 0x100, false),
        keyboard.after(vk, 0x105, false) == keyboard.after(vk, 0x101, false),
        message != 0x100 && message != 0x101 && message != 0x104 && message != 0x105
            ==> keyboard.after(vk, message, false) == (
            keyboard,
            DecisionView { command: None, suppress: false, replay: None },
        ),
{
}

} // verus!
