//! Playing a held-back chord back to the shell.

use crate::hotkeys::keys::{is_shift_vk, is_win_vk};
use crate::hotkeys::low_level::{ReplayAction, START_MENU_TRANSFER_KEY};
use vstd::prelude::*;

verus! {

use crate::hotkeys::keys::{shift_key, win_key};
use crate::hotkeys::low_level::ReplayView;

/// Flag of a synthesised key event whose key carries the extended prefix.
pub const KEYEVENTF_EXTENDEDKEY: u32 = 0x1;

/// Flag of a synthesised key release.
pub const KEYEVENTF_KEYUP: u32 = 0x2;

/// A synthesised press or release of a key.
#[derive(Clone, Copy, Debug, PartialEq, Eq, Structural)]
pub struct KeyStroke {
    pub vk: u32,
    pub key_up: bool,
}

impl KeyStroke {
    pub open spec fn down(vk: u32) -> KeyStroke {
        KeyStroke { vk, key_up: false }
    }

    pub open spec fn up(vk: u32) -> KeyStroke {
        KeyStroke { vk, key_up: true }
    }

    /// The event flags that go with the stroke: the Windows keys are extended keys.
    pub fn flags(self) -> (r: u32)
        ensures
            r == (if self.key_up {
                KEYEVENTF_KEYUP as int
            } else {
                0
            }) + (if win_key(self.vk) {
                KEYEVENTF_EXTENDEDKEY as int
            } else {
                0
            }),
    {
        let base: u32 = if self.key_up {
            KEYEVENTF_KEYUP
        } else {
            0
        };
        if is_win_vk(self.vk) {
            base + KEYEVENTF_EXTENDEDKEY
        } else {
            base
        }
    }
}

/// What is sent to the system to play an action back.
pub enum ReplayPlan {
    LockWorkstation,
    Strokes(Vec<KeyStroke>),
}

/// Presses of the keys of a chord, in order.
pub open spec fn presses(chord: Seq<u32>) -> Seq<KeyStroke> {
    chord.map_values(|vk: u32| KeyStroke::down(vk))
}

/// Releases of the keys of a chord, the last key first.
pub open spec fn releases(chord: Seq<u32>) -> Seq<KeyStroke> {
    chord.reverse().map_values(|vk: u32| KeyStroke::up(vk))
}

/// The keys of a played-back chord in the order in which they go down.
pub open spec fn chord_keys(action: ReplayView) -> Seq<u32> {
    match action {
        ReplayView::LockWorkstation => Seq::empty(),
        ReplayView::WinTap { win_vk } => seq![win_vk],
        ReplayView::ReplayWinChord { win_vk, modifier_vks, key_vk } => (seq![win_vk]
            + modifier_vks).push(key_vk),
    }
}

/// Lists the strokes that play an action back: every key of the chord goes down in order
/// and comes up in the opposite order.
pub fn replay_action(action: &ReplayAction) -> (r: ReplayPlan)
    ensures
        match r {
            ReplayPlan::LockWorkstation => action@ is LockWorkstation,
            ReplayPlan::Strokes(strokes) => !(action@ is LockWorkstation) && strokes@ == presses(
                chord_keys(action@),
            ) + releases(chord_keys(action@)),
        },
{
    match action {
        ReplayAction::LockWorkstation => ReplayPlan::LockWorkstation,
        ReplayAction::WinTap { win_vk } => {
            let mut strokes: Vec<KeyStroke> = Vec::new();
            strokes.push(KeyStroke { vk: *win_vk, key_up: false });
            strokes.push(KeyStroke { vk: *win_vk, key_up: true });
            assert(strokes@ =~= presses(chord_keys(action@)) + releases(chord_keys(action@)));
            ReplayPlan::Strokes(strokes)
        },
        ReplayAction::ReplayWinChord { win_vk, modifier_vks, key_vk } => {
            let ghost chord = chord_keys(action@);
            let ghost n = modifier_vks@.len();
            let mut strokes: Vec<KeyStroke> = Vec::new();
            strokes.push(KeyStroke { vk: *win_vk, key_up: false });
            let mut i: usize = 0;
            while i < modifier_vks.len()
                invariant
                    i <= modifier_vks.len(),
                    chord == (seq![*win_vk] + modifier_vks@).push(*key_vk),
                    strokes@ == presses(chord.take(i + 1)),
                decreases modifier_vks.len() - i,
            {
                strokes.push(KeyStroke { vk: modifier_vks[i], key_up: false });
                assert(strokes@ =~= presses(chord.take(i + 2)));
                i = i + 1;
            }
            strokes.push(KeyStroke { vk: *key_vk, key_up: false });
            assert(strokes@ =~= presses(chord));
            strokes.push(KeyStroke { vk: *key_vk, key_up: true });
            let mut left: usize = modifier_vks.len();
            assert(strokes@ =~= presses(chord) + releases(chord).take(1));
            while left > 0
                invariant
                    left <= modifier_vks.len(),
                    n == modifier_vks@.len(),
                    chord == (seq![*win_vk] + modifier_vks@).push(*key_vk),
                    strokes@ == presses(chord) + releases(chord).take(n - left + 1),
                decreases left,
            {
                left = left - 1;
                strokes.push(KeyStroke { vk: modifier_vks[left], key_up: true });
                assert(strokes@ =~= presses(chord) + releases(chord).take(n - left + 1));
            }
            strokes.push(KeyStroke { vk: *win_vk, key_up: true });
            assert(strokes@ =~= presses(chord) + releases(chord));
            ReplayPlan::Strokes(strokes)
        },
    }
}

/// Whether the chord opens the shell's screenshot overlay: shift keys alone between the
/// Windows key and `S`.
pub open spec fn opens_screenshot_overlay(modifier_vks: Seq<u32>, key_vk: u32) -> bool {
    &&& key_vk == START_MENU_TRANSFER_KEY
    &&& modifier_vks.len() > 0
    &&& forall|i: int| 0 <= i < modifier_vks.len() ==> shift_key(#[trigger] modifier_vks[i])
}

pub fn is_shell_screenshot_overlay_chord(modifier_vks: &[u32], key_vk: u32) -> (r: bool)
    ensures
        r == opens_screenshot_overlay(modifier_vks@, key_vk),
{
    if key_vk != START_MENU_TRANSFER_KEY || modifier_vks.len() == 0 {
        return false;
    }
    let mut i: usize = 0;
    while i < modifier_vks.len()
        invariant
            i <= modifier_vks.len(),
            forall|j: int| 0 <= j < i ==> shift_key(#[trigger] modifier_vks@[j]),
        decreases modifier_vks.len() - i,
    {
        if !is_shift_vk(modifier_vks[i]) {
            return false;
        }
        i = i + 1;
    }
    true
}

/// Whether the overview has to step aside before an action is played back.
pub fn replay_action_needs_shell_screenshot_escape(action: &ReplayAction) -> (r: bool)
    ensures
        r == (match action@ {
            ReplayView::ReplayWinChord { win_vk, modifier_vks, key_vk } => opens_screenshot_overlay(
                modifier_vks,
                key_vk,
            ),
            _ => false,
        }),
{
    match action {
        ReplayAction::LockWorkstation => false,
        ReplayAction::WinTap { win_vk: _ } => false,
        ReplayAction::ReplayWinChord { win_vk: _, modifier_vks, key_vk } => {
            is_shell_screenshot_overlay_chord(modifier_vks, *key_vk)
        },
    }
}

/// Playing a chord back presses and releases every key, in mirrored order.
pub proof fn law_replay_is_balanced(chord: Seq<u32>)
    ensures
        ({
            let strokes = presses(chord) + releases(chord);
            &&& strokes.len() == 2 * chord.len()
            &&& forall|i: int|
                0 <= i < chord.len() ==> (#[trigger] strokes[i]) == KeyStroke::down(chord[i])
                    && strokes[strokes.len() - 1 - i] == KeyStroke::up(chord[i])
        }),
{
}

/// A played-back chord goes down with the Windows key first, its modifiers next and its last key
/// at the end, and comes up the other way round; a tap is the Windows key alone. Windows keys
/// are sent as extended keys.
pub proof fn law_chords_are_played_back_in_order(
    win_vk: u32,
    modifier_vks: Seq<u32>,
    key_vk: u32,
    i: int,
)
    ensures
        ({
            let chord = chord_keys(ReplayView::ReplayWinChord { win_vk, modifier_vks, key_vk });
            &&& chord.len() == modifier_vks.len() + 2
            &&& chord[0] == win_vk
            &&& 0 <= i < modifier_vks.len() ==> chord[i + 1] == modifier_vks[i]
            &&& chord[chord.len() - 1] == key_vk
            &&& chord_keys(ReplayView::WinTap { win_vk }) == seq![win_vk]
        }),
{
}

/// What is sent to play an action back: each key of the chord goes down once, in order, and then
/// comes up once, in the opposite order.
pub proof fn law_replays_press_and_release(action: &ReplayAction, plan: ReplayPlan, i: int)
    requires
        call_ensures(replay_action, (action,), plan),
    ensures
        plan is LockWorkstation <==> action@ is LockWorkstation,
        plan matches ReplayPlan::Strokes(strokes) ==> {
            let chord = chord_keys(action@);
            &&& strokes@.len() == 2 * chord.len()
            &&& 0 <= i < chord.len() ==> strokes@[i].vk == chord[i] && !strokes@[i].key_up
            &&& 0 <= i < chord.len() ==> strokes@[strokes@.len() - 1 - i].vk == chord[i]
                && strokes@[strokes@.len() - 1 - i].key_up
        },
{
    law_replay_is_balanced(chord_keys(action@));
}

/// A chord opens the screenshot overlay exactly where its last key is `S` and the keys between
/// are shift keys, at least one of them.
pub proof fn law_screenshot_chords_are_shifted(modifier_vks: Seq<u32>, key_vk: u32)
    ensures
        opens_screenshot_overlay(modifier_vks, key_vk) <==> key_vk == 'S' as u32
            && modifier_vks.len() > 0 && forall|i: int|
            0 <= i < modifier_vks.len() ==> (#[trigger] modifier_vks[i]) == 0x10 || modifier_vks[i]
                == 0xa0 || modifier_vks[i] == 0xa1,
{
    if opens_screenshot_overlay(modifier_vks, key_vk) {
        assert forall|i: int| 0 <= i < modifier_vks.len() implies (
        #[trigger] modifier_vks[i]) == 0x10 || modifier_vks[i] == 0xa0 || modifier_vks[i]
            == 0xa1 by {
            assert(shift_key(modifier_vks[i]));
        }
    }
}

} // verus!
