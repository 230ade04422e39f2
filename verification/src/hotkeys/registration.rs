//! Hotkey bindings that have been resolved to keys.

use crate::control::WatchCommand;
use vstd::prelude::*;

verus! {

/// A binding of a command to a key and the modifiers that go with it.
#[derive(Clone, Debug, PartialEq, Eq)]
pub struct NativeHotkeyRegistration {
    pub trigger: String,
    pub command: WatchCommand,
    pub register_modifiers: u32,
    pub required_modifiers: u32,
    pub key: u32,
}

/// The first registration for a key under exactly the given modifiers.
pub open spec fn first_registration(
    registrations: Seq<NativeHotkeyRegistration>,
    key: u32,
    mask: u32,
) -> Option<NativeHotkeyRegistration>
    decreases registrations.len(),
{
    if registrations.len() == 0 {
        None
    } else if registrations[0].key == key && registrations[0].required_modifiers == mask {
        Some(registrations[0])
    } else {
        first_registration(registrations.skip(1), key, mask)
    }
}

/// Finds the first registration for a key under exactly the given modifiers.
pub fn find_by_key_and_modifiers(
    registrations: &Vec<NativeHotkeyRegistration>,
    key: u32,
    mask: u32,
) -> (r: Option<&NativeHotkeyRegistration>)
    ensures
        match r {
            Some(found) => first_registration(registrations@, key, mask) == Some(*found),
            None => first_registration(registrations@, key, mask) is None,
        },
{
    let mut i: usize = 0;
    assert(registrations@.skip(0) =~= registrations@);
    while i < registrations.len()
        invariant
            i <= registrations.len(),
            first_registration(registrations@.skip(i as int), key, mask) == first_registration(
                registrations@,
                key,
                mask,
            ),
        decreases registrations.len() - i,
    {
        if registrations[i].key == key && registrations[i].required_modifiers == mask {
            return Some(&registrations[i]);
        }
        assert(registrations@.skip(i as int).skip(1) =~= registrations@.skip(i + 1));
        i = i + 1;
    }
    None
}

/// A registration that is found is one of the list, for that key and those modifiers, and
/// none is found exactly where no such one is in the list.
pub proof fn lemma_first_registration(
    registrations: Seq<NativeHotkeyRegistration>,
    key: u32,
    mask: u32,
)
    ensures
        match first_registration(registrations, key, mask) {
            Some(found) => {
                &&& found.key == key
                &&& found.required_modifiers == mask
                &&& registrations.contains(found)
            },
            None => forall|i: int|
                0 <= i < registrations.len() ==> (#[trigger] registrations[i]).key != key
                    || registrations[i].required_modifiers != mask,
        },
    decreases registrations.len(),
{
    if registrations.len() > 0 {
        let rest = registrations.skip(1);
        if registrations[0].key == key && registrations[0].required_modifiers == mask {
            assert(registrations.contains(registrations[0]));
        } else {
            lemma_first_registration(rest, key, mask);
            if first_registration(rest, key, mask) is Some {
                let found = first_registration(rest, key, mask)->0;
                let i = choose|i: int| 0 <= i < rest.len() && rest[i] == found;
                assert(registrations[i + 1] == found);
            } else {
                assert forall|i: int| 0 <= i < registrations.len() implies (
                #[trigger] registrations[i]).key != key || registrations[i].required_modifiers
                    != mask by {
                    if i > 0 {
                        assert(rest[i - 1] == registrations[i]);
                    }
                }
            }
        }
    }
}

} // verus!
