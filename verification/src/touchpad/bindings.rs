//! Gestures and the commands bound to them.

use crate::control::WatchCommand;
use crate::text::{quoted, same_text};
use vstd::prelude::*;
use vstd::string::*;

verus! {

use crate::control::law_command_names_are_distinct;

/// Why the touchpad listener could not be started.
#[derive(Debug)]
pub enum TouchpadListenerError {
    Startup(String),
}

impl TouchpadListenerError {
    pub open spec fn text(self) -> Seq<char> {
        self->Startup_0@
    }

    /// The message that is shown to the user.
    pub fn message(&self) -> (r: String)
        ensures
            r@ == self.text(),
    {
        match self {
            TouchpadListenerError::Startup(message) => message.clone(),
        }
    }
}

#[derive(Clone, Copy, Debug, PartialEq, Eq, Structural)]
pub enum TouchpadGesture {
    ThreeFingerSwipeLeft,
    ThreeFingerSwipeRight,
    ThreeFingerSwipeUp,
    ThreeFingerSwipeDown,
    FourFingerSwipeLeft,
    FourFingerSwipeRight,
    FourFingerSwipeUp,
    FourFingerSwipeDown,
}

/// A configured binding: the name of a gesture and the name of a command.
#[derive(Clone, Debug, PartialEq, Eq)]
pub struct TouchpadGestureBinding {
    pub gesture: String,
    pub command: String,
}

/// The touchpad part of the configuration.
#[derive(Clone, Debug, PartialEq, Eq)]
pub struct TouchpadConfig {
    pub override_enabled: bool,
    pub gestures: Vec<TouchpadGestureBinding>,
}

impl TouchpadGesture {
    pub open spec fn name(self) -> Seq<char> {
        match self {
            TouchpadGesture::ThreeFingerSwipeLeft => "three-finger-swipe-left"@,
            TouchpadGesture::ThreeFingerSwipeRight => "three-finger-swipe-right"@,
            TouchpadGesture::ThreeFingerSwipeUp => "three-finger-swipe-up"@,
            TouchpadGesture::ThreeFingerSwipeDown => "three-finger-swipe-down"@,
            TouchpadGesture::FourFingerSwipeLeft => "four-finger-swipe-left"@,
            TouchpadGesture::FourFingerSwipeRight => "four-finger-swipe-right"@,
            TouchpadGesture::FourFingerSwipeUp => "four-finger-swipe-up"@,
            TouchpadGesture::FourFingerSwipeDown => "four-finger-swipe-down"@,
        }
    }

    /// The gesture of a name.
    pub fn parse(value: &str) -> (r: Result<TouchpadGesture, TouchpadListenerError>)
        ensures
            match r {
                Ok(gesture) => gesture.name() == value@,
                Err(error) => {
                    &&& forall|gesture: TouchpadGesture| #[trigger] gesture.name() != value@
                    &&& error.text() == unsupported_gesture(value@)
                },
            },
    {
        if same_text(value, "three-finger-swipe-left") {
            Ok(TouchpadGesture::ThreeFingerSwipeLeft)
        } else if same_text(value, "three-finger-swipe-right") {
            Ok(TouchpadGesture::ThreeFingerSwipeRight)
        } else if same_text(value, "three-finger-swipe-up") {
            Ok(TouchpadGesture::ThreeFingerSwipeUp)
        } else if same_text(value, "three-finger-swipe-down") {
            Ok(TouchpadGesture::ThreeFingerSwipeDown)
        } else if same_text(value, "four-finger-swipe-left") {
            Ok(TouchpadGesture::FourFingerSwipeLeft)
        } else if same_text(value, "four-finger-swipe-right") {
            Ok(TouchpadGesture::FourFingerSwipeRight)
        } else if same_text(value, "four-finger-swipe-up") {
            Ok(TouchpadGesture::FourFingerSwipeUp)
        } else if same_text(value, "four-finger-swipe-down") {
            Ok(TouchpadGesture::FourFingerSwipeDown)
        } else {
            Err(
                TouchpadListenerError::Startup(
                    quoted("unsupported touchpad gesture '", value, "'"),
                ),
            )
        }
    }
}

pub open spec fn unsupported_gesture(name: Seq<char>) -> Seq<char> {
    "unsupported touchpad gesture '"@ + name + "'"@
}

/// The name of a gesture.
pub fn gesture_name(gesture: TouchpadGesture) -> (r: &'static str)
    ensures
        r@ == gesture.name(),
{
    match gesture {
        TouchpadGesture::ThreeFingerSwipeLeft => "three-finger-swipe-left",
        TouchpadGesture::ThreeFingerSwipeRight => "three-finger-swipe-right",
        TouchpadGesture::ThreeFingerSwipeUp => "three-finger-swipe-up",
        TouchpadGesture::ThreeFingerSwipeDown => "three-finger-swipe-down",
        TouchpadGesture::FourFingerSwipeLeft => "four-finger-swipe-left",
        TouchpadGesture::FourFingerSwipeRight => "four-finger-swipe-right",
        TouchpadGesture::FourFingerSwipeUp => "four-finger-swipe-up",
        TouchpadGesture::FourFingerSwipeDown => "four-finger-swipe-down",
    }
}

/// No two gestures share a name, so the name of a gesture leads back to it.
pub proof fn law_gesture_names_are_distinct(a: TouchpadGesture, b: TouchpadGesture)
    ensures
        a.name() == b.name() ==> a == b,
{
    reveal_strlit("three-finger-swipe-left");
    reveal_strlit("three-finger-swipe-right");
    reveal_strlit("three-finger-swipe-up");
    reveal_strlit("three-finger-swipe-down");
    reveal_strlit("four-finger-swipe-left");
    reveal_strlit("four-finger-swipe-right");
    reveal_strlit("four-finger-swipe-up");
    reveal_strlit("four-finger-swipe-down");
    assert("three-finger-swipe-left"@.len() == 23 && "three-finger-swipe-left"@[0] == 't');
    assert("three-finger-swipe-right"@.len() == 24 && "three-finger-swipe-right"@[0] == 't');
    assert("three-finger-swipe-up"@.len() == 21 && "three-finger-swipe-up"@[0] == 't');
    assert("three-finger-swipe-down"@.len() == 23 && "three-finger-swipe-down"@[0] == 't');
    assert("three-finger-swipe-left"@[19] == 'l' && "three-finger-swipe-down"@[19] == 'd');
    assert("four-finger-swipe-left"@.len() == 22 && "four-finger-swipe-left"@[0] == 'f');
    assert("four-finger-swipe-right"@.len() == 23 && "four-finger-swipe-right"@[0] == 'f');
    assert("four-finger-swipe-up"@.len() == 20 && "four-finger-swipe-up"@[0] == 'f');
    assert("four-finger-swipe-down"@.len() == 22 && "four-finger-swipe-down"@[0] == 'f');
    assert("four-finger-swipe-left"@[18] == 'l' && "four-finger-swipe-down"@[18] == 'd');
}

/// A binding whose gesture and command are known.
#[derive(Clone, Copy, Debug, PartialEq, Eq, Structural)]
pub struct NormalizedTouchpadBinding {
    pub gesture: TouchpadGesture,
    pub command: WatchCommand,
}

pub open spec fn unsupported_command(gesture: Seq<char>, command: Seq<char>) -> Seq<char> {
    "touchpad gesture '"@ + gesture + "' uses unsupported command '"@ + command + "'"@
}

/// What a configured binding means.
pub open spec fn normalized(binding: TouchpadGestureBinding) -> Result<
    NormalizedTouchpadBinding,
    Seq<char>,
> {
    if !(exists|gesture: TouchpadGesture| #[trigger] gesture.name() == binding.gesture@) {
        Err(unsupported_gesture(binding.gesture@))
    } else if !(exists|command: WatchCommand|
        command.bindable() && #[trigger] command.name() == binding.command@) {
        Err(unsupported_command(binding.gesture@, binding.command@))
    } else {
        Ok(
            NormalizedTouchpadBinding {
                gesture: choose|gesture: TouchpadGesture| #[trigger]
                    gesture.name() == binding.gesture@,
                command: choose|command: WatchCommand|
                    command.bindable() && #[trigger] command.name() == binding.command@,
            },
        )
    }
}

/// Resolves the gesture and the command of a configured binding.
pub fn normalize_binding(binding: &TouchpadGestureBinding) -> (r: Result<
    NormalizedTouchpadBinding,
    TouchpadListenerError,
>)
    ensures
        match r {
            Ok(resolved) => {
                &&& normalized(*binding) == Ok::<NormalizedTouchpadBinding, Seq<char>>(resolved)
                &&& resolved.gesture.name() == binding.gesture@
                &&& resolved.command.bindable() && resolved.command.name() == binding.command@
            },
            Err(error) => normalized(*binding) == Err::<NormalizedTouchpadBinding, Seq<char>>(
                error.text(),
            ),
        },
{
    let gesture: TouchpadGesture = match TouchpadGesture::parse(binding.gesture.as_str()) {
        Ok(gesture) => gesture,
        Err(error) => {
            return Err(error);
        },
    };
    proof {
        assert(gesture.name() == binding.gesture@);
    }
    match WatchCommand::from_input_command(binding.command.as_str()) {
        None => {
            let mut message: String = "touchpad gesture '".to_owned();
            message.append(binding.gesture.as_str());
            message.append("' uses unsupported command '");
            message.append(binding.command.as_str());
            message.append("'");
            Err(TouchpadListenerError::Startup(message))
        },
        Some(command) => {
            proof {
                assert(command.bindable() && command.name() == binding.command@);
                let chosen = normalized(*binding)->Ok_0;
                law_gesture_names_are_distinct(gesture, chosen.gesture);
                crate::control::law_command_names_are_distinct(command, chosen.command);
            }
            Ok(NormalizedTouchpadBinding { gesture, command })
        },
    }
}

/// The commands of a configuration by gesture; of two bindings of a gesture the later one
/// stands. The first binding that means nothing spoils the whole.
pub open spec fn bound(bindings: Seq<TouchpadGestureBinding>) -> Result<
    Map<TouchpadGesture, WatchCommand>,
    Seq<char>,
>
    decreases bindings.len(),
{
    if bindings.len() == 0 {
        Ok(Map::empty())
    } else {
        match bound(bindings.drop_last()) {
            Err(error) => Err(error),
            Ok(map) => match normalized(bindings.last()) {
                Err(error) => Err(error),
                Ok(resolved) => Ok(map.insert(resolved.gesture, resolved.command)),
            },
        }
    }
}

/// The commands of a configuration by gesture.
#[derive(Clone, Debug, PartialEq, Eq)]
pub struct TouchpadBindingSet {
    pub bindings: Vec<NormalizedTouchpadBinding>,
}

impl View for TouchpadBindingSet {
    type V = Map<TouchpadGesture, WatchCommand>;

    open spec fn view(&self) -> Map<TouchpadGesture, WatchCommand> {
        as_map(self.bindings@)
    }
}

/// Whether the pair at an index is for a gesture.
pub open spec fn is_for(
    pairs: Seq<NormalizedTouchpadBinding>,
    i: int,
    gesture: TouchpadGesture,
) -> bool {
    0 <= i < pairs.len() && pairs[i].gesture == gesture
}

pub open spec fn as_map(pairs: Seq<NormalizedTouchpadBinding>) -> Map<
    TouchpadGesture,
    WatchCommand,
> {
    Map::new(
        |gesture: TouchpadGesture| exists|i: int| is_for(pairs, i, gesture),
        |gesture: TouchpadGesture| pairs[choose|i: int| is_for(pairs, i, gesture)].command,
    )
}

/// No gesture is listed twice.
pub open spec fn no_gesture_twice(pairs: Seq<NormalizedTouchpadBinding>) -> bool {
    forall|i: int, j: int|
        0 <= i < j < pairs.len() ==> (#[trigger] pairs[i]).gesture != (#[trigger] pairs[j]).gesture
}

impl TouchpadBindingSet {
    pub open spec fn wf(self) -> bool {
        no_gesture_twice(self.bindings@)
    }

    pub fn new() -> (r: TouchpadBindingSet)
        ensures
            r.wf(),
            r@ == Map::<TouchpadGesture, WatchCommand>::empty(),
    {
        let r: TouchpadBindingSet = TouchpadBindingSet { bindings: Vec::new() };
        assert(r@ =~= Map::empty());
        r
    }

    /// Binds a command to a gesture, in place of an earlier one.
    pub fn insert(&mut self, gesture: TouchpadGesture, command: WatchCommand)
        requires
            old(self).wf(),
        ensures
            final(self).wf(),
            final(self)@ == old(self)@.insert(gesture, command),
    {
        let ghost before = self.bindings@;
        let ghost resolved = NormalizedTouchpadBinding { gesture, command };
        let mut i: usize = 0;
        while i < self.bindings.len()
            invariant
                i <= self.bindings.len(),
                self.bindings@ == before,
                no_gesture_twice(before),
                old(self).bindings@ == before,
                resolved == (NormalizedTouchpadBinding { gesture, command }),
                forall|j: int| 0 <= j < i ==> (#[trigger] before[j]).gesture != gesture,
            decreases self.bindings.len() - i,
        {
            if self.bindings[i].gesture == gesture {
                self.bindings.set(i, NormalizedTouchpadBinding { gesture, command });
                proof {
                    assert(self.bindings@ == before.update(i as int, resolved));
                    lemma_as_map_after(before, self.bindings@, i as int, resolved);
                }
                return;
            }
            i = i + 1;
        }
        self.bindings.push(NormalizedTouchpadBinding { gesture, command });
        proof {
            lemma_as_map_after(before, self.bindings@, before.len() as int, resolved);
        }
    }

    /// The commands of a configuration, or why it has none.
    pub fn from_config(config: &TouchpadConfig) -> (r: Result<
        TouchpadBindingSet,
        TouchpadListenerError,
    >)
        ensures
            match r {
                Ok(set) => set.wf() && bound(config.gestures@) == Ok::<
                    Map<TouchpadGesture, WatchCommand>,
                    Seq<char>,
                >(set@),
                Err(error) => bound(config.gestures@) == Err::<
                    Map<TouchpadGesture, WatchCommand>,
                    Seq<char>,
                >(error.text()),
            },
    {
        let mut set: TouchpadBindingSet = TouchpadBindingSet::new();
        let mut i: usize = 0;
        assert(config.gestures@.take(0) =~= Seq::empty());
        while i < config.gestures.len()
            invariant
                i <= config.gestures.len(),
                set.wf(),
                bound(config.gestures@.take(i as int)) == Ok::<
                    Map<TouchpadGesture, WatchCommand>,
                    Seq<char>,
                >(set@),
            decreases config.gestures.len() - i,
        {
            proof {
                assert(config.gestures@.take(i + 1).drop_last() =~= config.gestures@.take(
                    i as int,
                ));
            }
            match normalize_binding(&config.gestures[i]) {
                Ok(resolved) => {
                    set.insert(resolved.gesture, resolved.command);
                },
                Err(error) => {
                    proof {
                        lemma_bound_error_stays(config.gestures@, i + 1);
                    }
                    return Err(error);
                },
            }
            i = i + 1;
        }
        assert(config.gestures@.take(config.gestures@.len() as int) =~= config.gestures@);
        Ok(set)
    }

    /// How many gestures have a command.
    pub fn len(&self) -> (r: usize)
        requires
            self.wf(),
        ensures
            r == self@.dom().len(),
            self@.dom().finite(),
    {
        proof {
            lemma_dom_len(self.bindings@);
        }
        self.bindings.len()
    }

    /// The command of a gesture.
    pub fn command_for(&self, gesture: TouchpadGesture) -> (r: Option<WatchCommand>)
        requires
            self.wf(),
        ensures
            match r {
                Some(command) => self@.contains_key(gesture) && self@[gesture] == command,
                None => !self@.contains_key(gesture),
            },
    {
        let mut i: usize = 0;
        while i < self.bindings.len()
            invariant
                i <= self.bindings.len(),
                self.wf(),
                forall|j: int| 0 <= j < i ==> (#[trigger] self.bindings@[j]).gesture != gesture,
            decreases self.bindings.len() - i,
        {
            if self.bindings[i].gesture == gesture {
                proof {
                    assert(is_for(self.bindings@, i as int, gesture));
                    lemma_as_map_at(self.bindings@, i as int);
                }
                return Some(self.bindings[i].command);
            }
            i = i + 1;
        }
        None
    }
}

proof fn lemma_as_map_at(pairs: Seq<NormalizedTouchpadBinding>, i: int)
    requires
        no_gesture_twice(pairs),
        0 <= i < pairs.len(),
    ensures
        as_map(pairs).contains_key(pairs[i].gesture),
        as_map(pairs)[pairs[i].gesture] == pairs[i].command,
{
    let gesture = pairs[i].gesture;
    assert(is_for(pairs, i, gesture));
    let j = choose|j: int| is_for(pairs, j, gesture);
    if j < i {
        assert(pairs[j].gesture != pairs[i].gesture);
    } else if i < j {
        assert(pairs[i].gesture != pairs[j].gesture);
    }
}

/// Setting the pair at `at` (or appending it) inserts it into the map.
proof fn lemma_as_map_after(
    before: Seq<NormalizedTouchpadBinding>,
    after: Seq<NormalizedTouchpadBinding>,
    at: int,
    resolved: NormalizedTouchpadBinding,
)
    requires
        no_gesture_twice(before),
        0 <= at <= before.len(),
        at < before.len() ==> before[at].gesture == resolved.gesture && after == before.update(
            at,
            resolved,
        ),
        at == before.len() ==> after == before.push(resolved) && forall|j: int|
            0 <= j < before.len() ==> (#[trigger] before[j]).gesture != resolved.gesture,
    ensures
        no_gesture_twice(after),
        as_map(after) == as_map(before).insert(resolved.gesture, resolved.command),
{
    assert forall|i: int, j: int| 0 <= i < j < after.len() implies (#[trigger] after[i]).gesture
        != (#[trigger] after[j]).gesture by {
        if at < before.len() {
            assert(before[i].gesture != before[j].gesture);
        } else if j < before.len() {
            assert(before[i].gesture != before[j].gesture);
        } else {
            assert(before[i].gesture != resolved.gesture);
        }
    }
    let target = as_map(before).insert(resolved.gesture, resolved.command);
    assert forall|gesture: TouchpadGesture| #[trigger]
        as_map(after).contains_key(gesture) <==> target.contains_key(gesture) by {
        if as_map(after).contains_key(gesture) {
            let i = choose|i: int| is_for(after, i, gesture);
            if i != at {
                assert(is_for(before, i, gesture));
            }
        }
        if as_map(before).contains_key(gesture) {
            let i = choose|i: int| is_for(before, i, gesture);
            assert(is_for(after, i, gesture));
        }
        if gesture == resolved.gesture {
            assert(is_for(after, at, gesture));
        }
    }
    assert forall|gesture: TouchpadGesture| #[trigger]
        as_map(after).contains_key(gesture) implies as_map(after)[gesture] == target[gesture] by {
        let i = choose|i: int| is_for(after, i, gesture);
        lemma_as_map_at(after, i);
        lemma_as_map_at(after, at);
        if gesture != resolved.gesture {
            assert(i != at);
            assert(before[i] == after[i]);
            lemma_as_map_at(before, i);
        }
    }
    assert(as_map(after) =~= target);
}

proof fn lemma_bound_error_stays(bindings: Seq<TouchpadGestureBinding>, n: int)
    requires
        0 <= n <= bindings.len(),
        bound(bindings.take(n)) is Err,
    ensures
        bound(bindings) == bound(bindings.take(n)),
    decreases bindings.len(),
{
    if n == bindings.len() {
        assert(bindings.take(n) =~= bindings);
    } else {
        assert(bindings.drop_last().take(n) =~= bindings.take(n));
        lemma_bound_error_stays(bindings.drop_last(), n);
    }
}

proof fn lemma_dom_len(pairs: Seq<NormalizedTouchpadBinding>)
    requires
        no_gesture_twice(pairs),
    ensures
        as_map(pairs).dom().finite(),
        as_map(pairs).dom().len() == pairs.len(),
    decreases pairs.len(),
{
    if pairs.len() == 0 {
        assert(as_map(pairs).dom() =~= Set::empty());
    } else {
        let rest = pairs.drop_last();
        assert(no_gesture_twice(rest)) by {
            assert forall|i: int, j: int| 0 <= i < j < rest.len() implies (
            #[trigger] rest[i]).gesture != (#[trigger] rest[j]).gesture by {
                assert(pairs[i].gesture != pairs[j].gesture);
            }
        }
        lemma_dom_len(rest);
        assert forall|j: int| 0 <= j < rest.len() implies (#[trigger] rest[j]).gesture
            != pairs.last().gesture by {
            assert(pairs[j].gesture != pairs[pairs.len() - 1].gesture);
        }
        assert(rest.push(pairs.last()) =~= pairs);
        lemma_as_map_after(rest, pairs, rest.len() as int, pairs.last());
        assert(as_map(pairs).dom() =~= as_map(rest).dom().insert(pairs.last().gesture));
        if as_map(rest).dom().contains(pairs.last().gesture) {
            let i = choose|i: int| is_for(rest, i, pairs.last().gesture);
            assert(rest[i].gesture != pairs.last().gesture);
        }
    }
}

/// The gestures of a configuration whose bindings all mean something.
pub open spec fn gestures_of(bindings: Seq<TouchpadGestureBinding>) -> Seq<TouchpadGesture> {
    bindings.map_values(|binding: TouchpadGestureBinding| normalized(binding)->Ok_0.gesture)
}

/// There are as many bound gestures as bindings exactly where no gesture is bound twice.
pub proof fn law_duplicates_show_in_the_count(bindings: Seq<TouchpadGestureBinding>)
    requires
        bound(bindings) is Ok,
    ensures
        bound(bindings)->Ok_0.dom().finite(),
        bound(bindings)->Ok_0.dom() == gestures_of(bindings).to_set(),
        bound(bindings)->Ok_0.dom().len() <= bindings.len(),
        bound(bindings)->Ok_0.dom().len() == bindings.len() <==> gestures_of(
            bindings,
        ).no_duplicates(),
    decreases bindings.len(),
{
    let map = bound(bindings)->Ok_0;
    let names = gestures_of(bindings);
    if bindings.len() == 0 {
        assert(map.dom() =~= names.to_set());
    } else {
        let rest = bindings.drop_last();
        law_duplicates_show_in_the_count(rest);
        let rest_map = bound(rest)->Ok_0;
        let rest_names = gestures_of(rest);
        let last = normalized(bindings.last())->Ok_0.gesture;
        assert(names =~= rest_names.push(last));
        assert(map.dom() =~= rest_map.dom().insert(last));
        assert(names.to_set() =~= rest_names.to_set().insert(last)) by {
            assert forall|g: TouchpadGesture| names.to_set().contains(g) <==> #[trigger]
                rest_names.to_set().insert(last).contains(g) by {
                if rest_names.contains(g) {
                    let i = choose|i: int| 0 <= i < rest_names.len() && rest_names[i] == g;
                    assert(names[i] == g);
                }
                if g == last {
                    assert(names[rest_names.len() as int] == g);
                }
                if names.contains(g) {
                    let i = choose|i: int| 0 <= i < names.len() && names[i] == g;
                    if i < rest_names.len() {
                        assert(rest_names[i] == g);
                    }
                }
            }
        }
        if names.no_duplicates() {
            assert forall|i: int, j: int|
                0 <= i < rest_names.len() && 0 <= j < rest_names.len() && i
                    != j implies rest_names[i] != rest_names[j] by {
                assert(names[i] != names[j]);
            }
            if rest_names.contains(last) {
                let i = choose|i: int| 0 <= i < rest_names.len() && rest_names[i] == last;
                assert(names[i] != names[rest_names.len() as int]);
            }
        }
        if map.dom().len() == bindings.len() {
            assert(!rest_map.dom().contains(last));
            assert(rest_names.no_duplicates());
            assert forall|i: int, j: int|
                0 <= i < names.len() && 0 <= j < names.len() && i != j implies names[i]
                != names[j] by {
                if i < rest_names.len() && j < rest_names.len() {
                    assert(rest_names[i] != rest_names[j]);
                } else if i < rest_names.len() {
                    assert(rest_names.contains(rest_names[i]));
                } else {
                    assert(rest_names.contains(rest_names[j]));
                }
            }
        }
    }
}

pub open spec fn unsupported_ipc(gesture: TouchpadGesture, command: WatchCommand) -> Seq<char> {
    "touchpad gesture '"@ + gesture.name() + "' resolves to unsupported IPC command '"@
        + command.name() + "'"@
}

/// The client command that a gesture of a configuration stands for.
pub fn ipc_command_for_touchpad_gesture(config: &TouchpadConfig, gesture: &str) -> (r: Result<
    Option<&'static str>,
    TouchpadListenerError,
>)
    ensures
        match bound(config.gestures@) {
            Err(message) => r is Err && r->Err_0.text() == message,
            Ok(map) => match r {
                Ok(found) => exists|g: TouchpadGesture| #[trigger]
                    g.name() == gesture@ && match found {
                        Some(name) => map.contains_key(g) && map[g].ipc_name() == Some(name@),
                        None => !map.contains_key(g),
                    },
                Err(error) => if exists|g: TouchpadGesture| #[trigger] g.name() == gesture@ {
                    exists|g: TouchpadGesture| #[trigger]
                        g.name() == gesture@ && map.contains_key(g) && map[g].ipc_name() is None
                            && error.text() == unsupported_ipc(g, map[g])
                } else {
                    error.text() == unsupported_gesture(gesture@)
                },
            },
        },
{
    let bindings: TouchpadBindingSet = match TouchpadBindingSet::from_config(config) {
        Ok(bindings) => bindings,
        Err(error) => {
            return Err(error);
        },
    };
    let gesture: TouchpadGesture = match TouchpadGesture::parse(gesture) {
        Ok(gesture) => gesture,
        Err(error) => {
            return Err(error);
        },
    };
    let command: WatchCommand = match bindings.command_for(gesture) {
        Some(command) => command,
        None => {
            return Ok(None);
        },
    };
    match command.as_ipc_command_name() {
        Some(name) => Ok(Some(name)),
        None => {
            let mut message: String = "touchpad gesture '".to_owned();
            message.append(gesture_name(gesture));
            message.append("' resolves to unsupported IPC command '");
            message.append(command.as_hotkey_command_name());
            message.append("'");
            Err(TouchpadListenerError::Startup(message))
        },
    }
}

/// Every gesture is bound under the name that tells its fingers and its direction.
pub proof fn law_gestures_go_by_their_names(gesture: TouchpadGesture)
    ensures
        gesture == TouchpadGesture::ThreeFingerSwipeLeft <==> gesture.name() == "three-finger-swipe-left"@,
        gesture == TouchpadGesture::ThreeFingerSwipeRight <==> gesture.name() == "three-finger-swipe-right"@,
        gesture == TouchpadGesture::ThreeFingerSwipeUp <==> gesture.name() == "three-finger-swipe-up"@,
        gesture == TouchpadGesture::ThreeFingerSwipeDown <==> gesture.name() == "three-finger-swipe-down"@,
        gesture == TouchpadGesture::FourFingerSwipeLeft <==> gesture.name() == "four-finger-swipe-left"@,
        gesture == TouchpadGesture::FourFingerSwipeRight <==> gesture.name() == "four-finger-swipe-right"@,
        gesture == TouchpadGesture::FourFingerSwipeUp <==> gesture.name() == "four-finger-swipe-up"@,
        gesture == TouchpadGesture::FourFingerSwipeDown <==> gesture.name() == "four-finger-swipe-down"@,
{
    law_gesture_names_are_distinct(gesture, TouchpadGesture::ThreeFingerSwipeLeft);
    law_gesture_names_are_distinct(gesture, TouchpadGesture::ThreeFingerSwipeRight);
    law_gesture_names_are_distinct(gesture, TouchpadGesture::ThreeFingerSwipeUp);
    law_gesture_names_are_distinct(gesture, TouchpadGesture::ThreeFingerSwipeDown);
    law_gesture_names_are_distinct(gesture, TouchpadGesture::FourFingerSwipeLeft);
    law_gesture_names_are_distinct(gesture, TouchpadGesture::FourFingerSwipeRight);
    law_gesture_names_are_distinct(gesture, TouchpadGesture::FourFingerSwipeUp);
    law_gesture_names_are_distinct(gesture, TouchpadGesture::FourFingerSwipeDown);
}

/// What a binding means: the gesture and the bindable command of its two names. A name that
/// nothing goes by is refused, the gesture's first.
pub proof fn law_bindings_mean_what_they_name(
    binding: TouchpadGestureBinding,
    gesture: TouchpadGesture,
    command: WatchCommand,
)
    ensures
        gesture.name() == binding.gesture@ && command.name() == binding.command@
            && command.bindable() ==> normalized(binding) == Ok::<
            NormalizedTouchpadBinding,
            Seq<char>,
        >(NormalizedTouchpadBinding { gesture, command }),
        (forall|g: TouchpadGesture| #[trigger] g.name() != binding.gesture@) ==> normalized(binding)
            == Err::<NormalizedTouchpadBinding, Seq<char>>(
            "unsupported touchpad gesture '"@ + binding.gesture@ + "'"@,
        ),
        gesture.name() == binding.gesture@ && (forall|c: WatchCommand|
            c.bindable() ==> #[trigger] c.name() != binding.command@) ==> normalized(binding)
            == Err::<NormalizedTouchpadBinding, Seq<char>>(
            "touchpad gesture '"@ + binding.gesture@ + "' uses unsupported command '"@
                + binding.command@ + "'"@,
        ),
{
    if gesture.name() == binding.gesture@ && command.name() == binding.command@
        && command.bindable() {
        let g = choose|g: TouchpadGesture| #[trigger] g.name() == binding.gesture@;
        let c = choose|c: WatchCommand| c.bindable() && #[trigger] c.name() == binding.command@;
        law_gesture_names_are_distinct(g, gesture);
        law_command_names_are_distinct(c, command);
    }
}

/// A gesture has the command of the last binding that names it, and none where no binding
/// does; a configuration counts exactly where each of its bindings means something.
pub proof fn law_the_last_binding_of_a_gesture_counts(
    bindings: Seq<TouchpadGestureBinding>,
    gesture: TouchpadGesture,
)
    ensures
        bound(bindings) is Ok <==> forall|i: int|
            0 <= i < bindings.len() ==> normalized(#[trigger] bindings[i]) is Ok,
        bound(bindings) matches Ok(map) ==> {
            &&& map.contains_key(gesture) <==> exists|i: int|
                0 <= i < bindings.len() && (#[trigger] bindings[i]).gesture@ == gesture.name()
            &&& forall|i: int|
                0 <= i < bindings.len() && (#[trigger] bindings[i]).gesture@ == gesture.name() && (
                forall|j: int|
                    i < j < bindings.len() ==> (#[trigger] bindings[j]).gesture@
                        != gesture.name()) ==> map[gesture].name() == bindings[i].command@
                    && map[gesture].bindable()
        },
    decreases bindings.len(),
{
    if bindings.len() > 0 {
        let rest = bindings.drop_last();
        let last = bindings.len() - 1;
        law_the_last_binding_of_a_gesture_counts(rest, gesture);
        assert forall|i: int| 0 <= i < last implies #[trigger] bindings[i] == rest[i] by {}
        if bound(bindings) is Ok {
            let map = bound(bindings)->Ok_0;
            let before = bound(rest)->Ok_0;
            let resolved = normalized(bindings[last])->Ok_0;
            assert(resolved.gesture.name() == bindings[last].gesture@);
            assert(resolved.command.name() == bindings[last].command@
                && resolved.command.bindable());
            law_gesture_names_are_distinct(resolved.gesture, gesture);
            assert forall|i: int| 0 <= i < bindings.len() implies normalized(
                #[trigger] bindings[i],
            ) is Ok by {
                if i < last {
                    assert(normalized(rest[i]) is Ok);
                }
            }
            if exists|i: int|
                0 <= i < rest.len() && (#[trigger] rest[i]).gesture@ == gesture.name() {
                let i = choose|i: int|
                    0 <= i < rest.len() && (#[trigger] rest[i]).gesture@ == gesture.name();
                assert(bindings[i].gesture@ == gesture.name());
            }
            assert forall|i: int|
                0 <= i < bindings.len() && (#[trigger] bindings[i]).gesture@ == gesture.name() && (
                forall|j: int|
                    i < j < bindings.len() ==> (#[trigger] bindings[j]).gesture@
                        != gesture.name()) implies map[gesture].name() == bindings[i].command@
                && map[gesture].bindable() by {
                if i < last {
                    assert(bindings[last].gesture@ != gesture.name());
                    assert(rest[i].gesture@ == gesture.name());
                    assert forall|j: int| i < j < rest.len() implies (
                    #[trigger] rest[j]).gesture@ != gesture.name() by {
                        assert(bindings[j].gesture@ != gesture.name());
                    }
                    assert(map[gesture] == before[gesture]);
                }
            }
            if exists|i: int|
                0 <= i < bindings.len() && (#[trigger] bindings[i]).gesture@ == gesture.name() {
                let i = choose|i: int|
                    0 <= i < bindings.len() && (#[trigger] bindings[i]).gesture@ == gesture.name();
                if i < last {
                    assert(rest[i].gesture@ == gesture.name());
                }
            }
        }
        if forall|i: int| 0 <= i < bindings.len() ==> normalized(#[trigger] bindings[i]) is Ok {
            assert forall|i: int| 0 <= i < rest.len() implies normalized(#[trigger] rest[i]) is Ok by {
                assert(normalized(bindings[i]) is Ok);
            }
            assert(normalized(bindings[last]) is Ok);
        }
    }
}

/// The first binding that means nothing is the one that is reported.
pub proof fn law_the_first_bad_binding_is_reported(bindings: Seq<TouchpadGestureBinding>, i: int)
    requires
        0 <= i < bindings.len(),
        normalized(bindings[i]) is Err,
        forall|j: int| 0 <= j < i ==> normalized(#[trigger] bindings[j]) is Ok,
    ensures
        bound(bindings) == Err::<Map<TouchpadGesture, WatchCommand>, Seq<char>>(
            normalized(bindings[i])->Err_0,
        ),
{
    let upto = bindings.take(i);
    assert forall|j: int| 0 <= j < upto.len() implies normalized(#[trigger] upto[j]) is Ok by {
        assert(normalized(bindings[j]) is Ok);
    }
    law_the_last_binding_of_a_gesture_counts(upto, TouchpadGesture::ThreeFingerSwipeLeft);
    let now = bindings.take(i + 1);
    assert(now.drop_last() =~= upto);
    assert(now.last() == bindings[i]);
    lemma_bound_error_stays(bindings, i + 1);
}

/// A bound gesture gives its command, and no other gesture does.
pub proof fn law_bound_gestures_are_found(
    set: &TouchpadBindingSet,
    gesture: TouchpadGesture,
    r: Option<WatchCommand>,
)
    requires
        set.wf(),
        call_ensures(TouchpadBindingSet::command_for, (set, gesture), r),
    ensures
        r is Some <==> set@.contains_key(gesture),
        r matches Some(command) ==> set@[gesture] == command,
{
}

} // verus!
