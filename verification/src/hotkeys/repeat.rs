//! The threads behind the keyboard hook: the one that repeats a held command, and those that
//! installed a hook.

use crate::control::WatchCommand;
use vstd::prelude::*;

verus! {

/// Milliseconds before a held command repeats for the first time.
pub const LOW_LEVEL_REPEAT_INITIAL_DELAY_MS: u64 = 180;

/// Milliseconds between later repeats of a held command.
pub const LOW_LEVEL_REPEAT_INTERVAL_MS: u64 = 45;

/// What becomes of the thread that repeats a held command.
#[derive(Clone, Copy, Debug, PartialEq, Eq, Structural)]
pub enum RepeatLoopChange {
    Keep,
    Stop,
    Start(WatchCommand),
    Restart(WatchCommand),
}

/// Compares the command that is being repeated with the one that should be.
pub fn sync_repeat_loop(running: Option<WatchCommand>, wanted: Option<WatchCommand>) -> (r:
    RepeatLoopChange)
    ensures
        r == (match (running, wanted) {
            (Some(a), Some(b)) => if a == b {
                RepeatLoopChange::Keep
            } else {
                RepeatLoopChange::Restart(b)
            },
            (Some(_), None) => RepeatLoopChange::Stop,
            (None, Some(b)) => RepeatLoopChange::Start(b),
            (None, None) => RepeatLoopChange::Keep,
        }),
{
    match (running, wanted) {
        (Some(a), Some(b)) => if a == b {
            RepeatLoopChange::Keep
        } else {
            RepeatLoopChange::Restart(b)
        },
        (Some(_), None) => RepeatLoopChange::Stop,
        (None, Some(b)) => RepeatLoopChange::Start(b),
        (None, None) => RepeatLoopChange::Keep,
    }
}

/// What the repeating thread has just been through.
#[derive(Clone, Copy, Debug, PartialEq, Eq, Structural)]
pub enum RepeatLoopEvent {
    Started,
    StopRequested,
    WaitElapsed,
    CommandSent,
    ReceiverGone,
}

/// What the repeating thread does next.
#[derive(Clone, Copy, Debug, PartialEq, Eq, Structural)]
pub enum RepeatLoopStep {
    WaitForStop { millis: u64 },
    SendCommand,
    Exit,
}

/// The repeating thread waits, sends, and waits again until it is told to stop or nobody
/// listens any more.
pub fn repeat_loop_step(event: RepeatLoopEvent) -> (r: RepeatLoopStep)
    ensures
        r == (match event {
            RepeatLoopEvent::Started => RepeatLoopStep::WaitForStop {
                millis: LOW_LEVEL_REPEAT_INITIAL_DELAY_MS,
            },
            RepeatLoopEvent::WaitElapsed => RepeatLoopStep::SendCommand,
            RepeatLoopEvent::CommandSent => RepeatLoopStep::WaitForStop {
                millis: LOW_LEVEL_REPEAT_INTERVAL_MS,
            },
            RepeatLoopEvent::StopRequested => RepeatLoopStep::Exit,
            RepeatLoopEvent::ReceiverGone => RepeatLoopStep::Exit,
        }),
{
    match event {
        RepeatLoopEvent::Started => RepeatLoopStep::WaitForStop {
            millis: LOW_LEVEL_REPEAT_INITIAL_DELAY_MS,
        },
        RepeatLoopEvent::WaitElapsed => RepeatLoopStep::SendCommand,
        RepeatLoopEvent::CommandSent => RepeatLoopStep::WaitForStop {
            millis: LOW_LEVEL_REPEAT_INTERVAL_MS,
        },
        RepeatLoopEvent::StopRequested => RepeatLoopStep::Exit,
        RepeatLoopEvent::ReceiverGone => RepeatLoopStep::Exit,
    }
}

/// The hook runtimes of the process, by the thread that installed them.
pub struct LowLevelRuntimeRegistry {
    pub entries: Vec<(u32, u64)>,
}

impl LowLevelRuntimeRegistry {
    /// No thread is listed twice.
    pub open spec fn wf(self) -> bool {
        forall|i: int, j: int|
            0 <= i < j < self.entries@.len() ==> (#[trigger] self.entries@[i]).0 != (
            #[trigger] self.entries@[j]).0
    }

    pub open spec fn holds(self, thread_id: u32, runtime: u64) -> bool {
        self.entries@.contains((thread_id, runtime))
    }

    pub open spec fn knows(self, thread_id: u32) -> bool {
        exists|i: int| 0 <= i < self.entries@.len() && (#[trigger] self.entries@[i]).0 == thread_id
    }

    pub fn new() -> (r: LowLevelRuntimeRegistry)
        ensures
            r.wf(),
            r.entries@.len() == 0,
    {
        LowLevelRuntimeRegistry { entries: Vec::new() }
    }

    /// Removes the runtime of a thread and keeps every other one.
    pub fn unregister_low_level_runtime(&mut self, thread_id: u32)
        requires
            old(self).wf(),
        ensures
            final(self).wf(),
            !final(self).knows(thread_id),
            forall|t: u32, v: u64|
                t != thread_id ==> (#[trigger] final(self).holds(t, v) <==> old(self).holds(t, v)),
    {
        let mut i: usize = 0;
        while i < self.entries.len()
            invariant
                i <= self.entries.len(),
                self.entries@ == old(self).entries@,
                self.wf(),
                forall|j: int| 0 <= j < i ==> (#[trigger] self.entries@[j]).0 != thread_id,
            decreases self.entries.len() - i,
        {
            if self.entries[i].0 == thread_id {
                self.entries.remove(i);
                proof {
                    let before = old(self).entries@;
                    let after = self.entries@;
                    assert(after == before.remove(i as int));
                    assert forall|t: u32, v: u64| t != thread_id implies (#[trigger] self.holds(
                        t,
                        v,
                    ) <==> old(self).holds(t, v)) by {
                        if before.contains((t, v)) {
                            let j = choose|j: int| 0 <= j < before.len() && before[j] == (t, v);
                            if j < i {
                                assert(after[j] == (t, v));
                            } else {
                                assert(after[j - 1] == (t, v));
                            }
                        }
                        if after.contains((t, v)) {
                            let j = choose|j: int| 0 <= j < after.len() && after[j] == (t, v);
                            if j < i {
                                assert(before[j] == (t, v));
                            } else {
                                assert(before[j + 1] == (t, v));
                            }
                        }
                    }
                }
                return;
            }
            i = i + 1;
        }
    }

    /// Lists the runtime of a thread, in place of an earlier one of that thread.
    pub fn register_low_level_runtime(&mut self, thread_id: u32, runtime: u64)
        requires
            old(self).wf(),
        ensures
            final(self).wf(),
            final(self).holds(thread_id, runtime),
            forall|t: u32, v: u64|
                t != thread_id ==> (#[trigger] final(self).holds(t, v) <==> old(self).holds(t, v)),
    {
        self.unregister_low_level_runtime(thread_id);
        let ghost rest = *self;
        let ghost before = self.entries@;
        self.entries.push((thread_id, runtime));
        proof {
            let after = self.entries@;
            assert(after[before.len() as int] == (thread_id, runtime));
            assert forall|t: u32, v: u64| t != thread_id implies (#[trigger] self.holds(t, v)
                <==> old(self).holds(t, v)) by {
                assert(rest.holds(t, v) <==> old(self).holds(t, v));
                if before.contains((t, v)) {
                    let j = choose|j: int| 0 <= j < before.len() && before[j] == (t, v);
                    assert(after[j] == (t, v));
                }
            }
        }
    }

    /// The runtime of a thread; where the thread has none and there is only one runtime at
    /// all, that one.
    pub fn lookup_low_level_runtime(&self, thread_id: u32) -> (r: Option<u64>)
        requires
            self.wf(),
        ensures
            match r {
                Some(runtime) => self.holds(thread_id, runtime) || (!self.knows(thread_id)
                    && self.entries@.len() == 1 && self.entries@[0].1 == runtime),
                None => !self.knows(thread_id) && self.entries@.len() != 1,
            },
    {
        let mut i: usize = 0;
        while i < self.entries.len()
            invariant
                i <= self.entries.len(),
                forall|j: int| 0 <= j < i ==> (#[trigger] self.entries@[j]).0 != thread_id,
            decreases self.entries.len() - i,
        {
            if self.entries[i].0 == thread_id {
                assert(self.entries@[i as int] == (thread_id, self.entries@[i as int].1));
                return Some(self.entries[i].1);
            }
            i = i + 1;
        }
        if self.entries.len() == 1 {
            Some(self.entries[0].1)
        } else {
            None
        }
    }
}

/// What is repeated in the end is what is wanted, and a thread that repeats it already is left
/// alone.
pub proof fn law_the_wanted_command_is_repeated(
    running: Option<WatchCommand>,
    wanted: Option<WatchCommand>,
    change: RepeatLoopChange,
)
    requires
        call_ensures(sync_repeat_loop, (running, wanted), change),
    ensures
        change == RepeatLoopChange::Keep <==> running == wanted,
        wanted is None && running is Some ==> change == RepeatLoopChange::Stop,
        running is None ==> (wanted matches Some(command) ==> change == RepeatLoopChange::Start(
            command,
        )),
        running is Some && running != wanted ==> (wanted matches Some(command) ==> change
            == RepeatLoopChange::Restart(command)),
{
}

/// A held command is sent for the first time after 180 milliseconds and then every 45, until
/// the thread is told to stop or nobody listens.
pub proof fn law_held_commands_repeat(event: RepeatLoopEvent, step: RepeatLoopStep)
    requires
        call_ensures(repeat_loop_step, (event,), step),
    ensures
        event is Started ==> step == (RepeatLoopStep::WaitForStop { millis: 180 }),
        event is CommandSent ==> step == (RepeatLoopStep::WaitForStop { millis: 45 }),
        step == RepeatLoopStep::SendCommand <==> event is WaitElapsed,
        step == RepeatLoopStep::Exit <==> event is StopRequested || event is ReceiverGone,
{
}

/// A thread finds the runtime that is listed for it. One without a runtime finds the only one
/// there is, and none where there are none or several.
pub proof fn law_threads_find_their_runtime(
    registry: &LowLevelRuntimeRegistry,
    thread_id: u32,
    r: Option<u64>,
    i: int,
)
    requires
        registry.wf(),
        call_ensures(LowLevelRuntimeRegistry::lookup_low_level_runtime, (registry, thread_id), r),
    ensures
        0 <= i < registry.entries@.len() && registry.entries@[i].0 == thread_id ==> r == Some(
            registry.entries@[i].1,
        ),
        registry.entries@.len() == 0 ==> r is None,
        registry.entries@.len() == 1 ==> r == Some(registry.entries@[0].1),
        registry.entries@.len() > 1 && (forall|k: int|
            0 <= k < registry.entries@.len() ==> (#[trigger] registry.entries@[k]).0 != thread_id)
            ==> r is None,
{
    if r is Some && registry.holds(thread_id, r->0) {
        let k = choose|k: int|
            0 <= k < registry.entries@.len() && registry.entries@[k] == (thread_id, r->0);
        assert(registry.entries@[k].0 == thread_id);
        if 0 <= i < registry.entries@.len() && registry.entries@[i].0 == thread_id {
            if i < k {
                assert(registry.entries@[i].0 != registry.entries@[k].0);
            } else if k < i {
                assert(registry.entries@[k].0 != registry.entries@[i].0);
            }
        }
    }
}

/// A thread that registers has its runtime listed in place of an earlier one, and one that
/// leaves is listed no more; nothing changes for the other threads.
pub proof fn law_threads_register_and_leave(
    registry: &mut LowLevelRuntimeRegistry,
    leaving: &mut LowLevelRuntimeRegistry,
    thread_id: u32,
    runtime: u64,
    other: u32,
    value: u64,
    done: (),
    left: (),
)
    requires
        call_ensures(
            LowLevelRuntimeRegistry::register_low_level_runtime,
            (registry, thread_id, runtime),
            done,
        ),
        call_ensures(
            LowLevelRuntimeRegistry::unregister_low_level_runtime,
            (leaving, thread_id),
            left,
        ),
        other != thread_id,
    ensures
        final(registry).entries@.contains((thread_id, runtime)),
        final(registry).wf(),
        final(registry).entries@.contains((other, value)) <==> old(registry).entries@.contains(
            (other, value),
        ),
        !final(leaving).entries@.contains((thread_id, value)),
        final(leaving).entries@.contains((other, value)) <==> old(leaving).entries@.contains(
            (other, value),
        ),
{
    assert(final(registry).holds(other, value) <==> old(registry).holds(other, value));
    assert(final(leaving).holds(other, value) <==> old(leaving).holds(other, value));
    if final(leaving).entries@.contains((thread_id, value)) {
        let k = choose|k: int|
            0 <= k < final(leaving).entries@.len() && final(leaving).entries@[k] == (
                thread_id,
                value,
            );
        assert(final(leaving).entries@[k].0 == thread_id);
        assert(final(leaving).knows(thread_id));
    }
}

} // verus!
