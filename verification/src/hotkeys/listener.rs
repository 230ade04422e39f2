//! Which hotkeys a listener activates, and what it does with what it hears.

use crate::control::WatchCommand;
use crate::hotkeys::registration::NativeHotkeyRegistration;
use crate::hotkeys::trigger::parse_trigger;
use crate::text::{quoted, same_text};
use vstd::prelude::*;
use vstd::string::*;

verus! {

use crate::hotkeys::trigger::{parsed_trigger, ParsedTrigger};

/// How the daemon shares the keyboard with the shell.
#[derive(Clone, Debug, PartialEq, Eq)]
pub enum BindControlMode {
    Coexistence,
    ManagedShell,
    /// Any other mode, by its name.
    Other(String),
}

impl BindControlMode {
    pub open spec fn name(self) -> Seq<char> {
        match self {
            BindControlMode::Coexistence => "coexistence"@,
            BindControlMode::ManagedShell => "managed-shell"@,
            BindControlMode::Other(name) => name@,
        }
    }

    pub fn as_str(&self) -> (r: &str)
        ensures
            r@ == self.name(),
    {
        match self {
            BindControlMode::Coexistence => "coexistence",
            BindControlMode::ManagedShell => "managed-shell",
            BindControlMode::Other(name) => name.as_str(),
        }
    }
}

/// Why the listener could not be started.
#[derive(Debug)]
pub enum HotkeyListenerError {
    Io(String),
    Json(String),
    Startup(String),
    MissingStdout,
    MissingStderr,
}

impl HotkeyListenerError {
    pub open spec fn text(self) -> Seq<char> {
        match self {
            HotkeyListenerError::Io(message) => message@,
            HotkeyListenerError::Json(message) => message@,
            HotkeyListenerError::Startup(message) => message@,
            HotkeyListenerError::MissingStdout => "hotkey listener missing stdout pipe"@,
            HotkeyListenerError::MissingStderr => "hotkey listener missing stderr pipe"@,
        }
    }

    /// The message that is shown to the user.
    pub fn message(&self) -> (r: String)
        ensures
            r@ == self.text(),
    {
        match self {
            HotkeyListenerError::Io(message) => message.clone(),
            HotkeyListenerError::Json(message) => message.clone(),
            HotkeyListenerError::Startup(message) => message.clone(),
            HotkeyListenerError::MissingStdout => "hotkey listener missing stdout pipe".to_owned(),
            HotkeyListenerError::MissingStderr => "hotkey listener missing stderr pipe".to_owned(),
        }
    }
}

/// Refuses every mode but coexistence with the shell.
pub fn ensure_bind_control_mode_supported(bind_control_mode: BindControlMode) -> (r: Result<
    (),
    HotkeyListenerError,
>)
    ensures
        r is Ok <==> bind_control_mode is Coexistence,
        r matches Err(error) ==> error is Startup && error.text() == "bind control mode '"@
            + bind_control_mode.name()
            + "' is not supported by this build yet; only 'coexistence' is available"@,
{
    match bind_control_mode {
        BindControlMode::Coexistence => Ok(()),
        _ => Err(
            HotkeyListenerError::Startup(
                quoted(
                    "bind control mode '",
                    bind_control_mode.as_str(),
                    "' is not supported by this build yet; only 'coexistence' is available",
                ),
            ),
        ),
    }
}

/// A configured binding: a trigger and the name of a command.
#[derive(Clone, Debug, PartialEq, Eq)]
pub struct HotkeyBinding {
    pub trigger: String,
    pub command: String,
}

/// The commands that a global hotkey can be bound to.
pub open spec fn hotkey_command(command: WatchCommand) -> bool {
    command is FocusNext || command is FocusPrev || command is ScrollLeft || command is ScrollRight
        || command is ToggleFloating || command is ToggleTabbed || command is ToggleMaximized
        || command is ToggleFullscreen || command is ToggleOverview || command is ReloadConfig
        || command is Unwind
}

/// The command of a hotkey binding's name.
pub open spec fn command_named(name: Seq<char>) -> Option<WatchCommand> {
    if exists|command: WatchCommand|
        hotkey_command(command) && #[trigger] command.name() == name {
        Some(
            choose|command: WatchCommand|
                hotkey_command(command) && #[trigger] command.name() == name,
        )
    } else {
        None
    }
}

/// The name of a command.
pub fn watch_command_name(command: WatchCommand) -> (r: &'static str)
    ensures
        r@ == command.name(),
{
    command.as_hotkey_command_name()
}

/// The command of a name, where a global hotkey can be bound to it.
pub fn map_command_name(command: &str) -> (r: Option<WatchCommand>)
    ensures
        r == command_named(command@),
        match r {
            Some(found) => hotkey_command(found) && found.name() == command@,
            None => forall|other: WatchCommand|
                hotkey_command(other) ==> #[trigger] other.name() != command@,
        },
{
    let found: Option<WatchCommand> = if same_text(command, "focus-next") {
        Some(WatchCommand::FocusNext)
    } else if same_text(command, "focus-prev") {
        Some(WatchCommand::FocusPrev)
    } else if same_text(command, "scroll-strip-left") {
        Some(WatchCommand::ScrollLeft)
    } else if same_text(command, "scroll-strip-right") {
        Some(WatchCommand::ScrollRight)
    } else if same_text(command, "toggle-floating") {
        Some(WatchCommand::ToggleFloating)
    } else if same_text(command, "toggle-tabbed") {
        Some(WatchCommand::ToggleTabbed)
    } else if same_text(command, "toggle-maximized") {
        Some(WatchCommand::ToggleMaximized)
    } else if same_text(command, "toggle-fullscreen") {
        Some(WatchCommand::ToggleFullscreen)
    } else if same_text(command, "toggle-overview") {
        Some(WatchCommand::ToggleOverview)
    } else if same_text(command, "reload-config") {
        Some(WatchCommand::ReloadConfig)
    } else if same_text(command, "disable-management-and-unwind") {
        Some(WatchCommand::Unwind)
    } else {
        None
    };
    proof {
        if found is Some {
            assert(hotkey_command(found->0) && found->0.name() == command@);
            crate::control::law_command_names_are_distinct(
                found->0,
                command_named(command@)->0,
            );
        } else {
            assert forall|other: WatchCommand| hotkey_command(other) implies #[trigger]
                other.name() != command@ by {}
        }
    }
    found
}

/// The name of every command that a hotkey can be bound to leads back to that command.
pub proof fn law_command_names_round_trip(command: WatchCommand)
    requires
        hotkey_command(command),
    ensures
        command_named(command.name()) == Some(command),
{
    assert(hotkey_command(command) && command.name() == command.name());
    let found = command_named(command.name())->0;
    crate::control::law_command_names_are_distinct(found, command);
}

/// What a binding becomes: nothing where its command is unknown, a registration, or a
/// warning about its trigger.
pub ghost enum BindingOutcome {
    Ignored,
    Registered(WatchCommand, ParsedTrigger),
    Warned(Seq<char>),
}

pub open spec fn trigger_warning(
    trigger: Seq<char>,
    command: Seq<char>,
    message: Seq<char>,
) -> Seq<char> {
    "hotkey warning for "@ + trigger + " ("@ + command + "): "@ + message
}

pub open spec fn binding_outcome(binding: HotkeyBinding) -> BindingOutcome {
    match command_named(binding.command@) {
        None => BindingOutcome::Ignored,
        Some(command) => match parsed_trigger(binding.trigger@) {
            Ok(parsed) => BindingOutcome::Registered(command, parsed),
            Err(message) => BindingOutcome::Warned(
                trigger_warning(binding.trigger@, binding.command@, message),
            ),
        },
    }
}

pub open spec fn registration_matches(
    registration: NativeHotkeyRegistration,
    binding: HotkeyBinding,
) -> bool {
    &&& binding_outcome(binding) == BindingOutcome::Registered(
        registration.command,
        ParsedTrigger {
            register_modifiers: registration.register_modifiers,
            required_modifiers: registration.required_modifiers,
            key: registration.key,
        },
    )
    &&& registration.trigger@ == binding.trigger@
}

/// The bindings that become registrations, in order.
pub open spec fn registered_bindings(bindings: Seq<HotkeyBinding>) -> Seq<HotkeyBinding>
    decreases bindings.len(),
{
    if bindings.len() == 0 {
        Seq::empty()
    } else if binding_outcome(bindings.last()) is Registered {
        registered_bindings(bindings.drop_last()).push(bindings.last())
    } else {
        registered_bindings(bindings.drop_last())
    }
}

/// The warnings about bindings, in order.
pub open spec fn binding_warnings(bindings: Seq<HotkeyBinding>) -> Seq<Seq<char>>
    decreases bindings.len(),
{
    if bindings.len() == 0 {
        Seq::empty()
    } else {
        match binding_outcome(bindings.last()) {
            BindingOutcome::Warned(warning) => binding_warnings(bindings.drop_last()).push(warning),
            _ => binding_warnings(bindings.drop_last()),
        }
    }
}

/// The registrations of a configuration and the warnings that go with it.
pub struct HotkeyPlan {
    pub registrations: Vec<NativeHotkeyRegistration>,
    pub warnings: Vec<String>,
}

impl HotkeyPlan {
    pub open spec fn is_for(self, bindings: Seq<HotkeyBinding>) -> bool {
        &&& self.registrations@.len() == registered_bindings(bindings).len()
        &&& forall|i: int|
            0 <= i < self.registrations@.len() ==> registration_matches(
                #[trigger] self.registrations@[i],
                registered_bindings(bindings)[i],
            )
        &&& self.warnings@.map_values(|w: String| w@) == binding_warnings(bindings)
    }
}

/// Resolves every binding whose command is known; a trigger that cannot be parsed is
/// reported and left out.
pub fn collect_registrations(bindings: &[HotkeyBinding]) -> (r: HotkeyPlan)
    ensures
        r.is_for(bindings@),
{
    let mut plan: HotkeyPlan = HotkeyPlan { registrations: Vec::new(), warnings: Vec::new() };
    let mut i: usize = 0;
    proof {
        assert(bindings@.take(0) =~= Seq::empty());
        assert(plan.warnings@.map_values(|w: String| w@) =~= Seq::empty());
    }
    while i < bindings.len()
        invariant
            i <= bindings.len(),
            plan.is_for(bindings@.take(i as int)),
        decreases bindings.len() - i,
    {
        let ghost before = bindings@.take(i as int);
        let ghost now = bindings@.take(i + 1);
        let ghost old_plan = plan;
        proof {
            assert(now.drop_last() =~= before);
            assert(now.last() == bindings@[i as int]);
        }
        let binding: &HotkeyBinding = &bindings[i];
        if let Some(command) = map_command_name(binding.command.as_str()) {
            match parse_trigger(binding.trigger.as_str()) {
                Ok(parsed) => {
                    plan.registrations.push(
                        NativeHotkeyRegistration {
                            trigger: binding.trigger.clone(),
                            command,
                            register_modifiers: parsed.register_modifiers,
                            required_modifiers: parsed.required_modifiers,
                            key: parsed.key,
                        },
                    );
                },
                Err(message) => {
                    let mut warning: String = "hotkey warning for ".to_owned();
                    warning.append(binding.trigger.as_str());
                    warning.append(" (");
                    warning.append(binding.command.as_str());
                    warning.append("): ");
                    warning.append(message.as_str());
                    let ghost text = warning@;
                    plan.warnings.push(warning);
                    assert(plan.warnings@.map_values(|w: String| w@)
                        =~= old_plan.warnings@.map_values(|w: String| w@).push(text));
                },
            }
        }
        i = i + 1;
    }
    assert(bindings@.take(bindings@.len() as int) =~= bindings@);
    plan
}

/// The number under which the hotkey at an index is registered with the system.
pub fn hotkey_id(index: usize) -> (r: i32)
    ensures
        r == id_at(index as int),
{
    if index < i32::MAX as usize {
        index as i32 + 1
    } else {
        i32::MAX
    }
}

/// Which registrations the system took, and which are left to the keyboard hook.
pub struct HotkeyThreadPlan {
    pub command_by_id: Vec<(i32, WatchCommand)>,
    pub fallback: Vec<NativeHotkeyRegistration>,
}

/// The number of the hotkey at an index, as far as numbers go.
pub open spec fn id_at(index: int) -> i32 {
    if index < i32::MAX {
        (index + 1) as i32
    } else {
        i32::MAX
    }
}

pub open spec fn taken_ids(
    registrations: Seq<NativeHotkeyRegistration>,
    taken: Seq<bool>,
) -> Seq<(i32, WatchCommand)>
    decreases registrations.len(),
{
    if registrations.len() == 0 {
        Seq::empty()
    } else {
        let last = (registrations.len() - 1) as int;
        let rest = taken_ids(registrations.drop_last(), taken);
        if taken[last] {
            rest.push((id_at(last), registrations[last].command))
        } else {
            rest
        }
    }
}

pub open spec fn left_over(
    registrations: Seq<NativeHotkeyRegistration>,
    taken: Seq<bool>,
) -> Seq<NativeHotkeyRegistration>
    decreases registrations.len(),
{
    if registrations.len() == 0 {
        Seq::empty()
    } else {
        let last = (registrations.len() - 1) as int;
        let rest = left_over(registrations.drop_last(), taken);
        if taken[last] {
            rest
        } else {
            rest.push(registrations[last])
        }
    }
}

/// Splits the registrations by whether the system took them.
pub fn partition_registrations(
    registrations: Vec<NativeHotkeyRegistration>,
    taken: &Vec<bool>,
) -> (r: HotkeyThreadPlan)
    requires
        registrations.len() == taken.len(),
    ensures
        r.command_by_id@ == taken_ids(registrations@, taken@),
        r.fallback@ == left_over(registrations@, taken@),
{
    let mut rest: Vec<NativeHotkeyRegistration> = registrations;
    let mut plan: HotkeyThreadPlan = HotkeyThreadPlan {
        command_by_id: Vec::new(),
        fallback: Vec::new(),
    };
    let mut i: usize = 0;
    proof {
        assert(registrations@.take(0) =~= Seq::empty());
        assert(registrations@.skip(0) =~= registrations@);
    }
    while rest.len() > 0
        invariant
            i + rest.len() == registrations@.len(),
            registrations@.len() == taken.len(),
            rest@ == registrations@.skip(i as int),
            plan.command_by_id@ == taken_ids(registrations@.take(i as int), taken@),
            plan.fallback@ == left_over(registrations@.take(i as int), taken@),
        decreases rest.len(),
    {
        proof {
            assert(registrations@.take(i + 1).drop_last() =~= registrations@.take(i as int));
            assert(rest@[0] == registrations@[i as int]);
            assert(rest@.remove(0) =~= registrations@.skip(i + 1));
        }
        let registration: NativeHotkeyRegistration = rest.remove(0);
        if taken[i] {
            plan.command_by_id.push((hotkey_id(i), registration.command));
        } else {
            plan.fallback.push(registration);
        }
        i = i + 1;
    }
    assert(registrations@.take(i as int) =~= registrations@);
    plan
}

/// How many hotkeys are active once the hook has been installed or not; an error where
/// there are none.
pub fn active_registration_count(taken: usize, fallback: usize, hook_installed: bool) -> (r: Result<
    usize,
    String,
>)
    requires
        taken + fallback <= usize::MAX,
    ensures
        match r {
            Ok(count) => count == taken + (if hook_installed {
                fallback as int
            } else {
                0
            }) && count > 0,
            Err(message) => taken == 0 && (fallback == 0 || !hook_installed) && message@
                == "no hotkeys could be activated"@,
        },
{
    let count: usize = if hook_installed {
        taken + fallback
    } else {
        taken
    };
    if count == 0 {
        Err("no hotkeys could be activated".to_owned())
    } else {
        Ok(count)
    }
}

/// The command of a hotkey that the system reports, where it has one.
pub fn command_for_hotkey_id(command_by_id: &Vec<(i32, WatchCommand)>, hotkey_id: i32) -> (r:
    Option<WatchCommand>)
    ensures
        match r {
            Some(command) => exists|i: int|
                0 <= i < command_by_id@.len() && #[trigger] command_by_id@[i] == (hotkey_id, command)
                    && forall|j: int|
                    0 <= j < i ==> (#[trigger] command_by_id@[j]).0 != hotkey_id,
            None => forall|i: int|
                0 <= i < command_by_id@.len() ==> (#[trigger] command_by_id@[i]).0 != hotkey_id,
        },
{
    let mut i: usize = 0;
    while i < command_by_id.len()
        invariant
            i <= command_by_id.len(),
            forall|j: int| 0 <= j < i ==> (#[trigger] command_by_id@[j]).0 != hotkey_id,
        decreases command_by_id.len() - i,
    {
        if command_by_id[i].0 == hotkey_id {
            assert(command_by_id@[i as int] == (hotkey_id, command_by_id@[i as int].1));
            return Some(command_by_id[i].1);
        }
        i = i + 1;
    }
    None
}

/// Whether a configured binding is handed to the observing script.
pub open spec fn known_bindings(bindings: Seq<HotkeyBinding>) -> Seq<(Seq<char>, Seq<char>)>
    decreases bindings.len(),
{
    if bindings.len() == 0 {
        Seq::empty()
    } else {
        let rest = known_bindings(bindings.drop_last());
        if command_named(bindings.last().command@) is Some {
            rest.push((bindings.last().trigger@, bindings.last().command@))
        } else {
            rest
        }
    }
}

pub open spec fn binding_texts(bindings: Seq<HotkeyBinding>) -> Seq<(Seq<char>, Seq<char>)> {
    bindings.map_values(|b: HotkeyBinding| (b.trigger@, b.command@))
}

/// The bindings that the observing script registers: those whose command is known.
pub fn script_registrations(bindings: &[HotkeyBinding]) -> (r: Vec<HotkeyBinding>)
    ensures
        binding_texts(r@) == known_bindings(bindings@),
{
    let mut known: Vec<HotkeyBinding> = Vec::new();
    let mut i: usize = 0;
    proof {
        assert(bindings@.take(0) =~= Seq::empty());
        assert(binding_texts(known@) =~= Seq::empty());
    }
    while i < bindings.len()
        invariant
            i <= bindings.len(),
            binding_texts(known@) == known_bindings(bindings@.take(i as int)),
        decreases bindings.len() - i,
    {
        proof {
            assert(bindings@.take(i + 1).drop_last() =~= bindings@.take(i as int));
        }
        if map_command_name(bindings[i].command.as_str()).is_some() {
            let ghost before = binding_texts(known@);
            known.push(
                HotkeyBinding {
                    trigger: bindings[i].trigger.clone(),
                    command: bindings[i].command.clone(),
                },
            );
            assert(binding_texts(known@) =~= before.push(
                (bindings@[i as int].trigger@, bindings@[i as int].command@),
            ));
        }
        i = i + 1;
    }
    assert(bindings@.take(bindings@.len() as int) =~= bindings@);
    known
}

/// An event that the observing script reports.
#[derive(Clone, Debug, PartialEq, Eq)]
pub struct HotkeyScriptEvent {
    pub kind: String,
    pub trigger: Option<String>,
    pub command: Option<String>,
    pub message: Option<String>,
}

/// What the listener does with an event of the observing script.
#[derive(Clone, Debug, PartialEq, Eq)]
pub enum ScriptEventAction {
    Send(WatchCommand),
    Report(String),
}

pub open spec fn text_or(text: Option<String>, default: Seq<char>) -> Seq<char> {
    match text {
        Some(text) => text@,
        None => default,
    }
}

fn clone_or(text: &Option<String>, default: &str) -> (r: String)
    ensures
        r@ == text_or(*text, default@),
{
    match text {
        Some(text) => text.clone(),
        None => default.to_owned(),
    }
}

/// A known command is sent on; everything else is reported.
pub fn script_event_action(event: &HotkeyScriptEvent) -> (r: ScriptEventAction)
    ensures
        match r {
            ScriptEventAction::Send(command) => event.kind@ == "command"@ && event.command is Some
                && command_named(event.command->0@) == Some(command),
            ScriptEventAction::Report(line) => if event.kind@ == "command"@ {
                match event.command {
                    None => line@ == "hotkey listener emitted command event without command"@,
                    Some(name) => command_named(name@) is None && line@
                        == "hotkey listener emitted unsupported command '"@ + name@ + "'"@,
                }
            } else if event.kind@ == "warning"@ {
                line@ == trigger_warning(
                    text_or(event.trigger, "?"@),
                    text_or(event.command, "?"@),
                    text_or(event.message, "unknown hotkey warning"@),
                )
            } else {
                line@ == "hotkey listener emitted unsupported event kind '"@ + event.kind@ + "'"@
            },
        },
{
    if same_text(event.kind.as_str(), "command") {
        match &event.command {
            None => ScriptEventAction::Report(
                "hotkey listener emitted command event without command".to_owned(),
            ),
            Some(name) => match map_command_name(name.as_str()) {
                Some(command) => ScriptEventAction::Send(command),
                None => ScriptEventAction::Report(
                    quoted(
                        "hotkey listener emitted unsupported command '",
                        name.as_str(),
                        "'",
                    ),
                ),
            },
        }
    } else if same_text(event.kind.as_str(), "warning") {
        let trigger: String = clone_or(&event.trigger, "?");
        let command: String = clone_or(&event.command, "?");
        let message: String = clone_or(&event.message, "unknown hotkey warning");
        let mut line: String = "hotkey warning for ".to_owned();
        line.append(trigger.as_str());
        line.append(" (");
        line.append(command.as_str());
        line.append("): ");
        line.append(message.as_str());
        ScriptEventAction::Report(line)
    } else {
        ScriptEventAction::Report(
            quoted("hotkey listener emitted unsupported event kind '", event.kind.as_str(), "'"),
        )
    }
}

/// Which commands a hotkey can be bound to, each by its name.
pub proof fn law_hotkeys_know_these_commands(command: WatchCommand, name: Seq<char>)
    ensures
        hotkey_command(command) <==> command == WatchCommand::FocusNext || command
            == WatchCommand::FocusPrev || command == WatchCommand::ScrollLeft || command
            == WatchCommand::ScrollRight || command == WatchCommand::ToggleFloating || command
            == WatchCommand::ToggleTabbed || command == WatchCommand::ToggleMaximized || command
            == WatchCommand::ToggleFullscreen || command == WatchCommand::ToggleOverview || command
            == WatchCommand::ReloadConfig || command == WatchCommand::Unwind,
        command_named(name) == Some(command) <==> hotkey_command(command) && command.name() == name,
{
    if hotkey_command(command) && command.name() == name {
        law_command_names_round_trip(command);
    }
}

/// What becomes of a binding: nothing where no hotkey can be bound to its command, a
/// registration with the command, the key and the modifiers of its trigger, or a warning that
/// names the trigger, the command and the reason.
pub proof fn law_bindings_are_registered_or_reported(binding: HotkeyBinding)
    ensures
        command_named(binding.command@) is None <==> binding_outcome(binding) is Ignored,
        command_named(binding.command@) matches Some(command) ==> {
            &&& parsed_trigger(binding.trigger@) matches Ok(parsed) ==> binding_outcome(binding)
                == BindingOutcome::Registered(command, parsed)
            &&& parsed_trigger(binding.trigger@) matches Err(message) ==> binding_outcome(binding)
                == BindingOutcome::Warned(
                "hotkey warning for "@ + binding.trigger@ + " ("@ + binding.command@ + "): "@
                    + message,
            )
        },
{
}

proof fn lemma_registered_bindings(bindings: Seq<HotkeyBinding>) -> (at: Seq<int>)
    ensures
        at.len() == registered_bindings(bindings).len(),
        forall|i: int| 0 <= i < at.len() ==> 0 <= #[trigger] at[i] < bindings.len(),
        forall|i: int, j: int| 0 <= i < j < at.len() ==> #[trigger] at[i] < #[trigger] at[j],
        forall|i: int|
            0 <= i < at.len() ==> registered_bindings(bindings)[i] == bindings[#[trigger] at[i]],
        forall|k: int|
            0 <= k < bindings.len() && binding_outcome(#[trigger] bindings[k]) is Registered
                ==> at.contains(k),
    decreases bindings.len(),
{
    if bindings.len() == 0 {
        Seq::empty()
    } else {
        let rest = bindings.drop_last();
        let last = bindings.len() - 1;
        let before = lemma_registered_bindings(rest);
        let at = if binding_outcome(bindings[last]) is Registered {
            before.push(last)
        } else {
            before
        };
        assert forall|i: int| 0 <= i < before.len() implies #[trigger] bindings[before[i]]
            == rest[before[i]] by {}
        assert forall|k: int|
            0 <= k < bindings.len() && binding_outcome(
                #[trigger] bindings[k],
            ) is Registered implies at.contains(k) by {
            if k < last {
                assert(rest[k] == bindings[k]);
                let i = choose|i: int| 0 <= i < before.len() && before[i] == k;
                assert(at[i] == k);
            } else {
                assert(at[before.len() as int] == last);
            }
        }
        at
    }
}

/// Every binding with a known command and a trigger that parses is registered, in the order of
/// the configuration and each once, under its own trigger, command, key and modifiers; nothing
/// else is.
pub proof fn law_every_good_binding_is_registered(
    plan: HotkeyPlan,
    bindings: Seq<HotkeyBinding>,
) -> (at: Seq<int>)
    requires
        plan.is_for(bindings),
    ensures
        at.len() == plan.registrations@.len(),
        forall|i: int| 0 <= i < at.len() ==> 0 <= #[trigger] at[i] < bindings.len(),
        forall|i: int, j: int| 0 <= i < j < at.len() ==> #[trigger] at[i] < #[trigger] at[j],
        forall|i: int|
            0 <= i < at.len() ==> {
                let binding = bindings[#[trigger] at[i]];
                let registration = plan.registrations@[i];
                &&& registration.trigger@ == binding.trigger@
                &&& command_named(binding.command@) == Some(registration.command)
                &&& parsed_trigger(binding.trigger@) matches Ok(parsed) && parsed.key
                    == registration.key && parsed.required_modifiers
                    == registration.required_modifiers && parsed.register_modifiers
                    == registration.register_modifiers
            },
        forall|k: int|
            0 <= k < bindings.len() && command_named((#[trigger] bindings[k]).command@) is Some
                && parsed_trigger(bindings[k].trigger@) is Ok ==> at.contains(k),
{
    let at = lemma_registered_bindings(bindings);
    assert forall|i: int| 0 <= i < at.len() implies registration_matches(
        plan.registrations@[i],
        bindings[#[trigger] at[i]],
    ) by {}
    assert forall|k: int|
        0 <= k < bindings.len() && command_named((#[trigger] bindings[k]).command@) is Some
            && parsed_trigger(bindings[k].trigger@) is Ok implies at.contains(k) by {
        assert(binding_outcome(bindings[k]) is Registered);
    }
    at
}

/// Warnings are given in the order of the bindings: one for each with a known command whose
/// trigger does not parse.
pub proof fn law_warnings_follow_the_bindings(
    first: Seq<HotkeyBinding>,
    binding: HotkeyBinding,
)
    ensures
        binding_warnings(Seq::empty()).len() == 0,
        binding_warnings(first.push(binding)) == (if command_named(binding.command@) is Some
            && parsed_trigger(binding.trigger@) is Err {
            binding_warnings(first).push(
                "hotkey warning for "@ + binding.trigger@ + " ("@ + binding.command@ + "): "@
                    + parsed_trigger(binding.trigger@)->Err_0,
            )
        } else {
            binding_warnings(first)
        }),
{
    assert(first.push(binding).drop_last() =~= first);
}

/// A registration that the system took goes by its place in the list, counted from one, and has
/// its own command; one that it did not take is left to the hook.
pub proof fn law_registrations_are_split(
    registrations: Seq<NativeHotkeyRegistration>,
    registration: NativeHotkeyRegistration,
    taken: Seq<bool>,
)
    requires
        taken.len() > registrations.len(),
        registrations.len() < i32::MAX,
    ensures
        ({
            let all = registrations.push(registration);
            let n = registrations.len() as int;
            let ids = taken_ids(registrations, taken);
            let rest = left_over(registrations, taken);
            &&& taken_ids(Seq::empty(), taken).len() == 0
            &&& left_over(Seq::empty(), taken).len() == 0
            &&& taken[n] ==> taken_ids(all, taken) == ids.push(
                ((n + 1) as i32, registration.command),
            ) && left_over(all, taken) == rest
            &&& !taken[n] ==> taken_ids(all, taken) == ids && left_over(all, taken) == rest.push(
                registration,
            )
        }),
{
    assert(registrations.push(registration).drop_last() =~= registrations);
}

/// The observing script is given the bindings whose command is known, in their order.
pub proof fn law_the_script_gets_the_known_bindings(
    first: Seq<HotkeyBinding>,
    binding: HotkeyBinding,
)
    ensures
        known_bindings(Seq::empty()).len() == 0,
        known_bindings(first.push(binding)) == (if command_named(binding.command@) is Some {
            known_bindings(first).push((binding.trigger@, binding.command@))
        } else {
            known_bindings(first)
        }),
{
    assert(first.push(binding).drop_last() =~= first);
}

/// Hotkeys are listened to only in coexistence with the shell.
pub proof fn law_only_coexistence_is_supported(
    mode: BindControlMode,
    result: Result<(), HotkeyListenerError>,
)
    requires
        call_ensures(ensure_bind_control_mode_supported, (mode,), result),
    ensures
        result is Ok <==> mode is Coexistence,
        mode is ManagedShell ==> (result matches Err(HotkeyListenerError::Startup(message))
            && message@ == "bind control mode '"@ + "managed-shell"@
            + "' is not supported by this build yet; only 'coexistence' is available"@),
{
}

/// The hotkeys that work are those that the system took, and those of the hook where it could
/// be installed; it is a failure where there is none.
pub proof fn law_working_hotkeys_are_counted(
    taken: usize,
    fallback: usize,
    hook_installed: bool,
    r: Result<usize, String>,
)
    requires
        taken + fallback <= usize::MAX,
        call_ensures(active_registration_count, (taken, fallback, hook_installed), r),
    ensures
        hook_installed && taken + fallback > 0 ==> r == Ok::<usize, String>(
            (taken + fallback) as usize,
        ),
        !hook_installed && taken > 0 ==> r == Ok::<usize, String>(taken),
        taken == 0 && (fallback == 0 || !hook_installed) ==> (r matches Err(text) && text@
            == "no hotkeys could be activated"@),
{
}

/// An event of the observing script sends its command where it names one that is known; what
/// else it says, or fails to say, is reported.
pub proof fn law_script_events_are_heeded(event: &HotkeyScriptEvent, r: ScriptEventAction)
    requires
        call_ensures(script_event_action, (event,), r),
    ensures
        ({
            let named = event.kind@ == "command"@;
            let warned = event.kind@ == "warning"@;
            &&& r matches ScriptEventAction::Send(command) ==> named && event.command is Some
                && command_named(event.command->0@) == Some(command)
            &&& named && event.command is Some && command_named(event.command->0@) is Some
                ==> r is Send
            &&& named && event.command is None ==> (r matches ScriptEventAction::Report(line)
                && line@ == "hotkey listener emitted command event without command"@)
            &&& named ==> (event.command matches Some(name) ==> (command_named(name@) is None ==> (
            r matches ScriptEventAction::Report(line) && line@
                == "hotkey listener emitted unsupported command '"@ + name@ + "'"@)))
            &&& !named && warned ==> (r matches ScriptEventAction::Report(line) && line@
                == "hotkey warning for "@ + (match event.trigger {
                Some(text) => text@,
                None => "?"@,
            }) + " ("@ + (match event.command {
                Some(text) => text@,
                None => "?"@,
            }) + "): "@ + (match event.message {
                Some(text) => text@,
                None => "unknown hotkey warning"@,
            }))
            &&& !named && !warned ==> (r matches ScriptEventAction::Report(line) && line@
                == "hotkey listener emitted unsupported event kind '"@ + event.kind@ + "'"@)
        }),
{
    if event.kind@ == "command"@ && event.kind@ == "warning"@ {
        reveal_strlit("command");
        reveal_strlit("warning");
        assert("command"@[0] == "warning"@[0]);
    }
}

/// Where an identifier stands for a command, it is the one that is listed with it, the first
/// one if there are several.
pub proof fn law_identifiers_stand_for_commands(
    command_by_id: &Vec<(i32, WatchCommand)>,
    hotkey_id: i32,
    r: Option<WatchCommand>,
    i: int,
)
    requires
        call_ensures(command_for_hotkey_id, (command_by_id, hotkey_id), r),
        0 <= i < command_by_id@.len(),
        command_by_id@[i].0 == hotkey_id,
        forall|j: int| 0 <= j < i ==> (#[trigger] command_by_id@[j]).0 != hotkey_id,
    ensures
        r matches Some(command) ==> command == command_by_id@[i].1,
{
    assert(command_by_id@[i].0 == hotkey_id);
    if r is Some {
        let k = choose|k: int|
            0 <= k < command_by_id@.len() && #[trigger] command_by_id@[k] == (hotkey_id, r->0)
                && forall|j: int| 0 <= j < k ==> (#[trigger] command_by_id@[j]).0 != hotkey_id;
        assert(command_by_id@[k].0 == hotkey_id);
        assert(!(k < i) && !(i < k));
        assert(command_by_id@[i] == (hotkey_id, r->0));
    }
}

} // verus!
