//! The command processor: a typed token becomes a gated mode transition, a
//! shell action, or an instruction dispatch. The read loop around it lives
//! outside the library; each call here is one best-effort attempt against
//! the current state, and no outcome is fatal.

use vstd::prelude::*;
use crate::dispatch::{spec_execute, DispatchOutcome};
use crate::instructions::{HandlerAction, InstrView, InstructionRegistry};
use crate::mode::{spec_next_mode, Mode};
use crate::state::State;
use crate::strutil::str_eq;
use crate::verification::{Artifact, VerificationRegistry};

verus! {

/// Result of trying a token against the built-in transition commands.
#[derive(Clone, Copy, Debug, PartialEq, Eq, Structural)]
pub enum CommandResult {
    /// The token was a built-in and the transition fired.
    Success,
    /// The token was a built-in but its artifact is not verified.
    NotVerified,
    /// The token is no built-in; the caller falls through to the shell
    /// commands and the instruction dispatcher.
    UnknownCommand,
}

/// What the shell should do with one token.
#[derive(Clone, Copy, Debug, PartialEq, Eq, Structural)]
pub enum ShellOutcome {
    /// A built-in transition fired; the mode is now the one carried here.
    Transitioned(Mode),
    /// A built-in transition was refused for want of a verified artifact.
    NotVerified,
    /// Show the mode-specific hint.
    Hint,
    /// List the registered instruction names.
    Instructions,
    /// `powerup` moved the machine forward to the mode carried here.
    PoweredUp(Mode),
    /// `powerup` in `User` mode: nothing further to advance to.
    AlreadyUser,
    /// Terminate the read loop.
    Exit,
    /// The token went to the instruction dispatcher.
    Dispatched(DispatchOutcome),
}

/// The artifact that gates a built-in transition token, and the target mode;
/// `None` for tokens that are no built-in. `shutdown` is gated on nothing.
pub open spec fn spec_builtin(token: Seq<char>) -> Option<(Mode, Option<Artifact>)> {
    if token == "shutdown"@ {
        Option::Some((Mode::Off, Option::None))
    } else if token == "load_hypervisor"@ {
        Option::Some((Mode::Hypervisor, Option::Some(Artifact::Hypervisor)))
    } else if token == "load_kernel"@ {
        Option::Some((Mode::Kernel, Option::Some(Artifact::Kernel)))
    } else if token == "load_application"@ {
        Option::Some((Mode::User, Option::Some(Artifact::Application)))
    } else {
        Option::None
    }
}

/// Result and mode after trying `token` against the built-in transition
/// commands under `flags`. Flags are never written here.
pub open spec fn spec_process(token: Seq<char>, mode: Mode, flags: VerificationRegistry) -> (
    CommandResult,
    Mode,
) {
    match spec_builtin(token) {
        Option::None => (CommandResult::UnknownCommand, mode),
        Option::Some((target, required)) => match required {
            Option::None => (CommandResult::Success, target),
            Option::Some(a) => if flags.spec_is_verified(a) {
                (CommandResult::Success, target)
            } else {
                (CommandResult::NotVerified, mode)
            },
        },
    }
}

/// Tries `token` against the built-ins (`shutdown`, `load_hypervisor`,
/// `load_kernel`, `load_application`). Each consumes the token outright: a
/// failed gate yields `NotVerified` with the mode unchanged, and no other
/// token touches the state.
pub fn process_command(token: &str, state: &mut State, flags: &VerificationRegistry) -> (r:
    CommandResult)
    ensures
        (r, final(state).spec_mode()) == spec_process(token@, old(state).spec_mode(), *flags),
{
    if str_eq(token, "shutdown") {
        // shutdown is gated on nothing, so this transition always fires
        let _ = state.transition_to(Mode::Off, None, flags);
        CommandResult::Success
    } else if str_eq(token, "load_hypervisor") {
        match state.transition_to(Mode::Hypervisor, Some(Artifact::Hypervisor), flags) {
            Ok(_) => CommandResult::Success,
            Err(_) => CommandResult::NotVerified,
        }
    } else if str_eq(token, "load_kernel") {
        match state.transition_to(Mode::Kernel, Some(Artifact::Kernel), flags) {
            Ok(_) => CommandResult::Success,
            Err(_) => CommandResult::NotVerified,
        }
    } else if str_eq(token, "load_application") {
        match state.transition_to(Mode::User, Some(Artifact::Application), flags) {
            Ok(_) => CommandResult::Success,
            Err(_) => CommandResult::NotVerified,
        }
    } else {
        CommandResult::UnknownCommand
    }
}

/// Outcome, mode and flags after the shell handles one token: first the
/// built-in transitions, then the shell commands (`hint`, `instructions`,
/// `powerup`, `exit`), then the instruction dispatcher.
pub open spec fn spec_handle(
    table: Map<Seq<char>, InstrView>,
    mode: Mode,
    flags: VerificationRegistry,
    token: Seq<char>,
) -> (ShellOutcome, Mode, VerificationRegistry) {
    if spec_builtin(token) is Some {
        let (r, new_mode) = spec_process(token, mode, flags);
        if r == CommandResult::Success {
            (ShellOutcome::Transitioned(new_mode), new_mode, flags)
        } else {
            (ShellOutcome::NotVerified, mode, flags)
        }
    } else if token == "hint"@ {
        (ShellOutcome::Hint, mode, flags)
    } else if token == "instructions"@ {
        (ShellOutcome::Instructions, mode, flags)
    } else if token == "powerup"@ {
        if mode == Mode::User {
            (ShellOutcome::AlreadyUser, mode, flags)
        } else {
            (ShellOutcome::PoweredUp(spec_next_mode(mode)), spec_next_mode(mode), flags)
        }
    } else if token == "exit"@ {
        (ShellOutcome::Exit, mode, flags)
    } else {
        let (outcome, new_flags) = spec_execute(table, mode, flags, token);
        (ShellOutcome::Dispatched(outcome), mode, new_flags)
    }
}

/// Handles one token of the read loop: exactly the step of `spec_handle`
/// over the registry's table and the current mode and flags.
pub fn handle_token(
    token: &str,
    state: &mut State,
    registry: &InstructionRegistry,
    flags: &mut VerificationRegistry,
) -> (outcome: ShellOutcome)
    ensures
        (outcome, final(state).spec_mode(), *final(flags)) == spec_handle(
            registry.contents(),
            old(state).spec_mode(),
            *old(flags),
            token@,
        ),
        forall|x: Artifact| old(flags).spec_is_verified(x) ==> final(flags).spec_is_verified(x),
{
    if str_eq(token, "shutdown") || str_eq(token, "load_hypervisor") || str_eq(
        token,
        "load_kernel",
    ) || str_eq(token, "load_application") {
        match process_command(token, state, flags) {
            CommandResult::Success => {
                let m = state.current_mode();
                ShellOutcome::Transitioned(m)
            },
            _ => ShellOutcome::NotVerified,
        }
    } else if str_eq(token, "hint") {
        ShellOutcome::Hint
    } else if str_eq(token, "instructions") {
        ShellOutcome::Instructions
    } else if str_eq(token, "powerup") {
        let moved = state.advance();
        if moved {
            let m = state.current_mode();
            ShellOutcome::PoweredUp(m)
        } else {
            ShellOutcome::AlreadyUser
        }
    } else if str_eq(token, "exit") {
        ShellOutcome::Exit
    } else {
        let outcome = crate::dispatch::execute(token, registry, state, flags);
        ShellOutcome::Dispatched(outcome)
    }
}

/// The mode-specific guidance text shown for the `hint` command.
pub open spec fn spec_hint_text(m: Mode) -> Seq<char> {
    match m {
        Mode::Off => "Hint: Type 'powerup' to start the board"@,
        Mode::UEFI => "Hint: Type 'load_hypervisor' to load Hypervisor mode"@,
        Mode::Hypervisor => "Hint: Type 'load_kernel' to load the Kernel mode"@,
        Mode::Kernel => "Hint: Type 'start_user_space' to start user space applications"@,
        Mode::User => "Hint: Execute user-level instructions like 'ADD', 'SUB', etc."@,
    }
}

/// The hint for the current mode.
pub fn hint_text(m: Mode) -> (r: &'static str)
    ensures
        r@ == spec_hint_text(m),
{
    match m {
        Mode::Off => "Hint: Type 'powerup' to start the board",
        Mode::UEFI => "Hint: Type 'load_hypervisor' to load Hypervisor mode",
        Mode::Hypervisor => "Hint: Type 'load_kernel' to load the Kernel mode",
        Mode::Kernel => "Hint: Type 'start_user_space' to start user space applications",
        Mode::User => "Hint: Execute user-level instructions like 'ADD', 'SUB', etc.",
    }
}

/// The terminal color code of a mode's prompt.
pub open spec fn spec_prompt_color(m: Mode) -> Seq<char> {
    match m {
        Mode::UEFI => "\x1b[38;5;14m"@,
        Mode::Hypervisor => "\x1b[38;5;13m"@,
        Mode::Kernel => "\x1b[38;5;10m"@,
        Mode::User => "\x1b[38;5;11m"@,
        Mode::Off => "\x1b[0m"@,
    }
}

/// The color code that the prompt of mode `m` is rendered in.
pub fn get_prompt_color(m: Mode) -> (r: &'static str)
    ensures
        r@ == spec_prompt_color(m),
{
    match m {
        Mode::UEFI => "\x1b[38;5;14m",
        Mode::Hypervisor => "\x1b[38;5;13m",
        Mode::Kernel => "\x1b[38;5;10m",
        Mode::User => "\x1b[38;5;11m",
        Mode::Off => "\x1b[0m",
    }
}

/// Mode and flags after the shell has handled every token of `tokens` in
/// order, starting from `mode` and `flags`.
pub open spec fn spec_run(
    table: Map<Seq<char>, InstrView>,
    mode: Mode,
    flags: VerificationRegistry,
    tokens: Seq<Seq<char>>,
) -> (Mode, VerificationRegistry)
    decreases tokens.len(),
{
    if tokens.len() == 0 {
        (mode, flags)
    } else {
        let (outcome, new_mode, new_flags) = spec_handle(table, mode, flags, tokens[0]);
        spec_run(table, new_mode, new_flags, tokens.drop_first())
    }
}

/// Law: one handled token never clears a verification flag.
pub proof fn lemma_handle_monotonic(
    table: Map<Seq<char>, InstrView>,
    mode: Mode,
    flags: VerificationRegistry,
    token: Seq<char>,
    a: Artifact,
)
    requires
        flags.spec_is_verified(a),
    ensures
        spec_handle(table, mode, flags, token).2.spec_is_verified(a),
{
    if spec_builtin(token) is None && token != "hint"@ && token != "instructions"@ && token
        != "powerup"@ && token != "exit"@ {
        if table.contains_key(token) {
            match table[token].action {
                HandlerAction::Display => {},
                HandlerAction::Verify(x) => {
                    crate::verification::lemma_set_is_verified(flags, x);
                },
            }
        }
    }
}

/// Law: flags are monotone. Once an artifact is verified, no sequence of
/// shell tokens (transitions, shutdowns, dispatches, anything) makes it
/// unverified again.
pub proof fn lemma_flags_monotonic(
    table: Map<Seq<char>, InstrView>,
    mode: Mode,
    flags: VerificationRegistry,
    tokens: Seq<Seq<char>>,
    a: Artifact,
)
    requires
        flags.spec_is_verified(a),
    ensures
        spec_run(table, mode, flags, tokens).1.spec_is_verified(a),
    decreases tokens.len(),
{
    if tokens.len() > 0 {
        let (outcome, new_mode, new_flags) = spec_handle(table, mode, flags, tokens[0]);
        lemma_handle_monotonic(table, mode, flags, tokens[0], a);
        lemma_flags_monotonic(table, new_mode, new_flags, tokens.drop_first(), a);
    }
}

/// Law: running any instruction whose handler verifies the hypervisor, in
/// the mode that instruction requires, makes a later transition to
/// `Hypervisor` gated on the `Hypervisor` artifact succeed; before the flag
/// is set, that same transition is refused with `NotVerified`.
pub proof fn lemma_verify_instruction_enables_load(
    table: Map<Seq<char>, InstrView>,
    mode: Mode,
    later_mode: Mode,
    flags: VerificationRegistry,
    name: Seq<char>,
)
    requires
        table.contains_key(name),
        table[name].action == HandlerAction::Verify(Artifact::Hypervisor),
        table[name].required_mode == mode,
    ensures
        spec_execute(table, mode, flags, name).0 == DispatchOutcome::Executed,
        crate::state::spec_transition(
            later_mode,
            Mode::Hypervisor,
            Option::Some(Artifact::Hypervisor),
            spec_execute(table, mode, flags, name).1,
        ) == (Result::<Mode, crate::state::ModeTransitionError>::Ok(Mode::Hypervisor), Mode::Hypervisor),
        !flags.spec_is_verified(Artifact::Hypervisor) ==> crate::state::spec_transition(
            later_mode,
            Mode::Hypervisor,
            Option::Some(Artifact::Hypervisor),
            flags,
        ).0 == Result::<Mode, crate::state::ModeTransitionError>::Err(
            crate::state::ModeTransitionError::NotVerified,
        ),
{
    crate::verification::lemma_set_is_verified(flags, Artifact::Hypervisor);
}

/// Law: `shutdown` from any mode, `User` included, moves the machine to
/// `Off` and leaves every verification flag exactly as it was.
pub proof fn lemma_shutdown_from_anywhere(
    table: Map<Seq<char>, InstrView>,
    mode: Mode,
    flags: VerificationRegistry,
)
    ensures
        spec_handle(table, mode, flags, "shutdown"@) == (
            ShellOutcome::Transitioned(Mode::Off),
            Mode::Off,
            flags,
        ),
{
}

} // verus!
