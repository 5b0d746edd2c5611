//! Verification-gated instruction dispatch: look a token up in the table,
//! check the required mode against the current one, and run the handler.
//! Dispatch never changes the current mode; the only state a handler may
//! touch is the verification registry, and only by marking one artifact.

use vstd::prelude::*;
use crate::instructions::{HandlerAction, InstrView, InstructionRegistry};
use crate::mode::Mode;
use crate::state::State;
use crate::verification::VerificationRegistry;

verus! {

/// Classification of an attempt to run an instruction.
#[derive(Clone, Copy, Debug, PartialEq, Eq, Structural)]
pub enum DispatchOutcome {
    /// The instruction exists, the mode matched, and the handler ran.
    Executed,
    /// The instruction exists but may only run in `required`.
    ModeMismatch { required: Mode, actual: Mode },
    /// No instruction of that name is registered.
    UnknownInstruction,
}

/// Outcome of dispatching `name` under `mode`, and the verification flags
/// afterwards. Flags change only when a `Verify` handler runs.
pub open spec fn spec_execute(
    table: Map<Seq<char>, InstrView>,
    mode: Mode,
    flags: VerificationRegistry,
    name: Seq<char>,
) -> (DispatchOutcome, VerificationRegistry) {
    if !table.contains_key(name) {
        (DispatchOutcome::UnknownInstruction, flags)
    } else if table[name].required_mode != mode {
        (
            DispatchOutcome::ModeMismatch { required: table[name].required_mode, actual: mode },
            flags,
        )
    } else {
        match table[name].action {
            HandlerAction::Display => (DispatchOutcome::Executed, flags),
            HandlerAction::Verify(a) => (DispatchOutcome::Executed, flags.spec_set(a)),
        }
    }
}

/// Dispatches one instruction token. The current mode is read, never
/// written: the outcome and the flags afterwards are exactly those of
/// `spec_execute`. In particular the handler runs iff the name is registered
/// and its required mode equals the current one, and a refusal of either
/// kind leaves the flags untouched.
pub fn execute(
    name: &str,
    registry: &InstructionRegistry,
    state: &State,
    flags: &mut VerificationRegistry,
) -> (outcome: DispatchOutcome)
    ensures
        (outcome, *final(flags)) == spec_execute(
            registry.contents(),
            state.spec_mode(),
            *old(flags),
            name@,
        ),
        outcome == DispatchOutcome::Executed <==> registry.contents().contains_key(name@)
            && registry.contents()[name@].required_mode == state.spec_mode(),
        outcome != DispatchOutcome::Executed ==> *final(flags) == *old(flags),
        forall|x: crate::verification::Artifact|
            old(flags).spec_is_verified(x) ==> final(flags).spec_is_verified(x),
{
    match registry.lookup(name) {
        None => DispatchOutcome::UnknownInstruction,
        Some(inst) => {
            let mode = state.current_mode();
            if inst.required_mode != mode {
                DispatchOutcome::ModeMismatch { required: inst.required_mode, actual: mode }
            } else {
                match inst.action {
                    HandlerAction::Display => DispatchOutcome::Executed,
                    HandlerAction::Verify(a) => {
                        proof {
                            crate::verification::lemma_set_is_verified(*flags, a);
                        }
                        flags.set(a);
                        DispatchOutcome::Executed
                    },
                }
            }
        },
    }
}

/// Law: dispatch is gated on the mode alone. A registered instruction runs
/// exactly in its required mode; in any other mode the outcome is
/// `ModeMismatch` and the flags are untouched; an unregistered name is
/// `UnknownInstruction` and the flags are untouched. The current mode is
/// never changed by dispatch, whatever the outcome.
pub proof fn lemma_dispatch_mode_gate(
    table: Map<Seq<char>, InstrView>,
    mode: Mode,
    flags: VerificationRegistry,
    name: Seq<char>,
)
    ensures
        table.contains_key(name) && table[name].required_mode == mode ==> spec_execute(
            table,
            mode,
            flags,
            name,
        ).0 == DispatchOutcome::Executed,
        table.contains_key(name) && table[name].required_mode != mode ==> spec_execute(
            table,
            mode,
            flags,
            name,
        ) == (
            DispatchOutcome::ModeMismatch { required: table[name].required_mode, actual: mode },
            flags,
        ),
        !table.contains_key(name) ==> spec_execute(table, mode, flags, name) == (
            DispatchOutcome::UnknownInstruction,
            flags,
        ),
{
}

} // verus!
