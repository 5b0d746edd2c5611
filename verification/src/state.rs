//! The boot-mode machine: the single owner of the current mode, with the
//! unconditional `powerup` step and the verification-gated transitions used
//! by the `load_*` and `shutdown` commands.

use vstd::prelude::*;
use crate::mode::{Mode, spec_next_mode};
use crate::verification::{Artifact, VerificationRegistry};

verus! {

/// Why a gated transition was refused.
#[derive(Clone, Copy, Debug, PartialEq, Eq, Structural)]
pub enum ModeTransitionError {
    /// The transition requires an artifact that the registry has not marked
    /// verified.
    NotVerified,
}

/// Whether a transition gated on `required_flag` may fire under `flags`.
/// An ungated transition (`None`) is always allowed.
pub open spec fn spec_transition_allowed(
    flags: VerificationRegistry,
    required_flag: Option<Artifact>,
) -> bool {
    match required_flag {
        Option::None => true,
        Option::Some(a) => flags.spec_is_verified(a),
    }
}

/// Outcome of a gated transition: the result reported to the caller and the
/// mode afterwards. A refused transition leaves the mode where it was.
pub open spec fn spec_transition(
    mode: Mode,
    target: Mode,
    required_flag: Option<Artifact>,
    flags: VerificationRegistry,
) -> (Result<Mode, ModeTransitionError>, Mode) {
    if spec_transition_allowed(flags, required_flag) {
        (Result::Ok(target), target)
    } else {
        (Result::Err(ModeTransitionError::NotVerified), mode)
    }
}

/// Holds the current boot mode. Nothing else in the library keeps a copy of
/// the mode: every change goes through this type.
pub struct State {
    mode: Mode,
}

impl State {
    /// The current mode, as seen by contracts.
    pub closed spec fn spec_mode(self) -> Mode {
        self.mode
    }

    /// A machine that is powered off.
    pub fn new() -> (s: State)
        ensures
            s.spec_mode() == Mode::Off,
    {
        State { mode: Mode::Off }
    }

    /// Sets the mode outright, with no gating. The gated entry points below
    /// are built on this.
    pub fn change_mode(&mut self, new_mode: Mode)
        ensures
            final(self).spec_mode() == new_mode,
    {
        self.mode = new_mode;
    }

    /// The current mode; a pure read.
    pub fn current_mode(&self) -> (m: Mode)
        ensures
            m == self.spec_mode(),
    {
        self.mode
    }

    /// The `powerup` step: one stage forward along the ladder. In `User`
    /// there is no further stage; the call reports `false` and changes
    /// nothing.
    pub fn advance(&mut self) -> (moved: bool)
        ensures
            final(self).spec_mode() == spec_next_mode(old(self).spec_mode()),
            moved == (old(self).spec_mode() != Mode::User),
            !moved ==> *final(self) == *old(self),
    {
        let moved = match self.mode {
            Mode::User => false,
            _ => true,
        };
        self.mode = self.mode.next();
        moved
    }

    /// A `load_*` or `shutdown` transition. When `required_flag` names an
    /// artifact that `flags` has not verified, the transition is refused
    /// with `NotVerified` and the mode is unchanged; otherwise the mode
    /// becomes `target` and the new mode is returned.
    pub fn transition_to(
        &mut self,
        target: Mode,
        required_flag: Option<Artifact>,
        flags: &VerificationRegistry,
    ) -> (r: Result<Mode, ModeTransitionError>)
        ensures
            (r, final(self).spec_mode()) == spec_transition(
                old(self).spec_mode(),
                target,
                required_flag,
                *flags,
            ),
            r is Ok <==> spec_transition_allowed(*flags, required_flag),
    {
        let allowed = match required_flag {
            Option::None => true,
            Option::Some(a) => flags.is_verified(a),
        };
        if allowed {
            self.mode = target;
            Ok(target)
        } else {
            Err(ModeTransitionError::NotVerified)
        }
    }
}

/// Law: a transition to `Hypervisor` gated on the `Hypervisor` artifact is
/// refused with `NotVerified` exactly when the artifact is unverified, and
/// after the artifact is marked verified the same call succeeds and the mode
/// is `Hypervisor`.
pub proof fn lemma_verify_enables_load(mode: Mode, flags: VerificationRegistry)
    ensures
        spec_transition(mode, Mode::Hypervisor, Option::Some(Artifact::Hypervisor), flags).0
            == Result::<Mode, ModeTransitionError>::Err(ModeTransitionError::NotVerified)
            <==> !flags.spec_is_verified(Artifact::Hypervisor),
        !flags.spec_is_verified(Artifact::Hypervisor) ==> spec_transition(
            mode,
            Mode::Hypervisor,
            Option::Some(Artifact::Hypervisor),
            flags,
        ).1 == mode,
        spec_transition(
            mode,
            Mode::Hypervisor,
            Option::Some(Artifact::Hypervisor),
            flags.spec_set(Artifact::Hypervisor),
        ) == (Result::<Mode, ModeTransitionError>::Ok(Mode::Hypervisor), Mode::Hypervisor),
{
    crate::verification::lemma_set_is_verified(flags, Artifact::Hypervisor);
}

} // verus!
