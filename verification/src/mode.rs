//! The boot-mode ladder: `Off < UEFI < Hypervisor < Kernel < User`.

use vstd::prelude::*;

verus! {

/// A privilege/boot stage. Exactly one mode is current at any time; the
/// machine starts in `Off` and moves forward one stage per `powerup`.
#[derive(Clone, Copy, Debug, PartialEq, Eq, Structural)]
pub enum Mode {
    Off,
    UEFI,
    Hypervisor,
    Kernel,
    User,
}

/// Position of a mode on the boot ladder: `Off` is 0, `User` is 4.
pub open spec fn mode_rank(m: Mode) -> int {
    match m {
        Mode::Off => 0,
        Mode::UEFI => 1,
        Mode::Hypervisor => 2,
        Mode::Kernel => 3,
        Mode::User => 4,
    }
}

/// The stage one `powerup` ahead of `m`; `User` has no further stage and
/// stays put.
pub open spec fn spec_next_mode(m: Mode) -> Mode {
    match m {
        Mode::Off => Mode::UEFI,
        Mode::UEFI => Mode::Hypervisor,
        Mode::Hypervisor => Mode::Kernel,
        Mode::Kernel => Mode::User,
        Mode::User => Mode::User,
    }
}

/// The label of a mode, as shown in the shell prompt.
pub open spec fn spec_mode_label(m: Mode) -> Seq<char> {
    match m {
        Mode::Off => "Off"@,
        Mode::UEFI => "UEFI"@,
        Mode::Hypervisor => "Hypervisor"@,
        Mode::Kernel => "Kernel"@,
        Mode::User => "User"@,
    }
}

impl Mode {
    /// One forward step along the ladder.
    pub fn next(self) -> (r: Mode)
        ensures
            r == spec_next_mode(self),
    {
        match self {
            Mode::Off => Mode::UEFI,
            Mode::UEFI => Mode::Hypervisor,
            Mode::Hypervisor => Mode::Kernel,
            Mode::Kernel => Mode::User,
            Mode::User => Mode::User,
        }
    }

    /// The prompt label of this mode.
    pub fn label(self) -> (r: &'static str)
        ensures
            r@ == spec_mode_label(self),
    {
        match self {
            Mode::Off => "Off",
            Mode::UEFI => "UEFI",
            Mode::Hypervisor => "Hypervisor",
            Mode::Kernel => "Kernel",
            Mode::User => "User",
        }
    }
}

/// Law: starting from `Off`, four forward steps visit `UEFI`, `Hypervisor`,
/// `Kernel` and `User` in that fixed order, and a fifth step is a no-op.
pub proof fn lemma_advance_order()
    ensures
        spec_next_mode(Mode::Off) == Mode::UEFI,
        spec_next_mode(Mode::UEFI) == Mode::Hypervisor,
        spec_next_mode(Mode::Hypervisor) == Mode::Kernel,
        spec_next_mode(Mode::Kernel) == Mode::User,
        spec_next_mode(spec_next_mode(spec_next_mode(spec_next_mode(Mode::Off)))) == Mode::User,
        spec_next_mode(Mode::User) == Mode::User,
{
}

/// Law: each forward step from a mode below `User` climbs exactly one rank,
/// so the ladder is strictly increasing until it tops out.
pub proof fn lemma_advance_climbs(m: Mode)
    ensures
        m != Mode::User ==> mode_rank(spec_next_mode(m)) == mode_rank(m) + 1,
        m == Mode::User ==> spec_next_mode(m) == m,
{
}

} // verus!
