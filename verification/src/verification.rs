//! Per-artifact verification flags. Each artifact carries one boolean that
//! starts `false`, is set by the matching `verify_*` instruction, and is
//! never reset.

use vstd::prelude::*;

verus! {

/// A verifiable artifact of the boot chain.
#[derive(Clone, Copy, Debug, PartialEq, Eq, Structural)]
pub enum Artifact {
    Bootloader,
    Hypervisor,
    Kernel,
    Filesystem,
    Application,
}

/// One verification flag per artifact, all `false` at startup. Flags are
/// mutated only by `set` (false-to-true) and read by the gated mode
/// transitions.
#[derive(Clone, Copy, Debug, PartialEq, Eq, Structural)]
pub struct VerificationRegistry {
    bootloader: bool,
    hypervisor: bool,
    kernel: bool,
    filesystem: bool,
    application: bool,
}

impl VerificationRegistry {
    /// Whether `a` has been marked verified.
    pub closed spec fn spec_is_verified(self, a: Artifact) -> bool {
        match a {
            Artifact::Bootloader => self.bootloader,
            Artifact::Hypervisor => self.hypervisor,
            Artifact::Kernel => self.kernel,
            Artifact::Filesystem => self.filesystem,
            Artifact::Application => self.application,
        }
    }

    /// The registry after marking `a` verified.
    pub closed spec fn spec_set(self, a: Artifact) -> VerificationRegistry {
        match a {
            Artifact::Bootloader => VerificationRegistry { bootloader: true, ..self },
            Artifact::Hypervisor => VerificationRegistry { hypervisor: true, ..self },
            Artifact::Kernel => VerificationRegistry { kernel: true, ..self },
            Artifact::Filesystem => VerificationRegistry { filesystem: true, ..self },
            Artifact::Application => VerificationRegistry { application: true, ..self },
        }
    }

    /// A registry with every flag clear.
    pub fn new() -> (r: VerificationRegistry)
        ensures
            forall|a: Artifact| !r.spec_is_verified(a),
    {
        VerificationRegistry {
            bootloader: false,
            hypervisor: false,
            kernel: false,
            filesystem: false,
            application: false,
        }
    }

    /// Marks `a` verified. Always succeeds; marking an already-verified
    /// artifact changes nothing.
    pub fn set(&mut self, a: Artifact)
        ensures
            *final(self) == old(self).spec_set(a),
            final(self).spec_is_verified(a),
            forall|x: Artifact| x != a ==>
                final(self).spec_is_verified(x) == old(self).spec_is_verified(x),
    {
        match a {
            Artifact::Bootloader => { self.bootloader = true; },
            Artifact::Hypervisor => { self.hypervisor = true; },
            Artifact::Kernel => { self.kernel = true; },
            Artifact::Filesystem => { self.filesystem = true; },
            Artifact::Application => { self.application = true; },
        }
    }

    /// Reads the flag of `a`; a pure read with no side effect.
    pub fn is_verified(&self, a: Artifact) -> (r: bool)
        ensures
            r == self.spec_is_verified(a),
    {
        match a {
            Artifact::Bootloader => self.bootloader,
            Artifact::Hypervisor => self.hypervisor,
            Artifact::Kernel => self.kernel,
            Artifact::Filesystem => self.filesystem,
            Artifact::Application => self.application,
        }
    }
}

/// Law: `spec_set` marks exactly its artifact and never clears a flag, so
/// every flag is monotone under `set`.
pub proof fn lemma_set_is_verified(r: VerificationRegistry, a: Artifact)
    ensures
        r.spec_set(a).spec_is_verified(a),
        forall|x: Artifact| x != a ==>
            r.spec_set(a).spec_is_verified(x) == r.spec_is_verified(x),
        forall|x: Artifact| r.spec_is_verified(x) ==> r.spec_set(a).spec_is_verified(x),
{
}

/// Law: marking an artifact twice is indistinguishable from marking it once.
pub proof fn lemma_set_idempotent(r: VerificationRegistry, a: Artifact)
    ensures
        r.spec_set(a).spec_set(a) == r.spec_set(a),
{
}

} // verus!
