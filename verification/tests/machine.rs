use secboot::mode::Mode;
use secboot::state::{ModeTransitionError, State};
use secboot::verification::{Artifact, VerificationRegistry};

#[test]
fn new_machine_is_off() {
    let s = State::new();
    assert_eq!(s.current_mode(), Mode::Off);
}

#[test]
fn advance_walks_the_ladder_in_order() {
    let mut s = State::new();
    assert_eq!(s.current_mode(), Mode::Off);
    assert!(s.advance());
    assert_eq!(s.current_mode(), Mode::UEFI);
    assert!(s.advance());
    assert_eq!(s.current_mode(), Mode::Hypervisor);
    assert!(s.advance());
    assert_eq!(s.current_mode(), Mode::Kernel);
    assert!(s.advance());
    assert_eq!(s.current_mode(), Mode::User);
}

#[test]
fn fifth_advance_is_a_no_op() {
    let mut s = State::new();
    for _ in 0..4 {
        s.advance();
    }
    assert_eq!(s.current_mode(), Mode::User);
    assert!(!s.advance());
    assert_eq!(s.current_mode(), Mode::User);
}

#[test]
fn change_mode_sets_mode_outright() {
    let mut s = State::new();
    s.change_mode(Mode::Kernel);
    assert_eq!(s.current_mode(), Mode::Kernel);
    s.change_mode(Mode::Off);
    assert_eq!(s.current_mode(), Mode::Off);
}

#[test]
fn gated_transition_refused_until_verified() {
    let mut s = State::new();
    s.change_mode(Mode::UEFI);
    let mut flags = VerificationRegistry::new();
    let refused = s.transition_to(Mode::Hypervisor, Some(Artifact::Hypervisor), &flags);
    assert_eq!(refused, Err(ModeTransitionError::NotVerified));
    assert_eq!(s.current_mode(), Mode::UEFI);
    flags.set(Artifact::Hypervisor);
    let granted = s.transition_to(Mode::Hypervisor, Some(Artifact::Hypervisor), &flags);
    assert_eq!(granted, Ok(Mode::Hypervisor));
    assert_eq!(s.current_mode(), Mode::Hypervisor);
}

#[test]
fn shutdown_reaches_off_from_every_mode() {
    let modes = [Mode::Off, Mode::UEFI, Mode::Hypervisor, Mode::Kernel, Mode::User];
    for &m in modes.iter() {
        let mut s = State::new();
        s.change_mode(m);
        let mut flags = VerificationRegistry::new();
        flags.set(Artifact::Kernel);
        let r = s.transition_to(Mode::Off, None, &flags);
        assert_eq!(r, Ok(Mode::Off));
        assert_eq!(s.current_mode(), Mode::Off);
        // the shutdown clears no flags
        assert!(flags.is_verified(Artifact::Kernel));
        assert!(!flags.is_verified(Artifact::Bootloader));
    }
}

#[test]
fn fresh_registry_has_no_verified_artifact() {
    let flags = VerificationRegistry::new();
    let all = [
        Artifact::Bootloader,
        Artifact::Hypervisor,
        Artifact::Kernel,
        Artifact::Filesystem,
        Artifact::Application,
    ];
    for &a in all.iter() {
        assert!(!flags.is_verified(a));
    }
}

#[test]
fn set_marks_only_its_artifact() {
    let mut flags = VerificationRegistry::new();
    flags.set(Artifact::Filesystem);
    assert!(flags.is_verified(Artifact::Filesystem));
    assert!(!flags.is_verified(Artifact::Bootloader));
    assert!(!flags.is_verified(Artifact::Hypervisor));
    assert!(!flags.is_verified(Artifact::Kernel));
    assert!(!flags.is_verified(Artifact::Application));
}

#[test]
fn set_twice_equals_set_once() {
    let mut once = VerificationRegistry::new();
    once.set(Artifact::Application);
    let mut twice = VerificationRegistry::new();
    twice.set(Artifact::Application);
    twice.set(Artifact::Application);
    assert_eq!(once, twice);
    assert!(twice.is_verified(Artifact::Application));
}

#[test]
fn mode_labels_are_exact() {
    assert_eq!(Mode::Off.label(), "Off");
    assert_eq!(Mode::UEFI.label(), "UEFI");
    assert_eq!(Mode::Hypervisor.label(), "Hypervisor");
    assert_eq!(Mode::Kernel.label(), "Kernel");
    assert_eq!(Mode::User.label(), "User");
}

#[test]
fn next_mode_is_exact() {
    assert_eq!(Mode::Off.next(), Mode::UEFI);
    assert_eq!(Mode::UEFI.next(), Mode::Hypervisor);
    assert_eq!(Mode::Hypervisor.next(), Mode::Kernel);
    assert_eq!(Mode::Kernel.next(), Mode::User);
    assert_eq!(Mode::User.next(), Mode::User);
}
