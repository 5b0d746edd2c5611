use secboot::dispatch::{execute, DispatchOutcome};
use secboot::instructions::InstructionRegistry;
use secboot::mode::Mode;
use secboot::shell::{
    get_prompt_color, handle_token, hint_text, process_command, CommandResult, ShellOutcome,
};
use secboot::state::State;
use secboot::verification::{Artifact, VerificationRegistry};

#[test]
fn dispatch_runs_only_in_the_required_mode() {
    let reg = InstructionRegistry::new();
    let mut flags = VerificationRegistry::new();
    let mut state = State::new();
    state.change_mode(Mode::User);
    let before = flags;
    assert_eq!(execute("ADD", &reg, &state, &mut flags), DispatchOutcome::Executed);
    assert_eq!(state.current_mode(), Mode::User);
    assert_eq!(flags, before);

    state.change_mode(Mode::Kernel);
    assert_eq!(
        execute("ADD", &reg, &state, &mut flags),
        DispatchOutcome::ModeMismatch { required: Mode::User, actual: Mode::Kernel }
    );
    assert_eq!(state.current_mode(), Mode::Kernel);
    assert_eq!(flags, before);
}

#[test]
fn dispatch_of_unknown_name_changes_nothing() {
    let reg = InstructionRegistry::new();
    let mut flags = VerificationRegistry::new();
    let state = State::new();
    let before = flags;
    assert_eq!(execute("warp", &reg, &state, &mut flags), DispatchOutcome::UnknownInstruction);
    assert_eq!(flags, before);
}

#[test]
fn verify_handler_sets_exactly_its_flag() {
    let reg = InstructionRegistry::new();
    let mut flags = VerificationRegistry::new();
    let mut state = State::new();
    state.change_mode(Mode::UEFI);
    assert_eq!(execute("verify_bootloader", &reg, &state, &mut flags), DispatchOutcome::Executed);
    assert!(flags.is_verified(Artifact::Bootloader));
    assert!(!flags.is_verified(Artifact::Hypervisor));
    assert_eq!(state.current_mode(), Mode::UEFI);
}

#[test]
fn display_handler_leaves_flags_alone() {
    let reg = InstructionRegistry::new();
    let mut flags = VerificationRegistry::new();
    let mut state = State::new();
    state.change_mode(Mode::UEFI);
    let before = flags;
    assert_eq!(execute("init_initial_hw", &reg, &state, &mut flags), DispatchOutcome::Executed);
    assert_eq!(flags, before);
}

#[test]
fn builtins_consume_their_tokens() {
    let mut state = State::new();
    state.change_mode(Mode::User);
    let flags = VerificationRegistry::new();
    assert_eq!(process_command("shutdown", &mut state, &flags), CommandResult::Success);
    assert_eq!(state.current_mode(), Mode::Off);

    state.change_mode(Mode::UEFI);
    assert_eq!(process_command("load_kernel", &mut state, &flags), CommandResult::NotVerified);
    assert_eq!(state.current_mode(), Mode::UEFI);

    assert_eq!(process_command("powerup", &mut state, &flags), CommandResult::UnknownCommand);
    assert_eq!(state.current_mode(), Mode::UEFI);
}

#[test]
fn load_application_enters_user_mode_once_verified() {
    let mut state = State::new();
    state.change_mode(Mode::Kernel);
    let mut flags = VerificationRegistry::new();
    assert_eq!(process_command("load_application", &mut state, &flags), CommandResult::NotVerified);
    flags.set(Artifact::Application);
    assert_eq!(process_command("load_application", &mut state, &flags), CommandResult::Success);
    assert_eq!(state.current_mode(), Mode::User);
}

#[test]
fn builtin_transitions_are_gated_on_flags_alone() {
    // the load builtins check their verification flag, not the current mode
    let mut state = State::new();
    let mut flags = VerificationRegistry::new();
    flags.set(Artifact::Hypervisor);
    assert_eq!(state.current_mode(), Mode::Off);
    assert_eq!(process_command("load_hypervisor", &mut state, &flags), CommandResult::Success);
    assert_eq!(state.current_mode(), Mode::Hypervisor);
}

#[test]
fn boot_scenario_walks_the_secure_chain() {
    let reg = InstructionRegistry::new();
    let mut state = State::new();
    let mut flags = VerificationRegistry::new();

    assert_eq!(handle_token("powerup", &mut state, &reg, &mut flags), ShellOutcome::PoweredUp(Mode::UEFI));
    assert_eq!(state.current_mode(), Mode::UEFI);

    assert_eq!(
        handle_token("ADD", &mut state, &reg, &mut flags),
        ShellOutcome::Dispatched(DispatchOutcome::ModeMismatch {
            required: Mode::User,
            actual: Mode::UEFI,
        })
    );

    assert_eq!(
        handle_token("verify_hypervisor", &mut state, &reg, &mut flags),
        ShellOutcome::Dispatched(DispatchOutcome::Executed)
    );
    assert!(flags.is_verified(Artifact::Hypervisor));
    assert_eq!(state.current_mode(), Mode::UEFI);

    assert_eq!(
        handle_token("load_hypervisor", &mut state, &reg, &mut flags),
        ShellOutcome::Transitioned(Mode::Hypervisor)
    );
    assert_eq!(state.current_mode(), Mode::Hypervisor);

    assert_eq!(handle_token("load_kernel", &mut state, &reg, &mut flags), ShellOutcome::NotVerified);
    assert_eq!(state.current_mode(), Mode::Hypervisor);
}

#[test]
fn flags_stay_verified_through_any_operations() {
    let reg = InstructionRegistry::new();
    let mut state = State::new();
    let mut flags = VerificationRegistry::new();
    flags.set(Artifact::Kernel);
    let tokens = [
        "powerup", "hint", "instructions", "verify_bootloader", "ADD", "nonsense",
        "load_hypervisor", "shutdown", "powerup", "exit", "load_kernel", "shutdown",
    ];
    for tok in tokens.iter() {
        handle_token(tok, &mut state, &reg, &mut flags);
        assert!(flags.is_verified(Artifact::Kernel));
    }
}

#[test]
fn shell_commands_report_their_actions() {
    let reg = InstructionRegistry::new();
    let mut state = State::new();
    let mut flags = VerificationRegistry::new();
    assert_eq!(handle_token("hint", &mut state, &reg, &mut flags), ShellOutcome::Hint);
    assert_eq!(handle_token("instructions", &mut state, &reg, &mut flags), ShellOutcome::Instructions);
    assert_eq!(handle_token("exit", &mut state, &reg, &mut flags), ShellOutcome::Exit);
    assert_eq!(state.current_mode(), Mode::Off);
}

#[test]
fn powerup_in_user_mode_reports_already_there() {
    let reg = InstructionRegistry::new();
    let mut state = State::new();
    let mut flags = VerificationRegistry::new();
    state.change_mode(Mode::User);
    assert_eq!(handle_token("powerup", &mut state, &reg, &mut flags), ShellOutcome::AlreadyUser);
    assert_eq!(state.current_mode(), Mode::User);
}

#[test]
fn shutdown_token_reaches_off_and_keeps_flags() {
    let reg = InstructionRegistry::new();
    let modes = [Mode::Off, Mode::UEFI, Mode::Hypervisor, Mode::Kernel, Mode::User];
    for &m in modes.iter() {
        let mut state = State::new();
        state.change_mode(m);
        let mut flags = VerificationRegistry::new();
        flags.set(Artifact::Filesystem);
        let before = flags;
        assert_eq!(
            handle_token("shutdown", &mut state, &reg, &mut flags),
            ShellOutcome::Transitioned(Mode::Off)
        );
        assert_eq!(state.current_mode(), Mode::Off);
        assert_eq!(flags, before);
    }
}

#[test]
fn hint_texts_are_exact() {
    assert_eq!(hint_text(Mode::Off), "Hint: Type 'powerup' to start the board");
    assert_eq!(hint_text(Mode::UEFI), "Hint: Type 'load_hypervisor' to load Hypervisor mode");
    assert_eq!(hint_text(Mode::Hypervisor), "Hint: Type 'load_kernel' to load the Kernel mode");
    assert_eq!(
        hint_text(Mode::Kernel),
        "Hint: Type 'start_user_space' to start user space applications"
    );
    assert_eq!(
        hint_text(Mode::User),
        "Hint: Execute user-level instructions like 'ADD', 'SUB', etc."
    );
}

#[test]
fn prompt_colors_are_exact() {
    assert_eq!(get_prompt_color(Mode::UEFI), "\x1b[38;5;14m");
    assert_eq!(get_prompt_color(Mode::Hypervisor), "\x1b[38;5;13m");
    assert_eq!(get_prompt_color(Mode::Kernel), "\x1b[38;5;10m");
    assert_eq!(get_prompt_color(Mode::User), "\x1b[38;5;11m");
    assert_eq!(get_prompt_color(Mode::Off), "\x1b[0m");
}
