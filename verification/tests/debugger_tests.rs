use gbmu::debugger::{DebugAction, DebuggerState};
use gbmu::gui::DebugCommandQueries;

#[test]
fn watch_toggle_adds_then_removes() {
    let mut state = DebuggerState::new();
    state.toggle_watch(0xC000);
    state.toggle_watch(0xFF40);
    assert_eq!(state.watched_addresses, vec![0xC000, 0xFF40]);

    // Toggling an address already on the list removes it.
    state.toggle_watch(0xC000);
    assert_eq!(state.watched_addresses, vec![0xFF40]);

    // Toggling again brings it back at the end.
    state.toggle_watch(0xC000);
    assert_eq!(state.watched_addresses, vec![0xFF40, 0xC000]);
}

#[test]
fn watch_toggle_removes_the_first_occurrence() {
    let mut state = DebuggerState::new();
    state.toggle_watch(0x1111);
    state.toggle_watch(0x2222);
    state.toggle_watch(0x3333);
    state.toggle_watch(0x2222);
    assert_eq!(state.watched_addresses, vec![0x1111, 0x3333]);
}

#[test]
fn commands_update_state_and_pick_the_action() {
    let mut state = DebuggerState::new();

    assert_eq!(state.handle_command(&DebugCommandQueries::SetStepMode), DebugAction::SendStepMode);
    assert!(state.is_step_mode);
    assert_eq!(state.handle_command(&DebugCommandQueries::SetStepMode), DebugAction::SendStepMode);
    assert!(!state.is_step_mode);

    assert_eq!(
        state.handle_command(&DebugCommandQueries::GetNextInstructions(5)),
        DebugAction::SendNextInstructions
    );
    assert_eq!(state.nb_next_instruction, 5);

    assert_eq!(
        state.handle_command(&DebugCommandQueries::ExecuteNextInstructions(3)),
        DebugAction::RunFrames(3)
    );
    assert_eq!(
        state.handle_command(&DebugCommandQueries::ExecuteInstruction(0x27)),
        DebugAction::RunInstruction(0x27)
    );
    assert_eq!(
        state.handle_command(&DebugCommandQueries::GetRegisters),
        DebugAction::SendRegisters
    );
    assert_eq!(
        state.handle_command(&DebugCommandQueries::WatchAddress(0x8000)),
        DebugAction::SendWatchedAddresses
    );
    assert_eq!(state.watched_addresses, vec![0x8000]);
    assert_eq!(
        state.handle_command(&DebugCommandQueries::GetAddresses),
        DebugAction::SendWatchedAddresses
    );
}
