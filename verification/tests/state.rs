use nix_installer::state::ActionState;

#[test]
fn state_words_round_trip() {
    for state in [ActionState::Uncompleted, ActionState::Progress, ActionState::Completed] {
        let word = state.name().to_string();
        assert_eq!(ActionState::from_name(&word), Some(state));
    }
    assert_eq!(ActionState::from_name(&"Skipped".to_string()), None);
}
