use lumitype::state::{DictationState, StateMachine, TrayState};

#[test]
fn starts_listening_when_enabled() {
    let machine = StateMachine::new(true);
    assert_eq!(machine.state(), DictationState::Listening);
}

#[test]
fn starts_idle_when_disabled() {
    let machine = StateMachine::new(false);
    assert_eq!(machine.state(), DictationState::Idle);
}

#[test]
fn dictation_flow_transitions_are_valid() {
    let mut machine = StateMachine::new(true);
    assert!(machine.try_start_dictation());
    assert_eq!(machine.state(), DictationState::Dictating);

    assert!(machine.try_begin_stopping());
    assert_eq!(machine.state(), DictationState::Stopping);

    assert!(machine.finish_stopping());
    assert_eq!(machine.state(), DictationState::Listening);
}

#[test]
fn cancel_returns_to_listening() {
    let mut machine = StateMachine::new(true);
    assert!(machine.try_start_dictation());
    assert!(machine.cancel_dictation());
    assert_eq!(machine.state(), DictationState::Listening);
}

#[test]
fn ten_consecutive_dictations_rearm_without_invalid_state() {
    let mut machine = StateMachine::new(true);

    for _ in 0..10 {
        assert_eq!(machine.state(), DictationState::Listening);
        assert!(machine.try_start_dictation());
        assert_eq!(machine.state(), DictationState::Dictating);
        assert!(machine.try_begin_stopping());
        assert_eq!(machine.state(), DictationState::Stopping);
        assert!(machine.finish_stopping());
        assert_eq!(machine.state(), DictationState::Listening);
    }
}

#[test]
fn reissued_transitions_report_no_change() {
    let mut machine = StateMachine::new(true);
    assert!(!machine.set_enabled(true));
    assert!(machine.try_start_dictation());
    assert!(!machine.try_start_dictation());
    assert!(machine.try_begin_stopping());
    assert!(!machine.try_begin_stopping());
    assert!(machine.finish_stopping());
    assert!(!machine.finish_stopping());
    assert!(!machine.cancel_dictation());
    assert!(machine.set_enabled(false));
    assert!(!machine.set_enabled(false));
    assert_eq!(machine.state(), DictationState::Idle);
}

#[test]
fn disabled_machine_cannot_dictate() {
    let mut machine = StateMachine::new(false);
    assert!(!machine.try_start_dictation());
    assert_eq!(machine.state(), DictationState::Idle);
    assert!(!machine.should_route_to_wake());
    assert!(!machine.should_route_to_dictation());
}

#[test]
fn start_is_refused_while_stopping() {
    let mut machine = StateMachine::new(true);
    assert!(machine.try_start_dictation());
    assert!(machine.try_begin_stopping());
    assert!(!machine.try_start_dictation());
    assert_eq!(machine.state(), DictationState::Stopping);
}

#[test]
fn routing_and_tray_follow_state() {
    let mut machine = StateMachine::new(true);
    assert!(machine.should_route_to_wake());
    assert_eq!(machine.tray_state(), TrayState::Listening);
    machine.try_start_dictation();
    assert!(machine.should_route_to_dictation());
    assert!(!machine.should_route_to_wake());
    assert_eq!(machine.tray_state(), TrayState::Dictating);
    machine.try_begin_stopping();
    assert!(!machine.should_route_to_dictation());
    assert_eq!(machine.tray_state(), TrayState::Dictating);
    machine.set_enabled(false);
    assert_eq!(machine.tray_state(), TrayState::Idle);
}

#[test]
fn disabling_mid_dictation_goes_idle() {
    let mut machine = StateMachine::new(true);
    machine.try_start_dictation();
    assert!(machine.set_enabled(false));
    assert_eq!(machine.state(), DictationState::Idle);
    assert!(!machine.cancel_dictation());
}
