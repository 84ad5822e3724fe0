use lumitype::audio::AudioFrame;
use lumitype::engine::{settings_commands, EngineAction, EngineCommand, EngineCore, EngineEvent};
use lumitype::injector::{InjectionMessage, InjectorSession, Keystrokes};
use lumitype::settings::{EngineSettings, PermissionStatus, TranscriptionModel};
use lumitype::state::{DictationState, TrayState};
use lumitype::transcriber::{TranscriberMessage, TranscriberSession};
use lumitype::vad::VadMessage;

fn settings(enabled: bool) -> EngineSettings {
    let mut s = EngineSettings::default();
    s.enabled = enabled;
    s
}

fn frame() -> AudioFrame {
    AudioFrame { samples: vec![0i16; 320], sample_rate: 16_000, peak: 1200 }
}

fn shown_text(actions: &[EngineAction]) -> Vec<String> {
    actions
        .iter()
        .filter_map(|a| match a {
            EngineAction::Publish(EngineEvent::OverlayTextDelta(d)) => Some(d.clone()),
            _ => None,
        })
        .collect()
}

fn is_state_event(a: &EngineAction) -> bool {
    matches!(
        a,
        EngineAction::Publish(EngineEvent::StateChanged(_))
            | EngineAction::Publish(EngineEvent::TrayStateChanged(_))
    )
}

fn type_delta(injector: &mut InjectorSession, text: &str) {
    match injector.handle(InjectionMessage::Delta(text.to_string()), false) {
        Keystrokes::Type(chars) => {
            let n = chars.len();
            injector.record_typed(&chars, n);
        }
        other => panic!("expected typing, got {:?}", other),
    }
}

fn start_dictation(core: &mut EngineCore) -> Vec<EngineAction> {
    let actions = core.handle(EngineCommand::WakeDetected);
    assert_eq!(core.state(), DictationState::Dictating);
    actions
}

#[test]
fn startup_requests_capture_and_reports_state() {
    let core = EngineCore::new(&settings(true));
    let actions = core.startup();
    assert_eq!(actions.len(), 3);
    assert!(matches!(actions[0], EngineAction::StartCapture(None)));
    assert!(matches!(
        actions[1],
        EngineAction::Publish(EngineEvent::StateChanged(DictationState::Listening))
    ));
    assert!(matches!(
        actions[2],
        EngineAction::Publish(EngineEvent::TrayStateChanged(TrayState::Listening))
    ));
}

#[test]
fn happy_path_session() {
    let mut core = EngineCore::new(&settings(true));
    let mut transcriber = TranscriberSession::new(0);
    let mut injector = InjectorSession::new();

    for _ in 0..3 {
        let actions = core.handle(EngineCommand::AudioFrame(frame()));
        assert_eq!(actions.len(), 1);
        assert!(matches!(actions[0], EngineAction::Wake(_)));
    }

    let actions = start_dictation(&mut core);
    assert_eq!(actions.len(), 7);
    assert!(matches!(actions[0], EngineAction::Transcriber(TranscriberMessage::Begin)));
    assert!(matches!(actions[1], EngineAction::Vad(VadMessage::Begin)));
    assert!(matches!(actions[2], EngineAction::Injector(InjectionMessage::BeginSession)));
    assert!(matches!(actions[3], EngineAction::Publish(EngineEvent::OverlayReset)));
    assert!(matches!(actions[4], EngineAction::Publish(EngineEvent::OverlayVisibility(true))));
    assert!(matches!(
        actions[5],
        EngineAction::Publish(EngineEvent::StateChanged(DictationState::Dictating))
    ));
    transcriber.begin(0);
    assert_eq!(injector.handle(InjectionMessage::BeginSession, false), Keystrokes::Nothing);

    let actions = core.handle(EngineCommand::AudioFrame(frame()));
    assert_eq!(actions.len(), 2);
    assert!(matches!(actions[0], EngineAction::Dictation(_)));
    assert!(matches!(actions[1], EngineAction::Publish(EngineEvent::OverlayWave(1200))));

    let mut typed = Vec::new();
    for (raw, now) in [("hello", 400u64), ("hello world", 800)] {
        for command in transcriber.partial_decoded(Some(raw.to_string()), now) {
            let actions = core.handle(command);
            for d in shown_text(&actions) {
                type_delta(&mut injector, &d);
                typed.push(d);
            }
        }
    }
    assert_eq!(typed, vec!["Hello".to_string(), " world".to_string()]);

    let actions = core.handle(EngineCommand::SilenceTimeout);
    assert!(matches!(actions[0], EngineAction::Vad(VadMessage::End)));
    assert!(matches!(actions[1], EngineAction::Transcriber(TranscriberMessage::End)));
    assert_eq!(core.state(), DictationState::Stopping);

    let finished = transcriber.finish(Some("hello world".to_string()));
    assert_eq!(finished.len(), 2);
    let mut last_actions = Vec::new();
    for command in finished {
        let actions = core.handle(command);
        for d in shown_text(&actions) {
            type_delta(&mut injector, &d);
            typed.push(d);
        }
        last_actions = actions;
    }
    assert_eq!(typed.concat(), "Hello world.");
    assert_eq!(last_actions.len(), 5);
    assert!(matches!(last_actions[0], EngineAction::Injector(InjectionMessage::CommitSession)));
    assert!(matches!(last_actions[1], EngineAction::Publish(EngineEvent::OverlayVisibility(false))));
    assert!(matches!(last_actions[2], EngineAction::Publish(EngineEvent::OverlayReset)));
    assert!(matches!(
        last_actions[3],
        EngineAction::Publish(EngineEvent::StateChanged(DictationState::Listening))
    ));
    assert_eq!(core.state(), DictationState::Listening);
    assert_eq!(injector.handle(InjectionMessage::CommitSession, false), Keystrokes::Nothing);

    // Undo of the session just committed removes "Hello world.".
    assert_eq!(injector.handle(InjectionMessage::UndoLast, false), Keystrokes::Backspace(12));
    assert_eq!(injector.handle(InjectionMessage::UndoLast, false), Keystrokes::Nothing);
    let actions = core.handle(EngineCommand::UndoLastDictation);
    assert!(matches!(actions[0], EngineAction::Injector(InjectionMessage::UndoLast)));
}

#[test]
fn cancel_mid_dictation() {
    let mut core = EngineCore::new(&settings(true));
    let mut injector = InjectorSession::new();
    start_dictation(&mut core);
    injector.handle(InjectionMessage::BeginSession, false);
    let actions = core.handle(EngineCommand::TranscriptionDelta("Hi".to_string()));
    assert_eq!(shown_text(&actions), vec!["Hi".to_string()]);
    assert!(matches!(&actions[1], EngineAction::Injector(InjectionMessage::Delta(d)) if d == "Hi"));
    type_delta(&mut injector, "Hi");

    let actions = core.handle(EngineCommand::CancelDictation);
    assert_eq!(actions.len(), 7);
    assert!(matches!(actions[0], EngineAction::Transcriber(TranscriberMessage::Cancel)));
    assert!(matches!(actions[1], EngineAction::Vad(VadMessage::End)));
    assert!(matches!(actions[2], EngineAction::Injector(InjectionMessage::CancelSession)));
    assert!(matches!(actions[3], EngineAction::Publish(EngineEvent::OverlayVisibility(false))));
    assert!(matches!(
        actions[5],
        EngineAction::Publish(EngineEvent::StateChanged(DictationState::Listening))
    ));
    assert_eq!(core.state(), DictationState::Listening);
    assert_eq!(injector.handle(InjectionMessage::CancelSession, false), Keystrokes::Backspace(2));
}

#[test]
fn disable_during_dictation() {
    let mut core = EngineCore::new(&settings(true));
    start_dictation(&mut core);
    let actions = core.handle(EngineCommand::SetEnabled(false));
    assert_eq!(actions.len(), 7);
    assert!(matches!(actions[0], EngineAction::Transcriber(TranscriberMessage::Cancel)));
    assert!(matches!(actions[1], EngineAction::Vad(VadMessage::End)));
    assert!(matches!(actions[2], EngineAction::Injector(InjectionMessage::CancelSession)));
    assert!(matches!(actions[3], EngineAction::Publish(EngineEvent::OverlayVisibility(false))));
    assert!(matches!(
        actions[5],
        EngineAction::Publish(EngineEvent::StateChanged(DictationState::Idle))
    ));
    assert_eq!(core.state(), DictationState::Idle);
    assert!(!core.is_enabled());
}

#[test]
fn disabled_engine_shows_no_text_and_routes_nothing() {
    let mut core = EngineCore::new(&settings(false));
    assert_eq!(core.state(), DictationState::Idle);
    assert!(core.handle(EngineCommand::TranscriptionDelta("x".to_string())).is_empty());
    assert!(core.handle(EngineCommand::AudioFrame(frame())).is_empty());
    assert!(core.handle(EngineCommand::WakeDetected).is_empty());
    assert_eq!(core.state(), DictationState::Idle);
}

#[test]
fn text_is_shown_only_within_a_session() {
    let mut core = EngineCore::new(&settings(true));
    assert!(core.handle(EngineCommand::TranscriptionDelta("early".to_string())).is_empty());
    start_dictation(&mut core);
    core.handle(EngineCommand::SilenceTimeout);
    let actions = core.handle(EngineCommand::TranscriptionDelta("late".to_string()));
    assert_eq!(shown_text(&actions), vec!["late".to_string()]);
}

#[test]
fn reissued_commands_publish_no_state_events() {
    let mut core = EngineCore::new(&settings(true));
    for command in [
        EngineCommand::SetEnabled(true),
        EngineCommand::SilenceTimeout,
        EngineCommand::CancelDictation,
        EngineCommand::TranscriptionFinished,
    ] {
        assert!(!core.handle(command).iter().any(is_state_event));
    }
    assert!(core.handle(EngineCommand::PushToTalkTriggered).iter().any(is_state_event));
    assert!(!core.handle(EngineCommand::PushToTalkTriggered).iter().any(is_state_event));
    assert!(core.handle(EngineCommand::SilenceTimeout).iter().any(is_state_event));
    assert!(!core.handle(EngineCommand::SilenceTimeout).iter().any(is_state_event));
    let finished = core.handle(EngineCommand::TranscriptionFinished);
    assert!(finished.iter().any(is_state_event));
    let again = core.handle(EngineCommand::TranscriptionFinished);
    assert_eq!(again.len(), 1);
    assert!(matches!(again[0], EngineAction::Injector(InjectionMessage::CommitSession)));
}

#[test]
fn microphone_and_permission_commands() {
    let mut core = EngineCore::new(&settings(true));
    let actions = core.handle(EngineCommand::UpdateMicrophone("  ".to_string()));
    assert!(matches!(actions[0], EngineAction::StartCapture(None)));
    let actions = core.handle(EngineCommand::UpdateMicrophone("USB Mic".to_string()));
    assert!(matches!(&actions[0], EngineAction::StartCapture(Some(n)) if n == "USB Mic"));

    let errors = core.capture_result(false);
    assert_eq!(errors.len(), 1);
    assert!(matches!(&errors[0], EngineAction::Publish(EngineEvent::Error(m))
        if m == "Unable to start microphone stream; check microphone permission and selected device."));

    let status = PermissionStatus { microphone: true, accessibility: false };
    let actions = core.handle(EngineCommand::PermissionsChecked(status));
    assert_eq!(actions.len(), 2);
    assert!(matches!(&actions[0], EngineAction::StartCapture(Some(n)) if n == "USB Mic"));
    assert!(matches!(actions[1], EngineAction::Publish(EngineEvent::PermissionsRequired(s)) if s == status));

    assert!(core.capture_result(true).is_empty());
    let granted = PermissionStatus { microphone: true, accessibility: true };
    assert!(core.handle(EngineCommand::PermissionsChecked(granted)).is_empty());
}

#[test]
fn settings_updates_are_forwarded() {
    let mut core = EngineCore::new(&settings(true));
    let actions = core.handle(EngineCommand::UpdateSensitivity(700));
    assert!(matches!(actions[0], EngineAction::Vad(VadMessage::SetSensitivity(700))));
    let actions = core.handle(EngineCommand::UpdateModel(TranscriptionModel::TinyEn));
    assert!(matches!(
        actions[0],
        EngineAction::Transcriber(TranscriberMessage::UpdateModel(TranscriptionModel::TinyEn))
    ));

    let mut next = EngineSettings::default();
    next.microphone = "Built-in".to_string();
    next.sensitivity = 600;
    let commands = settings_commands(&next);
    assert_eq!(commands.len(), 4);
    assert!(matches!(commands[0], EngineCommand::SetEnabled(true)));
    assert!(matches!(&commands[1], EngineCommand::UpdateMicrophone(m) if m == "Built-in"));
    assert!(matches!(commands[2], EngineCommand::UpdateSensitivity(600)));
    assert!(matches!(commands[3], EngineCommand::UpdateModel(TranscriptionModel::BaseEn)));
}
