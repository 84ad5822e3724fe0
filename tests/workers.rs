use lumitype::audio::AudioFrame;
use lumitype::engine::EngineCommand;
use lumitype::injector::{InjectionMessage, InjectorSession, Keystrokes};
use lumitype::settings::{EngineSettings, PermissionStatus, TranscriptionModel};
use lumitype::state::TrayState;
use lumitype::tray::tray_icon_rgba;
use lumitype::transcriber::TranscriberSession;
use lumitype::vad::{VadGate, VadMessage};
use lumitype::wake::{choose_keyword, default_porcupine_library_path, KeywordChoice, KeywordError, WakeBuffer};
use webrtc_vad::{SampleRate, Vad, VadMode};

fn silent_frame() -> AudioFrame {
    AudioFrame { samples: vec![0i16; 320], sample_rate: 16_000, peak: 0 }
}

fn loud_frame() -> AudioFrame {
    AudioFrame { samples: vec![20_000i16; 320], sample_rate: 16_000, peak: 20_000 }
}

#[test]
fn transcriber_decodes_on_cadence() {
    let mut session = TranscriberSession::new(0);
    session.begin(1_000);
    let frame = AudioFrame { samples: vec![1i16; 1_600], sample_rate: 16_000, peak: 1 };
    assert!(!session.push_audio(&frame, 1_200));
    assert!(!session.push_audio(&frame, 1_300));
    assert_eq!(session.audio().len(), 3_200);
    let frame48 = AudioFrame { samples: vec![1i16; 960], sample_rate: 48_000, peak: 1 };
    assert!(session.push_audio(&frame48, 1_400));
    assert_eq!(session.audio().len(), 3_520);
    assert!(session.partial_decoded(None, 1_500).is_empty());
    assert!(!session.push_audio(&frame48, 1_700));
    assert!(session.push_audio(&frame48, 1_850));
}

#[test]
fn transcriber_reports_deltas_and_finishes_once() {
    let mut session = TranscriberSession::new(0);
    let out = session.partial_decoded(Some("  hello  ".to_string()), 10);
    assert!(matches!(&out[0], EngineCommand::TranscriptionDelta(d) if d == "Hello"));
    assert_eq!(session.last_emitted(), "Hello");
    assert!(session.partial_decoded(Some("hello".to_string()), 20).is_empty());
    let out = session.finish(None);
    assert_eq!(out.len(), 1);
    assert!(matches!(out[0], EngineCommand::TranscriptionFinished));
    assert_eq!(session.last_emitted(), "");

    let out = session.cancel();
    assert_eq!(out.len(), 1);
    assert!(matches!(out[0], EngineCommand::TranscriptionFinished));
}

#[test]
fn injector_skips_empty_and_secure_input() {
    let mut injector = InjectorSession::new();
    assert_eq!(injector.handle(InjectionMessage::Delta(String::new()), false), Keystrokes::Nothing);
    assert_eq!(injector.handle(InjectionMessage::Delta("abc".to_string()), true), Keystrokes::Nothing);
    assert_eq!(
        injector.handle(InjectionMessage::Delta("né🙂".to_string()), false),
        Keystrokes::Type(vec!['n', 'é', '🙂'])
    );
    assert_eq!(injector.active_len(), 0);
}

#[test]
fn injector_counts_only_characters_that_went_through() {
    let mut injector = InjectorSession::new();
    let chars = vec!['a', 'é', '🙂'];
    injector.record_typed(&chars, 2);
    assert_eq!(injector.active_len(), 2);
    injector.record_typed(&chars, 3);
    assert_eq!(injector.handle(InjectionMessage::CancelSession, false), Keystrokes::Backspace(5));
    assert_eq!(injector.active_len(), 0);
    assert_eq!(injector.last_len(), 0);
}

#[test]
fn vad_gate_times_out_after_a_second_of_silence() {
    let mut vad = Vad::new_with_rate_and_mode(SampleRate::Rate16kHz, VadMode::Aggressive);
    let mut gate = VadGate::new(450);
    assert!(!gate.handle(&mut vad, VadMessage::Begin, 0));
    assert!(!gate.on_audio(&mut vad, &silent_frame(), 0));
    assert!(!gate.on_audio(&mut vad, &silent_frame(), 500));
    assert!(gate.on_audio(&mut vad, &silent_frame(), 1_000));
    assert!(!gate.on_audio(&mut vad, &silent_frame(), 1_100));
    assert!(!gate.on_audio(&mut vad, &loud_frame(), 2_500));
    assert!(!gate.on_audio(&mut vad, &silent_frame(), 2_600));
    assert!(!gate.handle(&mut vad, VadMessage::End, 2_700));
    assert!(!gate.on_audio(&mut vad, &silent_frame(), 3_000));
    assert!(gate.handle(&mut vad, VadMessage::Audio(silent_frame()), 4_000));
}

#[test]
fn vad_gate_observe_steps() {
    let mut gate = VadGate::new(0);
    assert!(!gate.observe(false, 100));
    assert!(!gate.observe(false, 1_099));
    assert!(gate.observe(false, 1_100));
    assert!(!gate.observe(false, 1_200));
    assert!(!gate.observe(true, 5_000));
    assert!(!gate.observe(false, 5_000));
}

#[test]
fn wake_buffer_hands_out_whole_windows() {
    let mut buffer = WakeBuffer::new(512);
    let frame = AudioFrame { samples: (0..320).map(|i| i as i16).collect(), sample_rate: 16_000, peak: 319 };
    buffer.push(&frame);
    assert!(buffer.next_window().is_none());
    buffer.push(&frame);
    let window = buffer.next_window().expect("a window");
    assert_eq!(window.len(), 512);
    assert_eq!(window[0], 0);
    assert_eq!(window[320], 0);
    assert_eq!(window[511], 191);
    assert!(buffer.next_window().is_none());
}

#[test]
fn keyword_choice_and_library_path() {
    assert_eq!(choose_keyword(true, None), Ok(KeywordChoice::Primary));
    assert_eq!(choose_keyword(false, Some(true)), Ok(KeywordChoice::Fallback));
    assert_eq!(choose_keyword(false, Some(false)), Err(KeywordError::BothMissing));
    assert_eq!(choose_keyword(false, None), Err(KeywordError::PrimaryMissing));
    assert_eq!(default_porcupine_library_path(true), "/opt/homebrew/lib/libpv_porcupine.dylib");
    assert_eq!(default_porcupine_library_path(false), "/usr/local/lib/libpv_porcupine.dylib");
}

#[test]
fn tray_icons_differ_by_state() {
    let (dictating, w, h) = tray_icon_rgba(TrayState::Dictating);
    assert_eq!((w, h), (18, 18));
    assert_eq!(dictating.len(), 18 * 18 * 4);
    let centre = ((9 * 18 + 9) * 4) as usize;
    assert_eq!(&dictating[centre..centre + 4], &[255, 255, 255, 255]);
    assert_eq!(dictating[3], 0);
    let (listening, _, _) = tray_icon_rgba(TrayState::Listening);
    assert_eq!(listening[centre + 3], 45);
    let inner = ((9 * 18 + 3) * 4) as usize;
    let outer = ((9 * 18 + 2) * 4) as usize;
    assert_eq!(listening[inner + 3], 180);
    assert_eq!(listening[outer + 3], 0);
    let (idle, _, _) = tray_icon_rgba(TrayState::Idle);
    assert_eq!(idle[centre + 3], 0);
    assert_eq!(idle[inner + 3], 0);
    assert_eq!(idle[outer + 3], 220);
}

#[test]
fn settings_defaults_and_models() {
    let s = EngineSettings::default();
    assert!(s.enabled);
    assert!(!s.launch_at_startup);
    assert_eq!(s.microphone, "");
    assert_eq!(s.sensitivity, 450);
    assert_eq!(s.model, TranscriptionModel::BaseEn);
    assert_eq!(s.push_to_talk_hotkey, "Cmd+Shift+Space");
    assert_eq!(TranscriptionModel::BaseEn.file_name(), "ggml-base.en.bin");
    assert_eq!(TranscriptionModel::TinyEn.file_name(), "ggml-tiny.en.bin");
    assert!(PermissionStatus { microphone: true, accessibility: true }.all_granted());
    assert!(!PermissionStatus { microphone: true, accessibility: false }.all_granted());
}
