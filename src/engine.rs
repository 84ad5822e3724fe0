use vstd::prelude::*;
use crate::audio::AudioFrame;
use crate::injector::InjectionMessage;
use crate::settings::{EngineSettings, PermissionStatus, TranscriptionModel};
use crate::state::{
    changes, in_session, target, tray_of, DictationState, MachineModel, StateMachine, Transition,
    TrayState,
};
use crate::text::is_white;
use crate::transcriber::TranscriberMessage;
use crate::vad::VadMessage;

verus! {

/// Commands the engine loop takes, from the workers and from the outside.
/// Sensitivity is in thousandths.
#[derive(Debug)]
pub enum EngineCommand {
    AudioFrame(AudioFrame),
    WakeDetected,
    PushToTalkTriggered,
    SilenceTimeout,
    TranscriptionDelta(String),
    TranscriptionFinished,
    CancelDictation,
    UndoLastDictation,
    SetEnabled(bool),
    UpdateMicrophone(String),
    UpdateSensitivity(u32),
    UpdateModel(TranscriptionModel),
    PermissionsChecked(PermissionStatus),
}

/// Events the engine publishes. `OverlayWave` carries a frame's peak magnitude
/// (full scale is 32767).
#[derive(Debug)]
pub enum EngineEvent {
    StateChanged(DictationState),
    TrayStateChanged(TrayState),
    OverlayVisibility(bool),
    OverlayReset,
    OverlayTextDelta(String),
    OverlayWave(u32),
    PermissionsRequired(PermissionStatus),
    Error(String),
}

/// What the engine loop is to do after a command, in order.
///
/// Frames go to the workers by non-blocking sends (dropped when a channel is
/// full); worker messages go by blocking sends, so that they keep their order;
/// events are published without blocking.
#[derive(Debug)]
pub enum EngineAction {
    /// Offer the frame to the wake detector.
    Wake(AudioFrame),
    /// Offer the frame to the voice-activity worker and to the transcriber.
    Dictation(AudioFrame),
    Vad(VadMessage),
    Transcriber(TranscriberMessage),
    Injector(InjectionMessage),
    Publish(EngineEvent),
    /// (Re)start audio capture on the named device, or on the default one;
    /// report the outcome through `EngineCore::capture_result`.
    StartCapture(Option<String>),
}

/// The message published when audio capture cannot start.
pub open spec fn capture_error_text() -> Seq<char> {
    "Unable to start microphone stream; check microphone permission and selected device."@
}

/// The abstract value of an `EngineCore`.
pub struct EngineModel {
    pub machine: MachineModel,
    pub microphone: Seq<char>,
    pub capture_running: bool,
}

/// A device name that is empty or all whitespace names no device.
pub open spec fn preferred_device(name: Seq<char>) -> Option<Seq<char>> {
    if forall|i: int| 0 <= i < name.len() ==> is_white(#[trigger] name[i]) {
        None
    } else {
        Some(name)
    }
}

/// Whether a capture request asks for the device `name` names.
pub open spec fn asks_for(a: EngineAction, name: Seq<char>) -> bool {
    &&& a is StartCapture
    &&& match preferred_device(name) {
        None => a->StartCapture_0 is None,
        Some(n) => a->StartCapture_0 is Some && a->StartCapture_0->Some_0@ == n,
    }
}

/// The two events that report the machine's state.
pub open spec fn state_events(s: DictationState) -> Seq<EngineAction> {
    seq![
        EngineAction::Publish(EngineEvent::StateChanged(s)),
        EngineAction::Publish(EngineEvent::TrayStateChanged(tray_of(s))),
    ]
}

/// The messages that close a session that is given up: the transcriber drops
/// its audio, the voice-activity worker stops, the injector erases what it
/// typed, and the overlay is hidden.
pub open spec fn abandon_session() -> Seq<EngineAction> {
    seq![
        EngineAction::Transcriber(TranscriberMessage::Cancel),
        EngineAction::Vad(VadMessage::End),
        EngineAction::Injector(InjectionMessage::CancelSession),
        EngineAction::Publish(EngineEvent::OverlayVisibility(false)),
        EngineAction::Publish(EngineEvent::OverlayReset),
    ]
}

/// The actions for a command that carries no string, frame or device name,
/// and the machine after it.
pub open spec fn plain_step(m: MachineModel, c: EngineCommand) -> (MachineModel, Seq<EngineAction>) {
    match c {
        EngineCommand::WakeDetected | EngineCommand::PushToTalkTriggered => {
            let t = Transition::StartDictation;
            if changes(m, t) {
                (
                    target(m, t),
                    seq![
                        EngineAction::Transcriber(TranscriberMessage::Begin),
                        EngineAction::Vad(VadMessage::Begin),
                        EngineAction::Injector(InjectionMessage::BeginSession),
                        EngineAction::Publish(EngineEvent::OverlayReset),
                        EngineAction::Publish(EngineEvent::OverlayVisibility(true)),
                    ] + state_events(target(m, t).state),
                )
            } else {
                (m, Seq::empty())
            }
        },
        EngineCommand::SilenceTimeout => {
            let t = Transition::BeginStopping;
            if changes(m, t) {
                (
                    target(m, t),
                    seq![
                        EngineAction::Vad(VadMessage::End),
                        EngineAction::Transcriber(TranscriberMessage::End),
                    ] + state_events(target(m, t).state),
                )
            } else {
                (m, Seq::empty())
            }
        },
        EngineCommand::TranscriptionFinished => {
            let t = Transition::FinishStopping;
            let commit = seq![EngineAction::Injector(InjectionMessage::CommitSession)];
            if changes(m, t) {
                (
                    target(m, t),
                    commit + seq![
                        EngineAction::Publish(EngineEvent::OverlayVisibility(false)),
                        EngineAction::Publish(EngineEvent::OverlayReset),
                    ] + state_events(target(m, t).state),
                )
            } else {
                (m, commit)
            }
        },
        EngineCommand::CancelDictation => {
            let t = Transition::CancelDictation;
            if changes(m, t) {
                (target(m, t), abandon_session() + state_events(target(m, t).state))
            } else {
                (m, Seq::empty())
            }
        },
        EngineCommand::UndoLastDictation => (
            m,
            seq![EngineAction::Injector(InjectionMessage::UndoLast)],
        ),
        EngineCommand::SetEnabled(e) => {
            let t = Transition::SetEnabled(e);
            if changes(m, t) {
                if e {
                    (target(m, t), state_events(target(m, t).state))
                } else {
                    (target(m, t), abandon_session() + state_events(target(m, t).state))
                }
            } else {
                (target(m, t), Seq::empty())
            }
        },
        EngineCommand::UpdateSensitivity(v) => (
            m,
            seq![EngineAction::Vad(VadMessage::SetSensitivity(v))],
        ),
        EngineCommand::UpdateModel(model) => (
            m,
            seq![EngineAction::Transcriber(TranscriberMessage::UpdateModel(model))],
        ),
        _ => (m, Seq::empty()),
    }
}

/// Commands whose actions `plain_step` gives.
pub open spec fn is_plain(c: EngineCommand) -> bool {
    !(c is AudioFrame) && !(c is TranscriptionDelta) && !(c is UpdateMicrophone)
        && !(c is PermissionsChecked)
}

/// Whether an action publishes transcript text to the overlay.
pub open spec fn shows_text(a: EngineAction) -> bool {
    a is Publish && a->Publish_0 is OverlayTextDelta
}

/// Whether an action publishes a state change.
pub open spec fn reports_state(a: EngineAction) -> bool {
    a is Publish && (a->Publish_0 is StateChanged || a->Publish_0 is TrayStateChanged)
}

/// Issuing the same command again right away leaves the machine as it is and
/// publishes no state event.
pub proof fn lemma_reissue_is_quiet(m: MachineModel, c: EngineCommand)
    requires
        is_plain(c),
    ensures
        plain_step(plain_step(m, c).0, c).0 == plain_step(m, c).0,
        forall|i: int|
            0 <= i < plain_step(plain_step(m, c).0, c).1.len() ==> !reports_state(
                #[trigger] plain_step(plain_step(m, c).0, c).1[i],
            ),
{
    let m1 = plain_step(m, c).0;
    let again = plain_step(m1, c).1;
    match c {
        EngineCommand::TranscriptionFinished => {
            assert(again =~= seq![EngineAction::Injector(InjectionMessage::CommitSession)]);
        },
        _ => {},
    }
}

/// The commands that bring a running engine to new settings, in the order
/// they are sent: enabled, microphone, sensitivity, model.
pub fn settings_commands(next: &EngineSettings) -> (r: Vec<EngineCommand>)
    ensures
        r@.len() == 4,
        r@[0] == EngineCommand::SetEnabled(next.enabled),
        r@[1] is UpdateMicrophone && r@[1]->UpdateMicrophone_0@ == next.microphone@,
        r@[2] == EngineCommand::UpdateSensitivity(next.sensitivity),
        r@[3] == EngineCommand::UpdateModel(next.model),
{
    let mut r: Vec<EngineCommand> = Vec::new();
    r.push(EngineCommand::SetEnabled(next.enabled));
    r.push(EngineCommand::UpdateMicrophone(next.microphone.clone()));
    r.push(EngineCommand::UpdateSensitivity(next.sensitivity));
    r.push(EngineCommand::UpdateModel(next.model));
    r
}

/// The decision core of the engine loop: it owns the state machine, the
/// preferred microphone and whether capture runs, and turns each command into
/// the actions the loop performs.
pub struct EngineCore {
    machine: StateMachine,
    microphone: String,
    capture_running: bool,
}

impl View for EngineCore {
    type V = EngineModel;

    closed spec fn view(&self) -> EngineModel {
        EngineModel {
            machine: self.machine@,
            microphone: self.microphone@,
            capture_running: self.capture_running,
        }
    }
}

fn is_blank(s: &str) -> (r: bool)
    ensures
        r == (forall|i: int| 0 <= i < s@.len() ==> is_white(#[trigger] s@[i])),
{
    let chars = crate::text::chars_of(s);
    let mut i: usize = 0;
    while i < chars.len()
        invariant
            chars@ == s@,
            i <= chars@.len(),
            forall|j: int| 0 <= j < i ==> is_white(#[trigger] chars@[j]),
        decreases chars@.len() - i,
    {
        if !crate::text::is_white_char(chars[i]) {
            return false;
        }
        i += 1;
    }
    true
}

fn capture_request(name: &String) -> (a: EngineAction)
    ensures
        asks_for(a, name@),
{
    if is_blank(name.as_str()) {
        EngineAction::StartCapture(None)
    } else {
        EngineAction::StartCapture(Some(name.clone()))
    }
}

fn publish_state(machine: &StateMachine, actions: &mut Vec<EngineAction>)
    ensures
        final(actions)@ == old(actions)@ + state_events(machine@.state),
{
    actions.push(EngineAction::Publish(EngineEvent::StateChanged(machine.state())));
    actions.push(EngineAction::Publish(EngineEvent::TrayStateChanged(machine.tray_state())));
    assert(final(actions)@ =~= old(actions)@ + state_events(machine@.state));
}

fn push_abandon(actions: &mut Vec<EngineAction>)
    ensures
        final(actions)@ == old(actions)@ + abandon_session(),
{
    actions.push(EngineAction::Transcriber(TranscriberMessage::Cancel));
    actions.push(EngineAction::Vad(VadMessage::End));
    actions.push(EngineAction::Injector(InjectionMessage::CancelSession));
    actions.push(EngineAction::Publish(EngineEvent::OverlayVisibility(false)));
    actions.push(EngineAction::Publish(EngineEvent::OverlayReset));
    assert(final(actions)@ =~= old(actions)@ + abandon_session());
}

impl EngineCore {
    /// The core for the given settings: the machine enabled as they say,
    /// capture not yet running.
    pub fn new(settings: &EngineSettings) -> (r: Self)
        ensures
            r@.machine == (MachineModel {
                state: crate::state::resting(settings.enabled),
                enabled: settings.enabled,
            }),
            r@.microphone == settings.microphone@,
            !r@.capture_running,
    {
        EngineCore {
            machine: StateMachine::new(settings.enabled),
            microphone: settings.microphone.clone(),
            capture_running: false,
        }
    }

    pub fn state(&self) -> (r: DictationState)
        ensures
            r == self@.machine.state,
    {
        self.machine.state()
    }

    pub fn is_enabled(&self) -> (r: bool)
        ensures
            r == self@.machine.enabled,
    {
        self.machine.is_enabled()
    }

    /// What the loop does before its first command: start capture, then
    /// report the initial state.
    pub fn startup(&self) -> (actions: Vec<EngineAction>)
        ensures
            actions@.len() == 3,
            asks_for(actions@[0], self@.microphone),
            actions@.subrange(1, 3) == state_events(self@.machine.state),
    {
        let mut actions: Vec<EngineAction> = Vec::new();
        actions.push(capture_request(&self.microphone));
        publish_state(&self.machine, &mut actions);
        proof {
            assert(actions@.subrange(1, 3) =~= state_events(self@.machine.state));
        }
        actions
    }

    /// Records whether the capture that a `StartCapture` asked for runs; when
    /// it does not, an error event is to be published.
    pub fn capture_result(&mut self, started: bool) -> (actions: Vec<EngineAction>)
        ensures
            final(self)@ == (EngineModel { capture_running: started, ..old(self)@ }),
            started ==> actions@.len() == 0,
            !started ==> actions@.len() == 1 && actions@[0] is Publish && actions@[0]->Publish_0 is Error
                && actions@[0]->Publish_0->Error_0@ == capture_error_text(),
    {
        self.capture_running = started;
        let mut actions: Vec<EngineAction> = Vec::new();
        if !started {
            let text = "Unable to start microphone stream; check microphone permission and selected device.".to_owned();
            actions.push(EngineAction::Publish(EngineEvent::Error(text)));
        }
        actions
    }

    /// Turns one command into the actions the loop performs, in order.
    pub fn handle(&mut self, command: EngineCommand) -> (actions: Vec<EngineAction>)
        ensures
            is_plain(command) ==> {
                &&& final(self)@.machine == plain_step(old(self)@.machine, command).0
                &&& actions@ == plain_step(old(self)@.machine, command).1
                &&& final(self)@.microphone == old(self)@.microphone
                &&& final(self)@.capture_running == old(self)@.capture_running
            },
            command is AudioFrame ==> {
                let m = old(self)@.machine;
                let f = command->AudioFrame_0;
                &&& final(self)@ == old(self)@
                &&& if m.enabled && m.state == DictationState::Listening {
                    actions@ == seq![EngineAction::Wake(f)]
                } else if m.enabled && m.state == DictationState::Dictating {
                    actions@ == seq![
                        EngineAction::Dictation(f),
                        EngineAction::Publish(EngineEvent::OverlayWave(f.peak)),
                    ]
                } else {
                    actions@.len() == 0
                }
            },
            command is TranscriptionDelta ==> {
                let d = command->TranscriptionDelta_0;
                &&& final(self)@ == old(self)@
                &&& if in_session(old(self)@.machine.state) {
                    actions@ == seq![
                        EngineAction::Publish(EngineEvent::OverlayTextDelta(d)),
                        EngineAction::Injector(InjectionMessage::Delta(d)),
                    ]
                } else {
                    actions@.len() == 0
                }
            },
            command is UpdateMicrophone ==> {
                &&& final(self)@.machine == old(self)@.machine
                &&& final(self)@.capture_running == old(self)@.capture_running
                &&& final(self)@.microphone == command->UpdateMicrophone_0@
                &&& actions@.len() == 1
                &&& asks_for(actions@[0], command->UpdateMicrophone_0@)
            },
            command is PermissionsChecked ==> {
                let st = command->PermissionsChecked_0;
                let start = st.microphone && !old(self)@.capture_running;
                let warn = !(st.microphone && st.accessibility);
                &&& final(self)@ == old(self)@
                &&& actions@.len() == (if start { 1int } else { 0 }) + (if warn { 1int } else { 0 })
                &&& start ==> asks_for(actions@[0], old(self)@.microphone)
                &&& warn ==> actions@.last() == EngineAction::Publish(
                    EngineEvent::PermissionsRequired(st),
                )
            },
            forall|i: int|
                0 <= i < actions@.len() && shows_text(#[trigger] actions@[i]) ==> in_session(
                    old(self)@.machine.state,
                ) && old(self)@.machine.enabled,
    {
        proof {
            use_type_invariant(&self.machine);
        }
        let mut actions: Vec<EngineAction> = Vec::new();
        match command {
            EngineCommand::AudioFrame(frame) => {
                if self.machine.should_route_to_wake() {
                    actions.push(EngineAction::Wake(frame));
                } else if self.machine.should_route_to_dictation() {
                    let peak = frame.peak;
                    actions.push(EngineAction::Dictation(frame));
                    actions.push(EngineAction::Publish(EngineEvent::OverlayWave(peak)));
                }
            },
            EngineCommand::WakeDetected | EngineCommand::PushToTalkTriggered => {
                if self.machine.try_start_dictation() {
                    actions.push(EngineAction::Transcriber(TranscriberMessage::Begin));
                    actions.push(EngineAction::Vad(VadMessage::Begin));
                    actions.push(EngineAction::Injector(InjectionMessage::BeginSession));
                    actions.push(EngineAction::Publish(EngineEvent::OverlayReset));
                    actions.push(EngineAction::Publish(EngineEvent::OverlayVisibility(true)));
                    publish_state(&self.machine, &mut actions);
                }
            },
            EngineCommand::SilenceTimeout => {
                if self.machine.try_begin_stopping() {
                    actions.push(EngineAction::Vad(VadMessage::End));
                    actions.push(EngineAction::Transcriber(TranscriberMessage::End));
                    publish_state(&self.machine, &mut actions);
                }
            },
            EngineCommand::TranscriptionDelta(delta) => {
                let s = self.machine.state();
                if s == DictationState::Dictating || s == DictationState::Stopping {
                    let shown = delta.clone();
                    actions.push(EngineAction::Publish(EngineEvent::OverlayTextDelta(shown)));
                    actions.push(EngineAction::Injector(InjectionMessage::Delta(delta)));
                }
            },
            EngineCommand::TranscriptionFinished => {
                actions.push(EngineAction::Injector(InjectionMessage::CommitSession));
                if self.machine.finish_stopping() {
                    actions.push(EngineAction::Publish(EngineEvent::OverlayVisibility(false)));
                    actions.push(EngineAction::Publish(EngineEvent::OverlayReset));
                    publish_state(&self.machine, &mut actions);
                }
            },
            EngineCommand::CancelDictation => {
                if self.machine.cancel_dictation() {
                    push_abandon(&mut actions);
                    publish_state(&self.machine, &mut actions);
                }
            },
            EngineCommand::UndoLastDictation => {
                actions.push(EngineAction::Injector(InjectionMessage::UndoLast));
            },
            EngineCommand::SetEnabled(enabled) => {
                if self.machine.set_enabled(enabled) {
                    if !enabled {
                        push_abandon(&mut actions);
                    }
                    publish_state(&self.machine, &mut actions);
                }
            },
            EngineCommand::UpdateMicrophone(name) => {
                self.microphone = name;
                actions.push(capture_request(&self.microphone));
            },
            EngineCommand::UpdateSensitivity(value) => {
                actions.push(EngineAction::Vad(VadMessage::SetSensitivity(value)));
            },
            EngineCommand::UpdateModel(model) => {
                actions.push(EngineAction::Transcriber(TranscriberMessage::UpdateModel(model)));
            },
            EngineCommand::PermissionsChecked(status) => {
                if status.microphone && !self.capture_running {
                    actions.push(capture_request(&self.microphone));
                }
                if !status.all_granted() {
                    actions.push(EngineAction::Publish(EngineEvent::PermissionsRequired(status)));
                }
            },
        }
        actions
    }
}

} // verus!
