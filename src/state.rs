use vstd::prelude::*;

verus! {

/// Where the engine stands in a dictation turn.
#[derive(Debug, Clone, Copy, PartialEq, Eq, Structural)]
pub enum DictationState {
    Idle,
    Listening,
    Dictating,
    Stopping,
}

/// What the tray shows: `Stopping` is shown as `Dictating`.
#[derive(Debug, Clone, Copy, PartialEq, Eq, Structural)]
pub enum TrayState {
    Idle,
    Listening,
    Dictating,
}

/// True while a session is open, that is in `Dictating` or `Stopping`.
pub open spec fn in_session(s: DictationState) -> bool {
    s == DictationState::Dictating || s == DictationState::Stopping
}

/// The tray view of a dictation state.
pub open spec fn tray_of(s: DictationState) -> TrayState {
    match s {
        DictationState::Idle => TrayState::Idle,
        DictationState::Listening => TrayState::Listening,
        DictationState::Dictating | DictationState::Stopping => TrayState::Dictating,
    }
}

/// The state the engine rests in outside a session.
pub open spec fn resting(enabled: bool) -> DictationState {
    if enabled {
        DictationState::Listening
    } else {
        DictationState::Idle
    }
}

/// The abstract value of a `StateMachine`.
pub struct MachineModel {
    pub state: DictationState,
    pub enabled: bool,
}

/// A machine is consistent when it is idle exactly when it is disabled.
pub open spec fn consistent(m: MachineModel) -> bool {
    m.enabled <==> m.state != DictationState::Idle
}

/// The transitions of the machine, as commands.
pub enum Transition {
    SetEnabled(bool),
    StartDictation,
    BeginStopping,
    FinishStopping,
    CancelDictation,
}

/// The state a transition leads to, when its guard holds.
pub open spec fn target(m: MachineModel, t: Transition) -> MachineModel {
    match t {
        Transition::SetEnabled(e) => MachineModel { state: resting(e), enabled: e },
        Transition::StartDictation => if m.enabled && m.state == DictationState::Listening {
            MachineModel { state: DictationState::Dictating, ..m }
        } else {
            m
        },
        Transition::BeginStopping => if m.state == DictationState::Dictating {
            MachineModel { state: DictationState::Stopping, ..m }
        } else {
            m
        },
        Transition::FinishStopping | Transition::CancelDictation => if in_session(m.state) {
            MachineModel { state: resting(m.enabled), ..m }
        } else {
            m
        },
    }
}

/// Whether a transition changes the state (what each transition method returns).
pub open spec fn changes(m: MachineModel, t: Transition) -> bool {
    target(m, t).state != m.state
}

/// A machine starts consistent, and every transition keeps it consistent: a
/// disabled engine is always idle.
pub proof fn lemma_transitions_keep_consistency(m: MachineModel, t: Transition)
    requires
        consistent(m),
    ensures
        consistent(MachineModel { state: resting(m.enabled), enabled: m.enabled }),
        consistent(target(m, t)),
        !target(m, t).enabled ==> target(m, t).state == DictationState::Idle,
{
}

/// Issuing a transition a second time changes nothing and reports no change.
pub proof fn lemma_transition_idempotent(m: MachineModel, t: Transition)
    ensures
        target(target(m, t), t) == target(m, t),
        !changes(target(m, t), t),
{
}

/// The machine after a run of transitions.
pub open spec fn run(m: MachineModel, ts: Seq<Transition>) -> MachineModel
    decreases ts.len(),
{
    if ts.len() == 0 {
        m
    } else {
        target(run(m, ts.drop_last()), ts.last())
    }
}

/// The session marks of a run, in order: `true` for each start of dictation
/// that succeeds, `false` for each finish or cancel that succeeds.
pub open spec fn session_marks(m: MachineModel, ts: Seq<Transition>) -> Seq<bool>
    decreases ts.len(),
{
    if ts.len() == 0 {
        Seq::empty()
    } else {
        let before = ts.drop_last();
        let marks = session_marks(m, before);
        let at = run(m, before);
        let t = ts.last();
        if changes(at, t) && t is StartDictation {
            marks.push(true)
        } else if changes(at, t) && (t is FinishStopping || t is CancelDictation) {
            marks.push(false)
        } else {
            marks
        }
    }
}

/// Marks that alternate, the first one opening a session unless one is open
/// already.
pub open spec fn alternating(marks: Seq<bool>, open: bool) -> bool {
    forall|i: int| 0 <= i < marks.len() ==> #[trigger] marks[i] == ((i % 2 == 0) != open)
}

/// As long as the engine is not switched on or off, every successful start of
/// dictation is followed by exactly one successful finish or cancel before
/// the next successful start: the session marks of a run alternate.
pub proof fn lemma_sessions_alternate(m: MachineModel, ts: Seq<Transition>)
    requires
        forall|i: int| 0 <= i < ts.len() ==> !(#[trigger] ts[i] is SetEnabled),
    ensures
        alternating(session_marks(m, ts), in_session(m.state)),
        in_session(run(m, ts).state) == (in_session(m.state) != (session_marks(m, ts).len() % 2
            == 1)),
    decreases ts.len(),
{
    if ts.len() > 0 {
        let before = ts.drop_last();
        assert forall|i: int| 0 <= i < before.len() implies !(#[trigger] before[i] is SetEnabled) by {
            assert(before[i] == ts[i]);
        }
        lemma_sessions_alternate(m, before);
        assert(!(ts[ts.len() - 1] is SetEnabled));
        let marks = session_marks(m, before);
        let k = marks.len() as int;
        let now = session_marks(m, ts);
        assert forall|i: int| 0 <= i < now.len() implies #[trigger] now[i] == ((i % 2 == 0) != in_session(
            m.state,
        )) by {
            if i < k {
                assert(now[i] == marks[i]);
            }
        }
    }
}

/// The four-state coordinator of a dictation session.
#[derive(Debug)]
pub struct StateMachine {
    state: DictationState,
    enabled: bool,
}

impl View for StateMachine {
    type V = MachineModel;

    closed spec fn view(&self) -> MachineModel {
        MachineModel { state: self.state, enabled: self.enabled }
    }
}

impl StateMachine {
    /// A machine is always consistent.
    #[verifier::type_invariant]
    pub open spec fn inv(&self) -> bool {
        consistent(self@)
    }

    pub fn new(enabled: bool) -> (r: Self)
        ensures
            r@ == (MachineModel { state: resting(enabled), enabled }),
    {
        let state = if enabled {
            DictationState::Listening
        } else {
            DictationState::Idle
        };
        StateMachine { state, enabled }
    }

    pub fn state(&self) -> (r: DictationState)
        ensures
            r == self@.state,
    {
        self.state
    }

    pub fn is_enabled(&self) -> (r: bool)
        ensures
            r == self@.enabled,
    {
        self.enabled
    }

    fn transition_to(&mut self, next: DictationState) -> (r: bool)
        requires
            consistent(MachineModel { state: next, enabled: old(self).enabled }),
        ensures
            final(self)@ == (MachineModel { state: next, ..old(self)@ }),
            r == (old(self)@.state != next),
    {
        if self.state == next {
            return false;
        }
        self.state = next;
        true
    }

    pub fn set_enabled(&mut self, enabled: bool) -> (r: bool)
        ensures
            final(self)@ == target(old(self)@, Transition::SetEnabled(enabled)),
            r == changes(old(self)@, Transition::SetEnabled(enabled)),
    {
        let next = if enabled {
            DictationState::Listening
        } else {
            DictationState::Idle
        };
        let mut changed = false;
        if self.state != next {
            changed = true;
        }
        *self = StateMachine { state: next, enabled };
        changed
    }

    pub fn try_start_dictation(&mut self) -> (r: bool)
        ensures
            final(self)@ == target(old(self)@, Transition::StartDictation),
            r == changes(old(self)@, Transition::StartDictation),
    {
        proof {
            use_type_invariant(&*self);
        }
        if !self.enabled || self.state != DictationState::Listening {
            return false;
        }
        self.transition_to(DictationState::Dictating)
    }

    pub fn try_begin_stopping(&mut self) -> (r: bool)
        ensures
            final(self)@ == target(old(self)@, Transition::BeginStopping),
            r == changes(old(self)@, Transition::BeginStopping),
    {
        proof {
            use_type_invariant(&*self);
        }
        if self.state != DictationState::Dictating {
            return false;
        }
        self.transition_to(DictationState::Stopping)
    }

    pub fn finish_stopping(&mut self) -> (r: bool)
        ensures
            final(self)@ == target(old(self)@, Transition::FinishStopping),
            r == changes(old(self)@, Transition::FinishStopping),
    {
        proof {
            use_type_invariant(&*self);
        }
        self.leave_session()
    }

    pub fn cancel_dictation(&mut self) -> (r: bool)
        ensures
            final(self)@ == target(old(self)@, Transition::CancelDictation),
            r == changes(old(self)@, Transition::CancelDictation),
    {
        proof {
            use_type_invariant(&*self);
        }
        self.leave_session()
    }

    fn leave_session(&mut self) -> (r: bool)
        requires
            consistent(old(self)@),
        ensures
            final(self)@ == target(old(self)@, Transition::FinishStopping),
            r == changes(old(self)@, Transition::FinishStopping),
    {
        if self.state != DictationState::Dictating && self.state != DictationState::Stopping {
            return false;
        }
        let next = if self.enabled {
            DictationState::Listening
        } else {
            DictationState::Idle
        };
        self.transition_to(next)
    }

    pub fn should_route_to_wake(&self) -> (r: bool)
        ensures
            r == (self@.enabled && self@.state == DictationState::Listening),
    {
        self.enabled && self.state == DictationState::Listening
    }

    pub fn should_route_to_dictation(&self) -> (r: bool)
        ensures
            r == (self@.enabled && self@.state == DictationState::Dictating),
    {
        self.enabled && self.state == DictationState::Dictating
    }

    pub fn tray_state(&self) -> (r: TrayState)
        ensures
            r == tray_of(self@.state),
    {
        match self.state {
            DictationState::Idle => TrayState::Idle,
            DictationState::Listening => TrayState::Listening,
            DictationState::Dictating | DictationState::Stopping => TrayState::Dictating,
        }
    }
}

} // verus!
