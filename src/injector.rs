use vstd::prelude::*;

verus! {

/// Messages to the keystroke injector.
#[derive(Debug)]
pub enum InjectionMessage {
    BeginSession,
    Delta(String),
    CommitSession,
    CancelSession,
    UndoLast,
}

/// What the injector is to do at the keyboard.
#[derive(Debug, PartialEq, Eq)]
pub enum Keystrokes {
    /// Nothing.
    Nothing,
    /// Type these characters, one at a time, reporting back how many went
    /// through (see `InjectorSession::record_typed`).
    Type(Vec<char>),
    /// Press backspace this many times.
    Backspace(usize),
}

/// The abstract value of an `InjectorSession`.
pub struct InjectorModel {
    pub active: Seq<char>,
    pub last: Seq<char>,
}

/// The text typed in the current session (rolled back on cancel) and in the
/// previous one (removed on undo).
pub struct InjectorSession {
    active: Vec<char>,
    last: Vec<char>,
}

impl View for InjectorSession {
    type V = InjectorModel;

    closed spec fn view(&self) -> InjectorModel {
        InjectorModel { active: self.active@, last: self.last@ }
    }
}

impl InjectorSession {
    pub fn new() -> (r: Self)
        ensures
            r@.active.len() == 0,
            r@.last.len() == 0,
    {
        InjectorSession { active: Vec::new(), last: Vec::new() }
    }

    /// The characters typed in the current session.
    pub fn active_len(&self) -> (r: usize)
        ensures
            r == self@.active.len(),
    {
        self.active.len()
    }

    /// The characters typed in the previous session.
    pub fn last_len(&self) -> (r: usize)
        ensures
            r == self@.last.len(),
    {
        self.last.len()
    }

    /// Decides what a message asks of the keyboard and updates the session
    /// text. A delta is typed unless it is empty or secure input is on; the
    /// characters that went through are then recorded by `record_typed`.
    /// Cancel erases the current session's text, undo the previous session's.
    pub fn handle(&mut self, message: InjectionMessage, secure_input: bool) -> (k: Keystrokes)
        ensures
            match message {
                InjectionMessage::BeginSession => {
                    &&& k == Keystrokes::Nothing
                    &&& final(self)@.active.len() == 0
                    &&& final(self)@.last == old(self)@.last
                },
                InjectionMessage::Delta(text) => {
                    &&& final(self)@ == old(self)@
                    &&& if text@.len() == 0 || secure_input {
                        k == Keystrokes::Nothing
                    } else {
                        k is Type && k->Type_0@ == text@
                    }
                },
                InjectionMessage::CommitSession => {
                    &&& k == Keystrokes::Nothing
                    &&& final(self)@.last == old(self)@.active
                    &&& final(self)@.active.len() == 0
                },
                InjectionMessage::CancelSession => {
                    &&& k == Keystrokes::Backspace(old(self)@.active.len() as usize)
                    &&& final(self)@.active.len() == 0
                    &&& final(self)@.last == old(self)@.last
                },
                InjectionMessage::UndoLast => {
                    &&& if old(self)@.last.len() == 0 {
                        k == Keystrokes::Nothing
                    } else {
                        k == Keystrokes::Backspace(old(self)@.last.len() as usize)
                    }
                    &&& final(self)@.last.len() == 0
                    &&& final(self)@.active == old(self)@.active
                },
            },
    {
        match message {
            InjectionMessage::BeginSession => {
                self.active = Vec::new();
                Keystrokes::Nothing
            },
            InjectionMessage::Delta(text) => {
                if secure_input {
                    return Keystrokes::Nothing;
                }
                let chars = crate::text::chars_of(text.as_str());
                if chars.len() == 0 {
                    Keystrokes::Nothing
                } else {
                    Keystrokes::Type(chars)
                }
            },
            InjectionMessage::CommitSession => {
                let mut taken: Vec<char> = Vec::new();
                std::mem::swap(&mut taken, &mut self.active);
                self.last = taken;
                Keystrokes::Nothing
            },
            InjectionMessage::CancelSession => {
                let n = self.active.len();
                self.active = Vec::new();
                Keystrokes::Backspace(n)
            },
            InjectionMessage::UndoLast => {
                let n = self.last.len();
                if n == 0 {
                    return Keystrokes::Nothing;
                }
                self.last = Vec::new();
                Keystrokes::Backspace(n)
            },
        }
    }

    /// Records that the first `typed` characters of `chars` reached the
    /// keyboard.
    pub fn record_typed(&mut self, chars: &Vec<char>, typed: usize)
        requires
            typed <= chars@.len(),
        ensures
            final(self)@.active == old(self)@.active + chars@.take(typed as int),
            final(self)@.last == old(self)@.last,
    {
        let mut i: usize = 0;
        while i < typed
            invariant
                typed <= chars@.len(),
                i <= typed,
                self@.active == old(self)@.active + chars@.take(i as int),
                self@.last == old(self)@.last,
            decreases typed - i,
        {
            self.active.push(chars[i]);
            i += 1;
            assert(self@.active =~= old(self)@.active + chars@.take(i as int));
        }
    }
}

} // verus!
