use vstd::prelude::*;
use crate::audio::{copy_range, resample_mono_to_16k, resampled, AudioFrame};

verus! {

/// Where the keyword spotter's library is looked for: the Homebrew location of
/// Apple-silicon machines when a file is there, the Intel one otherwise.
pub fn default_porcupine_library_path(homebrew_arm_present: bool) -> (r: &'static str)
    ensures
        homebrew_arm_present ==> r@ == "/opt/homebrew/lib/libpv_porcupine.dylib"@,
        !homebrew_arm_present ==> r@ == "/usr/local/lib/libpv_porcupine.dylib"@,
{
    if homebrew_arm_present {
        "/opt/homebrew/lib/libpv_porcupine.dylib"
    } else {
        "/usr/local/lib/libpv_porcupine.dylib"
    }
}

/// Which keyword file the spotter loads.
#[derive(Debug, Clone, Copy, PartialEq, Eq, Structural)]
pub enum KeywordChoice {
    Primary,
    Fallback,
}

/// Why no keyword file can be loaded.
#[derive(Debug, Clone, Copy, PartialEq, Eq, Structural)]
pub enum KeywordError {
    /// The primary file is missing and no fallback is configured.
    PrimaryMissing,
    /// Both the primary and the fallback file are missing.
    BothMissing,
}

/// Picks the keyword file: the primary one when it exists, else the fallback
/// when one is configured (`fallback_exists` is `Some`) and exists.
pub fn choose_keyword(primary_exists: bool, fallback_exists: Option<bool>) -> (r: Result<
    KeywordChoice,
    KeywordError,
>)
    ensures
        primary_exists ==> r == Ok::<KeywordChoice, KeywordError>(KeywordChoice::Primary),
        !primary_exists && fallback_exists == Some(true) ==> r == Ok::<
            KeywordChoice,
            KeywordError,
        >(KeywordChoice::Fallback),
        !primary_exists && fallback_exists == Some(false) ==> r == Err::<
            KeywordChoice,
            KeywordError,
        >(KeywordError::BothMissing),
        !primary_exists && fallback_exists is None ==> r == Err::<KeywordChoice, KeywordError>(
            KeywordError::PrimaryMissing,
        ),
{
    if primary_exists {
        Ok(KeywordChoice::Primary)
    } else {
        match fallback_exists {
            Some(true) => Ok(KeywordChoice::Fallback),
            Some(false) => Err(KeywordError::BothMissing),
            None => Err(KeywordError::PrimaryMissing),
        }
    }
}

/// The abstract value of a `WakeBuffer`.
pub struct WakeBufferModel {
    pub pending: Seq<i16>,
    pub window: nat,
}

/// Reassembles 16 kHz audio into the fixed-length windows the keyword
/// spotter takes.
pub struct WakeBuffer {
    pending: Vec<i16>,
    window: usize,
}

impl View for WakeBuffer {
    type V = WakeBufferModel;

    closed spec fn view(&self) -> WakeBufferModel {
        WakeBufferModel { pending: self.pending@, window: self.window as nat }
    }
}

impl WakeBuffer {
    #[verifier::type_invariant]
    closed spec fn inv(&self) -> bool {
        self.window > 0
    }

    /// A buffer for windows of `window` samples.
    pub fn new(window: usize) -> (r: Self)
        requires
            window > 0,
        ensures
            r@.pending.len() == 0,
            r@.window == window,
    {
        WakeBuffer { pending: Vec::new(), window }
    }

    /// Appends a frame, resampled to 16 kHz.
    pub fn push(&mut self, frame: &AudioFrame)
        requires
            frame.samples@.len() * 16000 <= usize::MAX,
        ensures
            final(self)@.pending == old(self)@.pending + resampled(
                frame.samples@,
                frame.sample_rate as nat,
            ),
            final(self)@.window == old(self)@.window,
    {
        proof {
            use_type_invariant(&*self);
        }
        let more = resample_mono_to_16k(frame.samples.as_slice(), frame.sample_rate);
        let mut all = copy_range(self.pending.as_slice(), 0, self.pending.len());
        assert(all@ =~= old(self)@.pending);
        let mut i: usize = 0;
        while i < more.len()
            invariant
                i <= more@.len(),
                all@ == old(self)@.pending + more@.take(i as int),
            decreases more@.len() - i,
        {
            all.push(more[i]);
            i += 1;
            assert(all@ =~= old(self)@.pending + more@.take(i as int));
        }
        assert(more@.take(more@.len() as int) =~= more@);
        self.pending = all;
    }

    /// Takes the oldest whole window off the buffer, if there is one.
    pub fn next_window(&mut self) -> (r: Option<Vec<i16>>)
        ensures
            final(self)@.window == old(self)@.window,
            old(self)@.pending.len() < old(self)@.window ==> r is None && final(self)@ == old(
                self,
            )@,
            old(self)@.pending.len() >= old(self)@.window ==> {
                &&& r is Some
                &&& r->Some_0@ == old(self)@.pending.take(old(self)@.window as int)
                &&& final(self)@.pending == old(self)@.pending.skip(old(self)@.window as int)
            },
    {
        proof {
            use_type_invariant(&*self);
        }
        let n = self.pending.len();
        if n < self.window {
            return None;
        }
        let head = copy_range(self.pending.as_slice(), 0, self.window);
        let rest = copy_range(self.pending.as_slice(), self.window, n);
        self.pending = rest;
        proof {
            assert(head@ =~= old(self)@.pending.take(old(self)@.window as int));
            assert(rest@ =~= old(self)@.pending.skip(old(self)@.window as int));
        }
        Some(head)
    }
}

} // verus!
