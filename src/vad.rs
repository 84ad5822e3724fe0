use vstd::prelude::*;
use crate::audio::{copy_range, magnitude, resample_mono_to_16k, resampled, AudioFrame};

verus! {

#[verifier::external_type_specification]
#[verifier::external_body]
pub struct ExVad(webrtc_vad::Vad);

/// Relies on webrtc_vad::Vad::reset, which reinitialises the detector; it
/// promises nothing that the logic here reads.
pub assume_specification[ webrtc_vad::Vad::reset ](vad: &mut webrtc_vad::Vad);

/// Relies on webrtc_vad::Vad::is_voice_segment: the detector's verdict on one
/// block, an error for a block length it does not take. It reads the first
/// sample before anything else, so the block must not be empty. The verdict
/// depends on the detector's history, so nothing is stated of it.
pub assume_specification[ webrtc_vad::Vad::is_voice_segment ](
    vad: &mut webrtc_vad::Vad,
    buffer: &[i16],
) -> Result<bool, ()>
    requires
        buffer@.len() > 0,
;

/// Samples per analysis window: 20 ms at 16 kHz.
pub const WINDOW_LEN: usize = 320;

/// Continuous silence, in milliseconds, after which a turn ends.
pub const SILENCE_TIMEOUT_MS: u64 = 1000;

/// Sensitivity, in thousandths, held within [0.01, 1.0].
pub open spec fn clamp_sensitivity(s: nat) -> nat {
    if s < 10 {
        10
    } else if s > 1000 {
        1000
    } else {
        s
    }
}

/// The energy gate for a sensitivity given in thousandths, in units of
/// 1/100000 of full scale: `0.12 - clamp(sensitivity, 0.01, 1.0) * 0.10`.
pub open spec fn energy_threshold(sensitivity: nat) -> nat {
    (12000 - clamp_sensitivity(sensitivity) * 10) as nat
}

/// Maps a sensitivity in thousandths to the mean normalised amplitude, in
/// units of 1/100000, above which a window counts as speech. Higher
/// sensitivity asks for less energy.
pub fn energy_threshold_from_sensitivity(sensitivity: u32) -> (r: u32)
    ensures
        r == energy_threshold(sensitivity as nat),
        2000 <= r <= 11900,
{
    let clamped: u32 = if sensitivity < 10 {
        10
    } else if sensitivity > 1000 {
        1000
    } else {
        sensitivity
    };
    12000 - clamped * 10
}

/// Over [0.01, 1.0] a higher sensitivity always gives a strictly lower energy
/// gate.
pub proof fn lemma_threshold_strictly_decreasing(a: nat, b: nat)
    requires
        10 <= a < b <= 1000,
    ensures
        energy_threshold(b) < energy_threshold(a),
{
}

pub open spec fn magnitude_sum(s: Seq<i16>) -> nat
    decreases s.len(),
{
    if s.len() == 0 {
        0
    } else {
        magnitude_sum(s.drop_last()) + magnitude(s.last())
    }
}

/// Whether the mean normalised amplitude of `window` (each magnitude divided by
/// 32767) exceeds `threshold` hundred-thousandths.
pub open spec fn loud(window: Seq<i16>, threshold: nat) -> bool {
    magnitude_sum(window) * 100000 > threshold * 32767 * window.len()
}

proof fn lemma_magnitude_sum_bound(s: Seq<i16>)
    ensures
        magnitude_sum(s) <= 32768 * s.len(),
    decreases s.len(),
{
    if s.len() > 0 {
        lemma_magnitude_sum_bound(s.drop_last());
    }
}

/// Whether a window passes the energy gate.
pub fn window_is_loud(window: &[i16], threshold: u32) -> (r: bool)
    requires
        window@.len() <= WINDOW_LEN,
    ensures
        r == loud(window@, threshold as nat),
{
    let mut total: u64 = 0;
    let mut i: usize = 0;
    while i < window.len()
        invariant
            i <= window@.len() <= WINDOW_LEN,
            total == magnitude_sum(window@.take(i as int)),
        decreases window@.len() - i,
    {
        proof {
            assert(window@.take(i as int + 1).drop_last() =~= window@.take(i as int));
            lemma_magnitude_sum_bound(window@.take(i as int));
        }
        let x = window[i] as i64;
        let m: u64 = if x < 0 {
            (-x) as u64
        } else {
            x as u64
        };
        total = total + m;
        i += 1;
    }
    assert(window@.take(window@.len() as int) =~= window@);
    proof {
        lemma_magnitude_sum_bound(window@);
        assert(total * 100000 <= 32768 * 320 * 100000) by (nonlinear_arith)
            requires
                total <= 32768 * window@.len(),
                window@.len() <= 320,
        ;
        assert((threshold as u64) * 32767 * (window.len() as u64) <= 4294967295 * 32767 * 320)
            by (nonlinear_arith)
            requires
                threshold <= 4294967295,
                window@.len() <= 320,
        ;
    }
    total * 100000 > (threshold as u64) * 32767 * (window.len() as u64)
}

/// One step of the silence timer: speech stops it; silence starts it, or, once
/// it has run for the timeout, reports the timeout and stops it.
pub open spec fn silence_step(started: Option<u64>, speech: bool, now: u64) -> (Option<u64>, bool) {
    if speech {
        (None, false)
    } else {
        match started {
            Some(t) => if now >= t + SILENCE_TIMEOUT_MS {
                (None, true)
            } else {
                (Some(t), false)
            },
            None => (Some(now), false),
        }
    }
}

/// The silence timer after a run of windows judged at time `now`, and whether
/// it reported a timeout; windows after a timeout are not looked at.
pub open spec fn scan(started: Option<u64>, speech: Seq<bool>, now: u64) -> (Option<u64>, bool)
    decreases speech.len(),
{
    if speech.len() == 0 {
        (started, false)
    } else {
        let before = scan(started, speech.drop_last(), now);
        if before.1 {
            before
        } else {
            silence_step(before.0, speech.last(), now)
        }
    }
}

/// Window `i` of a frame, once resampled to 16 kHz.
pub open spec fn frame_window(frame: AudioFrame, i: int) -> Seq<i16> {
    resampled(frame.samples@, frame.sample_rate as nat).subrange(i * 320, i * 320 + 320)
}

/// How many whole windows a frame holds once resampled to 16 kHz.
pub open spec fn window_count(frame: AudioFrame) -> nat {
    resampled(frame.samples@, frame.sample_rate as nat).len() / 320
}

/// What running `frame` through a gate in state `gate` at time `now` may
/// give: the verdicts `speech` on the windows looked at (every window that
/// passes the energy gate counts as speech), and the timer and timeout that the
/// verdicts lead to. All windows are looked at unless a timeout came first.
pub open spec fn frame_outcome(
    gate: GateModel,
    frame: AudioFrame,
    now: u64,
    speech: Seq<bool>,
    started: Option<u64>,
    fired: bool,
) -> bool {
    &&& speech.len() <= window_count(frame)
    &&& (!fired ==> speech.len() == window_count(frame))
    &&& forall|i: int|
        0 <= i < speech.len() && loud(frame_window(frame, i), energy_threshold(gate.sensitivity))
            ==> #[trigger] speech[i]
    &&& (started, fired) == scan(gate.silence_started, speech, now)
}

/// Messages to the voice-activity worker.
#[derive(Debug)]
pub enum VadMessage {
    Begin,
    Audio(AudioFrame),
    End,
    SetSensitivity(u32),
}

/// The abstract value of a `VadGate`.
pub struct GateModel {
    pub silence_started: Option<u64>,
    pub sensitivity: nat,
}

/// The end-of-turn detector: a silence timer fed by the voice-activity verdict
/// and an energy gate. Times are in milliseconds of a monotonic clock.
pub struct VadGate {
    silence_started: Option<u64>,
    sensitivity: u32,
}

impl View for VadGate {
    type V = GateModel;

    closed spec fn view(&self) -> GateModel {
        GateModel { silence_started: self.silence_started, sensitivity: self.sensitivity as nat }
    }
}

impl VadGate {
    pub fn new(sensitivity: u32) -> (r: Self)
        ensures
            r@ == (GateModel {
                silence_started: None,
                sensitivity: clamp_sensitivity(sensitivity as nat),
            }),
    {
        let mut gate = VadGate { silence_started: None, sensitivity: 10 };
        gate.set_sensitivity(sensitivity);
        gate
    }

    pub fn set_sensitivity(&mut self, sensitivity: u32)
        ensures
            final(self)@ == (GateModel {
                sensitivity: clamp_sensitivity(sensitivity as nat),
                ..old(self)@
            }),
    {
        self.sensitivity = if sensitivity < 10 {
            10
        } else if sensitivity > 1000 {
            1000
        } else {
            sensitivity
        };
    }

    /// Starts a turn: the detector is reset and the silence timer stopped.
    pub fn begin(&mut self, vad: &mut webrtc_vad::Vad)
        ensures
            final(self)@ == (GateModel { silence_started: None, ..old(self)@ }),
    {
        vad.reset();
        self.silence_started = None;
    }

    /// Ends a turn: the silence timer is stopped.
    pub fn end(&mut self)
        ensures
            final(self)@ == (GateModel { silence_started: None, ..old(self)@ }),
    {
        self.silence_started = None;
    }

    /// Feeds the timer one window's verdict; true when the silence timeout is
    /// reached.
    pub fn observe(&mut self, speech: bool, now_ms: u64) -> (fired: bool)
        ensures
            (final(self)@.silence_started, fired) == silence_step(
                old(self)@.silence_started,
                speech,
                now_ms,
            ),
            final(self)@.sensitivity == old(self)@.sensitivity,
    {
        if speech {
            self.silence_started = None;
            return false;
        }
        match self.silence_started {
            Some(t) => {
                if now_ms >= t && now_ms - t >= SILENCE_TIMEOUT_MS {
                    self.silence_started = None;
                    true
                } else {
                    false
                }
            },
            None => {
                self.silence_started = Some(now_ms);
                false
            },
        }
    }

    /// Runs a frame through the detector, window by window, at time `now_ms`.
    /// Each window counts as speech when the detector says so or when it
    /// passes the energy gate; a partial last window is dropped, and the
    /// windows after a timeout are not looked at. True when the silence timeout
    /// was reached.
    pub fn on_audio(&mut self, vad: &mut webrtc_vad::Vad, frame: &AudioFrame, now_ms: u64) -> (fired: bool)
        requires
            frame.samples@.len() * 16000 <= usize::MAX,
        ensures
            final(self)@.sensitivity == old(self)@.sensitivity,
            exists|speech: Seq<bool>|
                frame_outcome(old(self)@, *frame, now_ms, speech, final(self)@.silence_started, fired),
    {
        let at16k = resample_mono_to_16k(frame.samples.as_slice(), frame.sample_rate);
        let threshold = energy_threshold_from_sensitivity(self.sensitivity);
        let count = at16k.len() / WINDOW_LEN;
        let ghost entry = self@;
        let ghost start = entry.silence_started;
        let ghost mut speech: Seq<bool> = Seq::empty();
        let mut w: usize = 0;
        let mut fired = false;
        while w < count && !fired
            invariant
                count == at16k@.len() / 320,
                at16k@.len() <= usize::MAX,
                at16k@ == resampled(frame.samples@, frame.sample_rate as nat),
                count == window_count(*frame),
                threshold == energy_threshold(entry.sensitivity),
                self@.sensitivity == entry.sensitivity,
                w <= count,
                speech.len() == w,
                forall|i: int|
                    0 <= i < speech.len() && loud(frame_window(*frame, i), threshold as nat)
                        ==> #[trigger] speech[i],
                (self@.silence_started, fired) == scan(start, speech, now_ms),
            decreases count - w,
        {
            assert(w * 320 + 320 <= at16k@.len()) by (nonlinear_arith)
                requires
                    w < count,
                    count == at16k@.len() / 320,
            ;
            let window = copy_range(at16k.as_slice(), w * WINDOW_LEN, w * WINDOW_LEN + WINDOW_LEN);
            let verdict = match vad.is_voice_segment(window.as_slice()) {
                Ok(v) => v,
                Err(_) => false,
            };
            let is_speech = verdict || window_is_loud(window.as_slice(), threshold);
            let ghost prev = speech;
            proof {
                assert(window@ == frame_window(*frame, w as int));
                speech = prev.push(is_speech);
                assert(speech.drop_last() =~= prev);
                assert forall|i: int|
                    0 <= i < speech.len() && loud(frame_window(*frame, i), threshold as nat)
                        implies #[trigger] speech[i] by {
                    if i < prev.len() {
                        assert(speech[i] == prev[i]);
                    }
                }
            }
            fired = self.observe(is_speech, now_ms);
            w += 1;
        }
        assert(frame_outcome(entry, *frame, now_ms, speech, self@.silence_started, fired));
        fired
    }

    /// Handles one message at time `now_ms`; true when a silence timeout is to
    /// be reported to the engine.
    pub fn handle(&mut self, vad: &mut webrtc_vad::Vad, message: VadMessage, now_ms: u64) -> (fired: bool)
        requires
            message is Audio ==> message->Audio_0.samples@.len() * 16000 <= usize::MAX,
        ensures
            match message {
                VadMessage::Begin | VadMessage::End => {
                    &&& !fired
                    &&& final(self)@ == (GateModel { silence_started: None, ..old(self)@ })
                },
                VadMessage::SetSensitivity(v) => {
                    &&& !fired
                    &&& final(self)@ == (GateModel {
                        sensitivity: clamp_sensitivity(v as nat),
                        ..old(self)@
                    })
                },
                VadMessage::Audio(frame) => {
                    &&& final(self)@.sensitivity == old(self)@.sensitivity
                    &&& exists|speech: Seq<bool>|
                        frame_outcome(
                            old(self)@,
                            frame,
                            now_ms,
                            speech,
                            final(self)@.silence_started,
                            fired,
                        )
                },
            },
    {
        match message {
            VadMessage::Begin => {
                self.begin(vad);
                false
            },
            VadMessage::End => {
                self.end();
                false
            },
            VadMessage::SetSensitivity(v) => {
                self.set_sensitivity(v);
                false
            },
            VadMessage::Audio(frame) => self.on_audio(vad, &frame, now_ms),
        }
    }
}

} // verus!
