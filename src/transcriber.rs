use vstd::prelude::*;
use crate::audio::{resample_mono_to_16k, resampled, AudioFrame};
use crate::engine::EngineCommand;
use crate::settings::TranscriptionModel;
use crate::text::{delta, normalize_transcript, normalized, transcript_delta};

verus! {

/// Messages to the transcriber.
#[derive(Debug)]
pub enum TranscriberMessage {
    Begin,
    Audio(AudioFrame),
    End,
    Cancel,
    UpdateModel(TranscriptionModel),
}

/// Least time, in milliseconds, between two partial decodes.
pub const DECODE_INTERVAL_MS: u64 = 350;

/// Least audio, in samples at 16 kHz, for a partial decode (200 ms).
pub const MIN_DECODE_SAMPLES: usize = 3200;

/// The abstract value of a `TranscriberSession`.
pub struct SessionModel {
    pub audio: Seq<i16>,
    pub last_emitted: Seq<char>,
    pub last_decode_ms: u64,
}

/// The commands that report a decoded transcript `text` against the text
/// emitted before: its delta, unless that is empty.
pub open spec fn delta_commands(previous: Seq<char>, text: Seq<char>, r: Seq<EngineCommand>) -> bool {
    if delta(previous, text).len() == 0 {
        r.len() == 0
    } else {
        r.len() == 1 && r[0] is TranscriptionDelta && r[0]->TranscriptionDelta_0@ == delta(
            previous,
            text,
        )
    }
}

/// The rolling state of one dictation session: the audio so far at 16 kHz,
/// the transcript last emitted, and when the last partial decode ended
/// (milliseconds of a monotonic clock). Decoding itself is done by the
/// caller, on `audio()`, and its raw text handed back.
pub struct TranscriberSession {
    audio: Vec<i16>,
    last_emitted: String,
    last_decode_ms: u64,
}

impl View for TranscriberSession {
    type V = SessionModel;

    closed spec fn view(&self) -> SessionModel {
        SessionModel {
            audio: self.audio@,
            last_emitted: self.last_emitted@,
            last_decode_ms: self.last_decode_ms,
        }
    }
}

impl TranscriberSession {
    pub fn new(now_ms: u64) -> (r: Self)
        ensures
            r@.audio.len() == 0,
            r@.last_emitted.len() == 0,
            r@.last_decode_ms == now_ms,
    {
        TranscriberSession { audio: Vec::new(), last_emitted: String::new(), last_decode_ms: now_ms }
    }

    /// The session audio, at 16 kHz.
    pub fn audio(&self) -> (r: &Vec<i16>)
        ensures
            r@ == self@.audio,
    {
        &self.audio
    }

    /// The transcript last emitted.
    pub fn last_emitted(&self) -> (r: &String)
        ensures
            r@ == self@.last_emitted,
    {
        &self.last_emitted
    }

    /// Drops the session's audio and emitted text.
    pub fn clear(&mut self)
        ensures
            final(self)@ == (SessionModel {
                audio: Seq::empty(),
                last_emitted: Seq::empty(),
                ..old(self)@
            }),
    {
        self.audio = Vec::new();
        self.last_emitted = String::new();
    }

    /// Starts a session at time `now_ms`.
    pub fn begin(&mut self, now_ms: u64)
        ensures
            final(self)@ == (SessionModel {
                audio: Seq::empty(),
                last_emitted: Seq::empty(),
                last_decode_ms: now_ms,
            }),
    {
        self.clear();
        self.last_decode_ms = now_ms;
    }

    /// Appends a frame, resampled to 16 kHz; true when a partial decode is
    /// due, that is when 350 ms have passed since the last one and the session
    /// holds at least 3200 samples.
    pub fn push_audio(&mut self, frame: &AudioFrame, now_ms: u64) -> (due: bool)
        requires
            frame.samples@.len() * 16000 <= usize::MAX,
        ensures
            final(self)@.audio == old(self)@.audio + resampled(
                frame.samples@,
                frame.sample_rate as nat,
            ),
            final(self)@.last_emitted == old(self)@.last_emitted,
            final(self)@.last_decode_ms == old(self)@.last_decode_ms,
            due == (now_ms >= old(self)@.last_decode_ms + DECODE_INTERVAL_MS
                && final(self)@.audio.len() >= MIN_DECODE_SAMPLES),
    {
        let more = resample_mono_to_16k(frame.samples.as_slice(), frame.sample_rate);
        let mut i: usize = 0;
        while i < more.len()
            invariant
                i <= more@.len(),
                self@.audio == old(self)@.audio + more@.take(i as int),
                self@.last_emitted == old(self)@.last_emitted,
                self@.last_decode_ms == old(self)@.last_decode_ms,
            decreases more@.len() - i,
        {
            self.audio.push(more[i]);
            i += 1;
            assert(self@.audio =~= old(self)@.audio + more@.take(i as int));
        }
        assert(more@.take(more@.len() as int) =~= more@);
        now_ms >= self.last_decode_ms && now_ms - self.last_decode_ms >= DECODE_INTERVAL_MS
            && self.audio.len() >= MIN_DECODE_SAMPLES
    }

    /// Takes the outcome of a partial decode that ended at `now_ms`: on
    /// success the raw text is normalised, its delta against the text emitted
    /// so far is reported (when not empty), and it becomes the emitted text;
    /// a failed decode changes nothing but the time.
    pub fn partial_decoded(&mut self, raw: Option<String>, now_ms: u64) -> (r: Vec<EngineCommand>)
        ensures
            final(self)@.audio == old(self)@.audio,
            final(self)@.last_decode_ms == now_ms,
            match raw {
                None => r@.len() == 0 && final(self)@.last_emitted == old(self)@.last_emitted,
                Some(text) => {
                    &&& final(self)@.last_emitted == normalized(text@, false)
                    &&& delta_commands(old(self)@.last_emitted, normalized(text@, false), r@)
                },
            },
    {
        let mut out: Vec<EngineCommand> = Vec::new();
        if let Some(text) = raw {
            let t = normalize_transcript(text.as_str(), false);
            let d = transcript_delta(self.last_emitted.as_str(), t.as_str());
            if !d.as_str().is_empty() {
                out.push(EngineCommand::TranscriptionDelta(d));
            }
            self.last_emitted = t;
        }
        self.last_decode_ms = now_ms;
        out
    }

    /// Ends the session with the outcome of the final decode: on success the
    /// raw text is normalised with a closing full stop and its delta reported
    /// (when not empty); then the session is cleared and the end of the
    /// transcription reported, whether or not the decode succeeded.
    pub fn finish(&mut self, raw: Option<String>) -> (r: Vec<EngineCommand>)
        ensures
            final(self)@.audio.len() == 0,
            final(self)@.last_emitted.len() == 0,
            final(self)@.last_decode_ms == old(self)@.last_decode_ms,
            r@.len() > 0,
            r@.last() is TranscriptionFinished,
            forall|i: int| 0 <= i < r@.len() - 1 ==> !(#[trigger] r@[i] is TranscriptionFinished),
            match raw {
                None => r@.len() == 1,
                Some(text) => delta_commands(
                    old(self)@.last_emitted,
                    normalized(text@, true),
                    r@.drop_last(),
                ),
            },
    {
        let mut out: Vec<EngineCommand> = Vec::new();
        if let Some(text) = raw {
            let t = normalize_transcript(text.as_str(), true);
            let d = transcript_delta(self.last_emitted.as_str(), t.as_str());
            if !d.as_str().is_empty() {
                out.push(EngineCommand::TranscriptionDelta(d));
            }
        }
        let ghost deltas = out@;
        self.clear();
        out.push(EngineCommand::TranscriptionFinished);
        assert(out@.drop_last() =~= deltas);
        out
    }

    /// Drops the session without decoding and reports the end of the
    /// transcription.
    pub fn cancel(&mut self) -> (r: Vec<EngineCommand>)
        ensures
            final(self)@.audio.len() == 0,
            final(self)@.last_emitted.len() == 0,
            final(self)@.last_decode_ms == old(self)@.last_decode_ms,
            r@.len() == 1,
            r@[0] is TranscriptionFinished,
    {
        self.clear();
        let mut out: Vec<EngineCommand> = Vec::new();
        out.push(EngineCommand::TranscriptionFinished);
        out
    }
}

} // verus!
