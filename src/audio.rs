use vstd::prelude::*;

verus! {

/// The rate, in Hz, that the detectors and the transcriber work at.
pub const TARGET_RATE: u32 = 16000;

/// A block of mono 16-bit audio.
///
/// `peak` is the largest sample magnitude of the block; as a fraction of full
/// scale the peak level is `peak / 32767`.
#[derive(Debug, Clone)]
pub struct AudioFrame {
    pub samples: Vec<i16>,
    pub sample_rate: u32,
    pub peak: u32,
}

/// `num / d` rounded to the nearest integer, halves away from zero.
pub open spec fn round_div(num: int, d: int) -> int
    recommends
        d > 0,
{
    if num >= 0 {
        (num + d / 2) / d
    } else {
        -((-num + d / 2) / d)
    }
}

/// How many samples a block of `len` samples at `rate` Hz becomes at 16 kHz
/// (never fewer than one).
pub open spec fn resampled_len(len: nat, rate: nat) -> nat
    recommends
        rate > 0,
{
    if len * 16000 / rate == 0 {
        1
    } else {
        len * 16000 / rate
    }
}

/// Output sample `i` of the resampling of `s` from `rate` Hz: the linear
/// interpolation, at source position `i * rate / 16000`, between the sample at
/// or before that position and the next one (the last sample standing in for
/// the one past the end), rounded to the nearest integer.
pub open spec fn resample_point(s: Seq<i16>, rate: nat, i: nat) -> int {
    let pos = i * rate;
    let idx = (pos / 16000) as int;
    let rem = (pos % 16000) as int;
    let next = if idx + 1 < s.len() {
        idx + 1
    } else {
        s.len() - 1
    };
    round_div(s[idx] * 16000 + (s[next] - s[idx]) * rem, 16000)
}

/// `s`, sampled at `rate` Hz, resampled to 16 kHz by linear interpolation.
/// Audio already at 16 kHz is left as it is; an empty block, or a rate of
/// zero, gives an empty block.
pub open spec fn resampled(s: Seq<i16>, rate: nat) -> Seq<i16> {
    if rate == 16000 {
        s
    } else if s.len() == 0 || rate == 0 {
        Seq::empty()
    } else {
        Seq::new(resampled_len(s.len(), rate), |i: int| resample_point(s, rate, i as nat) as i16)
    }
}

proof fn lemma_index_in_range(i: nat, len: nat, rate: nat)
    requires
        rate > 0,
        len > 0,
        i < resampled_len(len, rate),
    ensures
        (i * rate) / 16000 < len,
{
    let scaled = len * 16000 / rate;
    if scaled == 0 {
        assert(i == 0);
        assert(i * rate == 0) by (nonlinear_arith)
            requires
                i == 0,
        ;
    } else {
        assert(scaled * rate <= len * 16000) by (nonlinear_arith)
            requires
                scaled == len * 16000 / rate,
                rate > 0,
        ;
        assert(i * rate < len * 16000) by (nonlinear_arith)
            requires
                i + 1 <= scaled,
                scaled * rate <= len * 16000,
                rate > 0,
        ;
        assert((i * rate) / 16000 < len) by (nonlinear_arith)
            requires
                i * rate < len * 16000,
        ;
    }
}

proof fn lemma_point_in_range(cur: int, next: int, rem: int)
    requires
        -32768 <= cur <= 32767,
        -32768 <= next <= 32767,
        0 <= rem < 16000,
    ensures
        -32768 * 16000 <= cur * 16000 + (next - cur) * rem <= 32767 * 16000,
        -32768 <= round_div(cur * 16000 + (next - cur) * rem, 16000) <= 32767,
{
    let num = cur * 16000 + (next - cur) * rem;
    assert(num == cur * (16000 - rem) + next * rem) by (nonlinear_arith)
        requires
            num == cur * 16000 + (next - cur) * rem,
    ;
    assert(-32768 * (16000 - rem) <= cur * (16000 - rem) <= 32767 * (16000 - rem))
        by (nonlinear_arith)
        requires
            -32768 <= cur <= 32767,
            0 <= rem < 16000,
    ;
    assert(-32768 * rem <= next * rem <= 32767 * rem) by (nonlinear_arith)
        requires
            -32768 <= next <= 32767,
            0 <= rem < 16000,
    ;
}

/// Resamples mono audio from `source_rate` Hz to 16 kHz by linear
/// interpolation.
pub fn resample_mono_to_16k(samples: &[i16], source_rate: u32) -> (r: Vec<i16>)
    requires
        samples@.len() * 16000 <= usize::MAX,
    ensures
        r@ == resampled(samples@, source_rate as nat),
{
    if source_rate == TARGET_RATE {
        return vstd::slice::slice_to_vec(samples);
    }
    if samples.len() == 0 || source_rate == 0 {
        return Vec::new();
    }
    let len = samples.len();
    let scaled: usize = len * 16000 / (source_rate as usize);
    let target: usize = if scaled == 0 {
        1
    } else {
        scaled
    };
    assert(target == resampled_len(len as nat, source_rate as nat));
    let mut out: Vec<i16> = Vec::with_capacity(target);
    let mut i: usize = 0;
    while i < target
        invariant
            0 < len == samples@.len(),
            source_rate > 0,
            target == resampled_len(len as nat, source_rate as nat),
            i <= target,
            out@ =~= Seq::new(
                i as nat,
                |j: int| resample_point(samples@, source_rate as nat, j as nat) as i16,
            ),
        decreases target - i,
    {
        proof {
            lemma_index_in_range(i as nat, len as nat, source_rate as nat);
        }
        let pos: u128 = (i as u128) * (source_rate as u128);
        let idx: usize = (pos / 16000) as usize;
        let rem: i64 = (pos % 16000) as i64;
        let next: usize = if idx + 1 < len {
            idx + 1
        } else {
            len - 1
        };
        let cur = samples[idx] as i64;
        let nx = samples[next] as i64;
        proof {
            lemma_point_in_range(cur as int, nx as int, rem as int);
        }
        let num: i64 = cur * 16000 + (nx - cur) * rem;
        let v: i64 = if num >= 0 {
            (num + 8000) / 16000
        } else {
            -((-num + 8000) / 16000)
        };
        out.push(v as i16);
        i += 1;
    }
    out
}

/// Audio that is already at 16 kHz comes out of resampling unchanged.
pub proof fn lemma_resample_identity(s: Seq<i16>)
    ensures
        resampled(s, 16000) == s,
{
}

/// Resampling from `rate` Hz gives `|s| * 16000 / rate` samples, give or take
/// one.
pub proof fn lemma_resample_length(s: Seq<i16>, rate: nat)
    requires
        rate > 0,
    ensures
        resampled(s, rate).len() * rate <= s.len() * 16000 + rate,
        s.len() * 16000 <= resampled(s, rate).len() * rate + rate,
{
    let n = resampled(s, rate).len();
    if rate == 16000 {
        assert(n == s.len());
        assert(n * rate == s.len() * 16000);
    } else if s.len() > 0 {
        let q = s.len() * 16000 / rate;
        assert(q * rate <= s.len() * 16000 < q * rate + rate) by (nonlinear_arith)
            requires
                q == s.len() * 16000 / rate,
                rate > 0,
        ;
        if q == 0 {
            assert(n == 1);
        } else {
            assert(n == q);
        }
    } else {
        assert(n == 0);
    }
}

/// `a / b` rounded toward zero.
pub open spec fn trunc_div(a: int, b: int) -> int
    recommends
        b > 0,
{
    if a >= 0 {
        a / b
    } else {
        -((-a) / b)
    }
}

pub open spec fn sum_of(s: Seq<i16>) -> int
    decreases s.len(),
{
    if s.len() == 0 {
        0
    } else {
        sum_of(s.drop_last()) + s.last()
    }
}

/// The samples of source frame `j` (one sample per channel; the last frame
/// may be short).
pub open spec fn source_frame(input: Seq<i16>, channels: nat, j: int) -> Seq<i16> {
    let end = if (j + 1) * channels < input.len() {
        (j + 1) * channels
    } else {
        input.len() as int
    };
    input.subrange(j * channels, end)
}

/// Interleaved audio of `channels` channels (at least one) down-mixed to mono:
/// one sample per source frame, the integer mean of its samples rounded toward
/// zero.
pub open spec fn downmixed(input: Seq<i16>, channels: nat) -> Seq<i16>
    recommends
        channels > 0,
{
    Seq::new(
        ((input.len() + channels - 1) / (channels as int)) as nat,
        |j: int|
            trunc_div(
                sum_of(source_frame(input, channels, j)),
                source_frame(input, channels, j).len() as int,
            ) as i16,
    )
}

proof fn lemma_sum_bounds(s: Seq<i16>)
    ensures
        -32768 * s.len() <= sum_of(s) <= 32767 * s.len(),
    decreases s.len(),
{
    if s.len() > 0 {
        lemma_sum_bounds(s.drop_last());
    }
}

proof fn lemma_mean_in_range(sum: int, n: int)
    requires
        n > 0,
        -32768 * n <= sum <= 32767 * n,
    ensures
        -32768 <= trunc_div(sum, n) <= 32767,
{
    if sum >= 0 {
        assert(sum / n <= 32767) by (nonlinear_arith)
            requires
                0 <= sum <= 32767 * n,
                n > 0,
        ;
        assert(sum / n >= 0) by (nonlinear_arith)
            requires
                0 <= sum,
                n > 0,
        ;
    } else {
        assert((-sum) / n <= 32768) by (nonlinear_arith)
            requires
                0 <= -sum <= 32768 * n,
                n > 0,
        ;
        assert((-sum) / n >= 0) by (nonlinear_arith)
            requires
                0 <= -sum,
                n > 0,
        ;
    }
}

/// Down-mixes interleaved audio of `channels` channels to mono. A channel
/// count of zero is taken as one.
pub fn downmix(input: &[i16], channels: usize) -> (r: Vec<i16>)
    ensures
        r@ == downmixed(input@, if channels == 0 { 1 } else { channels as nat }),
{
    let c: usize = if channels == 0 {
        1
    } else {
        channels
    };
    let len = input.len();
    let whole: usize = len / c;
    assert(len % c != 0 ==> whole < len) by (nonlinear_arith)
        requires
            whole == len / c,
            c > 0,
    ;
    let frame_count: usize = if len % c != 0 {
        whole + 1
    } else {
        whole
    };
    assert(frame_count == (len + c - 1) / (c as int)) by (nonlinear_arith)
        requires
            frame_count == if len % c != 0 {
                (len / c) as int + 1
            } else {
                (len / c) as int
            },
            c > 0,
    ;
    let mut out: Vec<i16> = Vec::new();
    let mut j: usize = 0;
    let ghost frames = downmixed(input@, c as nat);
    while j < frame_count
        invariant
            len == input@.len(),
            c > 0,
            frame_count == (len + c - 1) / (c as int),
            frames == downmixed(input@, c as nat),
            frames.len() == frame_count,
            j <= frame_count,
            out@.len() == j,
            forall|i: int| 0 <= i < j ==> out@[i] == frames[i],
        decreases frame_count - j,
    {
        assert(j * c < len) by (nonlinear_arith)
            requires
                j < frame_count,
                frame_count == (len + c - 1) / (c as int),
                c > 0,
        ;
        let start: usize = j * c;
        let end: usize = if len - start > c {
            start + c
        } else {
            len
        };
        assert((j + 1) * c == start + c) by (nonlinear_arith)
            requires
                start == j * c,
        ;
        let mut acc: i128 = 0;
        let mut k: usize = start;
        while k < end
            invariant
                start <= k <= end <= len == input@.len(),
                acc == sum_of(input@.subrange(start as int, k as int)),
                end - start <= c,
            decreases end - k,
        {
            proof {
                lemma_sum_bounds(input@.subrange(start as int, k as int));
                assert(input@.subrange(start as int, k as int + 1).drop_last() =~= input@.subrange(
                    start as int,
                    k as int,
                ));
            }
            acc = acc + input[k] as i128;
            k += 1;
        }
        let count: i128 = (end - start) as i128;
        let ghost chunk = input@.subrange(start as int, end as int);
        assert(chunk == source_frame(input@, c as nat, j as int));
        proof {
            lemma_sum_bounds(chunk);
            lemma_mean_in_range(acc as int, count as int);
        }
        let mean: i128 = if acc >= 0 {
            acc / count
        } else {
            -((-acc) / count)
        };
        out.push(mean as i16);
        j += 1;
    }
    assert(out@ =~= frames);
    out
}

/// Unsigned 16-bit samples moved to the signed range by subtracting 32768.
pub fn bias_u16(input: &[u16]) -> (r: Vec<i16>)
    ensures
        r@.len() == input@.len(),
        forall|i: int| 0 <= i < input@.len() ==> r@[i] == input@[i] - 32768,
{
    let mut out: Vec<i16> = Vec::with_capacity(input.len());
    let mut i: usize = 0;
    while i < input.len()
        invariant
            i <= input@.len(),
            out@.len() == i,
            forall|k: int| 0 <= k < i ==> out@[k] == input@[k] - 32768,
        decreases input@.len() - i,
    {
        out.push((input[i] as i32 - 32768) as i16);
        i += 1;
    }
    out
}

pub open spec fn magnitude(x: i16) -> nat {
    if x < 0 {
        (-x) as nat
    } else {
        x as nat
    }
}

/// The largest sample magnitude of `s` (zero for an empty block).
pub open spec fn peak_of(s: Seq<i16>) -> nat
    decreases s.len(),
{
    if s.len() == 0 {
        0
    } else {
        let p = peak_of(s.drop_last());
        let m = magnitude(s.last());
        if m > p {
            m
        } else {
            p
        }
    }
}

/// The largest sample magnitude of a block of samples.
pub fn peak_magnitude(samples: &[i16]) -> (r: u32)
    ensures
        r == peak_of(samples@),
        r <= 32768,
{
    let mut best: u32 = 0;
    let mut i: usize = 0;
    while i < samples.len()
        invariant
            i <= samples@.len(),
            best == peak_of(samples@.take(i as int)),
            best <= 32768,
        decreases samples@.len() - i,
    {
        assert(samples@.take(i as int + 1).drop_last() =~= samples@.take(i as int));
        let x = samples[i] as i32;
        let m: u32 = if x < 0 {
            (-x) as u32
        } else {
            x as u32
        };
        if m > best {
            best = m;
        }
        i += 1;
    }
    assert(samples@.take(samples@.len() as int) =~= samples@);
    best
}

/// A copy of `s[from..to]`.
pub(crate) fn copy_range(s: &[i16], from: usize, to: usize) -> (r: Vec<i16>)
    requires
        from <= to <= s@.len(),
    ensures
        r@ == s@.subrange(from as int, to as int),
{
    let mut out: Vec<i16> = Vec::with_capacity(to - from);
    let mut i: usize = from;
    while i < to
        invariant
            from <= i <= to <= s@.len(),
            out@ == s@.subrange(from as int, i as int),
        decreases to - i,
    {
        out.push(s[i]);
        i += 1;
        assert(out@ =~= s@.subrange(from as int, i as int));
    }
    out
}

/// The abstract value of a `FrameAssembler`.
pub struct AssemblerModel {
    pub pending: Seq<i16>,
    pub frame_len: nat,
    pub sample_rate: u32,
}

/// Gathers mono samples and cuts them into frames of 20 ms of source audio.
pub struct FrameAssembler {
    pending: Vec<i16>,
    frame_len: usize,
    sample_rate: u32,
}

impl View for FrameAssembler {
    type V = AssemblerModel;

    closed spec fn view(&self) -> AssemblerModel {
        AssemblerModel {
            pending: self.pending@,
            frame_len: self.frame_len as nat,
            sample_rate: self.sample_rate,
        }
    }
}

/// Frame `j` cut from `all`, in frames of `len` samples.
pub open spec fn frame_at(all: Seq<i16>, len: nat, j: int) -> Seq<i16> {
    all.subrange(j * len, (j + 1) * len)
}

impl FrameAssembler {
    #[verifier::type_invariant]
    closed spec fn inv(&self) -> bool {
        self.frame_len > 0 && self.frame_len == self.sample_rate / 50
    }

    /// An assembler for audio at `sample_rate` Hz: frames of
    /// `sample_rate / 50` samples (20 ms), nothing pending.
    pub fn new(sample_rate: u32) -> (r: Self)
        requires
            sample_rate >= 50,
        ensures
            r@.pending.len() == 0,
            r@.frame_len == sample_rate / 50,
            r@.sample_rate == sample_rate,
    {
        FrameAssembler { pending: Vec::new(), frame_len: (sample_rate / 50) as usize, sample_rate }
    }

    pub fn frame_len(&self) -> (r: usize)
        ensures
            r == self@.frame_len,
            r > 0,
    {
        proof {
            use_type_invariant(self);
        }
        self.frame_len
    }

    /// Appends mono samples, then cuts off every whole frame, oldest first.
    /// What is left over waits for the next call.
    pub fn push(&mut self, mono: &[i16]) -> (frames: Vec<AudioFrame>)
        ensures
            final(self)@.frame_len == old(self)@.frame_len,
            final(self)@.sample_rate == old(self)@.sample_rate,
            ({
                let all = old(self)@.pending + mono@;
                let n = all.len() / old(self)@.frame_len;
                &&& frames@.len() == n
                &&& forall|j: int|
                    0 <= j < n ==> {
                        &&& (#[trigger] frames@[j]).samples@ == frame_at(
                            all,
                            old(self)@.frame_len,
                            j,
                        )
                        &&& frames@[j].sample_rate == old(self)@.sample_rate
                        &&& frames@[j].peak == peak_of(frames@[j].samples@)
                    }
                &&& final(self)@.pending == all.subrange(
                    (n * old(self)@.frame_len) as int,
                    all.len() as int,
                )
            }),
    {
        proof {
            use_type_invariant(&*self);
        }
        let fl = self.frame_len;
        let mut all: Vec<i16> = copy_range(self.pending.as_slice(), 0, self.pending.len());
        let mut i: usize = 0;
        while i < mono.len()
            invariant
                i <= mono@.len(),
                all@ == old(self)@.pending + mono@.take(i as int),
            decreases mono@.len() - i,
        {
            all.push(mono[i]);
            i += 1;
            assert(all@ =~= old(self)@.pending + mono@.take(i as int));
        }
        assert(mono@.take(mono@.len() as int) =~= mono@);
        let total = all.len();
        let n = total / fl;
        let mut frames: Vec<AudioFrame> = Vec::new();
        let mut j: usize = 0;
        while j < n
            invariant
                fl > 0,
                fl == old(self)@.frame_len,
                n == all@.len() / (fl as nat),
                total == all@.len(),
                j <= n,
                frames@.len() == j,
                forall|k: int|
                    0 <= k < j ==> {
                        &&& (#[trigger] frames@[k]).samples@ == frame_at(all@, fl as nat, k)
                        &&& frames@[k].sample_rate == self.sample_rate
                        &&& frames@[k].peak == peak_of(frames@[k].samples@)
                    },
            decreases n - j,
        {
            assert((j + 1) * fl <= all@.len()) by (nonlinear_arith)
                requires
                    j < n,
                    n == all@.len() / (fl as nat),
                    fl > 0,
            ;
            assert(j * fl + fl == (j + 1) * fl) by (nonlinear_arith);
            let start = j * fl;
            let samples = copy_range(all.as_slice(), start, start + fl);
            let peak = peak_magnitude(samples.as_slice());
            frames.push(AudioFrame { samples, sample_rate: self.sample_rate, peak });
            j += 1;
        }
        assert(n * fl <= all@.len()) by (nonlinear_arith)
            requires
                n == all@.len() / (fl as nat),
                fl > 0,
        ;
        self.pending = copy_range(all.as_slice(), n * fl, all.len());
        frames
    }
}

} // verus!
