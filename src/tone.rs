use vstd::arithmetic::div_mod::lemma_add_mod_noop;
use vstd::prelude::*;

verus! {

/// Why a tone cannot be generated.
#[derive(Debug, Clone, Copy, PartialEq, Eq)]
pub enum ToneError {
    /// The sample rate or the base frequency is zero.
    InvalidParameter,
    /// `sample_rate * duration` does not fit in 32 bits.
    TooManySamples,
}

/// A two-channel tone: a base frequency on the left channel and the base
/// frequency raised by an offset on the right one.
pub struct Tone {
    /// Samples per second.
    sample_rate: u32,
    /// Length of the tone in seconds.
    duration_in_seconds: u32,
    /// Frequency of the left channel in hertz.
    base_frequency: u32,
    /// How far the right channel's frequency lies above the left one, in hertz.
    diff_frequency: u32,
}

/// Position within its cycle of sample `s` of a sine of `frequency` hertz
/// sampled at `sample_rate`, in units of `1 / sample_rate` of a cycle: the
/// sample's amplitude is `sin(2 * pi * phase / sample_rate)`.
pub open spec fn phase_at(frequency: int, sample_rate: int, s: int) -> int {
    (frequency * s) % sample_rate
}

/// The phases of the first `count` samples of a sine of `frequency` hertz.
pub open spec fn phases(frequency: int, sample_rate: int, count: nat) -> Seq<u32> {
    Seq::new(count, |s: int| phase_at(frequency, sample_rate, s) as u32)
}

impl Tone {
    pub closed spec fn spec_sample_rate(&self) -> u32 {
        self.sample_rate
    }

    pub closed spec fn spec_duration(&self) -> u32 {
        self.duration_in_seconds
    }

    pub closed spec fn spec_base_frequency(&self) -> u32 {
        self.base_frequency
    }

    pub closed spec fn spec_diff_frequency(&self) -> u32 {
        self.diff_frequency
    }

    /// Samples per channel: `sample_rate * duration`.
    pub open spec fn spec_total_samples(&self) -> int {
        self.spec_sample_rate() * self.spec_duration()
    }

    pub fn new(
        sample_rate: u32,
        duration_in_seconds: u32,
        base_frequency: u32,
        diff_frequency: u32,
    ) -> (r: Self)
        ensures
            r.spec_sample_rate() == sample_rate,
            r.spec_duration() == duration_in_seconds,
            r.spec_base_frequency() == base_frequency,
            r.spec_diff_frequency() == diff_frequency,
    {
        Tone { sample_rate, duration_in_seconds, base_frequency, diff_frequency }
    }

    /// Checks the parameters and returns the number of samples per channel.
    pub fn sample_count(&self) -> (r: Result<u32, ToneError>)
        ensures
            r == (if self.spec_sample_rate() == 0 || self.spec_base_frequency() == 0 {
                Err(ToneError::InvalidParameter)
            } else if self.spec_total_samples() > u32::MAX {
                Err(ToneError::TooManySamples)
            } else {
                Ok(self.spec_total_samples() as u32)
            }),
    {
        if self.sample_rate == 0 || self.base_frequency == 0 {
            return Err(ToneError::InvalidParameter);
        }
        match self.sample_rate.checked_mul(self.duration_in_seconds) {
            Some(n) => Ok(n),
            None => Err(ToneError::TooManySamples),
        }
    }

    /// The phase of each of the `sample_rate * duration` samples of a sine of
    /// `frequency` hertz (see `phase_at`).
    pub fn generate_tone(&self, frequency: u64) -> (r: Vec<u32>)
        requires
            self.spec_total_samples() <= u32::MAX,
        ensures
            r@.len() == self.spec_total_samples(),
            r@ == phases(
                frequency as int,
                self.spec_sample_rate() as int,
                self.spec_total_samples() as nat,
            ),
    {
        let sample_rate = self.sample_rate;
        let total: u32 = self.sample_rate * self.duration_in_seconds;
        let mut out: Vec<u32> = Vec::new();
        if total == 0 {
            assert(out@ =~= phases(frequency as int, sample_rate as int, 0));
            return out;
        }
        assert(sample_rate > 0) by (nonlinear_arith)
            requires
                total == sample_rate * self.duration_in_seconds,
                total > 0,
        ;
        let step: u64 = frequency % (sample_rate as u64);
        let mut phase: u64 = 0;
        let mut s: u32 = 0;
        while s < total
            invariant
                s <= total,
                sample_rate > 0,
                total == self.spec_total_samples(),
                sample_rate == self.spec_sample_rate(),
                step == (frequency as int) % (sample_rate as int),
                phase == phase_at(frequency as int, sample_rate as int, s as int),
                phase < sample_rate,
                out@ == phases(frequency as int, sample_rate as int, s as nat),
            decreases total - s,
        {
            out.push(phase as u32);
            assert(out@ =~= phases(frequency as int, sample_rate as int, (s + 1) as nat));
            proof {
                let f = frequency as int;
                let m = sample_rate as int;
                lemma_add_mod_noop(f * s, f, m);
                assert(f * s + f == f * (s + 1)) by (nonlinear_arith);
            }
            phase = (phase + step) % (sample_rate as u64);
            s = s + 1;
        }
        out
    }

    /// The phases of both channels: the base frequency, then the base
    /// frequency raised by the offset.
    pub fn generate_tones(&self) -> (r: Vec<Vec<u32>>)
        requires
            self.spec_total_samples() <= u32::MAX,
        ensures
            r@.len() == 2,
            r@[0]@.len() == self.spec_total_samples(),
            r@[1]@.len() == self.spec_total_samples(),
            r@[0]@ == phases(
                self.spec_base_frequency() as int,
                self.spec_sample_rate() as int,
                self.spec_total_samples() as nat,
            ),
            r@[1]@ == phases(
                self.spec_base_frequency() + self.spec_diff_frequency(),
                self.spec_sample_rate() as int,
                self.spec_total_samples() as nat,
            ),
    {
        let left = self.generate_tone(self.base_frequency as u64);
        let right = self.generate_tone(self.base_frequency as u64 + self.diff_frequency as u64);
        vec![left, right]
    }

    pub fn sample_rate(&self) -> (r: u32)
        ensures
            r == self.spec_sample_rate(),
    {
        self.sample_rate
    }
}

} // verus!
