use vstd::prelude::*;

verus! {

/// The parameters of one run: what tone to make and where to put it.
pub struct BinauralArgs {
    /// The sample rate of the resulting audio file.
    pub sample_rate: u32,
    /// The base frequency to play on the left channel.
    pub base_freq: u32,
    /// The offset for the base frequency to play on the right channel.
    pub diff_freq: u32,
    /// The duration in seconds for the audio file.
    pub duration: u32,
    /// The location of the output file.
    pub output: String,
}

} // verus!
