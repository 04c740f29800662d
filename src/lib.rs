//! Synthesis of a two-channel sine tone and its encoding as a canonical
//! 16-bit PCM RIFF/WAVE byte stream.

pub mod args;
pub mod pcm;
pub mod tone;
pub mod wav;

pub use args::BinauralArgs;
pub use pcm::clamp_to_pcm16;
pub use tone::{Tone, ToneError};
pub use wav::{
    Wav, WavHeader, WavMetadata, BITS_PER_SAMPLE, BYTES_PER_SAMPLE, HEADER_LEN,
};
