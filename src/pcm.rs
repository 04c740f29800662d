use vstd::prelude::*;

verus! {

/// The two bytes of `n` in little-endian order (low byte first).
pub open spec fn le16(n: int) -> Seq<u8> {
    seq![(n % 256) as u8, ((n / 256) % 256) as u8]
}

/// The four bytes of `n` in little-endian order (low byte first).
pub open spec fn le32(n: int) -> Seq<u8> {
    seq![
        (n % 256) as u8,
        ((n / 0x100) % 256) as u8,
        ((n / 0x1_0000) % 256) as u8,
        ((n / 0x100_0000) % 256) as u8,
    ]
}

/// The two's-complement bit pattern of a 16-bit sample, read as unsigned.
pub open spec fn pcm16_word(v: i16) -> int {
    if v < 0 {
        v + 0x1_0000
    } else {
        v as int
    }
}

/// The bytes a signed 16-bit PCM sample occupies in the data section.
pub open spec fn pcm16_bytes(v: i16) -> Seq<u8> {
    le16(pcm16_word(v))
}

/// `v` clamped to the signed 16-bit range.
pub open spec fn clamp16(v: int) -> int {
    if v > i16::MAX {
        i16::MAX as int
    } else if v < i16::MIN {
        i16::MIN as int
    } else {
        v
    }
}

/// Saturates an already-scaled amplitude into the signed 16-bit PCM range:
/// values above `32767` become `32767`, values below `-32768` become `-32768`.
pub fn clamp_to_pcm16(v: i64) -> (r: i16)
    ensures
        r as int == clamp16(v as int),
{
    if v > i16::MAX as i64 {
        i16::MAX
    } else if v < i16::MIN as i64 {
        i16::MIN
    } else {
        v as i16
    }
}

/// The unsigned 16-bit word holding the bit pattern of `v`.
pub(crate) fn pcm16_to_word(v: i16) -> (r: u16)
    ensures
        r as int == pcm16_word(v),
{
    let r = v as u16;
    assert(r as int == pcm16_word(v)) by (bit_vector)
        requires
            r == v as u16,
    ;
    r
}

} // verus!
