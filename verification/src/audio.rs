//! The audio artifact format: a fixed-size container header followed by
//! little-endian signed 16-bit mono samples.  An artifact whose size does not
//! exceed the header holds no samples and counts as empty.

use vstd::prelude::*;

verus! {

/// Size of the fixed audio container header, in bytes.
pub const WAV_HEADER_LEN: u64 = 44;

/// An artifact with no content beyond the header counts as empty.
pub open spec fn artifact_empty(len: u64) -> bool {
    len <= WAV_HEADER_LEN
}

pub fn artifact_is_empty(len: u64) -> (r: bool)
    ensures
        r == artifact_empty(len),
{
    len <= WAV_HEADER_LEN
}

/// The value of a little-endian signed 16-bit sample with bytes `lo`, `hi`.
pub open spec fn sample_val(lo: u8, hi: u8) -> int {
    let u = lo + 256 * (hi as int);
    if u < 32768 {
        u
    } else {
        u - 65536
    }
}

/// The samples encoded after the header of `data`; a trailing odd byte is
/// ignored.
pub open spec fn pcm_samples(data: Seq<u8>) -> Seq<int>
    recommends
        data.len() >= 44,
{
    Seq::new(
        ((data.len() - 44) / 2) as nat,
        |i: int| sample_val(data[44 + 2 * i], data[45 + 2 * i]),
    )
}

#[derive(Clone, Copy, Debug, PartialEq, Eq, Structural)]
pub enum AudioError {
    /// The data does not even hold a full container header.
    TooShort,
}

/// Extracts the signed 16-bit little-endian mono samples that follow the
/// container header.  Fails exactly when the data is shorter than the header;
/// a header-only artifact yields no samples.
pub fn wav_to_pcm16(data: &[u8]) -> (r: Result<Vec<i16>, AudioError>)
    ensures
        match r {
            Ok(v) => {
                &&& data@.len() >= 44
                &&& v@.len() == (data@.len() - 44) / 2
                &&& forall|i: int| 0 <= i < v@.len() ==> v@[i] as int == pcm_samples(data@)[i]
            },
            Err(e) => e == AudioError::TooShort && data@.len() < 44,
        },
{
    let n = data.len();
    if n < 44 {
        return Err(AudioError::TooShort);
    }
    let count = (n - 44) / 2;
    let mut out: Vec<i16> = Vec::new();
    let mut i: usize = 0;
    while i < count
        invariant
            0 <= i <= count,
            n == data@.len(),
            n >= 44,
            count == (n - 44) / 2,
            out@.len() == i,
            forall|k: int|
                0 <= k < i ==> out@[k] as int == sample_val(
                    data@[44 + 2 * k],
                    data@[45 + 2 * k],
                ),
        decreases count - i,
    {
        let lo = data[44 + 2 * i];
        let hi = data[45 + 2 * i];
        let lo_i: i32 = lo as i32;
        let hi_i: i32 = hi as i32;
        let v32: i32 = if hi >= 128 {
            lo_i + 256 * hi_i - 65536
        } else {
            lo_i + 256 * hi_i
        };
        let s: i16 = v32 as i16;
        out.push(s);
        i = i + 1;
    }
    Ok(out)
}

} // verus!
