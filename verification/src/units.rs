//! Timestamped media units and the conversions that produce them.
//!
//! A decode pipeline hands its consumer one unit at a time: a video unit is a
//! decoded RGBA pixel buffer with its presentation timestamp, an audio block
//! is a run of interleaved sample words with its timestamp and format. Sample
//! words carry the 32-bit little-endian bit pattern of one output sample, so
//! the engine can move them without doing floating-point work.

use vstd::assert_seqs_equal;
use vstd::prelude::*;

verus! {

/// Microseconds in one second: raw stream timestamps are converted once into
/// whole microseconds of playback time.
pub const MICROS_PER_SECOND: u64 = 1_000_000;

/// One decoded video frame: an RGBA pixel buffer and its presentation
/// timestamp in microseconds.
pub struct VideoUnit {
    pub data: Vec<u8>,
    pub pts_us: i64,
}

/// One resampled audio block: interleaved 32-bit sample words, the
/// presentation timestamp of the first sample, and the format the block was
/// resampled to.
pub struct AudioBlock {
    pub samples: Vec<u32>,
    pub pts_us: i64,
    pub sample_rate: u32,
    pub channels: u16,
}

/// The output device's native format, queried once at session start and
/// threaded explicitly into the audio pipeline and feeder.
#[derive(Clone, Copy, PartialEq, Eq, Structural, Debug)]
pub struct AudioParams {
    pub sample_rate: u32,
    pub channels: u16,
}

/// The playback time, in microseconds, of a raw stream timestamp `pts`
/// counted in units of the time base `num / den` seconds.
pub open spec fn spec_pts_micros(pts: int, num: int, den: int) -> int {
    pts * num * (MICROS_PER_SECOND as int) / den
}

/// A raw stream timestamp converted once into microseconds: `pts` counts in
/// units of the stream's time base `tb_num / tb_den` seconds.
pub fn pts_to_micros(pts: i64, tb_num: i32, tb_den: i32) -> (us: i64)
    requires
        pts >= 0,
        tb_num >= 0,
        tb_den > 0,
        spec_pts_micros(pts as int, tb_num as int, tb_den as int) <= i64::MAX,
    ensures
        us == spec_pts_micros(pts as int, tb_num as int, tb_den as int),
        us >= 0,
{
    let a: u128 = pts as u128;
    let b: u128 = tb_num as u128;
    proof {
        assert(a * b * (MICROS_PER_SECOND as int) < u128::MAX) by (nonlinear_arith)
            requires
                a <= i64::MAX,
                b <= i32::MAX,
        ;
    }
    let wide: u128 = a * b * (MICROS_PER_SECOND as u128);
    proof {
        assert(wide == pts as int * tb_num as int * (MICROS_PER_SECOND as int))
            by (nonlinear_arith)
            requires
                pts >= 0,
                tb_num >= 0,
                a == pts as u128,
                b == tb_num as u128,
                wide == a * b * (MICROS_PER_SECOND as u128),
        ;
    }
    let q: u128 = wide / (tb_den as u128);
    proof {
        assert(q == spec_pts_micros(pts as int, tb_num as int, tb_den as int))
            by (nonlinear_arith)
            requires
                tb_den > 0,
                wide == pts as int * tb_num as int * (MICROS_PER_SECOND as int),
                q == wide / (tb_den as u128),
        ;
    }
    q as i64
}

/// The sample words held by a packed byte buffer: each consecutive run of
/// four bytes is one little-endian 32-bit word; a trailing remainder shorter
/// than a word is ignored.
pub open spec fn spec_sample_words(bytes: Seq<u8>) -> Seq<u32> {
    Seq::new(bytes.len() / 4, |i: int| vstd::bytes::spec_u32_from_le_bytes(
        bytes.subrange(4 * i, 4 * i + 4),
    ))
}

/// Unpacks a resampled byte buffer into 32-bit sample words.
pub fn sample_words_from_bytes(bytes: &[u8]) -> (words: Vec<u32>)
    ensures
        words@ == spec_sample_words(bytes@),
{
    let len: usize = bytes.len();
    let n: usize = len / 4;
    let mut words: Vec<u32> = Vec::new();
    let mut i: usize = 0;
    while i < n
        invariant
            len == bytes@.len(),
            n == len / 4,
            i <= n,
            words@ == spec_sample_words(bytes@).take(i as int),
        decreases n - i,
    {
        proof {
            assert(4 * i + 4 <= len);
        }
        let w = vstd::bytes::u32_from_le_bytes(vstd::slice::slice_subrange(bytes, 4 * i, 4 * i + 4));
        words.push(w);
        proof {
            assert(words@ == spec_sample_words(bytes@).take(i + 1)) by {
                assert_seqs_equal!(words@ == spec_sample_words(bytes@).take(i + 1));
            }
        }
        i = i + 1;
    }
    proof {
        assert(spec_sample_words(bytes@).take(n as int) == spec_sample_words(bytes@)) by {
            assert_seqs_equal!(spec_sample_words(bytes@).take(n as int) == spec_sample_words(bytes@));
        }
    }
    words
}

} // verus!
