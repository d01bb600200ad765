//! Building a mono 16-bit PCM WAV file from raw samples.
use vstd::prelude::*;

verus! {

/// A 16-bit value as its two little-endian bytes; a negative sample is
/// encoded in two's complement.
pub open spec fn le16(v: int) -> Seq<u8> {
    let u = if v >= 0 {
        v
    } else {
        v + 0x10000
    };
    seq![(u % 256) as u8, (u / 256 % 256) as u8]
}

/// A 32-bit value as its four little-endian bytes.
pub open spec fn le32(v: int) -> Seq<u8> {
    seq![
        (v % 256) as u8,
        (v / 256 % 256) as u8,
        (v / 0x10000 % 256) as u8,
        (v / 0x1000000 % 256) as u8,
    ]
}

/// All samples in order, each as two little-endian bytes.
pub open spec fn data_bytes(samples: Seq<i16>) -> Seq<u8>
    decreases samples.len(),
{
    if samples.len() == 0 {
        Seq::empty()
    } else {
        data_bytes(samples.drop_last()) + le16(samples.last() as int)
    }
}

/// The complete file: a RIFF header, a 16-byte PCM `fmt ` chunk for one
/// channel of 16-bit samples, and the `data` chunk.
pub open spec fn wav_bytes(samples: Seq<i16>, sample_rate: u32) -> Seq<u8> {
    let data_size = 2 * samples.len() as int;
    seq![82u8, 73u8, 70u8, 70u8]  // "RIFF"
     + le32(36 + data_size) + seq![87u8, 65u8, 86u8, 69u8]  // "WAVE"
     + seq![102u8, 109u8, 116u8, 32u8]  // "fmt "
     + le32(16) + le16(1) + le16(1) + le32(sample_rate as int) + le32(
        2 * sample_rate as int,
    ) + le16(2) + le16(16) + seq![100u8, 97u8, 116u8, 97u8]  // "data"
     + le32(data_size) + data_bytes(samples)
}

/// Append the two little-endian bytes of a 16-bit value.
fn push_u16_le(out: &mut Vec<u8>, v: u16)
    ensures
        final(out)@ == old(out)@ + le16(v as int),
{
    out.push((v % 256) as u8);
    out.push((v / 256) as u8);
    proof {
        assert(out@ =~= old(out)@ + le16(v as int));
    }
}

/// Append the four little-endian bytes of a 32-bit value.
fn push_u32_le(out: &mut Vec<u8>, v: u32)
    ensures
        final(out)@ == old(out)@ + le32(v as int),
{
    out.push((v % 256) as u8);
    out.push((v / 256 % 256) as u8);
    out.push((v / 0x10000 % 256) as u8);
    out.push((v / 0x1000000 % 256) as u8);
    proof {
        assert(out@ =~= old(out)@ + le32(v as int));
    }
}

/// Append one sample's two little-endian bytes, two's complement for
/// negative values.
fn push_i16_le(out: &mut Vec<u8>, s: i16)
    ensures
        final(out)@ == old(out)@ + le16(s as int),
{
    let u: u16 = if s >= 0 {
        s as u16
    } else {
        ((s as i32) + 0x10000) as u16
    };
    push_u16_le(out, u);
}

/// Generates the procedural sound effects' containers.
pub struct WavGenerator;

impl WavGenerator {
    /// Wrap raw mono 16-bit samples into a complete WAV file.
    pub fn create_wav_from_samples(samples: &[i16], sample_rate: u32) -> (wav: Vec<u8>)
        requires
            2 * samples@.len() + 36 <= u32::MAX,
            sample_rate <= 0x7fff_ffff,
        ensures
            wav@ == wav_bytes(samples@, sample_rate),
    {
        let mut wav: Vec<u8> = Vec::new();
        let data_size: u32 = (samples.len() * 2) as u32;
        let file_size: u32 = 36 + data_size;

        wav.push(82);
        wav.push(73);
        wav.push(70);
        wav.push(70);
        push_u32_le(&mut wav, file_size);
        wav.push(87);
        wav.push(65);
        wav.push(86);
        wav.push(69);

        wav.push(102);
        wav.push(109);
        wav.push(116);
        wav.push(32);
        push_u32_le(&mut wav, 16);
        push_u16_le(&mut wav, 1);
        push_u16_le(&mut wav, 1);
        push_u32_le(&mut wav, sample_rate);
        push_u32_le(&mut wav, sample_rate * 2);
        push_u16_le(&mut wav, 2);
        push_u16_le(&mut wav, 16);

        wav.push(100);
        wav.push(97);
        wav.push(116);
        wav.push(97);
        push_u32_le(&mut wav, data_size);
        let ghost header = wav@;
        let n: usize = samples.len();
        let mut i: usize = 0;
        while i < n
            invariant
                i <= n,
                n == samples@.len(),
                wav@ == header + data_bytes(samples@.take(i as int)),
            decreases n - i,
        {
            push_i16_le(&mut wav, samples[i]);
            proof {
                assert(samples@.take(i + 1).drop_last() =~= samples@.take(i as int));
                assert(samples@.take(i + 1).last() == samples@[i as int]);
                assert(wav@ =~= header + data_bytes(samples@.take(i + 1)));
            }
            i = i + 1;
        }
        proof {
            assert(samples@.take(n as int) =~= samples@);
            assert(wav@ =~= wav_bytes(samples@, sample_rate));
        }
        wav
    }
}

} // verus!
