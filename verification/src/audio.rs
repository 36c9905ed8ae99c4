//! 16-bit PCM WAV framing.

use vstd::prelude::*;

use crate::text::{decimal, owned, u64_to_string};

verus! {

/// Little-endian bytes of a 16-bit value.
pub open spec fn le16(x: u16) -> Seq<u8> {
    seq![(x % 256) as u8, (x / 256) as u8]
}

/// Little-endian bytes of a 32-bit value.
pub open spec fn le32(x: u32) -> Seq<u8> {
    seq![(x % 256) as u8, ((x / 256) % 256) as u8, ((x / 65536) % 256) as u8, (x / 16777216) as u8]
}

pub open spec fn riff_tag() -> Seq<u8> {
    seq![0x52u8, 0x49, 0x46, 0x46]
}

pub open spec fn wave_tag() -> Seq<u8> {
    seq![0x57u8, 0x41, 0x56, 0x45]
}

pub open spec fn fmt_tag() -> Seq<u8> {
    seq![0x66u8, 0x6d, 0x74, 0x20]
}

pub open spec fn data_tag() -> Seq<u8> {
    seq![0x64u8, 0x61, 0x74, 0x61]
}

pub open spec fn sat_u32(x: int) -> u32 {
    if x > u32::MAX {
        u32::MAX
    } else {
        x as u32
    }
}

/// The 44-byte header of a mono 16-bit PCM WAV file.
pub open spec fn wav_header_spec(sample_rate: u32, pcm_bytes: u32) -> Seq<u8> {
    riff_tag() + le32(sat_u32(36 + pcm_bytes)) + wave_tag() + fmt_tag() + le32(16) + le16(1)
        + le16(1) + le32(sample_rate) + le32(sat_u32(sample_rate * 2)) + le16(2) + le16(16)
        + data_tag() + le32(pcm_bytes)
}

fn push_le16(v: &mut Vec<u8>, x: u16)
    ensures
        final(v)@ == old(v)@ + le16(x),
{
    v.push((x % 256) as u8);
    v.push((x / 256) as u8);
    assert(final(v)@ =~= old(v)@ + le16(x));
}

fn push_le32(v: &mut Vec<u8>, x: u32)
    ensures
        final(v)@ == old(v)@ + le32(x),
{
    v.push((x % 256) as u8);
    v.push(((x / 256) % 256) as u8);
    v.push(((x / 65536) % 256) as u8);
    v.push((x / 16777216) as u8);
    assert(final(v)@ =~= old(v)@ + le32(x));
}

fn push4(v: &mut Vec<u8>, a: u8, b: u8, c: u8, d: u8)
    ensures
        final(v)@ == old(v)@ + seq![a, b, c, d],
{
    v.push(a);
    v.push(b);
    v.push(c);
    v.push(d);
    assert(final(v)@ =~= old(v)@ + seq![a, b, c, d]);
}

fn saturating_add_u32(a: u32, b: u32) -> (r: u32)
    ensures
        r == sat_u32(a + b),
{
    if a > u32::MAX - b {
        u32::MAX
    } else {
        a + b
    }
}

fn saturating_mul2_u32(a: u32) -> (r: u32)
    ensures
        r == sat_u32(a * 2),
{
    if a > u32::MAX / 2 {
        u32::MAX
    } else {
        a * 2
    }
}

/// The WAV header for `pcm_bytes` bytes of mono 16-bit PCM at `sample_rate`.
pub fn wav_header(sample_rate: u32, pcm_bytes: u32) -> (h: Vec<u8>)
    ensures
        h@ == wav_header_spec(sample_rate, pcm_bytes),
        h@.len() == 44,
{
    let mut h: Vec<u8> = Vec::new();
    push4(&mut h, 0x52, 0x49, 0x46, 0x46);
    push_le32(&mut h, saturating_add_u32(36, pcm_bytes));
    push4(&mut h, 0x57, 0x41, 0x56, 0x45);
    push4(&mut h, 0x66, 0x6d, 0x74, 0x20);
    push_le32(&mut h, 16);
    push_le16(&mut h, 1);
    push_le16(&mut h, 1);
    push_le32(&mut h, sample_rate);
    push_le32(&mut h, saturating_mul2_u32(sample_rate));
    push_le16(&mut h, 2);
    push_le16(&mut h, 16);
    push4(&mut h, 0x64, 0x61, 0x74, 0x61);
    push_le32(&mut h, pcm_bytes);
    h
}

/// Why `encode_wav_pcm16` refuses its input, if it does.
pub open spec fn encode_wav_error(sample_rate: u32, pcm: Seq<u8>) -> Option<Seq<char>> {
    if sample_rate == 0 {
        Some("采样率不能为 0"@)
    } else if pcm.len() == 0 || pcm.len() % 2 != 0 {
        Some("PCM_16 数据为空或字节数不是 2 的倍数"@)
    } else if pcm.len() > u32::MAX {
        Some("PCM 数据超过 WAV 4 GiB 上限"@)
    } else {
        None
    }
}

/// Wraps mono 16-bit little-endian PCM in a WAV container.
pub fn encode_wav_pcm16(sample_rate: u32, pcm: &[u8]) -> (r: Result<Vec<u8>, String>)
    ensures
        match encode_wav_error(sample_rate, pcm@) {
            Some(msg) => r matches Err(e) && e@ == msg,
            None => r matches Ok(w) && w@ == wav_header_spec(sample_rate, pcm@.len() as u32)
                + pcm@,
        },
{
    if sample_rate == 0 {
        return Err(owned("采样率不能为 0"));
    }
    if pcm.len() == 0 || pcm.len() % 2 != 0 {
        return Err(owned("PCM_16 数据为空或字节数不是 2 的倍数"));
    }
    if pcm.len() > u32::MAX as usize {
        return Err(owned("PCM 数据超过 WAV 4 GiB 上限"));
    }
    let pcm_len = pcm.len() as u32;
    let mut wav = wav_header(sample_rate, pcm_len);
    let mut i: usize = 0;
    while i < pcm.len()
        invariant
            i <= pcm.len(),
            wav@ == wav_header_spec(sample_rate, pcm_len) + pcm@.take(i as int),
        decreases pcm.len() - i,
    {
        wav.push(pcm[i]);
        assert(pcm@.take(i + 1) =~= pcm@.take(i as int).push(pcm@[i as int]));
        assert(wav@ =~= wav_header_spec(sample_rate, pcm_len) + pcm@.take(i + 1));
        i += 1;
    }
    assert(pcm@.take(pcm.len() as int) =~= pcm@);
    Ok(wav)
}

/// The 32-bit little-endian value stored at `data[at..at + 4]`.
pub open spec fn le32_at(data: Seq<u8>, at: int) -> nat {
    (data[at] + data[at + 1] * 256 + data[at + 2] * 65536 + data[at + 3] * 16777216) as nat
}

/// Offset of the payload of the first `data` chunk found by walking the
/// RIFF chunk list from byte 12 (chunks are padded to even offsets).
pub open spec fn wav_data_offset_from(data: Seq<u8>, pos: nat) -> Option<nat>
    decreases data.len() - pos,
{
    if pos + 8 <= data.len() {
        if data.subrange(pos as int, pos + 4int) == data_tag() {
            Some(pos + 8)
        } else {
            let next = pos + 8 + le32_at(data, pos + 4int);
            let next = if next % 2 != 0 {
                next + 1
            } else {
                next
            };
            if next + 8 <= data.len() {
                wav_data_offset_from(data, next)
            } else {
                None
            }
        }
    } else {
        None
    }
}

/// Offset of the PCM payload inside a WAV file, if it has a `data` chunk.
pub fn find_wav_data_chunk(data: &[u8]) -> (r: Option<usize>)
    ensures
        r == (match wav_data_offset_from(data@, 12) {
            Some(p) => Some(p as usize),
            None => None,
        }),
{
    let mut pos: usize = 12;
    while pos <= data.len() && 8 <= data.len() - pos
        invariant
            pos >= 12,
            wav_data_offset_from(data@, 12) == wav_data_offset_from(data@, pos as nat),
        decreases data.len() - pos,
    {
        if data[pos] == 0x64 && data[pos + 1] == 0x61 && data[pos + 2] == 0x74 && data[pos + 3]
            == 0x61 {
            assert(data@.subrange(pos as int, pos + 4) =~= data_tag());
            return Some(pos + 8);
        }
        assert(data@.subrange(pos as int, pos + 4) != data_tag()) by {
            if data@.subrange(pos as int, pos + 4) == data_tag() {
                assert(data@.subrange(pos as int, pos + 4)[0] == data@[pos as int]);
                assert(data@.subrange(pos as int, pos + 4)[1] == data@[pos + 1]);
                assert(data@.subrange(pos as int, pos + 4)[2] == data@[pos + 2]);
                assert(data@.subrange(pos as int, pos + 4)[3] == data@[pos + 3]);
            }
        }
        let size: u128 = data[pos + 4] as u128 + data[pos + 5] as u128 * 256 + data[pos + 6]
            as u128 * 65536 + data[pos + 7] as u128 * 16777216;
        let mut next: u128 = pos as u128 + 8 + size;
        if next % 2 != 0 {
            next = next + 1;
        }
        if next + 8 > data.len() as u128 {
            return None;
        }
        pos = next as usize;
    }
    None
}

/// What `encode_wav_pcm16` writes is read back by `find_wav_data_chunk`: the
/// `data` chunk's payload starts right after the 44-byte header and is
/// exactly the PCM that was encoded.
pub proof fn law_encoded_wav_data_follows_header(sample_rate: u32, pcm: Seq<u8>)
    requires
        encode_wav_error(sample_rate, pcm) is None,
    ensures
        wav_data_offset_from(wav_header_spec(sample_rate, pcm.len() as u32) + pcm, 12)
            == Some(44nat),
        (wav_header_spec(sample_rate, pcm.len() as u32) + pcm).skip(44) == pcm,
{
    let h = wav_header_spec(sample_rate, pcm.len() as u32);
    let w = h + pcm;
    assert(h.len() == 44);
    assert(w.subrange(12, 16) =~= fmt_tag());
    assert(w.subrange(12, 16) != data_tag()) by {
        assert(w.subrange(12, 16)[0] != data_tag()[0]);
    }
    assert(w[16] == 16 && w[17] == 0 && w[18] == 0 && w[19] == 0);
    assert(le32_at(w, 16) == 16);
    assert(w.subrange(36, 40) =~= data_tag());
    assert(wav_data_offset_from(w, 36) == Some(44nat));
    assert(w.skip(44) =~= pcm);
}

/// A WAV file of `num_samples` samples of silence: mono 16-bit PCM at
/// 16 kHz.
pub fn silence_wav(num_samples: u32) -> (r: Vec<u8>)
    requires
        36 + 2 * num_samples <= u32::MAX,
    ensures
        r@ == wav_header_spec(16000, (2 * num_samples) as u32) + Seq::new((2 * num_samples) as nat, |i: int| 0u8),
{
    let data_size: u32 = num_samples * 2;
    let mut buf = wav_header(16000, data_size);
    let ghost h = buf@;
    let mut i: u32 = 0;
    while i < data_size
        invariant
            i <= data_size,
            data_size == 2 * num_samples,
            buf@ == h + Seq::new(i as nat, |j: int| 0u8),
        decreases data_size - i,
    {
        buf.push(0u8);
        assert(buf@ =~= h + Seq::new((i + 1) as nat, |j: int| 0u8));
        i += 1;
    }
    buf
}

/// What a streamed WAV has received so far: the sample rate of its first
/// chunk and the PCM bytes written. The file itself is written by the
/// caller; this keeps the rules a stream follows.
#[derive(Debug, Clone, Copy, PartialEq, Eq)]
pub struct PcmStream {
    pub sample_rate: Option<u32>,
    pub pcm_bytes: u64,
}

/// Why a chunk is refused before it is written, if it is.
pub open spec fn chunk_error(s: PcmStream, sample_rate: u32, chunk_len: nat) -> Option<Seq<char>> {
    if sample_rate == 0 {
        Some("流式 PCM 采样率不能为 0"@)
    } else if chunk_len == 0 || chunk_len % 2 != 0 {
        Some("流式 PCM 分块为空或长度无效"@)
    } else {
        match s.sample_rate {
            Some(current) => if current != sample_rate {
                Some("流式 PCM 采样率发生变化: "@ + decimal(current as nat) + " -> "@ + decimal(
                    sample_rate as nat,
                ))
            } else {
                None
            },
            None => None,
        }
    }
}

impl PcmStream {
    /// A stream that has received nothing.
    pub fn new() -> (r: Self)
        ensures
            r.sample_rate is None,
            r.pcm_bytes == 0,
    {
        PcmStream { sample_rate: None, pcm_bytes: 0 }
    }

    /// Checks a chunk before it is written: the rate must be positive, the
    /// chunk non-empty and of whole samples, and the rate that of the first
    /// chunk; the first chunk fixes the rate.
    pub fn check_chunk(&mut self, sample_rate: u32, chunk_len: usize) -> (r: Result<(), String>)
        ensures
            match chunk_error(*old(self), sample_rate, chunk_len as nat) {
                Some(msg) => r matches Err(e) && e@ == msg && *final(self) == *old(self),
                None => r is Ok && final(self).sample_rate == Some(sample_rate) && final(self).pcm_bytes
                    == old(self).pcm_bytes,
            },
    {
        if sample_rate == 0 {
            return Err(owned("流式 PCM 采样率不能为 0"));
        }
        if chunk_len == 0 || chunk_len % 2 != 0 {
            return Err(owned("流式 PCM 分块为空或长度无效"));
        }
        match self.sample_rate {
            Some(current) => {
                if current != sample_rate {
                    let mut m = owned("流式 PCM 采样率发生变化: ");
                    let a = u64_to_string(current as u64);
                    m.append(a.as_str());
                    m.append(" -> ");
                    let b = u64_to_string(sample_rate as u64);
                    m.append(b.as_str());
                    return Err(m);
                }
            },
            None => {
                self.sample_rate = Some(sample_rate);
            },
        }
        Ok(())
    }

    /// Counts a written chunk, refusing a total past the 64-bit range.
    pub fn count_bytes(&mut self, chunk_len: usize) -> (r: Result<(), String>)
        ensures
            old(self).pcm_bytes + chunk_len <= u64::MAX ==> r is Ok && final(self).pcm_bytes
                == old(self).pcm_bytes + chunk_len && final(self).sample_rate == old(self).sample_rate,
            old(self).pcm_bytes + chunk_len > u64::MAX ==> (r matches Err(e) && e@ == "WAV 长度溢出"@)
                && *final(self) == *old(self),
    {
        let len = chunk_len as u64;
        if self.pcm_bytes > u64::MAX - len {
            return Err(owned("WAV 长度溢出"));
        }
        self.pcm_bytes = self.pcm_bytes + len;
        Ok(())
    }

    /// The header the finished file gets: for the stream's rate and all
    /// bytes counted. Errors when nothing was received, or when the data
    /// passes the 4 GiB a WAV header can state.
    pub fn final_header(&self) -> (r: Result<Vec<u8>, String>)
        ensures
            self.sample_rate is None ==> (r matches Err(e) && e@ == "没有收到任何 PCM 分块"@),
            self.sample_rate is Some && self.pcm_bytes > u32::MAX ==> (r matches Err(e) && e@
                == "PCM 数据超过 WAV 4 GiB 上限"@),
            self.sample_rate is Some && self.pcm_bytes <= u32::MAX ==> (r matches Ok(h) && h@
                == wav_header_spec(self.sample_rate.unwrap(), self.pcm_bytes as u32)),
    {
        let sample_rate = match self.sample_rate {
            Some(r) => r,
            None => return Err(owned("没有收到任何 PCM 分块")),
        };
        if self.pcm_bytes > u32::MAX as u64 {
            return Err(owned("PCM 数据超过 WAV 4 GiB 上限"));
        }
        Ok(wav_header(sample_rate, self.pcm_bytes as u32))
    }
}

/// A stream fed chunks of one rate, each checked and counted, ends with the
/// header of one file holding all of them: the rate of the chunks and their
/// summed length.
pub proof fn law_stream_header_counts_every_chunk(rate: u32, lens: Seq<nat>)
    requires
        rate > 0,
        lens.len() > 0,
        forall|i: int| 0 <= i < lens.len() ==> #[trigger] lens[i] > 0 && lens[i] % 2 == 0,
        stream_total(lens) <= u32::MAX,
    ensures
        stream_after(rate, lens) == Some((PcmStream { sample_rate: Some(rate), pcm_bytes: stream_total(lens) as u64 })),
    decreases lens.len(),
{
    if lens.len() > 1 {
        let d = lens.drop_last();
        assert forall|i: int| 0 <= i < d.len() implies #[trigger] d[i] > 0 && d[i] % 2 == 0 by {
            assert(d[i] == lens[i]);
        }
        lemma_stream_total_prefix(lens);
        law_stream_header_counts_every_chunk(rate, d);
        assert(lens.last() == lens[lens.len() - 1]);
        let prev = stream_after(rate, d).unwrap();
        assert(prev.pcm_bytes == stream_total(d));
        assert(chunk_error(prev, rate, lens.last()) is None);
        assert(prev.pcm_bytes + lens.last() == stream_total(lens));
        assert(prev.sample_rate == Some(rate));
    } else {
        assert(lens.drop_last() =~= Seq::<nat>::empty());
        assert(lens.last() == lens[0]);
        assert(stream_total(lens.drop_last()) == 0);
        assert(stream_total(lens) == lens[0]);
        assert(chunk_error(PcmStream { sample_rate: None, pcm_bytes: 0 }, rate, lens.last()) is None);
        assert(stream_after(rate, lens.drop_last()) == Some(PcmStream { sample_rate: None, pcm_bytes: 0 }));
    }
}

/// The summed length of the chunks.
pub open spec fn stream_total(lens: Seq<nat>) -> nat
    decreases lens.len(),
{
    if lens.len() == 0 {
        0
    } else {
        stream_total(lens.drop_last()) + lens.last()
    }
}

pub proof fn lemma_stream_total_prefix(lens: Seq<nat>)
    requires
        lens.len() > 0,
    ensures
        stream_total(lens.drop_last()) <= stream_total(lens),
{
}

/// The stream after each chunk in turn is checked and counted at `rate`,
/// as the contracts of [`PcmStream::check_chunk`] and
/// [`PcmStream::count_bytes`] give it; `None` once a step is refused.
pub open spec fn stream_after(rate: u32, lens: Seq<nat>) -> Option<PcmStream>
    decreases lens.len(),
{
    if lens.len() == 0 {
        Some(PcmStream { sample_rate: None, pcm_bytes: 0 })
    } else {
        match stream_after(rate, lens.drop_last()) {
            Some(s) => if chunk_error(s, rate, lens.last()) is None && s.pcm_bytes + lens.last()
                <= u64::MAX {
                Some(PcmStream { sample_rate: Some(rate), pcm_bytes: (s.pcm_bytes + lens.last()) as u64 })
            } else {
                None
            },
            None => None,
        }
    }
}

} // verus!
