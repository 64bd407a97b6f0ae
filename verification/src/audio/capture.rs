//! Microphone capture state and the 16 kHz / 16-bit / mono PCM WAV format
//! the recordings are stored in.
//!
//! The last recorded WAV is held in a [`RecordingSlot`] so that a later
//! scoring step can persist it (when the user consented) or discard it.

use vstd::prelude::*;

verus! {

// ─── Last recording ─────────────────────────────────────────────────────────

/// Holds the most recent recording until it is persisted or discarded.
pub struct RecordingSlot {
    wav: Option<Vec<u8>>,
}

impl View for RecordingSlot {
    type V = Option<Seq<u8>>;

    closed spec fn view(&self) -> Option<Seq<u8>> {
        match self.wav {
            Some(w) => Some(w@),
            None => None,
        }
    }
}

/// The slot after a recording `w` is stored.
pub open spec fn slot_after_set(w: Seq<u8>) -> Option<Seq<u8>> {
    Some(w)
}

/// What a take hands out, and the slot it leaves: the content, and an empty
/// slot.
pub open spec fn take_outcome(slot: Option<Seq<u8>>) -> (Option<Seq<u8>>, Option<Seq<u8>>) {
    (slot, None)
}

impl RecordingSlot {
    /// An empty slot.
    pub fn new() -> (s: RecordingSlot)
        ensures
            s@ is None,
    {
        RecordingSlot { wav: None }
    }
}

/// Stores `wav` as the last recording, replacing any previous one.
pub fn set_last_recorded_wav(slot: &mut RecordingSlot, wav: Vec<u8>)
    ensures
        final(slot)@ == slot_after_set(wav@),
{
    slot.wav = Some(wav);
}

/// Hands out the last recording, if any, and empties the slot.
pub fn take_last_recorded_wav(slot: &mut RecordingSlot) -> (r: Option<Vec<u8>>)
    ensures
        (match r {
            Some(w) => Some(w@),
            None => None,
        }) == take_outcome(old(slot)@).0,
        final(slot)@ == take_outcome(old(slot)@).1,
{
    let r = slot.wav.take();
    r
}

/// Discards the last recording.
pub fn clear_last_recorded_wav(slot: &mut RecordingSlot)
    ensures
        final(slot)@ is None,
{
    slot.wav = None;
}

/// A take returns exactly the recording that the last set stored, and leaves
/// nothing behind for a second take; after a clear, a take returns nothing.
pub proof fn lemma_take_returns_last_set(before: Option<Seq<u8>>, w: Seq<u8>)
    ensures
        take_outcome(slot_after_set(w)).0 == Some(w),
        take_outcome(take_outcome(before).1).0 is None,
        take_outcome(None).0 is None,
{
}

// ─── WAV format ─────────────────────────────────────────────────────────────

/// Two little-endian bytes of `v` (taken modulo 2^16).
pub open spec fn le16(v: nat) -> Seq<u8> {
    seq![(v % 256) as u8, ((v / 256) % 256) as u8]
}

/// Four little-endian bytes of `v` (taken modulo 2^32).
pub open spec fn le32(v: nat) -> Seq<u8> {
    seq![
        (v % 256) as u8,
        ((v / 256) % 256) as u8,
        ((v / 65536) % 256) as u8,
        ((v / 16777216) % 256) as u8,
    ]
}

/// ASCII `RIFF`.
pub open spec fn tag_riff() -> Seq<u8> {
    seq![0x52u8, 0x49u8, 0x46u8, 0x46u8]
}

/// ASCII `WAVE`.
pub open spec fn tag_wave() -> Seq<u8> {
    seq![0x57u8, 0x41u8, 0x56u8, 0x45u8]
}

/// ASCII `fmt `.
pub open spec fn tag_fmt() -> Seq<u8> {
    seq![0x66u8, 0x6du8, 0x74u8, 0x20u8]
}

/// ASCII `data`.
pub open spec fn tag_data() -> Seq<u8> {
    seq![0x64u8, 0x61u8, 0x74u8, 0x61u8]
}

/// The 44-byte header of a 16 kHz, 16-bit, mono PCM WAV file whose data
/// chunk holds `data_len` bytes; the size fields wrap modulo 2^32 as a `u32`
/// does.
pub open spec fn wav_header(data_len: nat) -> Seq<u8> {
    tag_riff() + le32(((36 + data_len) % 4294967296) as nat) + tag_wave() + tag_fmt() + le32(16)
        + le16(1) + le16(1) + le32(16000) + le32(32000) + le16(2) + le16(16) + tag_data()
        + le32((data_len % 4294967296) as nat)
}

/// The unsigned 16-bit pattern of a sample (two's complement).
pub open spec fn u16_bits(s: i16) -> nat {
    if s < 0 {
        (s + 65536) as nat
    } else {
        s as nat
    }
}

/// The sample whose little-endian bytes are `lo`, `hi`.
pub open spec fn sample_from_le(lo: u8, hi: u8) -> i16 {
    let u = lo + 256 * hi;
    if u >= 32768 {
        (u - 65536) as i16
    } else {
        u as i16
    }
}

/// Little-endian PCM bytes of a run of samples.
pub open spec fn pcm_bytes(s: Seq<i16>) -> Seq<u8> {
    Seq::new(2 * s.len(), |j: int| le16(u16_bits(s[j / 2]))[j % 2])
}

/// Samples held by little-endian PCM bytes; an odd trailing byte is ignored.
pub open spec fn pcm_samples(b: Seq<u8>) -> Seq<i16> {
    Seq::new(b.len() / 2, |k: int| sample_from_le(b[2 * k], b[2 * k + 1]))
}

/// A complete in-memory WAV file for `s`: header, then the PCM data.
pub open spec fn wav_bytes(s: Seq<i16>) -> Seq<u8> {
    wav_header(2 * s.len()) + pcm_bytes(s)
}

/// The little-endian `u32` at `d[i..i + 4]`.
pub open spec fn le32_at(d: Seq<u8>, i: int) -> nat {
    (d[i] + 256 * d[i + 1] + 65536 * d[i + 2] + 16777216 * d[i + 3]) as nat
}

/// Start of the payload of the first `data` chunk at or after `off`,
/// skipping other chunks by their declared size.
pub open spec fn data_chunk_start(d: Seq<u8>, off: int) -> Option<int>
    decreases (if off < d.len() { d.len() - off } else { 0 }),
{
    if off < 0 || off + 8 > d.len() {
        None
    } else if d.subrange(off, off + 4) == tag_data() {
        Some(off + 8)
    } else {
        data_chunk_start(d, off + 8 + le32_at(d, off + 4))
    }
}

/// The samples of a 16-bit PCM WAV file: `None` unless it is at least 44
/// bytes long, starts with `RIFF`, carries `WAVE` at bytes 8..12 and has a
/// `data` chunk reachable from byte 12.
pub open spec fn parse_wav(d: Seq<u8>) -> Option<Seq<i16>> {
    if d.len() < 44 || d.subrange(0, 4) != tag_riff() || d.subrange(8, 12) != tag_wave() {
        None
    } else {
        match data_chunk_start(d, 12) {
            None => None,
            Some(start) => Some(pcm_samples(d.subrange(start, d.len() as int))),
        }
    }
}

/// Helper to create a 44-byte WAV header for 16kHz, 16-bit, mono PCM.
pub fn create_wav_header(data_len: usize) -> (header: [u8; 44])
    requires
        data_len + 36 <= usize::MAX,
    ensures
        header@ == wav_header(data_len as nat),
{
    let total: u64 = 36 + data_len as u64;
    let f: u32 = (total % 4294967296) as u32;
    let d: u32 = ((data_len as u64) % 4294967296) as u32;
    let header: [u8; 44] = [
        0x52, 0x49, 0x46, 0x46,
        (f % 256) as u8, ((f / 256) % 256) as u8, ((f / 65536) % 256) as u8, ((f / 16777216) % 256) as u8,
        0x57, 0x41, 0x56, 0x45,
        0x66, 0x6d, 0x74, 0x20,
        16, 0, 0, 0,
        1, 0,
        1, 0,
        0x80, 0x3e, 0, 0,
        0x00, 0x7d, 0, 0,
        2, 0,
        16, 0,
        0x64, 0x61, 0x74, 0x61,
        (d % 256) as u8, ((d / 256) % 256) as u8, ((d / 65536) % 256) as u8, ((d / 16777216) % 256) as u8,
    ];
    assert(header@ =~= wav_header(data_len as nat));
    header
}

/// The two little-endian bytes of a sample.
fn sample_le_bytes(s: i16) -> (r: (u8, u8))
    ensures
        r.0 == le16(u16_bits(s))[0],
        r.1 == le16(u16_bits(s))[1],
{
    let u: u32 = if s < 0 { (s as i32 + 65536) as u32 } else { s as u32 };
    ((u % 256) as u8, ((u / 256) % 256) as u8)
}

/// Formats 16-bit samples as an in-memory 16 kHz mono WAV file: the 44-byte
/// header followed by the little-endian samples.
pub fn encode_wav(samples: &[i16]) -> (r: Vec<u8>)
    requires
        2 * samples@.len() + 44 <= usize::MAX,
    ensures
        r@ == wav_bytes(samples@),
{
    let n = samples.len();
    let header = create_wav_header(2 * n);
    let mut r: Vec<u8> = Vec::new();
    let mut k: usize = 0;
    while k < 44
        invariant
            k <= 44,
            header@ == wav_header(2 * n as nat),
            r@ == header@.take(k as int),
        decreases 44 - k,
    {
        r.push(header[k]);
        k += 1;
        assert(r@ =~= header@.take(k as int));
    }
    assert(header@.take(44) =~= header@);
    let mut i: usize = 0;
    while i < n
        invariant
            i <= n,
            n == samples@.len(),
            2 * n + 44 <= usize::MAX,
            r@ == wav_header(2 * n as nat) + pcm_bytes(samples@).take(2 * i),
        decreases n - i,
    {
        let (lo, hi) = sample_le_bytes(samples[i]);
        r.push(lo);
        r.push(hi);
        i += 1;
        assert(pcm_bytes(samples@).take(2 * i) =~= pcm_bytes(samples@).take(2 * (i - 1)).push(lo).push(hi));
    }
    assert(pcm_bytes(samples@).take(2 * n) =~= pcm_bytes(samples@));
    r
}

/// Whether `d[i..i + 4]` equals the four given bytes.
fn tag_at(d: &[u8], i: usize, t0: u8, t1: u8, t2: u8, t3: u8) -> (r: bool)
    requires
        i + 4 <= d@.len(),
    ensures
        r == (d@.subrange(i as int, i + 4) == seq![t0, t1, t2, t3]),
{
    let r = d[i] == t0 && d[i + 1] == t1 && d[i + 2] == t2 && d[i + 3] == t3;
    if r {
        assert(d@.subrange(i as int, i + 4) =~= seq![t0, t1, t2, t3]);
    } else {
        proof {
            if d@.subrange(i as int, i + 4) == seq![t0, t1, t2, t3] {
                assert(d@.subrange(i as int, i + 4)[0] == t0);
                assert(d@.subrange(i as int, i + 4)[1] == t1);
                assert(d@.subrange(i as int, i + 4)[2] == t2);
                assert(d@.subrange(i as int, i + 4)[3] == t3);
            }
        }
    }
    r
}

/// Parses a 16-bit PCM WAV file into its samples: checks the `RIFF`/`WAVE`
/// header, skips chunks until the `data` chunk, and reads the rest of the
/// file as little-endian samples. Returns `None` for anything else.
pub fn parse_pcm16_wav(data: &[u8]) -> (r: Option<Vec<i16>>)
    ensures
        (match r {
            Some(v) => Some(v@),
            None => None,
        }) == parse_wav(data@),
{
    let len = data.len();
    if len < 44 {
        return None;
    }
    if !tag_at(data, 0, 0x52, 0x49, 0x46, 0x46) || !tag_at(data, 8, 0x57, 0x41, 0x56, 0x45) {
        return None;
    }
    let mut offset: usize = 12;
    loop
        invariant
            len == data@.len(),
            len >= 44,
            offset <= len,
            data_chunk_start(data@, 12) == data_chunk_start(data@, offset as int),
        ensures
            offset + 8 <= len,
            data@.subrange(offset as int, offset + 4) == tag_data(),
            data_chunk_start(data@, 12) == data_chunk_start(data@, offset as int),
        decreases len - offset,
    {
        if offset > len - 8 {
            return None;
        }
        if tag_at(data, offset, 0x64, 0x61, 0x74, 0x61) {
            break;
        }
        let size: u64 = data[offset + 4] as u64 + 256 * (data[offset + 5] as u64)
            + 65536 * (data[offset + 6] as u64) + 16777216 * (data[offset + 7] as u64);
        assert(size == le32_at(data@, offset + 4));
        if size > (len - offset - 8) as u64 {
            assert(data_chunk_start(data@, offset + 8 + size) is None);
            return None;
        }
        offset = offset + 8 + size as usize;
    }
    let start = offset + 8;
    let mut samples: Vec<i16> = Vec::new();
    let count = (len - start) / 2;
    let mut k: usize = 0;
    let ghost pcm = data@.subrange(start as int, len as int);
    while k < count
        invariant
            start <= len,
            len == data@.len(),
            count == (len - start) / 2,
            pcm == data@.subrange(start as int, len as int),
            k <= count,
            samples@ == pcm_samples(pcm).take(k as int),
        decreases count - k,
    {
        let lo = data[start + 2 * k];
        let hi = data[start + 2 * k + 1];
        let u: u32 = lo as u32 + 256 * (hi as u32);
        let s: i16 = if u >= 32768 { (u as i32 - 65536) as i16 } else { u as i16 };
        samples.push(s);
        k += 1;
        assert(samples@ =~= pcm_samples(pcm).take(k as int));
    }
    assert(pcm_samples(pcm).take(count as int) =~= pcm_samples(pcm));
    Some(samples)
}

proof fn lemma_sample_roundtrip(x: i16)
    ensures
        sample_from_le(le16(u16_bits(x))[0], le16(u16_bits(x))[1]) == x,
{
    let u = u16_bits(x);
    assert(u < 65536);
    let lo = (u % 256) as u8;
    let hi = ((u / 256) % 256) as u8;
    assert(lo + 256 * hi == u) by (nonlinear_arith)
        requires
            u < 65536,
            lo == u % 256,
            hi == (u / 256) % 256,
    ;
}

/// Reading back a WAV file written by [`encode_wav`] gives exactly the
/// samples that were written.
pub proof fn lemma_wav_roundtrip(s: Seq<i16>)
    ensures
        parse_wav(wav_bytes(s)) == Some(s),
{
    let d = wav_bytes(s);
    let h = wav_header(2 * s.len());
    assert(h.len() == 44);
    assert(d.subrange(0, 4) =~= tag_riff());
    assert(d.subrange(8, 12) =~= tag_wave());
    assert(d.subrange(12, 16) =~= tag_fmt());
    assert(d.subrange(12, 16) != tag_data()) by {
        assert(d.subrange(12, 16)[0] != tag_data()[0]);
    }
    assert(le32_at(d, 16) == 16);
    assert(d.subrange(36, 40) =~= tag_data());
    assert(data_chunk_start(d, 36) == Some(44int));
    assert(data_chunk_start(d, 12) == Some(44int));
    let pcm = d.subrange(44, d.len() as int);
    assert(pcm =~= pcm_bytes(s));
    assert forall|k: int| 0 <= k < s.len() implies #[trigger] pcm_samples(pcm)[k] == s[k] by {
        lemma_sample_roundtrip(s[k]);
        assert(pcm[2 * k] == le16(u16_bits(s[k]))[0]);
        assert(pcm[2 * k + 1] == le16(u16_bits(s[k]))[1]);
    }
    assert(pcm_samples(pcm) =~= s);
}

} // verus!
