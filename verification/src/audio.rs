//! Audio length enforcement.
//!
//! A caller may cap the duration of the audio it accepts. Providers that
//! return MP3 rely on an outside duration parser; providers that return WAV
//! have their duration estimated here from the RIFF header; providers whose
//! output respects an implicit limit pass unconditionally. Audio whose
//! duration cannot be estimated is accepted, matching a best-effort check.

use vstd::prelude::*;

use crate::error::Error;
use crate::mode::TTSMode;

verus! {

/// The whole seconds of an MP3 stream, or `None` where the bytes do not parse
/// as MP3. Far too wide to state; the contracts only need that it is a
/// function of the bytes.
pub uninterp spec fn mp3_secs_of(data: Seq<u8>) -> Option<u64>;

/// The big-endian 32-bit value at `p`.
pub open spec fn be_u32_at(b: Seq<u8>, p: int) -> nat {
    b[p] as nat * 0x1000000 + b[p + 1] as nat * 0x10000 + b[p + 2] as nat * 0x100 + b[p
        + 3] as nat
}

/// Whether the twelve bytes at `i` read as an MP3 session table — `Xing` or
/// `Info`, with the frame-count flag set — declaring more frames than the
/// duration parser's nanosecond arithmetic can carry: over
/// `u64::MAX / (10^9 * 1152)` of them, hours of audio at the least.
pub open spec fn unbounded_frame_claim_at(b: Seq<u8>, i: int) -> bool {
    &&& 0 <= i
    &&& i + 12 <= b.len()
    &&& ((b[i] == 0x58 && b[i + 1] == 0x69 && b[i + 2] == 0x6e && b[i + 3] == 0x67)  // "Xing"
        || (b[i] == 0x49 && b[i + 1] == 0x6e && b[i + 2] == 0x66 && b[i + 3] == 0x6f))  // "Info"
    &&& b[i + 7] % 2 == 1
    &&& be_u32_at(b, i + 8) > 16_012_798
}

/// Whether any window of the stream could be read as such a session table.
/// The parser reads its session table from one twelve-byte window of the
/// input, so a stream without any such window cannot reach the overflowing
/// multiplication.
pub open spec fn mp3_unbounded_claim(b: Seq<u8>) -> bool {
    exists|i: int| unbounded_frame_claim_at(b, i)
}

fn has_unbounded_frame_claim(audio: &[u8]) -> (r: bool)
    ensures
        r == mp3_unbounded_claim(audio@),
{
    let n = audio.len();
    if n < 12 {
        proof {
            assert forall|j: int| !unbounded_frame_claim_at(audio@, j) by {}
        }
        return false;
    }
    let mut i: usize = 0;
    while i <= n - 12
        invariant
            n == audio@.len(),
            12 <= n,
            i <= n - 11,
            forall|j: int| 0 <= j < i ==> !unbounded_frame_claim_at(audio@, j),
        decreases n - i,
    {
        let xing = audio[i] == 0x58 && audio[i + 1] == 0x69 && audio[i + 2] == 0x6e && audio[i + 3]
            == 0x67;
        let info = audio[i] == 0x49 && audio[i + 1] == 0x6e && audio[i + 2] == 0x66 && audio[i + 3]
            == 0x6f;
        if (xing || info) && audio[i + 7] % 2 == 1 {
            let frames: u64 = (audio[i + 8] as u64) * 0x1000000 + (audio[i + 9] as u64) * 0x10000
                + (audio[i + 10] as u64) * 0x100 + (audio[i + 11] as u64);
            if frames > 16_012_798 {
                proof {
                    assert(unbounded_frame_claim_at(audio@, i as int));
                }
                return true;
            }
        }
        i = i + 1;
    }
    proof {
        assert forall|j: int| !unbounded_frame_claim_at(audio@, j) by {
            if 0 <= j && j + 12 <= n {
                assert(j < i);
            }
        }
    }
    false
}

/// Relies on mp3_duration::from_read: the parsed duration depends on the
/// bytes read alone; a parse failure is `None`. The `requires` keeps out the
/// one input family on which the parser does not return: a session table
/// whose declared frame count overflows its nanosecond multiplication.
#[verifier::external_body]
fn mp3_duration_secs(audio: &[u8]) -> (r: Option<u64>)
    requires
        !mp3_unbounded_claim(audio@),
    ensures
        r == mp3_secs_of(audio@),
{
    mp3_duration::from_read(&mut std::io::Cursor::new(audio)).ok().map(|d| d.as_secs())
}

/// Whether MP3 audio fits under `max_length` seconds: audio that does not
/// parse is accepted, parsed audio must be strictly shorter. Audio carrying a
/// session table too large to time at all cannot be estimated and is
/// accepted, as every other unparseable stream is.
pub open spec fn mp3_length_ok(audio: Seq<u8>, max_length: u64) -> bool {
    if mp3_unbounded_claim(audio) {
        true
    } else {
        match mp3_secs_of(audio) {
            None => true,
            Some(secs) => secs < max_length,
        }
    }
}

pub fn check_mp3_length(audio: &[u8], max_length: u64) -> (r: bool)
    ensures
        r == mp3_length_ok(audio@, max_length),
{
    if has_unbounded_frame_claim(audio) {
        return true;
    }
    match mp3_duration_secs(audio) {
        None => true,
        Some(secs) => secs < max_length,
    }
}

/// The little-endian 32-bit value at `p`.
pub open spec fn le_u32_at(b: Seq<u8>, p: int) -> nat {
    b[p] as nat + b[p + 1] as nat * 0x100 + b[p + 2] as nat * 0x10000 + b[p + 3] as nat
        * 0x1000000
}

/// The four-byte identifier at `p`.
pub open spec fn chunk_id_at(b: Seq<u8>, p: int) -> Seq<u8> {
    b.subrange(p, p + 4)
}

/// The first RIFF chunk at or after `p` whose identifier is `id`, scanning by
/// each chunk's declared size; `None` when the scan runs off the buffer.
pub open spec fn find_chunk(b: Seq<u8>, p: int, id: Seq<u8>) -> Option<int>
    decreases b.len() - p,
{
    if p < 0 || p + 8 > b.len() {
        None
    } else if chunk_id_at(b, p) == id {
        Some(p)
    } else {
        let next = p + 8 + le_u32_at(b, p + 4);
        if next + 8 > b.len() {
            None
        } else {
            find_chunk(b, next, id)
        }
    }
}

/// The whole seconds of a WAV stream, estimated from its header: the declared
/// size of the `data` chunk over the byte rate declared in the `fmt ` chunk.
/// `None` where the header does not parse.
pub open spec fn wav_secs_of(b: Seq<u8>) -> Option<u64> {
    if b.len() < 12 {
        None
    } else if chunk_id_at(b, 0) != seq![0x52u8, 0x49u8, 0x46u8, 0x46u8] {  // "RIFF"
        None
    } else if chunk_id_at(b, 8) != seq![0x57u8, 0x41u8, 0x56u8, 0x45u8] {  // "WAVE"
        None
    } else {
        match find_chunk(b, 12, seq![0x66u8, 0x6du8, 0x74u8, 0x20u8]) {  // "fmt "
            None => None,
            Some(fp) => if le_u32_at(b, fp + 4) < 16 || fp + 20 > b.len() {
                None
            } else {
                match find_chunk(b, 12, seq![0x64u8, 0x61u8, 0x74u8, 0x61u8]) {  // "data"
                    None => None,
                    Some(dp) => {
                        let byte_rate = le_u32_at(b, fp + 16);
                        if byte_rate == 0 {
                            None
                        } else {
                            Some((le_u32_at(b, dp + 4) / byte_rate) as u64)
                        }
                    },
                }
            },
        }
    }
}

fn read_le_u32(b: &Vec<u8>, p: usize) -> (r: u32)
    requires
        p + 4 <= b@.len(),
    ensures
        r as nat == le_u32_at(b@, p as int),
{
    let n = b.len();
    assert(p + 4 <= n);
    b[p] as u32 + (b[p + 1] as u32) * 0x100 + (b[p + 2] as u32) * 0x10000 + (b[p + 3] as u32)
        * 0x1000000
}

fn id_at_is(b: &Vec<u8>, p: usize, id0: u8, id1: u8, id2: u8, id3: u8) -> (r: bool)
    requires
        p + 4 <= b@.len(),
    ensures
        r == (chunk_id_at(b@, p as int) == seq![id0, id1, id2, id3]),
{
    let n = b.len();
    assert(p + 4 <= n);
    let eq = b[p] == id0 && b[p + 1] == id1 && b[p + 2] == id2 && b[p + 3] == id3;
    proof {
        let s = chunk_id_at(b@, p as int);
        let t = seq![id0, id1, id2, id3];
        assert(s[0] == b@[p as int] && s[1] == b@[p as int + 1] && s[2] == b@[p as int + 2] && s[3]
            == b@[p as int + 3]);
        if eq {
            assert(s =~= t);
        }
    }
    eq
}

fn find_chunk_exec(b: &Vec<u8>, start: usize, id0: u8, id1: u8, id2: u8, id3: u8) -> (r: Option<
    usize,
>)
    ensures
        r matches Some(p) ==> find_chunk(b@, start as int, seq![id0, id1, id2, id3]) == Some(
            p as int,
        ) && p + 8 <= b@.len(),
        r is None ==> find_chunk(b@, start as int, seq![id0, id1, id2, id3]) is None,
{
    let ghost id = seq![id0, id1, id2, id3];
    let mut p = start;
    loop
        invariant
            id == seq![id0, id1, id2, id3],
            find_chunk(b@, start as int, id) == find_chunk(b@, p as int, id),
        decreases b@.len() - p,
    {
        if b.len() < 8 || p > b.len() - 8 {
            proof {
                assert(find_chunk(b@, p as int, id) is None);
            }
            return None;
        }
        if id_at_is(b, p, id0, id1, id2, id3) {
            proof {
                assert(find_chunk(b@, p as int, id) == Some(p as int));
            }
            return Some(p);
        }
        let sz = read_le_u32(b, p + 4);
        let ghost next = p + 8 + le_u32_at(b@, p as int + 4);
        if b.len() - (p + 8) < 8 {
            proof {
                assert(next + 8 > b@.len());
                assert(find_chunk(b@, p as int, id) is None);
            }
            return None;
        }
        let room = b.len() - (p + 16);
        if sz as usize > room {
            proof {
                assert(next + 8 > b@.len());
                assert(find_chunk(b@, p as int, id) is None);
            }
            return None;
        }
        proof {
            assert(find_chunk(b@, p as int, id) == find_chunk(b@, next as int, id));
        }
        p = p + 8 + sz as usize;
    }
}

/// Estimates the duration of WAV audio from its header.
pub fn wav_secs(audio: &Vec<u8>) -> (r: Option<u64>)
    ensures
        r == wav_secs_of(audio@),
{
    if audio.len() < 12 {
        return None;
    }
    if !id_at_is(audio, 0, 0x52, 0x49, 0x46, 0x46) {
        return None;
    }
    if !id_at_is(audio, 8, 0x57, 0x41, 0x56, 0x45) {
        return None;
    }
    let fp = match find_chunk_exec(audio, 12, 0x66, 0x6d, 0x74, 0x20) {
        None => return None,
        Some(p) => p,
    };
    let fmt_size = read_le_u32(audio, fp + 4);
    if fmt_size < 16 || audio.len() - fp < 20 {
        return None;
    }
    let byte_rate = read_le_u32(audio, fp + 16);
    let dp = match find_chunk_exec(audio, 12, 0x64, 0x61, 0x74, 0x61) {
        None => return None,
        Some(p) => p,
    };
    let data_size = read_le_u32(audio, dp + 4);
    if byte_rate == 0 {
        return None;
    }
    Some((data_size / byte_rate) as u64)
}

/// Whether WAV audio fits under `max_length` seconds; audio whose header does
/// not parse is accepted.
pub open spec fn wav_length_ok(audio: Seq<u8>, max_length: u64) -> bool {
    match wav_secs_of(audio) {
        None => true,
        Some(secs) => secs < max_length,
    }
}

pub fn check_wav_length(audio: &Vec<u8>, max_length: u64) -> (r: bool)
    ensures
        r == wav_length_ok(audio@, max_length),
{
    match wav_secs(audio) {
        None => true,
        Some(secs) => secs < max_length,
    }
}

impl TTSMode {
    /// Whether audio from this provider fits under the caller's limit. With no
    /// limit everything fits; providers that bound their output implicitly
    /// always fit.
    pub open spec fn length_ok(self, audio: Seq<u8>, max_length: Option<u64>) -> bool {
        match max_length {
            None => true,
            Some(m) => match self {
                TTSMode::gTTS => mp3_length_ok(audio, m),
                TTSMode::eSpeak => wav_length_ok(audio, m),
                TTSMode::gCloud => true,
                TTSMode::Polly => true,
            },
        }
    }

    /// Enforces the caller's duration limit, identically for freshly
    /// synthesized and cached audio.
    pub fn check_length(self, audio: &Vec<u8>, max_length: Option<u64>) -> (r: Result<(), Error>)
        ensures
            r is Ok <==> self.length_ok(audio@, max_length),
            r matches Err(e) ==> e == Error::AudioTooLong,
    {
        let ok = match max_length {
            None => true,
            Some(m) => match self {
                TTSMode::gTTS => check_mp3_length(audio.as_slice(), m),
                TTSMode::eSpeak => check_wav_length(audio, m),
                TTSMode::gCloud => true,
                TTSMode::Polly => true,
            },
        };
        if ok {
            Ok(())
        } else {
            Err(Error::AudioTooLong)
        }
    }
}

} // verus!
