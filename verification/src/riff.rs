//! A screen for the audio decoder's RIFF/WAVE probe.
//!
//! The decoder's container probe walks a RIFF/WAVE stream chunk by chunk
//! and, on a handful of format-chunk shapes, performs unchecked `u16`
//! arithmetic on values read straight from the input — a compressed
//! format chunk whose block alignment is smaller than its per-channel
//! header, a format chunk with a zero sample rate, the extensible format
//! chunk, and the metadata list reader. On such inputs the probe can
//! panic in an overflow-checked build instead of returning an error.
//!
//! [`wav_probe_safe`] mirrors that walk over the byte buffer and accepts
//! exactly the paths audited to stay clear of those sites: every accepted
//! buffer either carries the walk cleanly to a data chunk or makes the
//! probe stop with an ordinary error. [`wav_screen`] is the verified
//! executable check for it; the library consults the decoder only behind
//! this screen.

use vstd::prelude::*;

verus! {

/// The little-endian 16-bit value at offset `i`.
pub open spec fn le16(bytes: Seq<u8>, i: int) -> int {
    bytes[i] as int + 256 * (bytes[i + 1] as int)
}

/// The little-endian 32-bit value at offset `i`.
pub open spec fn le32(bytes: Seq<u8>, i: int) -> int {
    bytes[i] as int + 256 * (bytes[i + 1] as int) + 65536 * (bytes[i + 2] as int) + 16777216 * (
    bytes[i + 3] as int)
}

/// The four bytes at offset `i` are exactly `a b c d`.
pub open spec fn tag_is(bytes: Seq<u8>, i: int, a: u8, b: u8, c: u8, d: u8) -> bool {
    bytes[i] == a && bytes[i + 1] == b && bytes[i + 2] == c && bytes[i + 3] == d
}

/// A sample-count-per-channel is one the plain sample reader accepts.
pub open spec fn pcm_bits_ok(bits: int) -> bool {
    bits == 8 || bits == 16 || bits == 24 || bits == 32
}

/// A channel count the decoder's channel-mask table accepts.
pub open spec fn channels_ok(channels: int) -> bool {
    1 <= channels <= 26
}

/// Whether a plain PCM format chunk of length `len` at `body` parses:
/// one of the three admitted chunk lengths, with enough bytes to read,
/// an accepted bit width and channel count.
pub open spec fn pcm_parses(bytes: Seq<u8>, body: int, len: int) -> bool {
    let channels = le16(bytes, body + 2);
    let bits = le16(bytes, body + 14);
    &&& (len == 16 || (len == 18 && body + 18 <= bytes.len()) || (len == 40 && body + 40
        <= bytes.len()))
    &&& pcm_bits_ok(bits)
    &&& channels_ok(channels)
}

/// Whether an IEEE-float format chunk parses. A 40-byte chunk's trailing
/// skip has its failure swallowed by the reader, so it parses even when
/// the buffer ends early.
pub open spec fn ieee_parses(bytes: Seq<u8>, body: int, len: int) -> bool {
    let channels = le16(bytes, body + 2);
    let bits = le16(bytes, body + 14);
    &&& (len == 16 || (len == 18 && body + 18 <= bytes.len() && le16(bytes, body + 16) == 0) || len
        == 40)
    &&& (bits == 32 || bits == 64)
    &&& channels_ok(channels)
}

/// Whether an A-law or mu-law format chunk parses: exactly 18 bytes
/// declared, the extension-size field readable, the declared extension
/// present, and an accepted channel count.
pub open spec fn law_parses(bytes: Seq<u8>, body: int, len: int) -> bool {
    let channels = le16(bytes, body + 2);
    &&& len == 18
    &&& body + 18 <= bytes.len()
    &&& body + 18 + le16(bytes, body + 16) <= bytes.len()
    &&& channels_ok(channels)
}

/// Whether a compressed (ADPCM-family) format chunk parses: four coded
/// bits per sample, at least twenty declared bytes, an extension-size
/// field in range for the sub-format (`ms` for the Microsoft layout),
/// the extension present, and an accepted channel count.
pub open spec fn adpcm_parses(bytes: Seq<u8>, body: int, len: int, ms: bool) -> bool {
    let channels = le16(bytes, body + 2);
    let bits = le16(bytes, body + 14);
    let extra = le16(bytes, body + 16);
    &&& bits == 4
    &&& len >= 20
    &&& body + 18 <= bytes.len()
    &&& if ms {
        extra >= 32
    } else {
        extra == 2
    }
    &&& body + 18 + extra <= bytes.len()
    &&& channels_ok(channels)
}

/// Per-channel frame header size of a compressed format chunk: seven
/// bytes for the Microsoft layout, four for the other.
pub open spec fn adpcm_header(ms: bool) -> int {
    if ms {
        7
    } else {
        4
    }
}

/// Whether a format chunk at `body` with declared length `len` keeps the
/// probe clear of its panicking arithmetic. A chunk that fails to parse
/// stops the probe with an ordinary error and is safe; one that parses is
/// safe only when its sample rate is not zero — the probe builds a time
/// base from it, which rejects zero by panicking — and, for the
/// compressed formats, when the block alignment covers the per-channel
/// header with at most 8191 bytes to spare, the bounds of the frames-per-
/// block arithmetic. The extensible format chunk's own sub-parser is not
/// screened at all.
pub open spec fn fmt_safe(bytes: Seq<u8>, body: int, len: int) -> bool {
    if len < 16 || body + 16 > bytes.len() {
        true
    } else {
        let format = le16(bytes, body);
        let channels = le16(bytes, body + 2);
        let sample_rate = le32(bytes, body + 4);
        let block_align = le16(bytes, body + 12);
        if format == 1 {
            !(pcm_parses(bytes, body, len) && sample_rate == 0)
        } else if format == 3 {
            !(ieee_parses(bytes, body, len) && sample_rate == 0)
        } else if format == 6 || format == 7 {
            !(law_parses(bytes, body, len) && sample_rate == 0)
        } else if format == 2 || format == 17 {
            adpcm_parses(bytes, body, len, format == 2) ==> {
                let header = adpcm_header(format == 2) * channels;
                &&& sample_rate != 0
                &&& block_align >= header
                &&& block_align - header <= 8191
            }
        } else if format == 65534 {
            len < 40
        } else {
            true
        }
    }
}

/// Whether a format chunk parses, so that the probe reads on past it.
pub open spec fn fmt_proceeds(bytes: Seq<u8>, body: int, len: int) -> bool {
    if len < 16 || body + 16 > bytes.len() {
        false
    } else {
        let format = le16(bytes, body);
        if format == 1 {
            pcm_parses(bytes, body, len)
        } else if format == 3 {
            ieee_parses(bytes, body, len)
        } else if format == 6 || format == 7 {
            law_parses(bytes, body, len)
        } else if format == 2 || format == 17 {
            adpcm_parses(bytes, body, len, format == 2)
        } else {
            false
        }
    }
}

/// The stream position after a format chunk that parsed: the reader
/// consumes the sixteen header bytes plus whatever the sub-format reads —
/// which need not equal the declared chunk length.
pub open spec fn fmt_next(bytes: Seq<u8>, body: int, len: int) -> int {
    let format = le16(bytes, body);
    if format == 1 {
        body + len
    } else if format == 3 {
        if len == 40 {
            if body + 40 <= bytes.len() {
                body + 40
            } else {
                bytes.len() as int
            }
        } else {
            body + len
        }
    } else {
        // a-law, mu-law and the compressed formats read the extension-size
        // field and then the extension itself
        body + 18 + le16(bytes, body + 16)
    }
}

/// Mirrors the probe's chunk walk from stream position `pos`, with
/// `consumed` bytes of the parent chunk's `limit` accounted for. True
/// when the walk stays on audited, panic-free paths until it reaches a
/// data chunk or a clean stop; false when it would reach a format chunk
/// shape, an extensible format chunk, or a metadata list that the screen
/// does not vouch for.
pub open spec fn tame_chunks(bytes: Seq<u8>, pos: int, consumed: int, limit: int) -> bool
    decreases limit - consumed,
{
    let pos1 = if consumed % 2 == 1 {
        pos + 1
    } else {
        pos
    };
    let con1 = if consumed % 2 == 1 {
        consumed + 1
    } else {
        consumed
    };
    if consumed % 2 == 1 && pos >= bytes.len() {
        true  // the aligning read hits the end of the stream: a clean error
    } else if con1 + 8 > limit {
        true  // no room for another chunk header: a clean missing-data stop
    } else if pos1 + 8 > bytes.len() {
        true  // the header read hits the end of the stream: a clean error
    } else if limit - (con1 + 8) < le32(bytes, pos1 + 4) {
        true  // the declared chunk length exceeds the parent: a clean error
    } else {
        let len = le32(bytes, pos1 + 4);
        let body = pos1 + 8;
        let con3 = con1 + 8 + len;
        if tag_is(bytes, pos1, 0x66, 0x6d, 0x74, 0x20) {  // "fmt "
            if !fmt_safe(bytes, body, len) {
                false
            } else if !fmt_proceeds(bytes, body, len) {
                true
            } else {
                tame_chunks(bytes, fmt_next(bytes, body, len), con3, limit)
            }
        } else if tag_is(bytes, pos1, 0x64, 0x61, 0x74, 0x61) {  // "data"
            true  // the walk ends here; the packet reader's paths are audited
        } else if tag_is(bytes, pos1, 0x66, 0x61, 0x63, 0x74) {  // "fact"
            if len != 4 || body + 4 > bytes.len() {
                true
            } else {
                tame_chunks(bytes, body + 4, con3, limit)
            }
        } else if tag_is(bytes, pos1, 0x4c, 0x49, 0x53, 0x54) {  // "LIST"
            if len < 4 || body + 4 > bytes.len() {
                true
            } else if tag_is(bytes, body, 0x49, 0x4e, 0x46, 0x4f) {  // "INFO"
                false  // the metadata list reader is not screened
            } else {
                let inner = len - 4;
                let pad: int = if inner % 2 == 1 {
                    1
                } else {
                    0
                };
                if body + 4 + inner + pad > bytes.len() {
                    true
                } else {
                    tame_chunks(bytes, body + 4 + inner + pad, con3, limit)
                }
            }
        } else {
            // an unknown chunk is skipped whole
            if body + len > bytes.len() {
                true
            } else {
                tame_chunks(bytes, body + len, con3, limit)
            }
        }
    }
}

/// Accepts exactly the byte buffers on which the audio decoder's probe is
/// audited to be panic-free: a RIFF/WAVE stream from the first byte, with
/// a parent length leaving headroom in the 32-bit chunk accounting, whose
/// chunk walk is tame. Everything else — including buffers that are not
/// RIFF/WAVE at all — is outside the screen.
pub open spec fn wav_probe_safe(bytes: Seq<u8>) -> bool {
    &&& bytes.len() >= 12
    &&& tag_is(bytes, 0, 0x52, 0x49, 0x46, 0x46)  // "RIFF"
    &&& tag_is(bytes, 8, 0x57, 0x41, 0x56, 0x45)  // "WAVE"
    &&& le32(bytes, 4) <= 0xFFFFFFF0
    &&& tame_chunks(bytes, 12, 0, le32(bytes, 4))
}

/// What the format-chunk screen found.
enum FmtStep {
    /// The chunk would reach unscreened arithmetic: the buffer is not safe.
    Reject,
    /// The chunk makes the probe stop with a clean error.
    Stop,
    /// The chunk parses; the walk continues at this stream position.
    Proceed(usize),
}

/// The verified check for [`wav_probe_safe`].
pub fn wav_screen(data: &Vec<u8>) -> (r: bool)
    ensures
        r == wav_probe_safe(data@),
{
    let n = data.len();
    if n < 12 {
        return false;
    }
    if !(data[0] == 0x52u8 && data[1] == 0x49u8 && data[2] == 0x46u8 && data[3] == 0x46u8) {
        return false;
    }
    if !(data[8] == 0x57u8 && data[9] == 0x41u8 && data[10] == 0x56u8 && data[11] == 0x45u8) {
        return false;
    }
    let limit = read_le32(data, 4);
    if limit > 0xFFFFFFF0 {
        return false;
    }
    let mut pos: usize = 12;
    let mut consumed: u64 = 0;
    loop
        invariant
            n == data@.len(),
            12 <= n,
            pos <= n,
            consumed <= limit,
            limit <= 0xFFFFFFF0u64,
            wav_probe_safe(data@) == tame_chunks(data@, pos as int, consumed as int, limit as int),
        decreases limit - consumed,
    {
        if consumed % 2 == 1 {
            if pos >= n {
                return true;
            }
            pos = pos + 1;
            consumed = consumed + 1;
        }
        if consumed + 8 > limit {
            return true;
        }
        if n - pos < 8 {
            return true;
        }
        let len = read_le32(data, pos + 4);
        let consumed2 = consumed + 8;
        if limit - consumed2 < len {
            return true;
        }
        let body = pos + 8;
        let consumed3 = consumed2 + len;
        if data[pos] == 0x66u8 && data[pos + 1] == 0x6du8 && data[pos + 2] == 0x74u8 && data[pos
            + 3] == 0x20u8 {
            match fmt_screen(data, body, len) {
                FmtStep::Reject => {
                    return false;
                },
                FmtStep::Stop => {
                    return true;
                },
                FmtStep::Proceed(next) => {
                    pos = next;
                    consumed = consumed3;
                },
            }
        } else if data[pos] == 0x64u8 && data[pos + 1] == 0x61u8 && data[pos + 2] == 0x74u8
            && data[pos + 3] == 0x61u8 {
            return true;
        } else if data[pos] == 0x66u8 && data[pos + 1] == 0x61u8 && data[pos + 2] == 0x63u8
            && data[pos + 3] == 0x74u8 {
            if len != 4 || n - body < 4 {
                return true;
            }
            pos = body + 4;
            consumed = consumed3;
        } else if data[pos] == 0x4cu8 && data[pos + 1] == 0x49u8 && data[pos + 2] == 0x53u8
            && data[pos + 3] == 0x54u8 {
            if len < 4 || n - body < 4 {
                return true;
            }
            if data[body] == 0x49u8 && data[body + 1] == 0x4eu8 && data[body + 2] == 0x46u8
                && data[body + 3] == 0x4fu8 {
                return false;
            }
            let inner = len - 4;
            let pad: u64 = if inner % 2 == 1 {
                1
            } else {
                0
            };
            if ((n - body) as u64) < 4 + inner + pad {
                return true;
            }
            pos = body + 4 + (inner as usize) + (pad as usize);
            consumed = consumed3;
        } else {
            if ((n - body) as u64) < len {
                return true;
            }
            pos = body + (len as usize);
            consumed = consumed3;
        }
    }
}

/// Screens one format chunk, mirroring [`fmt_safe`], [`fmt_proceeds`]
/// and [`fmt_next`].
fn fmt_screen(data: &Vec<u8>, body: usize, len: u64) -> (r: FmtStep)
    requires
        body <= data@.len(),
    ensures
        (r is Reject) == !fmt_safe(data@, body as int, len as int),
        (r is Stop) == (fmt_safe(data@, body as int, len as int) && !fmt_proceeds(
            data@,
            body as int,
            len as int,
        )),
        r matches FmtStep::Proceed(next) ==> fmt_proceeds(data@, body as int, len as int)
            && next as int == fmt_next(data@, body as int, len as int) && next <= data@.len(),
{
    let n = data.len();
    if len < 16 || n - body < 16 {
        return FmtStep::Stop;
    }
    let format = read_le16(data, body);
    let channels = read_le16(data, body + 2);
    let sample_rate = read_le32(data, body + 4);
    let block_align = read_le16(data, body + 12);
    let bits = read_le16(data, body + 14);
    let bits_ok = bits == 8 || bits == 16 || bits == 24 || bits == 32;
    let ch_ok = 1 <= channels && channels <= 26;
    if format == 1 {
        let parses = ch_ok && bits_ok && (len == 16 || (len == 18 && n - body >= 18) || (len == 40
            && n - body >= 40));
        if !parses {
            FmtStep::Stop
        } else if sample_rate == 0 {
            FmtStep::Reject
        } else {
            FmtStep::Proceed(body + (len as usize))
        }
    } else if format == 3 {
        let float_bits_ok = bits == 32 || bits == 64;
        let parses = ch_ok && float_bits_ok && (len == 16 || (len == 18 && n - body >= 18
            && read_le16(data, body + 16) == 0) || len == 40);
        if !parses {
            FmtStep::Stop
        } else if sample_rate == 0 {
            FmtStep::Reject
        } else if len == 40 {
            if n - body < 40 {
                FmtStep::Proceed(n)
            } else {
                FmtStep::Proceed(body + 40)
            }
        } else {
            FmtStep::Proceed(body + (len as usize))
        }
    } else if format == 6 || format == 7 {
        if len != 18 || n - body < 18 {
            return FmtStep::Stop;
        }
        let extra = read_le16(data, body + 16);
        if ((n - body - 18) as u64) < extra as u64 || !ch_ok {
            FmtStep::Stop
        } else if sample_rate == 0 {
            FmtStep::Reject
        } else {
            FmtStep::Proceed(body + 18 + (extra as usize))
        }
    } else if format == 2 || format == 17 {
        if bits != 4 || len < 20 || n - body < 18 {
            return FmtStep::Stop;
        }
        let extra = read_le16(data, body + 16);
        let extra_ok = if format == 2 {
            extra >= 32
        } else {
            extra == 2
        };
        if !extra_ok || ((n - body - 18) as u64) < extra as u64 || !ch_ok {
            FmtStep::Stop
        } else {
            let header: u16 = if format == 2 {
                7 * channels
            } else {
                4 * channels
            };
            if block_align < header || block_align - header > 8191 || sample_rate == 0 {
                FmtStep::Reject
            } else {
                FmtStep::Proceed(body + 18 + (extra as usize))
            }
        }
    } else if format == 65534 {
        if len < 40 {
            FmtStep::Stop
        } else {
            FmtStep::Reject
        }
    } else {
        FmtStep::Stop
    }
}

fn read_le16(data: &Vec<u8>, i: usize) -> (r: u16)
    requires
        i + 2 <= data@.len(),
    ensures
        r as int == le16(data@, i as int),
{
    let n = data.len();
    proof {
        assert(i + 2 <= n);
    }
    data[i] as u16 + 256 * (data[i + 1] as u16)
}

fn read_le32(data: &Vec<u8>, i: usize) -> (r: u64)
    requires
        i + 4 <= data@.len(),
    ensures
        r as int == le32(data@, i as int),
{
    let n = data.len();
    proof {
        assert(i + 4 <= n);
    }
    data[i] as u64 + 256 * (data[i + 1] as u64) + 65536 * (data[i + 2] as u64) + 16777216 * (data[i
        + 3] as u64)
}

} // verus!
