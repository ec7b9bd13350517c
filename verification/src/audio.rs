//! Static sound data.
//!
//! Audio mixing, decoding and playback are external collaborators; this
//! module holds only the in-memory sound bytes and the decodability check
//! the playback layer gates on before connecting data to a channel.

use vstd::prelude::*;
use crate::error::{GameError, GameResult};
use crate::riff::{wav_probe_safe, wav_screen};

verus! {

/// Whether the audio decoder recognizes the bytes as a playable sound.
/// The answer depends on the bytes alone; what it is for given bytes only
/// the decoder says. The library applies this name only to buffers within
/// [`wav_probe_safe`], the screened region on which the decoder is known
/// not to panic.
pub uninterp spec fn decodable(data: Seq<u8>) -> bool;

/// Static sound data stored in memory.
#[derive(Clone, Debug)]
pub struct SoundData {
    bytes: Vec<u8>,
}

impl View for SoundData {
    type V = Seq<u8>;

    closed spec fn view(&self) -> Seq<u8> {
        self.bytes@
    }
}

impl SoundData {
    /// Copies the given slice into a new `SoundData`.
    pub fn from_bytes(data: &[u8]) -> (r: SoundData)
        ensures
            r@ == data@,
    {
        let mut bytes: Vec<u8> = Vec::new();
        let mut i: usize = 0;
        while i < data.len()
            invariant
                0 <= i <= data@.len(),
                bytes@ == data@.take(i as int),
            decreases data@.len() - i,
        {
            bytes.push(data[i]);
            proof {
                assert(data@.take(i + 1 as int) =~= data@.take(i as int).push(data@[i as int]));
            }
            i += 1;
        }
        proof {
            assert(data@.take(data@.len() as int) =~= data@);
        }
        SoundData { bytes }
    }

    /// Wraps an owned byte buffer as `SoundData` without copying.
    pub fn from_vec(data: Vec<u8>) -> (r: SoundData)
        ensures
            r@ == data@,
    {
        SoundData { bytes: data }
    }

    /// Creates a `SoundData` from any reader; this copies the stream into
    /// a buffer. A read failure comes back as [`GameError::IoError`].
    pub fn from_read<R: std::io::Read>(reader: &mut R) -> (r: GameResult<SoundData>) {
        match read_whole(reader) {
            Ok(buffer) => Ok(SoundData { bytes: buffer }),
            Err(e) => Err(GameError::IoError(e)),
        }
    }

    /// The raw sound bytes.
    pub fn as_bytes(&self) -> (r: &[u8])
        ensures
            r@ == self@,
    {
        self.bytes.as_slice()
    }

    /// Indicates if the data can be played as a sound: true exactly when
    /// the bytes pass the RIFF/WAVE screen and the audio decoder
    /// recognizes them. The decoder is consulted only behind
    /// [`wav_probe_safe`], the region on which its probe is audited to be
    /// panic-free; every other buffer — including one the probe would
    /// itself refuse — is reported unplayable without asking it.
    pub fn can_play(&self) -> (r: bool)
        ensures
            r == (wav_probe_safe(self@) && decodable(self@)),
    {
        if wav_screen(&self.bytes) {
            decoder_recognizes(&self.bytes)
        } else {
            false
        }
    }
}

/// Playback bookkeeping for an audio source, in plain microsecond values.
/// The playback layer reads these settings when it connects the sound
/// data to an output channel; the elapsed-time counter that a playback
/// thread updates stays with that layer, as does the playback speed.
#[derive(Clone, Debug)]
pub struct SourceState {
    data: SoundData,
    repeat: bool,
    fade_in_micros: u64,
    skip_micros: u64,
    query_interval_micros: u64,
}

impl SourceState {
    /// Whether playback repeats infinitely.
    pub closed spec fn spec_repeat(&self) -> bool {
        self.repeat
    }

    /// The fade-in time, in microseconds.
    pub closed spec fn spec_fade_in(&self) -> int {
        self.fade_in_micros as int
    }

    /// The skipped leading time, in microseconds.
    pub closed spec fn spec_start(&self) -> int {
        self.skip_micros as int
    }

    /// The sample-counter update interval, in microseconds.
    pub closed spec fn spec_query_interval(&self) -> int {
        self.query_interval_micros as int
    }

    /// The sound bytes.
    pub closed spec fn spec_data(&self) -> Seq<u8> {
        self.data@
    }

    /// Fresh bookkeeping around the given sound data: no repeat, no
    /// fade-in, no skip, and a hundred-millisecond query interval.
    pub fn new(data: SoundData) -> (r: SourceState)
        ensures
            r.spec_data() == data@,
            !r.spec_repeat(),
            r.spec_fade_in() == 0,
            r.spec_start() == 0,
            r.spec_query_interval() == 100000,
    {
        SourceState {
            data,
            repeat: false,
            fade_in_micros: 0,
            skip_micros: 0,
            query_interval_micros: 100000,
        }
    }

    /// Sets the source to repeat playback infinitely.
    pub fn set_repeat(&mut self, repeat: bool)
        ensures
            final(self).spec_repeat() == repeat,
            final(self).spec_fade_in() == old(self).spec_fade_in(),
            final(self).spec_start() == old(self).spec_start(),
            final(self).spec_query_interval() == old(self).spec_query_interval(),
            final(self).spec_data() == old(self).spec_data(),
    {
        self.repeat = repeat;
    }

    /// Sets the fade-in time, in microseconds.
    pub fn set_fade_in(&mut self, micros: u64)
        ensures
            final(self).spec_fade_in() == micros as int,
            final(self).spec_repeat() == old(self).spec_repeat(),
            final(self).spec_start() == old(self).spec_start(),
            final(self).spec_query_interval() == old(self).spec_query_interval(),
            final(self).spec_data() == old(self).spec_data(),
    {
        self.fade_in_micros = micros;
    }

    /// Sets the time from which playback begins, in microseconds.
    pub fn set_start(&mut self, micros: u64)
        ensures
            final(self).spec_start() == micros as int,
            final(self).spec_repeat() == old(self).spec_repeat(),
            final(self).spec_fade_in() == old(self).spec_fade_in(),
            final(self).spec_query_interval() == old(self).spec_query_interval(),
            final(self).spec_data() == old(self).spec_data(),
    {
        self.skip_micros = micros;
    }

    /// Sets the sample-counter update interval, in microseconds.
    pub fn set_query_interval(&mut self, micros: u64)
        ensures
            final(self).spec_query_interval() == micros as int,
            final(self).spec_repeat() == old(self).spec_repeat(),
            final(self).spec_fade_in() == old(self).spec_fade_in(),
            final(self).spec_start() == old(self).spec_start(),
            final(self).spec_data() == old(self).spec_data(),
    {
        self.query_interval_micros = micros;
    }

    /// Whether playback repeats infinitely.
    pub fn repeat(&self) -> (r: bool)
        ensures
            r == self.spec_repeat(),
    {
        self.repeat
    }

    /// The sound bytes this source plays.
    pub fn data(&self) -> (r: &SoundData)
        ensures
            r@ == self.spec_data(),
    {
        &self.data
    }

    /// The period, in microseconds, at which the playback layer bumps the
    /// elapsed-sample counter: exactly the query interval.
    pub fn period_micros(&self) -> (r: u64)
        ensures
            r as int == self.spec_query_interval(),
    {
        self.query_interval_micros
    }

    /// The fade-in handed to the decoder chain: at least one microsecond,
    /// since the playback layer cannot fade over an empty duration.
    pub fn clamped_fade_in_micros(&self) -> (r: u64)
        ensures
            r as int == if self.spec_fade_in() >= 1 {
                self.spec_fade_in()
            } else {
                1int
            },
    {
        if self.fade_in_micros >= 1 {
            self.fade_in_micros
        } else {
            1
        }
    }
}

/// Relies on `std::io::Read::read_to_end`: reads the whole stream into a
/// byte buffer, or hands back the reader's error. What was read depends
/// on the reader, so nothing is promised of the contents.
#[verifier::external_body]
fn read_whole<R: std::io::Read>(reader: &mut R) -> (r: Result<Vec<u8>, std::io::Error>) {
    let mut buffer = Vec::new();
    match reader.read_to_end(&mut buffer) {
        Ok(_) => Ok(buffer),
        Err(e) => Err(e),
    }
}

/// Relies on `rodio::Decoder::new`: whether it recognizes an in-memory
/// byte buffer as a playable format is a function of the bytes alone,
/// named [`decodable`]. The `requires` admits only buffers within
/// [`wav_probe_safe`]: on that screened region the probe's RIFF/WAVE
/// chunk walk keeps to parse paths whose arithmetic cannot overflow, so
/// the call returns instead of panicking.
#[verifier::external_body]
fn decoder_recognizes(data: &Vec<u8>) -> (r: bool)
    requires
        wav_probe_safe(data@),
    ensures
        r == decodable(data@),
{
    rodio::Decoder::new(std::io::Cursor::new(data.clone())).is_ok()
}

} // verus!
