use std::io::Cursor;

use ggez_core::audio::{SoundData, SourceState};
use ggez_core::error::GameError;

fn tiny_wav() -> Vec<u8> {
    let samples: [u8; 8] = [128, 140, 152, 140, 128, 116, 104, 116];
    let mut bytes: Vec<u8> = Vec::new();
    bytes.extend_from_slice(b"RIFF");
    bytes.extend_from_slice(&(36u32 + samples.len() as u32).to_le_bytes());
    bytes.extend_from_slice(b"WAVE");
    bytes.extend_from_slice(b"fmt ");
    bytes.extend_from_slice(&16u32.to_le_bytes());
    bytes.extend_from_slice(&1u16.to_le_bytes());
    bytes.extend_from_slice(&1u16.to_le_bytes());
    bytes.extend_from_slice(&8000u32.to_le_bytes());
    bytes.extend_from_slice(&8000u32.to_le_bytes());
    bytes.extend_from_slice(&1u16.to_le_bytes());
    bytes.extend_from_slice(&8u16.to_le_bytes());
    bytes.extend_from_slice(b"data");
    bytes.extend_from_slice(&(samples.len() as u32).to_le_bytes());
    bytes.extend_from_slice(&samples);
    bytes
}

#[test]
fn from_bytes_copies_the_data() {
    let data = SoundData::from_bytes(&[1, 2, 3, 4]);
    assert_eq!(data.as_bytes(), &[1, 2, 3, 4]);
}

#[test]
fn from_vec_wraps_the_buffer() {
    let data = SoundData::from_vec(vec![9, 8, 7]);
    assert_eq!(data.as_bytes(), &[9, 8, 7]);
}

#[test]
fn from_read_slurps_the_whole_stream() {
    let mut reader = Cursor::new(vec![5u8; 300]);
    let data = SoundData::from_read(&mut reader).unwrap();
    assert_eq!(data.as_bytes().len(), 300);
    assert!(data.as_bytes().iter().all(|b| *b == 5));
}

struct Broken;

impl std::io::Read for Broken {
    fn read(&mut self, _buf: &mut [u8]) -> std::io::Result<usize> {
        Err(std::io::Error::new(std::io::ErrorKind::Other, "broken"))
    }
}

#[test]
fn from_read_reports_reader_errors() {
    let mut reader = Broken;
    match SoundData::from_read(&mut reader) {
        Err(GameError::IoError(_)) => {}
        Ok(_) => panic!("expected an error"),
    }
}

#[test]
fn source_state_starts_with_the_documented_defaults() {
    let state = SourceState::new(SoundData::from_bytes(&[1, 2]));
    assert!(!state.repeat());
    assert_eq!(state.data().as_bytes(), &[1, 2]);
    assert_eq!(state.period_micros(), 100_000);
    assert_eq!(state.clamped_fade_in_micros(), 1);
}

#[test]
fn source_state_keeps_its_settings() {
    let mut state = SourceState::new(SoundData::from_bytes(&[]));
    state.set_repeat(true);
    state.set_fade_in(2_500_000);
    state.set_start(10);
    state.set_query_interval(250_000);
    assert!(state.repeat());
    assert_eq!(state.period_micros(), 250_000);
    assert_eq!(state.clamped_fade_in_micros(), 2_500_000);
}

#[test]
fn a_wav_file_can_play() {
    let data = SoundData::from_vec(tiny_wav());
    assert!(data.can_play());
}

#[test]
fn arbitrary_bytes_cannot_play() {
    let data = SoundData::from_bytes(&[0, 1, 2, 3, 4, 5, 6, 7]);
    assert!(!data.can_play());
}

fn wav_with_fmt(fmt_len: u32, fmt_body: &[u8], data_len: u32, data_body: &[u8]) -> Vec<u8> {
    let mut bytes: Vec<u8> = Vec::new();
    bytes.extend_from_slice(b"RIFF");
    let riff_len = 4 + 8 + fmt_body.len() as u32 + 8 + data_len;
    bytes.extend_from_slice(&riff_len.to_le_bytes());
    bytes.extend_from_slice(b"WAVE");
    bytes.extend_from_slice(b"fmt ");
    bytes.extend_from_slice(&fmt_len.to_le_bytes());
    bytes.extend_from_slice(fmt_body);
    bytes.extend_from_slice(b"data");
    bytes.extend_from_slice(&data_len.to_le_bytes());
    bytes.extend_from_slice(data_body);
    bytes
}

fn fmt_fields(
    format: u16,
    channels: u16,
    sample_rate: u32,
    block_align: u16,
    bits: u16,
    extra: &[u8],
) -> Vec<u8> {
    let mut body: Vec<u8> = Vec::new();
    body.extend_from_slice(&format.to_le_bytes());
    body.extend_from_slice(&channels.to_le_bytes());
    body.extend_from_slice(&sample_rate.to_le_bytes());
    body.extend_from_slice(&sample_rate.to_le_bytes());
    body.extend_from_slice(&block_align.to_le_bytes());
    body.extend_from_slice(&bits.to_le_bytes());
    body.extend_from_slice(extra);
    body
}

#[test]
fn adpcm_with_underflowing_block_align_is_screened_out() {
    // A compressed format chunk whose block alignment is smaller than its
    // per-channel header would drive the decoder's frames-per-block
    // subtraction below zero; the screen reports it unplayable without
    // consulting the decoder.
    let fmt = fmt_fields(0x0011, 1, 8000, 0, 4, &[2, 0, 0, 0]);
    let bytes = wav_with_fmt(20, &fmt, 0, &[]);
    let data = SoundData::from_vec(bytes);
    assert!(!data.can_play());
}

#[test]
fn well_formed_adpcm_reaches_the_decoder_and_is_refused() {
    // A tame compressed format chunk passes the screen; the decoder walks
    // it without panicking and refuses it, since no matching codec is
    // compiled in.
    let fmt = fmt_fields(0x0011, 1, 8000, 4, 4, &[2, 0, 0, 0]);
    let bytes = wav_with_fmt(20, &fmt, 4, &[0, 0, 0, 0]);
    let data = SoundData::from_vec(bytes);
    assert!(!data.can_play());
}

#[test]
fn zero_sample_rate_is_screened_out() {
    // A parsed format chunk with a zero sample rate would panic the
    // decoder's time-base construction.
    let fmt = fmt_fields(0x0001, 1, 0, 1, 8, &[]);
    let bytes = wav_with_fmt(16, &fmt, 2, &[128, 128]);
    let data = SoundData::from_vec(bytes);
    assert!(!data.can_play());
}

#[test]
fn metadata_lists_are_screened_out() {
    let mut bytes: Vec<u8> = Vec::new();
    bytes.extend_from_slice(b"RIFF");
    bytes.extend_from_slice(&12u32.to_le_bytes());
    bytes.extend_from_slice(b"WAVE");
    bytes.extend_from_slice(b"LIST");
    bytes.extend_from_slice(&4u32.to_le_bytes());
    bytes.extend_from_slice(b"INFO");
    let data = SoundData::from_vec(bytes);
    assert!(!data.can_play());
}

#[test]
fn unknown_chunks_are_walked_over() {
    // An unknown, odd-length chunk before the format chunk exercises the
    // walk's skipping and alignment; the file still plays.
    let samples: [u8; 4] = [128, 140, 128, 116];
    let fmt = fmt_fields(0x0001, 1, 8000, 1, 8, &[]);
    let mut bytes: Vec<u8> = Vec::new();
    bytes.extend_from_slice(b"RIFF");
    let riff_len = 4 + (8 + 3 + 1) + (8 + 16) + (8 + samples.len() as u32);
    bytes.extend_from_slice(&riff_len.to_le_bytes());
    bytes.extend_from_slice(b"WAVE");
    bytes.extend_from_slice(b"junk");
    bytes.extend_from_slice(&3u32.to_le_bytes());
    bytes.extend_from_slice(&[1, 2, 3, 0]);
    bytes.extend_from_slice(b"fmt ");
    bytes.extend_from_slice(&16u32.to_le_bytes());
    bytes.extend_from_slice(&fmt);
    bytes.extend_from_slice(b"data");
    bytes.extend_from_slice(&(samples.len() as u32).to_le_bytes());
    bytes.extend_from_slice(&samples);
    let data = SoundData::from_vec(bytes);
    assert!(data.can_play());
}

#[test]
fn truncated_data_chunks_do_not_panic_the_decoder() {
    // The data chunk declares more bytes than the buffer holds: the
    // screen accepts the buffer, the decoder handles the early end of the
    // stream without panicking, and the answer is stable.
    let fmt = fmt_fields(0x0001, 1, 8000, 1, 8, &[]);
    let bytes = wav_with_fmt(16, &fmt, 64, &[]);
    let data = SoundData::from_vec(bytes);
    let first = data.can_play();
    assert_eq!(first, data.can_play());
}
