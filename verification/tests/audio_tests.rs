//! Length enforcement: the WAV header estimator, the MP3 parser behind its
//! wrapper, and the per-provider policy, cached audio included.

use tts_gateway::audio::{check_mp3_length, check_wav_length, wav_secs};
use tts_gateway::dispatch::dispatch_step;
use tts_gateway::{DispatchEvent, DispatchState, Error, SynthesisRequest, TTSMode};

/// A minimal WAV file: a `fmt ` chunk declaring `byte_rate`, then a `data`
/// chunk of `data_len` zero bytes.
fn wav_bytes(byte_rate: u32, data_len: u32) -> Vec<u8> {
    let mut v = Vec::new();
    v.extend_from_slice(b"RIFF");
    v.extend_from_slice(&(36 + data_len).to_le_bytes());
    v.extend_from_slice(b"WAVE");
    v.extend_from_slice(b"fmt ");
    v.extend_from_slice(&16u32.to_le_bytes());
    v.extend_from_slice(&1u16.to_le_bytes()); // PCM
    v.extend_from_slice(&1u16.to_le_bytes()); // mono
    v.extend_from_slice(&byte_rate.to_le_bytes()); // sample rate
    v.extend_from_slice(&byte_rate.to_le_bytes()); // byte rate
    v.extend_from_slice(&1u16.to_le_bytes()); // block align
    v.extend_from_slice(&8u16.to_le_bytes()); // bits per sample
    v.extend_from_slice(b"data");
    v.extend_from_slice(&data_len.to_le_bytes());
    v.extend(std::iter::repeat(0u8).take(data_len as usize));
    v
}

#[test]
fn wav_duration_is_data_over_byte_rate() {
    assert_eq!(wav_secs(&wav_bytes(100, 500)), Some(5));
    assert_eq!(wav_secs(&wav_bytes(100, 550)), Some(5));
    assert_eq!(wav_secs(&wav_bytes(100, 99)), Some(0));
}

#[test]
fn wav_garbage_does_not_parse() {
    assert_eq!(wav_secs(&vec![]), None);
    assert_eq!(wav_secs(&vec![0u8; 64]), None);
    assert_eq!(wav_secs(&b"RIFFxxxxWAVE".to_vec()), None);
    let mut not_riff = wav_bytes(100, 500);
    not_riff[0] = b'X';
    assert_eq!(wav_secs(&not_riff), None);
}

#[test]
fn wav_length_check_is_strict() {
    let five_secs = wav_bytes(100, 500);
    assert!(check_wav_length(&five_secs, 6));
    assert!(!check_wav_length(&five_secs, 5));
    assert!(!check_wav_length(&five_secs, 0));
    // Audio whose header does not parse is accepted.
    assert!(check_wav_length(&vec![1u8, 2, 3], 0));
}

#[test]
fn oversized_session_tables_are_accepted_without_timing() {
    // A session table declaring an absurd frame count cannot be timed (the
    // parser's arithmetic cannot carry it); such a stream is accepted like
    // any other unparseable one — and, above all, does not panic.
    let mut forged = vec![0xFFu8, 0xFB, 0x90, 0x00];
    forged.extend_from_slice(b"Xing");
    forged.extend_from_slice(&[0, 0, 0, 1]); // flags: frames present
    forged.extend_from_slice(&[0xFF, 0xFF, 0xFF, 0xFF]); // frame count
    assert!(check_mp3_length(&forged, 0));

    // A modest frame count is no such claim; the stream goes to the parser.
    let mut benign = b"Xing".to_vec();
    benign.extend_from_slice(&[0, 0, 0, 1]);
    benign.extend_from_slice(&[0, 0, 0, 100]);
    assert!(check_mp3_length(&benign, 1));
}

#[test]
fn mp3_garbage_is_accepted() {
    // Bytes that do not parse as MP3 pass the length check whatever the limit.
    assert!(check_mp3_length(&[1u8, 2, 3, 4], 0));
    // An empty stream parses as zero seconds, so it fits under any positive
    // limit and is strictly checked against a zero limit.
    assert!(check_mp3_length(&[], 1));
    assert!(!check_mp3_length(&[], 0));
}

#[test]
fn length_policy_per_mode() {
    let five_secs = wav_bytes(100, 500);
    // No limit: everything fits.
    assert!(TTSMode::eSpeak.check_length(&five_secs, None).is_ok());
    // eSpeak estimates from the WAV header.
    assert!(TTSMode::eSpeak.check_length(&five_secs, Some(6)).is_ok());
    assert!(matches!(
        TTSMode::eSpeak.check_length(&five_secs, Some(5)),
        Err(Error::AudioTooLong)
    ));
    // Providers that bound their output implicitly always pass.
    assert!(TTSMode::gCloud.check_length(&five_secs, Some(1)).is_ok());
    assert!(TTSMode::Polly.check_length(&five_secs, Some(1)).is_ok());
}

#[test]
fn cached_audio_is_checked_against_the_later_limit() {
    // The entry was five seconds long and was stored under a looser limit;
    // a later caller with a stricter limit still gets it rejected.
    let five_secs = wav_bytes(100, 500);
    let strict = SynthesisRequest {
        text: String::from("hello"),
        mode: TTSMode::eSpeak,
        voice: String::from("en"),
        speaking_rate: None,
        max_length: Some(5),
        preferred_format: None,
    };
    let hit = DispatchEvent::CacheHit { audio: five_secs.clone() };
    match dispatch_step(&strict, true, DispatchState::LookingUp, hit) {
        DispatchState::Failed { error: Error::AudioTooLong } => {}
        other => panic!("expected AudioTooLong on the cached entry, got {other:?}"),
    }

    let mut loose = strict;
    loose.max_length = Some(6);
    let hit = DispatchEvent::CacheHit { audio: five_secs.clone() };
    match dispatch_step(&loose, true, DispatchState::LookingUp, hit) {
        DispatchState::Finished { audio } => assert_eq!(audio, five_secs),
        other => panic!("expected the cached audio, got {other:?}"),
    }
}

#[test]
fn fresh_audio_is_checked_after_the_store() {
    let five_secs = wav_bytes(100, 500);
    let req = SynthesisRequest {
        text: String::from("hello"),
        mode: TTSMode::eSpeak,
        voice: String::from("en"),
        speaking_rate: None,
        max_length: Some(5),
        preferred_format: None,
    };
    let storing = DispatchState::Storing { audio: five_secs };
    match dispatch_step(&req, true, storing, DispatchEvent::StoreOk) {
        DispatchState::Failed { error: Error::AudioTooLong } => {}
        other => panic!("expected AudioTooLong after the store, got {other:?}"),
    }
}
