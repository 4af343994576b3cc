//! Validation, error taxonomy and dispatch-order behaviour.

use tts_gateway::dispatch::{dispatch_response, dispatch_start, dispatch_step};
use tts_gateway::mode::list_modes;
use tts_gateway::{DispatchEvent, DispatchState, Error, SynthesisRequest, TTSMode};

fn request(mode: TTSMode, rate: Option<u32>, max_length: Option<u64>) -> SynthesisRequest {
    SynthesisRequest {
        text: String::from("hello world"),
        mode,
        voice: String::from("en"),
        speaking_rate: rate,
        max_length,
        preferred_format: None,
    }
}

#[test]
fn rate_boundary_accepts_the_bound() {
    // gCloud's bound is 4.0; the bound itself passes.
    assert!(TTSMode::gCloud.check_speaking_rate(Some(40_000)).is_ok());
}

#[test]
fn rate_boundary_rejects_just_over() {
    // 4.0001 is over the 4.0 bound.
    match TTSMode::gCloud.check_speaking_rate(Some(40_001)) {
        Err(Error::InvalidSpeakingRate(r)) => assert_eq!(r, 40_001),
        other => panic!("expected InvalidSpeakingRate, got {other:?}"),
    }
}

#[test]
fn rate_unconstrained_mode_accepts_anything() {
    assert!(TTSMode::gTTS.check_speaking_rate(Some(u32::MAX)).is_ok());
    assert!(TTSMode::Polly.check_speaking_rate(Some(5_000_000)).is_ok());
    assert!(TTSMode::Polly.check_speaking_rate(Some(5_000_001)).is_err());
    assert!(TTSMode::eSpeak.check_speaking_rate(Some(4_000_000)).is_ok());
    assert!(TTSMode::eSpeak.check_speaking_rate(Some(4_000_001)).is_err());
    assert!(TTSMode::gCloud.check_speaking_rate(None).is_ok());
}

#[test]
fn dispatch_start_fails_fast_on_bad_rate() {
    let req = request(TTSMode::gCloud, Some(40_001), None);
    match dispatch_start(&req) {
        DispatchState::Failed { error: Error::InvalidSpeakingRate(r) } => assert_eq!(r, 40_001),
        other => panic!("expected a failed start, got {other:?}"),
    }
    let ok = request(TTSMode::gCloud, Some(40_000), None);
    assert!(matches!(dispatch_start(&ok), DispatchState::CheckingVoice));
}

#[test]
fn unknown_voice_fails_before_synthesis() {
    for mode in [TTSMode::gTTS, TTSMode::Polly, TTSMode::eSpeak, TTSMode::gCloud] {
        let mut req = request(mode, None, None);
        req.voice = String::from("not-a-real-voice");
        let s = dispatch_start(&req);
        assert!(matches!(s, DispatchState::CheckingVoice));
        match dispatch_step(&req, true, s, DispatchEvent::VoiceInvalid) {
            DispatchState::Failed { error: Error::UnknownVoice(v) } => {
                assert_eq!(v, "not-a-real-voice");
            }
            other => panic!("expected UnknownVoice, got {other:?}"),
        }
    }
}

#[test]
fn voice_check_error_becomes_backend_unavailable() {
    let req = request(TTSMode::gCloud, None, None);
    let s = DispatchState::CheckingVoice;
    let e = DispatchEvent::VoiceCheckFailed { cause: String::from("connection refused") };
    match dispatch_step(&req, true, s, e) {
        DispatchState::Failed { error: Error::BackendUnavailable { provider, cause } } => {
            assert!(matches!(provider, TTSMode::gCloud));
            assert_eq!(cause, "connection refused");
        }
        other => panic!("expected BackendUnavailable, got {other:?}"),
    }
}

#[test]
fn miss_then_synthesize_then_store_then_respond() {
    let req = request(TTSMode::gCloud, None, None);
    let audio = vec![1u8, 2, 3];

    let s = dispatch_step(&req, true, DispatchState::CheckingVoice, DispatchEvent::VoiceValid);
    assert!(matches!(s, DispatchState::LookingUp));

    let s = dispatch_step(&req, true, s, DispatchEvent::CacheMiss);
    assert!(matches!(s, DispatchState::Synthesizing));

    let s = dispatch_step(&req, true, s, DispatchEvent::SynthesisOk { audio: audio.clone() });
    match &s {
        DispatchState::Storing { audio: a } => assert_eq!(a, &audio),
        other => panic!("expected Storing, got {other:?}"),
    }

    match dispatch_step(&req, true, s, DispatchEvent::StoreOk) {
        DispatchState::Finished { audio: a } => assert_eq!(a, audio),
        other => panic!("expected Finished, got {other:?}"),
    }
}

#[test]
fn hit_never_synthesizes() {
    let req = request(TTSMode::gCloud, None, None);
    let audio = vec![9u8, 9];
    let s = dispatch_step(
        &req,
        true,
        DispatchState::LookingUp,
        DispatchEvent::CacheHit { audio: audio.clone() },
    );
    match s {
        DispatchState::Finished { audio: a } => assert_eq!(a, audio),
        other => panic!("expected Finished straight from the hit, got {other:?}"),
    }
}

#[test]
fn no_cache_synthesizes_directly_and_skips_store() {
    let req = request(TTSMode::Polly, None, None);
    let s = dispatch_step(&req, false, DispatchState::CheckingVoice, DispatchEvent::VoiceValid);
    assert!(matches!(s, DispatchState::Synthesizing));
    let audio = vec![5u8];
    match dispatch_step(&req, false, s, DispatchEvent::SynthesisOk { audio: audio.clone() }) {
        DispatchState::Finished { audio: a } => assert_eq!(a, audio),
        other => panic!("expected Finished without a store, got {other:?}"),
    }
}

#[test]
fn store_failure_does_not_fail_the_request() {
    let req = request(TTSMode::gCloud, None, None);
    let audio = vec![7u8, 8];
    let s = DispatchState::Storing { audio: audio.clone() };
    let e = DispatchEvent::StoreFailed { cause: String::from("store is down") };
    match dispatch_step(&req, true, s, e) {
        DispatchState::Finished { audio: a } => assert_eq!(a, audio),
        other => panic!("expected the audio despite the failed store, got {other:?}"),
    }
}

#[test]
fn synthesis_failure_is_backend_unavailable() {
    let req = request(TTSMode::Polly, None, None);
    let e = DispatchEvent::SynthesisFailed { cause: String::from("boom") };
    match dispatch_step(&req, true, DispatchState::Synthesizing, e) {
        DispatchState::Failed { error: Error::BackendUnavailable { provider, cause } } => {
            assert!(matches!(provider, TTSMode::Polly));
            assert_eq!(cause, "boom");
        }
        other => panic!("expected BackendUnavailable, got {other:?}"),
    }
}

#[test]
fn error_codes_are_stable() {
    assert_eq!(Error::Unauthorized.code(), 4);
    assert_eq!(Error::InvalidSpeakingRate(1).code(), 3);
    assert_eq!(Error::AudioTooLong.code(), 2);
    assert_eq!(Error::UnknownVoice(String::from("x")).code(), 1);
    assert_eq!(Error::Unknown(String::from("x")).code(), 0);
    let be = Error::BackendUnavailable {
        provider: TTSMode::gTTS,
        cause: String::from("x"),
    };
    assert_eq!(be.code(), 0);
    assert_eq!(Error::CredentialError(String::from("x")).code(), 0);
}

#[test]
fn error_statuses_follow_the_taxonomy() {
    assert_eq!(Error::AudioTooLong.http_status(), 400);
    assert_eq!(Error::InvalidSpeakingRate(1).http_status(), 400);
    assert_eq!(Error::UnknownVoice(String::from("x")).http_status(), 400);
    assert_eq!(Error::Unauthorized.http_status(), 403);
    assert_eq!(Error::Unknown(String::from("x")).http_status(), 500);
}

#[test]
fn error_messages() {
    assert_eq!(Error::InvalidSpeakingRate(40_001).message(), "Invalid speaking rate: 4.0001");
    assert_eq!(Error::InvalidSpeakingRate(0).message(), "Invalid speaking rate: 0.0000");
    assert_eq!(Error::AudioTooLong.message(), "Max length exceeded!");
    assert_eq!(Error::UnknownVoice(String::from("abc")).message(), "Unknown voice: abc");
    assert_eq!(Error::Unauthorized.message(), "Unauthorized request");
}

#[test]
fn server_errors_are_opaque_to_the_client() {
    // The user-facing message never carries the internal cause; that stays in
    // `detail`, for the log.
    let e = Error::Unknown(String::from("db password rejected"));
    assert_eq!(e.message(), "Unknown error");
    assert_eq!(e.detail().map(String::as_str), Some("db password rejected"));

    let e = Error::BackendUnavailable {
        provider: TTSMode::gCloud,
        cause: String::from("tls handshake: internal-host:8443"),
    };
    assert_eq!(e.message(), "Backend gCloud unavailable");
    assert_eq!(e.detail().map(String::as_str), Some("tls handshake: internal-host:8443"));

    let e = Error::CredentialError(String::from("key id 17 rotated"));
    assert_eq!(e.message(), "Credential error");
    assert_eq!(e.detail().map(String::as_str), Some("key id 17 rotated"));

    // Client-caused errors carry their message and no separate detail.
    assert_eq!(Error::AudioTooLong.detail(), None);
    assert_eq!(Error::Unauthorized.detail(), None);
    assert_eq!(Error::InvalidSpeakingRate(1).detail(), None);
    assert_eq!(Error::UnknownVoice(String::from("x")).detail(), None);
}

#[test]
fn content_types_per_mode() {
    assert_eq!(TTSMode::gTTS.content_type(), "audio/mpeg");
    assert_eq!(TTSMode::eSpeak.content_type(), "audio/wav");
    assert_eq!(TTSMode::gCloud.content_type(), "audio/opus");
    assert_eq!(TTSMode::Polly.content_type(), "audio/ogg");
}

#[test]
fn finished_response_carries_audio_and_content_type() {
    let req = request(TTSMode::eSpeak, None, None);
    let audio = vec![1u8, 2, 3];
    let done = DispatchState::Finished { audio: audio.clone() };
    let (a, ct) = dispatch_response(&req, done).expect("a finished request has a response");
    assert_eq!(a, audio);
    assert_eq!(ct, "audio/wav");
    assert!(dispatch_response(&req, DispatchState::CheckingVoice).is_none());
}

#[test]
fn mode_names_and_listing() {
    assert_eq!(TTSMode::gTTS.name(), "gTTS");
    assert_eq!(TTSMode::Polly.name(), "Polly");
    assert_eq!(TTSMode::eSpeak.name(), "eSpeak");
    assert_eq!(TTSMode::gCloud.name(), "gCloud");
    let modes = list_modes();
    assert_eq!(modes, vec!["gTTS", "Polly", "eSpeak", "gCloud"]);
}

#[test]
fn max_speaking_rates() {
    assert_eq!(TTSMode::gTTS.max_speaking_rate(), None);
    assert_eq!(TTSMode::Polly.max_speaking_rate(), Some(5_000_000));
    assert_eq!(TTSMode::eSpeak.max_speaking_rate(), Some(4_000_000));
    assert_eq!(TTSMode::gCloud.max_speaking_rate(), Some(40_000));
}
