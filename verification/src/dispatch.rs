//! The per-request dispatch state machine.
//!
//! A request moves through a fixed order — rate check, voice check, cache
//! lookup, synthesis, cache store, length check — terminal on the first
//! failure or on the response. The machine here makes every decision; the
//! surrounding server performs the I/O each state calls for (ask the provider
//! about the voice, read or write the cache store, synthesize) and feeds the
//! outcome back as an event. States the driver has no event for, and events
//! that do not fit the state, leave the state unchanged.
//!
//! Concurrent identical requests may both miss the cache and both synthesize
//! and store; that duplicate-work window is an accepted trade-off, and no
//! cross-request ordering is promised.

use vstd::prelude::*;
use vstd::string::StringExecFns;

use crate::cache::SynthesisRequest;
use crate::error::Error;

verus! {

/// Where a request stands. Each non-terminal state names the one piece of
/// outside work the driver owes the machine next.
#[derive(Debug)]
pub enum DispatchState {
    /// Ask the provider whether the requested voice exists.
    CheckingVoice,
    /// Read the cache store under the request's fingerprint and open it.
    LookingUp,
    /// Ask the provider to synthesize.
    Synthesizing,
    /// Seal the audio and write it to the cache store.
    Storing { audio: Vec<u8> },
    /// Respond with the audio.
    Finished { audio: Vec<u8> },
    /// Respond with the error.
    Failed { error: Error },
}

/// What the outside work came back with.
#[derive(Debug)]
pub enum DispatchEvent {
    VoiceValid,
    VoiceInvalid,
    VoiceCheckFailed { cause: String },
    /// A stored entry was found and decrypted.
    CacheHit { audio: Vec<u8> },
    /// No entry, a store that is not configured or unreachable, or an entry
    /// that failed decryption: all degrade to a miss.
    CacheMiss,
    SynthesisOk { audio: Vec<u8> },
    SynthesisFailed { cause: String },
    StoreOk,
    StoreFailed { cause: String },
}

/// The state a request starts in: failed outright on a rate over the
/// provider's bound, otherwise checking the voice. Validation precedes any
/// network or cache cost.
pub open spec fn dispatch_start_spec(req: SynthesisRequest) -> DispatchState {
    if req.mode.speaking_rate_ok(req.speaking_rate) {
        DispatchState::CheckingVoice
    } else {
        DispatchState::Failed { error: Error::InvalidSpeakingRate(req.speaking_rate.unwrap()) }
    }
}

pub fn dispatch_start(req: &SynthesisRequest) -> (s: DispatchState)
    ensures
        s == dispatch_start_spec(*req),
{
    match req.mode.check_speaking_rate(req.speaking_rate) {
        Ok(()) => DispatchState::CheckingVoice,
        Err(e) => DispatchState::Failed { error: e },
    }
}

/// The transition relation. `cache_enabled` says whether a cache store is
/// configured; without one the lookup and store steps are skipped. The length
/// check runs on the way out of the machine, identically for cached and
/// fresh audio.
pub open spec fn dispatch_step_spec(
    req: SynthesisRequest,
    cache_enabled: bool,
    s: DispatchState,
    e: DispatchEvent,
) -> DispatchState {
    match (s, e) {
        (DispatchState::CheckingVoice, DispatchEvent::VoiceValid) => if cache_enabled {
            DispatchState::LookingUp
        } else {
            DispatchState::Synthesizing
        },
        (DispatchState::CheckingVoice, DispatchEvent::VoiceInvalid) => DispatchState::Failed {
            error: Error::UnknownVoice(req.voice),
        },
        (DispatchState::CheckingVoice, DispatchEvent::VoiceCheckFailed { cause }) =>
            DispatchState::Failed {
            error: Error::BackendUnavailable { provider: req.mode, cause },
        },
        (DispatchState::LookingUp, DispatchEvent::CacheHit { audio }) => if req.mode.length_ok(
            audio@,
            req.max_length,
        ) {
            DispatchState::Finished { audio }
        } else {
            DispatchState::Failed { error: Error::AudioTooLong }
        },
        (DispatchState::LookingUp, DispatchEvent::CacheMiss) => DispatchState::Synthesizing,
        (DispatchState::Synthesizing, DispatchEvent::SynthesisOk { audio }) => if cache_enabled {
            DispatchState::Storing { audio }
        } else if req.mode.length_ok(audio@, req.max_length) {
            DispatchState::Finished { audio }
        } else {
            DispatchState::Failed { error: Error::AudioTooLong }
        },
        (DispatchState::Synthesizing, DispatchEvent::SynthesisFailed { cause }) =>
            DispatchState::Failed {
            error: Error::BackendUnavailable { provider: req.mode, cause },
        },
        (DispatchState::Storing { audio }, DispatchEvent::StoreOk) => if req.mode.length_ok(
            audio@,
            req.max_length,
        ) {
            DispatchState::Finished { audio }
        } else {
            DispatchState::Failed { error: Error::AudioTooLong }
        },
        (DispatchState::Storing { audio }, DispatchEvent::StoreFailed { .. }) => if req
            .mode.length_ok(audio@, req.max_length) {
            DispatchState::Finished { audio }
        } else {
            DispatchState::Failed { error: Error::AudioTooLong }
        },
        (s, _) => s,
    }
}

/// Advances a request by one event.
pub fn dispatch_step(
    req: &SynthesisRequest,
    cache_enabled: bool,
    s: DispatchState,
    e: DispatchEvent,
) -> (r: DispatchState)
    ensures
        r == dispatch_step_spec(*req, cache_enabled, s, e),
{
    match (s, e) {
        (DispatchState::CheckingVoice, DispatchEvent::VoiceValid) => if cache_enabled {
            DispatchState::LookingUp
        } else {
            DispatchState::Synthesizing
        },
        (DispatchState::CheckingVoice, DispatchEvent::VoiceInvalid) => DispatchState::Failed {
            error: Error::UnknownVoice(req.voice.clone()),
        },
        (DispatchState::CheckingVoice, DispatchEvent::VoiceCheckFailed { cause }) =>
            DispatchState::Failed {
            error: Error::BackendUnavailable { provider: req.mode, cause },
        },
        (DispatchState::LookingUp, DispatchEvent::CacheHit { audio }) => match req.mode
            .check_length(&audio, req.max_length) {
            Ok(()) => DispatchState::Finished { audio },
            Err(e) => DispatchState::Failed { error: e },
        },
        (DispatchState::LookingUp, DispatchEvent::CacheMiss) => DispatchState::Synthesizing,
        (DispatchState::Synthesizing, DispatchEvent::SynthesisOk { audio }) => if cache_enabled {
            DispatchState::Storing { audio }
        } else {
            match req.mode.check_length(&audio, req.max_length) {
                Ok(()) => DispatchState::Finished { audio },
                Err(e) => DispatchState::Failed { error: e },
            }
        },
        (DispatchState::Synthesizing, DispatchEvent::SynthesisFailed { cause }) =>
            DispatchState::Failed {
            error: Error::BackendUnavailable { provider: req.mode, cause },
        },
        (DispatchState::Storing { audio }, DispatchEvent::StoreOk) => match req.mode.check_length(
            &audio,
            req.max_length,
        ) {
            Ok(()) => DispatchState::Finished { audio },
            Err(e) => DispatchState::Failed { error: e },
        },
        (DispatchState::Storing { audio }, DispatchEvent::StoreFailed { .. }) => match req
            .mode.check_length(&audio, req.max_length) {
            Ok(()) => DispatchState::Finished { audio },
            Err(e) => DispatchState::Failed { error: e },
        },
        (s, _) => s,
    }
}

/// The response a finished request answers with: the audio bytes, unaltered,
/// and the provider's content type. `None` for a request that has not
/// finished.
pub fn dispatch_response(req: &SynthesisRequest, s: DispatchState) -> (r: Option<(Vec<u8>, String)>)
    ensures
        r is Some <==> s is Finished,
        s matches DispatchState::Finished { audio } ==> (r matches Some((a, ct)) && a == audio
            && ct@ == req.mode.content_type_spec()),
{
    match s {
        DispatchState::Finished { audio } => Some(
            (audio, String::from_str(req.mode.content_type())),
        ),
        _ => None,
    }
}

/// Law: a voice the provider does not know fails the request with
/// `UnknownVoice`, and the machine never moves into synthesis from the voice
/// check — no synthesis network call is ever owed for an invalid voice.
pub proof fn lemma_unknown_voice_fails(req: SynthesisRequest, cache_enabled: bool)
    ensures
        dispatch_step_spec(req, cache_enabled, DispatchState::CheckingVoice, DispatchEvent::VoiceInvalid)
            == (DispatchState::Failed { error: Error::UnknownVoice(req.voice) }),
{
}

/// Law: synthesis is only ever entered from a successful voice check (with no
/// cache configured) or from a cache miss — never from a cache hit, and never
/// before the voice was validated.
pub proof fn lemma_synthesis_needs_voice_check(
    req: SynthesisRequest,
    cache_enabled: bool,
    s: DispatchState,
    e: DispatchEvent,
)
    requires
        !(s is Synthesizing),
        dispatch_step_spec(req, cache_enabled, s, e) is Synthesizing,
    ensures
        (s is CheckingVoice && e is VoiceValid && !cache_enabled) || (s is LookingUp
            && e is CacheMiss),
{
}

/// Law: the length limit applies to cached audio exactly as to fresh audio —
/// a stored entry that no longer fits a later caller's stricter limit is
/// rejected with `AudioTooLong` even though it was accepted when stored.
pub proof fn lemma_cached_audio_length_checked(
    req: SynthesisRequest,
    cache_enabled: bool,
    audio: Vec<u8>,
)
    requires
        !req.mode.length_ok(audio@, req.max_length),
    ensures
        dispatch_step_spec(
            req,
            cache_enabled,
            DispatchState::LookingUp,
            DispatchEvent::CacheHit { audio },
        ) == (DispatchState::Failed { error: Error::AudioTooLong }),
{
}

/// Law: with a cache configured, a miss leads to exactly one synthesis and
/// then one store before the response, while a hit leads to no synthesis at
/// all.
pub proof fn lemma_miss_synthesizes_once_then_stores(
    req: SynthesisRequest,
    audio: Vec<u8>,
    hit_audio: Vec<u8>,
)
    ensures
        dispatch_step_spec(req, true, DispatchState::LookingUp, DispatchEvent::CacheMiss)
            == DispatchState::Synthesizing,
        dispatch_step_spec(
            req,
            true,
            DispatchState::Synthesizing,
            DispatchEvent::SynthesisOk { audio },
        ) == (DispatchState::Storing { audio }),
        req.mode.length_ok(audio@, req.max_length) ==> dispatch_step_spec(
            req,
            true,
            DispatchState::Storing { audio },
            DispatchEvent::StoreOk,
        ) == (DispatchState::Finished { audio }),
        !(dispatch_step_spec(
            req,
            true,
            DispatchState::LookingUp,
            DispatchEvent::CacheHit { audio: hit_audio },
        ) is Synthesizing),
{
}

/// Law: a failed cache store never fails the request — the machine moves on
/// exactly as it would have after a successful store.
pub proof fn lemma_store_failure_ignored(
    req: SynthesisRequest,
    cache_enabled: bool,
    audio: Vec<u8>,
    cause: String,
)
    ensures
        dispatch_step_spec(
            req,
            cache_enabled,
            DispatchState::Storing { audio },
            DispatchEvent::StoreFailed { cause },
        ) == dispatch_step_spec(
            req,
            cache_enabled,
            DispatchState::Storing { audio },
            DispatchEvent::StoreOk,
        ),
{
}

} // verus!
