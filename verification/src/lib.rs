//! Core of a text-to-speech gateway: request validation, dispatch to a
//! backend provider, an encrypted audio cache, and credential refresh.
//!
//! The gateway sits in front of several independent speech providers. A
//! client names a provider mode, a voice and a text; the core validates the
//! request, arbitrates the cache-miss-then-synthesize-then-store path, and
//! enforces the caller's audio-length limit. All network and storage I/O is
//! performed by the surrounding server, driven by the dispatch state machine
//! defined here.

pub mod audio;
pub mod cache;
pub mod digits;
pub mod dispatch;
pub mod error;
pub mod mode;
pub mod premium;

pub use cache::{CacheCipher, SynthesisRequest};
pub use dispatch::{DispatchEvent, DispatchState};
pub use error::Error;
pub use mode::TTSMode;
pub use premium::{GoogleRequestParams, GoogleVoice, JwtClaims, ServiceAccount, TokenState};
