//! The closed set of speech providers and their per-provider limits.
//!
//! Speaking rates are carried as fixed-point integers in ten-thousandths of
//! a unit (a rate of `1.5` is `15_000`), so that the bounds can be compared
//! exactly.

use vstd::prelude::*;
use vstd::string::StringExecFns;

use crate::error::Error;

verus! {

/// The providers the gateway can dispatch to.
#[allow(non_camel_case_types)]
#[derive(Clone, Copy, Debug, PartialEq, Eq, Structural)]
pub enum TTSMode {
    gTTS,
    Polly,
    eSpeak,
    gCloud,
}

impl TTSMode {
    /// Upper bound on the speaking rate a provider accepts, in ten-thousandths
    /// of a unit; `None` means the provider is unconstrained.
    pub open spec fn max_speaking_rate_spec(self) -> Option<u32> {
        match self {
            TTSMode::gTTS => None,
            TTSMode::Polly => Some(5_000_000u32),
            TTSMode::eSpeak => Some(4_000_000u32),
            TTSMode::gCloud => Some(40_000u32),
        }
    }

    pub fn max_speaking_rate(self) -> (r: Option<u32>)
        ensures
            r == self.max_speaking_rate_spec(),
    {
        match self {
            TTSMode::gTTS => None,
            TTSMode::Polly => Some(5_000_000),
            TTSMode::eSpeak => Some(4_000_000),
            TTSMode::gCloud => Some(40_000),
        }
    }

    /// The provider's canonical name, as used in cache keys and mode listings.
    pub open spec fn name_spec(self) -> Seq<char> {
        match self {
            TTSMode::gTTS => "gTTS"@,
            TTSMode::Polly => "Polly"@,
            TTSMode::eSpeak => "eSpeak"@,
            TTSMode::gCloud => "gCloud"@,
        }
    }

    pub fn name(self) -> (r: &'static str)
        ensures
            r@ == self.name_spec(),
    {
        match self {
            TTSMode::gTTS => "gTTS",
            TTSMode::Polly => "Polly",
            TTSMode::eSpeak => "eSpeak",
            TTSMode::gCloud => "gCloud",
        }
    }

    /// No provider name contains a space, so a name can stand between
    /// space delimiters in a cache key.
    pub proof fn lemma_name_space_free(self)
        ensures
            forall|i: int|
                0 <= i < self.name_spec().len() ==> #[trigger] self.name_spec()[i] != ' ',
    {
        reveal_strlit("gTTS");
        reveal_strlit("Polly");
        reveal_strlit("eSpeak");
        reveal_strlit("gCloud");
    }

    /// Provider names are pairwise distinct.
    pub proof fn lemma_name_injective(self, other: TTSMode)
        requires
            self.name_spec() == other.name_spec(),
        ensures
            self == other,
    {
        reveal_strlit("gTTS");
        reveal_strlit("Polly");
        reveal_strlit("eSpeak");
        reveal_strlit("gCloud");
        if self != other {
            assert("gTTS"@.len() == 4);
            assert("Polly"@.len() == 5);
            assert("eSpeak"@.len() == 6);
            assert("gCloud"@.len() == 6);
            assert("eSpeak"@[0] == 'e');
            assert("gCloud"@[0] == 'g');
            assert(false);
        }
    }

    /// The content type of the audio this provider returns.
    pub open spec fn content_type_spec(self) -> Seq<char> {
        match self {
            TTSMode::gTTS => "audio/mpeg"@,
            TTSMode::eSpeak => "audio/wav"@,
            TTSMode::gCloud => "audio/opus"@,
            TTSMode::Polly => "audio/ogg"@,
        }
    }

    pub fn content_type(self) -> (r: &'static str)
        ensures
            r@ == self.content_type_spec(),
    {
        match self {
            TTSMode::gTTS => "audio/mpeg",
            TTSMode::eSpeak => "audio/wav",
            TTSMode::gCloud => "audio/opus",
            TTSMode::Polly => "audio/ogg",
        }
    }

    /// Whether a requested rate is within the provider's bound. An absent rate
    /// or an unconstrained provider accepts anything; the bound itself is
    /// accepted, only a strictly greater rate is not.
    pub open spec fn speaking_rate_ok(self, speaking_rate: Option<u32>) -> bool {
        match speaking_rate {
            None => true,
            Some(r) => match self.max_speaking_rate_spec() {
                None => true,
                Some(max) => r <= max,
            },
        }
    }

    /// Rejects a rate over the provider's bound, before any network or cache
    /// cost is paid.
    pub fn check_speaking_rate(self, speaking_rate: Option<u32>) -> (r: Result<(), Error>)
        ensures
            r is Ok <==> self.speaking_rate_ok(speaking_rate),
            r matches Err(e) ==> e == Error::InvalidSpeakingRate(speaking_rate.unwrap()),
    {
        if let Some(rate) = speaking_rate {
            if let Some(max) = self.max_speaking_rate() {
                if rate > max {
                    return Err(Error::InvalidSpeakingRate(rate));
                }
            }
        }
        Ok(())
    }
}

/// The canonical listing of provider names, in dispatch order.
pub fn list_modes() -> (r: Vec<String>)
    ensures
        r@.len() == 4,
        r@[0]@ == TTSMode::gTTS.name_spec(),
        r@[1]@ == TTSMode::Polly.name_spec(),
        r@[2]@ == TTSMode::eSpeak.name_spec(),
        r@[3]@ == TTSMode::gCloud.name_spec(),
{
    let mut v: Vec<String> = Vec::new();
    v.push(String::from_str(TTSMode::gTTS.name()));
    v.push(String::from_str(TTSMode::Polly.name()));
    v.push(String::from_str(TTSMode::eSpeak.name()));
    v.push(String::from_str(TTSMode::gCloud.name()));
    v
}

} // verus!
