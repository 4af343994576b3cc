//! The gateway's error taxonomy.
//!
//! Client-caused failures (bad rate, unknown voice, audio over the caller's
//! limit) carry a stable numeric code and a human-readable message; server
//! failures are reported opaquely. Cache failures never appear here: the
//! dispatcher degrades them to cache misses.

use vstd::prelude::*;
use vstd::string::StringExecFns;

use crate::digits::{dec_chars_of, u64_to_dec_string};
use crate::mode::TTSMode;

verus! {

/// Everything that can end a request without audio.
#[derive(Debug)]
pub enum Error {
    Unauthorized,
    UnknownVoice(String),
    AudioTooLong,
    /// The offending rate, in ten-thousandths of a unit.
    InvalidSpeakingRate(u32),
    BackendUnavailable { provider: TTSMode, cause: String },
    CredentialError(String),
    Unknown(String),
}

/// Decimal digit bytes of `n`, exactly `width` digits wide, zero-padded,
/// truncated to the low `width` digits.
pub open spec fn fixed_digits_of(n: nat, width: nat) -> Seq<u8>
    decreases width,
{
    if width == 0 {
        Seq::empty()
    } else {
        fixed_digits_of(n / 10, (width - 1) as nat).push((n % 10 + 0x30) as u8)
    }
}

proof fn lemma_fixed_digits_ascii(n: nat, width: nat)
    ensures
        fixed_digits_of(n, width).len() == width,
        forall|i: int|
            0 <= i < width ==> 0x30 <= #[trigger] fixed_digits_of(n, width)[i] < 0x3a,
    decreases width,
{
    if width > 0 {
        lemma_fixed_digits_ascii(n / 10, (width - 1) as nat);
        assert forall|i: int| 0 <= i < width implies 0x30 <= #[trigger] fixed_digits_of(n, width)[i]
            < 0x3a by {
            let prefix = fixed_digits_of(n / 10, (width - 1) as nat);
            if i < prefix.len() {
                assert(fixed_digits_of(n, width)[i] == prefix[i]);
            }
        }
    }
}

fn push_fixed_digits(m: u64, width: usize, out: &mut Vec<u8>)
    ensures
        final(out)@ == old(out)@ + fixed_digits_of(m as nat, width as nat),
    decreases width,
{
    if width > 0 {
        push_fixed_digits(m / 10, width - 1, out);
        out.push((m % 10) as u8 + 0x30);
    } else {
        proof {
            assert(old(out)@ + fixed_digits_of(m as nat, 0) =~= old(out)@);
        }
    }
}

/// A fixed-point rate rendered as a decimal fraction: whole part, a dot, and
/// the four fractional digits.
pub open spec fn rate_chars_of(r: u32) -> Seq<char> {
    dec_chars_of((r / 10_000) as nat) + "."@ + fixed_digits_of(
        (r % 10_000) as nat,
        4,
    ).map_values(|b: u8| b as char)
}

pub fn rate_to_string(r: u32) -> (s: String)
    ensures
        s@ == rate_chars_of(r),
{
    let mut s = u64_to_dec_string((r / 10_000) as u64);
    s.append(".");
    let mut frac: Vec<u8> = Vec::new();
    push_fixed_digits((r % 10_000) as u64, 4, &mut frac);
    proof {
        lemma_fixed_digits_ascii((r % 10_000) as nat, 4);
        assert(frac@ =~= fixed_digits_of((r % 10_000) as nat, 4));
    }
    let frac_s = crate::digits::ascii_string(frac);
    s.append(frac_s.as_str());
    proof {
        assert(s@ =~= rate_chars_of(r));
    }
    s
}

impl Error {
    /// The stable machine-readable code carried by the error response.
    pub open spec fn code_spec(self) -> u8 {
        match self {
            Error::Unauthorized => 4,
            Error::InvalidSpeakingRate(_) => 3,
            Error::AudioTooLong => 2,
            Error::UnknownVoice(_) => 1,
            Error::BackendUnavailable { .. } => 0,
            Error::CredentialError(_) => 0,
            Error::Unknown(_) => 0,
        }
    }

    pub fn code(&self) -> (r: u8)
        ensures
            r == self.code_spec(),
    {
        match self {
            Error::Unauthorized => 4,
            Error::InvalidSpeakingRate(_) => 3,
            Error::AudioTooLong => 2,
            Error::UnknownVoice(_) => 1,
            Error::BackendUnavailable { .. } => 0,
            Error::CredentialError(_) => 0,
            Error::Unknown(_) => 0,
        }
    }

    /// The HTTP status class the transport layer answers with: client-caused
    /// failures are 400, unauthorized access 403, server failures 500.
    pub open spec fn http_status_spec(self) -> u16 {
        match self {
            Error::AudioTooLong => 400,
            Error::InvalidSpeakingRate(_) => 400,
            Error::UnknownVoice(_) => 400,
            Error::Unauthorized => 403,
            Error::BackendUnavailable { .. } => 500,
            Error::CredentialError(_) => 500,
            Error::Unknown(_) => 500,
        }
    }

    pub fn http_status(&self) -> (r: u16)
        ensures
            r == self.http_status_spec(),
    {
        match self {
            Error::AudioTooLong => 400,
            Error::InvalidSpeakingRate(_) => 400,
            Error::UnknownVoice(_) => 400,
            Error::Unauthorized => 403,
            Error::BackendUnavailable { .. } => 500,
            Error::CredentialError(_) => 500,
            Error::Unknown(_) => 500,
        }
    }

    /// The human-readable message carried by the error response. Client-caused
    /// failures name what the client sent; server-caused failures are opaque
    /// and never carry internal cause text — that stays in `detail`, for the
    /// log.
    pub open spec fn message_spec(self) -> Seq<char> {
        match self {
            Error::InvalidSpeakingRate(r) => "Invalid speaking rate: "@ + rate_chars_of(r),
            Error::AudioTooLong => "Max length exceeded!"@,
            Error::UnknownVoice(v) => "Unknown voice: "@ + v@,
            Error::Unauthorized => "Unauthorized request"@,
            Error::BackendUnavailable { provider, .. } => "Backend "@ + provider.name_spec()
                + " unavailable"@,
            Error::CredentialError(_) => "Credential error"@,
            Error::Unknown(_) => "Unknown error"@,
        }
    }

    pub fn message(&self) -> (r: String)
        ensures
            r@ == self.message_spec(),
    {
        let mut s = String::new();
        match self {
            Error::InvalidSpeakingRate(r) => {
                s.append("Invalid speaking rate: ");
                let rate_s = rate_to_string(*r);
                s.append(rate_s.as_str());
            },
            Error::AudioTooLong => {
                s.append("Max length exceeded!");
            },
            Error::UnknownVoice(v) => {
                s.append("Unknown voice: ");
                s.append(v.as_str());
            },
            Error::Unauthorized => {
                s.append("Unauthorized request");
            },
            Error::BackendUnavailable { provider, .. } => {
                s.append("Backend ");
                s.append(provider.name());
                s.append(" unavailable");
            },
            Error::CredentialError(_) => {
                s.append("Credential error");
            },
            Error::Unknown(_) => {
                s.append("Unknown error");
            },
        }
        proof {
            assert(s@ =~= self.message_spec());
        }
        s
    }

    /// The internal cause of a server-caused failure, for the log alone;
    /// `None` for client-caused failures, which carry everything they may in
    /// their message.
    pub open spec fn detail_spec(self) -> Option<Seq<char>> {
        match self {
            Error::BackendUnavailable { cause, .. } => Some(cause@),
            Error::CredentialError(c) => Some(c@),
            Error::Unknown(c) => Some(c@),
            Error::Unauthorized => None,
            Error::UnknownVoice(_) => None,
            Error::AudioTooLong => None,
            Error::InvalidSpeakingRate(_) => None,
        }
    }

    pub fn detail(&self) -> (r: Option<&String>)
        ensures
            r is Some <==> self.detail_spec() is Some,
            r matches Some(d) ==> self.detail_spec() == Some(d@),
    {
        match self {
            Error::BackendUnavailable { cause, .. } => Some(cause),
            Error::CredentialError(c) => Some(c),
            Error::Unknown(c) => Some(c),
            Error::Unauthorized => None,
            Error::UnknownVoice(_) => None,
            Error::AudioTooLong => None,
            Error::InvalidSpeakingRate(_) => None,
        }
    }
}

} // verus!
