//! The cache subsystem: deterministic request fingerprints and the symmetric
//! cipher that encrypts audio at rest.
//!
//! A fingerprint is the SHA-256 digest of a canonical cache-key string built
//! from the request's semantically relevant fields, so raw user text is never
//! used as a storage key and key width is fixed. Audio is sealed with a
//! fernet cipher before it reaches the store; opening a stored entry treats
//! every failure (foreign key, corruption) as a cache miss.

use vstd::prelude::*;
use vstd::string::StringExecFns;
use vstd::utf8::encode_utf8;

use sha2::Digest;

use crate::digits::{dec_chars_of, u64_to_dec_string};
use crate::mode::TTSMode;

verus! {

/// One synthesis request, as the transport layer hands it to the core.
/// `speaking_rate` is in ten-thousandths of a unit; `max_length` is in
/// seconds.
pub struct SynthesisRequest {
    pub text: String,
    pub mode: TTSMode,
    pub voice: String,
    pub speaking_rate: Option<u32>,
    pub max_length: Option<u64>,
    pub preferred_format: Option<String>,
}

/// The rate a request is keyed under: the requested rate, or zero where none
/// was requested.
pub open spec fn rate_or_zero(req: SynthesisRequest) -> u32 {
    match req.speaking_rate {
        None => 0u32,
        Some(r) => r,
    }
}

/// The delimited code for the optional preferred format: its length for a
/// present format, a dash for an absent one. A dash is no decimal rendering,
/// so the two cases can never read alike.
pub open spec fn format_code(req: SynthesisRequest) -> Seq<char> {
    match req.preferred_format {
        None => "-"@,
        Some(f) => dec_chars_of(f@.len()),
    }
}

/// The free-text tail of the format: the format itself, or nothing.
pub open spec fn format_chars(req: SynthesisRequest) -> Seq<char> {
    match req.preferred_format {
        None => Seq::<char>::empty(),
        Some(f) => f@,
    }
}

/// The free-text tail of the key: text, voice and format, back to back; the
/// head announces each of their lengths.
pub open spec fn key_tail(req: SynthesisRequest) -> Seq<char> {
    req.text@ + req.voice@ + format_chars(req)
}

pub open spec fn key_after_rate(req: SynthesisRequest) -> Seq<char> {
    format_code(req) + " "@ + key_tail(req)
}

pub open spec fn key_after_mode(req: SynthesisRequest) -> Seq<char> {
    dec_chars_of(rate_or_zero(req) as nat) + " "@ + key_after_rate(req)
}

pub open spec fn key_after_voice_len(req: SynthesisRequest) -> Seq<char> {
    req.mode.name_spec() + " "@ + key_after_mode(req)
}

pub open spec fn key_after_text_len(req: SynthesisRequest) -> Seq<char> {
    dec_chars_of(req.voice@.len()) + " "@ + key_after_voice_len(req)
}

/// The canonical cache-key string of a request. The free-text fields (text,
/// voice, format) stand at the end, each announced by its length in the
/// space-delimited head, so the key is injective in its fields: free text may
/// contain anything, spaces included, without two distinct requests ever
/// reading alike. The caller's `max_length` is deliberately not part of the
/// key.
pub open spec fn cache_key_spec(req: SynthesisRequest) -> Seq<char> {
    dec_chars_of(req.text@.len()) + " "@ + key_after_text_len(req)
}

#[verifier::rlimit(100)]
pub fn cache_key(req: &SynthesisRequest) -> (r: String)
    ensures
        r@ == cache_key_spec(*req),
{
    let mut s = String::new();
    let text_len = u64_to_dec_string(req.text.as_str().unicode_len() as u64);
    s.append(text_len.as_str());
    s.append(" ");
    let voice_len = u64_to_dec_string(req.voice.as_str().unicode_len() as u64);
    s.append(voice_len.as_str());
    s.append(" ");
    s.append(req.mode.name());
    s.append(" ");
    let rate: u32 = match req.speaking_rate {
        None => 0,
        Some(r) => r,
    };
    let rate_s = u64_to_dec_string(rate as u64);
    s.append(rate_s.as_str());
    s.append(" ");
    match &req.preferred_format {
        None => s.append("-"),
        Some(f) => {
            let fmt_len = u64_to_dec_string(f.as_str().unicode_len() as u64);
            s.append(fmt_len.as_str());
        },
    }
    s.append(" ");
    s.append(req.text.as_str());
    s.append(req.voice.as_str());
    if let Some(f) = &req.preferred_format {
        s.append(f.as_str());
    }
    proof {
        assert(s@ =~= cache_key_spec(*req));
    }
    s
}

/// The SHA-256 digest of a byte sequence. The digest itself is far too wide
/// to state; the contracts only need that it is a function of the input.
pub uninterp spec fn sha256_of(data: Seq<u8>) -> Seq<u8>;

/// Relies on sha2::Sha256::digest: the digest depends on the input bytes
/// alone and is 32 bytes wide.
#[verifier::external_body]
fn sha256(data: &Vec<u8>) -> (r: Vec<u8>)
    ensures
        r@ == sha256_of(data@),
        r@.len() == 32,
{
    sha2::Sha256::digest(data.as_slice()).to_vec()
}

/// A request's fingerprint: the digest of its canonical cache key's bytes.
pub open spec fn fingerprint_spec(req: SynthesisRequest) -> Seq<u8> {
    sha256_of(encode_utf8(cache_key_spec(req)))
}

/// Computes the fixed-width cache key a request is stored under.
pub fn fingerprint(req: &SynthesisRequest) -> (r: Vec<u8>)
    ensures
        r@ == fingerprint_spec(*req),
        r@.len() == 32,
{
    let key = cache_key(req);
    let bytes = key.as_str().as_bytes_vec();
    sha256(&bytes)
}

#[verifier::external_type_specification]
#[verifier::external_body]
pub struct ExFernet(fernet::Fernet);

/// The plaintext a fernet token carries under a given key, or `None` for a
/// token that carries none under it (malformed, foreign-keyed or tampered).
/// This is a function of the key and the token alone; whether a `decrypt`
/// call surfaces it also depends on the token's embedded timestamp and the
/// clock, of which nothing is assumed.
pub uninterp spec fn fernet_plain_of(key: Seq<char>, token: Seq<char>) -> Option<Seq<u8>>;

/// Whether fernet accepts a key string: a url-safe base64 encoding of exactly
/// 32 bytes.
pub uninterp spec fn fernet_key_ok(key: Seq<char>) -> bool;

/// The symmetric cipher audio is sealed with before it reaches the cache
/// store. The key string is kept beside the cipher so contracts can speak of
/// which key a token was sealed under.
pub struct CacheCipher {
    fernet: fernet::Fernet,
    key: String,
}

impl CacheCipher {
    /// The key this cipher was built from.
    pub closed spec fn key_view(self) -> Seq<char> {
        self.key@
    }

    /// Relies on fernet::Fernet::new: it accepts a key — returns `Some` —
    /// exactly when the key is a url-safe base64 encoding of 32 bytes, a
    /// shape too wide to state here.
    #[verifier::external_body]
    fn new_fernet(key: &str) -> (r: Option<fernet::Fernet>)
        ensures
            r is Some <==> fernet_key_ok(key@),
    {
        fernet::Fernet::new(key)
    }

    /// Builds a cipher from a url-safe base64 key, or `None` for a key of the
    /// wrong shape.
    pub fn from_key(key: String) -> (r: Option<CacheCipher>)
        ensures
            r is Some <==> fernet_key_ok(key@),
            r matches Some(c) ==> c.key_view() == key@,
    {
        match Self::new_fernet(key.as_str()) {
            Some(f) => Some(CacheCipher { fernet: f, key }),
            None => None,
        }
    }

    /// Relies on fernet::Fernet::encrypt: the returned token carries exactly
    /// the given bytes under this cipher's key (fernet's round-trip
    /// guarantee). The token itself also depends on a random IV and the
    /// clock, so nothing more is stated of it.
    #[verifier::external_body]
    fn encrypt(&self, data: &Vec<u8>) -> (r: String)
        ensures
            fernet_plain_of(self.key_view(), r@) == Some(data@),
    {
        self.fernet.encrypt(data.as_slice())
    }

    /// Relies on fernet::Fernet::decrypt: a successful decryption returns the
    /// bytes the token carries under this key, and a token that carries none
    /// never decrypts. Success is not promised: decryption also rejects a
    /// token whose embedded timestamp lies too far past the clock.
    #[verifier::external_body]
    fn decrypt(&self, token: &str) -> (r: Option<Vec<u8>>)
        ensures
            r matches Some(p) ==> fernet_plain_of(self.key_view(), token@) == Some(p@),
            fernet_plain_of(self.key_view(), token@) is None ==> r is None,
    {
        self.fernet.decrypt(token).ok()
    }
}

/// Seals audio for the cache store. The returned token opens back to exactly
/// these bytes under the same cipher.
pub fn seal(cipher: &CacheCipher, audio: &Vec<u8>) -> (r: String)
    ensures
        fernet_plain_of(cipher.key_view(), r@) == Some(audio@),
{
    cipher.encrypt(audio)
}

/// Opens what the cache store returned for a fingerprint. An absent entry and
/// an entry that fails decryption (corrupted, or sealed under a rotated key)
/// are both a miss, never a hard error.
pub fn open_cached(cipher: &CacheCipher, stored: Option<String>) -> (r: Option<Vec<u8>>)
    ensures
        stored is None ==> r is None,
        r matches Some(p) ==> stored matches Some(tok) && fernet_plain_of(
            cipher.key_view(),
            tok@,
        ) == Some(p@),
{
    match stored {
        None => None,
        Some(tok) => cipher.decrypt(tok.as_str()),
    }
}

/// Law (the provable direction of the cache round trip): opening a token that
/// was just sealed either misses or returns exactly the sealed bytes — the
/// cache can never hand back altered audio. That opening a fresh token in
/// fact succeeds rests on the cipher's clock handling and is exercised by
/// test, not proof.
pub fn cache_round_trip(cipher: &CacheCipher, audio: &Vec<u8>) -> (r: Option<Vec<u8>>)
    ensures
        r matches Some(p) ==> p@ == audio@,
{
    let token = seal(cipher, audio);
    open_cached(cipher, Some(token))
}

/// Law: the fingerprint is a function of the request's semantic fields alone.
/// Two requests with the same text, voice, mode, rate and preferred format
/// have the same fingerprint, whatever their `max_length`.
pub proof fn lemma_fingerprint_deterministic(r1: SynthesisRequest, r2: SynthesisRequest)
    requires
        r1.text@ == r2.text@,
        r1.voice@ == r2.voice@,
        r1.mode == r2.mode,
        r1.speaking_rate == r2.speaking_rate,
        r1.preferred_format is Some <==> r2.preferred_format is Some,
        r1.preferred_format matches Some(f1) ==> f1@ == r2.preferred_format.unwrap()@,
    ensures
        fingerprint_spec(r1) == fingerprint_spec(r2),
{
    assert(cache_key_spec(r1) =~= cache_key_spec(r2));
}

/// All characters differ from the space delimiter.
pub open spec fn space_free(s: Seq<char>) -> bool {
    forall|i: int| 0 <= i < s.len() ==> #[trigger] s[i] != ' '
}

/// Splitting at a space delimiter is unambiguous when neither head contains
/// one.
proof fn lemma_split_at_space(a1: Seq<char>, r1: Seq<char>, a2: Seq<char>, r2: Seq<char>)
    requires
        a1 + " "@ + r1 == a2 + " "@ + r2,
        space_free(a1),
        space_free(a2),
    ensures
        a1 == a2,
        r1 == r2,
{
    reveal_strlit(" ");
    assert(" "@.len() == 1);
    let k1 = a1 + " "@ + r1;
    let k2 = a2 + " "@ + r2;
    assert(k1.len() == a1.len() + 1 + r1.len());
    assert(k2.len() == a2.len() + 1 + r2.len());
    if a1.len() < a2.len() {
        assert(k1[a1.len() as int] == ' ');
        assert(k2[a1.len() as int] == a2[a1.len() as int]);
        assert(false);
    }
    if a2.len() < a1.len() {
        assert(k2[a2.len() as int] == ' ');
        assert(k1[a2.len() as int] == a1[a2.len() as int]);
        assert(false);
    }
    assert forall|i: int| 0 <= i < a1.len() implies a1[i] == a2[i] by {
        assert(k1[i] == a1[i]);
        assert(k2[i] == a2[i]);
    }
    assert(a1 =~= a2);
    assert(r1.len() == r2.len());
    assert forall|i: int| 0 <= i < r1.len() implies r1[i] == r2[i] by {
        assert(k1[i + a1.len() + 1] == r1[i]);
        assert(k2[i + a2.len() + 1] == r2[i]);
    }
    assert(r1 =~= r2);
}

/// Law (the exact core of fingerprint sensitivity): the cache key is
/// injective in the fingerprinted fields — two requests with one key share
/// their text, voice, mode, keyed rate and preferred format. So requests that
/// differ in any of those fields have different keys, and their fingerprints
/// can only collide where the digest itself does; that residue is
/// probabilistic and not stated.
/// From equal tails of known field widths, the fields themselves.
proof fn lemma_tail_fields(r1: SynthesisRequest, r2: SynthesisRequest)
    requires
        key_tail(r1) == key_tail(r2),
        r1.text@.len() == r2.text@.len(),
        r1.voice@.len() == r2.voice@.len(),
        r1.preferred_format is Some <==> r2.preferred_format is Some,
        r1.preferred_format matches Some(f1) ==> f1@.len() == r2.preferred_format.unwrap()@.len(),
    ensures
        r1.text@ == r2.text@,
        r1.voice@ == r2.voice@,
        r1.preferred_format matches Some(f1) ==> f1@ == r2.preferred_format.unwrap()@,
{
    let tail1 = key_tail(r1);
    let tail2 = key_tail(r2);
    assert forall|i: int| 0 <= i < r1.text@.len() implies r1.text@[i] == r2.text@[i] by {
        assert(tail1[i] == r1.text@[i]);
        assert(tail2[i] == r2.text@[i]);
    }
    assert(r1.text@ =~= r2.text@);
    assert forall|i: int| 0 <= i < r1.voice@.len() implies r1.voice@[i] == r2.voice@[i] by {
        assert(tail1[i + r1.text@.len()] == r1.voice@[i]);
        assert(tail2[i + r2.text@.len()] == r2.voice@[i]);
    }
    assert(r1.voice@ =~= r2.voice@);
    if r1.preferred_format is Some {
        let f1 = r1.preferred_format.unwrap()@;
        let f2 = r2.preferred_format.unwrap()@;
        assert forall|i: int| 0 <= i < f1.len() implies f1[i] == f2[i] by {
            assert(tail1[i + r1.text@.len() + r1.voice@.len()] == f1[i]);
            assert(tail2[i + r2.text@.len() + r2.voice@.len()] == f2[i]);
        }
        assert(f1 =~= f2);
    }
}

#[verifier::rlimit(100)]
pub proof fn lemma_cache_key_field_sensitive(r1: SynthesisRequest, r2: SynthesisRequest)
    requires
        cache_key_spec(r1) == cache_key_spec(r2),
    ensures
        r1.text@ == r2.text@,
        r1.voice@ == r2.voice@,
        r1.mode == r2.mode,
        rate_or_zero(r1) == rate_or_zero(r2),
        r1.preferred_format is Some <==> r2.preferred_format is Some,
        r1.preferred_format matches Some(f1) ==> f1@ == r2.preferred_format.unwrap()@,
{
    crate::digits::lemma_dec_chars_space_free(r1.text@.len());
    crate::digits::lemma_dec_chars_space_free(r2.text@.len());
    lemma_split_at_space(
        dec_chars_of(r1.text@.len()),
        key_after_text_len(r1),
        dec_chars_of(r2.text@.len()),
        key_after_text_len(r2),
    );
    crate::digits::lemma_dec_chars_injective(r1.text@.len(), r2.text@.len());

    crate::digits::lemma_dec_chars_space_free(r1.voice@.len());
    crate::digits::lemma_dec_chars_space_free(r2.voice@.len());
    lemma_split_at_space(
        dec_chars_of(r1.voice@.len()),
        key_after_voice_len(r1),
        dec_chars_of(r2.voice@.len()),
        key_after_voice_len(r2),
    );
    crate::digits::lemma_dec_chars_injective(r1.voice@.len(), r2.voice@.len());

    r1.mode.lemma_name_space_free();
    r2.mode.lemma_name_space_free();
    lemma_split_at_space(
        r1.mode.name_spec(),
        key_after_mode(r1),
        r2.mode.name_spec(),
        key_after_mode(r2),
    );
    r1.mode.lemma_name_injective(r2.mode);

    crate::digits::lemma_dec_chars_space_free(rate_or_zero(r1) as nat);
    crate::digits::lemma_dec_chars_space_free(rate_or_zero(r2) as nat);
    lemma_split_at_space(
        dec_chars_of(rate_or_zero(r1) as nat),
        key_after_rate(r1),
        dec_chars_of(rate_or_zero(r2) as nat),
        key_after_rate(r2),
    );
    crate::digits::lemma_dec_chars_injective(rate_or_zero(r1) as nat, rate_or_zero(r2) as nat);

    lemma_format_code_space_free(r1);
    lemma_format_code_space_free(r2);
    lemma_split_at_space(format_code(r1), key_tail(r1), format_code(r2), key_tail(r2));
    lemma_format_code_injective(r1, r2);

    lemma_tail_fields(r1, r2);
}

/// A format code contains no space: it is a decimal rendering or a dash.
proof fn lemma_format_code_space_free(req: SynthesisRequest)
    ensures
        space_free(format_code(req)),
{
    reveal_strlit("-");
    match req.preferred_format {
        None => {},
        Some(f) => {
            crate::digits::lemma_dec_chars_space_free(f@.len());
        },
    }
}

/// Equal format codes mean the same presence, and for present formats the
/// same length: a dash is no decimal rendering, since every decimal character
/// is a digit.
proof fn lemma_format_code_injective(r1: SynthesisRequest, r2: SynthesisRequest)
    requires
        format_code(r1) == format_code(r2),
    ensures
        r1.preferred_format is Some <==> r2.preferred_format is Some,
        r1.preferred_format matches Some(f1) ==> f1@.len() == r2.preferred_format.unwrap()@.len(),
{
    reveal_strlit("-");
    if r1.preferred_format is Some && r2.preferred_format is Some {
        crate::digits::lemma_dec_chars_injective(
            r1.preferred_format.unwrap()@.len(),
            r2.preferred_format.unwrap()@.len(),
        );
    } else if r1.preferred_format is Some || r2.preferred_format is Some {
        let n = if r1.preferred_format is Some {
            r1.preferred_format.unwrap()@.len()
        } else {
            r2.preferred_format.unwrap()@.len()
        };
        crate::digits::lemma_dec_digits_ascii(n);
        let b = crate::digits::dec_digits_of(n)[0];
        assert(dec_chars_of(n)[0] == b as char);
        assert((b as char) as u8 == b);
        assert('-' as u8 == 0x2d);
        assert(dec_chars_of(n)[0] != '-');
        assert("-"@[0] == '-');
        assert(false);
    }
}

} // verus!
