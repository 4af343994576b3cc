//! The paid cloud provider's credential lifecycle and voice catalog.
//!
//! The provider wants a short-lived signed bearer token. The manager here
//! owns the decision side of the lazy, caller-driven refresh: read the
//! current token, decide from the clock whether it has expired, and if so
//! hand the claim set to sign out to the caller, which installs the signed
//! replacement. Signing itself and the lock around the shared token are the
//! surrounding server's work; no lock is ever held across a network call.

use vstd::prelude::*;
use vstd::string::StringExecFns;

use crate::error::Error;

verus! {

/// Seconds a freshly signed token stays valid.
pub const TOKEN_LEASE_SECS: u64 = 3600;

/// The immutable signing material of the paid provider's service account:
/// loaded once, never transmitted, only used locally to sign.
#[derive(Clone, Debug)]
pub struct ServiceAccount {
    pub private_key: String,
    pub client_email: String,
}

/// One voice record as the provider's catalog lists it.
#[allow(non_snake_case)]
#[derive(Debug)]
pub struct GoogleVoice {
    pub name: String,
    pub ssmlGender: String,
    pub languageCodes: [String; 1],
}

/// The claim set of a bearer token, ready to sign.
pub struct JwtClaims {
    pub exp: u64,
    pub iat: u64,
    pub aud: String,
    pub iss: String,
    pub sub: String,
}

/// The shared, process-wide token a provider's requests use. Replaced
/// wholesale on refresh; readers may use a stale-but-unexpired copy.
pub struct TokenState {
    pub jwt_token: String,
    pub expire_time: u64,
}

/// Whether a token that expires at `expire_time` must be replaced before a
/// use at `now`.
pub open spec fn needs_refresh(expire_time: u64, now: u64) -> bool {
    now >= expire_time
}

/// The expiry a refresh at `now` installs, or `None` where no refresh is due.
pub open spec fn refresh_decision(expire_time: u64, now: u64) -> Option<u64> {
    if needs_refresh(expire_time, now) {
        Some((now + TOKEN_LEASE_SECS) as u64)
    } else {
        None
    }
}

impl ServiceAccount {
    /// Decides whether the token expiring at `expire_time` must be refreshed
    /// for a use at `now`, and if so builds the claim set of its replacement:
    /// a one-lease claim issued now, for this account, addressed to the
    /// provider.
    pub fn generate_jwt(&self, expire_time: u64, now: u64) -> (r: Option<(JwtClaims, u64)>)
        requires
            now <= u64::MAX - TOKEN_LEASE_SECS,
        ensures
            r is Some <==> needs_refresh(expire_time, now),
            r matches Some((claims, new_expire)) ==> {
                &&& Some(new_expire) == refresh_decision(expire_time, now)
                &&& claims.exp == now + TOKEN_LEASE_SECS
                &&& claims.iat == now
                &&& claims.aud@ == "https://texttospeech.googleapis.com/"@
                &&& claims.iss@ == self.client_email@
                &&& claims.sub@ == self.client_email@
            },
    {
        if now >= expire_time {
            let new_expire = now + TOKEN_LEASE_SECS;
            let claims = JwtClaims {
                exp: new_expire,
                iat: now,
                aud: String::from_str("https://texttospeech.googleapis.com/"),
                iss: self.client_email.clone(),
                sub: self.client_email.clone(),
            };
            Some((claims, new_expire))
        } else {
            None
        }
    }
}

/// Installs a freshly signed token, replacing token and expiry wholesale.
pub fn install_token(state: &mut TokenState, token: String, expire_time: u64)
    ensures
        final(state).jwt_token == token,
        final(state).expire_time == expire_time,
{
    state.jwt_token = token;
    state.expire_time = expire_time;
}

/// Law: a token whose expiry is at or before `now` is replaced before use,
/// and its replacement is still valid at the moment of use; a token whose
/// expiry is ahead of `now` is reused unchanged — no refresh is decided for
/// it.
pub proof fn lemma_credential_refresh(expire_time: u64, now: u64)
    requires
        now <= u64::MAX - TOKEN_LEASE_SECS,
    ensures
        needs_refresh(expire_time, now) ==> (refresh_decision(expire_time, now) matches Some(e)
            && e > now),
        !needs_refresh(expire_time, now) ==> refresh_decision(expire_time, now) is None,
{
}

/// Index of the first `c` at or after `from` in `s`.
pub open spec fn find_char(s: Seq<char>, c: char, from: int) -> Option<int>
    decreases s.len() - from,
{
    if from < 0 || from >= s.len() {
        None
    } else if s[from] == c {
        Some(from)
    } else {
        find_char(s, c, from + 1)
    }
}

fn find_char_exec(s: &str, c: char, from: usize) -> (r: Option<usize>)
    requires
        from <= s@.len(),
    ensures
        r matches Some(p) ==> find_char(s@, c, from as int) == Some(p as int) && from <= p
            < s@.len(),
        r is None ==> find_char(s@, c, from as int) is None,
{
    let n = s.unicode_len();
    let mut i = from;
    loop
        invariant
            from <= i <= n,
            n == s@.len(),
            find_char(s@, c, from as int) == find_char(s@, c, i as int),
        decreases n - i,
    {
        if i >= n {
            proof {
                assert(find_char(s@, c, i as int) is None);
            }
            return None;
        }
        if s.get_char(i) == c {
            proof {
                assert(find_char(s@, c, i as int) == Some(i as int));
            }
            return Some(i);
        }
        proof {
            assert(find_char(s@, c, i as int) == find_char(s@, c, i as int + 1));
        }
        i = i + 1;
    }
}

/// The normalized listing of one catalog record: for a voice named
/// `{lang}-{region}-Standard-{variant}`, the entry `{language} {variant}`;
/// `None` for a voice of any other family or shape, which the listing skips.
pub open spec fn premium_entry_spec(name: Seq<char>, language: Seq<char>) -> Option<Seq<char>> {
    match find_char(name, '-', 0) {
        None => None,
        Some(d1) => match find_char(name, '-', d1 + 1) {
            None => None,
            Some(d2) => match find_char(name, '-', d2 + 1) {
                None => None,
                Some(d3) => if name.subrange(d2 + 1, d3) == "Standard"@ {
                    Some(language + " "@ + name.subrange(d3 + 1, name.len() as int))
                } else {
                    None
                },
            },
        },
    }
}

/// Normalizes one catalog record, keeping only the standard voice family.
pub fn premium_voice_entry(name: &str, language: &str) -> (r: Option<String>)
    ensures
        r matches Some(s) ==> premium_entry_spec(name@, language@) == Some(s@),
        r is None ==> premium_entry_spec(name@, language@) is None,
{
    let n = name.unicode_len();
    let d1 = match find_char_exec(name, '-', 0) {
        None => return None,
        Some(p) => p,
    };
    assert(d1 < n);
    let d2 = match find_char_exec(name, '-', d1 + 1) {
        None => return None,
        Some(p) => p,
    };
    assert(d2 < n);
    let d3 = match find_char_exec(name, '-', d2 + 1) {
        None => return None,
        Some(p) => p,
    };
    let mode_part = String::from_str(name.substring_char(d2 + 1, d3));
    let standard = String::from_str("Standard");
    if mode_part == standard {
        let mut out = String::new();
        out.append(language);
        out.append(" ");
        out.append(name.substring_char(d3 + 1, name.unicode_len()));
        proof {
            assert(out@ =~= language@ + " "@ + name@.subrange(d3 + 1, name@.len() as int));
        }
        Some(out)
    } else {
        None
    }
}

/// The normalized voice listing of the whole catalog, in catalog order.
pub open spec fn premium_voices_spec(voices: Seq<GoogleVoice>) -> Seq<Seq<char>>
    decreases voices.len(),
{
    if voices.len() == 0 {
        Seq::empty()
    } else {
        let rest = premium_voices_spec(voices.drop_last());
        match premium_entry_spec(voices.last().name@, voices.last().languageCodes@[0]@) {
            Some(s) => rest.push(s),
            None => rest,
        }
    }
}

/// Normalizes the provider's catalog to `{language} {variant}` entries,
/// keeping only the standard voice family.
pub fn get_voices(voices: &Vec<GoogleVoice>) -> (r: Vec<String>)
    ensures
        r@.map_values(|s: String| s@) == premium_voices_spec(voices@),
{
    let mut out: Vec<String> = Vec::new();
    let mut i: usize = 0;
    while i < voices.len()
        invariant
            i <= voices@.len(),
            out@.map_values(|s: String| s@) == premium_voices_spec(voices@.subrange(0, i as int)),
        decreases voices@.len() - i,
    {
        let gv = &voices[i];
        let entry = premium_voice_entry(gv.name.as_str(), gv.languageCodes[0].as_str());
        proof {
            assert(voices@.subrange(0, i as int + 1).drop_last() =~= voices@.subrange(0, i as int));
            assert(voices@.subrange(0, i as int + 1).last() == voices@[i as int]);
        }
        match entry {
            Some(s) => {
                let ghost prev = out@;
                out.push(s);
                proof {
                    assert(out@.map_values(|s: String| s@) =~= prev.map_values(|s: String| s@)
                        .push(out@.last()@));
                }
            },
            None => {},
        }
        i = i + 1;
    }
    proof {
        assert(voices@.subrange(0, voices@.len() as int) =~= voices@);
    }
    out
}

/// What the paid provider is asked to synthesize: the verified core of the
/// request body. The voice name is rebuilt as `{lang}-Standard-{variant}`
/// from a `{lang} {variant}` listing entry. `speaking_rate` is in
/// ten-thousandths of a unit.
#[derive(Debug)]
pub struct GoogleRequestParams {
    pub text: String,
    pub language_code: String,
    pub voice_name: String,
    pub speaking_rate: u32,
}

/// A listing entry split at its first space into language and variant.
pub open spec fn lang_variant_split(lang: Seq<char>) -> Option<(Seq<char>, Seq<char>)> {
    match find_char(lang, ' ', 0) {
        None => None,
        Some(sp) => Some((lang.subrange(0, sp), lang.subrange(sp + 1, lang.len() as int))),
    }
}

/// Builds the provider request fields for a voice given as `{lang} {variant}`;
/// an entry without a space cannot be parsed and is rejected.
pub fn google_request_params(text: &str, lang: &str, speaking_rate: u32) -> (r: Result<
    GoogleRequestParams,
    Error,
>)
    ensures
        r is Ok <==> lang_variant_split(lang@) is Some,
        r matches Ok(p) ==> {
            let (l, v) = lang_variant_split(lang@).unwrap();
            &&& p.text@ == text@
            &&& p.language_code@ == l
            &&& p.voice_name@ == l + "-Standard-"@ + v
            &&& p.speaking_rate == speaking_rate
        },
        r matches Err(e) ==> e matches Error::Unknown(m) && m@ == lang@
            + " cannot be parsed into lang and variant"@,
{
    let n = lang.unicode_len();
    let sp = match find_char_exec(lang, ' ', 0) {
        None => {
            let mut m = String::from_str(lang);
            m.append(" cannot be parsed into lang and variant");
            return Err(Error::Unknown(m));
        },
        Some(p) => p,
    };
    assert(sp < n);
    let l = String::from_str(lang.substring_char(0, sp));
    let v = lang.substring_char(sp + 1, n);
    let mut voice_name = l.clone();
    voice_name.append("-Standard-");
    voice_name.append(v);
    Ok(
        GoogleRequestParams {
            text: String::from_str(text),
            language_code: l,
            voice_name,
            speaking_rate,
        },
    )
}

} // verus!
