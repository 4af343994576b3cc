//! Decimal rendering of unsigned integers, used for canonical cache keys and
//! user-facing error messages.

use vstd::prelude::*;

verus! {

/// The decimal digit bytes of `n`, most significant first, no leading zeros
/// (a single `'0'` for zero).
pub open spec fn dec_digits_of(n: nat) -> Seq<u8>
    decreases n,
{
    if n < 10 {
        seq![(n + 0x30) as u8]
    } else {
        dec_digits_of(n / 10).push((n % 10 + 0x30) as u8)
    }
}

/// The decimal digits of `n` as characters.
pub open spec fn dec_chars_of(n: nat) -> Seq<char> {
    dec_digits_of(n).map_values(|b: u8| b as char)
}

pub proof fn lemma_dec_digits_ascii(n: nat)
    ensures
        forall|i: int|
            0 <= i < dec_digits_of(n).len() ==> 0x30 <= #[trigger] dec_digits_of(n)[i] < 0x3a,
    decreases n,
{
    if n >= 10 {
        lemma_dec_digits_ascii(n / 10);
        assert forall|i: int|
            0 <= i < dec_digits_of(n).len() implies 0x30 <= #[trigger] dec_digits_of(n)[i]
            < 0x3a by {
            let prefix = dec_digits_of(n / 10);
            if i < prefix.len() {
                assert(dec_digits_of(n)[i] == prefix[i]);
            }
        }
    }
}

pub proof fn lemma_dec_digits_len(n: nat)
    ensures
        dec_digits_of(n).len() >= 1,
        n >= 10 ==> dec_digits_of(n).len() >= 2,
    decreases n,
{
    if n >= 10 {
        lemma_dec_digits_len(n / 10);
    }
}

/// Distinct numbers render as distinct digit strings.
pub proof fn lemma_dec_digits_injective(a: nat, b: nat)
    requires
        dec_digits_of(a) == dec_digits_of(b),
    ensures
        a == b,
    decreases a,
{
    lemma_dec_digits_len(a);
    lemma_dec_digits_len(b);
    if a >= 10 && b >= 10 {
        assert(dec_digits_of(a) == dec_digits_of(a / 10).push((a % 10 + 0x30) as u8));
        assert(dec_digits_of(b) == dec_digits_of(b / 10).push((b % 10 + 0x30) as u8));
        assert(dec_digits_of(a).last() == (a % 10 + 0x30) as u8);
        assert(dec_digits_of(b).last() == (b % 10 + 0x30) as u8);
        assert(a % 10 + 0x30 < 256 && b % 10 + 0x30 < 256);
        assert(a % 10 == b % 10);
        assert(dec_digits_of(a).drop_last() =~= dec_digits_of(a / 10));
        assert(dec_digits_of(b).drop_last() =~= dec_digits_of(b / 10));
        lemma_dec_digits_injective(a / 10, b / 10);
        vstd::arithmetic::div_mod::lemma_fundamental_div_mod(a as int, 10);
        vstd::arithmetic::div_mod::lemma_fundamental_div_mod(b as int, 10);
        assert(a == b);
    } else if a < 10 && b < 10 {
        assert(dec_digits_of(a) == seq![(a + 0x30) as u8]);
        assert(dec_digits_of(b) == seq![(b + 0x30) as u8]);
        assert(dec_digits_of(a)[0] == (a + 0x30) as u8);
        assert(dec_digits_of(b)[0] == (b + 0x30) as u8);
        assert(a + 0x30 < 256 && b + 0x30 < 256);
    } else if a < 10 {
        assert(dec_digits_of(a) == seq![(a + 0x30) as u8]);
        assert(dec_digits_of(a).len() == 1);
        assert(false);
    } else {
        assert(dec_digits_of(b) == seq![(b + 0x30) as u8]);
        assert(dec_digits_of(b).len() == 1);
        assert(false);
    }
}

/// Distinct numbers render as distinct character strings.
pub proof fn lemma_dec_chars_injective(a: nat, b: nat)
    requires
        dec_chars_of(a) == dec_chars_of(b),
    ensures
        a == b,
{
    lemma_dec_digits_ascii(a);
    lemma_dec_digits_ascii(b);
    let da = dec_digits_of(a);
    let db = dec_digits_of(b);
    assert(dec_chars_of(a).len() == da.len());
    assert(dec_chars_of(b).len() == db.len());
    assert forall|i: int| 0 <= i < da.len() implies da[i] == db[i] by {
        assert(dec_chars_of(a)[i] == da[i] as char);
        assert(dec_chars_of(b)[i] == db[i] as char);
        assert((da[i] as char) as u8 == da[i]);
        assert((db[i] as char) as u8 == db[i]);
    }
    assert(da =~= db);
    lemma_dec_digits_injective(a, b);
}

/// No decimal rendering contains a space.
pub proof fn lemma_dec_chars_space_free(n: nat)
    ensures
        forall|i: int| 0 <= i < dec_chars_of(n).len() ==> #[trigger] dec_chars_of(n)[i] != ' ',
{
    lemma_dec_digits_ascii(n);
    assert forall|i: int| 0 <= i < dec_chars_of(n).len() implies #[trigger] dec_chars_of(n)[i]
        != ' ' by {
        let b = dec_digits_of(n)[i];
        assert(dec_chars_of(n)[i] == b as char);
        assert((b as char) as u8 == b);
        assert(' ' as u8 == 0x20);
    }
}

/// Relies on std's `String::from_utf8`: ASCII bytes are valid UTF-8 and decode
/// to the characters with the same code points.
#[verifier::external_body]
pub(crate) fn ascii_string(bytes: Vec<u8>) -> (r: String)
    requires
        forall|i: int| 0 <= i < bytes@.len() ==> bytes@[i] < 0x80,
    ensures
        r@ == bytes@.map_values(|b: u8| b as char),
{
    String::from_utf8(bytes).unwrap()
}

fn push_dec_digits(m: u64, out: &mut Vec<u8>)
    ensures
        final(out)@ == old(out)@ + dec_digits_of(m as nat),
    decreases m,
{
    if m >= 10 {
        push_dec_digits(m / 10, out);
        out.push((m % 10) as u8 + 0x30);
    } else {
        out.push(m as u8 + 0x30);
    }
}

/// Renders `n` in decimal.
pub fn u64_to_dec_string(n: u64) -> (r: String)
    ensures
        r@ == dec_chars_of(n as nat),
{
    let mut buf: Vec<u8> = Vec::new();
    push_dec_digits(n, &mut buf);
    proof {
        lemma_dec_digits_ascii(n as nat);
        assert(buf@ =~= dec_digits_of(n as nat));
    }
    ascii_string(buf)
}

} // verus!
