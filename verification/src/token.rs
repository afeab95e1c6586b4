//! The token service: issues bearer tokens that bind a subject email to an
//! expiry instant under a process-wide secret, and verifies tokens
//! presented later.
//!
//! A token is a plain string: twenty digits of authenticator, twenty
//! digits of expiry (seconds), then the subject email. The authenticator
//! is a keyed digest of everything after it, so a token checks on its own;
//! validity additionally requires absence from the revocation store, which
//! the verifier consults.

use vstd::prelude::*;
use crate::decimal::{
    all_dec_digits, dec_pad, dec_val, lemma_dec_pad_shape, lemma_dec_pad_val,
    lemma_pow10_20_exceeds_u64, parse_dec_u64, push_dec_pad,
};
use crate::domain::data_stores::BannedTokenStore;
use crate::domain::email::Email;

verus! {

/// How long an issued token stays fresh, in seconds.
pub const TOKEN_TTL_SECONDS: u64 = 600;

/// One mixing step of the keyed digest: xor the character in, then
/// multiply by an odd constant, truncated to 64 bits.
pub open spec fn mac_step(h: u64, c: char) -> u64 {
    (((h ^ ((c as u32) as u64)) as int * 1099511628211) % 18446744073709551616) as u64
}

/// The keyed digest of a character sequence, seeded with `h`.
pub open spec fn mac_seq(h: u64, s: Seq<char>) -> u64
    decreases s.len(),
{
    if s.len() == 0 {
        h
    } else {
        mac_step(mac_seq(h, s.drop_last()), s.last())
    }
}

/// What a token signs: the expiry instant, then the subject email.
pub open spec fn spec_payload(email: Seq<char>, expiry: u64) -> Seq<char> {
    dec_pad(expiry as nat, 20) + email
}

/// The exact string the service issues for a subject and expiry.
pub open spec fn spec_token(secret: u64, email: Seq<char>, expiry: u64) -> Seq<char> {
    dec_pad(mac_seq(secret, spec_payload(email, expiry)) as nat, 20) + spec_payload(email, expiry)
}

/// Structural well-formedness of an arbitrary string as a token: shape,
/// authenticator match, expiry readable, subject contains `@`.
pub open spec fn token_wf(secret: u64, t: Seq<char>) -> bool {
    &&& t.len() >= 40
    &&& all_dec_digits(t.subrange(0, 20))
    &&& all_dec_digits(t.subrange(20, 40))
    &&& dec_val(t.subrange(0, 20)) == mac_seq(secret, t.skip(20))
    &&& dec_val(t.subrange(20, 40)) <= u64::MAX
    &&& t.skip(40).contains('@')
}

/// The expiry instant a well-formed token carries.
pub open spec fn token_expiry(t: Seq<char>) -> nat {
    dec_val(t.subrange(20, 40))
}

/// The subject email a well-formed token carries.
pub open spec fn token_subject(t: Seq<char>) -> Seq<char> {
    t.skip(40)
}

/// A token is accepted at instant `now` exactly when it is well formed,
/// not yet expired, and not revoked.
pub open spec fn token_valid(secret: u64, banned: Set<Seq<char>>, t: Seq<char>, now: u64) -> bool {
    &&& token_wf(secret, t)
    &&& token_expiry(t) >= now
    &&& !banned.contains(t)
}

/// The decoded claims of an accepted token.
pub struct Claims {
    pub email: Email,
    pub expiry: u64,
}

/// Why a token was rejected is never detailed: every failure is `Invalid`.
#[derive(Debug, PartialEq, Eq)]
pub enum TokenError {
    Invalid,
}

/// Stateless token issuer and verifier, keyed with a process-wide secret.
pub struct TokenService {
    pub secret: u64,
}

/// An issued token is well formed, and carries exactly the expiry and
/// subject it was issued for.
pub proof fn lemma_issued_token_wf(secret: u64, email: Seq<char>, expiry: u64)
    requires
        email.contains('@'),
    ensures
        token_wf(secret, spec_token(secret, email, expiry)),
        token_expiry(spec_token(secret, email, expiry)) == expiry,
        token_subject(spec_token(secret, email, expiry)) == email,
        spec_token(secret, email, expiry).len() == 40 + email.len(),
{
    let payload = spec_payload(email, expiry);
    let m = mac_seq(secret, payload);
    let t = spec_token(secret, email, expiry);
    lemma_pow10_20_exceeds_u64();
    lemma_dec_pad_shape(m as nat, 20);
    lemma_dec_pad_shape(expiry as nat, 20);
    lemma_dec_pad_val(m as nat, 20);
    lemma_dec_pad_val(expiry as nat, 20);
    assert(t.subrange(0, 20) =~= dec_pad(m as nat, 20));
    assert(t.subrange(20, 40) =~= dec_pad(expiry as nat, 20));
    assert(t.skip(20) =~= payload);
    assert(t.skip(40) =~= email);
}

/// The life of an issued token: issued at `now` for a registered email
/// and not revoked, it is valid at once; as soon as logout puts it in
/// the revocation set, it is valid no longer.
pub proof fn lemma_token_lifecycle(secret: u64, email: Seq<char>, banned: Set<Seq<char>>, now: u64)
    requires
        email.contains('@'),
        now <= u64::MAX - TOKEN_TTL_SECONDS,
        !banned.contains(spec_token(secret, email, (now + TOKEN_TTL_SECONDS) as u64)),
    ensures
        token_valid(
            secret,
            banned,
            spec_token(secret, email, (now + TOKEN_TTL_SECONDS) as u64),
            now,
        ),
        !token_valid(
            secret,
            banned.insert(spec_token(secret, email, (now + TOKEN_TTL_SECONDS) as u64)),
            spec_token(secret, email, (now + TOKEN_TTL_SECONDS) as u64),
            now,
        ),
{
    lemma_issued_token_wf(secret, email, (now + TOKEN_TTL_SECONDS) as u64);
}

/// One digest step in executable form; the 128-bit product is truncated
/// back to 64 bits.
fn mac_step_exec(h: u64, c: char) -> (r: u64)
    ensures
        r == mac_step(h, c),
{
    let x: u64 = h ^ ((c as u32) as u64);
    let wide: u128 = (x as u128) * 1099511628211u128;
    (wide % 18446744073709551616u128) as u64
}

/// The digest of `s` from position `from` on, seeded with `h0`.
fn mac_str(h0: u64, s: &str, from: usize) -> (r: u64)
    requires
        from <= s@.len(),
    ensures
        r == mac_seq(h0, s@.skip(from as int)),
{
    let n = s.unicode_len();
    let mut h = h0;
    let mut i = from;
    while i < n
        invariant
            from <= i <= n == s@.len(),
            h == mac_seq(h0, s@.subrange(from as int, i as int)),
        decreases n - i,
    {
        let c = s.get_char(i);
        h = mac_step_exec(h, c);
        proof {
            let step = s@.subrange(from as int, i as int + 1);
            assert(step.drop_last() =~= s@.subrange(from as int, i as int));
        }
        i = i + 1;
    }
    proof {
        assert(s@.subrange(from as int, n as int) =~= s@.skip(from as int));
    }
    h
}

impl TokenService {
    pub fn new(secret: u64) -> (r: TokenService)
        ensures
            r.secret == secret,
    {
        TokenService { secret }
    }

    /// Issues a token for `email` that expires a fixed duration after
    /// `now`.
    pub fn issue(&self, email: &Email, now: u64) -> (r: String)
        requires
            now <= u64::MAX - TOKEN_TTL_SECONDS,
        ensures
            r@ == spec_token(self.secret, email@, (now + TOKEN_TTL_SECONDS) as u64),
    {
        let expiry = now + TOKEN_TTL_SECONDS;
        let mut payload = String::new();
        push_dec_pad(&mut payload, expiry, 20);
        payload.append(email.as_ref());
        proof {
            assert(payload@ =~= spec_payload(email@, expiry));
        }
        let m = mac_str(self.secret, payload.as_str(), 0);
        proof {
            assert(payload@.skip(0) =~= payload@);
        }
        let mut token = String::new();
        push_dec_pad(&mut token, m, 20);
        token.append(payload.as_str());
        proof {
            assert(token@ =~= spec_token(self.secret, email@, expiry));
        }
        token
    }

    /// Accepts exactly the tokens that are well formed under this
    /// service's secret, not expired at `now`, and not revoked; returns
    /// their claims. Mutates nothing.
    pub fn verify<B: BannedTokenStore>(&self, token: &str, store: &B, now: u64) -> (r: Result<
        Claims,
        TokenError,
    >)
        ensures
            match r {
                Ok(claims) => token_valid(self.secret, store.banned(), token@, now)
                    && claims.email@ == token_subject(token@) && claims.expiry == token_expiry(
                    token@,
                ),
                Err(e) => !token_valid(self.secret, store.banned(), token@, now) && e
                    == TokenError::Invalid,
            },
    {
        let n = token.unicode_len();
        if n < 40 {
            return Err(TokenError::Invalid);
        }
        let mac_claim = match parse_dec_u64(token, 0, 20) {
            Some(v) => v,
            None => {
                return Err(TokenError::Invalid);
            },
        };
        let expiry = match parse_dec_u64(token, 20, 40) {
            Some(v) => v,
            None => {
                return Err(TokenError::Invalid);
            },
        };
        let computed = mac_str(self.secret, token, 20);
        if mac_claim != computed {
            return Err(TokenError::Invalid);
        }
        let subject = token.substring_char(40, n);
        proof {
            assert(subject@ =~= token@.skip(40));
        }
        let email = match Email::parse(subject) {
            Ok(e) => e,
            Err(_) => {
                return Err(TokenError::Invalid);
            },
        };
        if expiry < now {
            return Err(TokenError::Invalid);
        }
        if store.is_banned(token) {
            return Err(TokenError::Invalid);
        }
        Ok(Claims { email, expiry })
    }
}

} // verus!
