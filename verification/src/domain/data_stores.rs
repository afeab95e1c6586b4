//! Store interfaces and the two-factor value objects.
//!
//! Each store trait carries a mathematical view of its contents (a map or
//! a set over character sequences) and exact contracts for its methods;
//! any concrete store satisfying them can back the orchestrator.

use vstd::prelude::*;
use rand::Rng;
use crate::decimal::{all_dec_digits, lemma_dec_pad_shape, push_dec_pad};
use crate::domain::email::Email;
use crate::domain::password::Password;
use crate::domain::user::{User, UserModel};

verus! {

/// Interface of the credential store: at most one user per email.
pub trait UserStore: Sized {
    /// The registered users, keyed by email.
    spec fn users(&self) -> Map<Seq<char>, UserModel>;

    /// Inserts a new user; fails, changing nothing, exactly when the
    /// email is already registered.
    fn add_user(&mut self, user: User) -> (r: Result<(), UserStoreError>)
        ensures
            match r {
                Ok(()) => !old(self).users().dom().contains(user.email@) && final(self).users()
                    == old(self).users().insert(user.email@, user@),
                Err(e) => e == UserStoreError::UserAlreadyExists && old(self).users().dom()
                    .contains(user.email@) && final(self).users() == old(self).users(),
            },
    ;

    /// Pure lookup; fails exactly when the email is not registered.
    fn get_user(&self, email: &Email) -> (r: Result<User, UserStoreError>)
        ensures
            match r {
                Ok(u) => self.users().dom().contains(email@) && u@ == self.users()[email@],
                Err(e) => e == UserStoreError::UserNotFound && !self.users().dom().contains(
                    email@,
                ),
            },
    ;

    /// Succeeds exactly when the email is registered with this password;
    /// distinguishes an unknown email from a wrong password.
    fn validate_user(&self, email: &Email, password: &Password) -> (r: Result<
        (),
        UserStoreError,
    >)
        ensures
            match r {
                Ok(()) => self.users().dom().contains(email@) && self.users()[email@].password
                    == password@,
                Err(e) => match e {
                    UserStoreError::UserNotFound => !self.users().dom().contains(email@),
                    UserStoreError::InvalidCredentials => self.users().dom().contains(email@)
                        && self.users()[email@].password != password@,
                    _ => false,
                },
            },
    ;
}

#[derive(Debug, Clone, Copy, PartialEq, Eq, Structural)]
pub enum UserStoreError {
    UserAlreadyExists,
    UserNotFound,
    InvalidCredentials,
    UnexpectedError,
}

/// Interface of the revocation store: a grow-only set of raw token
/// strings.
pub trait BannedTokenStore: Sized {
    /// The set of revoked tokens.
    spec fn banned(&self) -> Set<Seq<char>>;

    /// Adds a token to the revoked set.
    fn store_token(&mut self, token: &str)
        ensures
            final(self).banned() == old(self).banned().insert(token@),
    ;

    /// Membership test; mutates nothing.
    fn is_banned(&self, token: &str) -> (r: bool)
        ensures
            r == self.banned().contains(token@),
    ;
}

/// The mathematical image of one pending challenge: its id and code.
pub ghost struct ChallengeModel {
    pub id: Seq<char>,
    pub code: Seq<char>,
}

/// Interface of the pending-challenge store: at most one challenge per
/// email, last one issued wins.
pub trait TwoFACodeStore: Sized {
    /// The pending challenges, keyed by email.
    spec fn codes(&self) -> Map<Seq<char>, ChallengeModel>;

    /// Records a challenge, silently replacing any earlier one for the
    /// same email.
    fn add_code(&mut self, email: Email, login_attempt_id: LoginAttemptId, code: TwoFACode) -> (r:
        Result<(), TwoFACodeStoreError>)
        ensures
            r is Ok,
            final(self).codes() == old(self).codes().insert(
                email@,
                ChallengeModel { id: login_attempt_id@, code: code@ },
            ),
    ;

    /// Discards the pending challenge; fails, changing nothing, exactly
    /// when none is pending.
    fn remove_code(&mut self, email: &Email) -> (r: Result<(), TwoFACodeStoreError>)
        ensures
            match r {
                Ok(()) => old(self).codes().dom().contains(email@) && final(self).codes() == old(
                    self,
                ).codes().remove(email@),
                Err(e) => e == TwoFACodeStoreError::LoginAttemptIdNotFound && !old(
                    self,
                ).codes().dom().contains(email@) && final(self).codes() == old(self).codes(),
            },
    ;

    /// Pure lookup; fails exactly when no challenge is pending.
    fn get_code(&self, email: &Email) -> (r: Result<
        (LoginAttemptId, TwoFACode),
        TwoFACodeStoreError,
    >)
        ensures
            match r {
                Ok(pair) => self.codes().dom().contains(email@) && pair.0@
                    == self.codes()[email@].id && pair.1@ == self.codes()[email@].code,
                Err(e) => e == TwoFACodeStoreError::LoginAttemptIdNotFound
                    && !self.codes().dom().contains(email@),
            },
    ;
}

#[derive(Debug, Clone, Copy, PartialEq, Eq, Structural)]
pub enum TwoFACodeStoreError {
    LoginAttemptIdNotFound,
    UnexpectedError,
}

/// Whether a string is the text of a well-formed UUID; what
/// `uuid::Uuid::parse_str` accepts, which depends on the string alone.
pub uninterp spec fn is_uuid(s: Seq<char>) -> bool;

/// Relies on uuid::Uuid::parse_str: whether it accepts `s` is a function
/// of `s` alone, named `is_uuid`.
#[verifier::external_body]
fn uuid_parses(s: &str) -> (r: bool)
    ensures
        r == is_uuid(s@),
{
    uuid::Uuid::parse_str(s).is_ok()
}

/// Relies on uuid::Uuid::new_v4 and uuid::Uuid::to_string: the hyphenated
/// text of a freshly generated UUID is 36 characters and parses back with
/// uuid::Uuid::parse_str.
#[verifier::external_body]
fn fresh_uuid_string() -> (r: String)
    ensures
        is_uuid(r@),
        r@.len() == 36,
{
    uuid::Uuid::new_v4().to_string()
}

/// Relies on rand::Rng::gen_range on a thread-local generator: the result
/// lies in the requested half-open range, below one million.
#[verifier::external_body]
fn random_code_number() -> (r: u32)
    ensures
        r < 1000000,
{
    rand::thread_rng().gen_range(0..1_000_000u32)
}

/// An opaque unique identifier for one login attempt that awaits its
/// second factor; textually a UUID.
#[derive(Debug, Eq)]
pub struct LoginAttemptId(String);

impl Clone for LoginAttemptId {
    fn clone(&self) -> (r: LoginAttemptId)
        ensures
            r@ == self@,
    {
        LoginAttemptId(self.0.clone())
    }
}

impl View for LoginAttemptId {
    type V = Seq<char>;

    closed spec fn view(&self) -> Seq<char> {
        self.0@
    }
}

impl PartialEq for LoginAttemptId {
    fn eq(&self, other: &LoginAttemptId) -> (r: bool) {
        self.0 == other.0
    }
}

impl vstd::std_specs::cmp::PartialEqSpecImpl for LoginAttemptId {
    open spec fn obeys_eq_spec() -> bool {
        true
    }

    open spec fn eq_spec(&self, other: &LoginAttemptId) -> bool {
        self@ == other@
    }
}

impl LoginAttemptId {
    /// Accepts exactly the strings that are well-formed UUID text; the
    /// accepted string is kept unchanged.
    pub fn parse(id: String) -> (r: Result<LoginAttemptId, String>)
        ensures
            match r {
                Ok(v) => is_uuid(id@) && v@ == id@,
                Err(msg) => !is_uuid(id@) && msg@ == "Invalid UUID"@,
            },
    {
        if uuid_parses(id.as_str()) {
            Ok(LoginAttemptId(id))
        } else {
            Err(String::from_str("Invalid UUID"))
        }
    }

    /// The underlying string, unchanged.
    pub fn as_ref(&self) -> (r: &str)
        ensures
            r@ == self@,
    {
        self.0.as_str()
    }
}

impl Default for LoginAttemptId {
    /// A freshly generated identifier; always well-formed UUID text.
    fn default() -> (r: LoginAttemptId)
        ensures
            is_uuid(r@),
            r@.len() == 36,
    {
        LoginAttemptId(fresh_uuid_string())
    }
}

/// A one-time code of exactly 6 ASCII digits, delivered out of band.
#[derive(Debug, Eq)]
pub struct TwoFACode(String);

impl Clone for TwoFACode {
    fn clone(&self) -> (r: TwoFACode)
        ensures
            r@ == self@,
    {
        TwoFACode(self.0.clone())
    }
}

impl View for TwoFACode {
    type V = Seq<char>;

    closed spec fn view(&self) -> Seq<char> {
        self.0@
    }
}

impl PartialEq for TwoFACode {
    fn eq(&self, other: &TwoFACode) -> (r: bool) {
        self.0 == other.0
    }
}

impl vstd::std_specs::cmp::PartialEqSpecImpl for TwoFACode {
    open spec fn obeys_eq_spec() -> bool {
        true
    }

    open spec fn eq_spec(&self, other: &TwoFACode) -> bool {
        self@ == other@
    }
}

impl TwoFACode {
    /// Accepts exactly the strings of 6 ASCII digits; the accepted string
    /// is kept unchanged.
    pub fn parse(code: String) -> (r: Result<TwoFACode, String>)
        ensures
            match r {
                Ok(v) => code@.len() == 6 && all_dec_digits(code@) && v@ == code@,
                Err(msg) => !(code@.len() == 6 && all_dec_digits(code@)) && msg@
                    == "Invalid 2FA code: must be exactly 6 digits."@,
            },
    {
        let s = code.as_str();
        let n = s.unicode_len();
        if n != 6 {
            return Err(String::from_str("Invalid 2FA code: must be exactly 6 digits."));
        }
        let mut i: usize = 0;
        while i < 6
            invariant
                n == 6 == s@.len(),
                i <= 6,
                s@ == code@,
                forall|j: int| 0 <= j < i ==> crate::decimal::is_dec_digit(#[trigger] s@[j]),
            decreases 6 - i,
        {
            let v = s.get_char(i) as u32;
            if v < 48 || v > 57 {
                return Err(String::from_str("Invalid 2FA code: must be exactly 6 digits."));
            }
            i = i + 1;
        }
        Ok(TwoFACode(code))
    }

    /// The underlying string, unchanged.
    pub fn as_ref(&self) -> (r: &str)
        ensures
            r@ == self@,
    {
        self.0.as_str()
    }
}

impl Default for TwoFACode {
    /// A freshly drawn code: 6 ASCII digits.
    fn default() -> (r: TwoFACode)
        ensures
            r@.len() == 6,
            all_dec_digits(r@),
    {
        let n = random_code_number();
        let mut s = String::new();
        push_dec_pad(&mut s, n as u64, 6);
        proof {
            lemma_dec_pad_shape(n as nat, 6);
            assert(s@ =~= crate::decimal::dec_pad(n as nat, 6));
        }
        TwoFACode(s)
    }
}

} // verus!
