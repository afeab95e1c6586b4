//! The `Email` value object: a string that contains at least one `@`.
//! Equality is exact string match; no normalization is applied.

use vstd::prelude::*;

verus! {

/// What makes a string an acceptable email: it contains an `@`.
pub open spec fn spec_valid_email(s: Seq<char>) -> bool {
    s.contains('@')
}

/// A validated email address. Immutable once constructed; the only
/// constructor is [`Email::parse`].
#[derive(Debug, Eq, Hash)]
pub struct Email(String);

impl Clone for Email {
    fn clone(&self) -> (r: Email)
        ensures
            r@ == self@,
    {
        Email(self.0.clone())
    }
}

impl View for Email {
    type V = Seq<char>;

    closed spec fn view(&self) -> Seq<char> {
        self.0@
    }
}

impl PartialEq for Email {
    fn eq(&self, other: &Email) -> (r: bool) {
        self.0 == other.0
    }
}

impl vstd::std_specs::cmp::PartialEqSpecImpl for Email {
    open spec fn obeys_eq_spec() -> bool {
        true
    }

    open spec fn eq_spec(&self, other: &Email) -> bool {
        self@ == other@
    }
}

impl Email {
    /// Accepts exactly the strings that contain an `@`; the accepted string
    /// is kept unchanged, so `parse` then `as_ref` round-trips.
    pub fn parse(s: &str) -> (r: Result<Email, String>)
        ensures
            match r {
                Ok(email) => spec_valid_email(s@) && email@ == s@,
                Err(msg) => !spec_valid_email(s@) && msg@ == "The email does not contain @"@,
            },
    {
        let n = s.unicode_len();
        let mut i: usize = 0;
        while i < n
            invariant
                n == s@.len(),
                i <= n,
                forall|j: int| 0 <= j < i ==> s@[j] != '@',
            decreases n - i,
        {
            if s.get_char(i) == '@' {
                proof {
                    assert(s@[i as int] == '@');
                }
                return Ok(Email(s.to_owned()));
            }
            i = i + 1;
        }
        Err(String::from_str("The email does not contain @"))
    }

    /// The underlying string, unchanged.
    pub fn as_ref(&self) -> (r: &str)
        ensures
            r@ == self@,
    {
        self.0.as_str()
    }
}

} // verus!
