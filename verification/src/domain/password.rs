//! The `Password` value object: a string of at least 8 characters.
//!
//! The password is stored and compared as given. A production deployment
//! should store only a salted, slow hash and compare in constant time;
//! that weakness is stated here rather than hidden.

use vstd::prelude::*;

verus! {

/// What makes a string an acceptable password: at least 8 characters.
pub open spec fn spec_valid_password(s: Seq<char>) -> bool {
    s.len() >= 8
}

/// A validated password. Immutable once constructed; the only constructor
/// is [`Password::parse`].
#[derive(Debug, Eq)]
pub struct Password(String);

impl Clone for Password {
    fn clone(&self) -> (r: Password)
        ensures
            r@ == self@,
    {
        Password(self.0.clone())
    }
}

impl View for Password {
    type V = Seq<char>;

    closed spec fn view(&self) -> Seq<char> {
        self.0@
    }
}

impl PartialEq for Password {
    fn eq(&self, other: &Password) -> (r: bool) {
        self.0 == other.0
    }
}

impl vstd::std_specs::cmp::PartialEqSpecImpl for Password {
    open spec fn obeys_eq_spec() -> bool {
        true
    }

    open spec fn eq_spec(&self, other: &Password) -> bool {
        self@ == other@
    }
}

impl Password {
    /// Accepts exactly the strings of 8 or more characters; the accepted
    /// string is kept unchanged.
    pub fn parse(s: &str) -> (r: Result<Password, String>)
        ensures
            match r {
                Ok(password) => spec_valid_password(s@) && password@ == s@,
                Err(msg) => !spec_valid_password(s@) && msg@ == "`"@ + s@
                    + "` is not a valid password: must be at least 8 characters long"@,
            },
    {
        if s.unicode_len() < 8 {
            let mut msg = String::from_str("`");
            msg.append(s);
            msg.append("` is not a valid password: must be at least 8 characters long");
            return Err(msg);
        }
        Ok(Password(s.to_owned()))
    }

    /// The underlying string, unchanged.
    pub fn as_ref(&self) -> (r: &str)
        ensures
            r@ == self@,
    {
        self.0.as_str()
    }
}

} // verus!
