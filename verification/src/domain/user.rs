//! A registered user: validated email and password, and whether login
//! must be completed with a second factor.

use vstd::prelude::*;
use crate::domain::email::Email;
use crate::domain::password::Password;

verus! {

/// A user record. Created on signup and never mutated thereafter.
#[derive(Debug)]
pub struct User {
    pub email: Email,
    pub password: Password,
    pub requires_2fa: bool,
}

impl Clone for User {
    fn clone(&self) -> (r: User)
        ensures
            r@ == self@,
    {
        User {
            email: self.email.clone(),
            password: self.password.clone(),
            requires_2fa: self.requires_2fa,
        }
    }
}

/// The mathematical image of a [`User`]: the strings it holds, as
/// character sequences, plus the second-factor flag.
pub ghost struct UserModel {
    pub email: Seq<char>,
    pub password: Seq<char>,
    pub requires_2fa: bool,
}

impl View for User {
    type V = UserModel;

    open spec fn view(&self) -> UserModel {
        UserModel { email: self.email@, password: self.password@, requires_2fa: self.requires_2fa }
    }
}

impl User {
    pub fn new(email: Email, password: Password, requires_2fa: bool) -> (r: User)
        ensures
            r@ == (UserModel { email: email@, password: password@, requires_2fa }),
    {
        User { email, password, requires_2fa }
    }
}

} // verus!
