//! The in-memory pending-challenge store: one challenge per email,
//! last one issued wins.

use vstd::prelude::*;
use crate::domain::data_stores::{
    ChallengeModel, LoginAttemptId, TwoFACode, TwoFACodeStore, TwoFACodeStoreError,
};
use crate::domain::email::Email;
use crate::table::EmailTable;

verus! {

/// One stored challenge: the attempt id and the code it must answer.
struct ChallengeEntry {
    id: LoginAttemptId,
    code: TwoFACode,
}

impl View for ChallengeEntry {
    type V = ChallengeModel;

    closed spec fn view(&self) -> ChallengeModel {
        ChallengeModel { id: self.id@, code: self.code@ }
    }
}

/// Volatile challenge store backed by an in-memory email-keyed table.
pub struct HashmapTwoFACodeStore {
    codes: EmailTable<ChallengeEntry>,
}

impl Default for HashmapTwoFACodeStore {
    /// An empty store.
    fn default() -> (r: HashmapTwoFACodeStore)
        ensures
            r.codes() == Map::<Seq<char>, ChallengeModel>::empty(),
    {
        HashmapTwoFACodeStore { codes: EmailTable::new() }
    }
}

impl TwoFACodeStore for HashmapTwoFACodeStore {
    closed spec fn codes(&self) -> Map<Seq<char>, ChallengeModel> {
        self.codes@
    }

    fn add_code(&mut self, email: Email, login_attempt_id: LoginAttemptId, code: TwoFACode) -> (r:
        Result<(), TwoFACodeStoreError>) {
        self.codes.insert(email, ChallengeEntry { id: login_attempt_id, code });
        Ok(())
    }

    fn remove_code(&mut self, email: &Email) -> (r: Result<(), TwoFACodeStoreError>) {
        if self.codes.remove(email) {
            Ok(())
        } else {
            Err(TwoFACodeStoreError::LoginAttemptIdNotFound)
        }
    }

    fn get_code(&self, email: &Email) -> (r: Result<
        (LoginAttemptId, TwoFACode),
        TwoFACodeStoreError,
    >) {
        match self.codes.get(email) {
            Some(entry) => Ok((entry.id.clone(), entry.code.clone())),
            None => Err(TwoFACodeStoreError::LoginAttemptIdNotFound),
        }
    }
}

} // verus!
