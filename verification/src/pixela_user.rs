//! The account used against the remote habit-tracking service: a user
//! name, its token and the subjects fetched for it.

use vstd::prelude::*;

use crate::subjects::{Subject, SubjectView};

verus! {

/// Mathematical image of a [`PixelaUser`].
pub ghost struct PixelaUserView {
    pub username: Seq<char>,
    pub token: Seq<char>,
    pub subjects: Seq<SubjectView>,
}

/// The remote account: credentials and the subjects known for it.
#[derive(Debug, Clone)]
pub struct PixelaUser {
    username: String,
    token: String,
    subjects: Vec<Subject>,
}

impl View for PixelaUser {
    type V = PixelaUserView;

    closed spec fn view(&self) -> PixelaUserView {
        PixelaUserView {
            username: self.username@,
            token: self.token@,
            subjects: Seq::new(self.subjects@.len(), |i: int| self.subjects@[i]@),
        }
    }
}

impl PixelaUser {
    /// An account with no subjects fetched yet.
    pub fn new(username: String, token: String) -> (r: PixelaUser)
        ensures
            r@.username == username@,
            r@.token == token@,
            r@.subjects.len() == 0,
    {
        PixelaUser { username, token, subjects: Vec::new() }
    }

    /// Whether the account can be used at all: the user name must not be
    /// empty.
    pub fn validate_not_empty(&self) -> (r: bool)
        ensures
            r == (self@.username.len() > 0),
    {
        !self.username.as_str().is_empty()
    }

    /// The account's user name.
    pub fn username(&self) -> (r: &str)
        ensures
            r@ == self@.username,
    {
        self.username.as_str()
    }

    /// The account's token.
    pub fn token(&self) -> (r: &str)
        ensures
            r@ == self@.token,
    {
        self.token.as_str()
    }

    /// The subjects known for the account.
    pub fn subjects(&self) -> (r: &Vec<Subject>)
        ensures
            r@.len() == self@.subjects.len(),
            forall|i: int| 0 <= i < r@.len() ==> (#[trigger] r@[i])@ == self@.subjects[i],
    {
        &self.subjects
    }
}

} // verus!
