//! The one entity of the data model: a row of the users table.

use vstd::prelude::*;

verus! {

/// A row of `ks.users`. The `id` is the primary key: a table holds at most one
/// row for each `id`.
#[derive(Debug, PartialEq, Eq)]
pub struct UserRow {
    pub id: i32,
    pub name: String,
    pub email: String,
}

/// What a [`UserRow`] is in contracts: its key and its two texts.
pub struct UserRowView {
    pub id: int,
    pub name: Seq<char>,
    pub email: Seq<char>,
}

impl View for UserRow {
    type V = UserRowView;

    open spec fn view(&self) -> UserRowView {
        UserRowView { id: self.id as int, name: self.name@, email: self.email@ }
    }
}

impl UserRow {
    /// A row of the three given values. Nothing is validated: an empty text or
    /// a negative key is a row like any other.
    pub fn new(id: i32, name: String, email: String) -> (row: UserRow)
        ensures
            row@ == (UserRowView { id: id as int, name: name@, email: email@ }),
    {
        UserRow { id, name, email }
    }
}

impl Clone for UserRow {
    fn clone(&self) -> (copy: UserRow)
        ensures
            copy@ == self@,
    {
        UserRow { id: self.id, name: self.name.clone(), email: self.email.clone() }
    }
}

} // verus!
