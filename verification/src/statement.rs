//! The CQL statements that the client issues, and the values bound to them.

use vstd::prelude::*;
use crate::user::UserRow;
use crate::user::UserRowView;

verus! {

/// The text that creates the keyspace `ks` unless it exists. Its replication
/// is `SimpleStrategy` with a single replica: enough for a cluster of one
/// node, and no redundancy at all on a larger one.
pub open spec fn create_keyspace_text() -> Seq<char> {
    "CREATE KEYSPACE IF NOT EXISTS ks WITH replication = {'class': 'SimpleStrategy', 'replication_factor': 1}"@
}

/// The text that creates the table `ks.users` unless it exists.
pub open spec fn create_table_text() -> Seq<char> {
    "CREATE TABLE IF NOT EXISTS ks.users (id int PRIMARY KEY, name text, email text)"@
}

/// The text that writes one row, with a marker for each of its three values.
pub open spec fn insert_user_text() -> Seq<char> {
    "INSERT INTO ks.users (id, name, email) VALUES (?, ?, ?)"@
}

/// The text that reads every row of the table.
pub open spec fn select_users_text() -> Seq<char> {
    "SELECT id, name, email FROM ks.users"@
}

/// One statement of the client.
#[derive(Debug, PartialEq, Eq)]
pub enum Statement {
    /// Create the keyspace if it is absent.
    CreateKeyspace,
    /// Create the table if it is absent.
    CreateTable,
    /// Write the row, replacing any row of the same `id`.
    InsertUser(UserRow),
    /// Read all rows, unfiltered and in no particular order.
    SelectUsers,
}

/// What a [`Statement`] is in contracts.
pub enum StatementView {
    CreateKeyspace,
    CreateTable,
    InsertUser(UserRowView),
    SelectUsers,
}

impl View for Statement {
    type V = StatementView;

    open spec fn view(&self) -> StatementView {
        match self {
            Statement::CreateKeyspace => StatementView::CreateKeyspace,
            Statement::CreateTable => StatementView::CreateTable,
            Statement::InsertUser(row) => StatementView::InsertUser(row@),
            Statement::SelectUsers => StatementView::SelectUsers,
        }
    }
}

impl StatementView {
    /// The CQL text of the statement.
    pub open spec fn text(self) -> Seq<char> {
        match self {
            StatementView::CreateKeyspace => create_keyspace_text(),
            StatementView::CreateTable => create_table_text(),
            StatementView::InsertUser(_) => insert_user_text(),
            StatementView::SelectUsers => select_users_text(),
        }
    }

    /// The row whose values are bound to the statement's markers, in the
    /// order `id`, `name`, `email`; `None` where the text has no marker.
    pub open spec fn bound(self) -> Option<UserRowView> {
        match self {
            StatementView::InsertUser(row) => Some(row),
            _ => None,
        }
    }

    /// Whether the reply to the statement carries rows.
    pub open spec fn reads(self) -> bool {
        self is SelectUsers
    }
}

impl Statement {
    /// The CQL text to submit.
    pub fn text(&self) -> (text: &'static str)
        ensures
            text@ == self@.text(),
    {
        match self {
            Statement::CreateKeyspace => "CREATE KEYSPACE IF NOT EXISTS ks WITH replication = {'class': 'SimpleStrategy', 'replication_factor': 1}",
            Statement::CreateTable => "CREATE TABLE IF NOT EXISTS ks.users (id int PRIMARY KEY, name text, email text)",
            Statement::InsertUser(_) => "INSERT INTO ks.users (id, name, email) VALUES (?, ?, ?)",
            Statement::SelectUsers => "SELECT id, name, email FROM ks.users",
        }
    }

    /// The row to bind to the markers of the text, if it has any.
    pub fn bound(&self) -> (row: Option<&UserRow>)
        ensures
            match row {
                Some(r) => self@.bound() == Some(r@),
                None => self@.bound() is None,
            },
    {
        match self {
            Statement::InsertUser(row) => Some(row),
            _ => None,
        }
    }

    /// Whether the reply to the statement carries rows.
    pub fn reads(&self) -> (yes: bool)
        ensures
            yes == self@.reads(),
    {
        match self {
            Statement::SelectUsers => true,
            _ => false,
        }
    }
}

impl Clone for Statement {
    fn clone(&self) -> (copy: Statement)
        ensures
            copy@ == self@,
    {
        match self {
            Statement::CreateKeyspace => Statement::CreateKeyspace,
            Statement::CreateTable => Statement::CreateTable,
            Statement::InsertUser(row) => Statement::InsertUser(row.clone()),
            Statement::SelectUsers => Statement::SelectUsers,
        }
    }
}

} // verus!
