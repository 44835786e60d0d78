//! The three commands of the client.

use vstd::prelude::*;
use crate::user::UserRowView;

verus! {

/// What the user asks for.
#[derive(Debug, PartialEq, Eq)]
pub enum Command {
    /// Create keyspace and table if they do not exist.
    DefineSchema,
    /// Insert a row, or replace the row of the same `id`.
    Upsert { id: i32, name: String, email: String },
    /// Print all rows of the table.
    Select,
}

/// What a [`Command`] is in contracts.
pub enum CommandView {
    DefineSchema,
    Upsert(UserRowView),
    Select,
}

impl View for Command {
    type V = CommandView;

    open spec fn view(&self) -> CommandView {
        match self {
            Command::DefineSchema => CommandView::DefineSchema,
            Command::Upsert { id, name, email } => CommandView::Upsert(
                UserRowView { id: *id as int, name: name@, email: email@ },
            ),
            Command::Select => CommandView::Select,
        }
    }
}

} // verus!
