//! The one kind of failure that a command can end in.

use vstd::prelude::*;
use crate::statement::Statement;
use crate::statement::StatementView;

verus! {

/// Why a command failed. Every failure ends the command: nothing is retried
/// and nothing is skipped. The message is the collaborator's own account of
/// what went wrong, carried as it was given.
#[derive(Debug, PartialEq, Eq)]
pub enum DatabaseError {
    /// No session could be opened with the configured endpoint.
    Connection { message: String },
    /// The statement was not executed, or its reply was not of the shape that
    /// the statement calls for.
    Statement { statement: Statement, message: String },
    /// A row of a reply could not be decoded as (integer, text, text).
    Decode { message: String },
    /// The workflow was handed an event that it had not asked for.
    OutOfTurn,
}

/// What a [`DatabaseError`] is in contracts.
pub enum DatabaseErrorView {
    Connection { message: Seq<char> },
    Statement { statement: StatementView, message: Seq<char> },
    Decode { message: Seq<char> },
    OutOfTurn,
}

impl View for DatabaseError {
    type V = DatabaseErrorView;

    open spec fn view(&self) -> DatabaseErrorView {
        match self {
            DatabaseError::Connection { message } => DatabaseErrorView::Connection {
                message: message@,
            },
            DatabaseError::Statement { statement, message } => DatabaseErrorView::Statement {
                statement: statement@,
                message: message@,
            },
            DatabaseError::Decode { message } => DatabaseErrorView::Decode { message: message@ },
            DatabaseError::OutOfTurn => DatabaseErrorView::OutOfTurn,
        }
    }
}

/// The view of a command's result.
pub open spec fn result_view(result: Result<(), DatabaseError>) -> Result<(), DatabaseErrorView> {
    match result {
        Ok(_) => Ok(()),
        Err(error) => Err(error@),
    }
}

} // verus!
