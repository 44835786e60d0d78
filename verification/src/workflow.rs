//! The decisions of a command, one at a time.
//!
//! A [`Workflow`] never touches the network or the terminal. It names the next
//! [`Step`] to perform; whoever drives it performs that step and hands back
//! the [`Event`] that came of it; the workflow answers with a [`Reaction`]: a
//! line to print, if any, and the step after. It ends with [`Step::Finish`].

use vstd::prelude::*;
use crate::command::Command;
use crate::command::CommandView;
use crate::config::Config;
use crate::error::DatabaseError;
use crate::error::DatabaseErrorView;
use crate::error::result_view;
use crate::report::render_row;
use crate::report::render_schema_ready;
use crate::report::render_upserted;
use crate::report::row_line;
use crate::report::schema_ready_line;
use crate::report::upserted_line;
use crate::statement::Statement;
use crate::statement::StatementView;
use crate::user::UserRow;
use crate::user::UserRowView;

verus! {

/// What the driver of a workflow has to do next.
#[derive(Debug, PartialEq, Eq)]
pub enum Step {
    /// Open a session with the cluster at this endpoint. Answer with
    /// [`Event::Connected`] or [`Event::Failed`].
    Connect(String),
    /// Submit the statement, with its bound values, and wait for the reply.
    /// Answer with [`Event::Executed`] or [`Event::Failed`]; for a statement
    /// that reads, [`Event::Executed`] says that the reply holds rows whose
    /// columns are (integer, text, text).
    Execute(Statement),
    /// Decode the next row of the reply. Answer with [`Event::Row`],
    /// [`Event::EndOfRows`] or, where the row cannot be decoded,
    /// [`Event::Failed`].
    FetchRow,
    /// Stop. The command has ended with this result.
    Finish(Result<(), DatabaseError>),
}

/// What came of a step.
#[derive(Debug, PartialEq, Eq)]
pub enum Event {
    /// The session is open.
    Connected,
    /// The statement was executed.
    Executed,
    /// The next row of the reply, decoded.
    Row(UserRow),
    /// The reply holds no further row.
    EndOfRows,
    /// The step failed, with the collaborator's account of the failure.
    Failed(String),
}

/// The answer of a workflow to an event.
#[derive(Debug, PartialEq, Eq)]
pub struct Reaction {
    /// A line to print before anything else is done.
    pub line: Option<String>,
    /// What to do after that.
    pub next: Step,
}

/// Where a command stands. Each state holds what the rest of the command
/// still needs, and no more.
#[derive(Debug, PartialEq, Eq)]
pub enum Workflow {
    /// Waiting for the session; the command has not begun.
    Connecting(Command),
    /// Waiting for the reply to the keyspace statement.
    CreatingKeyspace,
    /// Waiting for the reply to the table statement.
    CreatingTable,
    /// Waiting for the reply to the write of this row.
    Inserting(UserRow),
    /// Waiting for the reply to the read.
    Selecting,
    /// Going through the rows of the reply.
    Scanning,
    /// The command has ended.
    Finished,
}

/// What a [`Step`] is in contracts.
pub enum StepView {
    Connect(Seq<char>),
    Execute(StatementView),
    FetchRow,
    Finish(Result<(), DatabaseErrorView>),
}

/// What an [`Event`] is in contracts.
pub enum EventView {
    Connected,
    Executed,
    Row(UserRowView),
    EndOfRows,
    Failed(Seq<char>),
}

/// What a [`Reaction`] is in contracts.
pub struct ReactionView {
    pub line: Option<Seq<char>>,
    pub next: StepView,
}

/// What a [`Workflow`] is in contracts.
pub enum WorkflowView {
    Connecting(CommandView),
    CreatingKeyspace,
    CreatingTable,
    Inserting(UserRowView),
    Selecting,
    Scanning,
    Finished,
}

impl View for Step {
    type V = StepView;

    open spec fn view(&self) -> StepView {
        match self {
            Step::Connect(host) => StepView::Connect(host@),
            Step::Execute(statement) => StepView::Execute(statement@),
            Step::FetchRow => StepView::FetchRow,
            Step::Finish(result) => StepView::Finish(result_view(*result)),
        }
    }
}

impl View for Event {
    type V = EventView;

    open spec fn view(&self) -> EventView {
        match self {
            Event::Connected => EventView::Connected,
            Event::Executed => EventView::Executed,
            Event::Row(row) => EventView::Row(row@),
            Event::EndOfRows => EventView::EndOfRows,
            Event::Failed(message) => EventView::Failed(message@),
        }
    }
}

impl View for Reaction {
    type V = ReactionView;

    open spec fn view(&self) -> ReactionView {
        ReactionView {
            line: match self.line {
                Some(line) => Some(line@),
                None => None,
            },
            next: self.next@,
        }
    }
}

impl View for Workflow {
    type V = WorkflowView;

    open spec fn view(&self) -> WorkflowView {
        match self {
            Workflow::Connecting(command) => WorkflowView::Connecting(command@),
            Workflow::CreatingKeyspace => WorkflowView::CreatingKeyspace,
            Workflow::CreatingTable => WorkflowView::CreatingTable,
            Workflow::Inserting(row) => WorkflowView::Inserting(row@),
            Workflow::Selecting => WorkflowView::Selecting,
            Workflow::Scanning => WorkflowView::Scanning,
            Workflow::Finished => WorkflowView::Finished,
        }
    }
}

/// A reaction that prints nothing.
pub open spec fn quiet(next: StepView) -> ReactionView {
    ReactionView { line: None, next }
}

/// A reaction that prints `line` first.
pub open spec fn saying(line: Seq<char>, next: StepView) -> ReactionView {
    ReactionView { line: Some(line), next }
}

/// The end of a command in failure: nothing is printed and nothing further
/// is attempted.
pub open spec fn abort(error: DatabaseErrorView) -> (WorkflowView, ReactionView) {
    (WorkflowView::Finished, quiet(StepView::Finish(Err(error))))
}

impl CommandView {
    /// The state and the statement that a command begins with, once the
    /// session is open.
    pub open spec fn begin(self) -> (WorkflowView, StatementView) {
        match self {
            CommandView::DefineSchema => (
                WorkflowView::CreatingKeyspace,
                StatementView::CreateKeyspace,
            ),
            CommandView::Upsert(row) => (WorkflowView::Inserting(row), StatementView::InsertUser(row)),
            CommandView::Select => (WorkflowView::Selecting, StatementView::SelectUsers),
        }
    }
}

impl WorkflowView {
    /// The statement whose reply the workflow is waiting for, if any.
    pub open spec fn in_flight(self) -> Option<StatementView> {
        match self {
            WorkflowView::CreatingKeyspace => Some(StatementView::CreateKeyspace),
            WorkflowView::CreatingTable => Some(StatementView::CreateTable),
            WorkflowView::Inserting(row) => Some(StatementView::InsertUser(row)),
            WorkflowView::Selecting => Some(StatementView::SelectUsers),
            _ => None,
        }
    }

    /// The error that a failure in this state ends the command with: it tells
    /// a failed connection, a failed statement and an undecodable row apart,
    /// and carries the message it was given.
    pub open spec fn failure(self, message: Seq<char>) -> DatabaseErrorView {
        match self {
            WorkflowView::Connecting(_) => DatabaseErrorView::Connection { message },
            WorkflowView::Scanning => DatabaseErrorView::Decode { message },
            WorkflowView::Finished => DatabaseErrorView::OutOfTurn,
            _ => DatabaseErrorView::Statement { statement: self.in_flight()->0, message },
        }
    }

    /// The transition of the workflow: the state after `event`, and the
    /// reaction to it.
    ///
    /// - Once connected, a command submits its first statement.
    /// - The table statement is submitted only when the keyspace statement
    ///   has been executed; the schema is confirmed when both have been.
    /// - A write is confirmed when its one statement has been executed.
    /// - A read prints one line for each row, as the rows come, and ends well
    ///   when there are no more.
    /// - A failure, wherever it occurs, ends the command with an error.
    /// - An event that the state had not asked for ends it too.
    pub open spec fn react(self, event: EventView) -> (WorkflowView, ReactionView) {
        match (self, event) {
            (WorkflowView::Finished, _) => abort(DatabaseErrorView::OutOfTurn),
            (_, EventView::Failed(message)) => abort(self.failure(message)),
            (WorkflowView::Connecting(command), EventView::Connected) => (
                command.begin().0,
                quiet(StepView::Execute(command.begin().1)),
            ),
            (WorkflowView::CreatingKeyspace, EventView::Executed) => (
                WorkflowView::CreatingTable,
                quiet(StepView::Execute(StatementView::CreateTable)),
            ),
            (WorkflowView::CreatingTable, EventView::Executed) => (
                WorkflowView::Finished,
                saying(schema_ready_line(), StepView::Finish(Ok(()))),
            ),
            (WorkflowView::Inserting(row), EventView::Executed) => (
                WorkflowView::Finished,
                saying(upserted_line(row), StepView::Finish(Ok(()))),
            ),
            (WorkflowView::Selecting, EventView::Executed) => (
                WorkflowView::Scanning,
                quiet(StepView::FetchRow),
            ),
            (WorkflowView::Scanning, EventView::Row(row)) => (
                WorkflowView::Scanning,
                saying(row_line(row), StepView::FetchRow),
            ),
            (WorkflowView::Scanning, EventView::EndOfRows) => (
                WorkflowView::Finished,
                quiet(StepView::Finish(Ok(()))),
            ),
            _ => abort(DatabaseErrorView::OutOfTurn),
        }
    }
}

/// The reaction that ends a command with `error`.
fn stop(error: DatabaseError) -> (end: (Workflow, Reaction))
    ensures
        (end.0@, end.1@) == abort(error@),
{
    (Workflow::Finished, Reaction { line: None, next: Step::Finish(Err(error)) })
}

impl Workflow {
    /// The workflow of `command` against the cluster that `config` names, and
    /// its first step: to connect to that cluster.
    pub fn start(config: &Config, command: Command) -> (begin: (Workflow, Step))
        ensures
            begin.0@ == WorkflowView::Connecting(command@),
            begin.1@ == StepView::Connect(config.host@),
    {
        (Workflow::Connecting(command), Step::Connect(config.host.clone()))
    }

    /// Whether the command has ended.
    pub fn is_finished(&self) -> (yes: bool)
        ensures
            yes == (self@ is Finished),
    {
        match self {
            Workflow::Finished => true,
            _ => false,
        }
    }

    /// Takes in what came of the step last asked for, and says what follows.
    pub fn advance(self, event: Event) -> (after: (Workflow, Reaction))
        ensures
            (after.0@, after.1@) == self@.react(event@),
    {
        match (self, event) {
            (Workflow::Finished, _) => stop(DatabaseError::OutOfTurn),
            (Workflow::Connecting(_), Event::Failed(message)) => stop(
                DatabaseError::Connection { message },
            ),
            (Workflow::CreatingKeyspace, Event::Failed(message)) => stop(
                DatabaseError::Statement { statement: Statement::CreateKeyspace, message },
            ),
            (Workflow::CreatingTable, Event::Failed(message)) => stop(
                DatabaseError::Statement { statement: Statement::CreateTable, message },
            ),
            (Workflow::Inserting(row), Event::Failed(message)) => stop(
                DatabaseError::Statement { statement: Statement::InsertUser(row), message },
            ),
            (Workflow::Selecting, Event::Failed(message)) => stop(
                DatabaseError::Statement { statement: Statement::SelectUsers, message },
            ),
            (Workflow::Scanning, Event::Failed(message)) => stop(DatabaseError::Decode { message }),
            (Workflow::Connecting(command), Event::Connected) => match command {
                Command::DefineSchema => (
                    Workflow::CreatingKeyspace,
                    Reaction { line: None, next: Step::Execute(Statement::CreateKeyspace) },
                ),
                Command::Upsert { id, name, email } => {
                    let row = UserRow { id, name, email };
                    let bound = row.clone();
                    (
                        Workflow::Inserting(row),
                        Reaction { line: None, next: Step::Execute(Statement::InsertUser(bound)) },
                    )
                },
                Command::Select => (
                    Workflow::Selecting,
                    Reaction { line: None, next: Step::Execute(Statement::SelectUsers) },
                ),
            },
            (Workflow::CreatingKeyspace, Event::Executed) => (
                Workflow::CreatingTable,
                Reaction { line: None, next: Step::Execute(Statement::CreateTable) },
            ),
            (Workflow::CreatingTable, Event::Executed) => (
                Workflow::Finished,
                Reaction { line: Some(render_schema_ready()), next: Step::Finish(Ok(())) },
            ),
            (Workflow::Inserting(row), Event::Executed) => (
                Workflow::Finished,
                Reaction { line: Some(render_upserted(&row)), next: Step::Finish(Ok(())) },
            ),
            (Workflow::Selecting, Event::Executed) => (
                Workflow::Scanning,
                Reaction { line: None, next: Step::FetchRow },
            ),
            (Workflow::Scanning, Event::Row(row)) => (
                Workflow::Scanning,
                Reaction { line: Some(render_row(&row)), next: Step::FetchRow },
            ),
            (Workflow::Scanning, Event::EndOfRows) => (
                Workflow::Finished,
                Reaction { line: None, next: Step::Finish(Ok(())) },
            ),
            _ => stop(DatabaseError::OutOfTurn),
        }
    }
}

} // verus!
