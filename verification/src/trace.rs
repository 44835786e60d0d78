//! What holds of a workflow over a whole sequence of events, whatever the
//! events are.

use vstd::prelude::*;
use crate::command::CommandView;
use crate::error::DatabaseErrorView;
use crate::report::row_line;
use crate::statement::StatementView;
use crate::user::UserRowView;
use crate::workflow::abort;
use crate::workflow::EventView;
use crate::workflow::quiet;
use crate::workflow::ReactionView;
use crate::workflow::StepView;
use crate::workflow::WorkflowView;

verus! {

/// The statements of a command, in the order in which they are submitted.
pub open spec fn plan(command: CommandView) -> Seq<StatementView> {
    match command {
        CommandView::DefineSchema => seq![
            StatementView::CreateKeyspace,
            StatementView::CreateTable,
        ],
        CommandView::Upsert(row) => seq![StatementView::InsertUser(row)],
        CommandView::Select => seq![StatementView::SelectUsers],
    }
}

/// The reactions of a workflow to a sequence of events, one for each event.
pub open spec fn reactions(state: WorkflowView, events: Seq<EventView>) -> Seq<ReactionView>
    decreases events.len(),
{
    if events.len() == 0 {
        Seq::empty()
    } else {
        seq![state.react(events[0]).1] + reactions(state.react(events[0]).0, events.drop_first())
    }
}

/// The state of a workflow after a sequence of events.
pub open spec fn state_after(state: WorkflowView, events: Seq<EventView>) -> WorkflowView
    decreases events.len(),
{
    if events.len() == 0 {
        state
    } else {
        state_after(state.react(events[0]).0, events.drop_first())
    }
}

/// The statements that a sequence of reactions asks to submit, in order.
pub open spec fn issued(answers: Seq<ReactionView>) -> Seq<StatementView>
    decreases answers.len(),
{
    if answers.len() == 0 {
        Seq::empty()
    } else {
        match answers[0].next {
            StepView::Execute(statement) => seq![statement] + issued(answers.drop_first()),
            _ => issued(answers.drop_first()),
        }
    }
}

/// The lines that a sequence of reactions asks to print, in order.
pub open spec fn printed(answers: Seq<ReactionView>) -> Seq<Seq<char>>
    decreases answers.len(),
{
    if answers.len() == 0 {
        Seq::empty()
    } else {
        match answers[0].line {
            Some(line) => seq![line] + printed(answers.drop_first()),
            None => printed(answers.drop_first()),
        }
    }
}

/// Whether one of the reactions ends the command well.
pub open spec fn succeeded(answers: Seq<ReactionView>) -> bool {
    exists|i: int| 0 <= i < answers.len() && (#[trigger] answers[i]).next == StepView::Finish(Ok(()))
}

/// The statements that a state has yet to submit.
pub open spec fn outstanding(state: WorkflowView) -> Seq<StatementView> {
    match state {
        WorkflowView::Connecting(command) => plan(command),
        WorkflowView::CreatingKeyspace => seq![StatementView::CreateTable],
        _ => Seq::empty(),
    }
}

/// The events of a read that meets `rows` and then `ending`.
pub open spec fn scan_events(rows: Seq<UserRowView>, ending: EventView) -> Seq<EventView> {
    rows.map_values(|row: UserRowView| EventView::Row(row)).push(ending)
}

/// The table statement is asked for in one situation only: when the keyspace
/// statement has been executed.
pub proof fn table_waits_for_keyspace(state: WorkflowView, event: EventView)
    ensures
        state.react(event).1.next == StepView::Execute(StatementView::CreateTable) ==> state
            == WorkflowView::CreatingKeyspace && event == EventView::Executed,
{
}

/// A failure ends the command, whatever it was doing: the workflow finishes
/// with an error, prints nothing and asks for nothing more. The error is that
/// of the state in which the failure came, with the message as it was given.
pub proof fn failure_ends_the_command(state: WorkflowView, message: Seq<char>)
    ensures
        state.react(EventView::Failed(message)) == abort(state.failure(message)),
        state.react(EventView::Failed(message)).0 == WorkflowView::Finished,
        state.react(EventView::Failed(message)).1.line is None,
        state.react(EventView::Failed(message)).1.next is Finish,
        state.react(EventView::Failed(message)).1.next->Finish_0 is Err,
{
}

/// A failed connection ends every command with a connection error, before
/// any statement.
pub proof fn failed_connection_ends_every_command(command: CommandView, message: Seq<char>)
    ensures
        WorkflowView::Connecting(command).react(EventView::Failed(message)) == abort(
            DatabaseErrorView::Connection { message },
        ),
{
}

/// A command ends well in three situations only: the table statement was
/// executed, the write was executed, or the rows of a read came to their end.
pub proof fn success_is_earned(state: WorkflowView, event: EventView)
    ensures
        state.react(event).1.next == StepView::Finish(Ok(())) ==> {
            ||| state == WorkflowView::CreatingTable && event == EventView::Executed
            ||| state is Inserting && event == EventView::Executed
            ||| state == WorkflowView::Scanning && event == EventView::EndOfRows
        },
{
}

/// Once a command has ended, whatever is handed to its workflow is answered
/// with an error: no statement is asked for and no line is printed.
pub proof fn nothing_follows_the_end(events: Seq<EventView>)
    ensures
        state_after(WorkflowView::Finished, events) == WorkflowView::Finished,
        issued(reactions(WorkflowView::Finished, events)).len() == 0,
        printed(reactions(WorkflowView::Finished, events)).len() == 0,
        !succeeded(reactions(WorkflowView::Finished, events)),
        forall|i: int|
            0 <= i < events.len() ==> #[trigger] reactions(WorkflowView::Finished, events)[i]
                == quiet(StepView::Finish(Err(DatabaseErrorView::OutOfTurn))),
        reactions(WorkflowView::Finished, events).len() == events.len(),
    decreases events.len(),
{
    if events.len() > 0 {
        let rest = events.drop_first();
        nothing_follows_the_end(rest);
        let answers = reactions(WorkflowView::Finished, events);
        let later = reactions(WorkflowView::Finished, rest);
        assert(answers.drop_first() =~= later);
        assert forall|i: int| 0 <= i < events.len() implies #[trigger] answers[i] == quiet(
            StepView::Finish(Err(DatabaseErrorView::OutOfTurn)),
        ) by {
            if i > 0 {
                assert(answers[i] == later[i - 1]);
            }
        }
    }
}

/// Whatever the events, a workflow asks for the statements of its plan, in
/// the order of the plan, and for no other: two at most to define the
/// schema, one at most to write, one at most to read.
pub proof fn statements_follow_the_plan(state: WorkflowView, events: Seq<EventView>)
    ensures
        issued(reactions(state, events)).is_prefix_of(outstanding(state)),
    decreases events.len(),
{
    let answers = reactions(state, events);
    if events.len() > 0 {
        let next = state.react(events[0]).0;
        let rest = events.drop_first();
        let later = reactions(next, rest);
        statements_follow_the_plan(next, rest);
        assert(answers.drop_first() =~= later);
        match answers[0].next {
            StepView::Execute(statement) => {
                assert(issued(answers) == seq![statement] + issued(later));
                assert(outstanding(state) =~= seq![statement] + outstanding(next));
                assert(issued(answers).is_prefix_of(outstanding(state)));
            },
            _ => {
                assert(outstanding(next).len() == 0);
                assert(issued(answers) == issued(later));
            },
        }
    }
}

/// A command that ends well has submitted its whole plan.
pub proof fn success_takes_the_whole_plan(state: WorkflowView, events: Seq<EventView>)
    requires
        succeeded(reactions(state, events)),
    ensures
        issued(reactions(state, events)) == outstanding(state),
    decreases events.len(),
{
    let answers = reactions(state, events);
    let i = choose|i: int|
        0 <= i < answers.len() && (#[trigger] answers[i]).next == StepView::Finish(Ok(()));
    let next = state.react(events[0]).0;
    let rest = events.drop_first();
    let later = reactions(next, rest);
    assert(answers.drop_first() =~= later);
    if i == 0 {
        nothing_follows_the_end(rest);
        assert(issued(answers) =~= outstanding(state));
    } else {
        assert(later[i - 1] == answers[i]);
        success_takes_the_whole_plan(next, rest);
        match answers[0].next {
            StepView::Execute(statement) => {
                assert(outstanding(state) =~= seq![statement] + outstanding(next));
            },
            StepView::Finish(_) => {
                nothing_follows_the_end(rest);
            },
            _ => {},
        }
        assert(issued(answers) =~= outstanding(state));
    }
}

/// The reactions of a read in progress to the rows it meets and to what ends
/// them: one line for each row, in the order of the rows, and then the end.
/// Where the rows run out the command ends well. Where a row cannot be
/// decoded the command ends with a decode error: the lines of the rows
/// before it stand, and the scan goes no further.
pub proof fn scan_prints_rows_until_the_end(rows: Seq<UserRowView>, ending: EventView)
    requires
        ending is EndOfRows || ending is Failed,
    ensures
        ({
            let answers = reactions(WorkflowView::Scanning, scan_events(rows, ending));
            &&& answers.len() == rows.len() + 1
            &&& printed(answers) == rows.map_values(|row: UserRowView| row_line(row))
            &&& issued(answers).len() == 0
            &&& answers.last().next == match ending {
                EventView::Failed(message) => StepView::Finish(
                    Err(DatabaseErrorView::Decode { message }),
                ),
                _ => StepView::Finish(Ok(())),
            }
            &&& state_after(WorkflowView::Scanning, scan_events(rows, ending))
                == WorkflowView::Finished
        }),
    decreases rows.len(),
{
    let events = scan_events(rows, ending);
    let answers = reactions(WorkflowView::Scanning, events);
    if rows.len() == 0 {
        assert(events.drop_first() =~= Seq::<EventView>::empty());
        assert(reactions(WorkflowView::Finished, events.drop_first()) =~= Seq::<
            ReactionView,
        >::empty());
        assert(answers.drop_first() =~= Seq::<ReactionView>::empty());
        assert(printed(answers.drop_first()).len() == 0);
        assert(issued(answers.drop_first()).len() == 0);
        assert(state_after(WorkflowView::Finished, events.drop_first()) == WorkflowView::Finished);
        assert(printed(answers) =~= rows.map_values(|row: UserRowView| row_line(row)));
    } else {
        let rest = rows.drop_first();
        scan_prints_rows_until_the_end(rest, ending);
        assert(events.drop_first() =~= scan_events(rest, ending));
        let later = reactions(WorkflowView::Scanning, scan_events(rest, ending));
        assert(answers.drop_first() =~= later);
        assert(answers.last() == later.last());
        assert(printed(answers) =~= rows.map_values(|row: UserRowView| row_line(row)));
    }
}

} // verus!
