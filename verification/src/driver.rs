//! Running a command to its end against the in-memory cluster.
//!
//! [`run`] does what a client does with a workflow: it performs each step,
//! hands back what came of it and collects the lines, until the workflow
//! finishes. What comes of a whole command is stated once, by [`outcome`],
//! without a word about steps.

use vstd::prelude::*;
use crate::cluster::Cluster;
use crate::cluster::ClusterView;
use crate::cluster::no_listener_text;
use crate::cluster::no_table_text;
use crate::command::Command;
use crate::command::CommandView;
use crate::config::Config;
use crate::error::DatabaseError;
use crate::error::DatabaseErrorView;
use crate::error::result_view;
use crate::report::row_line;
use crate::report::schema_ready_line;
use crate::report::upserted_line;
use crate::statement::StatementView;
use crate::user::UserRowView;
use crate::workflow::Step;
use crate::workflow::StepView;
use crate::workflow::Workflow;
use crate::workflow::WorkflowView;

verus! {

/// What a command left behind for its user: the lines it printed, in order,
/// and how it ended.
#[derive(Debug, PartialEq, Eq)]
pub struct Report {
    pub lines: Vec<String>,
    pub result: Result<(), DatabaseError>,
}

/// What a [`Report`] is in contracts.
pub struct ReportView {
    pub lines: Seq<Seq<char>>,
    pub result: Result<(), DatabaseErrorView>,
}

impl View for Report {
    type V = ReportView;

    open spec fn view(&self) -> ReportView {
        ReportView {
            lines: self.lines@.map_values(|line: String| line@),
            result: result_view(self.result),
        }
    }
}

/// The report of a command that went well.
pub open spec fn done(lines: Seq<Seq<char>>) -> ReportView {
    ReportView { lines, result: Ok(()) }
}

/// The report of a command that failed before it had printed anything.
pub open spec fn failed(error: DatabaseErrorView) -> ReportView {
    ReportView { lines: Seq::empty(), result: Err(error) }
}

/// The lines of a read: one for each row, in the order of the rows.
pub open spec fn row_lines(rows: Seq<UserRowView>) -> Seq<Seq<char>> {
    rows.map_values(|row: UserRowView| row_line(row))
}

/// What a command comes to, on a cluster in a given state, for a client
/// configured with `host`: the cluster afterwards, and the report.
///
/// - Where nothing listens at `host`, every command fails with a connection
///   error and leaves the cluster as it was.
/// - Defining the schema leaves keyspace and table in place and the rows
///   untouched, whatever was there before, and confirms it.
/// - A write needs the table. It replaces or adds the one row and echoes it.
/// - A read needs the table. It changes nothing and prints every row.
pub open spec fn outcome(cluster: ClusterView, host: Seq<char>, command: CommandView) -> (
    ClusterView,
    ReportView,
) {
    if host != cluster.address {
        (cluster, failed(DatabaseErrorView::Connection { message: no_listener_text() }))
    } else {
        match command {
            CommandView::DefineSchema => (
                ClusterView { keyspace: true, table: true, ..cluster },
                done(seq![schema_ready_line()]),
            ),
            CommandView::Upsert(row) => if cluster.table {
                (cluster.upsert(row), done(seq![upserted_line(row)]))
            } else {
                (
                    cluster,
                    failed(
                        DatabaseErrorView::Statement {
                            statement: StatementView::InsertUser(row),
                            message: no_table_text(),
                        },
                    ),
                )
            },
            CommandView::Select => if cluster.table {
                (cluster, done(row_lines(cluster.rows)))
            } else {
                (
                    cluster,
                    failed(
                        DatabaseErrorView::Statement {
                            statement: StatementView::SelectUsers,
                            message: no_table_text(),
                        },
                    ),
                )
            },
        }
    }
}

/// How far a state of the workflow is from the end of its command.
spec fn distance(state: WorkflowView) -> nat {
    match state {
        WorkflowView::Connecting(_) => 4,
        WorkflowView::CreatingKeyspace => 3,
        WorkflowView::Selecting => 3,
        WorkflowView::CreatingTable => 2,
        WorkflowView::Inserting(_) => 2,
        WorkflowView::Scanning => 2,
        WorkflowView::Finished => 0,
    }
}

/// What holds between the steps of a run: the workflow is where its command
/// has brought it, the cluster holds what the statements so far have made of
/// it, and the lines are those of the rows scanned so far.
spec fn on_course(
    start: ClusterView,
    host: Seq<char>,
    command: CommandView,
    now: ClusterView,
    state: WorkflowView,
    step: StepView,
    lines: Seq<Seq<char>>,
    cursor: int,
) -> bool {
    match state {
        WorkflowView::Connecting(asked) => {
            &&& asked == command
            &&& step == StepView::Connect(host)
            &&& now == start
            &&& lines.len() == 0
            &&& cursor == 0
        },
        WorkflowView::CreatingKeyspace => {
            &&& command == CommandView::DefineSchema
            &&& host == start.address
            &&& step == StepView::Execute(StatementView::CreateKeyspace)
            &&& now == start
            &&& lines.len() == 0
        },
        WorkflowView::CreatingTable => {
            &&& command == CommandView::DefineSchema
            &&& host == start.address
            &&& step == StepView::Execute(StatementView::CreateTable)
            &&& now == (ClusterView { keyspace: true, ..start })
            &&& lines.len() == 0
        },
        WorkflowView::Inserting(row) => {
            &&& command == CommandView::Upsert(row)
            &&& host == start.address
            &&& step == StepView::Execute(StatementView::InsertUser(row))
            &&& now == start
            &&& lines.len() == 0
        },
        WorkflowView::Selecting => {
            &&& command == CommandView::Select
            &&& host == start.address
            &&& step == StepView::Execute(StatementView::SelectUsers)
            &&& now == start
            &&& lines.len() == 0
            &&& cursor == 0
        },
        WorkflowView::Scanning => {
            &&& command == CommandView::Select
            &&& host == start.address
            &&& start.table
            &&& step == StepView::FetchRow
            &&& now == start
            &&& 0 <= cursor <= start.rows.len()
            &&& lines == row_lines(start.rows.subrange(0, cursor))
        },
        WorkflowView::Finished => {
            &&& step matches StepView::Finish(result)
            &&& (now, ReportView { lines, result }) == outcome(start, host, command)
        },
    }
}

/// Runs `command` to its end against `cluster`, for a client configured with
/// `config`, and reports what the command printed and how it ended.
pub fn run(config: &Config, command: Command, cluster: &mut Cluster) -> (report: Report)
    ensures
        (final(cluster)@, report@) == outcome(old(cluster)@, config.host@, command@),
        final(cluster)@.wf(),
{
    let ghost start = cluster@;
    let ghost host = config.host@;
    let ghost asked = command@;
    let (mut workflow, mut step) = Workflow::start(config, command);
    let mut lines: Vec<String> = Vec::new();
    let mut cursor: usize = 0;
    loop
        invariant
            start == old(cluster)@,
            host == config.host@,
            asked == command@,
            on_course(
                start,
                host,
                asked,
                cluster@,
                workflow@,
                step@,
                lines@.map_values(|line: String| line@),
                cursor as int,
            ),
        decreases distance(workflow@), cluster@.rows.len() - cursor,
    {
        let ghost so_far = lines@.map_values(|line: String| line@);
        let event = match step {
            Step::Connect(endpoint) => cluster.connect(&endpoint),
            Step::Execute(statement) => cluster.execute(statement),
            Step::FetchRow => {
                let fetched = cluster.fetch(cursor);
                if cursor < cluster.len() {
                    cursor = cursor + 1;
                }
                fetched
            },
            Step::Finish(result) => {
                proof {
                    use_type_invariant(&*cluster);
                }
                return Report { lines, result };
            },
        };
        let (next, reaction) = workflow.advance(event);
        match reaction.line {
            Some(line) => {
                lines.push(line);
            },
            None => {},
        }
        proof {
            let now_lines = lines@.map_values(|line: String| line@);
            if reaction.line is Some {
                assert(now_lines =~= so_far.push(reaction.line->0@));
            } else {
                assert(now_lines =~= so_far);
            }
            if workflow@ is Selecting && next@ is Scanning {
                // the scan begins: no row has been met
                assert(start.rows.subrange(0, 0) =~= Seq::<UserRowView>::empty());
                assert(now_lines =~= row_lines(start.rows.subrange(0, 0)));
            }
            if workflow@ is Scanning && next@ is Scanning {
                // one more row, one more line
                assert(start.rows.subrange(0, cursor as int) =~= start.rows.subrange(
                    0,
                    cursor - 1,
                ).push(start.rows[cursor - 1]));
                assert(now_lines =~= row_lines(start.rows.subrange(0, cursor as int)));
            }
            if workflow@ is Scanning && next@ is Finished {
                // the rows have run out: every row has its line
                assert(start.rows.subrange(0, cursor as int) =~= start.rows);
            }
            if !(workflow@ is Scanning) && next@ is Finished {
                // nothing was printed before: the confirmation stands alone
                if reaction.line is Some {
                    assert(now_lines =~= seq![reaction.line->0@]);
                } else {
                    assert(now_lines =~= Seq::<Seq<char>>::empty());
                }
            }
        }
        workflow = next;
        step = reaction.next;
    }
}

} // verus!
