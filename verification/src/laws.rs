//! What holds of whole commands, one after another, on the in-memory cluster.

use vstd::prelude::*;
use crate::cluster::ClusterView;
use crate::cluster::lemma_position;
use crate::cluster::lemma_upsert_users;
use crate::cluster::lemma_upsert_wf;
use crate::cluster::no_listener_text;
use crate::command::CommandView;
use crate::driver::done;
use crate::driver::failed;
use crate::driver::outcome;
use crate::driver::row_lines;
use crate::error::DatabaseErrorView;
use crate::report::row_line;
use crate::user::UserRowView;

verus! {

/// No command breaks the invariant of the cluster.
pub proof fn outcome_keeps_the_invariant(
    cluster: ClusterView,
    host: Seq<char>,
    command: CommandView,
)
    requires
        cluster.wf(),
    ensures
        outcome(cluster, host, command).0.wf(),
{
    if host == cluster.address {
        match command {
            CommandView::Upsert(row) => {
                if cluster.table {
                    lemma_upsert_wf(cluster, row);
                }
            },
            _ => {},
        }
    }
}

/// Defining the schema is idempotent: where it has succeeded once, it
/// succeeds again, and the second time it changes nothing, neither the
/// structure nor the rows.
pub proof fn define_schema_is_idempotent(cluster: ClusterView, host: Seq<char>)
    ensures
        ({
            let first = outcome(cluster, host, CommandView::DefineSchema);
            let second = outcome(first.0, host, CommandView::DefineSchema);
            first.1.result is Ok ==> second.1.result is Ok && second.0 == first.0
        }),
{
}

/// Defining the schema never touches the rows, and where keyspace and table
/// exist already it touches nothing at all.
pub proof fn define_schema_keeps_what_exists(cluster: ClusterView, host: Seq<char>)
    ensures
        outcome(cluster, host, CommandView::DefineSchema).0.rows == cluster.rows,
        cluster.keyspace && cluster.table ==> outcome(cluster, host, CommandView::DefineSchema).0
            == cluster,
{
}

/// A write is a write by key: where it succeeds, the map of users has the
/// row's name and email at the row's `id` and is unchanged elsewhere, and the
/// row is the only one of its `id`.
pub proof fn upsert_writes_one_row(cluster: ClusterView, host: Seq<char>, row: UserRowView)
    requires
        cluster.wf(),
    ensures
        ({
            let written = outcome(cluster, host, CommandView::Upsert(row));
            written.1.result is Ok ==> {
                &&& written.0.users() == cluster.users().insert(row.id, (row.name, row.email))
                &&& written.0.holds_exactly(row)
            }
        }),
{
    let written = outcome(cluster, host, CommandView::Upsert(row));
    if written.1.result is Ok {
        lemma_upsert_users(cluster, row);
        lemma_upsert_wf(cluster, row);
        let after = cluster.upsert(row);
        let place = if cluster.holds(row.id) {
            cluster.position(row.id)
        } else {
            cluster.rows.len() as int
        };
        assert(0 <= place < after.rows.len() && after.rows[place] == row);
        lemma_position(after, place);
        assert forall|i: int| 0 <= i < after.rows.len() && after.rows[i].id == row.id implies i
            == after.position(row.id) by {
            lemma_position(after, i);
        }
    }
}

/// A second write to the same `id` replaces the first as a whole: the table
/// then holds exactly one row of that `id`, with the name and the email of
/// the second write, as if the first had never been made, and no row more
/// than after the first.
pub proof fn upsert_replaces_the_row(
    cluster: ClusterView,
    host: Seq<char>,
    first: UserRowView,
    second: UserRowView,
)
    requires
        cluster.wf(),
        first.id == second.id,
    ensures
        ({
            let once = outcome(cluster, host, CommandView::Upsert(first));
            let twice = outcome(once.0, host, CommandView::Upsert(second));
            once.1.result is Ok ==> {
                &&& twice.1.result is Ok
                &&& twice.0.holds_exactly(second)
                &&& twice.0.rows.len() == once.0.rows.len()
                &&& twice.0.users() == cluster.users().insert(
                    second.id,
                    (second.name, second.email),
                )
            }
        }),
{
    let once = outcome(cluster, host, CommandView::Upsert(first));
    if once.1.result is Ok {
        upsert_writes_one_row(cluster, host, first);
        outcome_keeps_the_invariant(cluster, host, CommandView::Upsert(first));
        upsert_writes_one_row(once.0, host, second);
        assert(cluster.users().insert(first.id, (first.name, first.email)).insert(
            second.id,
            (second.name, second.email),
        ) =~= cluster.users().insert(second.id, (second.name, second.email)));
    }
}

/// What was written is read back: after a write that succeeded, a read
/// succeeds, changes nothing, and prints one line for each row of the table,
/// among them the line of the row written, once, where that row stands.
pub proof fn written_row_is_read_back(cluster: ClusterView, host: Seq<char>, row: UserRowView)
    requires
        cluster.wf(),
    ensures
        ({
            let written = outcome(cluster, host, CommandView::Upsert(row));
            let read = outcome(written.0, host, CommandView::Select);
            written.1.result is Ok ==> {
                &&& read.1.result is Ok
                &&& read.0 == written.0
                &&& written.0.holds_exactly(row)
                &&& read.1.lines.len() == written.0.rows.len()
                &&& forall|i: int|
                    0 <= i < read.1.lines.len() ==> read.1.lines[i] == row_line(written.0.rows[i])
                &&& read.1.lines[written.0.position(row.id)] == row_line(row)
            }
        }),
{
    let written = outcome(cluster, host, CommandView::Upsert(row));
    if written.1.result is Ok {
        upsert_writes_one_row(cluster, host, row);
        let place = written.0.position(row.id);
        assert(0 <= place < written.0.rows.len());
    }
}

/// A read of a table without rows prints nothing and is no error; so does
/// the read that follows the creation of the schema on a cluster without
/// rows.
pub proof fn empty_table_prints_nothing(cluster: ClusterView, host: Seq<char>)
    requires
        cluster.rows.len() == 0,
    ensures
        cluster.table && host == cluster.address ==> outcome(cluster, host, CommandView::Select).1
            == done(Seq::empty()),
        ({
            let created = outcome(cluster, host, CommandView::DefineSchema);
            created.1.result is Ok ==> outcome(created.0, host, CommandView::Select) == (
                created.0,
                done(Seq::empty()),
            )
        }),
{
    assert(row_lines(cluster.rows) =~= Seq::empty());
}

/// With no listener at the configured endpoint every command fails with a
/// connection error, prints nothing and leaves the cluster as it was.
pub proof fn unreachable_host_fails_every_command(
    cluster: ClusterView,
    host: Seq<char>,
    command: CommandView,
)
    requires
        host != cluster.address,
    ensures
        outcome(cluster, host, command) == (
            cluster,
            failed(DatabaseErrorView::Connection { message: no_listener_text() }),
        ),
{
}

/// A command that fails leaves the cluster as it was and prints nothing.
pub proof fn failure_changes_nothing(cluster: ClusterView, host: Seq<char>, command: CommandView)
    ensures
        ({
            let ended = outcome(cluster, host, command);
            ended.1.result is Err ==> ended.0 == cluster && ended.1.lines.len() == 0
        }),
{
}

} // verus!
