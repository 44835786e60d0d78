//! A cluster of one node, held in memory.
//!
//! It answers the steps of a workflow as a cluster answers them, as far as
//! the client can tell: a keyspace and a table that are created once, rows
//! that are found by their `id`, statements that fail where the structure
//! they name is absent. It is the reference that the workflow is run against
//! where no cluster is at hand.

use vstd::prelude::*;
use vstd::string::StringExecFns;
use crate::statement::Statement;
use crate::statement::StatementView;
use crate::user::UserRow;
use crate::user::UserRowView;
use crate::workflow::Event;
use crate::workflow::EventView;

verus! {

/// What a connection attempt is told where nothing listens at the endpoint.
pub open spec fn no_listener_text() -> Seq<char> {
    "no node is listening at this address"@
}

/// What a statement is told that needs the keyspace before it was created.
pub open spec fn no_keyspace_text() -> Seq<char> {
    "keyspace ks does not exist"@
}

/// What a statement is told that needs the table before it was created.
pub open spec fn no_table_text() -> Seq<char> {
    "table ks.users does not exist"@
}

/// What a [`Cluster`] is in contracts: where it listens, which structure
/// exists, and the rows of the table in the order in which a scan yields
/// them. That order carries no meaning: it is merely some order.
pub struct ClusterView {
    pub address: Seq<char>,
    pub keyspace: bool,
    pub table: bool,
    pub rows: Seq<UserRowView>,
}

impl ClusterView {
    /// The invariant of a cluster: a table lives in its keyspace, rows live in
    /// the table, and no two rows share an `id`.
    pub open spec fn wf(self) -> bool {
        &&& self.table ==> self.keyspace
        &&& !self.table ==> self.rows.len() == 0
        &&& forall|i: int, j: int|
            0 <= i < j < self.rows.len() ==> self.rows[i].id != self.rows[j].id
    }

    /// Whether the table holds a row of this `id`.
    pub open spec fn holds(self, id: int) -> bool {
        exists|i: int| 0 <= i < self.rows.len() && self.rows[i].id == id
    }

    /// Where the row of this `id` stands, if the table holds one.
    pub open spec fn position(self, id: int) -> int {
        choose|i: int| 0 <= i < self.rows.len() && self.rows[i].id == id
    }

    /// Whether `row` is in the table, and is the only row of its `id` there.
    pub open spec fn holds_exactly(self, row: UserRowView) -> bool {
        &&& self.holds(row.id)
        &&& self.rows[self.position(row.id)] == row
        &&& forall|i: int|
            0 <= i < self.rows.len() && self.rows[i].id == row.id ==> i == self.position(row.id)
    }

    /// The table as a map from each `id` to the name and the email of its row.
    pub open spec fn users(self) -> Map<int, (Seq<char>, Seq<char>)> {
        Map::new(
            |id: int| self.holds(id),
            |id: int| (self.rows[self.position(id)].name, self.rows[self.position(id)].email),
        )
    }

    /// The cluster after a write of `row`: the row of the same `id` is
    /// replaced as a whole where there is one, and the row is added where
    /// there is none.
    pub open spec fn upsert(self, row: UserRowView) -> ClusterView {
        if self.holds(row.id) {
            ClusterView { rows: self.rows.update(self.position(row.id), row), ..self }
        } else {
            ClusterView { rows: self.rows.push(row), ..self }
        }
    }

    /// What comes of an attempt to connect to `host`.
    pub open spec fn connect(self, host: Seq<char>) -> EventView {
        if host == self.address {
            EventView::Connected
        } else {
            EventView::Failed(no_listener_text())
        }
    }

    /// The cluster after `statement`, and what the client is told.
    ///
    /// Creating what exists changes nothing and is no error. A table needs
    /// its keyspace; a write and a read need the table.
    pub open spec fn execute(self, statement: StatementView) -> (ClusterView, EventView) {
        match statement {
            StatementView::CreateKeyspace => (
                ClusterView { keyspace: true, ..self },
                EventView::Executed,
            ),
            StatementView::CreateTable => if self.keyspace {
                (ClusterView { table: true, ..self }, EventView::Executed)
            } else {
                (self, EventView::Failed(no_keyspace_text()))
            },
            StatementView::InsertUser(row) => if self.table {
                (self.upsert(row), EventView::Executed)
            } else {
                (self, EventView::Failed(no_table_text()))
            },
            StatementView::SelectUsers => if self.table {
                (self, EventView::Executed)
            } else {
                (self, EventView::Failed(no_table_text()))
            },
        }
    }

    /// What a scan yields at `cursor`: the row that stands there, or the end.
    pub open spec fn fetch(self, cursor: int) -> EventView {
        if 0 <= cursor < self.rows.len() {
            EventView::Row(self.rows[cursor])
        } else {
            EventView::EndOfRows
        }
    }
}

/// The position of a row is the one place where its `id` stands.
pub proof fn lemma_position(cluster: ClusterView, i: int)
    requires
        cluster.wf(),
        0 <= i < cluster.rows.len(),
    ensures
        cluster.holds(cluster.rows[i].id),
        cluster.position(cluster.rows[i].id) == i,
{
    let id = cluster.rows[i].id;
    let p = cluster.position(id);
    assert(0 <= p < cluster.rows.len() && cluster.rows[p].id == id);
    if p < i {
        assert(cluster.rows[p].id != cluster.rows[i].id);
    } else if i < p {
        assert(cluster.rows[i].id != cluster.rows[p].id);
    }
}

/// A write keeps the invariant, wherever there is a table.
pub proof fn lemma_upsert_wf(cluster: ClusterView, row: UserRowView)
    requires
        cluster.wf(),
        cluster.table,
    ensures
        cluster.upsert(row).wf(),
{
    let after = cluster.upsert(row);
    if cluster.holds(row.id) {
        let p = cluster.position(row.id);
        assert(0 <= p < cluster.rows.len() && cluster.rows[p].id == row.id);
        assert forall|i: int, j: int| 0 <= i < j < after.rows.len() implies after.rows[i].id
            != after.rows[j].id by {
            assert(cluster.rows[i].id != cluster.rows[j].id);
        }
    } else {
        assert forall|i: int, j: int| 0 <= i < j < after.rows.len() implies after.rows[i].id
            != after.rows[j].id by {
            if j < cluster.rows.len() {
                assert(cluster.rows[i].id != cluster.rows[j].id);
            } else {
                assert(cluster.rows[i].id != row.id);
            }
        }
    }
}

/// A write is an insertion into the map of users: the row's `id` is mapped to
/// its name and email, and every other `id` keeps what it had.
pub proof fn lemma_upsert_users(cluster: ClusterView, row: UserRowView)
    requires
        cluster.wf(),
        cluster.table,
    ensures
        cluster.upsert(row).users() == cluster.users().insert(row.id, (row.name, row.email)),
{
    let after = cluster.upsert(row);
    let n = cluster.rows.len() as int;
    let place = if cluster.holds(row.id) {
        cluster.position(row.id)
    } else {
        n
    };
    assert(0 <= place < after.rows.len() && after.rows[place] == row);
    lemma_upsert_wf(cluster, row);
    assert forall|id: int| after.holds(id) <==> (id == row.id || cluster.holds(id)) by {
        if after.holds(id) {
            let i = after.position(id);
            if i != place {
                assert(cluster.rows[i].id == id);
            }
        }
        if id == row.id {
            assert(after.rows[place].id == id);
        } else if cluster.holds(id) {
            let i = cluster.position(id);
            assert(after.rows[i].id == id);
        }
    }
    assert forall|id: int| after.holds(id) && id != row.id implies after.users()[id]
        == cluster.users()[id] by {
        let i = cluster.position(id);
        assert(0 <= i < n && cluster.rows[i].id == id);
        assert(after.rows[i] == cluster.rows[i]);
        lemma_position(after, i);
    }
    assert(after.users()[row.id] == (row.name, row.email)) by {
        lemma_position(after, place);
    }
    assert(after.users() =~= cluster.users().insert(row.id, (row.name, row.email)));
}

/// The in-memory cluster.
#[derive(Debug)]
pub struct Cluster {
    address: String,
    keyspace: bool,
    table: bool,
    rows: Vec<UserRow>,
}

impl View for Cluster {
    type V = ClusterView;

    closed spec fn view(&self) -> ClusterView {
        ClusterView {
            address: self.address@,
            keyspace: self.keyspace,
            table: self.table,
            rows: self.rows@.map_values(|row: UserRow| row@),
        }
    }
}

impl Cluster {
    /// Every cluster is well formed, at every moment.
    #[verifier::type_invariant]
    pub open spec fn inv(self) -> bool {
        self@.wf()
    }

    /// A cluster that listens at `address` and holds nothing yet: no
    /// keyspace, no table, no row.
    pub fn new(address: String) -> (cluster: Cluster)
        ensures
            cluster@ == (ClusterView {
                address: address@,
                keyspace: false,
                table: false,
                rows: Seq::empty(),
            }),
            cluster@.wf(),
    {
        let cluster = Cluster { address, keyspace: false, table: false, rows: Vec::new() };
        assert(cluster@.rows =~= Seq::empty());
        cluster
    }

    /// Whether the keyspace exists.
    pub fn has_keyspace(&self) -> (yes: bool)
        ensures
            yes == self@.keyspace,
    {
        self.keyspace
    }

    /// Whether the table exists.
    pub fn has_table(&self) -> (yes: bool)
        ensures
            yes == self@.table,
    {
        self.table
    }

    /// The number of rows in the table.
    pub fn len(&self) -> (n: usize)
        ensures
            n == self@.rows.len(),
    {
        self.rows.len()
    }

    /// Where the row of this `id` stands, if the table holds one.
    pub fn find(&self, id: i32) -> (place: Option<usize>)
        ensures
            match place {
                Some(p) => self@.holds(id as int) && p == self@.position(id as int) && p
                    < self@.rows.len(),
                None => !self@.holds(id as int),
            },
    {
        proof {
            use_type_invariant(self);
        }
        let mut i: usize = 0;
        while i < self.rows.len()
            invariant
                i <= self.rows.len(),
                self@.wf(),
                forall|k: int| 0 <= k < i ==> self@.rows[k].id != id,
            decreases self.rows.len() - i,
        {
            if self.rows[i].id == id {
                proof {
                    lemma_position(self@, i as int);
                }
                return Some(i);
            }
            i += 1;
        }
        None
    }

    /// The row of this `id`, if the table holds one.
    pub fn get(&self, id: i32) -> (found: Option<&UserRow>)
        ensures
            match found {
                Some(row) => self@.users().contains_key(id as int) && row@.id == id
                    && self@.users()[id as int] == (row@.name, row@.email),
                None => !self@.users().contains_key(id as int),
            },
    {
        match self.find(id) {
            Some(p) => Some(&self.rows[p]),
            None => None,
        }
    }

    /// Answers an attempt to connect to `host`: the session opens where
    /// `host` is the address of this cluster, and nowhere else.
    pub fn connect(&self, host: &String) -> (event: Event)
        ensures
            event@ == self@.connect(host@),
    {
        if self.address == *host {
            Event::Connected
        } else {
            Event::Failed(String::from_str("no node is listening at this address"))
        }
    }

    /// Executes `statement` and says what came of it.
    pub fn execute(&mut self, statement: Statement) -> (event: Event)
        ensures
            (final(self)@, event@) == old(self)@.execute(statement@),
            final(self)@.wf(),
    {
        proof {
            use_type_invariant(&*self);
        }
        match statement {
            Statement::CreateKeyspace => {
                self.keyspace = true;
                Event::Executed
            },
            Statement::CreateTable => {
                if self.keyspace {
                    self.table = true;
                    Event::Executed
                } else {
                    Event::Failed(String::from_str("keyspace ks does not exist"))
                }
            },
            Statement::InsertUser(row) => {
                if self.table {
                    proof {
                        lemma_upsert_wf(self@, row@);
                    }
                    let place = self.find(row.id);
                    let ghost written = row@;
                    let mut rows: Vec<UserRow> = Vec::new();
                    std::mem::swap(&mut rows, &mut self.rows);
                    match place {
                        Some(p) => {
                            rows.set(p, row);
                        },
                        None => {
                            rows.push(row);
                        },
                    }
                    assert(rows@.map_values(|r: UserRow| r@) =~= old(self)@.upsert(written).rows);
                    self.rows = rows;
                    Event::Executed
                } else {
                    Event::Failed(String::from_str("table ks.users does not exist"))
                }
            },
            Statement::SelectUsers => {
                if self.table {
                    Event::Executed
                } else {
                    Event::Failed(String::from_str("table ks.users does not exist"))
                }
            },
        }
    }

    /// Yields the row at `cursor` of a scan, or the end of the rows.
    pub fn fetch(&self, cursor: usize) -> (event: Event)
        ensures
            event@ == self@.fetch(cursor as int),
    {
        if cursor < self.rows.len() {
            Event::Row(self.rows[cursor].clone())
        } else {
            Event::EndOfRows
        }
    }
}

} // verus!
