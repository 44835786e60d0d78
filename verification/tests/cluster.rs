use rust_client::cluster::Cluster;
use rust_client::statement::Statement;
use rust_client::user::UserRow;
use rust_client::workflow::Event;

fn node() -> Cluster {
    Cluster::new(String::from("localhost:9042"))
}

fn with_table() -> Cluster {
    let mut cluster = node();
    assert_eq!(cluster.execute(Statement::CreateKeyspace), Event::Executed);
    assert_eq!(cluster.execute(Statement::CreateTable), Event::Executed);
    cluster
}

fn user(id: i32, name: &str, email: &str) -> UserRow {
    UserRow::new(id, String::from(name), String::from(email))
}

#[test]
fn new_cluster_holds_nothing() {
    let cluster = node();
    assert!(!cluster.has_keyspace());
    assert!(!cluster.has_table());
    assert_eq!(cluster.len(), 0);
    assert_eq!(cluster.get(1), None);
    assert_eq!(cluster.find(1), None);
    assert_eq!(cluster.fetch(0), Event::EndOfRows);
}

#[test]
fn cluster_accepts_connections_at_its_address_only() {
    let cluster = node();
    assert_eq!(cluster.connect(&String::from("localhost:9042")), Event::Connected);
    assert_eq!(
        cluster.connect(&String::from("localhost:9043")),
        Event::Failed(String::from("no node is listening at this address"))
    );
    assert_eq!(
        cluster.connect(&String::new()),
        Event::Failed(String::from("no node is listening at this address"))
    );
}

#[test]
fn table_needs_its_keyspace() {
    let mut cluster = node();
    assert_eq!(
        cluster.execute(Statement::CreateTable),
        Event::Failed(String::from("keyspace ks does not exist"))
    );
    assert!(!cluster.has_table());
    assert_eq!(cluster.execute(Statement::CreateKeyspace), Event::Executed);
    assert!(cluster.has_keyspace());
    assert!(!cluster.has_table());
    assert_eq!(cluster.execute(Statement::CreateTable), Event::Executed);
    assert!(cluster.has_table());
}

#[test]
fn creating_what_exists_changes_nothing() {
    let mut cluster = with_table();
    assert_eq!(cluster.execute(Statement::InsertUser(user(1, "A", "a@x.com"))), Event::Executed);
    assert_eq!(cluster.execute(Statement::CreateKeyspace), Event::Executed);
    assert_eq!(cluster.execute(Statement::CreateTable), Event::Executed);
    assert!(cluster.has_keyspace());
    assert!(cluster.has_table());
    assert_eq!(cluster.len(), 1);
    assert_eq!(cluster.get(1), Some(&user(1, "A", "a@x.com")));
}

#[test]
fn write_and_read_need_the_table() {
    let mut cluster = node();
    let missing = Event::Failed(String::from("table ks.users does not exist"));
    assert_eq!(cluster.execute(Statement::InsertUser(user(1, "A", "a@x.com"))), missing);
    assert_eq!(cluster.execute(Statement::SelectUsers), missing);
    assert_eq!(cluster.execute(Statement::CreateKeyspace), Event::Executed);
    assert_eq!(cluster.execute(Statement::InsertUser(user(1, "A", "a@x.com"))), missing);
    assert_eq!(cluster.execute(Statement::SelectUsers), missing);
    assert_eq!(cluster.len(), 0);
}

#[test]
fn insert_adds_a_row_for_a_new_key() {
    let mut cluster = with_table();
    assert_eq!(cluster.execute(Statement::InsertUser(user(3, "C", "c@x.com"))), Event::Executed);
    assert_eq!(cluster.execute(Statement::InsertUser(user(-1, "", ""))), Event::Executed);
    assert_eq!(cluster.len(), 2);
    assert_eq!(cluster.find(3), Some(0));
    assert_eq!(cluster.find(-1), Some(1));
    assert_eq!(cluster.find(0), None);
    assert_eq!(cluster.get(3), Some(&user(3, "C", "c@x.com")));
    assert_eq!(cluster.get(-1), Some(&user(-1, "", "")));
}

#[test]
fn insert_replaces_the_row_of_the_same_key_in_place() {
    let mut cluster = with_table();
    cluster.execute(Statement::InsertUser(user(1, "A", "a@x.com")));
    cluster.execute(Statement::InsertUser(user(2, "Z", "z@x.com")));
    cluster.execute(Statement::InsertUser(user(1, "B", "b@x.com")));
    assert_eq!(cluster.len(), 2);
    assert_eq!(cluster.find(1), Some(0));
    assert_eq!(cluster.get(1), Some(&user(1, "B", "b@x.com")));
    assert_eq!(cluster.get(2), Some(&user(2, "Z", "z@x.com")));
}

#[test]
fn read_executes_and_rows_are_fetched_in_turn() {
    let mut cluster = with_table();
    cluster.execute(Statement::InsertUser(user(1, "A", "a@x.com")));
    cluster.execute(Statement::InsertUser(user(2, "B", "b@x.com")));
    assert_eq!(cluster.execute(Statement::SelectUsers), Event::Executed);
    assert_eq!(cluster.len(), 2);
    assert_eq!(cluster.fetch(0), Event::Row(user(1, "A", "a@x.com")));
    assert_eq!(cluster.fetch(1), Event::Row(user(2, "B", "b@x.com")));
    assert_eq!(cluster.fetch(2), Event::EndOfRows);
    assert_eq!(cluster.fetch(usize::MAX), Event::EndOfRows);
}
