use rust_client::statement::Statement;
use rust_client::user::UserRow;

fn alice() -> UserRow {
    UserRow::new(42, String::from("Alice"), String::from("alice@example.com"))
}

#[test]
fn keyspace_statement_text() {
    assert_eq!(
        Statement::CreateKeyspace.text(),
        "CREATE KEYSPACE IF NOT EXISTS ks WITH replication = {'class': 'SimpleStrategy', 'replication_factor': 1}"
    );
}

#[test]
fn table_statement_text() {
    assert_eq!(
        Statement::CreateTable.text(),
        "CREATE TABLE IF NOT EXISTS ks.users (id int PRIMARY KEY, name text, email text)"
    );
}

#[test]
fn insert_statement_text() {
    assert_eq!(
        Statement::InsertUser(alice()).text(),
        "INSERT INTO ks.users (id, name, email) VALUES (?, ?, ?)"
    );
}

#[test]
fn select_statement_text() {
    assert_eq!(Statement::SelectUsers.text(), "SELECT id, name, email FROM ks.users");
}

#[test]
fn only_the_insert_binds_values() {
    assert_eq!(Statement::CreateKeyspace.bound(), None);
    assert_eq!(Statement::CreateTable.bound(), None);
    assert_eq!(Statement::SelectUsers.bound(), None);
    let insert = Statement::InsertUser(alice());
    assert_eq!(insert.bound(), Some(&alice()));
}

#[test]
fn only_the_select_reads() {
    assert!(!Statement::CreateKeyspace.reads());
    assert!(!Statement::CreateTable.reads());
    assert!(!Statement::InsertUser(alice()).reads());
    assert!(Statement::SelectUsers.reads());
}

#[test]
fn a_cloned_statement_is_the_same_statement() {
    let insert = Statement::InsertUser(alice());
    assert_eq!(insert.clone(), insert);
    assert_eq!(Statement::SelectUsers.clone(), Statement::SelectUsers);
    assert_eq!(alice().clone(), alice());
}

#[test]
fn a_row_takes_its_values_as_they_are() {
    let row = UserRow::new(-3, String::new(), String::from("not an email"));
    assert_eq!(row.id, -3);
    assert_eq!(row.name, "");
    assert_eq!(row.email, "not an email");
}
