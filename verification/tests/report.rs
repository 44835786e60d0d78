use rust_client::config::Config;
use rust_client::report::render_row;
use rust_client::report::render_schema_ready;
use rust_client::report::render_upserted;
use rust_client::user::UserRow;

#[test]
fn row_line_shows_the_three_fields() {
    let row = UserRow::new(42, String::from("Alice"), String::from("alice@example.com"));
    assert_eq!(render_row(&row), "id=42  name=Alice  email=alice@example.com");
}

#[test]
fn row_line_takes_empty_texts_and_negative_keys() {
    let row = UserRow::new(-5, String::new(), String::new());
    assert_eq!(render_row(&row), "id=-5  name=  email=");
}

#[test]
fn row_line_keeps_texts_beyond_ascii() {
    let row = UserRow::new(7, String::from("Zo\u{eb}"), String::from("z\u{f6}e@b\u{fc}ro.example"));
    assert_eq!(render_row(&row), "id=7  name=Zo\u{eb}  email=z\u{f6}e@b\u{fc}ro.example");
}

#[test]
fn upserted_line_echoes_the_row() {
    let row = UserRow::new(1, String::from("A"), String::from("a@x.com"));
    assert_eq!(render_upserted(&row), "Upserted: id=1  name=A  email=a@x.com");
}

#[test]
fn schema_line_names_keyspace_and_table() {
    assert_eq!(render_schema_ready(), "Schema ready: keyspace 'ks', table 'ks.users'");
}

#[test]
fn host_defaults_to_the_local_node() {
    assert_eq!(Config::from_db_host(None).host, "localhost:9042");
}

#[test]
fn host_is_taken_as_configured() {
    let config = Config::from_db_host(Some(String::from("db.internal:19042")));
    assert_eq!(config.host, "db.internal:19042");
    assert_eq!(Config::from_db_host(Some(String::new())).host, "");
}
