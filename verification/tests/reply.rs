use rust_client::command::Command;
use rust_client::config::Config;
use rust_client::error::DatabaseError;
use rust_client::reply::next_event;
use rust_client::user::UserRow;
use rust_client::workflow::Event;
use rust_client::workflow::Step;
use rust_client::workflow::Workflow;
use scylla::deserialize::result::TypedRowIterator;
use scylla::deserialize::FrameSlice;
use scylla::frame::response::result::ColumnSpec;
use scylla::frame::response::result::ColumnType;
use scylla::frame::response::result::NativeType;
use scylla::frame::response::result::TableSpec;
use scylla_cql_core::deserialize::result::RawRowIterator;

fn column(name: &'static str, kind: NativeType) -> ColumnSpec<'static> {
    ColumnSpec::borrowed(name, ColumnType::Native(kind), TableSpec::borrowed("ks", "users"))
}

fn users_columns() -> Vec<ColumnSpec<'static>> {
    vec![
        column("id", NativeType::Int),
        column("name", NativeType::Text),
        column("email", NativeType::Text),
    ]
}

fn cell(frame: &mut Vec<u8>, value: &[u8]) {
    frame.extend_from_slice(&(value.len() as i32).to_be_bytes());
    frame.extend_from_slice(value);
}

fn row(frame: &mut Vec<u8>, id: i32, name: &[u8], email: &[u8]) {
    cell(frame, &id.to_be_bytes());
    cell(frame, name);
    cell(frame, email);
}

fn typed<'a>(
    count: usize,
    columns: &'a [ColumnSpec<'a>],
    frame: &'a [u8],
) -> TypedRowIterator<'a, 'a, (i32, String, String)> {
    let raw = RawRowIterator::new(count, columns, FrameSlice::new_borrowed(frame));
    TypedRowIterator::new(raw).unwrap()
}

fn decoded(id: i32, name: &str, email: &str) -> Event {
    Event::Row(UserRow::new(id, String::from(name), String::from(email)))
}

#[test]
fn item_of_the_iterator_becomes_an_event() {
    assert_eq!(Event::from_item(None), Event::EndOfRows);
    assert_eq!(
        Event::from_item(Some(Ok((5, String::from("E"), String::from("e@x.com"))))),
        decoded(5, "E", "e@x.com")
    );
    assert_eq!(
        Event::from_item(Some(Err(String::from("bad column")))),
        Event::Failed(String::from("bad column"))
    );
}

#[test]
fn rows_of_a_reply_come_out_in_order() {
    let columns = users_columns();
    let mut frame = Vec::new();
    row(&mut frame, 42, b"Alice", b"alice@example.com");
    row(&mut frame, -1, b"", b"nobody");
    row(&mut frame, 7, "Zo\u{eb}".as_bytes(), b"zoe@example.com");
    let mut rows = typed(3, &columns, &frame);
    assert_eq!(next_event(&mut rows), decoded(42, "Alice", "alice@example.com"));
    assert_eq!(rows.rows_remaining(), 2);
    assert_eq!(next_event(&mut rows), decoded(-1, "", "nobody"));
    assert_eq!(next_event(&mut rows), decoded(7, "Zo\u{eb}", "zoe@example.com"));
    assert_eq!(rows.rows_remaining(), 0);
    assert_eq!(next_event(&mut rows), Event::EndOfRows);
    assert_eq!(next_event(&mut rows), Event::EndOfRows);
}

#[test]
fn empty_reply_ends_at_once() {
    let columns = users_columns();
    let frame = Vec::new();
    let mut rows = typed(0, &columns, &frame);
    assert_eq!(next_event(&mut rows), Event::EndOfRows);
}

#[test]
fn undecodable_row_becomes_a_failure() {
    let columns = users_columns();
    let mut frame = Vec::new();
    row(&mut frame, 1, b"A", b"a@x.com");
    row(&mut frame, 2, &[0xff, 0xfe], b"b@x.com");
    row(&mut frame, 3, b"C", b"c@x.com");
    let mut rows = typed(3, &columns, &frame);
    assert_eq!(next_event(&mut rows), decoded(1, "A", "a@x.com"));
    match next_event(&mut rows) {
        Event::Failed(message) => assert!(!message.is_empty()),
        other => panic!("expected a failure, got {:?}", other),
    }
    assert_eq!(next_event(&mut rows), decoded(3, "C", "c@x.com"));
    assert_eq!(next_event(&mut rows), Event::EndOfRows);
}

#[test]
fn truncated_reply_becomes_a_failure() {
    let columns = users_columns();
    let mut frame = Vec::new();
    row(&mut frame, 1, b"A", b"a@x.com");
    cell(&mut frame, &2i32.to_be_bytes());
    let mut rows = typed(2, &columns, &frame);
    assert_eq!(next_event(&mut rows), decoded(1, "A", "a@x.com"));
    match next_event(&mut rows) {
        Event::Failed(message) => assert!(!message.is_empty()),
        other => panic!("expected a failure, got {:?}", other),
    }
    assert_eq!(next_event(&mut rows), Event::EndOfRows);
}

#[test]
fn null_key_becomes_a_failure() {
    let columns = users_columns();
    let mut frame = Vec::new();
    frame.extend_from_slice(&(-1i32).to_be_bytes());
    cell(&mut frame, b"A");
    cell(&mut frame, b"a@x.com");
    let mut rows = typed(1, &columns, &frame);
    match next_event(&mut rows) {
        Event::Failed(message) => assert!(!message.is_empty()),
        other => panic!("expected a failure, got {:?}", other),
    }
    assert_eq!(next_event(&mut rows), Event::EndOfRows);
}

#[test]
fn scan_of_a_reply_prints_until_the_first_failure() {
    let columns = users_columns();
    let mut frame = Vec::new();
    row(&mut frame, 1, b"A", b"a@x.com");
    row(&mut frame, 2, b"B", b"b@x.com");
    row(&mut frame, 3, &[0xc3], b"c@x.com");
    row(&mut frame, 4, b"D", b"d@x.com");
    let mut rows = typed(4, &columns, &frame);

    let (workflow, _) = Workflow::start(&Config::from_db_host(None), Command::Select);
    let (workflow, _) = workflow.advance(Event::Connected);
    let (mut workflow, reaction) = workflow.advance(Event::Executed);
    let mut step = reaction.next;
    let mut lines: Vec<String> = Vec::new();
    let mut fetched = 0;
    while step == Step::FetchRow {
        fetched += 1;
        let (next, reaction) = workflow.advance(next_event(&mut rows));
        if let Some(line) = reaction.line {
            lines.push(line);
        }
        workflow = next;
        step = reaction.next;
    }
    assert_eq!(fetched, 3);
    assert_eq!(rows.rows_remaining(), 1);
    assert_eq!(
        lines,
        vec![String::from("id=1  name=A  email=a@x.com"), String::from("id=2  name=B  email=b@x.com")]
    );
    assert!(workflow.is_finished());
    match step {
        Step::Finish(Err(DatabaseError::Decode { message })) => assert!(!message.is_empty()),
        other => panic!("expected a decode error, got {:?}", other),
    }
}

#[test]
fn scan_of_a_whole_reply_ends_well() {
    let columns = users_columns();
    let mut frame = Vec::new();
    row(&mut frame, 10, b"J", b"j@x.com");
    row(&mut frame, 11, b"K", b"k@x.com");
    let mut rows = typed(2, &columns, &frame);

    let (workflow, _) = Workflow::start(&Config::from_db_host(None), Command::Select);
    let (workflow, _) = workflow.advance(Event::Connected);
    let (mut workflow, reaction) = workflow.advance(Event::Executed);
    let mut step = reaction.next;
    let mut lines: Vec<String> = Vec::new();
    while step == Step::FetchRow {
        let (next, reaction) = workflow.advance(next_event(&mut rows));
        if let Some(line) = reaction.line {
            lines.push(line);
        }
        workflow = next;
        step = reaction.next;
    }
    assert_eq!(
        lines,
        vec![String::from("id=10  name=J  email=j@x.com"), String::from("id=11  name=K  email=k@x.com")]
    );
    assert_eq!(step, Step::Finish(Ok(())));
}
