//! The lines that the client reports: one for each decoded row of a read, and
//! one confirmation for each command that changes something.

use vstd::prelude::*;
use vstd::string::StringExecFns;
use crate::decimal::append_decimal;
use crate::decimal::decimal;
use crate::user::UserRow;
use crate::user::UserRowView;

verus! {

/// The line for one row: `id=`, the key in decimal, then `name=` and
/// `email=` with the texts as they are, each field parted from the one
/// before by two spaces.
pub open spec fn row_line(row: UserRowView) -> Seq<char> {
    "id="@ + decimal(row.id) + "  name="@ + row.name + "  email="@ + row.email
}

/// The confirmation of a write: `Upserted: ` and the line of the row written.
pub open spec fn upserted_line(row: UserRowView) -> Seq<char> {
    "Upserted: "@ + row_line(row)
}

/// The confirmation that keyspace and table are in place, naming both.
pub open spec fn schema_ready_line() -> Seq<char> {
    "Schema ready: keyspace 'ks', table 'ks.users'"@
}

/// Appends the line of `row` to `out`.
fn append_row(out: &mut String, row: &UserRow)
    ensures
        final(out)@ == old(out)@ + row_line(row@),
{
    let ghost before = out@;
    out.append("id=");
    append_decimal(out, row.id);
    out.append("  name=");
    out.append(row.name.as_str());
    out.append("  email=");
    out.append(row.email.as_str());
    assert(out@ =~= before + row_line(row@));
}

/// The line that a read prints for `row`.
pub fn render_row(row: &UserRow) -> (line: String)
    ensures
        line@ == row_line(row@),
{
    let mut line = String::new();
    append_row(&mut line, row);
    assert(line@ =~= row_line(row@));
    line
}

/// The line that confirms the write of `row`, echoing its three values.
pub fn render_upserted(row: &UserRow) -> (line: String)
    ensures
        line@ == upserted_line(row@),
{
    let mut line = String::from_str("Upserted: ");
    append_row(&mut line, row);
    line
}

/// The line that confirms that the schema is in place.
pub fn render_schema_ready() -> (line: String)
    ensures
        line@ == schema_ready_line(),
{
    String::from_str("Schema ready: keyspace 'ks', table 'ks.users'")
}

} // verus!
