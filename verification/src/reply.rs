//! The rows of a reply, as the driver hands them out.
//!
//! A reply to the read is gone through with the driver's own iterator, which
//! decodes one row at each call. Here each of its outcomes becomes the event
//! that a scanning workflow is waiting for.

use vstd::prelude::*;
use scylla::deserialize::result::TypedRowIterator;
use crate::user::UserRow;
use crate::user::UserRowView;
use crate::workflow::Event;
use crate::workflow::EventView;

verus! {

/// The driver's iterator over the rows of a reply, each decoded as a value of
/// type `R`. Nothing of its inside is known here.
#[verifier::external_type_specification]
#[verifier::external_body]
#[verifier::reject_recursive_types(R)]
pub struct ExTypedRowIterator<'frame, 'metadata, R>(TypedRowIterator<'frame, 'metadata, R>);

/// What an iterator over rows of (integer, text, text) has yet to yield, in
/// order: for each row either its three values, or, where the row cannot be
/// decoded, the driver's account of the failure.
pub uninterp spec fn pending(rows: TypedRowIterator<'_, '_, (i32, String, String)>) -> Seq<
    Result<(i32, Seq<char>, Seq<char>), Seq<char>>,
>;

/// What one call of the iterator came to, in contracts.
pub open spec fn item_view(item: Option<Result<(i32, String, String), String>>) -> Option<
    Result<(i32, Seq<char>, Seq<char>), Seq<char>>,
> {
    match item {
        None => None,
        Some(Ok(row)) => Some(Ok((row.0, row.1@, row.2@))),
        Some(Err(message)) => Some(Err(message@)),
    }
}

/// The head of what is pending, if anything is.
pub open spec fn head(outcomes: Seq<Result<(i32, Seq<char>, Seq<char>), Seq<char>>>) -> Option<
    Result<(i32, Seq<char>, Seq<char>), Seq<char>>,
> {
    if outcomes.len() == 0 {
        None
    } else {
        Some(outcomes[0])
    }
}

/// What is pending once the head has been taken.
pub open spec fn tail(outcomes: Seq<Result<(i32, Seq<char>, Seq<char>), Seq<char>>>) -> Seq<
    Result<(i32, Seq<char>, Seq<char>), Seq<char>>,
> {
    if outcomes.len() == 0 {
        outcomes
    } else {
        outcomes.drop_first()
    }
}

/// The event that tells a scanning workflow of one outcome of the iterator:
/// the row, the end of the rows, or the failure to decode.
pub open spec fn item_event(item: Option<Result<(i32, Seq<char>, Seq<char>), Seq<char>>>) -> EventView {
    match item {
        None => EventView::EndOfRows,
        Some(Ok(row)) => EventView::Row(UserRowView { id: row.0 as int, name: row.1, email: row.2 }),
        Some(Err(message)) => EventView::Failed(message),
    }
}

/// Calls `Iterator::next` of the driver's `TypedRowIterator`, and renders a
/// decoding error as text, in its `Debug` form.
///
/// Trusted: the iterator yields the head of what it had pending and keeps the
/// rest, and yields `None`, unchanged, once nothing is pending. This is how
/// `pending` is meant: the driver counts the rows of the reply down, decodes
/// one at each call and returns `None` from then on.
#[verifier::external_body]
fn next_row(rows: &mut TypedRowIterator<'_, '_, (i32, String, String)>) -> (item: Option<
    Result<(i32, String, String), String>,
>)
    ensures
        item_view(item) == head(pending(*old(rows))),
        pending(*final(rows)) == tail(pending(*old(rows))),
{
    match rows.next() {
        None => None,
        Some(Ok(row)) => Some(Ok(row)),
        Some(Err(error)) => Some(Err(format!("{error:?}"))),
    }
}

impl Event {
    /// The event for one outcome of the iterator over a reply.
    pub fn from_item(item: Option<Result<(i32, String, String), String>>) -> (event: Event)
        ensures
            event@ == item_event(item_view(item)),
    {
        match item {
            None => Event::EndOfRows,
            Some(Ok((id, name, email))) => Event::Row(UserRow { id, name, email }),
            Some(Err(message)) => Event::Failed(message),
        }
    }
}

/// Takes the next row from `rows` and tells of it as an event: the answer to
/// the step that fetches a row.
pub fn next_event(rows: &mut TypedRowIterator<'_, '_, (i32, String, String)>) -> (event: Event)
    ensures
        event@ == item_event(head(pending(*old(rows)))),
        pending(*final(rows)) == tail(pending(*old(rows))),
{
    Event::from_item(next_row(rows))
}

} // verus!
