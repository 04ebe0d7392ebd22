//! The repository as a dialogue with a store.
//!
//! A repository operation never touches the store itself. It asks: each step
//! either names the one unit of work the store is to do next, or ends the
//! operation with its result. Whoever holds the store does the work and hands
//! the store's answer to [`resume`].

use vstd::prelude::*;
use crate::error::{Error, Operation};
use crate::resource::{Resource, Sanitize, Validate};

verus! {

/// One unit of work for the store, done as a whole or not at all.
#[derive(Debug, PartialEq, Eq)]
pub enum Query<P> {
    /// Insert a row with the fields of the patch, and report its identifier.
    Insert(P),
    /// Hand out every row.
    SelectAll,
    /// Hand out the row with this identifier, if there is one.
    Select(i32),
    /// Set the fields that the patch holds in the row with this identifier.
    Update(i32, P),
    /// Remove the row with this identifier.
    Delete(i32),
}

/// What the store did about a query.
#[derive(Debug, PartialEq, Eq)]
pub enum Answer<M> {
    /// The row was inserted under this identifier.
    Inserted(i32),
    /// Every row of the store.
    Rows(Vec<M>),
    /// The row asked for, or `None` where no row has the identifier.
    Row(Option<M>),
    /// The update or the removal was carried out.
    Written,
    /// The store failed, for this cause.
    Failed(String),
}

/// What an operation that succeeded hands back.
#[derive(Debug, PartialEq, Eq)]
pub enum Outcome<M> {
    /// `create`: the identifier of the row that was inserted.
    Created(i32),
    /// `read_all`: every row.
    All(Vec<M>),
    /// `read_one`: the row.
    One(M),
    /// `update` and `delete`: done.
    Written,
}

/// What an operation that has asked a query is waiting for.
#[derive(Debug, PartialEq, Eq)]
pub enum Waiting<P> {
    /// `create` waits for its insert.
    Insert,
    /// `read_all` waits for the rows.
    Rows,
    /// `read_one` waits for the row.
    Row,
    /// `update` waits to learn whether the row exists.
    RowToUpdate(i32, P),
    /// `delete` waits to learn whether the row exists.
    RowToDelete(i32),
    /// `update` waits for its write.
    Update,
    /// `delete` waits for its write.
    Delete,
}

/// Where an operation stands.
#[derive(Debug, PartialEq, Eq)]
pub enum Step<P, M> {
    /// The store is to do this query; its answer goes to [`resume`] together
    /// with the second field.
    Ask(Query<P>, Waiting<P>),
    /// The operation is over.
    Finished(Result<Outcome<M>, Error>),
}

impl<P> Waiting<P> {
    /// The operation that is waiting.
    pub open spec fn operation(self) -> Operation {
        match self {
            Waiting::Insert => Operation::Create,
            Waiting::Rows => Operation::ReadAll,
            Waiting::Row => Operation::ReadOne,
            Waiting::RowToUpdate(_, _) => Operation::Update,
            Waiting::RowToDelete(_) => Operation::Delete,
            Waiting::Update => Operation::Update,
            Waiting::Delete => Operation::Delete,
        }
    }

    /// How many queries the operation may still ask once this one is answered.
    pub open spec fn queries_left(self) -> nat {
        match self {
            Waiting::RowToUpdate(_, _) => 1,
            Waiting::RowToDelete(_) => 1,
            _ => 0,
        }
    }

    /// The operation that is waiting.
    pub fn current(&self) -> (operation: Operation)
        ensures
            operation == self.operation(),
    {
        match self {
            Waiting::Insert => Operation::Create,
            Waiting::Rows => Operation::ReadAll,
            Waiting::Row => Operation::ReadOne,
            Waiting::RowToUpdate(_, _) => Operation::Update,
            Waiting::RowToDelete(_) => Operation::Delete,
            Waiting::Update => Operation::Update,
            Waiting::Delete => Operation::Delete,
        }
    }
}

/// The first step of `create`: the patch must be complete, then well formed,
/// and only then is the store asked to insert it.
pub open spec fn creating<P: Validate + Sanitize, M>(patch: P) -> Step<P, M> {
    if let Some(what) = patch.missing() {
        Step::Finished(Err(Error::Validation(what)))
    } else if let Some(what) = patch.malformed() {
        Step::Finished(Err(Error::Sanitization(what)))
    } else {
        Step::Ask(Query::Insert(patch), Waiting::Insert)
    }
}

/// The identifier of a row that `id` stands for. The rows of a store are
/// numbered in `i32`: a number beyond it is the identifier of no row.
pub open spec fn row_id(id: usize) -> Option<i32> {
    if id <= i32::MAX {
        Some(id as i32)
    } else {
        None
    }
}

/// The first step of `read_one`: the store is asked for the row, unless `id`
/// can be the identifier of no row.
pub open spec fn reading<P, M>(id: usize) -> Step<P, M> {
    match row_id(id) {
        Some(id) => Step::Ask(Query::Select(id), Waiting::Row),
        None => Step::Finished(Err(Error::NotFound)),
    }
}

/// The first step of `update`: the patch must be well formed (it need not be
/// complete), and then the store is asked whether the row exists, unless `id`
/// can be the identifier of no row.
pub open spec fn updating<P: Sanitize, M>(patch: P, id: usize) -> Step<P, M> {
    if let Some(what) = patch.malformed() {
        Step::Finished(Err(Error::Sanitization(what)))
    } else {
        match row_id(id) {
            Some(id) => Step::Ask(Query::Select(id), Waiting::RowToUpdate(id, patch)),
            None => Step::Finished(Err(Error::NotFound)),
        }
    }
}

/// The first step of `delete`: the store is asked whether the row exists,
/// unless `id` can be the identifier of no row.
pub open spec fn deleting<P, M>(id: usize) -> Step<P, M> {
    match row_id(id) {
        Some(id) => Step::Ask(Query::Select(id), Waiting::RowToDelete(id)),
        None => Step::Finished(Err(Error::NotFound)),
    }
}

/// The identifier of a row that `id` stands for, if it can stand for one.
pub fn to_row_id(id: usize) -> (row: Option<i32>)
    ensures
        row == row_id(id),
{
    if id <= i32::MAX as usize {
        Some(id as i32)
    } else {
        None
    }
}

/// The step that follows when the store gives `answer` to an operation that
/// is `waiting`, for every answer but one that does not fit the query asked.
pub open spec fn following<P: Resource>(waiting: Waiting<P>, answer: Answer<P::Model>) -> Option<
    Step<P, P::Model>,
> {
    match (waiting, answer) {
        (waiting, Answer::Failed(cause)) => Some(
            Step::Finished(
                Err(
                    Error::Storage {
                        operation: waiting.operation(),
                        entity: P::entity_name(),
                        cause,
                    },
                ),
            ),
        ),
        (Waiting::Insert, Answer::Inserted(id)) => Some(Step::Finished(Ok(Outcome::Created(id)))),
        (Waiting::Rows, Answer::Rows(rows)) => Some(Step::Finished(Ok(Outcome::All(rows)))),
        (Waiting::Row, Answer::Row(Some(row))) => Some(Step::Finished(Ok(Outcome::One(row)))),
        (Waiting::Row, Answer::Row(None)) => Some(Step::Finished(Err(Error::NotFound))),
        (Waiting::RowToUpdate(id, patch), Answer::Row(Some(_))) => Some(
            Step::Ask(Query::Update(id, patch), Waiting::Update),
        ),
        (Waiting::RowToUpdate(_, _), Answer::Row(None)) => Some(Step::Finished(Err(Error::NotFound))),
        (Waiting::RowToDelete(id), Answer::Row(Some(_))) => Some(
            Step::Ask(Query::Delete(id), Waiting::Delete),
        ),
        (Waiting::RowToDelete(_), Answer::Row(None)) => Some(Step::Finished(Err(Error::NotFound))),
        (Waiting::Update, Answer::Written) => Some(Step::Finished(Ok(Outcome::Written))),
        (Waiting::Delete, Answer::Written) => Some(Step::Finished(Ok(Outcome::Written))),
        _ => None,
    }
}

/// What the store's failure is called when its answer does not fit the query.
pub open spec fn misfit() -> Seq<char> {
    "the answer does not fit the query"@
}

/// Takes the store's answer to the query last asked and says how the
/// operation goes on. An answer that does not fit the query ends the operation
/// as a failure of the store.
pub fn resume<P: Resource>(waiting: Waiting<P>, answer: Answer<P::Model>) -> (step: Step<
    P,
    P::Model,
>)
    ensures
        match following(waiting, answer) {
            Some(next) => step == next,
            None => step matches Step::Finished(Err(error)) && error.is_storage(
                waiting.operation(),
                P::entity_name(),
                misfit(),
            ),
        },
{
    let operation = waiting.current();
    match (waiting, answer) {
        (_, Answer::Failed(cause)) => Step::Finished(
            Err(Error::Storage { operation, entity: P::entity(), cause }),
        ),
        (Waiting::Insert, Answer::Inserted(id)) => Step::Finished(Ok(Outcome::Created(id))),
        (Waiting::Rows, Answer::Rows(rows)) => Step::Finished(Ok(Outcome::All(rows))),
        (Waiting::Row, Answer::Row(Some(row))) => Step::Finished(Ok(Outcome::One(row))),
        (Waiting::Row, Answer::Row(None)) => Step::Finished(Err(Error::NotFound)),
        (Waiting::RowToUpdate(id, patch), Answer::Row(Some(_))) => Step::Ask(
            Query::Update(id, patch),
            Waiting::Update,
        ),
        (Waiting::RowToUpdate(_, _), Answer::Row(None)) => Step::Finished(Err(Error::NotFound)),
        (Waiting::RowToDelete(id), Answer::Row(Some(_))) => Step::Ask(
            Query::Delete(id),
            Waiting::Delete,
        ),
        (Waiting::RowToDelete(_), Answer::Row(None)) => Step::Finished(Err(Error::NotFound)),
        (Waiting::Update, Answer::Written) => Step::Finished(Ok(Outcome::Written)),
        (Waiting::Delete, Answer::Written) => Step::Finished(Ok(Outcome::Written)),
        _ => Step::Finished(
            Err(
                Error::Storage {
                    operation,
                    entity: P::entity(),
                    cause: "the answer does not fit the query".to_owned(),
                },
            ),
        ),
    }
}

} // verus!
