//! What a value must offer to be kept in a repository.

use vstd::prelude::*;
use crate::error::Error;
use crate::repository::{
    creating, deleting, reading, to_row_id, updating, Query, Step, Waiting,
};

verus! {

/// The result of a check that found `missing` absent.
pub open spec fn validated(missing: Option<&'static str>) -> Result<(), Error> {
    match missing {
        None => Ok(()),
        Some(what) => Err(Error::Validation(what)),
    }
}

/// The result of a check that found `malformed` wrong.
pub open spec fn sanitized(malformed: Option<&'static str>) -> Result<(), Error> {
    match malformed {
        None => Ok(()),
        Some(what) => Err(Error::Sanitization(what)),
    }
}

/// Structural completeness: the fields that a new row needs are present.
pub trait Validate {
    /// The first required field that is absent, in the words of the error;
    /// `None` where the value is complete.
    spec fn missing(&self) -> Option<&'static str>;

    /// Checks that the value is complete. It changes nothing.
    fn validate(&self) -> (checked: Result<(), Error>)
        ensures
            checked == validated(self.missing()),
    ;
}

/// Well-formedness: the fields that are present hold usable values.
pub trait Sanitize {
    /// The first present field that is malformed, in the words of the error;
    /// `None` where every present field is well formed.
    spec fn malformed(&self) -> Option<&'static str>;

    /// Checks that the present fields are well formed. It changes nothing.
    fn sanitize(&self) -> (checked: Result<(), Error>)
        ensures
            checked == sanitized(self.malformed()),
    ;
}

/// A patch whose rows a repository keeps: the five operations, each as the
/// first step of a dialogue with the store (see [`crate::repository`]).
pub trait Resource: Validate + Sanitize + Sized {
    /// The stored row.
    type Model;

    /// The name of the entity, as errors give it.
    spec fn entity_name() -> &'static str;

    /// The name of the entity, as errors give it.
    fn entity() -> (name: &'static str)
        ensures
            name == Self::entity_name(),
    ;

    /// Starts the creation of a row from this patch. The patch is validated,
    /// then sanitized; the store is asked for nothing unless it passes both.
    fn create(self) -> (step: Step<Self, Self::Model>)
        ensures
            step == creating::<Self, Self::Model>(self),
    {
        match self.validate() {
            Err(error) => Step::Finished(Err(error)),
            Ok(()) => match self.sanitize() {
                Err(error) => Step::Finished(Err(error)),
                Ok(()) => Step::Ask(Query::Insert(self), Waiting::Insert),
            },
        }
    }

    /// Starts the reading of every row.
    fn read_all() -> (step: Step<Self, Self::Model>)
        ensures
            step == Step::<Self, Self::Model>::Ask(Query::SelectAll, Waiting::Rows),
    {
        Step::Ask(Query::SelectAll, Waiting::Rows)
    }

    /// Starts the reading of the row with the identifier `id`.
    fn read_one(id: usize) -> (step: Step<Self, Self::Model>)
        ensures
            step == reading::<Self, Self::Model>(id),
    {
        match to_row_id(id) {
            Some(id) => Step::Ask(Query::Select(id), Waiting::Row),
            None => Step::Finished(Err(Error::NotFound)),
        }
    }

    /// Starts the update of the row with the identifier `id` by this patch.
    /// The patch is sanitized, not validated: it may leave fields out. The
    /// store is first asked whether the row exists.
    fn update(self, id: usize) -> (step: Step<Self, Self::Model>)
        ensures
            step == updating::<Self, Self::Model>(self, id),
    {
        match self.sanitize() {
            Err(error) => Step::Finished(Err(error)),
            Ok(()) => match to_row_id(id) {
                Some(id) => Step::Ask(Query::Select(id), Waiting::RowToUpdate(id, self)),
                None => Step::Finished(Err(Error::NotFound)),
            },
        }
    }

    /// Starts the removal of the row with the identifier `id`. The store is
    /// first asked whether the row exists.
    fn delete(id: usize) -> (step: Step<Self, Self::Model>)
        ensures
            step == deleting::<Self, Self::Model>(id),
    {
        match to_row_id(id) {
            Some(id) => Step::Ask(Query::Select(id), Waiting::RowToDelete(id)),
            None => Step::Finished(Err(Error::NotFound)),
        }
    }
}

} // verus!
