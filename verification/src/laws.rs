//! What holds of the repository, whatever the patch, the identifier and the
//! store.

use vstd::prelude::*;
use crate::error::Error;
use crate::invite::{status_of, Invite, InviteModel, InviteRow, Status};
use crate::repository::{
    creating, deleting, following, reading, updating, Answer, Outcome, Query, Step, Waiting,
};
use crate::resource::{Resource, Sanitize, Validate};
use crate::table::Table;

verus! {

/// A patch that fails a check never reaches a store: `create` ends at its
/// first step, with the validation error if the patch is incomplete (also
/// where it is malformed besides), else with the sanitization error; and
/// `update` ends at its first step with the sanitization error.
pub proof fn refused_patch_reaches_no_store<P: Resource>(patch: P, id: usize)
    ensures
        patch.missing() matches Some(what) ==> creating::<P, P::Model>(patch) == Step::<
            P,
            P::Model,
        >::Finished(Err(Error::Validation(what))),
        patch.missing() is None ==> (patch.malformed() matches Some(what) ==> creating::<
            P,
            P::Model,
        >(patch) == Step::<P, P::Model>::Finished(Err(Error::Sanitization(what)))),
        patch.malformed() matches Some(what) ==> updating::<P, P::Model>(patch, id) == Step::<
            P,
            P::Model,
        >::Finished(Err(Error::Sanitization(what))),
{
}

/// `create` asks the store for one thing only, the insert, and hands back the
/// identifier that the insert itself reports: no second query stands between
/// the two, so no other row can be taken for the new one.
pub proof fn create_reports_the_identifier_of_its_insert<P: Resource>(patch: P, id: i32)
    requires
        patch.missing() is None,
        patch.malformed() is None,
    ensures
        creating::<P, P::Model>(patch) == Step::<P, P::Model>::Ask(
            Query::Insert(patch),
            Waiting::Insert,
        ),
        following::<P>(Waiting::Insert, Answer::Inserted(id)) == Some(
            Step::<P, P::Model>::Finished(Ok(Outcome::Created(id))),
        ),
{
}

/// Every operation ends: each answer leaves it fewer queries to ask, and none
/// asks more than two. The reads and `create` ask one; `update` and `delete`
/// ask a lookup and a write.
pub proof fn every_operation_ends<P: Resource>(waiting: Waiting<P>, answer: Answer<P::Model>)
    ensures
        waiting.queries_left() <= 1,
        following(waiting, answer) matches Some(Step::Ask(_, next)) ==> next.queries_left()
            < waiting.queries_left(),
{
}

/// An identifier beyond `i32` is the identifier of no row: `read_one`,
/// `delete` and, for a well-formed patch, `update` end with `NotFound` at
/// their first step, and the store is asked for nothing.
pub proof fn identifier_beyond_the_rows_is_not_found<P: Resource>(patch: P, id: usize)
    requires
        id > i32::MAX,
        patch.malformed() is None,
    ensures
        reading::<P, P::Model>(id) == Step::<P, P::Model>::Finished(Err(Error::NotFound)),
        updating::<P, P::Model>(patch, id) == Step::<P, P::Model>::Finished(Err(Error::NotFound)),
        deleting::<P, P::Model>(id) == Step::<P, P::Model>::Finished(Err(Error::NotFound)),
{
}

/// `update` and `delete` ask the store to write only after the store has
/// shown them the row: where the lookup finds none, they end with
/// `NotFound` and no write is asked for.
pub proof fn no_write_without_a_row<P: Resource>(patch: P, id: i32, row: P::Model)
    ensures
        following::<P>(Waiting::RowToUpdate(id, patch), Answer::Row(None)) == Some(
            Step::<P, P::Model>::Finished(Err(Error::NotFound)),
        ),
        following::<P>(Waiting::RowToDelete(id), Answer::Row(None)) == Some(
            Step::<P, P::Model>::Finished(Err(Error::NotFound)),
        ),
        following::<P>(Waiting::RowToUpdate(id, patch), Answer::Row(Some(row))) == Some(
            Step::<P, P::Model>::Ask(Query::Update(id, patch), Waiting::Update),
        ),
        following::<P>(Waiting::RowToDelete(id), Answer::Row(Some(row))) == Some(
            Step::<P, P::Model>::Ask(Query::Delete(id), Waiting::Delete),
        ),
{
}

/// A patch without an email is not created: `create` ends with the
/// validation error, and the store holds what it held.
pub proof fn create_without_email_writes_nothing(
    before: Table,
    patch: Invite,
    after: Table,
    created: Result<i32, Error>,
)
    requires
        patch.email is None,
        before.creates(patch, after, created),
    ensures
        created == Err::<i32, Error>(Error::Validation("missing email")),
        after == before,
{
}

/// A patch with an empty email is not created: `create` ends with the
/// sanitization error, and the store holds what it held.
pub proof fn create_with_empty_email_writes_nothing(
    before: Table,
    patch: Invite,
    after: Table,
    created: Result<i32, Error>,
)
    requires
        patch.email matches Some(email) && email@.len() == 0,
        before.creates(patch, after, created),
    ensures
        created == Err::<i32, Error>(Error::Sanitization("invalid email format")),
        after == before,
{
}

/// An invite asked for with an email and a workshop that exists is created,
/// as long as the store has an identifier and a time left to give; read back
/// under the identifier that `create` handed out, it is pending, not
/// attending, and holds the email and the workshop of the patch.
pub proof fn created_invite_reads_back_pending(
    before: Table,
    patch: Invite,
    after: Table,
    created: Result<i32, Error>,
    read: Result<InviteModel, Error>,
)
    requires
        before.valid(),
        patch.workshop_id matches Some(workshop_id) && before.workshops.contains(workshop_id as int),
        patch.email matches Some(email) && email@.len() > 0,
        patch.attending is None,
        patch.pending is None,
        before.next_id < i32::MAX,
        before.clock < i64::MAX,
        before.creates(patch, after, created),
        created matches Ok(id) ==> after.reads_one(id as usize, read),
    ensures
        created == Ok::<i32, Error>(before.next_id as i32),
        !before.invites.contains_key(before.next_id),
        read matches Ok(row) && row@ == (InviteRow {
            id: before.next_id,
            workshop_id: patch.workshop_id->0 as int,
            email: patch.email->0@,
            attending: false,
            pending: true,
            created_at: before.clock + 1,
            updated_at: before.clock + 1,
        }),
        read matches Ok(row) && status_of(row.pending, row.attending) == Some(Status::Pending),
{
}

/// An update of a row that exists, by a patch that the store accepts, changes
/// the fields that the patch holds and no others; the time of the update
/// moves forward; every other row, and the identifier for the next one, stay
/// as they were.
pub proof fn update_changes_only_the_fields_of_the_patch(
    before: Table,
    id: usize,
    patch: Invite,
    after: Table,
    updated: Result<(), Error>,
)
    requires
        before.valid(),
        before.holds(id),
        patch.malformed() is None,
        before.update_refusal(patch) is None,
        before.updates(id, patch, after, updated),
    ensures
        updated is Ok,
        after.invites.dom() == before.invites.dom(),
        after.next_id == before.next_id,
        forall|other: int|
            other != id && before.invites.contains_key(other) ==> #[trigger] after.invites[other]
                == before.invites[other],
        ({
            let old_row = before.invites[id as int];
            let new_row = after.invites[id as int];
            &&& new_row.id == old_row.id
            &&& new_row.created_at == old_row.created_at
            &&& new_row.updated_at > old_row.updated_at
            &&& new_row.workshop_id == if let Some(workshop_id) = patch.workshop_id {
                workshop_id as int
            } else {
                old_row.workshop_id
            }
            &&& new_row.email == if let Some(email) = patch.email {
                email@
            } else {
                old_row.email
            }
            &&& new_row.attending == if let Some(attending) = patch.attending {
                attending
            } else {
                old_row.attending
            }
            &&& new_row.pending == if let Some(pending) = patch.pending {
                pending
            } else {
                old_row.pending
            }
        }),
{
    assert(after.invites.dom() =~= before.invites.dom());
}

/// An update under an identifier that no row has ends with `NotFound`, if the
/// patch is well formed, and leaves the store as it was.
pub proof fn update_of_a_missing_row_changes_nothing(
    before: Table,
    id: usize,
    patch: Invite,
    after: Table,
    updated: Result<(), Error>,
)
    requires
        !before.holds(id),
        patch.malformed() is None,
        before.updates(id, patch, after, updated),
    ensures
        updated == Err::<(), Error>(Error::NotFound),
        after == before,
{
}

/// A removal under an identifier that no row has ends with `NotFound` and
/// leaves the store as it was.
pub proof fn delete_of_a_missing_row_changes_nothing(
    before: Table,
    id: usize,
    after: Table,
    deleted: Result<(), Error>,
)
    requires
        !before.holds(id),
        before.deletes(id, after, deleted),
    ensures
        deleted == Err::<(), Error>(Error::NotFound),
        after == before,
{
}

/// Two invites created from one and the same patch get two identifiers, and
/// each identifier leads to the row that its own `create` inserted. A store
/// does an insert as a whole, so two calls at the same time are, to the
/// store, one after the other, in either order.
pub proof fn two_creates_get_two_identifiers(
    before: Table,
    patch: Invite,
    between: Table,
    after: Table,
    first: Result<i32, Error>,
    second: Result<i32, Error>,
)
    requires
        before.valid(),
        before.creates(patch, between, first),
        between.creates(patch, after, second),
        first is Ok,
        second is Ok,
    ensures
        first->Ok_0 != second->Ok_0,
        !before.invites.contains_key(first->Ok_0 as int),
        !between.invites.contains_key(second->Ok_0 as int),
        after.invites.contains_key(first->Ok_0 as int),
        after.invites.contains_key(second->Ok_0 as int),
        after.invites[first->Ok_0 as int] == InviteRow::inserted(
            patch,
            first->Ok_0 as int,
            before.clock + 1,
        ),
        after.invites[second->Ok_0 as int] == InviteRow::inserted(
            patch,
            second->Ok_0 as int,
            before.clock + 2,
        ),
{
}

/// A row that was removed cannot be read: `read_one` ends with `NotFound`.
pub proof fn deleted_row_is_gone(
    before: Table,
    id: usize,
    after: Table,
    deleted: Result<(), Error>,
    read: Result<InviteModel, Error>,
)
    requires
        before.deletes(id, after, deleted),
        deleted is Ok,
        after.reads_one(id, read),
    ensures
        read == Err::<InviteModel, Error>(Error::NotFound),
{
}

/// No operation makes a valid store invalid: every row keeps its own
/// identifier and a workshop that exists. No identifier is assigned twice:
/// the identifier for the next row never falls, and every row that is there
/// has one below it.
pub proof fn operations_keep_the_store_valid(
    before: Table,
    id: usize,
    patch: Invite,
    after: Table,
    created: Result<i32, Error>,
    written: Result<(), Error>,
)
    requires
        before.valid(),
        before.creates(patch, after, created) || before.updates(id, patch, after, written)
            || before.deletes(id, after, written),
    ensures
        after.valid(),
        after.next_id >= before.next_id,
        after.clock >= before.clock,
        after.workshops == before.workshops,
{
    if before.creates(patch, after, created) && after != before {
        assert forall|key: int| #[trigger] after.invites.contains_key(key) implies {
            let row = after.invites[key];
            &&& row.id == key
            &&& 1 <= key < after.next_id
            &&& after.workshops.contains(row.workshop_id)
            &&& row.created_at <= row.updated_at <= after.clock
        } by {
            if key != before.next_id {
                assert(before.invites.contains_key(key));
            }
        }
    } else if before.updates(id, patch, after, written) && after != before {
        assert forall|key: int| #[trigger] after.invites.contains_key(key) implies {
            let row = after.invites[key];
            &&& row.id == key
            &&& 1 <= key < after.next_id
            &&& after.workshops.contains(row.workshop_id)
            &&& row.created_at <= row.updated_at <= after.clock
        } by {
            assert(before.invites.contains_key(key));
        }
    } else if before.deletes(id, after, written) && after != before {
        assert forall|key: int| #[trigger] after.invites.contains_key(key) implies {
            let row = after.invites[key];
            &&& row.id == key
            &&& 1 <= key < after.next_id
            &&& after.workshops.contains(row.workshop_id)
            &&& row.created_at <= row.updated_at <= after.clock
        } by {
            assert(before.invites.contains_key(key));
        }
    }
}

/// Whatever the status of an invite, the organizer's confirmation makes it
/// attending and the organizer's refusal makes it declined; neither touches
/// the email or the workshop. No status is final.
pub proof fn confirm_and_decline_lead_anywhere(row: InviteRow, now: int)
    ensures
        ({
            let confirmed = row.patched(
                Invite { workshop_id: None, email: None, attending: Some(true), pending: Some(false) },
                now,
            );
            &&& status_of(confirmed.pending, confirmed.attending) == Some(Status::Attending)
            &&& confirmed.email == row.email
            &&& confirmed.workshop_id == row.workshop_id
        }),
        ({
            let declined = row.patched(
                Invite { workshop_id: None, email: None, attending: Some(false), pending: Some(false) },
                now,
            );
            &&& status_of(declined.pending, declined.attending) == Some(Status::Declined)
            &&& declined.email == row.email
            &&& declined.workshop_id == row.workshop_id
        }),
{
}

} // verus!
