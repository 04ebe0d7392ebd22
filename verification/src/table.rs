//! What a store of invites holds, and what each query does to it: the model
//! against which a store is judged.

use vstd::prelude::*;
use crate::error::{Error, Operation};
use crate::invite::{Invite, InviteModel, InviteRow};
use crate::repository::{Answer, Query};
use crate::resource::{Resource, Sanitize, Validate};

verus! {

/// The contents of a store.
pub struct Table {
    /// The invites, each under its identifier.
    pub invites: Map<int, InviteRow>,
    /// The identifiers of the workshops that exist.
    pub workshops: Set<int>,
    /// The identifier that the next insert assigns.
    pub next_id: int,
    /// The time of the last write.
    pub clock: int,
}

/// No two of the rows have the same identifier.
pub open spec fn distinct_ids(models: Seq<InviteModel>) -> bool {
    forall|i: int, j: int|
        0 <= i < j < models.len() ==> (#[trigger] models[i]).id != (#[trigger] models[j]).id
}

/// The rows stand in the order of their identifiers.
pub open spec fn ascending_ids(models: Seq<InviteModel>) -> bool {
    forall|i: int, j: int|
        0 <= i < j < models.len() ==> (#[trigger] models[i]).id < (#[trigger] models[j]).id
}

/// The rows, each under its identifier.
pub open spec fn rows_of(models: Seq<InviteModel>) -> Map<int, InviteRow> {
    Map::new(
        |id: int| exists|i: int| 0 <= i < models.len() && (#[trigger] models[i]).id == id,
        |id: int| models[choose|i: int| 0 <= i < models.len() && (#[trigger] models[i]).id == id]@,
    )
}

impl Table {
    /// What every store keeps true: a row stands under its own identifier,
    /// which was assigned before `next_id`; it belongs to a workshop that
    /// exists; it was not updated before it was created, nor after the last
    /// write.
    pub open spec fn valid(self) -> bool {
        &&& 1 <= self.next_id <= i32::MAX
        &&& i64::MIN <= self.clock <= i64::MAX
        &&& forall|id: int| #[trigger]
            self.invites.contains_key(id) ==> {
                let row = self.invites[id];
                &&& row.id == id
                &&& 1 <= id < self.next_id
                &&& self.workshops.contains(row.workshop_id)
                &&& row.created_at <= row.updated_at <= self.clock
            }
    }

    /// Why the store will not insert a row for `patch`; `None` where it will.
    pub open spec fn insert_refusal(self, patch: Invite) -> Option<Seq<char>> {
        if patch.workshop_id is None {
            Some("workshop_id is required"@)
        } else if patch.email is None {
            Some("email is required"@)
        } else if patch.email->0@.len() == 0 {
            Some("email is empty"@)
        } else if !self.workshops.contains(patch.workshop_id->0 as int) {
            Some("no such workshop"@)
        } else if self.next_id >= i32::MAX {
            Some("no identifier is left"@)
        } else if self.clock >= i64::MAX {
            Some("no time is left"@)
        } else {
            None
        }
    }

    /// The store after it has inserted a row for `patch`: the row stands under
    /// the identifier that was next, and no other row has changed.
    pub open spec fn inserted(self, patch: Invite) -> Table {
        Table {
            invites: self.invites.insert(
                self.next_id,
                InviteRow::inserted(patch, self.next_id, self.clock + 1),
            ),
            workshops: self.workshops,
            next_id: self.next_id + 1,
            clock: self.clock + 1,
        }
    }

    /// Why the store will not apply `patch` to any row; `None` where it will.
    pub open spec fn update_refusal(self, patch: Invite) -> Option<Seq<char>> {
        if patch.email is Some && patch.email->0@.len() == 0 {
            Some("email is empty"@)
        } else if patch.workshop_id is Some && !self.workshops.contains(patch.workshop_id->0 as int) {
            Some("no such workshop"@)
        } else if self.clock >= i64::MAX {
            Some("no time is left"@)
        } else {
            None
        }
    }

    /// The store after it has applied `patch` to the row under `id`: that row
    /// holds the fields of the patch and the time of the write, and no other
    /// row has changed. Where no row stands under `id`, nothing has changed.
    pub open spec fn updated(self, id: int, patch: Invite) -> Table {
        if self.invites.contains_key(id) {
            Table {
                invites: self.invites.insert(id, self.invites[id].patched(patch, self.clock + 1)),
                workshops: self.workshops,
                next_id: self.next_id,
                clock: self.clock + 1,
            }
        } else {
            self
        }
    }

    /// The store after it has removed the row under `id`.
    pub open spec fn deleted(self, id: int) -> Table {
        Table {
            invites: self.invites.remove(id),
            workshops: self.workshops,
            next_id: self.next_id,
            clock: self.clock,
        }
    }

    /// Whether a store that held `self` may give `answer` to `query` and hold
    /// `after` from then on.
    pub open spec fn answers(
        self,
        query: Query<Invite>,
        after: Table,
        answer: Answer<InviteModel>,
    ) -> bool {
        match query {
            Query::Insert(patch) => match self.insert_refusal(patch) {
                Some(cause) => {
                    &&& after == self
                    &&& answer matches Answer::Failed(words)
                    &&& words@ == cause
                },
                None => {
                    &&& after == self.inserted(patch)
                    &&& answer == Answer::<InviteModel>::Inserted(self.next_id as i32)
                },
            },
            Query::SelectAll => {
                &&& after == self
                &&& answer matches Answer::Rows(rows)
                &&& distinct_ids(rows@)
                &&& rows_of(rows@) == self.invites
            },
            Query::Select(id) => {
                &&& after == self
                &&& match answer {
                    Answer::Row(Some(row)) => {
                        &&& self.invites.contains_key(id as int)
                        &&& row@ == self.invites[id as int]
                    },
                    Answer::Row(None) => !self.invites.contains_key(id as int),
                    _ => false,
                }
            },
            Query::Update(id, patch) => match self.update_refusal(patch) {
                Some(cause) => {
                    &&& after == self
                    &&& answer matches Answer::Failed(words)
                    &&& words@ == cause
                },
                None => {
                    &&& after == self.updated(id as int, patch)
                    &&& answer == Answer::<InviteModel>::Written
                },
            },
            Query::Delete(id) => {
                &&& after == self.deleted(id as int)
                &&& answer == Answer::<InviteModel>::Written
            },
        }
    }
}

impl Table {
    /// Whether a row stands under the identifier `id`.
    pub open spec fn holds(self, id: usize) -> bool {
        id <= i32::MAX && self.invites.contains_key(id as int)
    }

    /// What `create` comes to on a store that holds `self`: the patch is
    /// validated, then sanitized, then inserted; the identifier handed back
    /// is the one under which the insert put the row. Whatever fails, the
    /// store is left as it was.
    pub open spec fn creates(self, patch: Invite, after: Table, created: Result<i32, Error>) -> bool {
        if let Some(what) = patch.missing() {
            after == self && created == Err::<i32, Error>(Error::Validation(what))
        } else if let Some(what) = patch.malformed() {
            after == self && created == Err::<i32, Error>(Error::Sanitization(what))
        } else if let Some(cause) = self.insert_refusal(patch) {
            &&& after == self
            &&& created matches Err(error)
            &&& error.is_storage(Operation::Create, Invite::entity_name(), cause)
        } else {
            after == self.inserted(patch) && created == Ok::<i32, Error>(self.next_id as i32)
        }
    }

    /// What `read_all` comes to on a store that holds `self`: every row, once.
    pub open spec fn reads_all(self, read: Result<Vec<InviteModel>, Error>) -> bool {
        &&& read matches Ok(rows)
        &&& distinct_ids(rows@)
        &&& rows_of(rows@) == self.invites
    }

    /// What `read_one` comes to on a store that holds `self`.
    pub open spec fn reads_one(self, id: usize, read: Result<InviteModel, Error>) -> bool {
        if self.holds(id) {
            read matches Ok(row) && row@ == self.invites[id as int]
        } else {
            read == Err::<InviteModel, Error>(Error::NotFound)
        }
    }

    /// What `update` comes to on a store that holds `self`: the patch is
    /// sanitized, the row is looked up, and only then is the patch applied.
    /// Whatever fails, the store is left as it was.
    pub open spec fn updates(
        self,
        id: usize,
        patch: Invite,
        after: Table,
        updated: Result<(), Error>,
    ) -> bool {
        if let Some(what) = patch.malformed() {
            after == self && updated == Err::<(), Error>(Error::Sanitization(what))
        } else if !self.holds(id) {
            after == self && updated == Err::<(), Error>(Error::NotFound)
        } else if let Some(cause) = self.update_refusal(patch) {
            &&& after == self
            &&& updated matches Err(error)
            &&& error.is_storage(Operation::Update, Invite::entity_name(), cause)
        } else {
            after == self.updated(id as int, patch) && updated == Ok::<(), Error>(())
        }
    }

    /// What `delete` comes to on a store that holds `self`: the row is looked
    /// up, and removed if it is there.
    pub open spec fn deletes(self, id: usize, after: Table, deleted: Result<(), Error>) -> bool {
        if !self.holds(id) {
            after == self && deleted == Err::<(), Error>(Error::NotFound)
        } else {
            after == self.deleted(id as int) && deleted == Ok::<(), Error>(())
        }
    }
}

/// Every row stands in `rows_of` under its own identifier.
pub proof fn lemma_rows_of_index(models: Seq<InviteModel>, k: int)
    requires
        distinct_ids(models),
        0 <= k < models.len(),
    ensures
        rows_of(models).contains_key(models[k].id as int),
        rows_of(models)[models[k].id as int] == models[k]@,
{
    let id = models[k].id as int;
    let found = choose|i: int| 0 <= i < models.len() && (#[trigger] models[i]).id == id;
    assert(found == k);
}

/// An identifier that no row has stands for nothing in `rows_of`.
pub proof fn lemma_rows_of_absent(models: Seq<InviteModel>, id: int)
    requires
        forall|i: int| 0 <= i < models.len() ==> (#[trigger] models[i]).id != id,
    ensures
        !rows_of(models).contains_key(id),
{
}

/// A row appended under a fresh identifier is one more entry of `rows_of`.
pub proof fn lemma_rows_of_push(models: Seq<InviteModel>, row: InviteModel)
    requires
        distinct_ids(models),
        forall|i: int| 0 <= i < models.len() ==> (#[trigger] models[i]).id != row.id,
    ensures
        distinct_ids(models.push(row)),
        rows_of(models.push(row)) == rows_of(models).insert(row.id as int, row@),
{
    let after = models.push(row);
    assert(distinct_ids(after));
    assert forall|id: int|
        #![trigger rows_of(after).contains_key(id)]
        #![trigger rows_of(models).insert(row.id as int, row@).contains_key(id)]
        {
            &&& rows_of(after).contains_key(id) == rows_of(models).insert(
                row.id as int,
                row@,
            ).contains_key(id)
            &&& rows_of(after).contains_key(id) ==> rows_of(after)[id] == rows_of(models).insert(
                row.id as int,
                row@,
            )[id]
        } by {
        if id == row.id {
            assert(after[models.len() as int].id == id);
            lemma_rows_of_index(after, models.len() as int);
        } else if rows_of(after).contains_key(id) {
            let k = choose|i: int| 0 <= i < after.len() && (#[trigger] after[i]).id == id;
            assert(models[k].id == id);
            lemma_rows_of_index(after, k);
            lemma_rows_of_index(models, k);
        } else if rows_of(models).contains_key(id) {
            let k = choose|i: int| 0 <= i < models.len() && (#[trigger] models[i]).id == id;
            assert(after[k].id == id);
        }
    }
    assert(rows_of(after) =~= rows_of(models).insert(row.id as int, row@));
}

/// A row put in the place of one with the same identifier replaces its entry
/// of `rows_of`.
pub proof fn lemma_rows_of_update(models: Seq<InviteModel>, k: int, row: InviteModel)
    requires
        distinct_ids(models),
        0 <= k < models.len(),
        row.id == models[k].id,
    ensures
        distinct_ids(models.update(k, row)),
        rows_of(models.update(k, row)) == rows_of(models).insert(row.id as int, row@),
{
    let after = models.update(k, row);
    assert forall|i: int, j: int| 0 <= i < j < after.len() implies (#[trigger] after[i]).id != (
    #[trigger] after[j]).id by {
        assert(after[i].id == models[i].id);
        assert(after[j].id == models[j].id);
    }
    assert forall|id: int|
        #![trigger rows_of(after).contains_key(id)]
        #![trigger rows_of(models).insert(row.id as int, row@).contains_key(id)]
        {
            &&& rows_of(after).contains_key(id) == rows_of(models).insert(
                row.id as int,
                row@,
            ).contains_key(id)
            &&& rows_of(after).contains_key(id) ==> rows_of(after)[id] == rows_of(models).insert(
                row.id as int,
                row@,
            )[id]
        } by {
        if id == row.id {
            assert(after[k].id == id);
            lemma_rows_of_index(after, k);
        } else if rows_of(after).contains_key(id) {
            let at = choose|i: int| 0 <= i < after.len() && (#[trigger] after[i]).id == id;
            assert(models[at].id == id);
            lemma_rows_of_index(after, at);
            lemma_rows_of_index(models, at);
        } else if rows_of(models).contains_key(id) {
            let at = choose|i: int| 0 <= i < models.len() && (#[trigger] models[i]).id == id;
            assert(after[at].id == id);
        }
    }
    assert(rows_of(after) =~= rows_of(models).insert(row.id as int, row@));
}

/// A row taken out takes its entry out of `rows_of`.
pub proof fn lemma_rows_of_remove(models: Seq<InviteModel>, k: int)
    requires
        distinct_ids(models),
        0 <= k < models.len(),
    ensures
        distinct_ids(models.remove(k)),
        rows_of(models.remove(k)) == rows_of(models).remove(models[k].id as int),
{
    let after = models.remove(k);
    let gone = models[k].id as int;
    assert forall|i: int, j: int| 0 <= i < j < after.len() implies (#[trigger] after[i]).id != (
    #[trigger] after[j]).id by {
        let from_i = if i < k { i } else { i + 1 };
        let from_j = if j < k { j } else { j + 1 };
        assert(after[i] == models[from_i]);
        assert(after[j] == models[from_j]);
    }
    assert forall|id: int|
        #![trigger rows_of(after).contains_key(id)]
        #![trigger rows_of(models).remove(gone).contains_key(id)]
        {
            &&& rows_of(after).contains_key(id) == rows_of(models).remove(gone).contains_key(id)
            &&& rows_of(after).contains_key(id) ==> rows_of(after)[id] == rows_of(models).remove(
                gone,
            )[id]
        } by {
        if rows_of(after).contains_key(id) {
            let at = choose|i: int| 0 <= i < after.len() && (#[trigger] after[i]).id == id;
            let from = if at < k { at } else { at + 1 };
            assert(after[at] == models[from]);
            assert(models[from].id == id);
            assert(id != gone) by {
                if from < k {
                    assert(models[from].id != models[k].id);
                } else {
                    assert(models[k].id != models[from].id);
                }
            }
            lemma_rows_of_index(after, at);
            lemma_rows_of_index(models, from);
        } else if rows_of(models).remove(gone).contains_key(id) {
            let from = choose|i: int| 0 <= i < models.len() && (#[trigger] models[i]).id == id;
            assert(from != k);
            let at = if from < k { from } else { from - 1 };
            assert(after[at] == models[from]);
            assert(after[at].id == id);
        }
    }
    assert(rows_of(after) =~= rows_of(models).remove(gone));
}

} // verus!
