//! A store that keeps its rows in memory. It answers the queries of a
//! repository as the model in [`crate::table`] says a store does.

use vstd::prelude::*;
use vstd::pervasive::unreached;
use crate::error::Error;
use crate::invite::{Invite, InviteModel};
use crate::repository::{resume, Answer, Outcome, Query, Step};
use crate::resource::Resource;
use crate::table::{
    ascending_ids, distinct_ids, lemma_rows_of_absent, lemma_rows_of_index, lemma_rows_of_push,
    lemma_rows_of_remove, lemma_rows_of_update, rows_of, Table,
};

verus! {

/// The identifiers of a list, as a set.
pub open spec fn ids_of(ids: Seq<i32>) -> Set<int> {
    Set::new(|id: int| exists|i: int| 0 <= i < ids.len() && #[trigger] ids[i] == id)
}

/// A store in memory: the invites in the order of their identifiers, the
/// workshops that exist, the identifier for the next row, and a clock that
/// every write advances by one.
pub struct MemoryStore {
    invites: Vec<InviteModel>,
    workshops: Vec<i32>,
    next_id: i32,
    clock: i64,
}

impl View for MemoryStore {
    type V = Table;

    closed spec fn view(&self) -> Table {
        Table {
            invites: rows_of(self.invites@),
            workshops: ids_of(self.workshops@),
            next_id: self.next_id as int,
            clock: self.clock as int,
        }
    }
}

impl MemoryStore {
    #[verifier::type_invariant]
    spec fn well_formed(self) -> bool {
        &&& 1 <= self.next_id
        &&& forall|i: int|
            0 <= i < self.invites@.len() ==> {
                let row = #[trigger] self.invites@[i];
                &&& 1 <= row.id < self.next_id
                &&& row.created_at <= row.updated_at <= self.clock
                &&& ids_of(self.workshops@).contains(row.workshop_id as int)
            }
        &&& ascending_ids(self.invites@)
    }

    proof fn lemma_valid(self)
        requires
            self.well_formed(),
        ensures
            self@.valid(),
            distinct_ids(self.invites@),
    {
        assert forall|id: int| #[trigger] self@.invites.contains_key(id) implies {
            let row = self@.invites[id];
            &&& row.id == id
            &&& 1 <= id < self@.next_id
            &&& self@.workshops.contains(row.workshop_id)
            &&& row.created_at <= row.updated_at <= self@.clock
        } by {
            let k = choose|i: int| 0 <= i < self.invites@.len() && (#[trigger] self.invites@[i]).id == id;
            lemma_rows_of_index(self.invites@, k);
        }
    }

    /// A store with no invite and no workshop, whose clock stands at 0.
    pub fn new() -> (store: Self)
        ensures
            store@ == (Table {
                invites: Map::empty(),
                workshops: Set::empty(),
                next_id: 1,
                clock: 0,
            }),
            store@.valid(),
    {
        MemoryStore::starting_at(1, 0)
    }

    /// A store with no invite and no workshop, that gives `first_id` to its
    /// first row (1, if `first_id` is below 1) and whose clock stands at `now`.
    pub fn starting_at(first_id: i32, now: i64) -> (store: Self)
        ensures
            store@ == (Table {
                invites: Map::empty(),
                workshops: Set::empty(),
                next_id: if first_id < 1 { 1 } else { first_id as int },
                clock: now as int,
            }),
            store@.valid(),
    {
        let next_id = if first_id < 1 { 1 } else { first_id };
        let store = MemoryStore { invites: Vec::new(), workshops: Vec::new(), next_id, clock: now };
        assert(store@.invites =~= Map::empty());
        assert(store@.workshops =~= Set::empty());
        store
    }

    /// Moves the store out and leaves an empty one in its place.
    fn take(&mut self) -> (taken: Self)
        ensures
            taken == *old(self),
    {
        let mut taken = MemoryStore { invites: Vec::new(), workshops: Vec::new(), next_id: 1, clock: 0 };
        std::mem::swap(self, &mut taken);
        taken
    }

    fn position(&self, id: i32) -> (at: Option<usize>)
        ensures
            match at {
                Some(k) => k < self.invites@.len() && self.invites@[k as int].id == id,
                None => forall|i: int| 0 <= i < self.invites@.len() ==> (#[trigger] self.invites@[i]).id != id,
            },
    {
        let mut k: usize = 0;
        while k < self.invites.len()
            invariant
                k <= self.invites@.len(),
                forall|i: int| 0 <= i < k ==> (#[trigger] self.invites@[i]).id != id,
            decreases self.invites@.len() - k,
        {
            if self.invites[k].id == id {
                return Some(k);
            }
            k += 1;
        }
        None
    }

    /// Whether a workshop with the identifier `id` exists.
    pub fn has_workshop(&self, id: i32) -> (known: bool)
        ensures
            known == self@.workshops.contains(id as int),
    {
        let mut k: usize = 0;
        while k < self.workshops.len()
            invariant
                k <= self.workshops@.len(),
                forall|i: int| 0 <= i < k ==> #[trigger] self.workshops@[i] != id,
            decreases self.workshops@.len() - k,
        {
            if self.workshops[k] == id {
                return true;
            }
            k += 1;
        }
        false
    }

    /// Lets a workshop with the identifier `id` exist.
    pub fn add_workshop(&mut self, id: i32)
        ensures
            final(self)@ == (Table {
                workshops: old(self)@.workshops.insert(id as int),
                ..old(self)@
            }),
            final(self)@.valid(),
    {
        proof {
            use_type_invariant(&*self);
        }
        let ghost before = self.workshops@;
        let MemoryStore { invites, mut workshops, next_id, clock } = self.take();
        workshops.push(id);
        proof {
            assert(ids_of(before.push(id)) =~= ids_of(before).insert(id as int)) by {
                assert forall|w: int| ids_of(before).insert(id as int).contains(w) implies ids_of(
                    before.push(id),
                ).contains(w) by {
                    if w == id {
                        assert(before.push(id)[before.len() as int] == id);
                    } else {
                        let i = choose|i: int| 0 <= i < before.len() && #[trigger] before[i] == w;
                        assert(before.push(id)[i] == w);
                    }
                }
            }
        }
        *self = MemoryStore { invites, workshops, next_id, clock };
        proof {
            self.lemma_valid();
        }
    }

    fn insert(&mut self, patch: Invite<'_>) -> (answer: Answer<InviteModel>)
        ensures
            old(self)@.answers(Query::Insert(patch), final(self)@, answer),
            final(self)@.valid(),
    {
        proof {
            use_type_invariant(&*self);
            self.lemma_valid();
        }
        let workshop_id = match patch.workshop_id {
            None => {
                return Answer::Failed("workshop_id is required".to_owned());
            },
            Some(workshop_id) => workshop_id,
        };
        let email = match patch.email {
            None => {
                return Answer::Failed("email is required".to_owned());
            },
            Some(email) => email,
        };
        if email.is_empty() {
            return Answer::Failed("email is empty".to_owned());
        }
        if !self.has_workshop(workshop_id) {
            return Answer::Failed("no such workshop".to_owned());
        }
        if self.next_id == i32::MAX {
            return Answer::Failed("no identifier is left".to_owned());
        }
        if self.clock == i64::MAX {
            return Answer::Failed("no time is left".to_owned());
        }
        let MemoryStore { mut invites, workshops, next_id, clock } = self.take();
        let row = InviteModel {
            id: next_id,
            workshop_id,
            email: email.to_owned(),
            attending: match patch.attending {
                Some(attending) => attending,
                None => false,
            },
            pending: match patch.pending {
                Some(pending) => pending,
                None => true,
            },
            created_at: clock + 1,
            updated_at: clock + 1,
        };
        proof {
            lemma_rows_of_push(invites@, row);
        }
        invites.push(row);
        *self = MemoryStore { invites, workshops, next_id: next_id + 1, clock: clock + 1 };
        proof {
            self.lemma_valid();
        }
        Answer::Inserted(next_id)
    }

    fn select_all(&self) -> (answer: Answer<InviteModel>)
        ensures
            self@.answers(Query::SelectAll, self@, answer),
            answer matches Answer::Rows(rows) && ascending_ids(rows@),
            self@.valid(),
    {
        proof {
            use_type_invariant(self);
            self.lemma_valid();
        }
        let mut rows: Vec<InviteModel> = Vec::new();
        let mut k: usize = 0;
        while k < self.invites.len()
            invariant
                k <= self.invites@.len(),
                rows@ == self.invites@.subrange(0, k as int),
            decreases self.invites@.len() - k,
        {
            rows.push(self.invites[k].clone());
            k += 1;
            assert(rows@ =~= self.invites@.subrange(0, k as int));
        }
        assert(rows@ =~= self.invites@);
        Answer::Rows(rows)
    }

    fn select(&self, id: i32) -> (answer: Answer<InviteModel>)
        ensures
            self@.answers(Query::Select(id), self@, answer),
            self@.valid(),
    {
        proof {
            use_type_invariant(self);
            self.lemma_valid();
        }
        match self.position(id) {
            None => {
                proof {
                    lemma_rows_of_absent(self.invites@, id as int);
                }
                Answer::Row(None)
            },
            Some(k) => {
                proof {
                    lemma_rows_of_index(self.invites@, k as int);
                }
                Answer::Row(Some(self.invites[k].clone()))
            },
        }
    }

    fn change(&mut self, id: i32, patch: Invite<'_>) -> (answer: Answer<InviteModel>)
        ensures
            old(self)@.answers(Query::Update(id, patch), final(self)@, answer),
            final(self)@.valid(),
    {
        proof {
            use_type_invariant(&*self);
            self.lemma_valid();
        }
        if let Some(email) = patch.email {
            if email.is_empty() {
                return Answer::Failed("email is empty".to_owned());
            }
        }
        if let Some(workshop_id) = patch.workshop_id {
            if !self.has_workshop(workshop_id) {
                return Answer::Failed("no such workshop".to_owned());
            }
        }
        if self.clock == i64::MAX {
            return Answer::Failed("no time is left".to_owned());
        }
        match self.position(id) {
            None => {
                proof {
                    lemma_rows_of_absent(self.invites@, id as int);
                }
                Answer::Written
            },
            Some(k) => {
                        let MemoryStore { mut invites, workshops, next_id, clock } = self.take();
                let row = InviteModel {
                    id,
                    workshop_id: match patch.workshop_id {
                        Some(workshop_id) => workshop_id,
                        None => invites[k].workshop_id,
                    },
                    email: match patch.email {
                        Some(email) => email.to_owned(),
                        None => invites[k].email.clone(),
                    },
                    attending: match patch.attending {
                        Some(attending) => attending,
                        None => invites[k].attending,
                    },
                    pending: match patch.pending {
                        Some(pending) => pending,
                        None => invites[k].pending,
                    },
                    created_at: invites[k].created_at,
                    updated_at: clock + 1,
                };
                proof {
                    lemma_rows_of_index(invites@, k as int);
                    lemma_rows_of_update(invites@, k as int, row);
                }
                invites.set(k, row);
                *self = MemoryStore { invites, workshops, next_id, clock: clock + 1 };
                proof {
                    self.lemma_valid();
                }
                Answer::Written
            },
        }
    }

    fn remove(&mut self, id: i32) -> (answer: Answer<InviteModel>)
        ensures
            old(self)@.answers(Query::Delete(id), final(self)@, answer),
            final(self)@.valid(),
    {
        proof {
            use_type_invariant(&*self);
            self.lemma_valid();
        }
        match self.position(id) {
            None => {
                proof {
                    lemma_rows_of_absent(self.invites@, id as int);
                    assert(self@.invites.remove(id as int) =~= self@.invites);
                }
                Answer::Written
            },
            Some(k) => {
                        let MemoryStore { mut invites, workshops, next_id, clock } = self.take();
                proof {
                    lemma_rows_of_remove(invites@, k as int);
                }
                invites.remove(k);
                *self = MemoryStore { invites, workshops, next_id, clock };
                proof {
                    self.lemma_valid();
                }
                Answer::Written
            },
        }
    }

    /// Does the one unit of work that `query` names, and answers as the model
    /// says a store does.
    pub fn perform(&mut self, query: Query<Invite<'_>>) -> (answer: Answer<InviteModel>)
        ensures
            old(self)@.answers(query, final(self)@, answer),
            final(self)@.valid(),
    {
        match query {
            Query::Insert(patch) => self.insert(patch),
            Query::SelectAll => self.select_all(),
            Query::Select(id) => self.select(id),
            Query::Update(id, patch) => self.change(id, patch),
            Query::Delete(id) => self.remove(id),
        }
    }

    /// Creates a row from `patch` and hands back its identifier.
    pub fn create(&mut self, patch: Invite<'_>) -> (created: Result<i32, Error>)
        ensures
            old(self)@.creates(patch, final(self)@, created),
            final(self)@.valid(),
    {
        proof {
            use_type_invariant(&*self);
            self.lemma_valid();
        }
        match patch.create() {
            Step::Finished(Err(error)) => Err(error),
            Step::Ask(query, waiting) => match resume(waiting, self.perform(query)) {
                Step::Finished(Ok(Outcome::Created(id))) => Ok(id),
                Step::Finished(Err(error)) => Err(error),
                _ => unreached(),
            },
            _ => unreached(),
        }
    }

    /// Hands back every row, in the order of the identifiers.
    pub fn read_all(&self) -> (read: Result<Vec<InviteModel>, Error>)
        ensures
            self@.reads_all(read),
            read matches Ok(rows) && ascending_ids(rows@),
            self@.valid(),
    {
        match Invite::read_all() {
            Step::Ask(_, waiting) => match resume(waiting, self.select_all()) {
                Step::Finished(Ok(Outcome::All(rows))) => Ok(rows),
                _ => unreached(),
            },
            _ => unreached(),
        }
    }

    /// Hands back the row with the identifier `id`.
    pub fn read_one(&self, id: usize) -> (read: Result<InviteModel, Error>)
        ensures
            self@.reads_one(id, read),
            self@.valid(),
    {
        proof {
            use_type_invariant(self);
            self.lemma_valid();
        }
        match Invite::read_one(id) {
            Step::Finished(Err(error)) => Err(error),
            Step::Ask(Query::Select(id), waiting) => match resume(waiting, self.select(id)) {
                Step::Finished(Ok(Outcome::One(row))) => Ok(row),
                Step::Finished(Err(error)) => Err(error),
                _ => unreached(),
            },
            _ => unreached(),
        }
    }

    /// Applies `patch` to the row with the identifier `id`.
    pub fn update(&mut self, id: usize, patch: Invite<'_>) -> (updated: Result<(), Error>)
        ensures
            old(self)@.updates(id, patch, final(self)@, updated),
            final(self)@.valid(),
    {
        proof {
            use_type_invariant(&*self);
            self.lemma_valid();
        }
        match patch.update(id) {
            Step::Finished(Err(error)) => Err(error),
            Step::Ask(query, waiting) => match resume(waiting, self.perform(query)) {
                Step::Finished(Err(error)) => Err(error),
                Step::Ask(query, waiting) => match resume(waiting, self.perform(query)) {
                    Step::Finished(Ok(Outcome::Written)) => Ok(()),
                    Step::Finished(Err(error)) => Err(error),
                    _ => unreached(),
                },
                _ => unreached(),
            },
            _ => unreached(),
        }
    }

    /// Removes the row with the identifier `id`.
    pub fn delete(&mut self, id: usize) -> (deleted: Result<(), Error>)
        ensures
            old(self)@.deletes(id, final(self)@, deleted),
            final(self)@.valid(),
    {
        proof {
            use_type_invariant(&*self);
            self.lemma_valid();
        }
        match Invite::delete(id) {
            Step::Finished(Err(error)) => Err(error),
            Step::Ask(query, waiting) => match resume(waiting, self.perform(query)) {
                Step::Finished(Err(error)) => Err(error),
                Step::Ask(query, waiting) => match resume(waiting, self.perform(query)) {
                    Step::Finished(Ok(Outcome::Written)) => Ok(()),
                    _ => unreached(),
                },
                _ => unreached(),
            },
            _ => unreached(),
        }
    }
}

} // verus!
