//! Invites to a workshop: the proposed change and the stored row.

use vstd::prelude::*;
use vstd::std_specs::convert::FromSpecImpl;
use crate::error::Error;
use crate::form::InviteForm;
use crate::resource::{Resource, Sanitize, Validate};

verus! {

/// A proposed invite, or a proposed change to one: every field may be absent.
#[derive(Clone, Copy, Debug, PartialEq, Eq)]
pub struct Invite<'i> {
    pub workshop_id: Option<i32>,
    pub email: Option<&'i str>,
    pub attending: Option<bool>,
    pub pending: Option<bool>,
}

/// A stored invite. The store assigns `id` and keeps the two times, which
/// count microseconds since the epoch.
#[derive(Debug, PartialEq, Eq)]
pub struct InviteModel {
    pub id: i32,
    pub workshop_id: i32,
    pub email: String,
    pub attending: bool,
    pub pending: bool,
    pub created_at: i64,
    pub updated_at: i64,
}

/// A stored invite as the contracts see it.
pub struct InviteRow {
    pub id: int,
    pub workshop_id: int,
    pub email: Seq<char>,
    pub attending: bool,
    pub pending: bool,
    pub created_at: int,
    pub updated_at: int,
}

/// Where an invite stands.
#[derive(Clone, Copy, Debug, PartialEq, Eq, Structural)]
pub enum Status {
    /// Asked for, not yet answered by an organizer.
    Pending,
    /// Confirmed by an organizer.
    Attending,
    /// Declined by an organizer.
    Declined,
}

/// The status that the two flags of a row stand for. A row that is pending
/// and attending at once has none: no step of the normal flow leads there,
/// yet nothing forbids an update that does.
pub open spec fn status_of(pending: bool, attending: bool) -> Option<Status> {
    if pending && attending {
        None
    } else if pending {
        Some(Status::Pending)
    } else if attending {
        Some(Status::Attending)
    } else {
        Some(Status::Declined)
    }
}

impl View for InviteModel {
    type V = InviteRow;

    open spec fn view(&self) -> InviteRow {
        InviteRow {
            id: self.id as int,
            workshop_id: self.workshop_id as int,
            email: self.email@,
            attending: self.attending,
            pending: self.pending,
            created_at: self.created_at as int,
            updated_at: self.updated_at as int,
        }
    }
}

impl Clone for InviteModel {
    fn clone(&self) -> (copy: Self)
        ensures
            copy == *self,
    {
        InviteModel {
            id: self.id,
            workshop_id: self.workshop_id,
            email: self.email.clone(),
            attending: self.attending,
            pending: self.pending,
            created_at: self.created_at,
            updated_at: self.updated_at,
        }
    }
}

impl InviteModel {
    /// Where the invite stands.
    pub fn status(&self) -> (status: Option<Status>)
        ensures
            status == status_of(self.pending, self.attending),
    {
        if self.pending && self.attending {
            None
        } else if self.pending {
            Some(Status::Pending)
        } else if self.attending {
            Some(Status::Attending)
        } else {
            Some(Status::Declined)
        }
    }
}

impl InviteRow {
    /// The row that a store makes of `patch`: under the identifier `id`, at
    /// the time `now`, pending and not attending unless the patch says
    /// otherwise.
    pub open spec fn inserted(patch: Invite, id: int, now: int) -> InviteRow
        recommends
            patch.workshop_id is Some,
            patch.email is Some,
    {
        InviteRow {
            id,
            workshop_id: patch.workshop_id->0 as int,
            email: patch.email->0@,
            attending: if let Some(attending) = patch.attending { attending } else { false },
            pending: if let Some(pending) = patch.pending { pending } else { true },
            created_at: now,
            updated_at: now,
        }
    }

    /// The row after `patch` was applied at the time `now`: the fields that
    /// the patch holds are replaced, the others stay.
    pub open spec fn patched(self, patch: Invite, now: int) -> InviteRow {
        InviteRow {
            id: self.id,
            workshop_id: if let Some(workshop_id) = patch.workshop_id {
                workshop_id as int
            } else {
                self.workshop_id
            },
            email: if let Some(email) = patch.email { email@ } else { self.email },
            attending: if let Some(attending) = patch.attending { attending } else { self.attending },
            pending: if let Some(pending) = patch.pending { pending } else { self.pending },
            created_at: self.created_at,
            updated_at: now,
        }
    }
}

impl Invite<'static> {
    /// The change by which an organizer confirms an invite.
    pub fn confirm() -> (patch: Self)
        ensures
            patch == (Invite { workshop_id: None, email: None, attending: Some(true), pending: Some(false) }),
    {
        Invite { workshop_id: None, email: None, attending: Some(true), pending: Some(false) }
    }

    /// The change by which an organizer declines an invite.
    pub fn decline() -> (patch: Self)
        ensures
            patch == (Invite { workshop_id: None, email: None, attending: Some(false), pending: Some(false) }),
    {
        Invite { workshop_id: None, email: None, attending: Some(false), pending: Some(false) }
    }
}

impl<'i> From<&'i InviteForm<'i>> for Invite<'i> {
    /// The invite that a submitted form asks for. The two flags are left to
    /// the store.
    fn from(form: &'i InviteForm<'i>) -> (invite: Self) {
        Invite {
            workshop_id: Some(form.id() as i32),
            email: Some(form.email()),
            attending: None,
            pending: None,
        }
    }
}

impl<'i> FromSpecImpl<&'i InviteForm<'i>> for Invite<'i> {
    open spec fn obeys_from_spec() -> bool {
        true
    }

    open spec fn from_spec(form: &'i InviteForm<'i>) -> Self {
        Invite {
            workshop_id: Some(form.id as i32),
            email: Some(form.email),
            attending: None,
            pending: None,
        }
    }
}

impl<'i> Resource for Invite<'i> {
    type Model = InviteModel;

    open spec fn entity_name() -> &'static str {
        "invite"
    }

    fn entity() -> (name: &'static str) {
        "invite"
    }
}

impl<'i> Validate for Invite<'i> {
    open spec fn missing(&self) -> Option<&'static str> {
        if self.email is None {
            Some("missing email")
        } else {
            None
        }
    }

    fn validate(&self) -> (checked: Result<(), Error>) {
        match self.email {
            None => Err(Error::Validation("missing email")),
            Some(_) => Ok(()),
        }
    }
}

impl<'i> Sanitize for Invite<'i> {
    open spec fn malformed(&self) -> Option<&'static str> {
        if self.email matches Some(email) && email@.len() == 0 {
            Some("invalid email format")
        } else {
            None
        }
    }

    fn sanitize(&self) -> (checked: Result<(), Error>) {
        if let Some(email) = self.email {
            if email.is_empty() {
                return Err(Error::Sanitization("invalid email format"));
            }
        }
        Ok(())
    }
}

} // verus!
