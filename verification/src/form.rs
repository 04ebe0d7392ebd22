//! What a visitor submits to ask for an invite.

use vstd::prelude::*;

verus! {

/// The submitted form: the workshop the visitor wants to attend, and the
/// address to write to.
#[derive(Clone, Copy, Debug, PartialEq, Eq)]
pub struct InviteForm<'f> {
    pub id: usize,
    pub email: &'f str,
}

impl<'f> InviteForm<'f> {
    /// The identifier of the workshop.
    pub fn id(&self) -> (id: usize)
        ensures
            id == self.id,
    {
        self.id
    }

    /// The visitor's address.
    pub fn email(&self) -> (email: &'f str)
        ensures
            email == self.email,
    {
        self.email
    }
}

} // verus!
