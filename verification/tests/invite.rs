use workshop_invites::error::Error;
use workshop_invites::form::InviteForm;
use workshop_invites::invite::{Invite, InviteModel, Status};
use workshop_invites::resource::{Resource, Sanitize, Validate};

fn patch(email: Option<&str>) -> Invite<'_> {
    Invite { workshop_id: Some(3), email, attending: None, pending: None }
}

fn row(pending: bool, attending: bool) -> InviteModel {
    InviteModel {
        id: 1,
        workshop_id: 3,
        email: "a@b.com".to_string(),
        attending,
        pending,
        created_at: 10,
        updated_at: 12,
    }
}

#[test]
fn validate_accepts_a_patch_with_an_email() {
    assert_eq!(patch(Some("a@b.com")).validate(), Ok(()));
}

#[test]
fn validate_accepts_an_empty_email() {
    assert_eq!(patch(Some("")).validate(), Ok(()));
}

#[test]
fn validate_rejects_a_patch_without_an_email() {
    assert_eq!(patch(None).validate(), Err(Error::Validation("missing email")));
}

#[test]
fn validate_rejects_the_patch_with_nothing_set() {
    let empty = Invite { workshop_id: None, email: None, attending: None, pending: None };
    assert_eq!(empty.validate(), Err(Error::Validation("missing email")));
}

#[test]
fn validate_does_not_ask_for_a_workshop() {
    let no_workshop = Invite { workshop_id: None, email: Some("a@b.com"), attending: None, pending: None };
    assert_eq!(no_workshop.validate(), Ok(()));
}

#[test]
fn sanitize_accepts_a_patch_with_an_email() {
    assert_eq!(patch(Some("a@b.com")).sanitize(), Ok(()));
}

#[test]
fn sanitize_accepts_a_patch_without_an_email() {
    assert_eq!(patch(None).sanitize(), Ok(()));
}

#[test]
fn sanitize_rejects_an_empty_email() {
    assert_eq!(patch(Some("")).sanitize(), Err(Error::Sanitization("invalid email format")));
}

#[test]
fn sanitize_accepts_a_blank_that_is_not_empty() {
    assert_eq!(patch(Some(" ")).sanitize(), Ok(()));
}

#[test]
fn from_form_takes_the_workshop_and_the_email() {
    let form = InviteForm { id: 7, email: "a@b.com" };
    let invite = Invite::from(&form);
    assert_eq!(
        invite,
        Invite { workshop_id: Some(7), email: Some("a@b.com"), attending: None, pending: None }
    );
}

#[test]
fn from_form_keeps_an_empty_email_for_sanitize_to_reject() {
    let form = InviteForm { id: 7, email: "" };
    let invite = Invite::from(&form);
    assert_eq!(invite.email, Some(""));
    assert_eq!(invite.validate(), Ok(()));
    assert_eq!(invite.sanitize(), Err(Error::Sanitization("invalid email format")));
}

#[test]
fn from_form_wraps_a_workshop_beyond_i32() {
    let form = InviteForm { id: 1usize << 31, email: "a@b.com" };
    assert_eq!(Invite::from(&form).workshop_id, Some(i32::MIN));
}

#[test]
fn form_hands_out_its_fields() {
    let form = InviteForm { id: 7, email: "a@b.com" };
    assert_eq!(form.id(), 7);
    assert_eq!(form.email(), "a@b.com");
}

#[test]
fn entity_is_named_invite() {
    assert_eq!(<Invite as Resource>::entity(), "invite");
}

#[test]
fn status_of_each_pair_of_flags() {
    assert_eq!(row(true, false).status(), Some(Status::Pending));
    assert_eq!(row(false, true).status(), Some(Status::Attending));
    assert_eq!(row(false, false).status(), Some(Status::Declined));
    assert_eq!(row(true, true).status(), None);
}

#[test]
fn confirm_sets_the_two_flags_only() {
    assert_eq!(
        Invite::confirm(),
        Invite { workshop_id: None, email: None, attending: Some(true), pending: Some(false) }
    );
}

#[test]
fn decline_sets_the_two_flags_only() {
    assert_eq!(
        Invite::decline(),
        Invite { workshop_id: None, email: None, attending: Some(false), pending: Some(false) }
    );
}

#[test]
fn confirm_and_decline_pass_sanitize_but_not_validate() {
    assert_eq!(Invite::confirm().sanitize(), Ok(()));
    assert_eq!(Invite::decline().sanitize(), Ok(()));
    assert_eq!(Invite::confirm().validate(), Err(Error::Validation("missing email")));
}

#[test]
fn clone_of_a_row_is_the_row() {
    let kept = row(true, false);
    assert_eq!(kept.clone(), kept);
}
