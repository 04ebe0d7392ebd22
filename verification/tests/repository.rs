use workshop_invites::error::{Error, Operation};
use workshop_invites::invite::{Invite, InviteModel};
use workshop_invites::repository::{resume, to_row_id, Answer, Outcome, Query, Step, Waiting};
use workshop_invites::resource::Resource;

type InviteStep<'i> = Step<Invite<'i>, InviteModel>;

fn patch(email: Option<&str>) -> Invite<'_> {
    Invite { workshop_id: Some(3), email, attending: None, pending: None }
}

fn row(id: i32) -> InviteModel {
    InviteModel {
        id,
        workshop_id: 3,
        email: "a@b.com".to_string(),
        attending: false,
        pending: true,
        created_at: 1,
        updated_at: 1,
    }
}

fn failure(operation: Operation, cause: &str) -> InviteStep<'static> {
    Step::Finished(Err(Error::Storage { operation, entity: "invite", cause: cause.to_string() }))
}

#[test]
fn create_asks_for_the_insert_of_the_patch() {
    let invite = patch(Some("a@b.com"));
    assert_eq!(invite.create(), Step::Ask(Query::Insert(invite), Waiting::Insert));
}

#[test]
fn create_without_email_ends_at_once() {
    assert_eq!(
        patch(None).create(),
        Step::Finished(Err(Error::Validation("missing email")))
    );
}

#[test]
fn create_with_empty_email_ends_at_once() {
    assert_eq!(
        patch(Some("")).create(),
        Step::Finished(Err(Error::Sanitization("invalid email format")))
    );
}

#[test]
fn create_hands_back_the_identifier_that_the_insert_reports() {
    let step: InviteStep = resume(Waiting::Insert, Answer::Inserted(41));
    assert_eq!(step, Step::Finished(Ok(Outcome::Created(41))));
}

#[test]
fn create_fails_when_the_insert_fails() {
    let step: InviteStep = resume(Waiting::Insert, Answer::Failed("no such workshop".to_string()));
    assert_eq!(step, failure(Operation::Create, "no such workshop"));
}

#[test]
fn read_all_asks_for_every_row() {
    assert_eq!(Invite::read_all(), Step::Ask(Query::SelectAll, Waiting::Rows));
}

#[test]
fn read_all_hands_back_the_rows() {
    let step: InviteStep = resume(Waiting::Rows, Answer::Rows(vec![row(1), row(2)]));
    assert_eq!(step, Step::Finished(Ok(Outcome::All(vec![row(1), row(2)]))));
}

#[test]
fn read_all_hands_back_no_rows_from_an_empty_store() {
    let step: InviteStep = resume(Waiting::Rows, Answer::Rows(vec![]));
    assert_eq!(step, Step::Finished(Ok(Outcome::All(vec![]))));
}

#[test]
fn read_all_fails_when_the_store_fails() {
    let step: InviteStep = resume(Waiting::Rows, Answer::Failed("timeout".to_string()));
    assert_eq!(step, failure(Operation::ReadAll, "timeout"));
}

#[test]
fn read_one_asks_for_the_row() {
    assert_eq!(Invite::read_one(5), Step::Ask(Query::Select(5), Waiting::Row));
}

#[test]
fn read_one_hands_back_the_row() {
    let step: InviteStep = resume(Waiting::Row, Answer::Row(Some(row(5))));
    assert_eq!(step, Step::Finished(Ok(Outcome::One(row(5)))));
}

#[test]
fn read_one_of_a_missing_row_is_not_found() {
    let step: InviteStep = resume(Waiting::Row, Answer::Row(None));
    assert_eq!(step, Step::Finished(Err(Error::NotFound)));
}

#[test]
fn read_one_fails_when_the_store_fails() {
    let step: InviteStep = resume(Waiting::Row, Answer::Failed("timeout".to_string()));
    assert_eq!(step, failure(Operation::ReadOne, "timeout"));
}

#[test]
fn update_looks_the_row_up_first() {
    let change = Invite::confirm();
    assert_eq!(change.update(5), Step::Ask(Query::Select(5), Waiting::RowToUpdate(5, change)));
}

#[test]
fn update_is_not_validated() {
    let change = Invite { workshop_id: None, email: None, attending: None, pending: Some(false) };
    assert_eq!(change.update(5), Step::Ask(Query::Select(5), Waiting::RowToUpdate(5, change)));
}

#[test]
fn update_with_empty_email_ends_at_once() {
    assert_eq!(
        patch(Some("")).update(5),
        Step::Finished(Err(Error::Sanitization("invalid email format")))
    );
}

#[test]
fn update_writes_once_the_row_is_found() {
    let change = Invite::confirm();
    let step: InviteStep = resume(Waiting::RowToUpdate(5, change), Answer::Row(Some(row(5))));
    assert_eq!(step, Step::Ask(Query::Update(5, change), Waiting::Update));
}

#[test]
fn update_of_a_missing_row_is_not_found() {
    let step: InviteStep = resume(Waiting::RowToUpdate(5, Invite::confirm()), Answer::Row(None));
    assert_eq!(step, Step::Finished(Err(Error::NotFound)));
}

#[test]
fn update_fails_when_the_lookup_fails() {
    let step: InviteStep =
        resume(Waiting::RowToUpdate(5, Invite::confirm()), Answer::Failed("timeout".to_string()));
    assert_eq!(step, failure(Operation::Update, "timeout"));
}

#[test]
fn update_ends_when_the_write_is_done() {
    let step: InviteStep = resume(Waiting::Update, Answer::Written);
    assert_eq!(step, Step::Finished(Ok(Outcome::Written)));
}

#[test]
fn update_fails_when_the_write_fails() {
    let step: InviteStep = resume(Waiting::Update, Answer::Failed("disk full".to_string()));
    assert_eq!(step, failure(Operation::Update, "disk full"));
}

#[test]
fn delete_looks_the_row_up_first() {
    assert_eq!(Invite::delete(5), Step::Ask(Query::Select(5), Waiting::RowToDelete(5)));
}

#[test]
fn delete_writes_once_the_row_is_found() {
    let step: InviteStep = resume(Waiting::RowToDelete(5), Answer::Row(Some(row(5))));
    assert_eq!(step, Step::Ask(Query::Delete(5), Waiting::Delete));
}

#[test]
fn delete_of_a_missing_row_is_not_found() {
    let step: InviteStep = resume(Waiting::RowToDelete(5), Answer::Row(None));
    assert_eq!(step, Step::Finished(Err(Error::NotFound)));
}

#[test]
fn delete_ends_when_the_write_is_done() {
    let step: InviteStep = resume(Waiting::Delete, Answer::Written);
    assert_eq!(step, Step::Finished(Ok(Outcome::Written)));
}

#[test]
fn delete_fails_when_the_write_fails() {
    let step: InviteStep = resume(Waiting::Delete, Answer::Failed("disk full".to_string()));
    assert_eq!(step, failure(Operation::Delete, "disk full"));
}

#[test]
fn an_answer_that_does_not_fit_is_a_failure_of_the_store() {
    let step: InviteStep = resume(Waiting::Insert, Answer::Written);
    assert_eq!(step, failure(Operation::Create, "the answer does not fit the query"));
    let step: InviteStep = resume(Waiting::Row, Answer::Inserted(1));
    assert_eq!(step, failure(Operation::ReadOne, "the answer does not fit the query"));
    let step: InviteStep = resume(Waiting::Update, Answer::Rows(vec![]));
    assert_eq!(step, failure(Operation::Update, "the answer does not fit the query"));
    let step: InviteStep = resume(Waiting::RowToDelete(5), Answer::Written);
    assert_eq!(step, failure(Operation::Delete, "the answer does not fit the query"));
}

#[test]
fn an_identifier_beyond_i32_is_the_identifier_of_no_row() {
    let beyond = 1usize << 31;
    let not_found: InviteStep = Step::Finished(Err(Error::NotFound));
    assert_eq!(Invite::read_one(beyond), not_found);
    assert_eq!(Invite::confirm().update(beyond), not_found);
    assert_eq!(Invite::delete(beyond), not_found);
    assert_eq!(Invite::read_one(usize::MAX), not_found);
}

#[test]
fn the_largest_identifier_is_asked_for() {
    assert_eq!(
        Invite::read_one(2147483647),
        Step::Ask(Query::Select(i32::MAX), Waiting::Row)
    );
    assert_eq!(Invite::read_one(0), Step::Ask(Query::Select(0), Waiting::Row));
}

#[test]
fn update_is_sanitized_before_the_identifier_is_looked_at() {
    assert_eq!(
        patch(Some("")).update(usize::MAX),
        Step::Finished(Err(Error::Sanitization("invalid email format")))
    );
}

#[test]
fn to_row_id_keeps_what_fits() {
    assert_eq!(to_row_id(0), Some(0));
    assert_eq!(to_row_id(41), Some(41));
    assert_eq!(to_row_id(2147483647), Some(i32::MAX));
    assert_eq!(to_row_id(2147483648), None);
    assert_eq!(to_row_id(usize::MAX), None);
}

#[test]
fn waiting_names_its_operation() {
    assert_eq!(Waiting::<Invite>::Insert.current(), Operation::Create);
    assert_eq!(Waiting::<Invite>::Rows.current(), Operation::ReadAll);
    assert_eq!(Waiting::<Invite>::Row.current(), Operation::ReadOne);
    assert_eq!(Waiting::RowToUpdate(1, Invite::confirm()).current(), Operation::Update);
    assert_eq!(Waiting::<Invite>::RowToDelete(1).current(), Operation::Delete);
    assert_eq!(Waiting::<Invite>::Update.current(), Operation::Update);
    assert_eq!(Waiting::<Invite>::Delete.current(), Operation::Delete);
}
