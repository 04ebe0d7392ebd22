use workshop_invites::error::{Error, Operation};

#[test]
fn message_of_a_validation_error_is_what_is_missing() {
    assert_eq!(Error::Validation("missing email").message(), "missing email");
}

#[test]
fn message_of_a_sanitization_error_is_what_is_wrong() {
    assert_eq!(Error::Sanitization("invalid email format").message(), "invalid email format");
}

#[test]
fn message_of_not_found() {
    assert_eq!(Error::NotFound.message(), "not found");
}

#[test]
fn message_of_a_storage_error_is_the_cause() {
    let error = Error::Storage {
        operation: Operation::Update,
        entity: "invite",
        cause: "connection refused".to_string(),
    };
    assert_eq!(error.message(), "connection refused");
}
