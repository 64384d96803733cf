use mechanix::polkit::{authorization_request, authorization_verdict, subject_for_header, subject_reply, AuthError};

fn failed_text<T, E>(r: Result<T, AuthError<E>>) -> String {
    match r {
        Err(AuthError::AuthFailed(m)) => m,
        _ => panic!("expected an AuthFailed refusal"),
    }
}

#[test]
fn authorized_subject_passes() {
    assert!(authorization_verdict::<()>(Ok(true)).is_ok());
}

#[test]
fn unauthorized_subject_is_refused() {
    assert_eq!(failed_text(authorization_verdict::<()>(Ok(false))), "Sender not authorized");
}

#[test]
fn bus_error_passes_through() {
    match authorization_verdict::<u8>(Err(4)) {
        Err(AuthError::Bus(e)) => assert_eq!(e, 4),
        _ => panic!("expected the bus error"),
    }
}

#[test]
fn subject_failure_is_refused() {
    assert_eq!(failed_text(subject_reply::<u8, (), ()>(Err(()))), "Failed to create subject");
    assert_eq!(subject_reply::<u8, (), ()>(Ok(2)).ok(), Some(2));
}

#[test]
fn header_without_sender_gives_no_subject() {
    let msg = zbus::message::Message::method_call("/org/mechanix/test", "Get")
        .build(&())
        .unwrap();
    let header = msg.header();
    assert_eq!(failed_text(subject_for_header::<()>(&header)), "Failed to create subject");
}

#[test]
fn header_with_sender_gives_a_subject() {
    let msg = zbus::message::Message::method_call("/org/mechanix/test", "Get")
        .sender(":1.42")
        .build(&())
        .unwrap();
    let header = msg.header();
    assert!(subject_for_header::<()>(&header).is_ok());
}

#[test]
fn authorization_request_asks_interactively_without_details() {
    let r = authorization_request("org.mechanix.services.display.getbrightness");
    assert_eq!(r.action_id, "org.mechanix.services.display.getbrightness");
    assert!(r.details.is_empty());
    assert!(r.allow_user_interaction);
    assert_eq!(r.cancellation_id, "");
}
