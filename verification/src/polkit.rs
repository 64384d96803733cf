use vstd::prelude::*;
use vstd::string::*;

verus! {

/// `zbus::message::Header`, the header of a D-Bus message, carried opaque.
#[verifier::external_type_specification]
#[verifier::external_body]
pub struct ExMessageHeader<'m>(zbus::message::Header<'m>);

/// `zbus_polkit::policykit1::Subject`, the subject polkit checks, carried opaque.
#[verifier::external_type_specification]
#[verifier::external_body]
pub struct ExSubject(zbus_polkit::policykit1::Subject);

/// `zbus_polkit::Error`, the failure to build a subject, carried opaque.
#[verifier::external_type_specification]
#[verifier::external_body]
pub struct ExPolkitError(zbus_polkit::Error);

/// Why a caller was refused: polkit denied it (`AuthFailed`, with its text),
/// or the authority could not be asked (`Bus`, the error of that call).
#[derive(Debug)]
pub enum AuthError<E> {
    AuthFailed(String),
    Bus(E),
}

impl<E> AuthError<E> {
    /// The text of an `AuthFailed` refusal.
    pub open spec fn auth_failed_message(self) -> Option<Seq<char>> {
        match self {
            AuthError::AuthFailed(m) => Some(m@),
            AuthError::Bus(_) => None,
        }
    }
}

/// Whether `zbus_polkit::policykit1::Subject::new_for_message_header` builds
/// a subject from the message header `header`. Its source builds one exactly
/// when the header carries a sender; that it depends on the header alone is
/// all the library states of it.
pub uninterp spec fn subject_created(header: zbus::message::Header<'static>) -> bool;

/// `zbus_polkit::policykit1::Subject::new_for_message_header`: the polkit
/// subject naming the sender of the message with `header`. The contract
/// states whether a subject is built, by the name `subject_created` of the
/// header; of the subject built it states nothing.
#[verifier::external_body]
fn subject_of_header(header: &zbus::message::Header<'_>) -> (res: Result<zbus_polkit::policykit1::Subject, zbus_polkit::Error>)
    ensures
        res is Ok == subject_created(*header),
{
    zbus_polkit::policykit1::Subject::new_for_message_header(header)
}

/// The subject to check for a request: any failure to build it refuses the
/// request with "Failed to create subject".
pub fn subject_reply<S, X, E>(created: Result<S, X>) -> (res: Result<S, AuthError<E>>)
    ensures
        created is Ok ==> res == Ok::<S, AuthError<E>>(created->Ok_0),
        created is Err ==> (res is Err
            && res->Err_0.auth_failed_message() == Some("Failed to create subject"@)),
{
    match created {
        Ok(subject) => Ok(subject),
        Err(_) => Err(AuthError::AuthFailed(String::from_str("Failed to create subject"))),
    }
}

/// Builds the polkit subject of the sender of the message with `header`;
/// a header from which none can be built refuses the request.
pub fn subject_for_header<E>(header: &zbus::message::Header<'_>) -> (res: Result<zbus_polkit::policykit1::Subject, AuthError<E>>)
    ensures
        res is Ok == subject_created(*header),
        res is Err ==> res->Err_0.auth_failed_message() == Some("Failed to create subject"@),
{
    subject_reply(subject_of_header(header))
}

/// What a request asks polkit: whether the subject may perform the action
/// `action_id`, with no details, allowing the user to be asked, and with no
/// cancellation id.
pub struct AuthorizationRequest {
    pub action_id: String,
    pub details: Vec<(String, String)>,
    pub allow_user_interaction: bool,
    pub cancellation_id: String,
}

/// The polkit check made for a request to perform `action_id`.
pub fn authorization_request(action_id: &str) -> (req: AuthorizationRequest)
    ensures
        req.action_id@ == action_id@,
        req.details@.len() == 0,
        req.allow_user_interaction,
        req.cancellation_id@.len() == 0,
{
    AuthorizationRequest {
        action_id: String::from_str(action_id),
        details: Vec::new(),
        allow_user_interaction: true,
        cancellation_id: String::new(),
    }
}

/// The verdict on a request once polkit was asked: the call's error passes
/// through; an authorized subject is let through; any other is refused with
/// "Sender not authorized".
pub fn authorization_verdict<E>(checked: Result<bool, E>) -> (res: Result<(), AuthError<E>>)
    ensures
        checked matches Ok(true) ==> res is Ok,
        checked matches Ok(false) ==> (res is Err
            && res->Err_0.auth_failed_message() == Some("Sender not authorized"@)),
        checked is Err ==> res == Err::<(), AuthError<E>>(AuthError::Bus(checked->Err_0)),
{
    match checked {
        Ok(true) => Ok(()),
        Ok(false) => Err(AuthError::AuthFailed(String::from_str("Sender not authorized"))),
        Err(e) => Err(AuthError::Bus(e)),
    }
}

} // verus!
