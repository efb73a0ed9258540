//! What a push-notification sender decides before it sends.

use vstd::prelude::*;

verus! {

/// The failure of a token repository that cannot look up groups.
#[derive(Clone, Copy, Debug, PartialEq, Eq, Structural)]
pub struct UnsupportedOperationError;

impl UnsupportedOperationError {
    /// The text of the failure.
    pub fn message(&self) -> (r: String)
        ensures
            r@ == "This operation is not supported"@,
    {
        "This operation is not supported".to_owned()
    }
}

/// The address to which messages for a project are sent.
pub open spec fn send_url(project_id: Seq<char>) -> Seq<char> {
    "https://fcm.googleapis.com/v1/projects/"@ + project_id + "/messages:send"@
}

/// Builds the address to which messages for a project are sent.
pub fn fcm_send_url(project_id: &str) -> (r: String)
    ensures
        r@ == send_url(project_id@),
{
    "https://fcm.googleapis.com/v1/projects/".to_owned().concat(project_id).concat(
        "/messages:send",
    )
}

/// The device token to send to, or the reason why nothing is sent: a user
/// without a token gets no message.
pub fn user_token_or_reason(token: Option<String>) -> (r: Result<String, String>)
    ensures
        match token {
            Some(t) => r == Ok::<String, String>(t),
            None => r is Err && r->Err_0@ == "User does not have an FCM token"@,
        },
{
    match token {
        Some(t) => Ok(t),
        None => Err("User does not have an FCM token".to_owned()),
    }
}

} // verus!
