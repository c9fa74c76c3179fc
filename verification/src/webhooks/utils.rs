//! The notifier's identity and the reading of the webhook's answer.

use vstd::prelude::*;

use crate::error::NotifierError;

verus! {

/// Where the notifier's source lives; linked from every embed's author.
pub const NOTIFIER_REPO: &'static str = "https://github.com/SamusAranX/systemd-webhook-notifier";

/// The notifier's name; every embed's author and footer.
pub const NOTIFIER_NAME: &'static str = "systemd-webhook-notifier";

/// Whether an HTTP status is a success (`200..=299`), as
/// `reqwest::StatusCode::is_success` decides.
pub open spec fn is_success_status(status: u16) -> bool {
    200 <= status <= 299
}

/// What posting the webhook came to, from the answer's status and body:
/// a success status is `Ok`, any other is rejected with the body.
pub fn response_outcome(status: u16, body: String) -> (res: Result<(), NotifierError>)
    ensures
        is_success_status(status) ==> res == Ok::<(), NotifierError>(()),
        !is_success_status(status) ==> res == Err::<(), NotifierError>(
            NotifierError::WebhookRejected { status, body },
        ),
{
    if 200 <= status && status <= 299 {
        Ok(())
    } else {
        Err(NotifierError::WebhookRejected { status, body })
    }
}

} // verus!
