//! The command line's values, as the library takes them.

use vstd::prelude::*;

use crate::error::NotifierError;
use crate::text::{is_blank, is_blank_text};

verus! {

/// The options of the `discord` command.
#[derive(Debug, Clone, PartialEq)]
pub struct DiscordArgs {
    /// URL of an image shown beside the embed.
    pub thumbnail: Option<String>,
    /// The embed's color.
    pub color: Option<u32>,
    /// The URL the webhook payload is sent to.
    pub webhook_url: String,
}

/// What to do with the service's last run.
#[derive(Debug, Clone, PartialEq)]
pub enum Commands {
    /// Send the run's logs and details to a Discord webhook.
    Discord(DiscordArgs),
    /// Print the run's logs.
    Print,
}

/// The service name to work on: a missing name counts as empty, and a
/// name of white space only (`str::trim` leaves nothing) is refused.
pub fn service_name_from_args(service_name: Option<String>) -> (res: Result<String, NotifierError>)
    ensures
        match service_name {
            Some(name) => if is_blank_text(name@) {
                res == Err::<String, NotifierError>(NotifierError::MissingServiceName)
            } else {
                res == Ok::<String, NotifierError>(name)
            },
            None => res == Err::<String, NotifierError>(NotifierError::MissingServiceName),
        },
{
    match service_name {
        Some(name) => {
            if is_blank(name.as_str()) {
                Err(NotifierError::MissingServiceName)
            } else {
                Ok(name)
            }
        },
        None => Err(NotifierError::MissingServiceName),
    }
}

} // verus!
