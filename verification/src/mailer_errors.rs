//! Failures of the notification hook.

use vstd::prelude::*;

verus! {

/// Why a notification could not be sent.
#[derive(Debug, PartialEq, Eq)]
pub enum MailerError {
    /// A setting that the mailer needs is absent.
    MissingConfig(String),
    /// The transport refused or lost the message.
    TransportError(String),
}

impl MailerError {
    /// The text that the error carries.
    pub open spec fn text(&self) -> Seq<char> {
        match self {
            MailerError::MissingConfig(text) => text@,
            MailerError::TransportError(text) => text@,
        }
    }

    /// The error's text, as it is shown to a reader.
    pub fn message(&self) -> (message: String)
        ensures
            message@ == self.text(),
    {
        match self {
            MailerError::MissingConfig(text) => text.clone(),
            MailerError::TransportError(text) => text.clone(),
        }
    }
}

impl Clone for MailerError {
    fn clone(&self) -> (copy: Self)
        ensures
            copy == *self,
    {
        match self {
            MailerError::MissingConfig(text) => MailerError::MissingConfig(text.clone()),
            MailerError::TransportError(text) => MailerError::TransportError(text.clone()),
        }
    }
}

} // verus!
