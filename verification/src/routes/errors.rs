//! The failures that a request can end in, and how they are reported.
//!
//! Every failure is reported with status 400 and its text as the body.

use vstd::prelude::*;
use vstd::std_specs::convert::FromSpecImpl;
use crate::mailer_errors::MailerError;

verus! {

/// The status with which every failure is reported.
pub const BAD_REQUEST: u16 = 400;

/// What a store reports when a row that a step needs is absent.
pub const RECORD_NOT_FOUND: &'static str = "Record not found";

/// Why a request on rents failed.
#[derive(Debug, PartialEq, Eq)]
pub enum RentError {
    /// A timestamp or a token in the request is malformed.
    Parse(String),
    /// The store could not carry out a step.
    Database(String),
    /// A booking rule rejects the request.
    Validation(String),
    /// A row that the request refers to is absent.
    NotFound(String),
    /// The booking stands, but its notification could not be sent.
    MailError(String),
}

impl RentError {
    /// The text that the error carries.
    pub open spec fn text(&self) -> Seq<char> {
        match self {
            RentError::Parse(text) => text@,
            RentError::Database(text) => text@,
            RentError::Validation(text) => text@,
            RentError::NotFound(text) => text@,
            RentError::MailError(text) => text@,
        }
    }

    /// The error's text, which is the body of the reply.
    pub fn message(&self) -> (message: String)
        ensures
            message@ == self.text(),
    {
        match self {
            RentError::Parse(text) => text.clone(),
            RentError::Database(text) => text.clone(),
            RentError::Validation(text) => text.clone(),
            RentError::NotFound(text) => text.clone(),
            RentError::MailError(text) => text.clone(),
        }
    }

    /// The status of the reply.
    pub fn status(&self) -> (status: u16)
        ensures
            status == BAD_REQUEST,
    {
        BAD_REQUEST
    }
}

impl Clone for RentError {
    fn clone(&self) -> (copy: Self)
        ensures
            copy == *self,
    {
        match self {
            RentError::Parse(text) => RentError::Parse(text.clone()),
            RentError::Database(text) => RentError::Database(text.clone()),
            RentError::Validation(text) => RentError::Validation(text.clone()),
            RentError::NotFound(text) => RentError::NotFound(text.clone()),
            RentError::MailError(text) => RentError::MailError(text.clone()),
        }
    }
}

impl From<MailerError> for RentError {
    /// A failed notification is reported under a kind of its own, with the
    /// mailer's text.
    fn from(err: MailerError) -> (converted: RentError) {
        match err {
            MailerError::MissingConfig(text) => RentError::MailError(text),
            MailerError::TransportError(text) => RentError::MailError(text),
        }
    }
}

impl FromSpecImpl<MailerError> for RentError {
    open spec fn obeys_from_spec() -> bool {
        true
    }

    open spec fn from_spec(err: MailerError) -> RentError {
        match err {
            MailerError::MissingConfig(text) => RentError::MailError(text),
            MailerError::TransportError(text) => RentError::MailError(text),
        }
    }
}

/// Why a request on challenges failed.
#[derive(Debug, PartialEq, Eq)]
pub enum ChallengeError {
    /// The locale in the request is malformed.
    Parse(String),
    /// The store could not carry out a step.
    Database(String),
    /// The answer is not the challenge's answer.
    Validation(String),
    /// No challenge exists for the request.
    NotFound(String),
}

impl ChallengeError {
    /// The text that the error carries.
    pub open spec fn text(&self) -> Seq<char> {
        match self {
            ChallengeError::Parse(text) => text@,
            ChallengeError::Database(text) => text@,
            ChallengeError::Validation(text) => text@,
            ChallengeError::NotFound(text) => text@,
        }
    }

    /// The error's text, which is the body of the reply.
    pub fn message(&self) -> (message: String)
        ensures
            message@ == self.text(),
    {
        match self {
            ChallengeError::Parse(text) => text.clone(),
            ChallengeError::Database(text) => text.clone(),
            ChallengeError::Validation(text) => text.clone(),
            ChallengeError::NotFound(text) => text.clone(),
        }
    }

    /// The status of the reply.
    pub fn status(&self) -> (status: u16)
        ensures
            status == BAD_REQUEST,
    {
        BAD_REQUEST
    }
}

impl Clone for ChallengeError {
    fn clone(&self) -> (copy: Self)
        ensures
            copy == *self,
    {
        match self {
            ChallengeError::Parse(text) => ChallengeError::Parse(text.clone()),
            ChallengeError::Database(text) => ChallengeError::Database(text.clone()),
            ChallengeError::Validation(text) => ChallengeError::Validation(text.clone()),
            ChallengeError::NotFound(text) => ChallengeError::NotFound(text.clone()),
        }
    }
}

} // verus!
